use wgpu_core_demo::UserEvent;
use wgpu_core_demo::app::App;
use wgpu_core_demo::app::AppError;
use wgpu_core_demo::app::WindowEventKind;
use wgpu_core_demo::handles::AutoDropId;
use wgpu_core_demo::handles::HandleKind;
use wgpu_core_demo::render::ReconfigureAction;
use wgpu_core_demo::render::WgpuRenderer;

/// A renderer over distinct raw handles, as the boundary would assemble it
/// after creating the window's GPU resources.
fn renderer(instance: u64, base: u64, width: u32, height: u32) -> WgpuRenderer {
    WgpuRenderer::new(
        AutoDropId::new(instance, HandleKind::Surface, base),
        AutoDropId::new(instance, HandleKind::Buffer, base + 1),
        AutoDropId::new(instance, HandleKind::Buffer, base + 2),
        AutoDropId::new(instance, HandleKind::BindGroup, base + 3),
        width,
        height,
    )
}

fn app_with_context(terminate_on_empty: bool) -> App {
    let mut app = App::new(terminate_on_empty);
    let ev = app.state.context_ready();
    assert!(matches!(ev, UserEvent::RequestNew));
    app
}

#[test]
fn add_window_needs_render_context() {
    let mut app = App::new(true);
    let r = app.state.add_window(1, 100, 100, renderer(1, 10, 100, 100));
    assert_eq!(r, Err(AppError::NoRenderContext));
    assert_eq!(app.state.app_entries.len(), 0);
}

#[test]
fn resize_zero_keeps_pending_and_orders_no_reconfiguration() {
    // Start with zero windows, create one, then receive a resize to (0, 0).
    let mut app = app_with_context(true);
    app.state.add_window(5, 1024, 768, renderer(1, 10, 1024, 768)).unwrap();

    let out = app.window_event(5, WindowEventKind::Resized(0, 0));
    // No reconfiguration is observed...
    assert_eq!(out.reconfigure, None);
    assert!(!out.drew && !out.closed && !out.exit);
    assert!(out.releases.is_empty());
    // ...and the pending flag stays set for a later valid size.
    assert_eq!(app.state.app_entries[0].1.dirty_resized, Some((0, 0)));

    // A later valid size replaces the pending one; the next draw applies it.
    app.window_event(5, WindowEventKind::Resized(800, 600));
    app.handle_resumed();
    let out = app.window_event(5, WindowEventKind::RedrawRequested);
    assert_eq!(
        out.reconfigure,
        Some(ReconfigureAction {
            surface: 10,
            width: 800,
            height: 600
        })
    );
    assert!(out.drew);
    assert_eq!(app.state.app_entries[0].1.renderer.config_width, 800);
    assert_eq!(app.state.app_entries[0].1.renderer.config_height, 600);
}

#[test]
fn draw_with_zero_pending_size_skips_reconfiguration() {
    let mut app = app_with_context(false);
    app.state.add_window(5, 640, 480, renderer(1, 10, 640, 480)).unwrap();
    app.handle_resumed();
    app.window_event(5, WindowEventKind::Resized(0, 480));
    let out = app.window_event(5, WindowEventKind::RedrawRequested);
    // The draw takes the pending size but must not reconfigure with a zero
    // dimension: the configuration keeps its previous values.
    assert!(out.drew);
    assert_eq!(out.reconfigure, None);
    assert_eq!(app.state.app_entries[0].1.dirty_resized, None);
    assert_eq!(app.state.app_entries[0].1.renderer.config_width, 640);
    assert_eq!(app.state.app_entries[0].1.renderer.config_height, 480);
}

#[test]
fn close_removes_the_entry_exactly_once() {
    let mut app = app_with_context(false);
    app.state.add_window(5, 100, 100, renderer(1, 10, 100, 100)).unwrap();

    let out = app.window_event(5, WindowEventKind::CloseRequested);
    assert!(out.closed);
    assert_eq!(out.releases.len(), 4);
    assert_eq!(app.state.app_entries.len(), 0);

    // Further events for the same window arrive in the same frame: nothing
    // is removed or released a second time.
    let again = app.window_event(5, WindowEventKind::CloseRequested);
    assert!(!again.closed && !again.exit);
    assert!(again.releases.is_empty());
    let esc = app.window_event(5, WindowEventKind::EscapePressed);
    assert!(!esc.closed && !esc.exit);
}

#[test]
fn escape_closes_like_a_close_request() {
    let mut app = app_with_context(true);
    app.state.add_window(9, 100, 100, renderer(1, 40, 100, 100)).unwrap();
    let out = app.window_event(9, WindowEventKind::EscapePressed);
    assert!(out.closed && out.exit);
}

#[test]
fn exit_signal_fires_exactly_once_on_the_last_removal() {
    let mut app = app_with_context(true);
    app.state.add_window(1, 100, 100, renderer(1, 10, 100, 100)).unwrap();
    app.state.add_window(2, 100, 100, renderer(1, 20, 100, 100)).unwrap();

    // Removing a window that is not the last one does not signal.
    let first = app.window_event(1, WindowEventKind::CloseRequested);
    assert!(first.closed && !first.exit);

    // Removing the last one signals, once.
    let last = app.window_event(2, WindowEventKind::CloseRequested);
    assert!(last.closed && last.exit);

    // Any further close request finds an empty set and never signals again.
    let after = app.window_event(2, WindowEventKind::CloseRequested);
    assert!(!after.closed && !after.exit);
}

#[test]
fn no_exit_signal_without_the_terminate_flag() {
    let mut app = app_with_context(false);
    app.state.add_window(1, 100, 100, renderer(1, 10, 100, 100)).unwrap();
    let out = app.window_event(1, WindowEventKind::CloseRequested);
    assert!(out.closed && !out.exit);
}

#[test]
fn closing_one_window_leaves_the_other_untouched() {
    let mut app = app_with_context(true);
    app.state.add_window(1, 100, 100, renderer(1, 10, 100, 100)).unwrap();
    app.state.add_window(2, 200, 150, renderer(1, 20, 200, 150)).unwrap();
    app.handle_resumed();

    let out = app.window_event(1, WindowEventKind::CloseRequested);
    assert!(out.closed && !out.exit);

    // The remaining window's entry — id, pending size, renderer state — is
    // exactly as it was.
    assert_eq!(app.state.app_entries.len(), 1);
    let (key, remaining) = &app.state.app_entries[0];
    assert_eq!(*key, 2);
    assert_eq!(remaining.window, 2);
    assert_eq!(remaining.dirty_resized, Some((200, 150)));
    assert_eq!(remaining.renderer.config_width, 200);
    assert_eq!(remaining.renderer.config_height, 150);
    assert_eq!(remaining.renderer.surface.raw(), 20);
    assert_eq!(remaining.renderer.surface.kind(), wgpu_core_demo::handles::HandleKind::Surface);

    // And its next draw succeeds: the frame is drawn and its own pending
    // size reaches its own surface.
    let draw = app.window_event(2, WindowEventKind::RedrawRequested);
    assert!(draw.drew);
    assert_eq!(
        draw.reconfigure,
        Some(ReconfigureAction {
            surface: 20,
            width: 200,
            height: 150
        })
    );
}

#[test]
fn redraw_is_ignored_while_suspended() {
    let mut app = app_with_context(true);
    app.state.add_window(3, 100, 100, renderer(1, 10, 100, 100)).unwrap();
    // The application starts suspended; without a resume, a redraw draws
    // nothing and applies no pending resize.
    let out = app.window_event(3, WindowEventKind::RedrawRequested);
    assert!(!out.drew);
    assert_eq!(out.reconfigure, None);
    assert_eq!(app.state.app_entries[0].1.dirty_resized, Some((100, 100)));

    app.handle_resumed();
    let out = app.window_event(3, WindowEventKind::RedrawRequested);
    assert!(out.drew);

    app.handle_suspended();
    let out = app.window_event(3, WindowEventKind::RedrawRequested);
    assert!(!out.drew);
}

#[test]
fn resume_requests_a_redraw_of_every_window() {
    let mut app = App::new(true);
    // Before the render context exists, a resume changes nothing.
    assert_eq!(app.handle_resumed(), Vec::<u64>::new());

    app.state.context_ready();
    app.state.add_window(4, 100, 100, renderer(1, 10, 100, 100)).unwrap();
    app.state.add_window(6, 100, 100, renderer(1, 20, 100, 100)).unwrap();
    assert_eq!(app.handle_resumed(), vec![4, 6]);
}

#[test]
fn events_for_unknown_windows_do_nothing() {
    let mut app = app_with_context(true);
    app.state.add_window(1, 100, 100, renderer(1, 10, 100, 100)).unwrap();
    app.handle_resumed();

    let out = app.window_event(99, WindowEventKind::Resized(50, 50));
    assert_eq!(out.reconfigure, None);
    let out = app.window_event(99, WindowEventKind::RedrawRequested);
    assert!(!out.drew);
    let out = app.window_event(99, WindowEventKind::Other);
    assert!(!out.closed && !out.exit && !out.drew);
    assert_eq!(app.state.app_entries.len(), 1);
    assert_eq!(app.state.app_entries[0].1.dirty_resized, Some((100, 100)));
}

#[test]
fn replacing_a_window_entry_releases_the_displaced_renderer() {
    let mut app = app_with_context(false);
    app.state.add_window(1, 100, 100, renderer(1, 10, 100, 100)).unwrap();
    let displaced = app.state.add_window(1, 300, 300, renderer(1, 20, 300, 300)).unwrap();
    // The displaced renderer's four resources are released...
    assert_eq!(displaced.len(), 4);
    assert_eq!(displaced[0].raw, 10);
    // ...and exactly one entry remains, the new one.
    assert_eq!(app.state.app_entries.len(), 1);
    assert_eq!(app.state.app_entries[0].1.dirty_resized, Some((300, 300)));
}
