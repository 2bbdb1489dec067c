//! Window lifecycle and event dispatch.
//!
//! The event loop at the unverified boundary delivers window events; this
//! module decides what each event does to the active window set and which
//! actions the boundary must carry out in response: reconfigure a surface,
//! draw a frame, release the resources of a closed window, or stop the loop.
//! A close request or an escape key removes the window's entry; a resize is
//! recorded lazily and applied at the next draw; a redraw is ignored while
//! the application is suspended; and when the last entry leaves while the
//! terminate-on-empty flag holds, the loop-exit signal fires.

use vstd::prelude::*;

use crate::UserEvent;
use crate::entry_map::key_seq;
use crate::entry_map::lemma_map_of_contains;
use crate::entry_map::lemma_map_of_empty;
use crate::entry_map::lemma_map_of_index;
use crate::entry_map::lemma_map_of_push;
use crate::entry_map::lemma_map_of_remove;
use crate::entry_map::lemma_map_of_update;
use crate::entry_map::map_of;
use crate::entry_map::unique_keys;
use crate::handles::ReleaseAction;
use crate::render::ReconfigureAction;
use crate::render::WgpuRenderer;
use crate::render::valid_surface_size;

verus! {

/// The window events the dispatcher distinguishes.  Everything else the
/// windowing system delivers falls under `Other` and is ignored.
#[derive(Clone, Copy, PartialEq, Eq, Structural, Debug)]
pub enum WindowEventKind {
    CloseRequested,
    EscapePressed,
    Resized(u32, u32),
    RedrawRequested,
    Other,
}

/// Why the application refused a request.
#[derive(Clone, Copy, PartialEq, Eq, Structural, Debug)]
pub enum AppError {
    /// A window was requested before the GPU render context existed.
    NoRenderContext,
}

/// One window's entry in the active set: the window it belongs to, the
/// dimensions of a resize not yet applied to the surface, and the window's
/// renderer.
pub struct Entry {
    pub window: u64,
    pub dirty_resized: Option<(u32, u32)>,
    pub renderer: WgpuRenderer,
}

impl Entry {
    /// The renderer's resources are all of the right kind and still owed
    /// their release.
    pub open spec fn wf(self) -> bool {
        self.renderer.wf()
    }

    /// This entry with the pending-resize flag set to `d`.
    pub open spec fn with_dirty(self, d: Option<(u32, u32)>) -> Entry {
        Entry { dirty_resized: d, ..self }
    }

    /// The entry after one draw step: the pending size is taken, and applied
    /// to the surface configuration only if both dimensions are strictly
    /// positive.
    pub open spec fn after_draw(self) -> Entry {
        match self.dirty_resized {
            Some(p) => if valid_surface_size(p.0, p.1) {
                Entry {
                    dirty_resized: None,
                    renderer: self.renderer.with_config(p.0, p.1),
                    ..self
                }
            } else {
                Entry { dirty_resized: None, ..self }
            },
            None => Entry { dirty_resized: None, ..self },
        }
    }

    /// The reconfiguration the draw step orders: one exactly when a resize
    /// to strictly positive dimensions is pending.
    pub open spec fn draw_reconfigure(self) -> Option<ReconfigureAction> {
        match self.dirty_resized {
            Some(p) => if valid_surface_size(p.0, p.1) {
                Some(
                    ReconfigureAction {
                        surface: self.renderer.surface@.raw,
                        width: p.0,
                        height: p.1,
                    },
                )
            } else {
                None
            },
            None => None,
        }
    }

    /// A just-created window's entry: its full inner size is pending, so the
    /// first draw configures the surface.
    pub fn new(window: u64, width: u32, height: u32, renderer: WgpuRenderer) -> (e: Entry)
        requires
            renderer.wf(),
        ensures
            e == (Entry { window, dirty_resized: Some((width, height)), renderer }),
            e.wf(),
    {
        Entry { window, dirty_resized: Some((width, height)), renderer }
    }

    /// Record a resize: the new dimensions replace any pending ones and are
    /// applied lazily, at the next draw.  No surface call happens here, even
    /// for a zero size; the pending flag stays set for the draw to inspect.
    pub fn handle_resize(&mut self, width: u32, height: u32)
        ensures
            *final(self) == old(self).with_dirty(Some((width, height))),
    {
        self.dirty_resized = Some((width, height));
    }

    /// One draw step: take the pending resize, reconfigure the surface only
    /// if the pending dimensions are strictly positive, and leave the frame
    /// itself to the boundary.
    pub fn handle_draw(&mut self) -> (a: Option<ReconfigureAction>)
        ensures
            *final(self) == old(self).after_draw(),
            a == old(self).draw_reconfigure(),
            a is Some <==> (old(self).dirty_resized matches Some(p) && valid_surface_size(
                p.0,
                p.1,
            )),
    {
        let pending = self.dirty_resized;
        self.dirty_resized = None;
        match pending {
            Some((width, height)) => self.renderer.request_resize(width, height),
            None => None,
        }
    }
}

/// No window is active.
pub open spec fn no_windows(entries: Map<u64, Entry>) -> bool {
    forall|id: u64| !entries.dom().contains(id)
}

/// What a close request (a close-requested or escape-key event) does to the
/// window table: the entry of `id`, if present, leaves the set; the loop-exit
/// signal fires exactly when an entry left, the set is now empty, and the
/// application terminates on empty.  Yields the table after the event,
/// whether an entry was removed, and whether the exit signal fires.
pub open spec fn close_transition(
    entries: Map<u64, Entry>,
    terminate_on_empty: bool,
    id: u64,
) -> (Map<u64, Entry>, bool, bool) {
    let removed = entries.dom().contains(id);
    let after = entries.remove(id);
    (after, removed, removed && terminate_on_empty && no_windows(after))
}

/// Law: a close request removes the window's entry exactly once.  However
/// many further close requests for the same window arrive, after the first
/// one the entry is gone, and none of them removes anything or signals
/// anything.
pub proof fn lemma_close_removes_exactly_once(
    entries: Map<u64, Entry>,
    terminate_on_empty: bool,
    id: u64,
)
    ensures
        !close_transition(
            close_transition(entries, terminate_on_empty, id).0,
            terminate_on_empty,
            id,
        ).1,
        !close_transition(
            close_transition(entries, terminate_on_empty, id).0,
            terminate_on_empty,
            id,
        ).2,
{
    assert(!close_transition(entries, terminate_on_empty, id).0.dom().contains(id));
}

/// Law: the loop-exit signal fires exactly once.  It fires only on a close
/// that removes the last entry while the terminate-on-empty flag holds, and
/// once it has fired the set is empty, so no later close request — for this
/// window or any other — removes anything or signals again.
pub proof fn lemma_exit_signals_exactly_once(
    entries: Map<u64, Entry>,
    terminate_on_empty: bool,
    id: u64,
    later: u64,
)
    requires
        close_transition(entries, terminate_on_empty, id).2,
    ensures
        close_transition(entries, terminate_on_empty, id).1,
        terminate_on_empty,
        no_windows(close_transition(entries, terminate_on_empty, id).0),
        !close_transition(
            close_transition(entries, terminate_on_empty, id).0,
            terminate_on_empty,
            later,
        ).1,
        !close_transition(
            close_transition(entries, terminate_on_empty, id).0,
            terminate_on_empty,
            later,
        ).2,
{
}

/// The application's window table and configuration: the active entries,
/// keyed by window, whether the GPU render context has been built, and
/// whether emptying the table stops the event loop.
pub struct AppState {
    pub app_entries: Vec<(u64, Entry)>,
    pub has_render_context: bool,
    pub terminate_on_empty: bool,
}

/// What a close request did: whether an entry was removed, whether the
/// loop-exit signal fires, and the release requests for the removed
/// window's resources.
pub struct CloseOutcome {
    pub closed: bool,
    pub exit: bool,
    pub releases: Vec<ReleaseAction>,
}

impl AppState {
    /// The active window set, as a map from window to entry.
    pub open spec fn entry_map(self) -> Map<u64, Entry> {
        map_of(self.app_entries@)
    }

    /// Each window keys at most one entry, every entry is well formed, and
    /// every entry records the window that keys it.
    pub open spec fn wf(self) -> bool {
        &&& unique_keys(self.app_entries@)
        &&& forall|i: int|
            0 <= i < self.app_entries@.len() ==> {
                &&& (#[trigger] self.app_entries@[i]).1.wf()
                &&& self.app_entries@[i].1.window == self.app_entries@[i].0
            }
    }

    /// Whether `id` keys an active entry.
    pub open spec fn has_window(self, id: u64) -> bool {
        self.entry_map().dom().contains(id)
    }

    /// A fresh application state: no windows, no render context.
    pub fn new(terminate_on_empty: bool) -> (s: Self)
        ensures
            s.wf(),
            s.app_entries@ == Seq::<(u64, Entry)>::empty(),
            !s.has_render_context,
            s.terminate_on_empty == terminate_on_empty,
    {
        AppState { app_entries: Vec::new(), has_render_context: false, terminate_on_empty }
    }

    /// The position of `id` in the table, if it is active.
    fn find_index(&self, id: u64) -> (r: Option<usize>)
        ensures
            r matches Some(i) ==> i < self.app_entries@.len() && self.app_entries@[i as int].0
                == id,
            r is None ==> forall|j: int|
                0 <= j < self.app_entries@.len() ==> (#[trigger] self.app_entries@[j]).0 != id,
            r is Some <==> self.has_window(id),
    {
        proof {
            lemma_map_of_contains(self.app_entries@, id);
        }
        let mut k: usize = 0;
        while k < self.app_entries.len()
            invariant
                k <= self.app_entries@.len(),
                forall|j: int| 0 <= j < k ==> (#[trigger] self.app_entries@[j]).0 != id,
            decreases self.app_entries@.len() - k,
        {
            if self.app_entries[k].0 == id {
                proof {
                    lemma_map_of_contains(self.app_entries@, id);
                    assert(exists|j: int|
                        0 <= j < self.app_entries@.len() && self.app_entries@[j].0 == id) by {
                        assert(0 <= k < self.app_entries@.len() && self.app_entries@[k as int].0
                            == id);
                    }
                }
                return Some(k);
            }
            k = k + 1;
        }
        None
    }

    /// The render context is ready: remember so, and ask the event loop to
    /// open the first user-visible window.
    pub fn context_ready(&mut self) -> (ev: UserEvent)
        ensures
            final(self).has_render_context,
            final(self).app_entries == old(self).app_entries,
            final(self).terminate_on_empty == old(self).terminate_on_empty,
            ev == UserEvent::RequestNew,
    {
        self.has_render_context = true;
        UserEvent::RequestNew
    }

    /// Admit a new window to the active set, with its renderer and its full
    /// inner size pending.  Refused while the render context is missing.  If
    /// the window already had an entry, the new entry replaces it and the
    /// displaced renderer's resources are released.
    pub fn add_window(&mut self, id: u64, width: u32, height: u32, renderer: WgpuRenderer) -> (r:
        Result<Vec<ReleaseAction>, AppError>)
        requires
            old(self).wf(),
            renderer.wf(),
        ensures
            final(self).wf(),
            final(self).has_render_context == old(self).has_render_context,
            final(self).terminate_on_empty == old(self).terminate_on_empty,
            !old(self).has_render_context ==> r == Err::<Vec<ReleaseAction>, AppError>(
                AppError::NoRenderContext,
            ) && *final(self) == *old(self),
            old(self).has_render_context ==> {
                &&& r matches Ok(rel)
                &&& final(self).entry_map() =~= old(self).entry_map().insert(
                    id,
                    (Entry { window: id, dirty_resized: Some((width, height)), renderer }),
                )
                &&& (old(self).has_window(id) ==> rel@ == old(self).entry_map()[
                    id
                ].renderer.release_seq())
                &&& (!old(self).has_window(id) ==> rel@ == Seq::<ReleaseAction>::empty())
            },
    {
        if !self.has_render_context {
            return Err(AppError::NoRenderContext);
        }
        let entry = Entry::new(id, width, height, renderer);
        let ghost s0 = self.app_entries@;
        match self.find_index(id) {
            Some(i) => {
                let mut displaced = self.app_entries.remove(i);
                let rel = displaced.1.renderer.release_all();
                self.app_entries.insert(i, (id, entry));
                proof {
                    assert(self.app_entries@ =~= s0.update(i as int, (id, entry)));
                    lemma_map_of_update(s0, i as int, entry);
                    lemma_map_of_index(s0, i as int);
                }
                Ok(rel)
            },
            None => {
                self.app_entries.push((id, entry));
                proof {
                    lemma_map_of_push(s0, (id, entry));
                    assert forall|i: int, j: int|
                        0 <= i < j < self.app_entries@.len() implies self.app_entries@[i].0
                        != self.app_entries@[j].0 by {
                        if j == self.app_entries@.len() - 1 {
                            assert(s0[i].0 != id);
                        }
                    }
                }
                Ok(Vec::new())
            },
        }
    }

    /// A close request for `id`: its entry, if any, leaves the set exactly
    /// once, its renderer's resources are released, and the loop-exit signal
    /// fires exactly when the last entry left while the terminate-on-empty
    /// flag holds.
    pub fn close_window(&mut self, id: u64) -> (out: CloseOutcome)
        requires
            old(self).wf(),
        ensures
            final(self).wf(),
            final(self).has_render_context == old(self).has_render_context,
            final(self).terminate_on_empty == old(self).terminate_on_empty,
            final(self).entry_map() =~= close_transition(
                old(self).entry_map(),
                old(self).terminate_on_empty,
                id,
            ).0,
            out.closed == close_transition(
                old(self).entry_map(),
                old(self).terminate_on_empty,
                id,
            ).1,
            out.exit == close_transition(
                old(self).entry_map(),
                old(self).terminate_on_empty,
                id,
            ).2,
            out.closed ==> out.releases@ == old(self).entry_map()[id].renderer.release_seq(),
            !out.closed ==> out.releases@ == Seq::<ReleaseAction>::empty() && *final(self) == *old(
                self,
            ),
    {
        let ghost s0 = self.app_entries@;
        match self.find_index(id) {
            None => {
                proof {
                    assert(old(self).entry_map().remove(id) =~= old(self).entry_map());
                }
                CloseOutcome { closed: false, exit: false, releases: Vec::new() }
            },
            Some(i) => {
                let mut removed = self.app_entries.remove(i);
                let releases = removed.1.renderer.release_all();
                let exit = self.terminate_on_empty && self.app_entries.len() == 0;
                proof {
                    lemma_map_of_remove(s0, i as int);
                    lemma_map_of_index(s0, i as int);
                    lemma_map_of_empty(self.app_entries@);
                    assert(unique_keys(self.app_entries@)) by {
                        assert forall|x: int, y: int|
                            0 <= x < y < self.app_entries@.len() implies self.app_entries@[x].0
                            != self.app_entries@[y].0 by {
                            assert(self.app_entries@ == s0.remove(i as int));
                        }
                    }
                }
                CloseOutcome { closed: true, exit, releases }
            },
        }
    }

    /// Record a resize for `id`: the new dimensions become the entry's
    /// pending size, to be applied at its next draw.  No surface call
    /// happens here.  A resize for an unknown window does nothing.
    pub fn record_resize(&mut self, id: u64, width: u32, height: u32)
        requires
            old(self).wf(),
        ensures
            final(self).wf(),
            final(self).has_render_context == old(self).has_render_context,
            final(self).terminate_on_empty == old(self).terminate_on_empty,
            old(self).has_window(id) ==> final(self).entry_map() =~= old(self).entry_map().insert(
                id,
                old(self).entry_map()[id].with_dirty(Some((width, height))),
            ),
            !old(self).has_window(id) ==> *final(self) == *old(self),
    {
        let ghost s0 = self.app_entries@;
        match self.find_index(id) {
            None => {
            },
            Some(i) => {
                let mut pair = self.app_entries.remove(i);
                pair.1.handle_resize(width, height);
                self.app_entries.insert(i, pair);
                proof {
                    assert(self.app_entries@ =~= s0.update(
                        i as int,
                        (id, s0[i as int].1.with_dirty(Some((width, height)))),
                    ));
                    lemma_map_of_update(
                        s0,
                        i as int,
                        s0[i as int].1.with_dirty(Some((width, height))),
                    );
                    lemma_map_of_index(s0, i as int);
                }
            },
        }
    }

    /// One draw step for `id`: apply its pending resize (only a strictly
    /// positive size reaches the surface), and report whether a frame is to
    /// be drawn.  Yields the reconfiguration ordered, if any, and whether
    /// the window was found.
    pub fn draw_window(&mut self, id: u64) -> (out: (bool, Option<ReconfigureAction>))
        requires
            old(self).wf(),
        ensures
            final(self).wf(),
            final(self).has_render_context == old(self).has_render_context,
            final(self).terminate_on_empty == old(self).terminate_on_empty,
            out.0 == old(self).has_window(id),
            old(self).has_window(id) ==> {
                &&& final(self).entry_map() =~= old(self).entry_map().insert(
                    id,
                    old(self).entry_map()[id].after_draw(),
                )
                &&& out.1 == old(self).entry_map()[id].draw_reconfigure()
            },
            !old(self).has_window(id) ==> *final(self) == *old(self) && out.1 is None,
    {
        let ghost s0 = self.app_entries@;
        match self.find_index(id) {
            None => (false, None),
            Some(i) => {
                let mut pair = self.app_entries.remove(i);
                let reconfigure = pair.1.handle_draw();
                self.app_entries.insert(i, pair);
                proof {
                    assert(self.app_entries@ =~= s0.update(
                        i as int,
                        (id, s0[i as int].1.after_draw()),
                    ));
                    lemma_map_of_update(s0, i as int, s0[i as int].1.after_draw());
                    lemma_map_of_index(s0, i as int);
                }
                (true, reconfigure)
            },
        }
    }

    /// The windows to ask for a redraw when the application resumes: all of
    /// them, in table order.
    pub fn resume_app(&self) -> (redraw: Vec<u64>)
        ensures
            redraw@ == key_seq(self.app_entries@),
    {
        let mut redraw: Vec<u64> = Vec::new();
        let mut k: usize = 0;
        while k < self.app_entries.len()
            invariant
                k <= self.app_entries@.len(),
                redraw@.len() == k,
                forall|j: int| 0 <= j < k ==> redraw@[j] == (#[trigger] self.app_entries@[j]).0,
            decreases self.app_entries@.len() - k,
        {
            redraw.push(self.app_entries[k].0);
            k = k + 1;
        }
        proof {
            assert(redraw@ =~= key_seq(self.app_entries@));
        }
        redraw
    }
}

/// The application: the window table plus the suspended flag the windowing
/// system toggles.  While suspended there is no active rendering surface, so
/// redraw requests are ignored.
pub struct App {
    pub suspended: bool,
    pub state: AppState,
}

/// Everything one window event asks of the boundary: whether an entry was
/// removed and whether the loop must exit, the surface reconfiguration to
/// perform, whether to draw (and then request the next redraw of) the
/// window's frame, and the release requests for a removed window's
/// resources.
pub struct EventOutcome {
    pub closed: bool,
    pub exit: bool,
    pub reconfigure: Option<ReconfigureAction>,
    pub drew: bool,
    pub releases: Vec<ReleaseAction>,
}

impl EventOutcome {
    /// The event asked nothing of the boundary.
    pub open spec fn is_noop(self) -> bool {
        &&& !self.closed
        &&& !self.exit
        &&& self.reconfigure is None
        &&& !self.drew
        &&& self.releases@ == Seq::<ReleaseAction>::empty()
    }

    fn noop() -> (out: Self)
        ensures
            out.is_noop(),
    {
        EventOutcome {
            closed: false,
            exit: false,
            reconfigure: None,
            drew: false,
            releases: Vec::new(),
        }
    }
}

impl App {
    /// The window table is well formed.
    pub open spec fn wf(self) -> bool {
        self.state.wf()
    }

    /// A fresh application: suspended, with no windows and no render
    /// context yet.
    pub fn new(terminate_on_empty: bool) -> (a: App)
        ensures
            a.wf(),
            a.suspended,
            a.state.app_entries@ == Seq::<(u64, Entry)>::empty(),
            !a.state.has_render_context,
            a.state.terminate_on_empty == terminate_on_empty,
    {
        App { suspended: true, state: AppState::new(terminate_on_empty) }
    }

    /// The application resumed.  If the render context is ready, rendering
    /// becomes active again and every window is asked to redraw; before the
    /// context exists the resume changes nothing.
    pub fn handle_resumed(&mut self) -> (redraw: Vec<u64>)
        ensures
            final(self).state == old(self).state,
            old(self).state.has_render_context ==> !final(self).suspended && redraw@ == key_seq(
                old(self).state.app_entries@,
            ),
            !old(self).state.has_render_context ==> *final(self) == *old(self) && redraw@
                == Seq::<u64>::empty(),
    {
        if self.state.has_render_context {
            self.suspended = false;
            self.state.resume_app()
        } else {
            Vec::new()
        }
    }

    /// The application suspended: there is no active rendering surface, so
    /// redraws are ignored until the next resume.
    pub fn handle_suspended(&mut self)
        ensures
            final(self).suspended,
            final(self).state == old(self).state,
    {
        self.suspended = true;
    }

    /// Route one window event.  A close request and an escape press retire
    /// the window's entry; a resize is recorded for the next draw; a redraw
    /// draws a frame unless the application is suspended; anything else is
    /// ignored, as is any event for a window with no entry.
    pub fn window_event(&mut self, id: u64, event: WindowEventKind) -> (out: EventOutcome)
        requires
            old(self).wf(),
        ensures
            final(self).wf(),
            final(self).suspended == old(self).suspended,
            final(self).state.has_render_context == old(self).state.has_render_context,
            final(self).state.terminate_on_empty == old(self).state.terminate_on_empty,
            match event {
                WindowEventKind::CloseRequested | WindowEventKind::EscapePressed => {
                    let t = close_transition(
                        old(self).state.entry_map(),
                        old(self).state.terminate_on_empty,
                        id,
                    );
                    &&& final(self).state.entry_map() =~= t.0
                    &&& out.closed == t.1
                    &&& out.exit == t.2
                    &&& out.reconfigure is None
                    &&& !out.drew
                    &&& (t.1 ==> out.releases@ == old(self).state.entry_map()[
                        id
                    ].renderer.release_seq())
                    &&& (!t.1 ==> out.releases@ == Seq::<ReleaseAction>::empty())
                },
                WindowEventKind::Resized(w, h) => {
                    &&& out.is_noop()
                    &&& (old(self).state.has_window(id) ==> final(self).state.entry_map() =~= old(
                        self,
                    ).state.entry_map().insert(
                        id,
                        old(self).state.entry_map()[id].with_dirty(Some((w, h))),
                    ))
                    &&& (!old(self).state.has_window(id) ==> final(self).state == old(self).state)
                },
                WindowEventKind::RedrawRequested => {
                    if old(self).suspended || !old(self).state.has_window(id) {
                        out.is_noop() && final(self).state == old(self).state
                    } else {
                        &&& final(self).state.entry_map() =~= old(self).state.entry_map().insert(
                            id,
                            old(self).state.entry_map()[id].after_draw(),
                        )
                        &&& out.reconfigure == old(self).state.entry_map()[id].draw_reconfigure()
                        &&& out.drew
                        &&& !out.closed
                        &&& !out.exit
                        &&& out.releases@ == Seq::<ReleaseAction>::empty()
                    }
                },
                WindowEventKind::Other => out.is_noop() && final(self).state == old(self).state,
            },
    {
        match event {
            WindowEventKind::CloseRequested | WindowEventKind::EscapePressed => {
                let c = self.state.close_window(id);
                EventOutcome {
                    closed: c.closed,
                    exit: c.exit,
                    reconfigure: None,
                    drew: false,
                    releases: c.releases,
                }
            },
            WindowEventKind::Resized(width, height) => {
                self.state.record_resize(id, width, height);
                EventOutcome::noop()
            },
            WindowEventKind::RedrawRequested => {
                if self.suspended {
                    EventOutcome::noop()
                } else {
                    let (drew, reconfigure) = self.state.draw_window(id);
                    EventOutcome {
                        closed: false,
                        exit: false,
                        reconfigure,
                        drew,
                        releases: Vec::new(),
                    }
                }
            },
            WindowEventKind::Other => EventOutcome::noop(),
        }
    }
}

/// Law: closing one window leaves every other window's entry — its renderer
/// and its resources — exactly as it was.
pub proof fn lemma_close_preserves_others(
    entries: Map<u64, Entry>,
    terminate_on_empty: bool,
    id: u64,
    other: u64,
)
    requires
        other != id,
        entries.dom().contains(other),
    ensures
        close_transition(entries, terminate_on_empty, id).0.dom().contains(other),
        close_transition(entries, terminate_on_empty, id).0[other] == entries[other],
{
}

} // verus!
