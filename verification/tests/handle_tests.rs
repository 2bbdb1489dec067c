use wgpu_core_demo::handles::AutoDropId;
use wgpu_core_demo::handles::HandleKind;
use wgpu_core_demo::handles::ReleaseAction;

fn all_kinds() -> Vec<HandleKind> {
    vec![
        HandleKind::Adapter,
        HandleKind::Device,
        HandleKind::Queue,
        HandleKind::Surface,
        HandleKind::Buffer,
        HandleKind::Texture,
        HandleKind::TextureView,
        HandleKind::Sampler,
        HandleKind::BindGroup,
        HandleKind::BindGroupLayout,
        HandleKind::PipelineLayout,
        HandleKind::ShaderModule,
        HandleKind::RenderPipeline,
        HandleKind::CommandEncoder,
        HandleKind::CommandBuffer,
    ]
}

#[test]
fn release_fires_exactly_once_for_every_kind() {
    for (raw, kind) in all_kinds().into_iter().enumerate() {
        let raw = raw as u64;
        let mut handle = AutoDropId::new(42, kind, raw);
        let first = handle.release();
        assert_eq!(
            first,
            Some(ReleaseAction {
                instance: 42,
                kind,
                raw
            })
        );
        // Further requests emit nothing: the release fired exactly once.
        assert_eq!(handle.release(), None);
        assert_eq!(handle.release(), None);
    }
}

#[test]
fn no_release_before_the_first_request() {
    let mut handle = AutoDropId::new(7, HandleKind::Device, 3);
    // A fresh wrapper still owes its release: the raw handle and kind are
    // readable, and nothing has been emitted.
    assert_eq!(handle.raw(), 3);
    assert_eq!(handle.kind(), HandleKind::Device);
    assert!(!handle.is_released());
    handle.release();
    assert!(handle.is_released());
}

#[test]
fn release_action_carries_the_owning_instance() {
    let mut a = AutoDropId::new(1, HandleKind::Queue, 9);
    let mut b = AutoDropId::new(2, HandleKind::Queue, 9);
    let ra = a.release().unwrap();
    let rb = b.release().unwrap();
    assert_eq!(ra.instance, 1);
    assert_eq!(rb.instance, 2);
    assert_ne!(ra, rb);
}
