use app_surface::{
    choose_attachment, multisampled_framebuffer, record_bundle, AttachmentPlan, BundleCache,
    BundleCommand, ColorTarget, FramebufferSpec, PipelineParams, PixelFormat,
};

fn params(sample_count: u32, width: u32, height: u32) -> PipelineParams {
    PipelineParams { sample_count, width, height }
}

fn draw_calls(cmds: &[BundleCommand]) -> usize {
    cmds.iter().filter(|c| matches!(c, BundleCommand::Draw { .. })).count()
}

#[test]
fn single_sample_draws_into_frame_and_stores() {
    assert_eq!(
        choose_attachment(1),
        AttachmentPlan { target: ColorTarget::FrameView, resolve_into_frame: false, store: true }
    );
}

#[test]
fn multisample_resolves_into_frame_without_store() {
    for n in [2u32, 4, 8] {
        assert_eq!(
            choose_attachment(n),
            AttachmentPlan {
                target: ColorTarget::Multisampled,
                resolve_into_frame: true,
                store: false
            }
        );
    }
}

#[test]
fn framebuffer_only_when_multisampled() {
    assert_eq!(multisampled_framebuffer(params(1, 640, 480)), None);
    assert_eq!(
        multisampled_framebuffer(params(4, 640, 480)),
        Some(FramebufferSpec {
            width: 640,
            height: 480,
            depth_or_array_layers: 1,
            mip_level_count: 1,
            sample_count: 4,
            format: PixelFormat::Bgra8UnormSrgb,
        })
    );
}

#[test]
fn bundle_binds_and_draws_each_buffer() {
    let b = record_bundle(4, 2, 100);
    assert_eq!(
        b,
        vec![
            BundleCommand::SetPipeline { sample_count: 4 },
            BundleCommand::SetVertexBuffer { slot: 0, buffer: 0 },
            BundleCommand::Draw { vertices: 100, instances: 1 },
            BundleCommand::SetVertexBuffer { slot: 0, buffer: 1 },
            BundleCommand::Draw { vertices: 100, instances: 1 },
        ]
    );
    assert_eq!(record_bundle(1, 0, 100), vec![BundleCommand::SetPipeline { sample_count: 1 }]);
}

#[test]
fn pending_rebuild_is_cleared_and_cache_is_replayed() {
    let mut cache = BundleCache::new(params(4, 100, 100), 5, 100);
    assert!(!cache.rebuild_pending);
    assert_eq!(draw_calls(&cache.commands), 5);

    cache.request_rebuild();
    assert!(cache.rebuild_pending);
    let plan = cache.begin_frame(params(4, 200, 300));
    assert!(plan.rebuilt);
    assert!(!cache.rebuild_pending);
    assert_eq!(cache.built_for, params(4, 200, 300));
    assert_eq!(cache.framebuffer.unwrap().width, 200);
    assert_eq!(cache.framebuffer.unwrap().height, 300);
    let first = cache.commands.clone();

    let plan2 = cache.begin_frame(params(4, 200, 300));
    assert!(!plan2.rebuilt);
    assert_eq!(cache.commands, first);
    assert_eq!(draw_calls(&cache.commands), draw_calls(&first));
    assert_eq!(plan2.attachment, plan.attachment);
}

#[test]
fn no_rebuild_keeps_old_parameters() {
    let mut cache = BundleCache::new(params(2, 10, 10), 1, 4);
    let plan = cache.begin_frame(params(8, 50, 50));
    assert!(!plan.rebuilt);
    assert_eq!(cache.built_for, params(2, 10, 10));
    assert_eq!(cache.commands[0], BundleCommand::SetPipeline { sample_count: 2 });
}
