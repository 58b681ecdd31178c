use triangle_lifecycle::{
    clamp_dimension, configuration_for, triangle_frame, AlphaMode, DrawCall, Lifecycle,
    PresentMode, Resource, SurfaceConfig, FRAME_LATENCY,
};

#[derive(Clone, Copy, Debug, PartialEq, Eq)]
enum Format {
    Bgra8UnormSrgb,
    Rgba8Unorm,
}

#[derive(Debug, PartialEq, Eq)]
struct Context {
    id: u32,
}

fn config(width: u32, height: u32) -> SurfaceConfig<Format> {
    configuration_for(width, height, &vec![Format::Bgra8UnormSrgb]).unwrap()
}

fn ready(width: u32, height: u32) -> Lifecycle<Context, Format> {
    let mut l = Lifecycle::new();
    assert!(l.activate(Context { id: 7 }, config(width, height)));
    l
}

#[test]
fn clamp_dimension_raises_zero_only() {
    assert_eq!(clamp_dimension(0), 1);
    assert_eq!(clamp_dimension(1), 1);
    assert_eq!(clamp_dimension(640), 640);
    assert_eq!(clamp_dimension(u32::MAX), u32::MAX);
}

#[test]
fn activation_800_by_600_uses_first_format() {
    let formats = vec![Format::Rgba8Unorm, Format::Bgra8UnormSrgb];
    let c = configuration_for(800, 600, &formats).unwrap();
    assert_eq!(c.width, 800);
    assert_eq!(c.height, 600);
    assert_eq!(c.format, Format::Rgba8Unorm);
    assert_eq!(c.present_mode, PresentMode::Mailbox);
    assert_eq!(c.alpha_mode, AlphaMode::Auto);
    assert_eq!(c.desired_maximum_frame_latency, 2);
    assert_eq!(FRAME_LATENCY, 2);

    let mut l: Lifecycle<Context, Format> = Lifecycle::new();
    assert!(!l.is_ready());
    assert!(l.activate(Context { id: 1 }, c));
    assert!(l.is_ready());
    assert_eq!(l.context(), Some(&Context { id: 1 }));
    let applied = l.config().unwrap();
    assert_eq!((applied.width, applied.height), (800, 600));
    assert_eq!(applied.format, Format::Rgba8Unorm);
}

#[test]
fn no_reported_format_gives_no_configuration() {
    let formats: Vec<Format> = Vec::new();
    assert!(configuration_for(800, 600, &formats).is_none());
}

#[test]
fn activation_clamps_a_zero_sized_window() {
    let c = configuration_for(0, 0, &vec![Format::Rgba8Unorm]).unwrap();
    assert_eq!((c.width, c.height), (1, 1));
    let raw = SurfaceConfig {
        width: 0,
        height: 5,
        format: Format::Rgba8Unorm,
        present_mode: PresentMode::Fifo,
        alpha_mode: AlphaMode::Opaque,
        desired_maximum_frame_latency: 3,
    };
    let mut l: Lifecycle<Context, Format> = Lifecycle::new();
    assert!(l.activate(Context { id: 2 }, raw));
    let applied = l.config().unwrap();
    assert_eq!((applied.width, applied.height), (1, 5));
    assert_eq!(applied.present_mode, PresentMode::Fifo);
    assert_eq!(applied.desired_maximum_frame_latency, 3);
}

#[test]
fn reactivation_replaces_the_context() {
    let mut l = ready(800, 600);
    assert!(l.activate(Context { id: 9 }, config(1024, 768)));
    assert_eq!(l.context(), Some(&Context { id: 9 }));
    assert_eq!(l.config().unwrap().width, 1024);
}

#[test]
fn resize_to_zero_clamps_to_one() {
    let mut l = ready(800, 600);
    assert!(l.resize(0, 0));
    let c = l.config().unwrap();
    assert_eq!((c.width, c.height), (1, 1));
}

#[test]
fn resize_applies_requested_size() {
    let mut l = ready(800, 600);
    assert!(l.resize(1280, 0));
    let c = l.config().unwrap();
    assert_eq!((c.width, c.height), (1280, 1));
    assert_eq!(c.format, Format::Bgra8UnormSrgb);
    assert_eq!(c.present_mode, PresentMode::Mailbox);
    assert_eq!(l.context(), Some(&Context { id: 7 }));
}

#[test]
fn resize_before_activation_does_nothing() {
    let mut l: Lifecycle<Context, Format> = Lifecycle::new();
    assert!(!l.resize(300, 200));
    assert!(!l.is_ready());
    assert!(l.config().is_none());
}

#[test]
fn redraw_records_one_triangle_pass() {
    let l = ready(800, 600);
    let plan = l.redraw(true).unwrap();
    assert_eq!(plan.passes.len(), 1);
    assert_eq!(plan.passes[0].color_attachments, 1);
    assert_eq!(
        plan.passes[0].draw,
        DrawCall { first_vertex: 0, vertex_end: 3, first_instance: 0, instance_end: 1 }
    );
    assert!(plan.submit && plan.present && plan.wait_idle);
    assert_eq!(triangle_frame().passes, plan.passes);
}

#[test]
fn failed_frame_acquisition_submits_nothing() {
    let l = ready(800, 600);
    assert!(l.redraw(false).is_none());
    assert!(l.is_ready());
    assert_eq!(l.context(), Some(&Context { id: 7 }));
    assert_eq!(l.config().unwrap().width, 800);
}

#[test]
fn redraw_without_context_is_skipped() {
    let l: Lifecycle<Context, Format> = Lifecycle::new();
    assert!(l.redraw(true).is_none());
}

#[test]
fn close_releases_in_dependency_order() {
    let mut l = ready(800, 600);
    let (context, shutdown) = l.close();
    assert_eq!(context, Some(Context { id: 7 }));
    assert!(shutdown.wait_idle);
    assert!(shutdown.exit);
    assert_eq!(
        shutdown.release,
        vec![
            Resource::Pipeline,
            Resource::Queue,
            Resource::Device,
            Resource::Surface,
            Resource::Config,
            Resource::Window,
        ]
    );
    assert!(l.is_closing());
    assert!(l.context().is_none());
    assert!(l.redraw(true).is_none());
}

#[test]
fn close_without_context_still_exits() {
    let mut l: Lifecycle<Context, Format> = Lifecycle::new();
    let (context, shutdown) = l.close();
    assert!(context.is_none());
    assert!(!shutdown.wait_idle);
    assert!(shutdown.release.is_empty());
    assert!(shutdown.exit);
    assert!(l.is_closing());
}

#[test]
fn closing_surface_is_not_activated_again() {
    let mut l = ready(800, 600);
    l.close();
    assert!(!l.activate(Context { id: 3 }, config(800, 600)));
    assert!(l.is_closing());
    assert!(l.context().is_none());
    assert!(!l.resize(10, 10));
}
