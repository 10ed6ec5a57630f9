use pine::error::PineError;
use pine::rendering::camera::{AspectRatio, Camera, Point3};
use pine::rendering::color::Color;
use pine::rendering::frame_data::{next_frame_step, AcquireOutcome, FrameDataBuilder, FrameStep};
use pine::rendering::renderer::{demo_scene, Renderer2D};
use pine::rendering::surface::{first_flagged_or_first, select_format, SurfaceConfig};
use wgpu::{CompositeAlphaMode, PresentMode, TextureFormat};

fn config(width: u32, height: u32) -> SurfaceConfig {
    SurfaceConfig::negotiate(
        &vec![TextureFormat::Bgra8UnormSrgb],
        &vec![CompositeAlphaMode::Opaque],
        width,
        height,
    )
    .unwrap()
}

#[test]
fn resize_with_zero_side_changes_nothing() {
    let mut r = Renderer2D::new(config(800, 600));
    r.resize(1024, 768);
    for (w, h) in [(0, 0), (0, 300), (300, 0)] {
        r.resize(w, h);
        assert_eq!(r.surface_config.width, 1024);
        assert_eq!(r.surface_config.height, 768);
        assert_eq!(r.camera.aspect_ratio, AspectRatio { width: 1024, height: 768 });
    }
}

#[test]
fn resize_sets_surface_size_and_aspect_ratio() {
    let mut r = Renderer2D::new(config(800, 600));
    assert_eq!(r.camera.aspect_ratio, AspectRatio { width: 1, height: 1 });
    r.resize(1920, 1080);
    assert_eq!(r.surface_config.width, 1920);
    assert_eq!(r.surface_config.height, 1080);
    assert_eq!(r.camera.aspect_ratio, AspectRatio { width: 1920, height: 1080 });
    assert_eq!(r.surface_config.format, TextureFormat::Bgra8UnormSrgb);
    assert_eq!(r.camera.fov, 1000);
}

#[test]
fn negotiate_prefers_first_srgb_format() {
    let c = SurfaceConfig::negotiate(
        &vec![TextureFormat::Rgba8Unorm, TextureFormat::Bgra8UnormSrgb, TextureFormat::Rgba8UnormSrgb],
        &vec![CompositeAlphaMode::PreMultiplied, CompositeAlphaMode::Opaque],
        640,
        480,
    )
    .unwrap();
    assert_eq!(c.format, TextureFormat::Bgra8UnormSrgb);
    assert_eq!(c.alpha_mode, CompositeAlphaMode::PreMultiplied);
    assert_eq!(c.present_mode, PresentMode::Fifo);
    assert_eq!((c.width, c.height), (640, 480));
    assert_eq!(c.desired_maximum_frame_latency, 2);
}

#[test]
fn negotiate_falls_back_to_first_format() {
    let c = SurfaceConfig::negotiate(
        &vec![TextureFormat::Rgba8Unorm, TextureFormat::Bgra8Unorm],
        &vec![CompositeAlphaMode::Opaque],
        1,
        1,
    )
    .unwrap();
    assert_eq!(c.format, TextureFormat::Rgba8Unorm);
}

#[test]
fn negotiate_refuses_empty_capabilities() {
    let no_formats = SurfaceConfig::negotiate(&vec![], &vec![CompositeAlphaMode::Opaque], 1, 1);
    assert_eq!(no_formats.unwrap_err(), PineError::UnsupportedSurface);
    let no_alpha = SurfaceConfig::negotiate(&vec![TextureFormat::Rgba8Unorm], &vec![], 1, 1);
    assert_eq!(no_alpha.unwrap_err(), PineError::UnsupportedSurface);
}

#[test]
fn select_format_reads_srgb_flags() {
    assert_eq!(select_format(&vec![]), None);
    assert_eq!(
        select_format(&vec![TextureFormat::Bgra8Unorm, TextureFormat::Bgra8UnormSrgb]),
        Some(TextureFormat::Bgra8UnormSrgb)
    );
    assert_eq!(first_flagged_or_first(&vec![false, false, true, true]), 2);
    assert_eq!(first_flagged_or_first(&vec![false, false]), 0);
    assert_eq!(first_flagged_or_first(&vec![true]), 0);
}

#[test]
fn prepare_packages_surface_and_clear_color() {
    let r = Renderer2D::new(config(10, 10));
    let frame = r.prepare(Some("surface"), Color::red()).unwrap();
    assert_eq!(frame.surface, "surface");
    assert_eq!(frame.clear_color, Color::red());
    let failed = r.prepare::<&str>(None, Color::red());
    assert_eq!(failed.unwrap_err(), PineError::CreateSurfaceError);
}

#[test]
fn frame_data_builder_defaults_to_black() {
    let builder: FrameDataBuilder<u8> = FrameDataBuilder::default();
    assert_eq!(builder.clear_color, Some(Color::black()));
    assert!(builder.surface.is_none());
    let frame = builder.with_surface(7).build();
    assert_eq!(frame.surface, 7);
    assert_eq!(frame.clear_color, Color::new(0, 0, 0, 255));
    let blue = FrameDataBuilder::default().with_clear_color(Color::blue()).with_surface(1u8).build();
    assert_eq!(blue.clear_color, Color::blue());
}

#[test]
fn lost_surface_is_retried_once_then_skipped() {
    assert_eq!(next_frame_step(AcquireOutcome::Acquired, false), FrameStep::Draw);
    assert_eq!(next_frame_step(AcquireOutcome::Acquired, true), FrameStep::Draw);
    assert_eq!(next_frame_step(AcquireOutcome::Lost, false), FrameStep::ReconfigureAndRetry);
    assert_eq!(next_frame_step(AcquireOutcome::Outdated, false), FrameStep::ReconfigureAndRetry);
    assert_eq!(next_frame_step(AcquireOutcome::Lost, true), FrameStep::Skip);
    assert_eq!(next_frame_step(AcquireOutcome::Outdated, true), FrameStep::Skip);
    assert_eq!(next_frame_step(AcquireOutcome::Timeout, false), FrameStep::Skip);
    assert_eq!(next_frame_step(AcquireOutcome::OutOfMemory, false), FrameStep::Skip);
}

#[test]
fn default_camera_parameters() {
    let c = Camera::default();
    assert_eq!(c.position, Point3 { x: 5000, y: 5000, z: 5000 });
    assert_eq!(c.target, Point3 { x: 0, y: 0, z: 0 });
    assert_eq!(c.up, Point3 { x: 0, y: 1000, z: 0 });
    assert_eq!(c.aspect_ratio, AspectRatio { width: 1, height: 1 });
    assert_eq!((c.fov, c.znear, c.zfar), (1000, 100, 1_000_000));
    let mut d = Camera::new(c.position, c.target, c.up, AspectRatio { width: 4, height: 3 }, 800, 1, 2);
    d.set_aspect_ratio(16, 9);
    assert_eq!(d.aspect_ratio, AspectRatio { width: 16, height: 9 });
    assert_eq!(d.fov, 800);
}

#[test]
fn demo_scene_places_child_at_two_three_four() {
    let scene = demo_scene();
    let rendered = scene.render().unwrap();
    assert_eq!(rendered[1].id, 1);
    assert_eq!((rendered[1].position.x, rendered[1].position.y, rendered[1].position.z), (2, 3, 4));
}

#[test]
fn color_constants() {
    assert_eq!(Color::black(), Color::new(0, 0, 0, 255));
    assert_eq!(Color::white(), Color::new(255, 255, 255, 255));
    assert_eq!(Color::red(), Color::new(255, 0, 0, 255));
    assert_eq!(Color::green(), Color::new(0, 255, 0, 255));
    assert_eq!(Color::blue(), Color::new(0, 0, 255, 255));
    assert!(Color::red().is_opaque());
    assert!(!Color::new(1, 2, 3, 4).is_opaque());
}
