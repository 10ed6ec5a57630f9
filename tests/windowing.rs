use pine::rendering::color::Color;
use pine::rendering::renderer::Renderer2D;
use pine::rendering::surface::SurfaceConfig;
use pine::windowing::WindowConfig;
use wgpu::{CompositeAlphaMode, TextureFormat};

fn renderer() -> Renderer2D {
    let config = SurfaceConfig::negotiate(
        &vec![TextureFormat::Bgra8UnormSrgb],
        &vec![CompositeAlphaMode::Opaque],
        500,
        500,
    )
    .unwrap();
    Renderer2D::new(config)
}

#[test]
fn default_config_values() {
    let c = WindowConfig::default();
    assert_eq!(c.title, "Pine");
    assert_eq!(c.width, Some(500));
    assert_eq!(c.height, Some(500));
    assert_eq!(c.clear_color, Some(Color::black()));
    assert!(c.resizable);
}

#[test]
fn built_window_uses_configured_clear_color() {
    let c = WindowConfig::default().with_clear_color(Color::red());
    let w = c.build(7, (), renderer());
    assert_eq!(w.clear_color, Color::red());
    assert_eq!(w.id, 7);
}

#[test]
fn built_window_without_clear_color_is_black() {
    let mut c = WindowConfig::default().with_clear_color(Color::green());
    c.clear_color = None;
    let w = c.build(1, "handle", renderer());
    assert_eq!(w.clear_color, Color::black());
    assert_eq!(w.handle, "handle");
    assert_eq!(c.resolved_clear_color(), Color::new(0, 0, 0, 255));
}

#[test]
fn builder_methods_change_one_field_each() {
    let c = WindowConfig::default()
        .with_title("Non-resizable window")
        .with_resizable(false)
        .with_clear_color(Color::green());
    assert_eq!(c.title, "Non-resizable window");
    assert!(!c.resizable);
    assert_eq!(c.clear_color, Some(Color::green()));
    assert_eq!(c.width, Some(500));
    let sized = c.with_size(800, 600);
    assert_eq!((sized.width, sized.height), (Some(800), Some(600)));
    assert_eq!(sized.title, "Non-resizable window");
}

#[test]
fn attributes_carry_title_size_and_resizable() {
    let a = WindowConfig::default().with_title("Second window!").attributes();
    assert_eq!(a.title, "Second window!");
    assert_eq!(a.inner_size, Some((500, 500)));
    assert!(a.resizable);
    let mut half = WindowConfig::default();
    half.height = None;
    assert_eq!(half.attributes().inner_size, None);
}
