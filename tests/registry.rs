use pine::app::{Action, LoopState, Pine, WindowEvent};
use pine::rendering::camera::AspectRatio;
use pine::rendering::color::Color;
use pine::rendering::renderer::Renderer2D;
use pine::rendering::surface::SurfaceConfig;
use pine::windowing::{Window, WindowConfig};
use wgpu::{CompositeAlphaMode, TextureFormat};

fn renderer() -> Renderer2D {
    let config = SurfaceConfig::negotiate(
        &vec![TextureFormat::Bgra8UnormSrgb],
        &vec![CompositeAlphaMode::Opaque],
        500,
        500,
    )
    .unwrap();
    Renderer2D::new(config)
}

fn three_windows() -> Pine<()> {
    let mut config = Pine::<()>::app();
    config
        .with_window(WindowConfig::default().with_clear_color(Color::red()))
        .with_window(
            WindowConfig::default()
                .with_title("Second window!")
                .with_clear_color(Color::blue()),
        )
        .with_window(
            WindowConfig::default()
                .with_title("Non-resizable window")
                .with_resizable(false)
                .with_clear_color(Color::green()),
        );
    let windows: Vec<Window<()>> = config
        .window_configs
        .iter()
        .enumerate()
        .map(|(i, c)| c.build(i as u64 + 1, (), renderer()))
        .collect();
    Pine::new(windows)
}

#[test]
fn closing_windows_one_at_a_time() {
    let mut pine = three_windows();
    assert_eq!(pine.window_count(), 3);
    assert_eq!(pine.window(0).clear_color, Color::red());
    assert_eq!(pine.window(1).clear_color, Color::blue());
    assert_eq!(pine.window(2).clear_color, Color::green());
    assert!(pine.is_running());

    assert_eq!(pine.handle_event(2, WindowEvent::CloseRequested), Action::Continue);
    assert_eq!(pine.window_count(), 2);
    assert_eq!(pine.state(), LoopState::Running);

    assert_eq!(pine.handle_event(1, WindowEvent::CloseRequested), Action::Continue);
    assert_eq!(pine.window_count(), 1);
    assert_eq!(pine.state(), LoopState::Running);
    assert_eq!(pine.window(0).id, 3);

    assert_eq!(pine.handle_event(3, WindowEvent::CloseRequested), Action::Exit);
    assert_eq!(pine.window_count(), 0);
    assert_eq!(pine.state(), LoopState::Shutdown);
}

#[test]
fn closing_only_window_exits_exactly_once() {
    let w = WindowConfig::default().build(9, (), renderer());
    let mut pine = Pine::new(vec![w]);
    assert_eq!(pine.handle_event(9, WindowEvent::CloseRequested), Action::Exit);
    assert_eq!(pine.state(), LoopState::Shutdown);
    assert_eq!(pine.handle_event(9, WindowEvent::CloseRequested), Action::Continue);
    assert_eq!(pine.handle_event(4, WindowEvent::CloseRequested), Action::Continue);
    assert_eq!(pine.handle_event(9, WindowEvent::RedrawRequested), Action::Continue);
    assert_eq!(pine.window_count(), 0);
    assert!(!pine.is_running());
}

#[test]
fn resize_reaches_the_addressed_window_only() {
    let mut pine = three_windows();
    assert_eq!(pine.handle_event(2, WindowEvent::Resized { width: 300, height: 200 }), Action::Continue);
    assert_eq!(pine.window(1).renderer.surface_config.width, 300);
    assert_eq!(pine.window(1).renderer.surface_config.height, 200);
    assert_eq!(pine.window(1).renderer.camera.aspect_ratio, AspectRatio { width: 300, height: 200 });
    assert_eq!(pine.window(0).renderer.surface_config.width, 500);
    assert_eq!(pine.window(2).renderer.camera.aspect_ratio, AspectRatio { width: 1, height: 1 });
    assert_eq!(pine.handle_event(2, WindowEvent::Resized { width: 0, height: 50 }), Action::Continue);
    assert_eq!(pine.window(1).renderer.surface_config.width, 300);
}

#[test]
fn redraw_names_the_window_index() {
    let mut pine = three_windows();
    assert_eq!(pine.handle_event(3, WindowEvent::RedrawRequested), Action::Redraw(2));
    assert_eq!(pine.handle_event(1, WindowEvent::RedrawRequested), Action::Redraw(0));
    assert_eq!(pine.find(2), Some(1));
    assert_eq!(pine.find(42), None);
}

#[test]
fn events_for_unknown_windows_are_ignored() {
    let mut pine = three_windows();
    assert_eq!(pine.handle_event(42, WindowEvent::RedrawRequested), Action::UnknownWindow);
    assert_eq!(
        pine.handle_event(42, WindowEvent::Resized { width: 10, height: 10 }),
        Action::UnknownWindow
    );
    assert_eq!(pine.handle_event(42, WindowEvent::CloseRequested), Action::Continue);
    assert_eq!(pine.window_count(), 3);
}

#[test]
fn other_events_change_nothing() {
    let mut pine = three_windows();
    for e in [
        WindowEvent::ScaleFactorChanged,
        WindowEvent::KeyboardInput { space: true },
        WindowEvent::MouseWheel,
        WindowEvent::Other,
    ] {
        assert_eq!(pine.handle_event(1, e), Action::Continue);
    }
    assert_eq!(pine.window_count(), 3);
    assert!(pine.is_running());
}

#[test]
fn registry_without_windows_is_shut_down() {
    let pine: Pine<()> = Pine::new(vec![]);
    assert_eq!(pine.state(), LoopState::Shutdown);
}
