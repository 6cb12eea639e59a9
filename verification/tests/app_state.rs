use gpu_scenes::base_work::{
    Action, AdapterRequest, App, ConnectError, DeviceRequest, ElementState, LimitsPreset, PhysicalKey,
    PhysicalSize, PowerPreference, WgpuThing, WindowEvent,
};
use gpu_scenes::pipeline::LoadOp;

fn space(state: ElementState) -> WindowEvent {
    WindowEvent::KeyboardInput { state, physical_key: PhysicalKey::Space }
}

fn connected_app() -> App {
    let mut app = App::new();
    app.resumed();
    assert!(app.connect_to_gpu().is_ok());
    assert_eq!(app.connect_step(true, true), Ok(PhysicalSize { width: 860, height: 640 }));
    app.gpu_connected(860, 640);
    app
}

#[test]
fn new_app_has_nothing_open() {
    let app = App::new();
    assert_eq!(app.wgpu_thing, None);
    assert_eq!(app.app_state, 0);
    assert!(!app.window_open);
    assert_eq!(app.scene_selector.current_scene_index, 0);
    assert_eq!(app.scene_selector.current_pipeline, None);
}

#[test]
fn window_attributes_describe_the_main_window() {
    let plan = App::window_attributes();
    assert_eq!(plan.title, "Fantastic window number one!");
    assert_eq!((plan.logical_width, plan.logical_height), (128, 128));
    assert!(!plan.active);
    assert_eq!((plan.outer_x, plan.outer_y), (2500, 1500));
}

#[test]
fn connect_without_window_fails() {
    let app = App::new();
    let err = app.connect_to_gpu().unwrap_err();
    assert_eq!(err, ConnectError::WindowNotFound);
    assert_eq!(err.message(), "Window not found");
    assert_eq!(ConnectError::AdapterNotFound.message(), "Failed to find an appropriate adapter");
    assert_eq!(ConnectError::DeviceNotCreated.message(), "Failed to create device");
}

#[test]
fn connecting_prepares_current_pipeline() {
    let mut app = App::new();
    let plan = app.resumed();
    assert_eq!(plan, App::window_attributes());
    assert!(app.window_open);
    let desc = app.gpu_connected(800, 600);
    assert_eq!(desc.shader.path, "assets/add_groud.wgsl");
    assert_eq!(app.scene_selector.current_pipeline, Some(desc));
    assert_eq!(
        app.wgpu_thing,
        Some(WgpuThing { size: PhysicalSize { width: 860, height: 640 }, config_width: 800, config_height: 600 })
    );
}

#[test]
fn resize_without_gpu_does_nothing() {
    let mut app = App::new();
    let actions = app.window_event(WindowEvent::Resized(PhysicalSize { width: 10, height: 20 }));
    assert!(actions.is_empty());
    assert_eq!(app.wgpu_thing, None);
}

#[test]
fn resize_reconfigures_surface() {
    let mut app = connected_app();
    let size = PhysicalSize { width: 1024, height: 768 };
    let actions = app.window_event(WindowEvent::Resized(size));
    assert_eq!(actions, vec![Action::ConfigureSurface(size), Action::RequestRedraw]);
    assert_eq!(app.wgpu_thing, Some(WgpuThing { size, config_width: 1024, config_height: 768 }));
    assert_eq!(app.scene_selector.current_scene_index, 0);
}

#[test]
fn redraw_renders_and_presents_current_scene() {
    let mut app = connected_app();
    let actions = app.window_event(WindowEvent::RedrawRequested);
    assert_eq!(actions.len(), 1);
    match actions[0] {
        Action::RenderFrame { plan, present } => {
            assert!(present);
            assert_eq!(plan.bind_group_index, Some(0));
            assert_eq!(plan.load, LoadOp::ClearBlack);
        }
        other => panic!("unexpected action {:?}", other),
    }
    assert_eq!(app.scene_selector.current_scene_index, 0);
}

#[test]
fn space_release_moves_to_next_scene() {
    let mut app = connected_app();
    let actions = app.window_event(space(ElementState::Released));
    assert_eq!(app.scene_selector.current_scene_index, 1);
    let desc = app.scene_selector.current_pipeline.unwrap();
    assert_eq!(desc.shader.path, "assets/red_triangle.wgsl");
    assert_eq!(actions.len(), 3);
    assert_eq!(actions[0], Action::CreatePipeline(desc));
    match actions[1] {
        Action::RenderFrame { plan, present } => {
            assert!(!present);
            assert_eq!(plan.bind_group_index, None);
        }
        other => panic!("unexpected action {:?}", other),
    }
    assert_eq!(actions[2], Action::RequestRedraw);
}

#[test]
fn space_press_and_other_keys_do_nothing() {
    let mut app = connected_app();
    assert!(app.window_event(space(ElementState::Pressed)).is_empty());
    let other = WindowEvent::KeyboardInput { state: ElementState::Released, physical_key: PhysicalKey::Other };
    assert!(app.window_event(other).is_empty());
    assert!(app.window_event(WindowEvent::Other).is_empty());
    assert_eq!(app.scene_selector.current_scene_index, 0);
}

#[test]
fn four_space_releases_cycle_back() {
    let mut app = connected_app();
    let mut seen = Vec::new();
    for _ in 0..4 {
        app.window_event(space(ElementState::Released));
        seen.push(app.scene_selector.current_scene_index);
    }
    assert_eq!(seen, vec![1, 2, 3, 0]);
    assert_eq!(app.scene_selector.current_pipeline.unwrap().shader.path, "assets/add_groud.wgsl");
}

#[test]
fn connect_requests_adapter_then_device() {
    let mut app = App::new();
    app.resumed();
    assert_eq!(
        app.connect_to_gpu(),
        Ok(AdapterRequest {
            power_preference: PowerPreference::Indifferent,
            compatible_surface: true,
            force_fallback_adapter: false,
        })
    );
    assert_eq!(
        app.device_request(),
        DeviceRequest { label: None, required_features: 0, required_limits: LimitsPreset::Default, trace_path: None }
    );
}

#[test]
fn connect_step_reports_first_failure() {
    let closed = App::new();
    assert_eq!(closed.connect_step(true, true), Err(ConnectError::WindowNotFound));
    assert_eq!(closed.connect_step(false, false), Err(ConnectError::WindowNotFound));
    let mut open = App::new();
    open.resumed();
    assert_eq!(open.connect_step(false, true), Err(ConnectError::AdapterNotFound));
    assert_eq!(open.connect_step(false, false), Err(ConnectError::AdapterNotFound));
    assert_eq!(open.connect_step(true, false), Err(ConnectError::DeviceNotCreated));
    assert_eq!(open.connect_step(true, true), Ok(PhysicalSize { width: 860, height: 640 }));
    assert_eq!(open.wgpu_thing, None);
}

#[test]
fn a_redraw_follows_the_connection_attempt() {
    let mut app = App::new();
    app.resumed();
    assert_eq!(app.after_connect(), vec![Action::RequestRedraw]);
}
