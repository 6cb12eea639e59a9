//! The application: its window, its connection to the GPU and the scene
//! selector, and how each window event changes them and what it asks the
//! GPU and the window to do.
use vstd::prelude::*;

use crate::pipeline::{FramePlan, PipelineDesc};
use crate::scenes::{default_scenes, next_scene_index, SceneSelector};

verus! {

/// A size in physical pixels.
#[derive(Clone, Copy, Debug, PartialEq, Eq)]
pub struct PhysicalSize {
    pub width: u32,
    pub height: u32,
}

/// What the application keeps of its GPU connection: the size of the window
/// surface and the size the surface is configured with.
#[derive(Clone, Copy, Debug, PartialEq, Eq)]
pub struct WgpuThing {
    pub size: PhysicalSize,
    pub config_width: u32,
    pub config_height: u32,
}

/// Whether a key went down or came up.
#[derive(Clone, Copy, Debug, PartialEq, Eq)]
pub enum ElementState {
    Pressed,
    Released,
}

/// The physical key of a keyboard event, as far as the application tells keys apart.
#[derive(Clone, Copy, Debug, PartialEq, Eq)]
pub enum PhysicalKey {
    Space,
    Other,
}

/// The window events the application reacts to; every other event is `Other`.
#[derive(Clone, Copy, Debug, PartialEq, Eq)]
pub enum WindowEvent {
    Resized(PhysicalSize),
    RedrawRequested,
    KeyboardInput { state: ElementState, physical_key: PhysicalKey },
    Other,
}

/// What the application asks of the GPU or the window, in order.
#[derive(Clone, Copy, Debug, PartialEq, Eq)]
pub enum Action {
    /// Configure the surface with this size.
    ConfigureSurface(PhysicalSize),
    /// Ask the window for a redraw.
    RequestRedraw,
    /// Build this pipeline and make it the current one.
    CreatePipeline(PipelineDesc),
    /// Take the next surface texture and render this frame into it with the
    /// current pipeline; show the texture when `present` holds.
    RenderFrame { plan: FramePlan, present: bool },
}

/// The attributes of the window the application opens.
#[derive(Clone, Copy, Debug, PartialEq, Eq)]
pub struct WindowPlan {
    pub title: &'static str,
    /// Inner size in logical pixels.
    pub logical_width: u32,
    pub logical_height: u32,
    pub active: bool,
    /// Outer position in physical pixels.
    pub outer_x: i32,
    pub outer_y: i32,
}

/// Why connecting to the GPU failed.
#[derive(Clone, Copy, Debug, PartialEq, Eq)]
pub enum ConnectError {
    WindowNotFound,
    AdapterNotFound,
    DeviceNotCreated,
}

/// How the adapter is chosen with respect to power use.
#[derive(Clone, Copy, Debug, PartialEq, Eq)]
pub enum PowerPreference {
    /// Power use is not considered (wgpu's default).
    Indifferent,
    LowPower,
    HighPerformance,
}

/// The request for a GPU adapter.
#[derive(Clone, Copy, Debug, PartialEq, Eq)]
pub struct AdapterRequest {
    pub power_preference: PowerPreference,
    /// Whether the adapter must be able to present to the window's surface.
    pub compatible_surface: bool,
    pub force_fallback_adapter: bool,
}

/// Presets of device limits.
#[derive(Clone, Copy, Debug, PartialEq, Eq)]
pub enum LimitsPreset {
    Default,
    DownlevelDefaults,
    DownlevelWebgl2Defaults,
}

/// The request for a device on the adapter.
#[derive(Clone, Copy, Debug, PartialEq, Eq)]
pub struct DeviceRequest {
    pub label: Option<&'static str>,
    /// The bits of the required features.
    pub required_features: u64,
    pub required_limits: LimitsPreset,
    /// Where to write an API trace, if anywhere.
    pub trace_path: Option<&'static str>,
}

/// The adapter request: power use not considered, compatible with the
/// window's surface, no fallback adapter.
pub open spec fn adapter_request() -> AdapterRequest {
    AdapterRequest {
        power_preference: PowerPreference::Indifferent,
        compatible_surface: true,
        force_fallback_adapter: false,
    }
}

/// The device request: no label, no features, the default limits, no trace.
pub open spec fn device_request() -> DeviceRequest {
    DeviceRequest {
        label: None,
        required_features: 0,
        required_limits: LimitsPreset::Default,
        trace_path: None,
    }
}

/// The outcome of connecting to the GPU: the first step that fails decides
/// the error (the window, then the adapter, then the device); when none
/// fails, the surface is requested at its initial size.
pub open spec fn connect_outcome(window_open: bool, adapter_found: bool, device_ok: bool) -> Result<PhysicalSize, ConnectError> {
    if !window_open {
        Err(ConnectError::WindowNotFound)
    } else if !adapter_found {
        Err(ConnectError::AdapterNotFound)
    } else if !device_ok {
        Err(ConnectError::DeviceNotCreated)
    } else {
        Ok(initial_surface_size())
    }
}

/// The text of each connection error.
pub open spec fn connect_error_message(e: ConnectError) -> &'static str {
    match e {
        ConnectError::WindowNotFound => "Window not found",
        ConnectError::AdapterNotFound => "Failed to find an appropriate adapter",
        ConnectError::DeviceNotCreated => "Failed to create device",
    }
}

impl ConnectError {
    /// The text of the error.
    pub fn message(&self) -> (r: &'static str)
        ensures
            r == connect_error_message(*self),
    {
        match self {
            ConnectError::WindowNotFound => "Window not found",
            ConnectError::AdapterNotFound => "Failed to find an appropriate adapter",
            ConnectError::DeviceNotCreated => "Failed to create device",
        }
    }
}

/// The window the application opens: 128 x 128 logical pixels, not active,
/// at physical position (2500, 1500).
pub open spec fn main_window_plan() -> WindowPlan {
    WindowPlan {
        title: "Fantastic window number one!",
        logical_width: 128,
        logical_height: 128,
        active: false,
        outer_x: 2500,
        outer_y: 1500,
    }
}

/// The size the surface is requested with when the GPU is connected.
pub open spec fn initial_surface_size() -> PhysicalSize {
    PhysicalSize { width: 860, height: 640 }
}

/// A key event that switches to the next scene: the space key coming up.
pub open spec fn is_space_release(event: WindowEvent) -> bool {
    event == WindowEvent::KeyboardInput { state: ElementState::Released, physical_key: PhysicalKey::Space }
}

/// The events whose handling renders, and so needs the GPU.
pub open spec fn needs_gpu(event: WindowEvent) -> bool {
    event is RedrawRequested || is_space_release(event)
}

pub struct App {
    pub wgpu_thing: Option<WgpuThing>,
    pub app_state: i32,
    /// Whether the window has been opened.
    pub window_open: bool,
    pub scene_selector: SceneSelector,
}

impl App {
    /// The selector is well formed, and once the GPU is connected there is a
    /// window and the current pipeline is the one of the current scene.
    pub open spec fn wf(&self) -> bool {
        &&& self.scene_selector.wf()
        &&& self.wgpu_thing is Some ==> {
            &&& self.window_open
            &&& self.scene_selector.current_pipeline == Some(self.scene_selector.current_scene().pipeline())
        }
    }

    /// The application before any window exists: no window, no GPU, the
    /// default scenes with the first one current.
    pub fn new() -> (r: Self)
        ensures
            r.wf(),
            r.wgpu_thing is None,
            r.app_state == 0,
            !r.window_open,
            default_scenes(r.scene_selector.scenes@),
            r.scene_selector.current_scene_index == 0,
            r.scene_selector.current_pipeline is None,
    {
        App { wgpu_thing: None, app_state: 0, window_open: false, scene_selector: SceneSelector::new() }
    }

    /// The attributes of the window to open.
    pub fn window_attributes() -> (r: WindowPlan)
        ensures
            r == main_window_plan(),
    {
        WindowPlan {
            title: "Fantastic window number one!",
            logical_width: 128,
            logical_height: 128,
            active: false,
            outer_x: 2500,
            outer_y: 1500,
        }
    }

    /// The application is resumed: it opens its window, with the returned
    /// attributes, and records it before it connects to the GPU.
    pub fn resumed(&mut self) -> (r: WindowPlan)
        ensures
            r == main_window_plan(),
            final(self).window_open,
            final(self).wgpu_thing == old(self).wgpu_thing,
            final(self).app_state == old(self).app_state,
            final(self).scene_selector == old(self).scene_selector,
            old(self).wf() ==> final(self).wf(),
    {
        self.window_open = true;
        Self::window_attributes()
    }

    /// What follows the attempt to connect to the GPU when the application
    /// is resumed, whether or not it succeeded: a redraw is requested.
    pub fn after_connect(&self) -> (a: Vec<Action>)
        ensures
            a@ == seq![Action::RequestRedraw],
    {
        let mut actions: Vec<Action> = Vec::new();
        actions.push(Action::RequestRedraw);
        actions
    }

    /// The first step of connecting to the GPU: without a window there is
    /// nothing to draw into; with one, the adapter is requested as returned.
    pub fn connect_to_gpu(&self) -> (r: Result<AdapterRequest, ConnectError>)
        ensures
            r == (if self.window_open {
                Ok::<AdapterRequest, ConnectError>(adapter_request())
            } else {
                Err::<AdapterRequest, ConnectError>(ConnectError::WindowNotFound)
            }),
    {
        if self.window_open {
            Ok(AdapterRequest {
                power_preference: PowerPreference::Indifferent,
                compatible_surface: true,
                force_fallback_adapter: false,
            })
        } else {
            Err(ConnectError::WindowNotFound)
        }
    }

    /// The device requested once an adapter is found.
    pub fn device_request(&self) -> (r: DeviceRequest)
        ensures
            r == device_request(),
    {
        DeviceRequest { label: None, required_features: 0, required_limits: LimitsPreset::Default, trace_path: None }
    }

    /// Decides the connection from what the adapter and device requests
    /// gave: the error of the first failed step, or the size to configure
    /// the surface with. The state is not changed; on success the caller
    /// goes on with `gpu_connected`.
    pub fn connect_step(&self, adapter_found: bool, device_ok: bool) -> (r: Result<PhysicalSize, ConnectError>)
        ensures
            r == connect_outcome(self.window_open, adapter_found, device_ok),
    {
        if !self.window_open {
            Err(ConnectError::WindowNotFound)
        } else if !adapter_found {
            Err(ConnectError::AdapterNotFound)
        } else if !device_ok {
            Err(ConnectError::DeviceNotCreated)
        } else {
            Ok(PhysicalSize { width: 860, height: 640 })
        }
    }

    /// The last step of connecting to the GPU: the surface got a configuration
    /// of `config_width` x `config_height`; the connection is kept and the
    /// pipeline of the current scene is built, and returned.
    pub fn gpu_connected(&mut self, config_width: u32, config_height: u32) -> (r: PipelineDesc)
        requires
            old(self).wf(),
            old(self).window_open,
        ensures
            final(self).wgpu_thing == Some(WgpuThing { size: initial_surface_size(), config_width, config_height }),
            r == old(self).scene_selector.current_scene().pipeline(),
            r == old(self).scene_selector.scenes@[old(self).scene_selector.current_scene_index as int].pipeline(),
            final(self).scene_selector.current_pipeline == Some(r),
            final(self).scene_selector.scenes@ == old(self).scene_selector.scenes@,
            final(self).scene_selector.current_scene_index == old(self).scene_selector.current_scene_index,
            final(self).app_state == old(self).app_state,
            final(self).window_open == old(self).window_open,
            final(self).wf(),
    {
        self.wgpu_thing = Some(WgpuThing {
            size: PhysicalSize { width: 860, height: 640 },
            config_width,
            config_height,
        });
        let scene = self.scene_selector.get_current_scene();
        let pipeline = scene.prepare_pipeline().unwrap();
        self.scene_selector.current_pipeline = Some(pipeline);
        pipeline
    }
    /// Reacts to a window event.
    ///
    /// - `Resized(size)`: without a GPU connection nothing happens; with one,
    ///   the recorded size and the surface configuration take the new size,
    ///   the surface is reconfigured and a redraw is requested.
    /// - `RedrawRequested`: the current scene renders a frame, which is shown.
    /// - The space key coming up: the next scene (the first after the last)
    ///   becomes current, its pipeline is built and made current, it renders
    ///   a frame, which is not shown, and a redraw is requested.
    /// - Anything else: nothing happens.
    pub fn window_event(&mut self, event: WindowEvent) -> (actions: Vec<Action>)
        requires
            old(self).wf(),
            needs_gpu(event) ==> old(self).wgpu_thing is Some,
        ensures
            final(self).wf(),
            final(self).app_state == old(self).app_state,
            final(self).window_open == old(self).window_open,
            final(self).scene_selector.scenes@ == old(self).scene_selector.scenes@,
            event matches WindowEvent::Resized(size) ==> {
                if old(self).wgpu_thing is Some {
                    &&& final(self).wgpu_thing == Some(WgpuThing {
                        size,
                        config_width: size.width,
                        config_height: size.height,
                    })
                    &&& final(self).scene_selector == old(self).scene_selector
                    &&& actions@ == seq![Action::ConfigureSurface(size), Action::RequestRedraw]
                } else {
                    &&& final(self).wgpu_thing == old(self).wgpu_thing
                    &&& final(self).scene_selector == old(self).scene_selector
                    &&& actions@.len() == 0
                }
            },
            event is RedrawRequested ==> {
                &&& final(self).wgpu_thing == old(self).wgpu_thing
                &&& final(self).scene_selector == old(self).scene_selector
                &&& actions@ == seq![
                    Action::RenderFrame { plan: old(self).scene_selector.current_scene().frame(), present: true },
                ]
                &&& actions@ == seq![
                    Action::RenderFrame {
                        plan: old(self).scene_selector.scenes@[old(self).scene_selector.current_scene_index as int].frame(),
                        present: true,
                    },
                ]
            },
            is_space_release(event) ==> {
                let next = final(self).scene_selector.current_scene();
                &&& final(self).wgpu_thing == old(self).wgpu_thing
                &&& final(self).scene_selector.current_scene_index == next_scene_index(
                    old(self).scene_selector.current_scene_index as int,
                    old(self).scene_selector.scenes.len() as int,
                )
                &&& final(self).scene_selector.current_pipeline == Some(next.pipeline())
                &&& next == old(self).scene_selector.scenes@[next_scene_index(
                    old(self).scene_selector.current_scene_index as int,
                    old(self).scene_selector.scenes.len() as int,
                )]
                &&& actions@ == seq![
                    Action::CreatePipeline(next.pipeline()),
                    Action::RenderFrame { plan: next.frame(), present: false },
                    Action::RequestRedraw,
                ]
            },
            (event is KeyboardInput && !is_space_release(event)) || event is Other ==> {
                &&& final(self).wgpu_thing == old(self).wgpu_thing
                &&& final(self).scene_selector == old(self).scene_selector
                &&& actions@.len() == 0
            },
    {
        let mut actions: Vec<Action> = Vec::new();
        match event {
            WindowEvent::Resized(size) => {
                if self.wgpu_thing.is_some() {
                    self.wgpu_thing = Some(WgpuThing {
                        size,
                        config_width: size.width,
                        config_height: size.height,
                    });
                    actions.push(Action::ConfigureSurface(size));
                    actions.push(Action::RequestRedraw);
                }
            },
            WindowEvent::RedrawRequested => {
                let plan = self.scene_selector.get_current_scene().render_frame();
                actions.push(Action::RenderFrame { plan, present: true });
            },
            WindowEvent::KeyboardInput { state, physical_key } => {
                match (state, physical_key) {
                    (ElementState::Released, PhysicalKey::Space) => {
                        let current_scene_index = self.scene_selector.current_scene_index;
                        self.scene_selector.select(current_scene_index + 1);
                        let pipeline = self.scene_selector.get_current_scene().prepare_pipeline().unwrap();
                        self.scene_selector.current_pipeline = Some(pipeline);
                        let plan = self.scene_selector.get_current_scene().render_frame();
                        actions.push(Action::CreatePipeline(pipeline));
                        actions.push(Action::RenderFrame { plan, present: false });
                        actions.push(Action::RequestRedraw);
                    },
                    _ => {},
                }
            },
            WindowEvent::Other => {},
        }
        actions
    }
}

} // verus!
