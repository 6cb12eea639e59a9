//! The scene that covers half of the screen.
//!
//! Only the scene's name and kind are given for it; its pipeline and frame
//! are taken to be those of the colour-screen scene, over the WGSL source
//! named after the scene.
use vstd::prelude::*;

use crate::pipeline::{
    display_frame, display_pipeline, make_display_frame, make_display_pipeline, FramePlan,
    PipelineDesc, ShaderModuleDesc, make_unlabelled_shader, unlabelled_shader,
};

verus! {

pub struct Scene1 {
    pub name: String,
}

/// The shader module this scene compiles: no label, the WGSL source at
/// `assets/half_screen.wgsl`.
pub open spec fn shader_module() -> ShaderModuleDesc {
    unlabelled_shader("assets/half_screen.wgsl")
}

/// The pipeline this scene prepares: no uniform, layout derived from the shader.
pub open spec fn scene_pipeline() -> PipelineDesc {
    display_pipeline(shader_module(), None)
}

/// The frame this scene renders: no bind group.
pub open spec fn scene_frame() -> FramePlan {
    display_frame(None)
}

/// The shader module of this scene.
pub fn compile_shader_module() -> (r: ShaderModuleDesc)
    ensures
        r == shader_module(),
{
    make_unlabelled_shader("assets/half_screen.wgsl")
}

/// The display pipeline over `shader_module`, its layout derived from the shader.
pub fn create_display_pipeline(shader_module: ShaderModuleDesc) -> (r: PipelineDesc)
    ensures
        r == display_pipeline(shader_module, None),
{
    make_display_pipeline(shader_module, None)
}

impl Scene1 {
    /// The pipeline of this scene, built from its shader module.
    pub fn prepare_pipeline(&self) -> (r: Option<PipelineDesc>)
        ensures
            r == Some(scene_pipeline()),
            r.unwrap().uniform is None,
    {
        let shader_module = compile_shader_module();
        Some(create_display_pipeline(shader_module))
    }

    /// The draw of one frame of this scene.
    pub fn render_frame(&self) -> (r: FramePlan)
        ensures
            r == scene_frame(),
            r.bind_group_index is None,
            !r.has_depth_stencil_attachment,
            !r.has_resolve_target,
    {
        make_display_frame(None)
    }
}

} // verus!
