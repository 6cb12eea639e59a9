//! The scene that binds its first uniform buffer: the fragment shader reads
//! the size of the target from a uniform at binding 0.
use vstd::prelude::*;

use crate::pipeline::{
    display_frame, display_pipeline, make_display_frame, make_display_pipeline, BufferUsages,
    FramePlan, PipelineDesc, ShaderStages, UniformBinding, BufferBindingType, ShaderModuleDesc,
    make_unlabelled_shader, unlabelled_shader,
};
use crate::uniform::TheFirstUniformBuffer;

verus! {

pub struct Scene1 {
    pub name: String,
}

/// The shader module this scene compiles: no label, the WGSL source at
/// `assets/add_groud.wgsl`.
pub open spec fn shader_module() -> ShaderModuleDesc {
    unlabelled_shader("assets/add_groud.wgsl")
}

/// The uniform of this scene: a 128 x 128 target size, bound at 0 as a
/// uniform buffer visible to the fragment stage (no dynamic offset, no
/// minimum size, a single binding), in a buffer usable as uniform and as
/// copy destination and filled while mapped at creation, the whole buffer
/// bound from offset 0; the layouts and the bind group have no label and the
/// pipeline layout no push constants.
pub open spec fn first_uniform_binding() -> UniformBinding {
    UniformBinding {
        layout_label: None,
        binding: 0,
        visibility: ShaderStages { vertex: false, fragment: true },
        binding_type: BufferBindingType::Uniform,
        has_dynamic_offset: false,
        min_binding_size: None,
        count: None,
        buffer_label: "the first buffer bind group",
        data: TheFirstUniformBuffer { width: 128, height: 128 },
        usage: BufferUsages { uniform: true, copy_dst: true },
        mapped_at_creation: true,
        bind_group_label: None,
        offset: 0,
        binding_size: None,
        pipeline_layout_label: None,
        push_constant_range_count: 0,
    }
}

/// The pipeline this scene prepares.
pub open spec fn scene_pipeline() -> PipelineDesc {
    display_pipeline(shader_module(), Some(first_uniform_binding()))
}

/// The frame this scene renders: its bind group is set at index 0.
pub open spec fn scene_frame() -> FramePlan {
    display_frame(Some(0))
}

/// The shader module of this scene.
pub fn compile_shader_module() -> (r: ShaderModuleDesc)
    ensures
        r == shader_module(),
{
    make_unlabelled_shader("assets/add_groud.wgsl")
}

impl Scene1 {
    /// The pipeline of this scene, built from its shader module.
    pub fn prepare_pipeline(&self) -> (r: Option<PipelineDesc>)
        ensures
            r == Some(scene_pipeline()),
            r.unwrap().uniform is Some,
    {
        let shader_module = compile_shader_module();
        Some(self.create_display_pipeline(shader_module))
    }

    /// The display pipeline over `shader_module`, with an explicit layout of
    /// one bind group that holds the scene's uniform buffer.
    pub fn create_display_pipeline(&self, shader_module: ShaderModuleDesc) -> (r: PipelineDesc)
        ensures
            r == display_pipeline(shader_module, Some(first_uniform_binding())),
    {
        let uniform_data = TheFirstUniformBuffer { width: 128, height: 128 };
        let uniform = UniformBinding {
            layout_label: None,
            binding: 0,
            visibility: ShaderStages { vertex: false, fragment: true },
            binding_type: BufferBindingType::Uniform,
            has_dynamic_offset: false,
            min_binding_size: None,
            count: None,
            buffer_label: "the first buffer bind group",
            data: uniform_data,
            usage: BufferUsages { uniform: true, copy_dst: true },
            mapped_at_creation: true,
            bind_group_label: None,
            offset: 0,
            binding_size: None,
            pipeline_layout_label: None,
            push_constant_range_count: 0,
        };
        make_display_pipeline(shader_module, Some(uniform))
    }

    /// The draw of one frame of this scene.
    pub fn render_frame(&self) -> (r: FramePlan)
        ensures
            r == scene_frame(),
            r.bind_group_index == Some(0u32),
            !r.has_depth_stencil_attachment,
            !r.has_resolve_target,
    {
        make_display_frame(Some(0))
    }
}

} // verus!
