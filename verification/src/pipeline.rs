//! Plain descriptions of what a scene asks the GPU for: the shader module,
//! the render pipeline (with the optional uniform binding) and the render
//! pass of one frame. The application turns them into wgpu descriptors.
use vstd::prelude::*;

use crate::uniform::TheFirstUniformBuffer;

verus! {

/// A WGSL shader module: its label and the path of its source, relative to
/// the package root.
#[derive(Clone, Copy, Debug, PartialEq, Eq)]
pub struct ShaderModuleDesc {
    pub label: Option<&'static str>,
    pub path: &'static str,
}

/// The shader stages a binding is visible to.
#[derive(Clone, Copy, Debug, PartialEq, Eq)]
pub struct ShaderStages {
    pub vertex: bool,
    pub fragment: bool,
}

/// How a GPU buffer may be used.
#[derive(Clone, Copy, Debug, PartialEq, Eq)]
pub struct BufferUsages {
    pub uniform: bool,
    pub copy_dst: bool,
}

/// The kind of buffer binding in a bind group layout.
#[derive(Clone, Copy, Debug, PartialEq, Eq)]
pub enum BufferBindingType {
    Uniform,
    Storage { read_only: bool },
}

/// A buffer bound to the pipeline: the bind group layout entry, the buffer
/// that backs it, the bind group entry that points at it, and the pipeline
/// layout that holds the bind group layout.
#[derive(Clone, Copy, Debug, PartialEq, Eq)]
pub struct UniformBinding {
    /// Label of the bind group layout.
    pub layout_label: Option<&'static str>,
    /// Binding number in the layout and in the bind group.
    pub binding: u32,
    pub visibility: ShaderStages,
    pub binding_type: BufferBindingType,
    pub has_dynamic_offset: bool,
    pub min_binding_size: Option<u64>,
    /// Array count of the layout entry; `None` for a single binding.
    pub count: Option<u32>,
    /// Label of the backing buffer.
    pub buffer_label: &'static str,
    /// The data written into the buffer while it is mapped at creation.
    pub data: TheFirstUniformBuffer,
    pub usage: BufferUsages,
    pub mapped_at_creation: bool,
    /// Label of the bind group.
    pub bind_group_label: Option<&'static str>,
    /// Offset of the binding into the buffer.
    pub offset: u64,
    /// Size of the binding; `None` binds the rest of the buffer.
    pub binding_size: Option<u64>,
    /// Label of the pipeline layout.
    pub pipeline_layout_label: Option<&'static str>,
    /// Number of push constant ranges of the pipeline layout.
    pub push_constant_range_count: u32,
}

/// How vertices are assembled into primitives.
#[derive(Clone, Copy, Debug, PartialEq, Eq)]
pub enum PrimitiveTopology {
    PointList,
    LineList,
    LineStrip,
    TriangleList,
    TriangleStrip,
}

/// The format of strip indices.
#[derive(Clone, Copy, Debug, PartialEq, Eq)]
pub enum IndexFormat {
    Uint16,
    Uint32,
}

/// Which winding marks a front face.
#[derive(Clone, Copy, Debug, PartialEq, Eq)]
pub enum FrontFace {
    Ccw,
    Cw,
}

/// A face to cull.
#[derive(Clone, Copy, Debug, PartialEq, Eq)]
pub enum Face {
    Front,
    Back,
}

/// How polygons are rasterized.
#[derive(Clone, Copy, Debug, PartialEq, Eq)]
pub enum PolygonMode {
    Fill,
    Line,
    Point,
}

/// Primitive assembly and rasterization.
#[derive(Clone, Copy, Debug, PartialEq, Eq)]
pub struct PrimitiveState {
    pub topology: PrimitiveTopology,
    pub strip_index_format: Option<IndexFormat>,
    pub front_face: FrontFace,
    pub cull_mode: Option<Face>,
    pub unclipped_depth: bool,
    pub polygon_mode: PolygonMode,
    pub conservative: bool,
}

/// Formats of a colour target.
#[derive(Clone, Copy, Debug, PartialEq, Eq)]
pub enum TextureFormat {
    Bgra8UnormSrgb,
    Bgra8Unorm,
    Rgba8UnormSrgb,
    Rgba8Unorm,
}

/// The blending of a colour target.
#[derive(Clone, Copy, Debug, PartialEq, Eq)]
pub enum BlendState {
    Replace,
    AlphaBlending,
    PremultipliedAlphaBlending,
}

/// Which channels a colour target is written.
#[derive(Clone, Copy, Debug, PartialEq, Eq)]
pub struct ColorWrites {
    pub red: bool,
    pub green: bool,
    pub blue: bool,
    pub alpha: bool,
}

/// The colour target of the fragment stage.
#[derive(Clone, Copy, Debug, PartialEq, Eq)]
pub struct ColorTargetState {
    pub format: TextureFormat,
    pub blend: Option<BlendState>,
    pub write_mask: ColorWrites,
}

/// Multisampling of the pipeline.
#[derive(Clone, Copy, Debug, PartialEq, Eq)]
pub struct MultisampleState {
    pub count: u32,
    pub mask: u64,
    pub alpha_to_coverage_enabled: bool,
}

/// A render pipeline with a vertex and a fragment stage from one shader module.
#[derive(Clone, Copy, Debug, PartialEq, Eq)]
pub struct PipelineDesc {
    pub label: &'static str,
    pub shader: ShaderModuleDesc,
    pub vertex_entry: &'static str,
    /// Number of vertex buffer layouts; vertices come from the shader alone when 0.
    pub vertex_buffer_count: u32,
    pub fragment_entry: &'static str,
    /// The single colour target.
    pub target: ColorTargetState,
    pub primitive: PrimitiveState,
    pub has_depth_stencil: bool,
    pub multisample: MultisampleState,
    pub multiview: Option<u32>,
    /// `None`: the layout is derived from the shader. `Some`: an explicit
    /// layout with one bind group holding this buffer.
    pub uniform: Option<UniformBinding>,
}

/// What a render pass does with the target before drawing.
#[derive(Clone, Copy, Debug, PartialEq, Eq)]
pub enum LoadOp {
    /// Clear to opaque black.
    ClearBlack,
    /// Keep what the target holds.
    Load,
}

/// What a render pass does with the target after drawing.
#[derive(Clone, Copy, Debug, PartialEq, Eq)]
pub enum StoreOp {
    Store,
    Discard,
}

/// One command recorded in a render pass.
#[derive(Clone, Copy, Debug, PartialEq, Eq)]
pub enum RenderCommand {
    /// Use the current pipeline.
    SetPipeline,
    /// Set the scene's bind group at `index`, with that many dynamic offsets.
    SetBindGroup { index: u32, dynamic_offset_count: u32 },
    /// Draw the vertices `vertex_start..vertex_end` of the instances
    /// `instance_start..instance_end`.
    Draw { vertex_start: u32, vertex_end: u32, instance_start: u32, instance_end: u32 },
}

/// One frame: a command encoder with a single render pass on one colour
/// attachment, submitted to the queue as one command buffer.
#[derive(Clone, Copy, Debug, PartialEq, Eq)]
pub struct FramePlan {
    pub encoder_label: &'static str,
    pub pass_label: &'static str,
    pub load: LoadOp,
    pub store: StoreOp,
    pub has_resolve_target: bool,
    pub has_depth_stencil_attachment: bool,
    /// Index at which the scene's bind group is set, if it has one.
    pub bind_group_index: Option<u32>,
    pub vertex_start: u32,
    pub vertex_end: u32,
    pub instance_start: u32,
    pub instance_end: u32,
}

/// A shader module with no label over the WGSL source at `path`.
pub open spec fn unlabelled_shader(path: &'static str) -> ShaderModuleDesc {
    ShaderModuleDesc { label: None, path }
}

/// Builds the description of an unlabelled shader module.
pub fn make_unlabelled_shader(path: &'static str) -> (r: ShaderModuleDesc)
    ensures
        r == unlabelled_shader(path),
{
    ShaderModuleDesc { label: None, path }
}

/// Triangle lists, counter-clockwise front faces, filled polygons, and the
/// defaults otherwise: no strip index format, no culling, depth clipped,
/// no conservative rasterization.
pub open spec fn filled_triangles() -> PrimitiveState {
    PrimitiveState {
        topology: PrimitiveTopology::TriangleList,
        strip_index_format: None,
        front_face: FrontFace::Ccw,
        cull_mode: None,
        unclipped_depth: false,
        polygon_mode: PolygonMode::Fill,
        conservative: false,
    }
}

/// A `Bgra8UnormSrgb` target, no blending, all channels written.
pub open spec fn srgb_target() -> ColorTargetState {
    ColorTargetState {
        format: TextureFormat::Bgra8UnormSrgb,
        blend: None,
        write_mask: ColorWrites { red: true, green: true, blue: true, alpha: true },
    }
}

/// No multisampling: one sample, every sample bit set, no alpha to coverage.
pub open spec fn single_sample() -> MultisampleState {
    MultisampleState { count: 1, mask: 0xffff_ffff_ffff_ffff, alpha_to_coverage_enabled: false }
}

/// The pipeline every scene builds: label "display", entry points
/// `display_vs` (no vertex buffers) and `display_fs` of the given shader,
/// filled triangle lists into an sRGB BGRA target, no depth-stencil, no
/// multisampling, no multiview.
pub open spec fn display_pipeline(shader: ShaderModuleDesc, uniform: Option<UniformBinding>) -> PipelineDesc {
    PipelineDesc {
        label: "display",
        shader,
        vertex_entry: "display_vs",
        vertex_buffer_count: 0,
        fragment_entry: "display_fs",
        target: srgb_target(),
        primitive: filled_triangles(),
        has_depth_stencil: false,
        multisample: single_sample(),
        multiview: None,
        uniform,
    }
}

/// Builds the pipeline description every scene uses.
pub fn make_display_pipeline(shader: ShaderModuleDesc, uniform: Option<UniformBinding>) -> (r: PipelineDesc)
    ensures
        r == display_pipeline(shader, uniform),
{
    PipelineDesc {
        label: "display",
        shader,
        vertex_entry: "display_vs",
        vertex_buffer_count: 0,
        fragment_entry: "display_fs",
        target: ColorTargetState {
            format: TextureFormat::Bgra8UnormSrgb,
            blend: None,
            write_mask: ColorWrites { red: true, green: true, blue: true, alpha: true },
        },
        primitive: PrimitiveState {
            topology: PrimitiveTopology::TriangleList,
            strip_index_format: None,
            front_face: FrontFace::Ccw,
            cull_mode: None,
            unclipped_depth: false,
            polygon_mode: PolygonMode::Fill,
            conservative: false,
        },
        has_depth_stencil: false,
        multisample: MultisampleState {
            count: 1,
            mask: 0xffff_ffff_ffff_ffff,
            alpha_to_coverage_enabled: false,
        },
        multiview: None,
        uniform,
    }
}

/// The frame every scene draws: clear to black and store, no resolve
/// target, no depth-stencil attachment; the scene's bind group at
/// `bind_group_index` if any; six vertices of one instance.
pub open spec fn display_frame(bind_group_index: Option<u32>) -> FramePlan {
    FramePlan {
        encoder_label: "render frame",
        pass_label: "display pass",
        load: LoadOp::ClearBlack,
        store: StoreOp::Store,
        has_resolve_target: false,
        has_depth_stencil_attachment: false,
        bind_group_index,
        vertex_start: 0,
        vertex_end: 6,
        instance_start: 0,
        instance_end: 1,
    }
}

/// Builds the frame description every scene uses.
pub fn make_display_frame(bind_group_index: Option<u32>) -> (r: FramePlan)
    ensures
        r == display_frame(bind_group_index),
{
    FramePlan {
        encoder_label: "render frame",
        pass_label: "display pass",
        load: LoadOp::ClearBlack,
        store: StoreOp::Store,
        has_resolve_target: false,
        has_depth_stencil_attachment: false,
        bind_group_index,
        vertex_start: 0,
        vertex_end: 6,
        instance_start: 0,
        instance_end: 1,
    }
}

/// The commands of a frame's render pass, in order: set the pipeline, set
/// the bind group (with no dynamic offsets) when the frame has one, draw.
pub open spec fn pass_commands(plan: FramePlan) -> Seq<RenderCommand> {
    let draw = RenderCommand::Draw {
        vertex_start: plan.vertex_start,
        vertex_end: plan.vertex_end,
        instance_start: plan.instance_start,
        instance_end: plan.instance_end,
    };
    match plan.bind_group_index {
        Some(index) => seq![
            RenderCommand::SetPipeline,
            RenderCommand::SetBindGroup { index, dynamic_offset_count: 0 },
            draw,
        ],
        None => seq![RenderCommand::SetPipeline, draw],
    }
}

impl FramePlan {
    /// The commands to record in the frame's render pass, in order.
    pub fn commands(&self) -> (r: Vec<RenderCommand>)
        ensures
            r@ == pass_commands(*self),
    {
        let mut commands: Vec<RenderCommand> = Vec::new();
        commands.push(RenderCommand::SetPipeline);
        match self.bind_group_index {
            Some(index) => {
                commands.push(RenderCommand::SetBindGroup { index, dynamic_offset_count: 0 });
            },
            None => {},
        }
        commands.push(RenderCommand::Draw {
            vertex_start: self.vertex_start,
            vertex_end: self.vertex_end,
            instance_start: self.instance_start,
            instance_end: self.instance_end,
        });
        commands
    }
}

} // verus!
