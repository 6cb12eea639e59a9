//! The scenes the application can show and the selector that picks the
//! current one.
use vstd::prelude::*;

use crate::pipeline::{
    filled_triangles, pass_commands, single_sample, srgb_target, FramePlan, LoadOp, PipelineDesc,
    RenderCommand, StoreOp, PrimitiveTopology, FrontFace, PolygonMode, TextureFormat,
};

pub mod buffer_first_bind;
pub mod color_screen;
pub mod half_screen;
pub mod red_triangle;

verus! {

broadcast use vstd::string::to_string_from_display_ensures_for_str;

/// A scene: something that prepares a render pipeline and renders frames with it.
pub enum Scene {
    BufferFirstBind(buffer_first_bind::Scene1),
    RedTriangle(red_triangle::Scene1),
    HalfScreen(half_screen::Scene1),
    ColorScreen(color_screen::Scene1),
}

impl Scene {
    /// The pipeline the scene prepares.
    pub open spec fn pipeline(&self) -> PipelineDesc {
        match self {
            Scene::BufferFirstBind(_) => buffer_first_bind::scene_pipeline(),
            Scene::RedTriangle(_) => red_triangle::scene_pipeline(),
            Scene::HalfScreen(_) => half_screen::scene_pipeline(),
            Scene::ColorScreen(_) => color_screen::scene_pipeline(),
        }
    }

    /// The frame the scene renders.
    pub open spec fn frame(&self) -> FramePlan {
        match self {
            Scene::BufferFirstBind(_) => buffer_first_bind::scene_frame(),
            Scene::RedTriangle(_) => red_triangle::scene_frame(),
            Scene::HalfScreen(_) => half_screen::scene_frame(),
            Scene::ColorScreen(_) => color_screen::scene_frame(),
        }
    }

    /// The scene's name.
    pub open spec fn name(&self) -> Seq<char> {
        match self {
            Scene::BufferFirstBind(s) => s.name@,
            Scene::RedTriangle(s) => s.name@,
            Scene::HalfScreen(s) => s.name@,
            Scene::ColorScreen(s) => s.name@,
        }
    }

    /// Prepares the scene's pipeline; every scene yields one.
    pub fn prepare_pipeline(&self) -> (r: Option<PipelineDesc>)
        ensures
            r == Some(self.pipeline()),
            r is Some,
            r.unwrap().uniform is Some <==> self is BufferFirstBind,
            self is BufferFirstBind ==> r.unwrap().shader.path == "assets/add_groud.wgsl",
            self is RedTriangle ==> r.unwrap().shader.path == "assets/red_triangle.wgsl",
            self is HalfScreen ==> r.unwrap().shader.path == "assets/half_screen.wgsl",
            self is ColorScreen ==> r.unwrap().shader.path == "assets/color_screen.wgsl",
            r.unwrap().shader.label is None,
            r.unwrap().label == "display",
            r.unwrap().vertex_entry == "display_vs",
            r.unwrap().fragment_entry == "display_fs",
    {
        match self {
            Scene::BufferFirstBind(s) => s.prepare_pipeline(),
            Scene::RedTriangle(s) => s.prepare_pipeline(),
            Scene::HalfScreen(s) => s.prepare_pipeline(),
            Scene::ColorScreen(s) => s.prepare_pipeline(),
        }
    }

    /// Describes one frame of the scene.
    pub fn render_frame(&self) -> (r: FramePlan)
        ensures
            r == self.frame(),
            r.bind_group_index == (if self is BufferFirstBind { Some(0u32) } else { None::<u32> }),
            r.encoder_label == "render frame",
            r.pass_label == "display pass",
            r.load == LoadOp::ClearBlack,
            r.store == StoreOp::Store,
            !r.has_resolve_target,
            !r.has_depth_stencil_attachment,
            r.vertex_start == 0 && r.vertex_end == 6,
            r.instance_start == 0 && r.instance_end == 1,
    {
        match self {
            Scene::BufferFirstBind(s) => s.render_frame(),
            Scene::RedTriangle(s) => s.render_frame(),
            Scene::HalfScreen(s) => s.render_frame(),
            Scene::ColorScreen(s) => s.render_frame(),
        }
    }
}

/// The index that `select(index)` makes current among `len` scenes: the
/// index itself when it names a scene, the first scene otherwise.
pub open spec fn selected_index(index: int, len: int) -> int {
    if 0 <= index < len {
        index
    } else {
        0
    }
}

/// The scene after `cur` when scenes are stepped through one by one: the
/// next one, or the first after the last.
pub open spec fn next_scene_index(cur: int, len: int) -> int {
    selected_index(cur + 1, len)
}

/// `next_scene_index` applied `k` times, starting from `cur`.
pub open spec fn step_scenes(cur: int, len: int, k: nat) -> int
    decreases k,
{
    if k == 0 {
        cur
    } else {
        next_scene_index(step_scenes(cur, len, (k - 1) as nat), len)
    }
}

/// Stepping to the next scene is adding one modulo the number of scenes.
pub proof fn lemma_next_scene_is_successor_mod(cur: int, len: int)
    requires
        0 <= cur < len,
    ensures
        next_scene_index(cur, len) == (cur + 1) % len,
{
    if cur + 1 < len {
        vstd::arithmetic::div_mod::lemma_small_mod((cur + 1) as nat, len as nat);
    } else {
        vstd::arithmetic::div_mod::lemma_mod_self_0(len);
    }
}

/// Stepping `k` times from `cur` lands on `(cur + k) % len`.
pub proof fn lemma_step_scenes_mod(cur: int, len: int, k: nat)
    requires
        0 <= cur < len,
    ensures
        step_scenes(cur, len, k) == (cur + k) % len,
    decreases k,
{
    if k == 0 {
        vstd::arithmetic::div_mod::lemma_small_mod(cur as nat, len as nat);
    } else {
        lemma_step_scenes_mod(cur, len, (k - 1) as nat);
        let prev = step_scenes(cur, len, (k - 1) as nat);
        vstd::arithmetic::div_mod::lemma_mod_bound(cur + k - 1, len);
        lemma_next_scene_is_successor_mod(prev, len);
        vstd::arithmetic::div_mod::lemma_add_mod_noop_right(1, cur + k - 1, len);
    }
}

/// Stepping through all `len` scenes comes back to the scene one started from.
pub proof fn lemma_scene_cycle(cur: int, len: int)
    requires
        0 <= cur < len,
    ensures
        step_scenes(cur, len, len as nat) == cur,
{
    lemma_step_scenes_mod(cur, len, len as nat);
    vstd::arithmetic::div_mod::lemma_add_mod_noop(cur, len, len);
    vstd::arithmetic::div_mod::lemma_mod_self_0(len);
    vstd::arithmetic::div_mod::lemma_small_mod(cur as nat, len as nat);
}

/// Every scene draws with a pipeline labelled "display" whose entry points
/// are `display_vs` and `display_fs` of an unlabelled shader module, filling
/// triangle lists into an sRGB BGRA target without blending, depth-stencil,
/// multisampling or multiview, and renders six vertices of one instance
/// after clearing the target to black, storing the result.
pub proof fn lemma_every_scene_uses_display_shaders(scene: Scene)
    ensures
        scene.pipeline().label == "display",
        scene.pipeline().shader.label is None,
        scene.pipeline().vertex_entry == "display_vs",
        scene.pipeline().vertex_buffer_count == 0,
        scene.pipeline().fragment_entry == "display_fs",
        scene.pipeline().primitive == filled_triangles(),
        scene.pipeline().target == srgb_target(),
        !scene.pipeline().has_depth_stencil,
        scene.pipeline().multisample == single_sample(),
        scene.pipeline().multiview is None,
        scene.frame().load == LoadOp::ClearBlack,
        scene.frame().store == StoreOp::Store,
        !scene.frame().has_resolve_target,
        scene.frame().vertex_start == 0 && scene.frame().vertex_end == 6,
        scene.frame().instance_start == 0 && scene.frame().instance_end == 1,
{
}

/// A scene's frame sets a bind group exactly when its pipeline binds a
/// uniform buffer, and then at index 0, the group its layout declares,
/// between setting the pipeline and drawing.
pub proof fn lemma_bind_group_matches_layout(scene: Scene)
    ensures
        scene.frame().bind_group_index is Some <==> scene.pipeline().uniform is Some,
        scene.frame().bind_group_index is Some ==> scene.frame().bind_group_index == Some(0u32),
        scene.pipeline().uniform is Some ==> pass_commands(scene.frame())[1]
            == (RenderCommand::SetBindGroup { index: 0, dynamic_offset_count: 0 }),
        pass_commands(scene.frame())[0] == RenderCommand::SetPipeline,
{
}

/// Selecting an index that names a scene makes that very index current;
/// any other index makes the first scene current.
pub proof fn lemma_selected_index(index: int, len: int)
    requires
        0 < len,
    ensures
        0 <= index < len ==> selected_index(index, len) == index,
        !(0 <= index < len) ==> selected_index(index, len) == 0,
        0 <= selected_index(index, len) < len,
{
}

/// Each kind of scene prepares its own pipeline and frame: only the buffer
/// scene binds a uniform buffer (its 128 x 128 size, at binding 0, set at
/// bind group 0), every scene compiles the WGSL source of its own kind, and
/// no frame has a depth-stencil attachment or a resolve target.
pub proof fn lemma_scene_kinds(scene: Scene)
    ensures
        scene.pipeline().uniform is Some <==> scene is BufferFirstBind,
        scene.frame().bind_group_index is Some <==> scene is BufferFirstBind,
        scene is BufferFirstBind ==> {
            &&& scene.pipeline().shader.path == "assets/add_groud.wgsl"
            &&& scene.pipeline().uniform.unwrap().binding == 0
            &&& scene.pipeline().uniform.unwrap().data.width == 128
            &&& scene.pipeline().uniform.unwrap().data.height == 128
            &&& scene.pipeline().uniform.unwrap().visibility.fragment
            &&& !scene.pipeline().uniform.unwrap().visibility.vertex
            &&& scene.frame().bind_group_index == Some(0u32)
        },
        scene is RedTriangle ==> scene.pipeline().shader.path == "assets/red_triangle.wgsl",
        scene is HalfScreen ==> scene.pipeline().shader.path == "assets/half_screen.wgsl",
        scene is ColorScreen ==> scene.pipeline().shader.path == "assets/color_screen.wgsl",
        !scene.frame().has_depth_stencil_attachment,
        !scene.frame().has_resolve_target,
        scene.frame().encoder_label == "render frame",
        scene.frame().pass_label == "display pass",
        scene.pipeline().primitive.topology == PrimitiveTopology::TriangleList,
        scene.pipeline().primitive.front_face == FrontFace::Ccw,
        scene.pipeline().primitive.polygon_mode == PolygonMode::Fill,
        scene.pipeline().target.format == TextureFormat::Bgra8UnormSrgb,
        scene.pipeline().target.blend is None,
        !scene.pipeline().has_depth_stencil,
        scene.pipeline().multisample.count == 1,
{
}

/// The current scene is the scene at the current index.
pub proof fn lemma_current_scene_at_index(selector: SceneSelector)
    ensures
        selector.current_scene() == selector.scenes@[selector.current_scene_index as int],
{
}

/// The list of scenes, the index of the current one, and the pipeline built
/// for it.
pub struct SceneSelector {
    pub scenes: Vec<Scene>,
    pub current_scene_index: usize,
    pub current_pipeline: Option<PipelineDesc>,
}

/// The scenes `SceneSelector::new` lists, in order.
pub open spec fn default_scenes(scenes: Seq<Scene>) -> bool {
    &&& scenes.len() == 4
    &&& scenes[0] is BufferFirstBind && scenes[0].name() == "buffer_first_bind"@
    &&& scenes[1] is RedTriangle && scenes[1].name() == "red_triangle"@
    &&& scenes[2] is HalfScreen && scenes[2].name() == "half_screen"@
    &&& scenes[3] is ColorScreen && scenes[3].name() == "color_screen"@
}

impl SceneSelector {
    /// There is a scene, and the current index names one.
    pub open spec fn wf(&self) -> bool {
        &&& self.scenes.len() > 0
        &&& self.current_scene_index < self.scenes.len()
    }

    /// The current scene.
    pub open spec fn current_scene(&self) -> Scene {
        self.scenes@[self.current_scene_index as int]
    }

    /// Makes the scene at `index` current, or the first scene when `index`
    /// names none, and returns the scene made current.
    pub fn select(&mut self, index: usize) -> (r: &Scene)
        requires
            old(self).scenes.len() > 0,
        ensures
            final(self).scenes@ == old(self).scenes@,
            final(self).current_pipeline == old(self).current_pipeline,
            final(self).current_scene_index == selected_index(index as int, old(self).scenes.len() as int),
            index < old(self).scenes.len() ==> final(self).current_scene_index == index
                && *r == old(self).scenes@[index as int],
            index >= old(self).scenes.len() ==> final(self).current_scene_index == 0
                && *r == old(self).scenes@[0],
            *r == final(self).scenes@[final(self).current_scene_index as int],
    {
        if index < self.scenes.len() {
            self.current_scene_index = index;
        } else {
            self.current_scene_index = 0;
        }
        &self.scenes[self.current_scene_index]
    }

    /// The current scene.
    pub fn get_current_scene(&self) -> (r: &Scene)
        requires
            self.current_scene_index < self.scenes.len(),
        ensures
            *r == self.current_scene(),
            *r == self.scenes@[self.current_scene_index as int],
    {
        &self.scenes[self.current_scene_index]
    }

    /// The four scenes, the first one current, no pipeline built yet.
    pub fn new() -> (r: Self)
        ensures
            default_scenes(r.scenes@),
            r.current_scene_index == 0,
            r.current_pipeline is None,
            r.wf(),
    {
        let mut scenes: Vec<Scene> = Vec::new();
        scenes.push(Scene::BufferFirstBind(buffer_first_bind::Scene1 { name: "buffer_first_bind".to_string() }));
        scenes.push(Scene::RedTriangle(red_triangle::Scene1 { name: "red_triangle".to_string() }));
        scenes.push(Scene::HalfScreen(half_screen::Scene1 { name: "half_screen".to_string() }));
        scenes.push(Scene::ColorScreen(color_screen::Scene1 { name: "color_screen".to_string() }));
        SceneSelector { scenes, current_scene_index: 0, current_pipeline: None }
    }
}

} // verus!
