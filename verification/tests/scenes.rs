use gpu_scenes::pipeline::{
    BufferBindingType, BufferUsages, ColorTargetState, ColorWrites, FrontFace, LoadOp, MultisampleState,
    PipelineDesc, PolygonMode, PrimitiveState, PrimitiveTopology, RenderCommand, ShaderModuleDesc, ShaderStages,
    StoreOp, TextureFormat, UniformBinding,
};
use gpu_scenes::scenes::{buffer_first_bind, color_screen, half_screen, red_triangle, Scene, SceneSelector};
use gpu_scenes::uniform::TheFirstUniformBuffer;

fn scene_name(scene: &Scene) -> &str {
    match scene {
        Scene::BufferFirstBind(s) => &s.name,
        Scene::RedTriangle(s) => &s.name,
        Scene::HalfScreen(s) => &s.name,
        Scene::ColorScreen(s) => &s.name,
    }
}

#[test]
fn new_lists_four_scenes_first_current() {
    let selector = SceneSelector::new();
    assert_eq!(selector.scenes.len(), 4);
    let names: Vec<&str> = selector.scenes.iter().map(scene_name).collect();
    assert_eq!(names, vec!["buffer_first_bind", "red_triangle", "half_screen", "color_screen"]);
    assert!(matches!(selector.scenes[0], Scene::BufferFirstBind(_)));
    assert!(matches!(selector.scenes[1], Scene::RedTriangle(_)));
    assert!(matches!(selector.scenes[2], Scene::HalfScreen(_)));
    assert!(matches!(selector.scenes[3], Scene::ColorScreen(_)));
    assert_eq!(selector.current_scene_index, 0);
    assert_eq!(selector.current_pipeline, None);
}

#[test]
fn select_in_range_makes_index_current() {
    let mut selector = SceneSelector::new();
    let picked = scene_name(selector.select(2)).to_string();
    assert_eq!(picked, "half_screen");
    assert_eq!(selector.current_scene_index, 2);
    assert_eq!(scene_name(selector.get_current_scene()), "half_screen");
}

#[test]
fn select_last_index() {
    let mut selector = SceneSelector::new();
    let picked = scene_name(selector.select(3)).to_string();
    assert_eq!(picked, "color_screen");
    assert_eq!(selector.current_scene_index, 3);
}

#[test]
fn select_out_of_range_falls_back_to_first() {
    let mut selector = SceneSelector::new();
    selector.select(2);
    let picked = scene_name(selector.select(4)).to_string();
    assert_eq!(picked, "buffer_first_bind");
    assert_eq!(selector.current_scene_index, 0);
    let picked = scene_name(selector.select(usize::MAX)).to_string();
    assert_eq!(picked, "buffer_first_bind");
    assert_eq!(selector.current_scene_index, 0);
}

#[test]
fn select_keeps_scenes_and_pipeline() {
    let mut selector = SceneSelector::new();
    selector.select(1);
    assert_eq!(selector.scenes.len(), 4);
    assert_eq!(selector.current_pipeline, None);
}

fn expected_uniform() -> UniformBinding {
    UniformBinding {
        layout_label: None,
        binding: 0,
        visibility: ShaderStages { vertex: false, fragment: true },
        binding_type: BufferBindingType::Uniform,
        has_dynamic_offset: false,
        min_binding_size: None,
        count: None,
        buffer_label: "the first buffer bind group",
        data: TheFirstUniformBuffer { width: 128, height: 128 },
        usage: BufferUsages { uniform: true, copy_dst: true },
        mapped_at_creation: true,
        bind_group_label: None,
        offset: 0,
        binding_size: None,
        pipeline_layout_label: None,
        push_constant_range_count: 0,
    }
}

fn expected_pipeline(path: &'static str, uniform: Option<UniformBinding>) -> PipelineDesc {
    PipelineDesc {
        label: "display",
        shader: ShaderModuleDesc { label: None, path },
        vertex_entry: "display_vs",
        vertex_buffer_count: 0,
        fragment_entry: "display_fs",
        target: ColorTargetState {
            format: TextureFormat::Bgra8UnormSrgb,
            blend: None,
            write_mask: ColorWrites { red: true, green: true, blue: true, alpha: true },
        },
        primitive: PrimitiveState {
            topology: PrimitiveTopology::TriangleList,
            strip_index_format: None,
            front_face: FrontFace::Ccw,
            cull_mode: None,
            unclipped_depth: false,
            polygon_mode: PolygonMode::Fill,
            conservative: false,
        },
        has_depth_stencil: false,
        multisample: MultisampleState { count: 1, mask: u64::MAX, alpha_to_coverage_enabled: false },
        multiview: None,
        uniform,
    }
}

#[test]
fn buffer_scene_pipeline_binds_uniform() {
    let scene = buffer_first_bind::Scene1 { name: "buffer_first_bind".to_string() };
    let desc = scene.prepare_pipeline().unwrap();
    assert_eq!(desc, expected_pipeline("assets/add_groud.wgsl", Some(expected_uniform())));
    assert_eq!(
        buffer_first_bind::compile_shader_module(),
        ShaderModuleDesc { label: None, path: "assets/add_groud.wgsl" }
    );
    let other = ShaderModuleDesc { label: Some("other"), path: "other.wgsl" };
    assert_eq!(scene.create_display_pipeline(other).shader, other);
}

#[test]
fn buffer_scene_frame_sets_bind_group() {
    let scene = buffer_first_bind::Scene1 { name: "buffer_first_bind".to_string() };
    let frame = scene.render_frame();
    assert_eq!(frame.bind_group_index, Some(0));
    assert_eq!(frame.load, LoadOp::ClearBlack);
    assert_eq!(frame.store, StoreOp::Store);
    assert!(!frame.has_resolve_target);
    assert!(!frame.has_depth_stencil_attachment);
    assert_eq!(
        frame.commands(),
        vec![
            RenderCommand::SetPipeline,
            RenderCommand::SetBindGroup { index: 0, dynamic_offset_count: 0 },
            RenderCommand::Draw { vertex_start: 0, vertex_end: 6, instance_start: 0, instance_end: 1 },
        ]
    );
    assert_eq!((frame.vertex_start, frame.vertex_end), (0, 6));
    assert_eq!((frame.instance_start, frame.instance_end), (0, 1));
    assert_eq!(frame.encoder_label, "render frame");
    assert_eq!(frame.pass_label, "display pass");
}

#[test]
fn color_screen_pipeline_has_no_uniform() {
    let scene = color_screen::Scene1 { name: "color_screen".to_string() };
    let desc = scene.prepare_pipeline().unwrap();
    assert_eq!(desc, expected_pipeline("assets/color_screen.wgsl", None));
    let other = ShaderModuleDesc { label: None, path: "x.wgsl" };
    assert_eq!(color_screen::create_display_pipeline(other), expected_pipeline("x.wgsl", None));
    let frame = scene.render_frame();
    assert_eq!(frame.bind_group_index, None);
    assert_eq!(
        frame.commands(),
        vec![
            RenderCommand::SetPipeline,
            RenderCommand::Draw { vertex_start: 0, vertex_end: 6, instance_start: 0, instance_end: 1 },
        ]
    );
}

#[test]
fn other_scenes_use_their_own_shader() {
    let red = red_triangle::Scene1 { name: "red_triangle".to_string() };
    let half = half_screen::Scene1 { name: "half_screen".to_string() };
    assert_eq!(red.prepare_pipeline().unwrap(), expected_pipeline("assets/red_triangle.wgsl", None));
    assert_eq!(half.prepare_pipeline().unwrap(), expected_pipeline("assets/half_screen.wgsl", None));
    assert_eq!(red_triangle::compile_shader_module().path, "assets/red_triangle.wgsl");
    assert_eq!(half_screen::compile_shader_module().path, "assets/half_screen.wgsl");
    assert_eq!(red_triangle::create_display_pipeline(red_triangle::compile_shader_module()).label, "display");
    assert_eq!(half_screen::create_display_pipeline(half_screen::compile_shader_module()).label, "display");
}

#[test]
fn scene_dispatches_to_its_kind() {
    let selector = SceneSelector::new();
    assert_eq!(selector.scenes[0].prepare_pipeline().unwrap().uniform, Some(expected_uniform()));
    assert_eq!(selector.scenes[3].prepare_pipeline().unwrap().shader.path, "assets/color_screen.wgsl");
    assert_eq!(selector.scenes[0].render_frame().bind_group_index, Some(0));
    assert_eq!(selector.scenes[2].render_frame().bind_group_index, None);
}

#[test]
fn every_scene_pairs_bind_group_with_uniform() {
    let selector = SceneSelector::new();
    for scene in &selector.scenes {
        let desc = scene.prepare_pipeline().unwrap();
        let frame = scene.render_frame();
        assert_eq!(desc.uniform.is_some(), frame.bind_group_index.is_some());
        assert_eq!(desc.vertex_entry, "display_vs");
        assert_eq!(desc.fragment_entry, "display_fs");
    }
}

#[test]
fn uniform_bytes_are_the_two_words() {
    let data = TheFirstUniformBuffer { width: 128, height: 128 };
    let bytes = data.as_bytes();
    assert_eq!(bytes.len(), 8);
    assert_eq!(data.buffer_size(), 8);
    let le = vec![128u8, 0, 0, 0, 128, 0, 0, 0];
    let be = vec![0u8, 0, 0, 128, 0, 0, 0, 128];
    assert!(bytes == le || bytes == be);
}

#[test]
fn uniform_bytes_follow_word_order() {
    let data = TheFirstUniformBuffer { width: 0x0102_0304, height: 0x0a0b_0c0d };
    let bytes = data.as_bytes();
    let le = vec![4u8, 3, 2, 1, 0x0d, 0x0c, 0x0b, 0x0a];
    let be = vec![1u8, 2, 3, 4, 0x0a, 0x0b, 0x0c, 0x0d];
    assert!(bytes == le || bytes == be);
    assert_ne!(bytes, vec![0u8; 8]);
}
