use std::io::Cursor;

use render_core::bindings::LayoutKind;
use render_core::camera::{CameraKey, InputEvent};
use render_core::commands::{BufferId, IndexFormatKind, RenderCommand, RenderPass, RenderPassDesc};
use render_core::instance::GridConfig;
use render_core::model::{MaterialData, MeshData};
use render_core::pipeline::{create_render_pipeline, PassKind, PipelineState};
use render_core::surface::{Extent, PresentModeKind, SurfaceConfig, TextureFormatKind};
use render_core::swapchain::{
    classify_surface_error, FramePhase, RecoveryAction, State, SurfaceErrorKind, UpdateCamera,
    UpdateMovement,
};
use render_core::triangle::{DrawTriangle, Triangle};

fn png_bytes() -> Vec<u8> {
    let img = image::RgbaImage::new(1, 1);
    let mut out = Cursor::new(Vec::new());
    img.write_to(&mut out, image::ImageOutputFormat::Png).unwrap();
    out.into_inner()
}

fn one_mesh() -> MeshData {
    MeshData {
        positions: vec![0; 9],
        texcoords: vec![0; 6],
        normals: vec![0; 9],
        indices: vec![0, 1, 2],
        material_id: Some(0),
    }
}

fn one_material() -> MaterialData {
    MaterialData { name: String::from("diffuse"), diffuse_bytes: png_bytes() }
}

fn build_state() -> State {
    let grid = GridConfig { count: 2, spacing: 1, displacement: [1, 1, 1], angle_deg: 45 };
    let (state, _uploads) = State::new(
        Extent { width: 800, height: 600 },
        TextureFormatKind::Bgra8UnormSrgb,
        PresentModeKind::AutoVsync,
        &grid,
        &vec![one_mesh()],
        &vec![one_material()],
        &vec![one_mesh()],
        &vec![one_material()],
        &png_bytes(),
    )
    .unwrap();
    state
}

fn le_bytes(words: &[u32]) -> Vec<u8> {
    let mut out = Vec::new();
    for w in words {
        out.extend_from_slice(&w.to_le_bytes());
    }
    out
}

#[test]
fn degenerate_resize_changes_nothing() {
    let mut state = build_state();
    let before = state.config;
    let depth_before = state.depth_texture;

    state.resize(Extent { width: 0, height: 300 });
    assert_eq!(state.config, before);
    assert_eq!(state.depth_texture, depth_before);
    assert_eq!(state.size, Extent { width: 800, height: 600 });

    state.resize(Extent { width: 300, height: 0 });
    assert_eq!(state.config, before);
    assert_eq!(state.depth_texture, depth_before);
}

#[test]
fn positive_resize_updates_extent_and_depth_texture() {
    let mut state = build_state();
    state.resize(Extent { width: 1024, height: 768 });
    assert_eq!(
        state.config,
        SurfaceConfig {
            format: TextureFormatKind::Bgra8UnormSrgb,
            width: 1024,
            height: 768,
            present_mode: PresentModeKind::AutoVsync,
        }
    );
    assert_eq!(state.size, Extent { width: 1024, height: 768 });
    assert_eq!(state.depth_texture.extent, Extent { width: 1024, height: 768 });
    assert_eq!(state.depth_texture.format, render_core::texture::DEPTH_FORMAT);
}

#[test]
fn camera_aspect_follows_the_new_extent() {
    let mut state = build_state();
    assert_eq!(state.camera_state.camera.aspect_width, 800);
    assert_eq!(state.camera_state.camera.aspect_height, 600);

    state.resize(Extent { width: 1920, height: 1080 });
    assert_eq!(state.camera_state.camera.aspect_width, 1920);
    assert_eq!(state.camera_state.camera.aspect_height, 1080);

    // The scalar aspect ratio is the exact floating-point division of the
    // pair the library carries.
    let aspect =
        state.camera_state.camera.aspect_width as f32 / state.camera_state.camera.aspect_height as f32;
    assert_eq!(aspect, 1920.0 / 1080.0);
}

#[test]
fn update_pushes_every_uniform() {
    let mut state = build_state();
    let mut vp = [0u32; 16];
    for (i, w) in vp.iter_mut().enumerate() {
        *w = 0x4200_0000 + i as u32;
    }
    let mut mm = [0u32; 16];
    for (i, w) in mm.iter_mut().enumerate() {
        *w = 0x4300_0000 + i as u32;
    }
    let lp = [1, 2, 3];

    state.update(16, &vp, &mm, &lp);

    assert_eq!(state.camera_state.buffer.read(), le_bytes(&vp));
    assert_eq!(state.movement.buffer.read(), le_bytes(&mm));
    assert_eq!(state.movement.transform.rotation_angle, 2880);
    assert_eq!(state.light_state.orbit_angle, 1000);
    assert_eq!(state.light_state.light_uniform.position, [1, 2, 3]);
    let light_read = state.light_state.light_buffer.read();
    assert_eq!(&light_read[0..12], &le_bytes(&[1, 2, 3])[..]);
}

#[test]
fn staged_and_direct_camera_updates_agree() {
    let mut a = build_state();
    let mut b = build_state();
    let vp = [0x3F80_0000u32; 16];
    a.update_camera(&vp);
    b.update(0, &vp, &[0; 16], &[0; 3]);
    assert_eq!(a.camera_state.buffer.read(), b.camera_state.buffer.read());
}

#[test]
fn movement_rotate_alone_leaves_the_buffer() {
    let mut state = build_state();
    let before = state.movement.buffer.read();
    state.rotate(10, &[9u32; 16]);
    assert_eq!(state.movement.transform.rotation_angle, 1800);
    assert_eq!(state.movement.buffer.read(), before);

    state.update_movement(10, &[9u32; 16]);
    assert_eq!(state.movement.buffer.read(), le_bytes(&[9u32; 16]));
}

#[test]
fn input_drives_the_camera_controller() {
    let mut state = build_state();
    assert!(!state.camera_state.controller.is_forward_pressed);

    let handled = state.input(&InputEvent::Key { key: Some(CameraKey::Forward), pressed: true });
    assert!(handled);
    assert!(state.camera_state.controller.is_forward_pressed);

    let handled = state.input(&InputEvent::Key { key: Some(CameraKey::Forward), pressed: false });
    assert!(handled);
    assert!(!state.camera_state.controller.is_forward_pressed);

    assert!(!state.input(&InputEvent::Key { key: None, pressed: true }));
    assert!(!state.input(&InputEvent::Other));
    assert_eq!(state.phase, FramePhase::Idle);
}

#[test]
fn failed_acquisition_skips_recording() {
    let mut state = build_state();
    let r = state.render(Err(SurfaceErrorKind::Lost));
    assert_eq!(r.err(), Some(SurfaceErrorKind::Lost));
    assert_eq!(state.phase, FramePhase::Idle);
}

#[test]
fn surface_error_recovery_policy() {
    assert_eq!(classify_surface_error(SurfaceErrorKind::Lost), RecoveryAction::ReconfigureAndRetry);
    assert_eq!(
        classify_surface_error(SurfaceErrorKind::Outdated),
        RecoveryAction::ReconfigureAndRetry
    );
    assert_eq!(classify_surface_error(SurfaceErrorKind::Timeout), RecoveryAction::SkipFrame);
    assert_eq!(classify_surface_error(SurfaceErrorKind::OutOfMemory), RecoveryAction::Fatal);
}

#[test]
fn frame_records_light_pass_before_main_pass() {
    let mut state = build_state();
    let out = state.render(Ok(())).unwrap();
    assert_eq!(state.phase, FramePhase::Idle);

    let cmds = &out.commands;
    // Exactly one switch to each pipeline, light/debug first.
    let light_switch = cmds
        .iter()
        .position(|c| matches!(c, RenderCommand::SetPipeline { pass: PassKind::LightDebug }))
        .unwrap();
    let main_switch = cmds
        .iter()
        .position(|c| matches!(c, RenderCommand::SetPipeline { pass: PassKind::Main }))
        .unwrap();
    assert_eq!(light_switch, 0);
    assert!(light_switch < main_switch);
    let switches = cmds
        .iter()
        .filter(|c| matches!(c, RenderCommand::SetPipeline { .. }))
        .count();
    assert_eq!(switches, 2);
    // Every draw after the main switch belongs to the main pipeline;
    // every draw before it belongs to the light pipeline.
    assert!(cmds[..main_switch]
        .iter()
        .any(|c| matches!(c, RenderCommand::DrawIndexed { .. })));
    assert!(cmds[main_switch..]
        .iter()
        .any(|c| matches!(c, RenderCommand::DrawIndexed { .. })));
}

#[test]
fn frame_commands_are_the_fixed_sequence() {
    let mut state = build_state();
    let out = state.render(Ok(())).unwrap();
    let expected = vec![
        RenderCommand::SetPipeline { pass: PassKind::LightDebug },
        RenderCommand::SetVertexBuffer { slot: 1, buffer: BufferId::InstanceBuffer },
        RenderCommand::SetVertexBuffer { slot: 0, buffer: BufferId::LightMeshVertex { mesh: 0 } },
        RenderCommand::SetIndexBuffer {
            buffer: BufferId::LightMeshIndex { mesh: 0 },
            format: IndexFormatKind::Uint32,
        },
        RenderCommand::SetBindGroup { slot: 0, group: LayoutKind::Camera },
        RenderCommand::SetBindGroup { slot: 1, group: LayoutKind::Light },
        RenderCommand::DrawIndexed {
            index_count: 3,
            base_vertex: 0,
            first_instance: 0,
            instance_count: 1,
        },
        RenderCommand::SetPipeline { pass: PassKind::Main },
        RenderCommand::SetVertexBuffer { slot: 0, buffer: BufferId::SceneMeshVertex { mesh: 0 } },
        RenderCommand::SetIndexBuffer {
            buffer: BufferId::SceneMeshIndex { mesh: 0 },
            format: IndexFormatKind::Uint32,
        },
        RenderCommand::SetBindGroup { slot: 0, group: LayoutKind::TextureMaterial },
        RenderCommand::SetBindGroup { slot: 1, group: LayoutKind::Camera },
        RenderCommand::SetBindGroup { slot: 2, group: LayoutKind::Light },
        RenderCommand::DrawIndexed {
            index_count: 3,
            base_vertex: 0,
            first_instance: 0,
            instance_count: 8,
        },
    ];
    assert_eq!(out.commands, expected);
    assert_eq!(out.pass_desc.depth_clear, Some(render_core::swapchain::DEPTH_CLEAR_BITS));
    assert_eq!(out.pass_desc.clear_color_a, render_core::bytes::SCALAR_ONE_BITS);
}

#[test]
fn pipeline_construction_policy_is_fixed() {
    let pipelines = PipelineState::new(TextureFormatKind::Bgra8UnormSrgb);
    let main = &pipelines.render_pipeline;
    assert_eq!(main.pass, PassKind::Main);
    assert!(main.cull_back);
    assert_eq!(main.sample_count, 1);
    assert!(main.blend_replace);
    assert_eq!(main.color_format, TextureFormatKind::Bgra8UnormSrgb);
    assert_eq!(
        main.layout_slots,
        vec![LayoutKind::TextureMaterial, LayoutKind::Camera, LayoutKind::Light]
    );
    let depth = main.depth.unwrap();
    assert_eq!(depth.format, render_core::texture::DEPTH_FORMAT);
    assert!(depth.depth_write_enabled);
    assert!(depth.compare_less);

    let light = &pipelines.light_render_pipeline;
    assert_eq!(light.pass, PassKind::LightDebug);
    assert!(!light.cull_back);
    assert_eq!(light.layout_slots, vec![LayoutKind::Camera, LayoutKind::Light]);
}

#[test]
fn triangle_draw_records_its_commands() {
    let layout = render_core::bindings::BindGroupLayout::new(LayoutKind::TextureMaterial);
    let (triangle, _upload) = Triangle::new(&layout, &png_bytes()).unwrap();
    assert_eq!(triangle.num_elements, 3);

    let triangle_pipeline = create_render_pipeline(
        PassKind::Triangle,
        Vec::new(),
        TextureFormatKind::Bgra8UnormSrgb,
        None,
        true,
    );
    let mut pass = RenderPass::begin_render_pass(RenderPassDesc {
        clear_color_r: 0,
        clear_color_g: 0,
        clear_color_b: 0,
        clear_color_a: 0,
        depth_clear: None,
    });
    pass.set_pipeline(&triangle_pipeline);
    pass.draw_triangle_indexed(&triangle, 0, 1);

    let expected = vec![
        RenderCommand::SetPipeline { pass: PassKind::Triangle },
        RenderCommand::SetBindGroup { slot: 0, group: LayoutKind::TextureMaterial },
        RenderCommand::SetVertexBuffer { slot: 0, buffer: BufferId::TriangleVertex },
        RenderCommand::SetIndexBuffer {
            buffer: BufferId::TriangleIndex,
            format: IndexFormatKind::Uint32,
        },
        RenderCommand::DrawIndexed {
            index_count: 3,
            base_vertex: 0,
            first_instance: 0,
            instance_count: 1,
        },
    ];
    assert_eq!(pass.commands, expected);
}

#[test]
fn startup_initializes_every_uniform_state() {
    let state = build_state();
    assert_eq!(state.phase, FramePhase::Idle);
    assert_eq!(state.instances.instances.len(), 8);
    assert_eq!(state.movement.transform.rotation_angle, 0);
    assert_eq!(state.light_state.orbit_angle, 0);

    // The camera buffer starts as the identity matrix's byte image.
    let one = render_core::bytes::SCALAR_ONE_BITS;
    let mut identity = [0u32; 16];
    identity[0] = one;
    identity[5] = one;
    identity[10] = one;
    identity[15] = one;
    assert_eq!(state.camera_state.buffer.read(), le_bytes(&identity));

    // The light buffer starts as the default block's byte image.
    let expected_light = le_bytes(&[
        render_core::light::LIGHT_POS_X_BITS,
        render_core::light::LIGHT_POS_Y_BITS,
        render_core::light::LIGHT_POS_Z_BITS,
        0,
        one,
        one,
        one,
        0,
    ]);
    assert_eq!(state.light_state.light_buffer.read(), expected_light);
}

#[test]
fn startup_fails_on_a_bad_scene_model() {
    let grid = GridConfig { count: 1, spacing: 1, displacement: [0, 0, 0], angle_deg: 45 };
    let mut broken = one_mesh();
    broken.normals.pop();
    let r = State::new(
        Extent { width: 100, height: 100 },
        TextureFormatKind::Bgra8UnormSrgb,
        PresentModeKind::Fifo,
        &grid,
        &vec![broken],
        &vec![one_material()],
        &Vec::new(),
        &Vec::new(),
        &png_bytes(),
    );
    assert!(matches!(
        r.err().unwrap(),
        render_core::swapchain::BuildError::SceneModel(
            render_core::model::LoadError::MissingNormals { mesh: 0 }
        )
    ));
}

#[test]
fn startup_fails_on_a_bad_marker_model() {
    let grid = GridConfig { count: 1, spacing: 1, displacement: [0, 0, 0], angle_deg: 45 };
    let r = State::new(
        Extent { width: 100, height: 100 },
        TextureFormatKind::Bgra8UnormSrgb,
        PresentModeKind::Fifo,
        &grid,
        &Vec::new(),
        &Vec::new(),
        &vec![one_mesh()],
        &Vec::new(),
        &png_bytes(),
    );
    assert!(matches!(
        r.err().unwrap(),
        render_core::swapchain::BuildError::BoxModel(
            render_core::model::LoadError::BadMaterialIndex { mesh: 0 }
        )
    ));
}

#[test]
fn startup_fails_on_an_unreadable_triangle_texture() {
    let grid = GridConfig { count: 1, spacing: 1, displacement: [0, 0, 0], angle_deg: 45 };
    let r = State::new(
        Extent { width: 100, height: 100 },
        TextureFormatKind::Bgra8UnormSrgb,
        PresentModeKind::Fifo,
        &grid,
        &Vec::new(),
        &Vec::new(),
        &Vec::new(),
        &Vec::new(),
        &vec![0xDE, 0xAD],
    );
    assert!(matches!(
        r.err().unwrap(),
        render_core::swapchain::BuildError::Triangle(render_core::texture::TextureError::Decode)
    ));
}
