//! The frame orchestrator.
//!
//! `State` owns the renderer's logical state: surface configuration,
//! pipelines, uniform states, instance grid, models and the triangle.  One
//! call per frame advances the uniforms (`update`), one records the frame
//! (`render`), and resizes arrive out of band, strictly between frames.
//! Each frame's command sequence is pinned exactly: the light/debug pass
//! is recorded before the main geometry pass, so the main pass's depth
//! writes persist where they overlap, and every resource group is bound to
//! the slot its layout satisfies.

use vstd::prelude::*;

use crate::bindings::LayoutKind;
use crate::bytes::{identity_mat4_words, SCALAR_ONE_BITS};
use crate::camera::{CameraState, InputEvent};
use crate::commands::{
    current_pass, is_set_pipeline, lemma_current_pass_push, lemma_order_push_after_main,
    lemma_order_push_before_main, light_before_main, no_main_pipeline, BufferId, IndexFormatKind,
    RenderCommand, RenderPass, RenderPassDesc,
};
use crate::gpu::{copy_buffer_to_buffer, StagingBuffer};
use crate::instance::{GridConfig, InstanceState};
use crate::light::{LightState, FULL_TURN_MILLIDEG, LIGHT_ORBIT_STEP_MILLIDEG};
use crate::model::{
    material_data_ok, mesh_data_ok, LoadError, MaterialData, Mesh, MeshData, Model,
};
use crate::movement::{Movement, ROTATION_MILLIDEG_PER_MS};
use crate::pipeline::{PassKind, PipelineState};
use crate::surface::{Extent, PresentModeKind, SurfaceConfig, TextureFormatKind};
use crate::texture::{rgba_decode_of, Texture, TextureError, TextureUpload, DEPTH_FORMAT};
use crate::triangle::Triangle;

verus! {

/// Classified failures of acquiring the next presentable image.
#[derive(Clone, Copy, PartialEq, Eq, Structural, Debug)]
pub enum SurfaceErrorKind {
    /// The surface was lost and must be reconfigured.
    Lost,
    /// The surface no longer matches the window and must be reconfigured.
    Outdated,
    /// The device is out of memory; there is no local recovery.
    OutOfMemory,
    /// The presentation pipeline is saturated; try again next tick.
    Timeout,
}

/// What the render loop does about a failed acquisition.
#[derive(Clone, Copy, PartialEq, Eq, Structural, Debug)]
pub enum RecoveryAction {
    /// Reconfigure the surface with the last known extent, retry next
    /// frame.
    ReconfigureAndRetry,
    /// Skip this frame, retry next tick.
    SkipFrame,
    /// Propagate and terminate.
    Fatal,
}

/// The recovery policy: a lost or outdated surface is reconfigured, a
/// timeout skips the frame, out-of-memory is fatal.
pub fn classify_surface_error(e: SurfaceErrorKind) -> (a: RecoveryAction)
    ensures
        a == RecoveryAction::ReconfigureAndRetry <==> (e == SurfaceErrorKind::Lost || e
            == SurfaceErrorKind::Outdated),
        a == RecoveryAction::SkipFrame <==> e == SurfaceErrorKind::Timeout,
        a == RecoveryAction::Fatal <==> e == SurfaceErrorKind::OutOfMemory,
{
    match e {
        SurfaceErrorKind::Lost => RecoveryAction::ReconfigureAndRetry,
        SurfaceErrorKind::Outdated => RecoveryAction::ReconfigureAndRetry,
        SurfaceErrorKind::Timeout => RecoveryAction::SkipFrame,
        SurfaceErrorKind::OutOfMemory => RecoveryAction::Fatal,
    }
}

/// The frame renderer's phases.  A frame runs the cycle in order; a failed
/// acquisition returns to idle without recording.
#[derive(Clone, Copy, PartialEq, Eq, Structural, Debug)]
pub enum FramePhase {
    Idle,
    Acquiring,
    Recording,
    Submitted,
    Presented,
}

/// The transitions of the frame state machine.
pub open spec fn valid_transition(a: FramePhase, b: FramePhase) -> bool {
    match (a, b) {
        (FramePhase::Idle, FramePhase::Acquiring) => true,
        (FramePhase::Acquiring, FramePhase::Recording) => true,
        (FramePhase::Acquiring, FramePhase::Idle) => true,
        (FramePhase::Recording, FramePhase::Submitted) => true,
        (FramePhase::Submitted, FramePhase::Presented) => true,
        (FramePhase::Presented, FramePhase::Idle) => true,
        _ => false,
    }
}

/// One recorded frame, ready to be replayed, submitted and presented.
pub struct FrameOutput {
    pub pass_desc: RenderPassDesc,
    pub commands: Vec<RenderCommand>,
}

/// The commands that draw one mesh of the light's marker model: its
/// buffers, the camera and light groups at the light pipeline's slots, one
/// instance.
pub open spec fn draw_light_mesh_cmds(m: int, num_elements: u32) -> Seq<RenderCommand> {
    seq![
        RenderCommand::SetVertexBuffer {
            slot: 0,
            buffer: BufferId::LightMeshVertex { mesh: m as usize },
        },
        RenderCommand::SetIndexBuffer {
            buffer: BufferId::LightMeshIndex { mesh: m as usize },
            format: IndexFormatKind::Uint32,
        },
        RenderCommand::SetBindGroup { slot: 0, group: LayoutKind::Camera },
        RenderCommand::SetBindGroup { slot: 1, group: LayoutKind::Light },
        RenderCommand::DrawIndexed {
            index_count: num_elements,
            base_vertex: 0,
            first_instance: 0,
            instance_count: 1,
        },
    ]
}

/// The light-pass draws of the marker model's first `upto` meshes.
pub open spec fn draw_light_model_cmds(meshes: Seq<Mesh>, upto: int) -> Seq<RenderCommand>
    decreases upto,
{
    if upto <= 0 {
        Seq::<RenderCommand>::empty()
    } else {
        draw_light_model_cmds(meshes, upto - 1) + draw_light_mesh_cmds(
            upto - 1,
            meshes[upto - 1].num_elements,
        )
    }
}

/// The commands that draw one mesh of the scene model over the instance
/// range: its buffers, the material, camera and light groups at the main
/// pipeline's slots, all instances.
pub open spec fn draw_scene_mesh_cmds(m: int, num_elements: u32, instance_count: u32)
    -> Seq<RenderCommand> {
    seq![
        RenderCommand::SetVertexBuffer {
            slot: 0,
            buffer: BufferId::SceneMeshVertex { mesh: m as usize },
        },
        RenderCommand::SetIndexBuffer {
            buffer: BufferId::SceneMeshIndex { mesh: m as usize },
            format: IndexFormatKind::Uint32,
        },
        RenderCommand::SetBindGroup { slot: 0, group: LayoutKind::TextureMaterial },
        RenderCommand::SetBindGroup { slot: 1, group: LayoutKind::Camera },
        RenderCommand::SetBindGroup { slot: 2, group: LayoutKind::Light },
        RenderCommand::DrawIndexed {
            index_count: num_elements,
            base_vertex: 0,
            first_instance: 0,
            instance_count,
        },
    ]
}

/// The main-pass draws of the scene model's first `upto` meshes.
pub open spec fn draw_scene_model_cmds(meshes: Seq<Mesh>, upto: int, instance_count: u32)
    -> Seq<RenderCommand>
    decreases upto,
{
    if upto <= 0 {
        Seq::<RenderCommand>::empty()
    } else {
        draw_scene_model_cmds(meshes, upto - 1, instance_count) + draw_scene_mesh_cmds(
            upto - 1,
            meshes[upto - 1].num_elements,
            instance_count,
        )
    }
}

/// The whole frame, in its fixed hand-authored order: the light/debug
/// pass first — so the main pass's depth writes are the ones that persist
/// where the passes overlap — then the instanced main geometry pass.
pub open spec fn frame_commands(
    light_meshes: Seq<Mesh>,
    scene_meshes: Seq<Mesh>,
    instance_count: u32,
) -> Seq<RenderCommand> {
    seq![
        RenderCommand::SetPipeline { pass: PassKind::LightDebug },
        RenderCommand::SetVertexBuffer { slot: 1, buffer: BufferId::InstanceBuffer },
    ] + draw_light_model_cmds(light_meshes, light_meshes.len() as int) + seq![
        RenderCommand::SetPipeline { pass: PassKind::Main },
    ] + draw_scene_model_cmds(scene_meshes, scene_meshes.len() as int, instance_count)
}

/// The light pass's draws never switch pipelines.
proof fn lemma_light_cmds_no_switch(meshes: Seq<Mesh>, upto: int, t: int)
    requires
        0 <= t < draw_light_model_cmds(meshes, upto).len(),
    ensures
        !is_set_pipeline(draw_light_model_cmds(meshes, upto)[t]),
    decreases upto,
{
    if upto > 0 {
        let head = draw_light_model_cmds(meshes, upto - 1);
        if t < head.len() {
            lemma_light_cmds_no_switch(meshes, upto - 1, t);
        } else {
            assert(draw_light_model_cmds(meshes, upto)[t] == draw_light_mesh_cmds(
                upto - 1,
                meshes[upto - 1].num_elements,
            )[t - head.len()]);
        }
    }
}

/// The main pass's draws never switch pipelines.
proof fn lemma_scene_cmds_no_switch(meshes: Seq<Mesh>, upto: int, instance_count: u32, t: int)
    requires
        0 <= t < draw_scene_model_cmds(meshes, upto, instance_count).len(),
    ensures
        !is_set_pipeline(draw_scene_model_cmds(meshes, upto, instance_count)[t]),
    decreases upto,
{
    if upto > 0 {
        let head = draw_scene_model_cmds(meshes, upto - 1, instance_count);
        if t < head.len() {
            lemma_scene_cmds_no_switch(meshes, upto - 1, instance_count, t);
        } else {
            assert(draw_scene_model_cmds(meshes, upto, instance_count)[t] == draw_scene_mesh_cmds(
                upto - 1,
                meshes[upto - 1].num_elements,
                instance_count,
            )[t - head.len()]);
        }
    }
}

/// The draw-order discipline holds of the frame as specified, whatever
/// the two models hold: the one switch to the main pipeline comes after
/// the whole light segment, and nothing after it switches back.
pub proof fn lemma_frame_commands_ordered(
    light_meshes: Seq<Mesh>,
    scene_meshes: Seq<Mesh>,
    instance_count: u32,
)
    ensures
        light_before_main(frame_commands(light_meshes, scene_meshes, instance_count)),
{
    let cmds = frame_commands(light_meshes, scene_meshes, instance_count);
    let light = draw_light_model_cmds(light_meshes, light_meshes.len() as int);
    let scene = draw_scene_model_cmds(scene_meshes, scene_meshes.len() as int, instance_count);
    let main_at = 2 + light.len();
    assert forall|a: int, b: int| 0 <= a <= b < cmds.len() implies !(#[trigger] cmds[a] == (
    RenderCommand::SetPipeline { pass: PassKind::Main }) && #[trigger] cmds[b] == (
    RenderCommand::SetPipeline { pass: PassKind::LightDebug })) by {
        if cmds[a] == (RenderCommand::SetPipeline { pass: PassKind::Main }) {
            if 2 <= a < main_at {
                lemma_light_cmds_no_switch(light_meshes, light_meshes.len() as int, a - 2);
                assert(cmds[a] == light[a - 2]);
                assert(false);
            } else if a > main_at {
                lemma_scene_cmds_no_switch(
                    scene_meshes,
                    scene_meshes.len() as int,
                    instance_count,
                    a - (main_at + 1),
                );
                assert(cmds[a] == scene[a - (main_at + 1)]);
                assert(false);
            }
            assert(a == main_at);
            if b > a {
                lemma_scene_cmds_no_switch(
                    scene_meshes,
                    scene_meshes.len() as int,
                    instance_count,
                    b - (main_at + 1),
                );
                assert(cmds[b] == scene[b - (main_at + 1)]);
            }
        }
    }
}

/// The scalar pattern of the far plane, which the depth attachment is
/// cleared to.
pub const DEPTH_CLEAR_BITS: u32 = SCALAR_ONE_BITS;

/// The attachments of the one render pass of a frame: clear to an opaque
/// black background, clear depth to the far value.
pub fn frame_pass_desc() -> (d: RenderPassDesc)
    ensures
        d == (RenderPassDesc {
            clear_color_r: 0,
            clear_color_g: 0,
            clear_color_b: 0,
            clear_color_a: SCALAR_ONE_BITS,
            depth_clear: Some(DEPTH_CLEAR_BITS),
        }),
{
    RenderPassDesc {
        clear_color_r: 0,
        clear_color_g: 0,
        clear_color_b: 0,
        clear_color_a: SCALAR_ONE_BITS,
        depth_clear: Some(DEPTH_CLEAR_BITS),
    }
}

/// Everything the startup phase must hand to the device: the texture
/// uploads of both models and of the triangle.
pub struct SceneUploads {
    pub scene_textures: Vec<TextureUpload>,
    pub box_textures: Vec<TextureUpload>,
    pub triangle_texture: TextureUpload,
}

/// Why startup failed.  Construction-time errors abort startup.
#[derive(Clone, Copy, PartialEq, Eq, Structural, Debug)]
pub enum BuildError {
    /// The scene model could not be assembled.
    SceneModel(LoadError),
    /// The light's marker model could not be assembled.
    BoxModel(LoadError),
    /// The triangle's texture could not be decoded.
    Triangle(TextureError),
}

/// The frame orchestrator's state.
pub struct State {
    pub config: SurfaceConfig,
    /// The last window size handed to `resize`, degenerate or not.
    pub size: Extent,
    pub phase: FramePhase,
    pub pipelines: PipelineState,
    pub depth_texture: Texture,
    pub camera_state: CameraState,
    pub light_state: LightState,
    pub movement: Movement,
    pub instances: InstanceState,
    /// The instanced scene model.
    pub model: Model,
    /// The marker model drawn by the light/debug pass.
    pub box_model: Model,
    pub triangle: Triangle,
}

impl State {
    /// The orchestrator's invariant: pipelines and layouts well formed,
    /// the depth texture at the configuration's extent, the camera's
    /// aspect extent at the same, every uniform buffer holding its
    /// block's image, every resource group on its layout, valid models,
    /// an instance count that fits a draw call, and the machine idle.
    pub open spec fn wf(self) -> bool {
        &&& self.pipelines.wf()
        &&& self.depth_texture.extent == self.config.extent()
        &&& self.depth_texture.format == DEPTH_FORMAT
        &&& self.camera_state.camera.aspect_extent() == self.config.extent()
        &&& self.camera_state.synced()
        &&& self.camera_state.bind_group.layout == LayoutKind::Camera
        &&& self.light_state.synced()
        &&& self.light_state.wf()
        &&& self.light_state.bind_group.layout == LayoutKind::Light
        &&& self.movement.synced()
        &&& self.movement.transform.wf()
        &&& self.movement.bind_group.layout == LayoutKind::Transform
        &&& self.triangle.bind_group.layout == LayoutKind::TextureMaterial
        &&& self.model.wf()
        &&& self.box_model.wf()
        &&& self.instances.instances@.len() <= u32::MAX
        &&& self.phase == FramePhase::Idle
    }

    /// The fields `update` never touches.
    pub open spec fn same_scene(a: State, b: State) -> bool {
        &&& b.config == a.config
        &&& b.size == a.size
        &&& b.phase == a.phase
        &&& b.pipelines == a.pipelines
        &&& b.depth_texture == a.depth_texture
        &&& b.instances == a.instances
        &&& b.model == a.model
        &&& b.box_model == a.box_model
        &&& b.triangle == a.triangle
    }

    /// Steps the frame machine along one of its edges.
    pub fn advance_phase(&mut self, next: FramePhase)
        requires
            valid_transition(old(self).phase, next),
        ensures
            *final(self) == (State { phase: next, ..*old(self) }),
    {
        self.phase = next;
    }

    /// Consumes one input event: hands it to the camera controller and
    /// reports whether it was taken, so the caller can process the rest
    /// itself.
    pub fn input(&mut self, event: &InputEvent) -> (handled: bool)
        ensures
            handled == crate::camera::is_camera_key_event(*event),
            final(self).camera_state.controller == crate::camera::controller_after(
                old(self).camera_state.controller,
                *event,
            ),
            final(self).camera_state.camera == old(self).camera_state.camera,
            final(self).camera_state.uniform == old(self).camera_state.uniform,
            final(self).camera_state.buffer == old(self).camera_state.buffer,
            final(self).camera_state.bind_group == old(self).camera_state.bind_group,
            Self::same_scene(*old(self), *final(self)),
            final(self).light_state == old(self).light_state,
            final(self).movement == old(self).movement,
    {
        self.camera_state.controller.process_events(event)
    }

    /// Applies a window resize.  A degenerate extent is ignored entirely;
    /// a positive one updates the configuration's extent to exactly the
    /// new values, records the new size, recreates the depth texture at
    /// the new extent, and re-bases the camera's aspect ratio on it.
    /// Resizes only happen between frames.
    pub fn resize(&mut self, new_size: Extent)
        requires
            old(self).wf(),
        ensures
            final(self).wf(),
            new_size.is_degenerate() ==> *final(self) == *old(self),
            !new_size.is_degenerate() ==> {
                &&& final(self).config == (SurfaceConfig {
                    width: new_size.width,
                    height: new_size.height,
                    ..old(self).config
                })
                &&& final(self).size == new_size
                &&& final(self).depth_texture == (Texture {
                    extent: new_size,
                    format: DEPTH_FORMAT,
                })
                &&& final(self).camera_state.camera.aspect_extent() == new_size
                &&& final(self).camera_state.uniform == old(self).camera_state.uniform
                &&& final(self).camera_state.buffer == old(self).camera_state.buffer
                &&& final(self).camera_state.controller == old(self).camera_state.controller
                &&& final(self).camera_state.bind_group == old(self).camera_state.bind_group
                &&& final(self).phase == old(self).phase
                &&& final(self).pipelines == old(self).pipelines
                &&& final(self).light_state == old(self).light_state
                &&& final(self).movement == old(self).movement
                &&& final(self).instances == old(self).instances
                &&& final(self).model == old(self).model
                &&& final(self).box_model == old(self).box_model
                &&& final(self).triangle == old(self).triangle
            },
    {
        let changed = self.config.apply_resize(new_size);
        if changed {
            self.size = new_size;
            self.camera_state.camera = crate::camera::Camera {
                aspect_width: new_size.width,
                aspect_height: new_size.height,
            };
            self.depth_texture = Texture::create_depth_texture(&self.config);
        }
    }

    /// One tick: recompute and push every uniform state.  The camera's
    /// view-projection and the transform's model matrix arrive freshly
    /// recomposed as scalar patterns; the transform's angle advances for
    /// the elapsed time and the light steps once along its orbit, its
    /// rotated position likewise arriving as patterns.  Camera and
    /// transform go through the staged-copy path, the light through the
    /// direct write; the queue serializes both, so each buffer ends up
    /// holding its block's image.
    pub fn update(
        &mut self,
        delta_ms: u32,
        view_proj: &[u32; 16],
        model_matrix: &[u32; 16],
        light_position: &[u32; 3],
    )
        requires
            old(self).wf(),
        ensures
            final(self).wf(),
            final(self).camera_state.uniform.view_proj@ == view_proj@,
            final(self).camera_state.synced(),
            final(self).camera_state.camera == old(self).camera_state.camera,
            final(self).camera_state.controller == old(self).camera_state.controller,
            final(self).movement.transform.rotation_angle == (
            old(self).movement.transform.rotation_angle + delta_ms * (ROTATION_MILLIDEG_PER_MS
                as int)) % (FULL_TURN_MILLIDEG as int),
            final(self).movement.uniform.model@ == model_matrix@,
            final(self).movement.synced(),
            final(self).light_state.orbit_angle == (old(self).light_state.orbit_angle
                + LIGHT_ORBIT_STEP_MILLIDEG) % (FULL_TURN_MILLIDEG as int),
            final(self).light_state.light_uniform.position@ == light_position@,
            final(self).light_state.light_uniform.color == old(
                self,
            ).light_state.light_uniform.color,
            final(self).light_state.synced(),
            Self::same_scene(*old(self), *final(self)),
    {
        self.update_camera(view_proj);
        self.update_movement(delta_ms, model_matrix);
        self.light_state.update(light_position);
    }
}

/// Pushing the camera's uniform block to its buffer.
pub trait UpdateCamera {
    /// What must hold of the camera's buffer before a push.
    spec fn camera_sync_pre(&self) -> bool;

    fn update_camera(&mut self, view_proj: &[u32; 16])
        requires
            old(self).camera_sync_pre(),
    ;
}

impl UpdateCamera for State {
    /// The buffer holds the block's image, so its size is the block's.
    open spec fn camera_sync_pre(&self) -> bool {
        self.camera_state.synced()
    }

    /// Takes the freshly recomputed view-projection matrix into the
    /// camera's block and pushes the block through a staging buffer and a
    /// recorded copy, ordered with the frame's other commands by the
    /// queue.
    fn update_camera(&mut self, view_proj: &[u32; 16])
        ensures
            final(self).camera_state.uniform.view_proj@ == view_proj@,
            final(self).camera_state.synced(),
            final(self).camera_state.camera == old(self).camera_state.camera,
            final(self).camera_state.controller == old(self).camera_state.controller,
            final(self).camera_state.bind_group == old(self).camera_state.bind_group,
            State::same_scene(*old(self), *final(self)),
            final(self).light_state == old(self).light_state,
            final(self).movement == old(self).movement,
    {
        proof {
            crate::bytes::lemma_words_le_bytes_len(old(self).camera_state.uniform.view_proj@);
        }
        self.camera_state.uniform.update_view_proj(view_proj);
        let staging = StagingBuffer::new_init(self.camera_state.uniform.to_bytes());
        proof {
            crate::bytes::lemma_words_le_bytes_len(self.camera_state.uniform.view_proj@);
        }
        copy_buffer_to_buffer(&staging, &mut self.camera_state.buffer);
    }
}

/// Advancing the per-object transform and pushing its uniform block.
pub trait UpdateMovement {
    /// What must hold of the movement's buffer before a push.
    spec fn movement_sync_pre(&self) -> bool;

    /// What must hold of the transform before it advances.
    spec fn transform_pre(&self) -> bool;

    fn update_movement(&mut self, delta_ms: u32, model_matrix: &[u32; 16])
        requires
            old(self).movement_sync_pre(),
            old(self).transform_pre(),
    ;

    fn rotate(&mut self, delta_ms: u32, model_matrix: &[u32; 16])
        requires
            old(self).transform_pre(),
    ;
}

impl UpdateMovement for State {
    /// The buffer holds the block's image, so its size is the block's.
    open spec fn movement_sync_pre(&self) -> bool {
        self.movement.synced()
    }

    /// The angle is below a full turn.
    open spec fn transform_pre(&self) -> bool {
        self.movement.transform.wf()
    }

    /// Advances the rotation for the elapsed time, takes the recomposed
    /// model matrix into the block, and pushes the block through the
    /// staged-copy path.
    fn update_movement(&mut self, delta_ms: u32, model_matrix: &[u32; 16])
        ensures
            final(self).movement.transform.rotation_angle == (
            old(self).movement.transform.rotation_angle + delta_ms * (ROTATION_MILLIDEG_PER_MS
                as int)) % (FULL_TURN_MILLIDEG as int),
            final(self).movement.transform.wf(),
            final(self).movement.uniform.model@ == model_matrix@,
            final(self).movement.synced(),
            final(self).movement.bind_group == old(self).movement.bind_group,
            State::same_scene(*old(self), *final(self)),
            final(self).camera_state == old(self).camera_state,
            final(self).light_state == old(self).light_state,
    {
        proof {
            crate::bytes::lemma_words_le_bytes_len(old(self).movement.uniform.model@);
        }
        self.rotate(delta_ms, model_matrix);
        let staging = StagingBuffer::new_init(self.movement.uniform.to_bytes());
        proof {
            crate::bytes::lemma_words_le_bytes_len(self.movement.uniform.model@);
        }
        copy_buffer_to_buffer(&staging, &mut self.movement.buffer);
    }

    /// The recompute half alone: the angle advances and the block takes
    /// the matrix; the buffer is untouched until the copy is recorded.
    fn rotate(&mut self, delta_ms: u32, model_matrix: &[u32; 16])
        ensures
            final(self).movement.transform.rotation_angle == (
            old(self).movement.transform.rotation_angle + delta_ms * (ROTATION_MILLIDEG_PER_MS
                as int)) % (FULL_TURN_MILLIDEG as int),
            final(self).movement.transform.wf(),
            final(self).movement.uniform.model@ == model_matrix@,
            final(self).movement.buffer == old(self).movement.buffer,
            final(self).movement.bind_group == old(self).movement.bind_group,
            State::same_scene(*old(self), *final(self)),
            final(self).camera_state == old(self).camera_state,
            final(self).light_state == old(self).light_state,
    {
        self.movement.update(delta_ms, model_matrix);
    }
}

/// What a frame records before the marker model's meshes: the light
/// pipeline switch and the shared instance stream.
pub open spec fn frame_light_prefix() -> Seq<RenderCommand> {
    seq![
        RenderCommand::SetPipeline { pass: PassKind::LightDebug },
        RenderCommand::SetVertexBuffer { slot: 1, buffer: BufferId::InstanceBuffer },
    ]
}

impl State {
    /// Builds the whole scene: configuration, layout registry and
    /// pipelines, the uniform states with freshly initialized buffers,
    /// the triangle, both models, the depth texture at the
    /// configuration's extent, and the instance grid.  Succeeds exactly
    /// when both models are complete and every texture — the materials'
    /// and the triangle's — decodes; a failure aborts startup with its
    /// cause.  On success the caller receives, beside the orchestrator,
    /// every texture upload the device still has to perform.
    pub fn new(
        size: Extent,
        surface_format: TextureFormatKind,
        present_mode: PresentModeKind,
        grid: &GridConfig,
        scene_meshes: &Vec<MeshData>,
        scene_materials: &Vec<MaterialData>,
        box_meshes: &Vec<MeshData>,
        box_materials: &Vec<MaterialData>,
        triangle_texture: &Vec<u8>,
    ) -> (r: Result<(State, SceneUploads), BuildError>)
        requires
            grid.wf(),
        ensures
            r is Ok <==> {
                &&& forall|m: int|
                    0 <= m < scene_meshes@.len() ==> #[trigger] mesh_data_ok(
                        scene_meshes@[m],
                        scene_materials@.len() as int,
                    )
                &&& forall|i: int|
                    0 <= i < scene_materials@.len() ==> #[trigger] material_data_ok(
                        scene_materials@[i],
                    )
                &&& forall|m: int|
                    0 <= m < box_meshes@.len() ==> #[trigger] mesh_data_ok(
                        box_meshes@[m],
                        box_materials@.len() as int,
                    )
                &&& forall|i: int|
                    0 <= i < box_materials@.len() ==> #[trigger] material_data_ok(
                        box_materials@[i],
                    )
                &&& (rgba_decode_of(triangle_texture@) matches Some((p, w, h)) && 4 * w
                    <= u32::MAX)
            },
            r matches Ok((s, ups)) ==> {
                &&& s.wf()
                &&& s.config == (SurfaceConfig {
                    format: surface_format,
                    width: size.width,
                    height: size.height,
                    present_mode,
                })
                &&& s.size == size
                &&& s.camera_state.uniform.view_proj@ == identity_mat4_words()
                &&& s.camera_state.controller.speed == crate::camera::CAMERA_SPEED_BITS
                &&& !s.camera_state.controller.is_forward_pressed
                &&& !s.camera_state.controller.is_backward_pressed
                &&& !s.camera_state.controller.is_left_pressed
                &&& !s.camera_state.controller.is_right_pressed
                &&& s.light_state.orbit_angle == 0
                &&& s.light_state.light_uniform.position@ == seq![
                    crate::light::LIGHT_POS_X_BITS,
                    crate::light::LIGHT_POS_Y_BITS,
                    crate::light::LIGHT_POS_Z_BITS,
                ]
                &&& s.movement.transform.rotation_angle == 0
                &&& s.movement.uniform.model@ == identity_mat4_words()
                &&& s.instances.instances@.len() == (grid.count as int) * (grid.count as int) * (
                grid.count as int)
                &&& forall|i: int, j: int, k: int|
                    0 <= i < grid.count && 0 <= j < grid.count && 0 <= k < grid.count
                        ==> #[trigger] crate::instance::is_grid_instance(
                        *grid,
                        i,
                        j,
                        k,
                        s.instances.instances@[crate::instance::flat_index(
                            grid.count as int,
                            i,
                            j,
                            k,
                        )],
                    )
                &&& s.model.meshes@.len() == scene_meshes@.len()
                &&& forall|m: int|
                    0 <= m < scene_meshes@.len() ==> #[trigger] crate::model::mesh_from(
                        scene_meshes@[m],
                        s.model.meshes@[m],
                    )
                &&& s.model.materials@.len() == scene_materials@.len()
                &&& ups.scene_textures@.len() == scene_materials@.len()
                &&& forall|i: int|
                    0 <= i < scene_materials@.len() ==> #[trigger] crate::model::material_from(
                        scene_materials@[i],
                        s.model.materials@[i],
                        ups.scene_textures@[i],
                    )
                &&& s.box_model.meshes@.len() == box_meshes@.len()
                &&& forall|m: int|
                    0 <= m < box_meshes@.len() ==> #[trigger] crate::model::mesh_from(
                        box_meshes@[m],
                        s.box_model.meshes@[m],
                    )
                &&& s.box_model.materials@.len() == box_materials@.len()
                &&& ups.box_textures@.len() == box_materials@.len()
                &&& forall|i: int|
                    0 <= i < box_materials@.len() ==> #[trigger] crate::model::material_from(
                        box_materials@[i],
                        s.box_model.materials@[i],
                        ups.box_textures@[i],
                    )
                &&& s.triangle.num_elements == crate::triangle::TRIANGLE_INDEX_COUNT
                &&& s.pipelines.render_pipeline.color_format == surface_format
            },
            r matches Err(e) ==> match e {
                BuildError::Triangle(_) => !(rgba_decode_of(triangle_texture@) matches Some(
                    (p, w, h),
                ) && 4 * w <= u32::MAX),
                BuildError::SceneModel(_) => !{
                    &&& forall|m: int|
                        0 <= m < scene_meshes@.len() ==> #[trigger] mesh_data_ok(
                            scene_meshes@[m],
                            scene_materials@.len() as int,
                        )
                    &&& forall|i: int|
                        0 <= i < scene_materials@.len() ==> #[trigger] material_data_ok(
                            scene_materials@[i],
                        )
                },
                BuildError::BoxModel(_) => !{
                    &&& forall|m: int|
                        0 <= m < box_meshes@.len() ==> #[trigger] mesh_data_ok(
                            box_meshes@[m],
                            box_materials@.len() as int,
                        )
                    &&& forall|i: int|
                        0 <= i < box_materials@.len() ==> #[trigger] material_data_ok(
                            box_materials@[i],
                        )
                },
            },
    {
        let config = SurfaceConfig::new(surface_format, size, present_mode);
        let pipelines = PipelineState::new(surface_format);
        let camera_state = CameraState::new(&config, &pipelines.bind_group_layouts.camera);
        let light_state = LightState::new(&pipelines.bind_group_layouts.light);
        let movement = Movement::new(&pipelines.bind_group_layouts.uniform);

        let (triangle, triangle_upload) = match Triangle::new(
            &pipelines.bind_group_layouts.texture,
            triangle_texture,
        ) {
            Ok(pair) => pair,
            Err(e) => {
                return Err(BuildError::Triangle(e));
            },
        };
        let (model, scene_textures) = match Model::load_model(
            scene_meshes,
            scene_materials,
            &pipelines.bind_group_layouts.texture,
        ) {
            Ok(pair) => pair,
            Err(e) => {
                return Err(BuildError::SceneModel(e));
            },
        };
        let (box_model, box_textures) = match Model::load_model(
            box_meshes,
            box_materials,
            &pipelines.bind_group_layouts.texture,
        ) {
            Ok(pair) => pair,
            Err(e) => {
                return Err(BuildError::BoxModel(e));
            },
        };

        let depth_texture = Texture::create_depth_texture(&config);
        let instances = InstanceState::new(grid);
        proof {
            assert((grid.count as int) * (grid.count as int) * (grid.count as int) <= 0x4000_0000)
                by (nonlinear_arith)
                requires
                    grid.count <= crate::instance::MAX_GRID_COUNT,
            ;
        }

        let state = State {
            config,
            size,
            phase: FramePhase::Idle,
            pipelines,
            depth_texture,
            camera_state,
            light_state,
            movement,
            instances,
            model,
            box_model,
            triangle,
        };
        let uploads = SceneUploads {
            scene_textures,
            box_textures,
            triangle_texture: triangle_upload,
        };
        Ok((state, uploads))
    }

    /// Executes the frame machine once.  A failed acquisition is returned
    /// unchanged for the caller's recovery policy, without recording; a
    /// successful one yields the frame's exact command sequence — light
    /// pass first, then the instanced main pass over every mesh, every
    /// group bound at its declared slot — ready to submit and present.
    /// The orchestrator itself is exactly as before: one frame leaves no
    /// trace but the commands it emitted.
    #[verifier::loop_isolation(false)]
    pub fn render(&mut self, acquired: Result<(), SurfaceErrorKind>) -> (r: Result<
        FrameOutput,
        SurfaceErrorKind,
    >)
        requires
            old(self).wf(),
        ensures
            final(self).wf(),
            *final(self) == *old(self),
            acquired matches Err(e) ==> r == Err::<FrameOutput, SurfaceErrorKind>(e),
            acquired is Ok ==> r is Ok,
            r matches Ok(out) ==> {
                &&& out.pass_desc == (RenderPassDesc {
                    clear_color_r: 0,
                    clear_color_g: 0,
                    clear_color_b: 0,
                    clear_color_a: SCALAR_ONE_BITS,
                    depth_clear: Some(DEPTH_CLEAR_BITS),
                })
                &&& out.commands@ == frame_commands(
                    old(self).box_model.meshes@,
                    old(self).model.meshes@,
                    old(self).instances.instances@.len() as u32,
                )
                &&& light_before_main(out.commands@)
            },
    {
        self.advance_phase(FramePhase::Acquiring);
        match acquired {
            Err(e) => {
                self.advance_phase(FramePhase::Idle);
                return Err(e);
            },
            Ok(()) => {},
        }
        self.advance_phase(FramePhase::Recording);

        let desc = frame_pass_desc();
        let mut pass = RenderPass::begin_render_pass(desc);

        pass.set_pipeline(&self.pipelines.light_render_pipeline);
        proof {
            lemma_current_pass_push(
                Seq::<RenderCommand>::empty(),
                RenderCommand::SetPipeline { pass: PassKind::LightDebug },
            );
            lemma_current_pass_push(
                pass.commands@,
                RenderCommand::SetVertexBuffer { slot: 1, buffer: BufferId::InstanceBuffer },
            );
        }
        pass.set_vertex_buffer(1, BufferId::InstanceBuffer);
        proof {
            assert(pass.commands@ =~= frame_light_prefix() + draw_light_model_cmds(
                self.box_model.meshes@,
                0,
            ));
            assert forall|a: int|
                0 <= a < pass.commands@.len() implies #[trigger] pass.commands@[a] != (
            RenderCommand::SetPipeline { pass: PassKind::Main }) by {
                if a == 0 {
                    assert(pass.commands@[a] == (RenderCommand::SetPipeline {
                        pass: PassKind::LightDebug,
                    }));
                }
            }
        }

        let nbox = self.box_model.meshes.len();
        let mut m: usize = 0;
        while m < nbox
            invariant
                m <= nbox,
                pass.commands@ == frame_light_prefix() + draw_light_model_cmds(
                    self.box_model.meshes@,
                    m as int,
                ),
                current_pass(pass.commands@) == Some(PassKind::LightDebug),
                no_main_pipeline(pass.commands@),
                pass.desc == desc,
            decreases nbox - m,
        {
            let ne = self.box_model.meshes[m].num_elements;
            record_light_mesh(
                &mut pass,
                m,
                ne,
                &self.camera_state.bind_group,
                &self.light_state.bind_group,
            );
            proof {
                assert(pass.commands@ =~= frame_light_prefix() + draw_light_model_cmds(
                    self.box_model.meshes@,
                    m + 1,
                ));
            }
            m = m + 1;
        }

        proof {
            lemma_order_push_before_main(
                pass.commands@,
                RenderCommand::SetPipeline { pass: PassKind::Main },
            );
            lemma_current_pass_push(
                pass.commands@,
                RenderCommand::SetPipeline { pass: PassKind::Main },
            );
        }
        pass.set_pipeline(&self.pipelines.render_pipeline);
        proof {
            assert(pass.commands@ =~= frame_light_prefix() + draw_light_model_cmds(
                self.box_model.meshes@,
                self.box_model.meshes@.len() as int,
            ) + seq![RenderCommand::SetPipeline { pass: PassKind::Main }]);
        }

        let ic = self.instances.instances.len() as u32;
        let nscene = self.model.meshes.len();
        let mut k: usize = 0;
        while k < nscene
            invariant
                k <= nscene,
                pass.commands@ == frame_light_prefix() + draw_light_model_cmds(
                    self.box_model.meshes@,
                    self.box_model.meshes@.len() as int,
                ) + seq![RenderCommand::SetPipeline { pass: PassKind::Main }]
                    + draw_scene_model_cmds(self.model.meshes@, k as int, ic),
                current_pass(pass.commands@) == Some(PassKind::Main),
                light_before_main(pass.commands@),
                pass.desc == desc,
            decreases nscene - k,
        {
            let ne = self.model.meshes[k].num_elements;
            let mat = self.model.meshes[k].material;
            record_scene_mesh(
                &mut pass,
                k,
                ne,
                ic,
                &self.model.materials[mat].bind_group,
                &self.camera_state.bind_group,
                &self.light_state.bind_group,
            );
            proof {
                assert(pass.commands@ =~= frame_light_prefix() + draw_light_model_cmds(
                    self.box_model.meshes@,
                    self.box_model.meshes@.len() as int,
                ) + seq![RenderCommand::SetPipeline { pass: PassKind::Main }]
                    + draw_scene_model_cmds(self.model.meshes@, k + 1, ic));
            }
            k = k + 1;
        }

        self.advance_phase(FramePhase::Submitted);
        self.advance_phase(FramePhase::Presented);
        self.advance_phase(FramePhase::Idle);

        proof {
            assert(pass.commands@ =~= frame_commands(
                self.box_model.meshes@,
                self.model.meshes@,
                self.instances.instances@.len() as u32,
            ));
        }
        Ok(FrameOutput { pass_desc: desc, commands: pass.commands })
    }
}

/// Records the draw of one marker-model mesh into the light pass.
fn record_light_mesh(
    pass: &mut RenderPass,
    m: usize,
    num_elements: u32,
    camera_group: &crate::bindings::BindGroup,
    light_group: &crate::bindings::BindGroup,
)
    requires
        current_pass(old(pass).commands@) == Some(PassKind::LightDebug),
        no_main_pipeline(old(pass).commands@),
        camera_group.layout == LayoutKind::Camera,
        light_group.layout == LayoutKind::Light,
    ensures
        final(pass).commands@ == old(pass).commands@ + draw_light_mesh_cmds(
            m as int,
            num_elements,
        ),
        final(pass).desc == old(pass).desc,
        current_pass(final(pass).commands@) == Some(PassKind::LightDebug),
        no_main_pipeline(final(pass).commands@),
{
    proof {
        lemma_current_pass_push(
            old(pass).commands@,
            RenderCommand::SetVertexBuffer { slot: 0, buffer: BufferId::LightMeshVertex { mesh: m } },
        );
    }
    pass.set_vertex_buffer(0, BufferId::LightMeshVertex { mesh: m });
    proof {
        lemma_current_pass_push(
            pass.commands@,
            RenderCommand::SetIndexBuffer {
                buffer: BufferId::LightMeshIndex { mesh: m },
                format: IndexFormatKind::Uint32,
            },
        );
    }
    pass.set_index_buffer(BufferId::LightMeshIndex { mesh: m }, IndexFormatKind::Uint32);
    proof {
        lemma_current_pass_push(
            pass.commands@,
            RenderCommand::SetBindGroup { slot: 0, group: LayoutKind::Camera },
        );
    }
    pass.set_bind_group(0, camera_group);
    proof {
        lemma_current_pass_push(
            pass.commands@,
            RenderCommand::SetBindGroup { slot: 1, group: LayoutKind::Light },
        );
    }
    pass.set_bind_group(1, light_group);
    proof {
        lemma_current_pass_push(
            pass.commands@,
            RenderCommand::DrawIndexed {
                index_count: num_elements,
                base_vertex: 0,
                first_instance: 0,
                instance_count: 1,
            },
        );
    }
    pass.draw_indexed(num_elements, 0, 0, 1);
    proof {
        assert(pass.commands@ =~= old(pass).commands@ + draw_light_mesh_cmds(
            m as int,
            num_elements,
        ));
        assert forall|a: int|
            0 <= a < pass.commands@.len() implies #[trigger] pass.commands@[a] != (
        RenderCommand::SetPipeline { pass: PassKind::Main }) by {
            if a < old(pass).commands@.len() {
                assert(pass.commands@[a] == old(pass).commands@[a]);
            } else {
                assert(pass.commands@[a] == draw_light_mesh_cmds(m as int, num_elements)[a
                    - old(pass).commands@.len()]);
            }
        }
    }
}

/// Records the draw of one scene-model mesh into the main pass.
fn record_scene_mesh(
    pass: &mut RenderPass,
    m: usize,
    num_elements: u32,
    instance_count: u32,
    material_group: &crate::bindings::BindGroup,
    camera_group: &crate::bindings::BindGroup,
    light_group: &crate::bindings::BindGroup,
)
    requires
        current_pass(old(pass).commands@) == Some(PassKind::Main),
        light_before_main(old(pass).commands@),
        material_group.layout == LayoutKind::TextureMaterial,
        camera_group.layout == LayoutKind::Camera,
        light_group.layout == LayoutKind::Light,
    ensures
        final(pass).commands@ == old(pass).commands@ + draw_scene_mesh_cmds(
            m as int,
            num_elements,
            instance_count,
        ),
        final(pass).desc == old(pass).desc,
        current_pass(final(pass).commands@) == Some(PassKind::Main),
        light_before_main(final(pass).commands@),
{
    let ghost c0 = old(pass).commands@;
    proof {
        lemma_current_pass_push(
            c0,
            RenderCommand::SetVertexBuffer { slot: 0, buffer: BufferId::SceneMeshVertex { mesh: m } },
        );
        lemma_order_push_after_main(
            c0,
            RenderCommand::SetVertexBuffer { slot: 0, buffer: BufferId::SceneMeshVertex { mesh: m } },
        );
    }
    pass.set_vertex_buffer(0, BufferId::SceneMeshVertex { mesh: m });
    proof {
        lemma_current_pass_push(
            pass.commands@,
            RenderCommand::SetIndexBuffer {
                buffer: BufferId::SceneMeshIndex { mesh: m },
                format: IndexFormatKind::Uint32,
            },
        );
        lemma_order_push_after_main(
            pass.commands@,
            RenderCommand::SetIndexBuffer {
                buffer: BufferId::SceneMeshIndex { mesh: m },
                format: IndexFormatKind::Uint32,
            },
        );
    }
    pass.set_index_buffer(BufferId::SceneMeshIndex { mesh: m }, IndexFormatKind::Uint32);
    proof {
        lemma_current_pass_push(
            pass.commands@,
            RenderCommand::SetBindGroup { slot: 0, group: LayoutKind::TextureMaterial },
        );
        lemma_order_push_after_main(
            pass.commands@,
            RenderCommand::SetBindGroup { slot: 0, group: LayoutKind::TextureMaterial },
        );
    }
    pass.set_bind_group(0, material_group);
    proof {
        lemma_current_pass_push(
            pass.commands@,
            RenderCommand::SetBindGroup { slot: 1, group: LayoutKind::Camera },
        );
        lemma_order_push_after_main(
            pass.commands@,
            RenderCommand::SetBindGroup { slot: 1, group: LayoutKind::Camera },
        );
    }
    pass.set_bind_group(1, camera_group);
    proof {
        lemma_current_pass_push(
            pass.commands@,
            RenderCommand::SetBindGroup { slot: 2, group: LayoutKind::Light },
        );
        lemma_order_push_after_main(
            pass.commands@,
            RenderCommand::SetBindGroup { slot: 2, group: LayoutKind::Light },
        );
    }
    pass.set_bind_group(2, light_group);
    proof {
        lemma_current_pass_push(
            pass.commands@,
            RenderCommand::DrawIndexed {
                index_count: num_elements,
                base_vertex: 0,
                first_instance: 0,
                instance_count,
            },
        );
        lemma_order_push_after_main(
            pass.commands@,
            RenderCommand::DrawIndexed {
                index_count: num_elements,
                base_vertex: 0,
                first_instance: 0,
                instance_count,
            },
        );
    }
    pass.draw_indexed(num_elements, 0, 0, instance_count);
    proof {
        assert(pass.commands@ =~= old(pass).commands@ + draw_scene_mesh_cmds(
            m as int,
            num_elements,
            instance_count,
        ));
    }
}

} // verus!
