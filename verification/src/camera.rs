//! The camera: its controller, its uniform block and its GPU-side state.
//!
//! The floating-point parts of the camera (eye, target, projection) live
//! with the device driver code; what this module owns exactly is the
//! controller's key state, the aspect-ratio extent the projection is built
//! from, and the uniform block as scalar patterns together with its byte
//! image in the camera buffer.

use vstd::prelude::*;

use crate::bindings::{bind_uniform_group, BindGroup, BindGroupLayout, LayoutKind};
use crate::bytes::{identity_mat4, identity_mat4_words, mat4_to_bytes, words_le_bytes};
use crate::gpu::UniformBuffer;
use crate::surface::{Extent, SurfaceConfig};

verus! {

/// The 32-bit pattern of the controller's movement speed per tick.
pub const CAMERA_SPEED_BITS: u32 = 0x3DCC_CCCD;

/// The camera keys the controller reacts to.
#[derive(Clone, Copy, PartialEq, Eq, Structural, Debug)]
pub enum CameraKey {
    Forward,
    Backward,
    Left,
    Right,
}

/// An input event as the windowing layer hands it over: a key transition,
/// already mapped to the camera key it means (if any), or anything else.
#[derive(Clone, Copy, PartialEq, Eq, Structural, Debug)]
pub enum InputEvent {
    Key { key: Option<CameraKey>, pressed: bool },
    Other,
}

/// The camera model: the extent whose ratio is the projection's aspect.
/// The aspect ratio itself is the scalar division `width / height`,
/// performed where the projection matrix is built.
#[derive(Clone, Copy, PartialEq, Eq, Structural, Debug)]
pub struct Camera {
    pub aspect_width: u32,
    pub aspect_height: u32,
}

impl Camera {
    /// The extent the aspect ratio is taken from.
    pub open spec fn aspect_extent(self) -> Extent {
        Extent { width: self.aspect_width, height: self.aspect_height }
    }
}

/// The camera controller: accumulated key state, consumed each tick by the
/// eye-movement computation.
#[derive(Clone, Copy, PartialEq, Eq, Structural, Debug)]
pub struct CameraController {
    pub speed: u32,
    pub is_forward_pressed: bool,
    pub is_backward_pressed: bool,
    pub is_left_pressed: bool,
    pub is_right_pressed: bool,
}

/// Whether an event is a key transition of one of the camera keys.
pub open spec fn is_camera_key_event(event: InputEvent) -> bool {
    event matches InputEvent::Key { key: Some(_), .. }
}

/// The controller state after consuming one event.
pub open spec fn controller_after(c: CameraController, event: InputEvent) -> CameraController {
    match event {
        InputEvent::Key { key: Some(CameraKey::Forward), pressed } => CameraController {
            is_forward_pressed: pressed,
            ..c
        },
        InputEvent::Key { key: Some(CameraKey::Backward), pressed } => CameraController {
            is_backward_pressed: pressed,
            ..c
        },
        InputEvent::Key { key: Some(CameraKey::Left), pressed } => CameraController {
            is_left_pressed: pressed,
            ..c
        },
        InputEvent::Key { key: Some(CameraKey::Right), pressed } => CameraController {
            is_right_pressed: pressed,
            ..c
        },
        _ => c,
    }
}

impl CameraController {
    /// A fresh controller: given speed, no key held.
    pub fn new(speed: u32) -> (c: CameraController)
        ensures
            c.speed == speed,
            !c.is_forward_pressed,
            !c.is_backward_pressed,
            !c.is_left_pressed,
            !c.is_right_pressed,
    {
        CameraController {
            speed,
            is_forward_pressed: false,
            is_backward_pressed: false,
            is_left_pressed: false,
            is_right_pressed: false,
        }
    }

    /// Consumes one input event.  Returns whether the event was a camera
    /// key, so the caller knows whether to process it itself; exactly the
    /// flag of that key changes, to the key's new pressed state.
    pub fn process_events(&mut self, event: &InputEvent) -> (handled: bool)
        ensures
            handled == is_camera_key_event(*event),
            *final(self) == controller_after(*old(self), *event),
    {
        match event {
            InputEvent::Key { key: Some(k), pressed } => {
                match k {
                    CameraKey::Forward => {
                        self.is_forward_pressed = *pressed;
                    },
                    CameraKey::Backward => {
                        self.is_backward_pressed = *pressed;
                    },
                    CameraKey::Left => {
                        self.is_left_pressed = *pressed;
                    },
                    CameraKey::Right => {
                        self.is_right_pressed = *pressed;
                    },
                }
                true
            },
            _ => false,
        }
    }
}

/// The camera's uniform block: the view-projection matrix as sixteen
/// scalar patterns, row-major, mirrored byte-for-byte into the camera
/// buffer.
pub struct CameraUniform {
    pub view_proj: [u32; 16],
}

impl CameraUniform {
    /// A fresh block holding the identity matrix.
    pub fn new() -> (u: CameraUniform)
        ensures
            u.view_proj@ == identity_mat4_words(),
    {
        CameraUniform { view_proj: identity_mat4() }
    }

    /// Replaces the matrix with a freshly computed view-projection.
    pub fn update_view_proj(&mut self, view_proj: &[u32; 16])
        ensures
            final(self).view_proj@ == view_proj@,
    {
        self.view_proj = *view_proj;
    }

    /// The block's exact 64-byte shader-side image.
    pub fn to_bytes(&self) -> (out: Vec<u8>)
        ensures
            out@ == words_le_bytes(self.view_proj@),
            out@.len() == 64,
    {
        mat4_to_bytes(&self.view_proj)
    }
}

/// Everything camera-side: the model, its controller, the uniform block,
/// and the block's buffer and resource group.
pub struct CameraState {
    pub camera: Camera,
    pub uniform: CameraUniform,
    pub buffer: UniformBuffer,
    pub bind_group: BindGroup,
    pub controller: CameraController,
}

impl CameraState {
    /// The buffer always holds the uniform block's byte image.
    pub open spec fn synced(self) -> bool {
        self.buffer.data@ == words_le_bytes(self.uniform.view_proj@)
    }

    /// Builds the camera state for a surface configured as `config`: the
    /// aspect extent is the configuration's extent, the uniform starts as
    /// the identity matrix, and the buffer is initialized with its image.
    pub fn new(config: &SurfaceConfig, layout: &BindGroupLayout) -> (s: CameraState)
        requires
            layout.wf(),
            layout.kind == LayoutKind::Camera,
        ensures
            s.camera.aspect_extent() == config.extent(),
            s.uniform.view_proj@ == identity_mat4_words(),
            s.synced(),
            s.bind_group.layout == LayoutKind::Camera,
            s.controller.speed == CAMERA_SPEED_BITS,
            !s.controller.is_forward_pressed,
            !s.controller.is_backward_pressed,
            !s.controller.is_left_pressed,
            !s.controller.is_right_pressed,
    {
        let camera = Camera { aspect_width: config.width, aspect_height: config.height };
        let uniform = CameraUniform::new();
        let buffer = UniformBuffer::new_init(uniform.to_bytes());
        let bind_group = bind_uniform_group(layout);
        let controller = CameraController::new(CAMERA_SPEED_BITS);
        CameraState { camera, uniform, buffer, bind_group, controller }
    }
}

} // verus!
