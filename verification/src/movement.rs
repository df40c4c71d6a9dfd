//! The per-object transform and its uniform state.
//!
//! The transform's rotation angle advances at a fixed rate of 180 degrees
//! per second of elapsed time; it is tracked here in thousandths of a
//! degree, reduced modulo a full turn, which denotes the same rotation.
//! The model matrix is recomposed in full from the angle each frame — never
//! accumulated incrementally, so no drift — and handed back as sixteen
//! scalar patterns that form the uniform block.

use vstd::prelude::*;

use crate::bindings::{bind_uniform_group, BindGroup, BindGroupLayout, LayoutKind};
use crate::bytes::{identity_mat4, identity_mat4_words, mat4_to_bytes, words_le_bytes};
use crate::gpu::UniformBuffer;
use crate::light::FULL_TURN_MILLIDEG;

verus! {

/// The angle advance per millisecond of elapsed time, in thousandths of a
/// degree: 180 degrees per second.
pub const ROTATION_MILLIDEG_PER_MS: u32 = 180;

/// The object's transform: its rotation angle in thousandths of a degree,
/// always below a full turn.
#[derive(Clone, Copy, PartialEq, Eq, Structural, Debug)]
pub struct Transform {
    pub rotation_angle: u32,
}

impl Transform {
    /// The angle stays below a full turn.
    pub open spec fn wf(self) -> bool {
        self.rotation_angle < FULL_TURN_MILLIDEG
    }

    /// Advances the angle by 180 degrees per elapsed second, reduced
    /// modulo a full turn.
    pub fn update_rotation(&mut self, delta_ms: u32)
        requires
            old(self).wf(),
        ensures
            final(self).rotation_angle == (old(self).rotation_angle + delta_ms
                * (ROTATION_MILLIDEG_PER_MS as int)) % (FULL_TURN_MILLIDEG as int),
            final(self).wf(),
    {
        let step: u64 = delta_ms as u64 * 180;
        proof {
            assert(step == delta_ms * (ROTATION_MILLIDEG_PER_MS as int));
        }
        let advanced: u64 = self.rotation_angle as u64 + step;
        self.rotation_angle = (advanced % FULL_TURN_MILLIDEG as u64) as u32;
    }
}

/// The transform's uniform block: the model matrix as sixteen scalar
/// patterns, row-major.
pub struct MovementUniform {
    pub model: [u32; 16],
}

impl MovementUniform {
    /// A fresh block holding the identity matrix.
    pub fn new() -> (u: MovementUniform)
        ensures
            u.model@ == identity_mat4_words(),
    {
        MovementUniform { model: identity_mat4() }
    }

    /// Replaces the matrix with the transform's freshly recomposed model
    /// matrix.
    pub fn new_transform(&mut self, model: &[u32; 16])
        ensures
            final(self).model@ == model@,
    {
        self.model = *model;
    }

    /// The block's exact 64-byte shader-side image.
    pub fn to_bytes(&self) -> (out: Vec<u8>)
        ensures
            out@ == words_le_bytes(self.model@),
            out@.len() == 64,
    {
        mat4_to_bytes(&self.model)
    }
}

/// The movement component: the transform, its uniform block, and the
/// block's buffer and resource group.
pub struct Movement {
    pub uniform: MovementUniform,
    pub buffer: UniformBuffer,
    pub bind_group: BindGroup,
    pub transform: Transform,
}

impl Movement {
    /// The buffer always holds the uniform block's byte image.
    pub open spec fn synced(self) -> bool {
        self.buffer.data@ == words_le_bytes(self.uniform.model@)
    }

    /// Builds the movement state: angle zero, identity matrix, buffer
    /// initialized with the block's image, group bound to the transform
    /// layout.
    pub fn new(layout: &BindGroupLayout) -> (m: Movement)
        requires
            layout.wf(),
            layout.kind == LayoutKind::Transform,
        ensures
            m.transform.rotation_angle == 0,
            m.transform.wf(),
            m.uniform.model@ == identity_mat4_words(),
            m.synced(),
            m.bind_group.layout == LayoutKind::Transform,
    {
        let transform = Transform { rotation_angle: 0 };
        let mut uniform = MovementUniform::new();
        let model = identity_mat4();
        uniform.new_transform(&model);
        let buffer = UniformBuffer::new_init(uniform.to_bytes());
        let bind_group = bind_uniform_group(layout);
        Movement { uniform, buffer, bind_group, transform }
    }

    /// One tick: the angle advances for the elapsed time and the block
    /// takes the recomposed model matrix.  The buffer is not touched here;
    /// synchronization is a separate staged copy.
    pub fn update(&mut self, delta_ms: u32, model: &[u32; 16])
        requires
            old(self).transform.wf(),
        ensures
            final(self).transform.rotation_angle == (old(self).transform.rotation_angle + delta_ms
                * (ROTATION_MILLIDEG_PER_MS as int)) % (FULL_TURN_MILLIDEG as int),
            final(self).transform.wf(),
            final(self).uniform.model@ == model@,
            final(self).buffer == old(self).buffer,
            final(self).bind_group == old(self).bind_group,
    {
        self.transform.update_rotation(delta_ms);
        self.uniform.new_transform(model);
    }
}

} // verus!
