//! The light's uniform state.
//!
//! The light uniform is a 32-byte block whose byte layout must match the
//! shader's: a position vector padded to a 16-byte boundary, then a color
//! vector padded the same way.  Each frame the light's position orbits a
//! fixed axis by a fixed angular step; the orbit angle is tracked here
//! exactly, the rotated position itself is a scalar computation done where
//! the matrices are built and handed back as patterns.

use vstd::prelude::*;

use crate::bindings::{bind_uniform_group, BindGroup, BindGroupLayout, LayoutKind};
use crate::bytes::{words_le_bytes, words_to_bytes, SCALAR_ONE_BITS};
use crate::gpu::UniformBuffer;

verus! {

/// The 32-bit pattern of the default light position's first coordinate.
pub const LIGHT_POS_X_BITS: u32 = 0x41C8_0000;

/// The 32-bit pattern of the default light position's second coordinate.
pub const LIGHT_POS_Y_BITS: u32 = 0x4080_0000;

/// The 32-bit pattern of the default light position's third coordinate.
pub const LIGHT_POS_Z_BITS: u32 = 0;

/// The orbit step per frame, in thousandths of a degree.
pub const LIGHT_ORBIT_STEP_MILLIDEG: u32 = 1000;

/// A full turn, in thousandths of a degree.
pub const FULL_TURN_MILLIDEG: u32 = 360_000;

/// The light's uniform block.  The padding words sit where the shader
/// aligns each vector to 16 bytes; they are part of the byte image.
pub struct LightUniform {
    pub position: [u32; 3],
    pub _padding: u32,
    pub color: [u32; 3],
    pub _padding2: u32,
}

impl LightUniform {
    /// The block's eight words in shader order.
    pub open spec fn words(self) -> Seq<u32> {
        seq![
            self.position@[0],
            self.position@[1],
            self.position@[2],
            self._padding,
            self.color@[0],
            self.color@[1],
            self.color@[2],
            self._padding2,
        ]
    }

    /// The default block: the fixed starting position, white color, zeroed
    /// padding.
    pub fn new() -> (u: LightUniform)
        ensures
            u.position@ == seq![LIGHT_POS_X_BITS, LIGHT_POS_Y_BITS, LIGHT_POS_Z_BITS],
            u.color@ == seq![SCALAR_ONE_BITS, SCALAR_ONE_BITS, SCALAR_ONE_BITS],
            u._padding == 0,
            u._padding2 == 0,
    {
        let u = LightUniform {
            position: [LIGHT_POS_X_BITS, LIGHT_POS_Y_BITS, LIGHT_POS_Z_BITS],
            _padding: 0,
            color: [SCALAR_ONE_BITS, SCALAR_ONE_BITS, SCALAR_ONE_BITS],
            _padding2: 0,
        };
        proof {
            assert(u.position@ =~= seq![LIGHT_POS_X_BITS, LIGHT_POS_Y_BITS, LIGHT_POS_Z_BITS]);
            assert(u.color@ =~= seq![SCALAR_ONE_BITS, SCALAR_ONE_BITS, SCALAR_ONE_BITS]);
        }
        u
    }

    /// The block's exact 32-byte shader-side image.
    pub fn to_bytes(&self) -> (out: Vec<u8>)
        ensures
            out@ == words_le_bytes(self.words()),
            out@.len() == 32,
    {
        let mut ws: Vec<u32> = Vec::new();
        ws.push(self.position[0]);
        ws.push(self.position[1]);
        ws.push(self.position[2]);
        ws.push(self._padding);
        ws.push(self.color[0]);
        ws.push(self.color[1]);
        ws.push(self.color[2]);
        ws.push(self._padding2);
        proof {
            assert(ws@ =~= self.words());
        }
        words_to_bytes(&ws)
    }
}

/// The light's GPU-side state: the block, its buffer, its resource group,
/// and the exactly tracked orbit angle.
pub struct LightState {
    pub light_uniform: LightUniform,
    pub light_buffer: UniformBuffer,
    pub bind_group: BindGroup,
    /// The orbit angle in thousandths of a degree, always below a full
    /// turn; the position patterns in the block are its scalar image.
    pub orbit_angle: u32,
}

impl LightState {
    /// The buffer always holds the block's byte image.
    pub open spec fn synced(self) -> bool {
        self.light_buffer.data@ == words_le_bytes(self.light_uniform.words())
    }

    /// The orbit angle stays below a full turn.
    pub open spec fn wf(self) -> bool {
        self.orbit_angle < FULL_TURN_MILLIDEG
    }

    /// Builds the light state: default block, buffer initialized with its
    /// image, group bound to the light layout, orbit at zero.
    pub fn new(layout: &BindGroupLayout) -> (s: LightState)
        requires
            layout.wf(),
            layout.kind == LayoutKind::Light,
        ensures
            s.light_uniform.position@ == seq![
                LIGHT_POS_X_BITS,
                LIGHT_POS_Y_BITS,
                LIGHT_POS_Z_BITS,
            ],
            s.light_uniform.color@ == seq![SCALAR_ONE_BITS, SCALAR_ONE_BITS, SCALAR_ONE_BITS],
            s.synced(),
            s.bind_group.layout == LayoutKind::Light,
            s.orbit_angle == 0,
            s.wf(),
    {
        let light_uniform = LightUniform::new();
        let light_buffer = UniformBuffer::new_init(light_uniform.to_bytes());
        let bind_group = bind_uniform_group(layout);
        LightState { light_uniform, light_buffer, bind_group, orbit_angle: 0 }
    }

    /// One orbit step: the angle advances by the fixed step (wrapping at a
    /// full turn, which is the same rotation), the position patterns are
    /// replaced by the rotated position, the color keeps its value, and
    /// the buffer is rewritten with the block's new image by a direct
    /// queue-level write.
    pub fn update(&mut self, rotated_position: &[u32; 3])
        requires
            old(self).wf(),
            old(self).synced(),
        ensures
            final(self).orbit_angle == (old(self).orbit_angle + LIGHT_ORBIT_STEP_MILLIDEG) % (
            FULL_TURN_MILLIDEG as int),
            final(self).light_uniform.position@ == rotated_position@,
            final(self).light_uniform.color == old(self).light_uniform.color,
            final(self).light_uniform._padding == old(self).light_uniform._padding,
            final(self).light_uniform._padding2 == old(self).light_uniform._padding2,
            final(self).synced(),
            final(self).wf(),
            final(self).bind_group == old(self).bind_group,
    {
        self.orbit_angle = (self.orbit_angle + LIGHT_ORBIT_STEP_MILLIDEG) % FULL_TURN_MILLIDEG;
        self.light_uniform.position = [rotated_position[0], rotated_position[1], rotated_position[2]];
        proof {
            assert(self.light_uniform.position@ =~= rotated_position@);
        }
        let payload = self.light_uniform.to_bytes();
        proof {
            crate::bytes::lemma_words_le_bytes_len(old(self).light_uniform.words());
        }
        self.light_buffer.write(&payload);
    }
}

} // verus!
