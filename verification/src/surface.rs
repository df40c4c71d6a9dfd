//! The presentable surface's configuration.
//!
//! The surface configuration is the one piece of renderer state that a
//! window resize mutates.  A resize with a degenerate extent (either
//! dimension zero) must leave the configuration untouched; a resize with a
//! positive extent must set the extent to exactly the new values.

use vstd::prelude::*;

verus! {

/// A two-dimensional pixel extent, as delivered by the windowing layer.
#[derive(Clone, Copy, PartialEq, Eq, Structural, Debug)]
pub struct Extent {
    pub width: u32,
    pub height: u32,
}

/// Texture formats the orchestrator distinguishes.
#[derive(Clone, Copy, PartialEq, Eq, Structural, Debug)]
pub enum TextureFormatKind {
    /// The sRGB color format the surface presents in.
    Bgra8UnormSrgb,
    /// The sRGB color format decoded images are uploaded in.
    Rgba8UnormSrgb,
    /// The format of the depth attachment.
    Depth32Float,
}

/// Presentation modes the orchestrator distinguishes.
#[derive(Clone, Copy, PartialEq, Eq, Structural, Debug)]
pub enum PresentModeKind {
    AutoVsync,
    Fifo,
}

/// The surface configuration: render-attachment usage is implied, the rest
/// is the format, the extent and the present mode.
#[derive(Clone, Copy, PartialEq, Eq, Structural, Debug)]
pub struct SurfaceConfig {
    pub format: TextureFormatKind,
    pub width: u32,
    pub height: u32,
    pub present_mode: PresentModeKind,
}

impl Extent {
    /// An extent is degenerate when either dimension is zero; a degenerate
    /// extent never reaches the surface.
    pub open spec fn is_degenerate(self) -> bool {
        self.width == 0 || self.height == 0
    }
}

impl SurfaceConfig {
    /// The configuration's extent.
    pub open spec fn extent(self) -> Extent {
        Extent { width: self.width, height: self.height }
    }

    /// The initial configuration for a surface of size `size`.
    pub fn new(format: TextureFormatKind, size: Extent, present_mode: PresentModeKind) -> (c:
        SurfaceConfig)
        ensures
            c.format == format,
            c.extent() == size,
            c.present_mode == present_mode,
    {
        SurfaceConfig { format, width: size.width, height: size.height, present_mode }
    }

    /// Applies a resize: a degenerate extent is ignored, a positive extent
    /// replaces the configured one exactly.  Returns whether anything
    /// changed, so the caller knows whether to reconfigure the surface.
    pub fn apply_resize(&mut self, new_size: Extent) -> (changed: bool)
        ensures
            changed == !new_size.is_degenerate(),
            new_size.is_degenerate() ==> *final(self) == *old(self),
            !new_size.is_degenerate() ==> *final(self) == (SurfaceConfig {
                width: new_size.width,
                height: new_size.height,
                ..*old(self)
            }),
    {
        if new_size.width > 0 && new_size.height > 0 {
            self.width = new_size.width;
            self.height = new_size.height;
            true
        } else {
            false
        }
    }
}

} // verus!
