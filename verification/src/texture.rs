//! Textures: decoding an encoded image into an exact upload, and the depth
//! texture that follows the surface's extent.
//!
//! Reading the encoded file is the caller's affair; the decoding itself is
//! pure computation on the bytes and happens here, behind one trusted
//! wrapper around the image crate.  Everything after the decode — the
//! upload extent, the row pitch, the depth attachment's size — is verified
//! arithmetic on the decoded dimensions.

use vstd::prelude::*;

use crate::surface::{Extent, SurfaceConfig, TextureFormatKind};

verus! {

/// What decoding an encoded image yields: `None` when the bytes are not a
/// readable image, otherwise the RGBA pixel bytes and the image's width
/// and height.  Decoding depends on the bytes alone.
pub uninterp spec fn rgba_decode_of(bytes: Seq<u8>) -> Option<(Seq<u8>, u32, u32)>;

/// A decoded image: its RGBA bytes and dimensions.
pub struct DecodedImage {
    pub rgba: Vec<u8>,
    pub width: u32,
    pub height: u32,
}

/// Why a texture could not be built.
#[derive(Clone, Copy, PartialEq, Eq, Structural, Debug)]
pub enum TextureError {
    /// The bytes are not a readable image.
    Decode,
    /// The decoded image is too wide for its row pitch to be expressed.
    TooLarge,
}

/// Relies on `image::load_from_memory` and `DynamicImage::to_rgba8`:
/// decoding is a function of the encoded bytes alone; and on
/// `ImageBuffer`'s invariant, through `dimensions` and `into_raw`, that an
/// RGBA image buffer holds exactly four bytes per pixel, row-major.
#[verifier::external_body]
fn decode_rgba(bytes: &Vec<u8>) -> (r: Result<DecodedImage, TextureError>)
    ensures
        r is Ok <==> rgba_decode_of(bytes@) is Some,
        r matches Ok(d) ==> rgba_decode_of(bytes@) == Some((d.rgba@, d.width, d.height)),
        r matches Ok(d) ==> d.rgba@.len() == 4 * (d.width as nat) * (d.height as nat),
        r matches Err(e) ==> e == TextureError::Decode,
{
    match image::load_from_memory(bytes.as_slice()) {
        Ok(img) => {
            let rgba = img.to_rgba8();
            let (width, height) = rgba.dimensions();
            Ok(DecodedImage { rgba: rgba.into_raw(), width, height })
        },
        Err(_) => Err(TextureError::Decode),
    }
}

/// A GPU texture as the rest of the renderer sees it: its extent and
/// format.  No CPU copy is kept once the upload is described.
#[derive(Clone, Copy, PartialEq, Eq, Structural, Debug)]
pub struct Texture {
    pub extent: Extent,
    pub format: TextureFormatKind,
}

/// One texture upload, exactly as the queue consumes it: the pixel bytes,
/// the byte pitch of one row, and the row count of the image.
pub struct TextureUpload {
    pub data: Vec<u8>,
    pub bytes_per_row: u32,
    pub rows_per_image: u32,
}

impl TextureUpload {
    /// The data covers exactly the described rows.
    pub open spec fn wf(self) -> bool {
        self.data@.len() == self.bytes_per_row * self.rows_per_image
    }
}

/// The depth attachment's format.
pub const DEPTH_FORMAT: TextureFormatKind = TextureFormatKind::Depth32Float;

impl Texture {
    /// Decodes `bytes` and describes the texture and its upload.  Succeeds
    /// exactly when the bytes decode and the row pitch, four bytes per
    /// pixel of width, fits its word; the upload then carries the decoded
    /// pixels with that pitch and one row per pixel of height.
    pub fn new(bytes: &Vec<u8>) -> (r: Result<(Texture, TextureUpload), TextureError>)
        ensures
            r is Ok <==> (rgba_decode_of(bytes@) matches Some((p, w, h)) && 4 * w <= u32::MAX),
            r matches Ok((t, up)) ==> (rgba_decode_of(bytes@) matches Some((p, w, h)) && {
                &&& t.extent == (Extent { width: w, height: h })
                &&& t.format == TextureFormatKind::Rgba8UnormSrgb
                &&& up.data@ == p
                &&& up.bytes_per_row == 4 * w
                &&& up.rows_per_image == h
                &&& up.wf()
            }),
            r matches Err(e) ==> (e == TextureError::Decode <==> rgba_decode_of(bytes@) is None),
    {
        let d = match decode_rgba(bytes) {
            Ok(d) => d,
            Err(e) => {
                return Err(e);
            },
        };
        if d.width > u32::MAX / 4 {
            return Err(TextureError::TooLarge);
        }
        let bytes_per_row: u32 = 4 * d.width;
        let texture = Texture {
            extent: Extent { width: d.width, height: d.height },
            format: TextureFormatKind::Rgba8UnormSrgb,
        };
        let upload = TextureUpload { data: d.rgba, bytes_per_row, rows_per_image: d.height };
        proof {
            assert(upload.data@.len() == 4 * (d.width as nat) * (d.height as nat));
            assert(4 * (d.width as nat) * (d.height as nat) == (4 * d.width) * (d.height as nat))
                by (nonlinear_arith);
        }
        Ok((texture, upload))
    }

    /// The descriptor of the GPU image a decoded texture is uploaded into:
    /// one mip level, one sample, the upload format, at `size`.
    pub fn texture(size: Extent) -> (t: TextureDesc)
        ensures
            t.extent == size,
            t.mip_level_count == 1,
            t.sample_count == 1,
            t.format == TextureFormatKind::Rgba8UnormSrgb,
    {
        TextureDesc {
            extent: size,
            mip_level_count: 1,
            sample_count: 1,
            format: TextureFormatKind::Rgba8UnormSrgb,
        }
    }

    /// The depth texture for a surface configured as `config`: the depth
    /// format, at exactly the configuration's extent.  Recreated whole on
    /// every resize, never mutated in place.
    pub fn create_depth_texture(config: &SurfaceConfig) -> (t: Texture)
        ensures
            t.extent == config.extent(),
            t.format == DEPTH_FORMAT,
    {
        Texture { extent: Extent { width: config.width, height: config.height }, format: DEPTH_FORMAT }
    }
}

/// A GPU image descriptor: what the device is asked to allocate.
#[derive(Clone, Copy, PartialEq, Eq, Structural, Debug)]
pub struct TextureDesc {
    pub extent: Extent,
    pub mip_level_count: u32,
    pub sample_count: u32,
    pub format: TextureFormatKind,
}

} // verus!
