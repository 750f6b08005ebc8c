//! Preparing an image for a 2D texture: decoding it to 8-bit RGBA and working
//! out how its bytes are copied into the texture.

use vstd::prelude::*;

verus! {

/// `image::load_from_memory` followed by `DynamicImage::to_rgba8`, taken apart
/// into its dimensions and raw buffer. The contract claims only that a decoded
/// image's buffer holds four bytes for each of its `width * height` pixels:
/// the decoder allocates exactly that many and the conversion to RGBA keeps
/// one pixel per pixel. Whether and how given bytes decode is left unsaid: the
/// format detection and decoding hooks registered in the process take part.
#[verifier::external_body]
fn decode_rgba8(bytes: &[u8]) -> (r: Option<(u32, u32, Vec<u8>)>)
    ensures
        r matches Some(img) ==> img.2@.len() == 4 * img.0 * img.1,
{
    match image::load_from_memory(bytes) {
        Ok(image) => {
            let rgba = image.to_rgba8();
            let (width, height) = rgba.dimensions();
            Some((width, height, rgba.into_raw()))
        },
        Err(_) => None,
    }
}

/// How the pixels of an RGBA8 image are copied into a 2D texture of the same
/// size: one layer, rows of `4 * width` bytes, `height` rows per image.
#[derive(Debug, Clone, Copy, PartialEq, Eq, Structural)]
pub struct TextureLayout {
    pub width: u32,
    pub height: u32,
    pub depth_or_array_layers: u32,
    pub bytes_per_row: u32,
    pub rows_per_image: u32,
}

/// The copy layout of a `width` by `height` RGBA8 image.
pub open spec fn spec_texture_layout(width: u32, height: u32) -> TextureLayout {
    TextureLayout {
        width,
        height,
        depth_or_array_layers: 1,
        bytes_per_row: (4 * width) as u32,
        rows_per_image: height,
    }
}

/// The copy layout of a `width` by `height` RGBA8 image. A row must fit the
/// 32-bit byte count of a row.
pub fn texture_layout(width: u32, height: u32) -> (layout: TextureLayout)
    requires
        4 * width <= u32::MAX,
    ensures
        layout == spec_texture_layout(width, height),
        layout.bytes_per_row == 4 * width,
{
    TextureLayout {
        width,
        height,
        depth_or_array_layers: 1,
        bytes_per_row: 4 * width,
        rows_per_image: height,
    }
}

/// A decoded image ready to be written into a texture.
pub struct TextureData {
    pub layout: TextureLayout,
    pub rgba: Vec<u8>,
}

/// Makes texture data of a decoded `width` by `height` RGBA8 image: its pixels
/// and their copy layout. `None` when a row of the image has more bytes than a
/// 32-bit row size can count.
pub fn texture_data(width: u32, height: u32, rgba: Vec<u8>) -> (r: Option<TextureData>)
    requires
        rgba@.len() == 4 * width * height,
    ensures
        4 * width <= u32::MAX ==> (r matches Some(t) && t.layout == spec_texture_layout(
            width,
            height,
        ) && t.rgba@ == rgba@),
        4 * width > u32::MAX ==> r is None,
        r matches Some(t) ==> t.layout.bytes_per_row * t.layout.rows_per_image == t.rgba@.len(),
{
    if width <= u32::MAX / 4 {
        let layout = texture_layout(width, height);
        assert(4 * width * height == (4 * width) * height) by (nonlinear_arith);
        Some(TextureData { layout, rgba })
    } else {
        None
    }
}

/// Decodes an encoded image into RGBA8 pixels and makes its texture data with
/// `texture_data`. `None` when the bytes do not decode, or when a row of the
/// image has more bytes than a 32-bit row size can count; whatever comes back
/// copies exactly the image's pixels.
pub fn load_texture(bytes: &[u8]) -> (r: Option<TextureData>)
    ensures
        r matches Some(t) ==> t.layout.bytes_per_row * t.layout.rows_per_image == t.rgba@.len(),
        r matches Some(t) ==> t.layout == spec_texture_layout(t.layout.width, t.layout.height),
{
    match decode_rgba8(bytes) {
        None => None,
        Some(img) => {
            let (width, height, rgba) = img;
            texture_data(width, height, rgba)
        },
    }
}

} // verus!
