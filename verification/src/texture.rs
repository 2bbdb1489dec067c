//! Texture data prepared from an encoded image.
//!
//! The textured variant of the demo ships one encoded image and uploads its
//! raw RGBA pixels to a GPU texture.  Decoding is delegated to the `image`
//! crate; what this module proves is the shape of the upload handed to the
//! backend: the row stride is four bytes per pixel, and the staged data holds
//! exactly one full image.

use vstd::prelude::*;

verus! {

/// The error type of the `image` crate, carried through the decode call.
#[verifier::external_type_specification]
#[verifier::external_body]
pub struct ExImageError(image::ImageError);

/// What decoding an encoded image yields, if it decodes at all: the pixel
/// width, the pixel height, and the raw RGBA bytes, row-major, four bytes
/// per pixel.  Decoding depends on the input bytes alone.
pub uninterp spec fn decoded_rgba(bytes: Seq<u8>) -> Option<(u32, u32, Seq<u8>)>;

/// Relies on `image::load_from_memory` followed by
/// `image::DynamicImage::to_rgba8`: the decode reads nothing but the input
/// bytes, and the returned image buffer of a `width` by `height` RGBA image
/// holds at least `4 * width * height` bytes (`ImageBuffer::from_raw`
/// refuses any smaller container).
#[verifier::external_body]
fn decode_rgba(bytes: &[u8]) -> (r: Result<(u32, u32, Vec<u8>), image::ImageError>)
    ensures
        r is Ok <==> decoded_rgba(bytes@) is Some,
        r matches Ok(t) ==> {
            let d = decoded_rgba(bytes@).unwrap();
            &&& t.0 == d.0
            &&& t.1 == d.1
            &&& t.2@ == d.2
            &&& d.2.len() >= 4 * d.0 * d.1
        },
{
    let img = image::load_from_memory(bytes)?.to_rgba8();
    let (width, height) = img.dimensions();
    Ok((width, height, img.into_raw()))
}

/// Why a texture could not be prepared.
#[derive(Clone, Copy, PartialEq, Eq, Structural, Debug)]
pub enum TextureError {
    /// The bytes are not an image the decoder accepts.
    Decode,
    /// The decoded dimensions do not fit the upload arithmetic.
    TooLarge,
}

/// One texture upload, ready for the backend: `data` holds exactly one
/// `width` by `height` RGBA image, laid out in rows of `bytes_per_row`
/// bytes.
pub struct TextureUpload {
    pub width: u32,
    pub height: u32,
    pub bytes_per_row: u32,
    pub data: Vec<u8>,
}

impl TextureUpload {
    /// The layout invariant the backend's texture write expects.
    pub open spec fn wf(self) -> bool {
        &&& self.bytes_per_row == 4 * self.width
        &&& self.data@.len() == 4 * self.width * self.height
    }
}

/// Decode an encoded image into the upload the backend receives.  Succeeds
/// exactly when the bytes decode and the row stride and total size fit the
/// machine; the staged data is then the first `4 * width * height` decoded
/// bytes, one full image.
pub fn prepare_texture(bytes: &[u8]) -> (r: Result<TextureUpload, TextureError>)
    ensures
        decoded_rgba(bytes@) is None ==> r == Err::<TextureUpload, TextureError>(
            TextureError::Decode,
        ),
        decoded_rgba(bytes@) matches Some(d) ==> {
            if 4 * d.0 <= u32::MAX && 4 * d.0 * d.1 <= usize::MAX {
                &&& r matches Ok(t)
                &&& t.width == d.0
                &&& t.height == d.1
                &&& t.bytes_per_row == 4 * d.0
                &&& t.data@ == d.2.take(4 * d.0 * d.1)
                &&& t.wf()
            } else {
                r == Err::<TextureUpload, TextureError>(TextureError::TooLarge)
            }
        },
{
    let (width, height, mut data) = match decode_rgba(bytes) {
        Ok(t) => t,
        Err(_) => {
            return Err(TextureError::Decode);
        },
    };
    if width > u32::MAX / 4 {
        return Err(TextureError::TooLarge);
    }
    let bytes_per_row: u32 = 4 * width;
    proof {
        assert((bytes_per_row as int) * (height as int) <= (u32::MAX as int) * (u32::MAX as int))
            by (nonlinear_arith)
            requires
                bytes_per_row <= u32::MAX,
                height <= u32::MAX,
        ;
    }
    let total_wide: u64 = (bytes_per_row as u64) * (height as u64);
    if total_wide > usize::MAX as u64 {
        return Err(TextureError::TooLarge);
    }
    let total: usize = total_wide as usize;
    data.truncate(total);
    assert(data@ == decoded_rgba(bytes@).unwrap().2.take(
        4 * decoded_rgba(bytes@).unwrap().0 * decoded_rgba(bytes@).unwrap().1,
    ));
    Ok(TextureUpload { width, height, bytes_per_row, data })
}

} // verus!
