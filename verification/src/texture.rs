//! Textures as the runtime sees them: decoded RGBA8 pixel data with its
//! dimensions. Decoding encoded image bytes is delegated to the `image`
//! crate; uploading the pixels to the device is the caller's business.

use vstd::prelude::*;

verus! {

/// What `image`'s decoder yields for a byte buffer: the RGBA8 pixels with
/// their dimensions, or nothing when the bytes are not a decodable image.
/// The result depends on the bytes alone.
pub uninterp spec fn decode_rgba_of(bytes: Seq<u8>) -> Option<(Seq<u8>, u32, u32)>;

/// Relies on image::load_from_memory and image::DynamicImage::to_rgba8:
/// decoding depends on the bytes alone, and the decoded RGBA8 buffer holds
/// four bytes per pixel, so its length is 4 * width * height.
#[verifier::external_body]
fn decode_rgba(bytes: &[u8]) -> (r: Result<(Vec<u8>, u32, u32), String>)
    ensures
        match r {
            Ok(d) => {
                &&& decode_rgba_of(bytes@) matches Some(e)
                &&& d.0@ == e.0
                &&& d.1 == e.1
                &&& d.2 == e.2
                &&& e.0.len() == 4 * e.1 * e.2
            },
            Err(_) => decode_rgba_of(bytes@) is None,
        },
{
    match image::load_from_memory(bytes) {
        Ok(img) => {
            let rgba = img.to_rgba8();
            let (w, h) = rgba.dimensions();
            Ok((rgba.into_raw(), w, h))
        },
        Err(e) => Err(format!("Failed to decode image: {}", e)),
    }
}

/// A decoded image, ready to be uploaded to the device: RGBA8 pixels, four
/// bytes per pixel, row-major from the top-left corner.
pub struct Texture {
    pub width: u32,
    pub height: u32,
    pub rgba: Vec<u8>,
}

impl Texture {
    /// The decoded pixel bytes.
    pub open spec fn pixels(&self) -> Seq<u8> {
        self.rgba@
    }

    /// Four bytes per pixel.
    pub open spec fn wf(&self) -> bool {
        self.pixels().len() == 4 * self.width * self.height
    }

    /// Decode encoded image bytes into a texture.
    pub fn from_encoded_bytes(bytes: &[u8]) -> (r: Result<Texture, String>)
        ensures
            match decode_rgba_of(bytes@) {
                Some(d) => {
                    &&& r matches Ok(t)
                    &&& t.width == d.1
                    &&& t.height == d.2
                    &&& t.pixels() == d.0
                    &&& t.wf()
                },
                None => r is Err,
            },
    {
        match decode_rgba(bytes) {
            Ok(d) => Ok(Texture { width: d.1, height: d.2, rgba: d.0 }),
            Err(e) => Err(e),
        }
    }

    /// The raw pixel bytes, for upload to the device.
    pub fn pixel_bytes(&self) -> (r: &Vec<u8>)
        ensures
            r@ == self.pixels(),
    {
        &self.rgba
    }
}

} // verus!
