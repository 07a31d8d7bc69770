//! Raster images: decoding an encoded blob into RGBA pixels.
//!
//! Decode failure is absorbed into "no image": it must never surface as a
//! fault that could corrupt a cross-boundary call in progress.

use vstd::prelude::*;

verus! {

/// What decoding a byte blob yields: nothing for undecodable input, else
/// the image's width, height, and its RGBA bytes, row-major, four bytes
/// per pixel. The result depends on the bytes alone.
pub uninterp spec fn decoded_image(data: Seq<u8>) -> Option<(u32, u32, Seq<u8>)>;

/// Relies on image::ImageReader with the format guessed from content,
/// DynamicImage::into_rgba8 and ImageBuffer::into_raw: decoding depends on
/// the input bytes alone, every error is mapped to no image, and an RGBA
/// buffer holds exactly four bytes per pixel.
#[verifier::external_body]
fn decode_rgba(data: &Vec<u8>) -> (r: Option<(u32, u32, Vec<u8>)>)
    ensures
        (match r {
            Some(t) => decoded_image(data@) == Some((t.0, t.1, t.2@))
                && t.2@.len() == 4 * t.0 * t.1,
            None => decoded_image(data@) is None,
        }),
{
    let cursor = std::io::Cursor::new(data.as_slice());
    let reader = image::ImageReader::new(cursor).with_guessed_format().ok()?;
    let decoded = reader.decode().ok()?.into_rgba8();
    let width = decoded.width();
    let height = decoded.height();
    Some((width, height, decoded.into_raw()))
}

/// Copies a byte sequence element by element.
pub fn clone_bytes(v: &Vec<u8>) -> (r: Vec<u8>)
    ensures
        r@ == v@,
{
    let mut out: Vec<u8> = Vec::new();
    let mut i: usize = 0;
    while i < v.len()
        invariant
            0 <= i <= v@.len(),
            out@ =~= v@.take(i as int),
        decreases v@.len() - i,
    {
        out.push(v[i]);
        proof {
            assert(v@.take(i + 1) =~= v@.take(i as int).push(v@[i as int]));
        }
        i = i + 1;
    }
    proof {
        assert(out@ =~= v@);
    }
    out
}

/// A decoded raster image: dimensions plus RGBA bytes, four per pixel.
#[derive(Debug)]
pub struct Image {
    pub width: u32,
    pub height: u32,
    pub data: Vec<u8>,
}

impl Image {
    /// The pixel buffer holds exactly four bytes per pixel.
    pub open spec fn wf(self) -> bool {
        self.data@.len() == 4 * self.width * self.height
    }

    /// Decodes an encoded raster blob, auto-detecting the format. Returns
    /// no image on any decode error, never a hard failure.
    pub fn decode(data: &Vec<u8>) -> (r: Option<Image>)
        ensures
            (match r {
                Some(img) => decoded_image(data@) == Some((img.width, img.height, img.data@))
                    && img.wf(),
                None => decoded_image(data@) is None,
            }),
    {
        match decode_rgba(data) {
            Some((width, height, pixels)) => Some(Image { width, height, data: pixels }),
            None => None,
        }
    }
}

} // verus!
