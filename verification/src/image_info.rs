//! The image normalizer: sniffs the codec of a raw image buffer from
//! its signature and reports exact pixel dimensions for layout.

use vstd::prelude::*;
use crate::config::MAX_DPI;

verus! {

/// Why a raw image buffer was rejected.
#[derive(Clone, Copy, Debug, PartialEq, Eq, Structural)]
pub enum ImageError {
    /// The buffer's signature matches none of the supported codecs.
    UnsupportedFormat,
    /// The signature matches a supported codec but the data does not
    /// decode (corrupt or truncated), or decodes to an empty image.
    DecodeError,
}

/// The codecs the normalizer accepts.
#[derive(Clone, Copy, Debug, PartialEq, Eq, Structural)]
pub enum ImageFormatKind {
    Jpeg,
    Png,
}

/// Pixel dimensions of one decoded image, with the density assumed for
/// converting them to physical length. Produced by `normalize`,
/// consumed by the layout engine.
#[derive(Clone, Copy, Debug, PartialEq, Eq, Structural)]
pub struct ImageDescriptor {
    pub width_px: u32,
    pub height_px: u32,
    pub dpi: u32,
}

impl ImageDescriptor {
    /// Both dimensions positive and the density in the accepted range,
    /// so physical sizes and scale denominators are positive.
    pub open spec fn wf(self) -> bool {
        &&& 1 <= self.width_px
        &&& 1 <= self.height_px
        &&& 1 <= self.dpi <= MAX_DPI
    }
}

/// The three-byte JPEG signature.
pub open spec fn spec_is_jpeg_sig(s: Seq<u8>) -> bool {
    &&& s.len() >= 3
    &&& s[0] == 0xFFu8
    &&& s[1] == 0xD8u8
    &&& s[2] == 0xFFu8
}

/// The eight-byte PNG signature.
pub open spec fn spec_is_png_sig(s: Seq<u8>) -> bool {
    &&& s.len() >= 8
    &&& s[0] == 0x89u8
    &&& s[1] == 0x50u8
    &&& s[2] == 0x4Eu8
    &&& s[3] == 0x47u8
    &&& s[4] == 0x0Du8
    &&& s[5] == 0x0Au8
    &&& s[6] == 0x1Au8
    &&& s[7] == 0x0Au8
}

/// Which supported codec, if any, the buffer's signature announces.
pub open spec fn spec_detect_format(s: Seq<u8>) -> Option<ImageFormatKind> {
    if spec_is_jpeg_sig(s) {
        Some(ImageFormatKind::Jpeg)
    } else if spec_is_png_sig(s) {
        Some(ImageFormatKind::Png)
    } else {
        None
    }
}

/// The pixel dimensions the JPEG codec decodes from the buffer, or
/// nothing if it rejects the data. A function of the bytes alone.
pub uninterp spec fn jpeg_dims(bytes: Seq<u8>) -> Option<(u32, u32)>;

/// The pixel dimensions the PNG codec decodes from the buffer, or
/// nothing if it rejects the data. A function of the bytes alone.
pub uninterp spec fn png_dims(bytes: Seq<u8>) -> Option<(u32, u32)>;

/// The dimensions the codec announced by the signature decodes, if any.
pub open spec fn spec_decoded_dims(s: Seq<u8>) -> Option<(u32, u32)> {
    match spec_detect_format(s) {
        Some(ImageFormatKind::Jpeg) => jpeg_dims(s),
        Some(ImageFormatKind::Png) => png_dims(s),
        None => None,
    }
}

/// What `normalize` returns for a buffer: `UnsupportedFormat` when no
/// supported signature matches, `DecodeError` when one matches but the
/// data does not decode or decodes to an empty image, and otherwise a
/// descriptor of the decoded dimensions at the assumed density.
pub open spec fn spec_normalize(s: Seq<u8>, dpi: u32) -> Result<ImageDescriptor, ImageError> {
    if spec_detect_format(s) is None {
        Err(ImageError::UnsupportedFormat)
    } else {
        match spec_decoded_dims(s) {
            None => Err(ImageError::DecodeError),
            Some(d) => {
                if d.0 == 0 || d.1 == 0 {
                    Err(ImageError::DecodeError)
                } else {
                    Ok(ImageDescriptor { width_px: d.0, height_px: d.1, dpi })
                }
            },
        }
    }
}

/// Relies on image::load_from_memory_with_format with the JPEG codec:
/// it fully decodes the buffer, and the decoded pixel dimensions are a
/// function of the bytes alone.
#[verifier::external_body]
fn decode_jpeg_dims(bytes: &Vec<u8>) -> (r: Option<(u32, u32)>)
    ensures
        r == jpeg_dims(bytes@),
{
    match image::load_from_memory_with_format(bytes.as_slice(), image::ImageFormat::Jpeg) {
        Ok(img) => Some((img.width(), img.height())),
        Err(_) => None,
    }
}

/// Relies on image::load_from_memory_with_format with the PNG codec:
/// it fully decodes the buffer, and the decoded pixel dimensions are a
/// function of the bytes alone.
#[verifier::external_body]
fn decode_png_dims(bytes: &Vec<u8>) -> (r: Option<(u32, u32)>)
    ensures
        r == png_dims(bytes@),
{
    match image::load_from_memory_with_format(bytes.as_slice(), image::ImageFormat::Png) {
        Ok(img) => Some((img.width(), img.height())),
        Err(_) => None,
    }
}

/// Reads the buffer's signature and names the supported codec it
/// announces, if any.
pub fn detect_format(bytes: &Vec<u8>) -> (r: Option<ImageFormatKind>)
    ensures
        r == spec_detect_format(bytes@),
{
    if bytes.len() >= 3 && bytes[0] == 0xFF && bytes[1] == 0xD8 && bytes[2] == 0xFF {
        Some(ImageFormatKind::Jpeg)
    } else if bytes.len() >= 8 && bytes[0] == 0x89 && bytes[1] == 0x50 && bytes[2] == 0x4E
        && bytes[3] == 0x47 && bytes[4] == 0x0D && bytes[5] == 0x0A && bytes[6] == 0x1A
        && bytes[7] == 0x0A {
        Some(ImageFormatKind::Png)
    } else {
        None
    }
}

/// Normalizes one raw image buffer: detects the codec from the
/// signature, decodes the pixel dimensions, and reports them together
/// with the density the caller assumes for physical sizing. Fails with
/// `UnsupportedFormat` exactly when the signature matches no supported
/// codec, and with `DecodeError` exactly when the matched codec
/// rejects the data or reports an empty image.
pub fn normalize(bytes: &Vec<u8>, dpi: u32) -> (r: Result<ImageDescriptor, ImageError>)
    requires
        1 <= dpi <= MAX_DPI,
    ensures
        r == spec_normalize(bytes@, dpi),
        r matches Ok(d) ==> d.wf() && d.dpi == dpi,
{
    let dims = match detect_format(bytes) {
        None => {
            return Err(ImageError::UnsupportedFormat);
        },
        Some(ImageFormatKind::Jpeg) => decode_jpeg_dims(bytes),
        Some(ImageFormatKind::Png) => decode_png_dims(bytes),
    };
    match dims {
        None => Err(ImageError::DecodeError),
        Some((w, h)) => {
            if w == 0 || h == 0 {
                Err(ImageError::DecodeError)
            } else {
                Ok(ImageDescriptor { width_px: w, height_px: h, dpi })
            }
        },
    }
}

} // verus!
