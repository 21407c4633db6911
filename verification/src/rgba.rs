//! Album art decoded with the image crate into the pixels that the ui draws: resized to the
//! art size when it comes from the album's own cover, as it is when it comes from the file
//! the resizer saved.
use image::imageops::FilterType;
use image::ImageFormat;
use vstd::prelude::*;

use crate::resizer::IMAGE_SIZE;

verus! {

/// Image pixels, four bytes each in red, green, blue, alpha order.
#[derive(Debug, Clone)]
pub struct RgbaBytes {
    width: u32,
    height: u32,
    bytes: Vec<u8>,
}

impl RgbaBytes {
    pub closed spec fn spec_width(self) -> u32 {
        self.width
    }

    pub closed spec fn spec_height(self) -> u32 {
        self.height
    }

    pub closed spec fn pixels(self) -> Seq<u8> {
        self.bytes@
    }

    pub fn new(width: u32, height: u32, bytes: Vec<u8>) -> (b: RgbaBytes)
        ensures
            b.spec_width() == width,
            b.spec_height() == height,
            b.pixels() == bytes@,
    {
        RgbaBytes { width, height, bytes }
    }

    pub fn width(&self) -> (w: u32)
        ensures
            w == self.spec_width(),
    {
        self.width
    }

    pub fn height(&self) -> (h: u32)
        ensures
            h == self.spec_height(),
    {
        self.height
    }

    /// The pixel bytes.
    pub fn into_bytes(self) -> (bytes: Vec<u8>)
        ensures
            bytes@ == self.pixels(),
    {
        self.bytes
    }
}

/// What the image crate makes of the file `path` holding `encoded`, scaled to fit a square
/// of side `size` with its aspect ratio kept: width, height and pixels in RGBA order;
/// None where it cannot decode it.
pub uninterp spec fn resized_rgba_of(path: Seq<char>, encoded: Seq<u8>, size: u32) -> Option<
    (u32, u32, Seq<u8>),
>;

/// What the image crate makes of the file `path` holding `encoded`, at its own size: width,
/// height and pixels in RGBA order; None where it cannot decode it.
pub uninterp spec fn rgba_of(path: Seq<char>, encoded: Seq<u8>) -> Option<(u32, u32, Seq<u8>)>;

/// Whether `img` holds exactly the width, height and pixels of `decoded`, or is None as it is.
pub open spec fn holds_decoded(img: Option<RgbaBytes>, decoded: Option<(u32, u32, Seq<u8>)>) -> bool {
    match decoded {
        None => img is None,
        Some((w, h, p)) => img matches Some(b) && b.spec_width() == w && b.spec_height() == h
            && b.pixels() == p,
    }
}

/// Calls `image::ImageFormat::from_path` on `path`, `image::load_from_memory_with_format` on
/// `encoded` in that format, then `DynamicImage::resize` to `size` by `size` with the Lanczos3
/// filter and `to_rgba8`. The contract claims only that the result is a function of the three
/// arguments (`resized_rgba_of`), None where the format or the decoding fails; how the crate
/// decodes and scales is not stated.
#[verifier::external_body]
fn decode_resized(path: &str, encoded: &[u8], size: u32) -> (r: Option<(u32, u32, Vec<u8>)>)
    ensures
        match r {
            Some(p) => resized_rgba_of(path@, encoded@, size) == Some((p.0, p.1, p.2@)),
            None => resized_rgba_of(path@, encoded@, size) is None,
        },
{
    let format = ImageFormat::from_path(path).ok()?;
    let img = image::load_from_memory_with_format(encoded, format).ok()?;
    let rgba = img.resize(size, size, FilterType::Lanczos3).to_rgba8();
    Some((rgba.width(), rgba.height(), rgba.into_raw()))
}

/// Calls `image::ImageFormat::from_path` on `path`, `image::load_from_memory_with_format` on
/// `encoded` in that format, then `DynamicImage::to_rgba8`. The contract claims only that the
/// result is a function of the two arguments (`rgba_of`), None where the format or the
/// decoding fails; how the crate decodes is not stated.
#[verifier::external_body]
fn decode_rgba(path: &str, encoded: &[u8]) -> (r: Option<(u32, u32, Vec<u8>)>)
    ensures
        match r {
            Some(p) => rgba_of(path@, encoded@) == Some((p.0, p.1, p.2@)),
            None => rgba_of(path@, encoded@) is None,
        },
{
    let format = ImageFormat::from_path(path).ok()?;
    let rgba = image::load_from_memory_with_format(encoded, format).ok()?.to_rgba8();
    Some((rgba.width(), rgba.height(), rgba.into_raw()))
}

/// The pixels of an image that was decoded into `decoded`, or None with it.
pub fn rgba_from_decoded(decoded: Option<(u32, u32, Vec<u8>)>) -> (img: Option<RgbaBytes>)
    ensures
        holds_decoded(
            img,
            match decoded {
                Some(d) => Some((d.0, d.1, d.2@)),
                None => None,
            },
        ),
{
    match decoded {
        Some((width, height, bytes)) => Some(RgbaBytes::new(width, height, bytes)),
        None => None,
    }
}

/// An album's cover art, from the bytes of its file at `path`: decoded and scaled down to
/// fit the art size. None where the image crate cannot decode it (the format is taken from
/// the path's extension).
pub fn load_rgba(path: &str, encoded: &[u8]) -> (img: Option<RgbaBytes>)
    ensures
        holds_decoded(img, resized_rgba_of(path@, encoded@, IMAGE_SIZE as u32)),
{
    rgba_from_decoded(decode_resized(path, encoded, IMAGE_SIZE as u32))
}

/// An album's art as the resizer saved it, from the bytes of the saved file at `path`:
/// decoded at its own size. None where the image crate cannot decode it.
pub fn load_cached_rgba_bmp(path: &str, encoded: &[u8]) -> (img: Option<RgbaBytes>)
    ensures
        holds_decoded(img, rgba_of(path@, encoded@)),
{
    rgba_from_decoded(decode_rgba(path, encoded))
}

} // verus!
