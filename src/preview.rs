use vstd::prelude::*;

use image::imageops::FilterType;
use image::{ImageFormat, RgbaImage};

verus! {

/// Side length, in pixels, of every preview.
pub const PREVIEW_SIDE: u32 = 100;

/// Number of formats that `image::ImageFormat::all` lists; a format is known
/// here by its position in that list.
pub const FORMAT_COUNT: usize = 16;

/// An image as plain values: its size and its 8-bit RGBA samples, row by row.
pub struct Pixels {
    pub width: u32,
    pub height: u32,
    pub rgba: Vec<u8>,
}

impl Pixels {
    /// Four samples for each pixel, no more and no fewer.
    pub open spec fn wf(&self) -> bool {
        self.rgba@.len() == self.width as int * self.height as int * 4
    }
}

/// Position, in `ImageFormat::all`, of the format that a path's extension
/// names, or `None` when it names none.
pub uninterp spec fn format_of_path(path: Seq<char>) -> Option<nat>;

/// Size and RGBA samples of `bytes` decoded as the format at `format`, or
/// `None` when they do not decode.
pub uninterp spec fn decoded(bytes: Seq<u8>, format: nat) -> Option<(u32, u32, Seq<u8>)>;

/// RGBA samples of a `width` by `height` image resized to `side` by `side`
/// with the nearest-neighbour filter.
pub uninterp spec fn resized_nearest(width: u32, height: u32, rgba: Seq<u8>, side: u32) -> Seq<u8>;

/// A `width` by `height` RGBA image encoded as the format at `format`, or
/// `None` when the encoder refuses it.
pub uninterp spec fn encoded(width: u32, height: u32, rgba: Seq<u8>, format: nat) -> Option<Seq<u8>>;

/// Relies on image::ImageFormat::from_path: the format named by the path's
/// extension (its position in `ImageFormat::all`, which lists every variant),
/// or the error's text when the extension names none.
#[verifier::external_body]
fn path_format(path: &str) -> (r: Result<usize, String>)
    ensures
        match r {
            Ok(i) => format_of_path(path@) == Some(i as nat) && i < FORMAT_COUNT,
            Err(_) => format_of_path(path@) is None,
        },
{
    ImageFormat::from_path(path)
        .map(|f| ImageFormat::all().position(|g| g == f).unwrap())
        .map_err(|e| e.to_string())
}

/// Relies on image::load_from_memory_with_format: decodes `bytes` in the
/// given format; the image is handed out as 8-bit RGBA samples.
#[verifier::external_body]
fn decode_rgba(bytes: &[u8], format: usize) -> (r: Result<Pixels, String>)
    requires
        format < FORMAT_COUNT,
    ensures
        match r {
            Ok(p) => decoded(bytes@, format as nat) == Some((p.width, p.height, p.rgba@)) && p.wf(),
            Err(_) => decoded(bytes@, format as nat) is None,
        },
{
    let format = ImageFormat::all().nth(format).unwrap();
    image::load_from_memory_with_format(bytes, format)
        .map(|img| img.to_rgba8())
        .map(|buf| Pixels { width: buf.width(), height: buf.height(), rgba: buf.into_raw() })
        .map_err(|e| e.to_string())
}

/// Relies on image::imageops::resize with `FilterType::Nearest`: a new image
/// of exactly `side` by `side` pixels.
#[verifier::external_body]
fn resize_nearest(p: &Pixels, side: u32) -> (r: Pixels)
    requires
        p.wf(),
        side as int * side as int * 4 <= usize::MAX,
    ensures
        r.width == side,
        r.height == side,
        r.rgba@ == resized_nearest(p.width, p.height, p.rgba@, side),
        r.wf(),
{
    let buf = RgbaImage::from_raw(p.width, p.height, p.rgba.clone()).unwrap();
    let out = image::imageops::resize(&buf, side, side, FilterType::Nearest);
    Pixels { width: out.width(), height: out.height(), rgba: out.into_raw() }
}

/// Relies on image::DynamicImage::write_to: encodes the RGBA image in the
/// given format into an in-memory buffer, or gives the error's text.
#[verifier::external_body]
fn encode(p: &Pixels, format: usize) -> (r: Result<Vec<u8>, String>)
    requires
        p.wf(),
        format < FORMAT_COUNT,
    ensures
        match r {
            Ok(b) => encoded(p.width, p.height, p.rgba@, format as nat) == Some(b@),
            Err(_) => encoded(p.width, p.height, p.rgba@, format as nat) is None,
        },
{
    let format = ImageFormat::all().nth(format).unwrap();
    let img = image::DynamicImage::ImageRgba8(RgbaImage::from_raw(p.width, p.height, p.rgba.clone()).unwrap());
    let mut buf = std::io::Cursor::new(Vec::new());
    img.write_to(&mut buf, format).map(|_| buf.into_inner()).map_err(|e| e.to_string())
}

/// The preview of `content`: decoded in the format that `source_path`'s
/// extension names, resized to `side` by `side` pixels with the
/// nearest-neighbour filter, and encoded in the format that `target_path`'s
/// extension names; `None` when any of these fails.
pub open spec fn preview_image(content: Seq<u8>, source_path: Seq<char>, target_path: Seq<char>, side: u32) -> Option<Seq<u8>> {
    match format_of_path(source_path) {
        None => None,
        Some(fi) => match decoded(content, fi) {
            None => None,
            Some(img) => match format_of_path(target_path) {
                None => None,
                Some(fo) => encoded(side, side, resized_nearest(img.0, img.1, img.2, side), fo),
            },
        },
    }
}

/// Renders the preview of an uploaded image, `PREVIEW_SIDE` pixels square.
/// On failure, the error's text.
pub fn render_preview(source_path: &str, target_path: &str, content: &[u8]) -> (r: Result<Vec<u8>, String>)
    ensures
        match r {
            Ok(b) => preview_image(content@, source_path@, target_path@, PREVIEW_SIDE) == Some(b@),
            Err(_) => preview_image(content@, source_path@, target_path@, PREVIEW_SIDE) is None,
        },
{
    let in_format = match path_format(source_path) {
        Ok(f) => f,
        Err(e) => {
            return Err(e);
        },
    };
    let img = match decode_rgba(content, in_format) {
        Ok(img) => img,
        Err(e) => {
            return Err(e);
        },
    };
    let out_format = match path_format(target_path) {
        Ok(f) => f,
        Err(e) => {
            return Err(e);
        },
    };
    let small = resize_nearest(&img, PREVIEW_SIDE);
    encode(&small, out_format)
}

} // verus!
