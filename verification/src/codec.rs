//! Trusted boundary to the external codec collaborators: the optical-code
//! encoder and scanner, the image pixel codec, base64, and lossy text
//! recovery. Each result that is a pure function of its arguments is given a
//! name, so that the pipeline's contracts stay exact.

use vstd::prelude::*;
use base64::Engine;
use image::GenericImageView;
use crate::consts::DEFAULT_QR_SIZE;

verus! {

/// A grayscale pixel grid: one byte per pixel, row by row.
pub struct GridView {
    pub width: u32,
    pub height: u32,
    pub pixels: Seq<u8>,
}

/// A grayscale image held as plain values: dimensions and one byte per pixel.
pub struct PixelGrid {
    pub width: u32,
    pub height: u32,
    pub pixels: Vec<u8>,
}

impl View for PixelGrid {
    type V = GridView;

    open spec fn view(&self) -> GridView {
        GridView { width: self.width, height: self.height, pixels: self.pixels@ }
    }
}

impl PixelGrid {
    /// The buffer holds exactly one byte per pixel of the grid.
    pub open spec fn wf(self) -> bool {
        self.pixels@.len() == self.width * self.height
    }
}

/// The grayscale rendering of the optical code that encodes `text`, or
/// `None` when the text cannot be encoded; depends on the text alone.
pub uninterp spec fn qr_render_spec(text: Seq<char>) -> Option<GridView>;

/// Relies on qrcode::QrCode::new and its grayscale image renderer: whether
/// the text encodes, and the rendered grid, depend on the text alone; the
/// rendered buffer holds one byte per pixel.
#[verifier::external_body]
pub(crate) fn qr_encode(content: &str) -> (r: Option<PixelGrid>)
    ensures
        match r {
            Some(g) => qr_render_spec(content@) == Some(g@) && g.wf(),
            None => qr_render_spec(content@) is None,
        },
{
    let code = match qrcode::QrCode::new(content) {
        Ok(c) => c,
        Err(_) => {
            return None;
        },
    };
    let img = code.render::<image::Luma<u8>>().min_dimensions(
        DEFAULT_QR_SIZE,
        DEFAULT_QR_SIZE,
    ).build();
    let width = img.width();
    let height = img.height();
    Some(PixelGrid { width, height, pixels: img.into_raw() })
}

/// The PNG serialization of a grayscale grid, or `None` when encoding
/// fails; depends on the grid alone.
pub uninterp spec fn png_encode_spec(width: u32, height: u32, pixels: Seq<u8>) -> Option<Seq<u8>>;

/// Relies on image's PNG encoder through ImageBuffer::write_to: the encoded
/// bytes depend on the pixel grid alone.
#[verifier::external_body]
pub(crate) fn png_encode(grid: &PixelGrid) -> (r: Option<Vec<u8>>)
    requires
        grid.wf(),
    ensures
        match r {
            Some(v) => png_encode_spec(grid.width, grid.height, grid.pixels@) == Some(v@),
            None => png_encode_spec(grid.width, grid.height, grid.pixels@) is None,
        },
{
    let buf: image::ImageBuffer<image::Luma<u8>, Vec<u8>> = match image::ImageBuffer::from_raw(
        grid.width,
        grid.height,
        grid.pixels.clone(),
    ) {
        Some(b) => b,
        None => {
            return None;
        },
    };
    let mut out: Vec<u8> = Vec::new();
    match buf.write_to(&mut std::io::Cursor::new(&mut out), image::ImageFormat::Png) {
        Ok(()) => Some(out),
        Err(_) => None,
    }
}

/// The grayscale image that the byte sequence decodes to, or `None` when it
/// is not a decodable image; depends on the bytes alone.
pub uninterp spec fn image_decode_spec(bytes: Seq<u8>) -> Option<GridView>;

/// Relies on image::load_from_memory and DynamicImage::to_luma8: whether the
/// bytes decode, the pixel dimensions, and the grayscale pixels depend on
/// the bytes alone; the grayscale buffer holds one byte per pixel.
#[verifier::external_body]
pub(crate) fn image_load(bytes: &Vec<u8>) -> (r: Option<PixelGrid>)
    ensures
        match r {
            Some(g) => image_decode_spec(bytes@) == Some(g@) && g.wf(),
            None => image_decode_spec(bytes@) is None,
        },
{
    let img = match image::load_from_memory(bytes) {
        Ok(i) => i,
        Err(_) => {
            return None;
        },
    };
    let width = img.width();
    let height = img.height();
    let gray = img.to_luma8();
    Some(PixelGrid { width, height, pixels: gray.into_raw() })
}

/// The decode attempts on the candidate optical codes found in a grayscale
/// grid, in order of discovery: one entry per extracted candidate, `Some`
/// holding the payload when the candidate decodes; depends on the grid
/// alone.
pub uninterp spec fn qr_scan_spec(width: u32, height: u32, pixels: Seq<u8>) -> Seq<
    Option<Seq<u8>>,
>;

/// The attempts a scan result stands for: each payload as a byte sequence.
pub open spec fn attempts_view(r: Seq<Option<Vec<u8>>>) -> Seq<Option<Seq<u8>>> {
    r.map_values(
        |o: Option<Vec<u8>>|
            match o {
                Some(v) => Some(v@),
                None => None,
            },
    )
}

/// Relies on quircs::Quirc::identify and Code::decode: the candidate codes
/// located in a grayscale grid, and each one's decoded payload, depend on
/// the grid alone. Candidates whose extraction fails are skipped, as the
/// iterator hands them back as errors.
#[verifier::external_body]
pub(crate) fn qr_scan(grid: &PixelGrid) -> (r: Vec<Option<Vec<u8>>>)
    requires
        grid.wf(),
    ensures
        attempts_view(r@) == qr_scan_spec(grid.width, grid.height, grid.pixels@),
{
    let mut decoder = quircs::Quirc::new();
    let codes = decoder.identify(grid.width as usize, grid.height as usize, &grid.pixels);
    let mut out: Vec<Option<Vec<u8>>> = Vec::new();
    for code in codes.flatten() {
        match code.decode() {
            Ok(data) => out.push(Some(data.payload)),
            Err(_) => out.push(None),
        }
    }
    out
}

/// The text a byte sequence stands for once invalid sequences are replaced;
/// depends on the bytes alone.
pub uninterp spec fn utf8_lossy_spec(bytes: Seq<u8>) -> Seq<char>;

/// Relies on String::from_utf8_lossy: the recovered text, with invalid byte
/// sequences replaced, depends on the bytes alone.
#[verifier::external_body]
pub(crate) fn utf8_lossy(bytes: &Vec<u8>) -> (r: String)
    ensures
        r@ == utf8_lossy_spec(bytes@),
{
    String::from_utf8_lossy(bytes).into_owned()
}

/// The bytes a string decodes to under the standard base64 alphabet, or
/// `None` when it is malformed; depends on the string alone.
pub uninterp spec fn base64_decode_spec(s: Seq<char>) -> Option<Seq<u8>>;

/// Relies on base64's standard-alphabet engine: whether a string decodes,
/// and the decoded bytes, depend on the string alone.
#[verifier::external_body]
pub(crate) fn b64_decode(s: &str) -> (r: Option<Vec<u8>>)
    ensures
        match r {
            Some(v) => base64_decode_spec(s@) == Some(v@),
            None => base64_decode_spec(s@) is None,
        },
{
    match base64::engine::general_purpose::STANDARD.decode(s) {
        Ok(v) => Some(v),
        Err(_) => None,
    }
}

} // verus!
