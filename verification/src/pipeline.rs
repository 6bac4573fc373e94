//! The admission pipeline: the two end-to-end flows behind the tools.
//!
//! *Generate*: bound the content, upgrade an insecure scheme inside it,
//! render the optical code, serialize it to PNG, and judge the upload
//! collaborator's answer. *Decode*: classify the input as remote reference
//! or inline payload, admit it (URL allow-listing, size ceilings, base64),
//! and only then let the image codec and the optical-code scanner at the
//! bytes. The network transfers themselves happen outside; this module
//! decides what may be sent and what every outcome means.

use vstd::prelude::*;
use vstd::utf8::encode_utf8;
use crate::codec::{
    attempts_view, b64_decode, base64_decode_spec, image_decode_spec, image_load, png_encode,
    png_encode_spec, qr_encode, qr_render_spec, qr_scan, qr_scan_spec, utf8_lossy,
    utf8_lossy_spec,
};
use crate::consts::{MAX_BASE64_SIZE, MAX_CONTENT_LENGTH, MAX_FILE_SIZE, MAX_IMAGE_DIMENSION};
use crate::errors::QrError;
use crate::strings::{
    contains_spec, contains_str, parse_usize, parse_usize_spec, starts_with_spec, starts_with_str,
    strip_data_url_prefix, strip_data_url_prefix_spec, trim_of, trim_str, upgrade_scheme,
    upgrade_scheme_spec,
};
use crate::urlcheck::{validate_url, validate_url_spec};

verus! {

/// Admission of an inline encoded payload: the ceiling on the encoded
/// string is checked before any decoding, then the data-URI prefix is
/// stripped, then the decoded bytes are bounded by the file-size ceiling.
pub open spec fn decode_inline_spec(s: Seq<char>) -> Result<Seq<u8>, QrError> {
    if encode_utf8(s).len() > MAX_BASE64_SIZE {
        Err(QrError::Base64TooLarge)
    } else {
        match base64_decode_spec(strip_data_url_prefix_spec(s)) {
            None => Err(QrError::Base64DecodeFailed),
            Some(b) => if b.len() > MAX_FILE_SIZE {
                Err(QrError::InvalidFileSize)
            } else {
                Ok(b)
            },
        }
    }
}

/// Admit an inline encoded payload, rejecting an oversized encoded string
/// before any decoding is attempted.
pub fn decode_inline_payload(image_data: &str) -> (r: Result<Vec<u8>, QrError>)
    ensures
        match r {
            Ok(v) => decode_inline_spec(image_data@) == Ok::<Seq<u8>, QrError>(v@),
            Err(e) => decode_inline_spec(image_data@) == Err::<Seq<u8>, QrError>(e),
        },
{
    if image_data.as_bytes().len() > MAX_BASE64_SIZE {
        return Err(QrError::Base64TooLarge);
    }
    let stripped = strip_data_url_prefix(image_data);
    let decoded = match b64_decode(stripped) {
        None => {
            return Err(QrError::Base64DecodeFailed);
        },
        Some(v) => v,
    };
    if decoded.len() > MAX_FILE_SIZE {
        return Err(QrError::InvalidFileSize);
    }
    Ok(decoded)
}

/// What an admitted decode input asks of the embedding program: fetch an
/// allow-listed URL, or the admitted bytes are already at hand.
#[derive(Debug)]
pub enum DecodeAction {
    /// A validated secure URL to fetch, with the fetch timeout in force.
    Fetch(String),
    /// An admitted inline payload, already decoded and bounded.
    Ready(Vec<u8>),
}

/// The plain values a `DecodeAction` stands for.
pub enum DecodeActionSpec {
    Fetch(Seq<char>),
    Ready(Seq<u8>),
}

impl View for DecodeAction {
    type V = DecodeActionSpec;

    open spec fn view(&self) -> DecodeActionSpec {
        match self {
            DecodeAction::Fetch(u) => DecodeActionSpec::Fetch(u@),
            DecodeAction::Ready(b) => DecodeActionSpec::Ready(b@),
        }
    }
}

/// Admission of a decode input: the scheme upgrade first, then a string
/// with the recognized scheme prefix is treated as a remote reference and
/// must pass URL validation; anything else is an inline payload.
pub open spec fn decode_admit_spec(s: Seq<char>) -> Result<DecodeActionSpec, QrError> {
    let up = upgrade_scheme_spec(s);
    if starts_with_spec(up, "http"@) {
        match validate_url_spec(up) {
            Err(e) => Err(e),
            Ok(()) => Ok(DecodeActionSpec::Fetch(up)),
        }
    } else {
        match decode_inline_spec(up) {
            Err(e) => Err(e),
            Ok(b) => Ok(DecodeActionSpec::Ready(b)),
        }
    }
}

/// Admit a decode input before any network access or decoding: upgrade an
/// insecure scheme, then validate it as a remote reference or admit it as
/// an inline payload.
pub fn decode_admit(image_data: &str) -> (r: Result<DecodeAction, QrError>)
    ensures
        match r {
            Ok(a) => decode_admit_spec(image_data@) == Ok::<DecodeActionSpec, QrError>(a@),
            Err(e) => decode_admit_spec(image_data@) == Err::<DecodeActionSpec, QrError>(e),
        },
{
    let upgraded = upgrade_scheme(image_data);
    if starts_with_str(upgraded.as_str(), "http") {
        match validate_url(upgraded.as_str()) {
            Err(e) => Err(e),
            Ok(()) => Ok(DecodeAction::Fetch(upgraded)),
        }
    } else {
        match decode_inline_payload(upgraded.as_str()) {
            Err(e) => Err(e),
            Ok(b) => Ok(DecodeAction::Ready(b)),
        }
    }
}

/// Judgment of a fetch response before its body is read: non-success status
/// first, then a content-type that is not an image media type, then a
/// declared length over the file-size ceiling (a caller-controlled header,
/// so only a fast reject; the received bytes are re-checked).
pub open spec fn admit_headers_spec(
    status_success: bool,
    ct: Option<Seq<char>>,
    cl: Option<Seq<char>>,
) -> Result<(), QrError> {
    if !status_success {
        Err(QrError::HttpError)
    } else if match ct {
        Some(c) => !starts_with_spec(c, "image/"@),
        None => false,
    } {
        Err(QrError::NotAnImage)
    } else if match cl {
        Some(l) => match parse_usize_spec(l) {
            Some(v) => v > MAX_FILE_SIZE,
            None => false,
        },
        None => false,
    } {
        Err(QrError::TooLarge)
    } else {
        Ok(())
    }
}

/// Judge a fetch response's status and headers before reading its body.
pub fn admit_response_headers(
    status_success: bool,
    content_type: Option<&str>,
    content_length: Option<&str>,
) -> (r: Result<(), QrError>)
    ensures
        r == admit_headers_spec(
            status_success,
            (match content_type {
                Some(c) => Some(c@),
                None => None,
            }),
            (match content_length {
                Some(l) => Some(l@),
                None => None,
            }),
        ),
{
    if !status_success {
        return Err(QrError::HttpError);
    }
    if let Some(c) = content_type {
        if !starts_with_str(c, "image/") {
            return Err(QrError::NotAnImage);
        }
    }
    if let Some(l) = content_length {
        if let Some(v) = parse_usize(l) {
            if v > MAX_FILE_SIZE {
                return Err(QrError::TooLarge);
            }
        }
    }
    Ok(())
}

/// The authoritative size check on a fetched body: the received byte count
/// is bounded whatever any header declared.
pub open spec fn admit_body_spec(bytes: Seq<u8>) -> Result<Seq<u8>, QrError> {
    if bytes.len() > MAX_FILE_SIZE {
        Err(QrError::InvalidFileSize)
    } else {
        Ok(bytes)
    }
}

/// Admit a fetched body by its actual byte count.
pub fn admit_body(bytes: Vec<u8>) -> (r: Result<Vec<u8>, QrError>)
    ensures
        match r {
            Ok(v) => admit_body_spec(bytes@) == Ok::<Seq<u8>, QrError>(v@),
            Err(e) => admit_body_spec(bytes@) == Err::<Seq<u8>, QrError>(e),
        },
{
    if bytes.len() > MAX_FILE_SIZE {
        return Err(QrError::InvalidFileSize);
    }
    Ok(bytes)
}

/// A transport-level failure of the fetch collaborator.
#[derive(Clone, Copy, Debug, PartialEq, Eq, Structural)]
pub enum FetchFailure {
    /// The fetch client could not be constructed.
    ClientBuild,
    /// The request failed in transport or timed out.
    Send,
    /// Reading the response body failed.
    Read,
}

/// The application error each transport failure is reported as.
pub open spec fn fetch_failure_spec(f: FetchFailure) -> QrError {
    match f {
        FetchFailure::ClientBuild => QrError::HttpClientError,
        FetchFailure::Send => QrError::DownloadFailed,
        FetchFailure::Read => QrError::ReadFailed,
    }
}

/// Report a transport-level fetch failure as its application error.
pub fn fetch_failure_error(f: FetchFailure) -> (r: QrError)
    ensures
        r == fetch_failure_spec(f),
{
    match f {
        FetchFailure::ClientBuild => QrError::HttpClientError,
        FetchFailure::Send => QrError::DownloadFailed,
        FetchFailure::Read => QrError::ReadFailed,
    }
}

/// The first decode attempt that yielded a payload, scanning in order of
/// discovery.
pub open spec fn first_payload(attempts: Seq<Option<Seq<u8>>>) -> Option<Seq<u8>>
    decreases attempts.len(),
{
    if attempts.len() == 0 {
        None
    } else {
        match attempts[0] {
            Some(p) => Some(p),
            None => first_payload(attempts.drop_first()),
        }
    }
}

/// Scanning the first `i` attempts without a payload leaves the outcome to
/// the remaining attempts.
proof fn lemma_first_payload_skip(attempts: Seq<Option<Seq<u8>>>, i: int)
    requires
        0 <= i <= attempts.len(),
        forall|j: int| 0 <= j < i ==> attempts[j] is None,
    ensures
        first_payload(attempts) == first_payload(attempts.subrange(i, attempts.len() as int)),
    decreases i,
{
    if i == 0 {
        assert(attempts.subrange(0, attempts.len() as int) =~= attempts);
    } else {
        let tail = attempts.drop_first();
        lemma_first_payload_skip(tail, i - 1);
        assert(tail.subrange(i - 1, tail.len() as int) =~= attempts.subrange(
            i,
            attempts.len() as int,
        ));
    }
}

/// Decoding admitted bytes: the image codec first, then the pixel-dimension
/// ceiling (a small file can decompress to an enormous grid), and only then
/// the optical-code scan; the first candidate that decodes wins, and its
/// payload is read as text with lossy recovery.
pub open spec fn decode_bytes_spec(bytes: Seq<u8>) -> Result<Seq<char>, QrError> {
    match image_decode_spec(bytes) {
        None => Err(QrError::ImageLoadFailed),
        Some(g) => if g.width > MAX_IMAGE_DIMENSION || g.height > MAX_IMAGE_DIMENSION {
            Err(QrError::ImageTooLarge)
        } else {
            match first_payload(qr_scan_spec(g.width, g.height, g.pixels)) {
                Some(p) => Ok(utf8_lossy_spec(p)),
                None => Err(QrError::NoQrCodeFound),
            }
        },
    }
}

/// Decode the optical code in admitted image bytes: materialize pixels,
/// enforce the dimension ceiling before any scanning, scan, and read the
/// first decodable candidate as text.
pub fn decode_qr_from_bytes(bytes: &Vec<u8>) -> (r: Result<String, QrError>)
    ensures
        match r {
            Ok(text) => decode_bytes_spec(bytes@) == Ok::<Seq<char>, QrError>(text@),
            Err(e) => decode_bytes_spec(bytes@) == Err::<Seq<char>, QrError>(e),
        },
{
    let grid = match image_load(bytes) {
        None => {
            return Err(QrError::ImageLoadFailed);
        },
        Some(g) => g,
    };
    if grid.width > MAX_IMAGE_DIMENSION || grid.height > MAX_IMAGE_DIMENSION {
        return Err(QrError::ImageTooLarge);
    }
    let attempts = qr_scan(&grid);
    let ghost att = qr_scan_spec(grid.width, grid.height, grid.pixels@);
    let n = attempts.len();
    let mut i: usize = 0;
    while i < n
        invariant
            i <= n,
            n == attempts@.len(),
            att == attempts_view(attempts@),
            att == qr_scan_spec(grid@.width, grid@.height, grid@.pixels),
            image_decode_spec(bytes@) == Some(grid@),
            grid@.width <= MAX_IMAGE_DIMENSION,
            grid@.height <= MAX_IMAGE_DIMENSION,
            forall|j: int| 0 <= j < i ==> att[j] is None,
        decreases n - i,
    {
        match &attempts[i] {
            Some(p) => {
                proof {
                    lemma_first_payload_skip(att, i as int);
                    assert(att.subrange(i as int, att.len() as int)[0] == att[i as int]);
                    assert(att[i as int] == Some(p@));
                }
                return Ok(utf8_lossy(p));
            },
            None => {
                proof {
                    assert(att[i as int] is None);
                }
            },
        }
        i += 1;
    }
    proof {
        lemma_first_payload_skip(att, n as int);
        assert(att.subrange(n as int, att.len() as int) =~= Seq::<Option<Seq<u8>>>::empty());
    }
    Err(QrError::NoQrCodeFound)
}

/// The generate flow up to the upload: the content-length ceiling first
/// (before the encoder is ever invoked), then the scheme upgrade inside the
/// text, then the optical-code rendering, then PNG serialization, then the
/// upload collaborator's own size precondition.
pub open spec fn generate_png_spec(content: Seq<char>) -> Result<Seq<u8>, QrError> {
    if encode_utf8(content).len() > MAX_CONTENT_LENGTH {
        Err(QrError::ContentTooLong)
    } else {
        match qr_render_spec(upgrade_scheme_spec(content)) {
            None => Err(QrError::QrCreationFailed),
            Some(g) => match png_encode_spec(g.width, g.height, g.pixels) {
                None => Err(QrError::ImageEncodingFailed),
                Some(png) => if png.len() > MAX_FILE_SIZE {
                    Err(QrError::UploadFailed)
                } else {
                    Ok(png)
                },
            },
        }
    }
}

/// Produce the PNG bytes that the generate flow hands to the upload
/// collaborator, rejecting oversized content before the encoder runs.
pub fn generate_prepare(content: &str) -> (r: Result<Vec<u8>, QrError>)
    ensures
        match r {
            Ok(v) => generate_png_spec(content@) == Ok::<Seq<u8>, QrError>(v@),
            Err(e) => generate_png_spec(content@) == Err::<Seq<u8>, QrError>(e),
        },
{
    if content.as_bytes().len() > MAX_CONTENT_LENGTH {
        return Err(QrError::ContentTooLong);
    }
    let upgraded = upgrade_scheme(content);
    let grid = match qr_encode(upgraded.as_str()) {
        None => {
            return Err(QrError::QrCreationFailed);
        },
        Some(g) => g,
    };
    let png = match png_encode(&grid) {
        None => {
            return Err(QrError::ImageEncodingFailed);
        },
        Some(v) => v,
    };
    if png.len() > MAX_FILE_SIZE {
        return Err(QrError::UploadFailed);
    }
    Ok(png)
}

/// Judgment of the upload collaborator's answer: a transport failure, and a
/// returned reference that is not a secure URL mentioning the storage host,
/// are both collapsed into the one opaque upload failure.
pub open spec fn upload_outcome_spec(body: Option<Seq<char>>) -> Result<Seq<char>, QrError> {
    match body {
        None => Err(QrError::UploadFailed),
        Some(b) => if starts_with_spec(trim_of(b), "https://"@) && contains_spec(
            trim_of(b),
            "catbox.moe"@,
        ) {
            Ok(trim_of(b))
        } else {
            Err(QrError::UploadFailed)
        },
    }
}

/// Judge the upload collaborator's answer (`None` for a transport failure):
/// success yields the trimmed reference, and only a secure URL that mentions
/// the storage host counts as success.
pub fn generate_finish(upload_body: Option<&str>) -> (r: Result<String, QrError>)
    ensures
        r matches Ok(u) ==> upload_outcome_spec(
            match upload_body {
                Some(b) => Some(b@),
                None => None,
            },
        ) == Ok::<Seq<char>, QrError>(u@),
        r matches Err(e) ==> upload_outcome_spec(
            match upload_body {
                Some(b) => Some(b@),
                None => None,
            },
        ) == Err::<Seq<char>, QrError>(e),
        r matches Ok(u) ==> starts_with_spec(u@, "https://"@) && contains_spec(u@, "catbox.moe"@),
{
    let body = match upload_body {
        None => {
            return Err(QrError::UploadFailed);
        },
        Some(b) => b,
    };
    let trimmed = trim_str(body);
    if starts_with_str(trimmed, "https://") && contains_str(trimmed, "catbox.moe") {
        Ok(trimmed.to_owned())
    } else {
        Err(QrError::UploadFailed)
    }
}

} // verus!
