//! Fixed configuration ceilings and timeouts for the admission pipeline.

use vstd::prelude::*;

verus! {

/// Minimum rendered dimension, in pixels, of a generated QR code image.
pub const DEFAULT_QR_SIZE: u32 = 100;

/// Ceiling on the byte length of text content accepted by the generator.
pub const MAX_CONTENT_LENGTH: usize = 2048;

/// Ceiling on the byte length of any image admitted to a codec, and on the
/// byte length of an image handed to the upload collaborator.
pub const MAX_FILE_SIZE: usize = 5 * 1024 * 1024;

/// Ceiling on either pixel dimension of a decoded image.
pub const MAX_IMAGE_DIMENSION: u32 = 2048;

/// Timeout, in seconds, for a remote image fetch.
pub const DOWNLOAD_TIMEOUT_SECS: u64 = 10;

/// Timeout, in seconds, for an image upload.
pub const UPLOAD_TIMEOUT_SECS: u64 = 30;

/// Ceiling on the byte length of an inline encoded payload, checked before
/// any decoding is attempted.
pub const MAX_BASE64_SIZE: usize = 10 * 1024 * 1024;

} // verus!
