//! Application-level failures of the admission pipeline.
//!
//! Every failure a tool invocation can produce is one variant here; the
//! dispatcher reports it to the caller as a single opaque message string, so
//! no internal cause ever leaks past this enum.

use vstd::prelude::*;

verus! {

/// A terminal failure of one tool invocation.
#[derive(Clone, Copy, Debug, PartialEq, Eq, Structural)]
pub enum QrError {
    /// Generator content exceeds the content-length ceiling.
    ContentTooLong,
    /// The optical-code encoder collaborator failed (opaque).
    QrCreationFailed,
    /// Serializing the rendered image to PNG failed (opaque).
    ImageEncodingFailed,
    /// Upload transport failure, or a returned reference that is not a
    /// secure URL under the expected storage host (collapsed, opaque).
    UploadFailed,
    /// Inline encoded payload exceeds the inline-size ceiling.
    Base64TooLarge,
    /// Inline payload is not valid base64.
    Base64DecodeFailed,
    /// Admitted bytes could not be decoded as an image.
    ImageLoadFailed,
    /// Decoded pixel dimensions exceed the maximum dimension.
    ImageTooLarge,
    /// No candidate optical code in the image decoded successfully.
    NoQrCodeFound,
    /// The input could not be parsed as a URL.
    InvalidUrl,
    /// The parsed URL does not use the secure scheme.
    HttpsRequired,
    /// The parsed URL carries no host.
    InvalidDomain,
    /// The host is neither an allow-listed domain nor a subdomain of one.
    DomainNotAllowed,
    /// The URL path does not end in a recognized image extension.
    MustBeImageFile,
    /// Actual byte count exceeds the file-size ceiling.
    InvalidFileSize,
    /// The fetch collaborator could not be constructed.
    HttpClientError,
    /// The fetch request failed in transport.
    DownloadFailed,
    /// The fetch returned a non-success status.
    HttpError,
    /// The fetch returned a content-type that is not an image media type.
    NotAnImage,
    /// The declared content length exceeds the file-size ceiling.
    TooLarge,
    /// Reading the fetched body failed.
    ReadFailed,
    /// The generator was invoked without a string `content` argument.
    MissingContent,
    /// The decoder was invoked without a string `image_data` argument.
    MissingImageData,
}

impl QrError {
    /// The caller-visible message for this failure.
    pub open spec fn message_spec(self) -> Seq<char> {
        match self {
            QrError::ContentTooLong => "Content too long"@,
            QrError::QrCreationFailed => "QR creation failed"@,
            QrError::ImageEncodingFailed => "Image encoding failed"@,
            QrError::UploadFailed => "Upload failed"@,
            QrError::Base64TooLarge => "Base64 too large"@,
            QrError::Base64DecodeFailed => "Base64 decode failed"@,
            QrError::ImageLoadFailed => "Image load failed"@,
            QrError::ImageTooLarge => "Image too large"@,
            QrError::NoQrCodeFound => "No QR code found"@,
            QrError::InvalidUrl => "Invalid URL"@,
            QrError::HttpsRequired => "HTTPS required"@,
            QrError::InvalidDomain => "Invalid domain"@,
            QrError::DomainNotAllowed => "Domain not allowed"@,
            QrError::MustBeImageFile => "Must be image file"@,
            QrError::InvalidFileSize => "Invalid file size"@,
            QrError::HttpClientError => "HTTP client error"@,
            QrError::DownloadFailed => "Download failed"@,
            QrError::HttpError => "HTTP error"@,
            QrError::NotAnImage => "Not an image"@,
            QrError::TooLarge => "Too large"@,
            QrError::ReadFailed => "Read failed"@,
            QrError::MissingContent => "Missing required parameter: content"@,
            QrError::MissingImageData => "Missing required parameter: image_data"@,
        }
    }

    /// Render the caller-visible message.
    pub fn message(&self) -> (r: String)
        ensures
            r@ == self.message_spec(),
    {
        match self {
            QrError::ContentTooLong => String::from_str("Content too long"),
            QrError::QrCreationFailed => String::from_str("QR creation failed"),
            QrError::ImageEncodingFailed => String::from_str("Image encoding failed"),
            QrError::UploadFailed => String::from_str("Upload failed"),
            QrError::Base64TooLarge => String::from_str("Base64 too large"),
            QrError::Base64DecodeFailed => String::from_str("Base64 decode failed"),
            QrError::ImageLoadFailed => String::from_str("Image load failed"),
            QrError::ImageTooLarge => String::from_str("Image too large"),
            QrError::NoQrCodeFound => String::from_str("No QR code found"),
            QrError::InvalidUrl => String::from_str("Invalid URL"),
            QrError::HttpsRequired => String::from_str("HTTPS required"),
            QrError::InvalidDomain => String::from_str("Invalid domain"),
            QrError::DomainNotAllowed => String::from_str("Domain not allowed"),
            QrError::MustBeImageFile => String::from_str("Must be image file"),
            QrError::InvalidFileSize => String::from_str("Invalid file size"),
            QrError::HttpClientError => String::from_str("HTTP client error"),
            QrError::DownloadFailed => String::from_str("Download failed"),
            QrError::HttpError => String::from_str("HTTP error"),
            QrError::NotAnImage => String::from_str("Not an image"),
            QrError::TooLarge => String::from_str("Too large"),
            QrError::ReadFailed => String::from_str("Read failed"),
            QrError::MissingContent => String::from_str("Missing required parameter: content"),
            QrError::MissingImageData => String::from_str("Missing required parameter: image_data"),
        }
    }
}

} // verus!
