use qrmax::errors::QrError;
use qrmax::pipeline::{admit_body, admit_response_headers, decode_admit, generate_finish, DecodeAction};
use qrmax::strings::{
    contains_str, ends_with_str, parse_usize, starts_with_str, str_eq, strip_data_url_prefix,
    upgrade_scheme,
};

#[test]
fn strip_prefix_with_comma() {
    assert_eq!(strip_data_url_prefix("data:image/png;base64,QUJD"), "QUJD");
}

#[test]
fn strip_prefix_without_comma() {
    assert_eq!(strip_data_url_prefix("QUJDRA=="), "QUJDRA==");
}

#[test]
fn strip_prefix_keeps_later_commas() {
    assert_eq!(strip_data_url_prefix("a,b,c"), "b,c");
}

#[test]
fn upgrade_rewrites_insecure_prefix() {
    assert_eq!(upgrade_scheme("http://example.com"), "https://example.com");
}

#[test]
fn upgrade_leaves_secure_unchanged() {
    assert_eq!(upgrade_scheme("https://example.com"), "https://example.com");
}

#[test]
fn upgrade_leaves_plain_text_unchanged() {
    assert_eq!(upgrade_scheme("see http://a"), "see http://a");
}

#[test]
fn upgrade_rewrites_every_occurrence() {
    assert_eq!(
        upgrade_scheme("http://a and http://b"),
        "https://a and https://b"
    );
}

#[test]
fn parse_usize_plain() {
    assert_eq!(parse_usize("123"), Some(123));
    assert_eq!(parse_usize("0"), Some(0));
}

#[test]
fn parse_usize_plus_sign() {
    assert_eq!(parse_usize("+10"), Some(10));
}

#[test]
fn parse_usize_rejects_malformed() {
    assert_eq!(parse_usize(""), None);
    assert_eq!(parse_usize("+"), None);
    assert_eq!(parse_usize("12a"), None);
    assert_eq!(parse_usize("-5"), None);
    assert_eq!(parse_usize(" 5"), None);
}

#[test]
fn parse_usize_rejects_overflow() {
    assert_eq!(parse_usize("99999999999999999999999999"), None);
}

#[test]
fn string_helpers() {
    assert!(starts_with_str("image/png", "image/"));
    assert!(!starts_with_str("text/html", "image/"));
    assert!(ends_with_str("photo.PNG", ".PNG"));
    assert!(!ends_with_str("photo.txt", ".png"));
    assert!(contains_str("https://files.catbox.moe/a", "catbox.moe"));
    assert!(!contains_str("https://example.com/a", "catbox.moe"));
    assert!(str_eq("https", "https"));
    assert!(!str_eq("https", "http"));
}

#[test]
fn decode_admit_allows_listed_host() {
    match decode_admit("https://files.catbox.moe/xyz.png") {
        Ok(DecodeAction::Fetch(u)) => assert_eq!(u, "https://files.catbox.moe/xyz.png"),
        _ => panic!("expected a fetch action"),
    }
}

#[test]
fn decode_admit_upgrades_insecure_url() {
    match decode_admit("http://files.catbox.moe/xyz.png") {
        Ok(DecodeAction::Fetch(u)) => assert_eq!(u, "https://files.catbox.moe/xyz.png"),
        _ => panic!("expected a fetch action"),
    }
}

#[test]
fn decode_admit_allows_subdomain() {
    match decode_admit("https://sub.files.catbox.moe/xyz.png") {
        Ok(DecodeAction::Fetch(_)) => {}
        _ => panic!("expected a fetch action"),
    }
}

#[test]
fn decode_admit_rejects_lookalike_prefix_host() {
    assert_eq!(
        decode_admit("https://evilcatbox.moe/x.png").unwrap_err(),
        QrError::DomainNotAllowed
    );
}

#[test]
fn decode_admit_rejects_lookalike_suffix_host() {
    assert_eq!(
        decode_admit("https://catbox.moe.evil.com/x.png").unwrap_err(),
        QrError::DomainNotAllowed
    );
}

#[test]
fn decode_admit_rejects_non_secure_scheme() {
    assert_eq!(
        decode_admit("httpx://files.catbox.moe/x.png").unwrap_err(),
        QrError::HttpsRequired
    );
}

#[test]
fn decode_admit_rejects_non_image_path() {
    assert_eq!(
        decode_admit("https://files.catbox.moe/xyz.txt").unwrap_err(),
        QrError::MustBeImageFile
    );
}

#[test]
fn decode_admit_accepts_uppercase_extension() {
    match decode_admit("https://files.catbox.moe/XYZ.PNG") {
        Ok(DecodeAction::Fetch(_)) => {}
        _ => panic!("expected a fetch action"),
    }
}

#[test]
fn decode_admit_rejects_unparseable_url() {
    assert_eq!(decode_admit("http://").unwrap_err(), QrError::InvalidUrl);
}

#[test]
fn decode_admit_rejects_oversized_inline() {
    let huge = "a".repeat(10 * 1024 * 1024 + 1);
    assert_eq!(decode_admit(&huge).unwrap_err(), QrError::Base64TooLarge);
}

#[test]
fn decode_admit_rejects_malformed_base64() {
    assert_eq!(
        decode_admit("!!!not base64!!!").unwrap_err(),
        QrError::Base64DecodeFailed
    );
}

#[test]
fn headers_reject_failed_status() {
    assert_eq!(
        admit_response_headers(false, None, None).unwrap_err(),
        QrError::HttpError
    );
}

#[test]
fn headers_reject_non_image_content_type() {
    assert_eq!(
        admit_response_headers(true, Some("text/html"), None).unwrap_err(),
        QrError::NotAnImage
    );
}

#[test]
fn headers_reject_declared_oversize() {
    assert_eq!(
        admit_response_headers(true, Some("image/png"), Some("5242881")).unwrap_err(),
        QrError::TooLarge
    );
}

#[test]
fn headers_accept_declared_limit() {
    assert!(admit_response_headers(true, Some("image/png"), Some("5242880")).is_ok());
}

#[test]
fn headers_ignore_unparseable_length() {
    assert!(admit_response_headers(true, Some("image/png"), Some("abc")).is_ok());
}

#[test]
fn headers_accept_absent_headers() {
    assert!(admit_response_headers(true, None, None).is_ok());
}

#[test]
fn body_recheck_is_authoritative() {
    assert!(admit_body(vec![0u8; 5 * 1024 * 1024]).is_ok());
    assert_eq!(
        admit_body(vec![0u8; 5 * 1024 * 1024 + 1]).unwrap_err(),
        QrError::InvalidFileSize
    );
}

#[test]
fn upload_answer_accepted() {
    let r = generate_finish(Some("https://files.catbox.moe/xyz.png")).unwrap();
    assert_eq!(r, "https://files.catbox.moe/xyz.png");
}

#[test]
fn upload_answer_trimmed() {
    let r = generate_finish(Some(" https://files.catbox.moe/x.png\n")).unwrap();
    assert_eq!(r, "https://files.catbox.moe/x.png");
}

#[test]
fn upload_answer_insecure_rejected() {
    assert_eq!(
        generate_finish(Some("http://files.catbox.moe/x.png")).unwrap_err(),
        QrError::UploadFailed
    );
}

#[test]
fn upload_answer_wrong_host_rejected() {
    assert_eq!(
        generate_finish(Some("https://example.com/x.png")).unwrap_err(),
        QrError::UploadFailed
    );
}

#[test]
fn upload_transport_failure_rejected() {
    assert_eq!(generate_finish(None).unwrap_err(), QrError::UploadFailed);
}

#[test]
fn error_messages() {
    assert_eq!(QrError::ContentTooLong.message(), "Content too long");
    assert_eq!(QrError::DomainNotAllowed.message(), "Domain not allowed");
    assert_eq!(QrError::NoQrCodeFound.message(), "No QR code found");
    assert_eq!(QrError::UploadFailed.message(), "Upload failed");
    assert_eq!(
        QrError::MissingContent.message(),
        "Missing required parameter: content"
    );
    assert_eq!(
        QrError::MissingImageData.message(),
        "Missing required parameter: image_data"
    );
}
