use base64::Engine;
use qrmax::errors::QrError;
use qrmax::pipeline::{decode_admit, decode_qr_from_bytes, generate_prepare, DecodeAction};

fn png_of(width: u32, height: u32) -> Vec<u8> {
    let img = image::ImageBuffer::from_pixel(width, height, image::Luma([255u8]));
    let mut out: Vec<u8> = Vec::new();
    img.write_to(&mut std::io::Cursor::new(&mut out), image::ImageFormat::Png)
        .unwrap();
    out
}

#[test]
fn generate_produces_png() {
    let png = generate_prepare("hello").unwrap();
    assert!(png.len() > 8);
    assert_eq!(&png[0..4], &[137u8, 80, 78, 71]);
}

#[test]
fn generate_rejects_long_content() {
    let long = "a".repeat(2049);
    assert_eq!(generate_prepare(&long).unwrap_err(), QrError::ContentTooLong);
}

#[test]
fn generate_accepts_content_at_ceiling() {
    let content = "a".repeat(2048);
    assert!(generate_prepare(&content).is_ok());
}

#[test]
fn roundtrip_plain_text() {
    let png = generate_prepare("hello world").unwrap();
    assert_eq!(decode_qr_from_bytes(&png).unwrap(), "hello world");
}

#[test]
fn roundtrip_unicode_text() {
    let png = generate_prepare("grüße & 日本語").unwrap();
    assert_eq!(decode_qr_from_bytes(&png).unwrap(), "grüße & 日本語");
}

#[test]
fn roundtrip_upgrades_insecure_content() {
    let png = generate_prepare("http://example.com/page").unwrap();
    assert_eq!(decode_qr_from_bytes(&png).unwrap(), "https://example.com/page");
}

#[test]
fn roundtrip_through_inline_base64() {
    let png = generate_prepare("inline trip").unwrap();
    let encoded = base64::engine::general_purpose::STANDARD.encode(&png);
    match decode_admit(&encoded).unwrap() {
        DecodeAction::Ready(bytes) => {
            assert_eq!(decode_qr_from_bytes(&bytes).unwrap(), "inline trip");
        }
        _ => panic!("expected an inline payload"),
    }
}

#[test]
fn roundtrip_through_data_uri() {
    let png = generate_prepare("data uri trip").unwrap();
    let encoded = base64::engine::general_purpose::STANDARD.encode(&png);
    let with_prefix = format!("data:image/png;base64,{}", encoded);
    match decode_admit(&with_prefix).unwrap() {
        DecodeAction::Ready(bytes) => {
            assert_eq!(decode_qr_from_bytes(&bytes).unwrap(), "data uri trip");
        }
        _ => panic!("expected an inline payload"),
    }
}

#[test]
fn decode_rejects_oversized_decoded_payload() {
    let encoded = base64::engine::general_purpose::STANDARD.encode(vec![0u8; 5 * 1024 * 1024 + 3]);
    assert_eq!(decode_admit(&encoded).unwrap_err(), QrError::InvalidFileSize);
}

#[test]
fn decode_rejects_non_image_bytes() {
    let bytes = b"this is not an image at all".to_vec();
    assert_eq!(
        decode_qr_from_bytes(&bytes).unwrap_err(),
        QrError::ImageLoadFailed
    );
}

#[test]
fn decode_rejects_huge_dimensions() {
    let png = png_of(2049, 1);
    assert!(png.len() < 5000);
    assert_eq!(decode_qr_from_bytes(&png).unwrap_err(), QrError::ImageTooLarge);
}

#[test]
fn decode_accepts_dimensions_at_ceiling() {
    let png = png_of(2048, 1);
    assert_eq!(decode_qr_from_bytes(&png).unwrap_err(), QrError::NoQrCodeFound);
}

#[test]
fn decode_reports_no_code_in_blank_image() {
    let png = png_of(200, 200);
    assert_eq!(decode_qr_from_bytes(&png).unwrap_err(), QrError::NoQrCodeFound);
}
