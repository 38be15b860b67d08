use base64::engine::general_purpose::STANDARD;
use base64::Engine;
use hdr_upload::{check_decoded, validate_upload, Rejection};

fn jpeg(len: usize) -> Vec<u8> {
    let mut bytes = vec![0xFF, 0xD8, 0xFF, 0xE0];
    let mut next: u8 = 1;
    while bytes.len() < len {
        bytes.push(next);
        next = next.wrapping_mul(31).wrapping_add(7);
    }
    bytes.truncate(len);
    bytes
}

#[test]
fn absent_image_is_rejected() {
    let verdict = validate_upload(None);
    assert!(matches!(verdict, Err(Rejection::NoImage)));
    assert_eq!(verdict.unwrap_err().message(), "No image data provided");
}

#[test]
fn empty_image_is_rejected() {
    let verdict = validate_upload(Some(""));
    assert!(matches!(verdict, Err(Rejection::NoImage)));
}

#[test]
fn text_that_is_not_base64_is_rejected_with_the_decoder_detail() {
    let text = "this is not base64!";
    let detail = STANDARD.decode(text).unwrap_err().to_string();
    match validate_upload(Some(text)) {
        Err(Rejection::Undecodable(kept)) => {
            assert_eq!(kept, detail);
            assert_eq!(
                Rejection::Undecodable(kept).message(),
                format!("Failed to decode image: {detail}")
            );
        }
        other => panic!("not the rejection that was due: {other:?}"),
    }
}

#[test]
fn missing_padding_is_rejected() {
    assert!(matches!(
        validate_upload(Some("/9j/4A")),
        Err(Rejection::Undecodable(_))
    ));
}

#[test]
fn one_byte_image_is_unsupported() {
    let text = STANDARD.encode([0x41u8]);
    let verdict = validate_upload(Some(&text));
    assert!(matches!(verdict, Err(Rejection::UnsupportedFormat)));
    assert_eq!(
        verdict.unwrap_err().message(),
        "Unsupported image format. Please upload JPEG, PNG, or WebP images."
    );
}

#[test]
fn short_jpeg_prefix_is_unsupported() {
    let text = STANDARD.encode(jpeg(11));
    assert!(matches!(
        validate_upload(Some(&text)),
        Err(Rejection::UnsupportedFormat)
    ));
}

#[test]
fn valid_image_passes_through_unchanged() {
    let image = jpeg(300);
    let text = STANDARD.encode(&image);
    assert_ne!(text.as_bytes(), &image[..]);
    assert_eq!(validate_upload(Some(&text)).unwrap(), image);
}

#[test]
fn known_text_decodes_to_known_bytes() {
    let decoded = validate_upload(Some("/9j/AAECAwQFBgcI")).unwrap();
    assert_eq!(decoded, vec![0xFF, 0xD8, 0xFF, 0, 1, 2, 3, 4, 5, 6, 7, 8]);
}

#[test]
fn image_at_the_ceiling_passes() {
    let image = jpeg(10_485_760);
    let text = STANDARD.encode(&image);
    assert_eq!(validate_upload(Some(&text)).unwrap().len(), 10_485_760);
}

#[test]
fn image_above_the_ceiling_is_rejected_with_its_size() {
    let image = jpeg(10_485_761);
    let text = STANDARD.encode(&image);
    let verdict = validate_upload(Some(&text));
    assert!(matches!(verdict, Err(Rejection::TooLarge(10_485_761))));
    assert_eq!(
        verdict.unwrap_err().message(),
        "File too large: 10.0MB. Maximum size is 10MB."
    );
}

#[test]
fn size_is_judged_before_format() {
    let verdict = check_decoded(Ok(vec![0u8; 12_939_428]));
    assert!(matches!(verdict, Err(Rejection::TooLarge(12_939_428))));
    assert_eq!(
        verdict.unwrap_err().message(),
        "File too large: 12.3MB. Maximum size is 10MB."
    );
}

#[test]
fn oversize_message_shows_the_size_in_mebibytes() {
    for size in [10_485_761usize, 11_000_000, 43 * 262_144, 41 * 262_144, 20_000_000] {
        let shown = format!("{:.1}", size as f64 / 1024.0 / 1024.0);
        assert_eq!(
            Rejection::TooLarge(size).message(),
            format!("File too large: {shown}MB. Maximum size is 10MB.")
        );
    }
}

#[test]
fn check_decoded_keeps_the_decoder_detail() {
    let verdict = check_decoded(Err("Invalid padding".to_string()));
    match verdict {
        Err(Rejection::Undecodable(detail)) => assert_eq!(detail, "Invalid padding"),
        other => panic!("not the rejection that was due: {other:?}"),
    }
}

#[test]
fn check_decoded_passes_supported_images() {
    let image = jpeg(12);
    assert_eq!(check_decoded(Ok(image.clone())).unwrap(), image);
    assert!(matches!(
        check_decoded(Ok(vec![1, 2, 3])),
        Err(Rejection::UnsupportedFormat)
    ));
}
