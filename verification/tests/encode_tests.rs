use base64::Engine;
use neo_core::encode::{encode_icon, make_data_url};
use neo_core::icon::IconError;

#[test]
fn data_url_has_the_png_prefix() {
    let png = vec![0x89u8, b'P', b'N', b'G', 0x0d, 0x0a, 0x1a, 0x0a, 1, 2, 3];
    let url = make_data_url(&png);
    assert!(url.starts_with("data:image/png;base64,"));
    assert!(url.len() > "data:image/png;base64,".len());
}

#[test]
fn payload_is_real_base64_of_the_bytes() {
    let png = vec![0u8, 1, 2, 250, 251, 252, 90];
    let url = make_data_url(&png);
    let payload = url.strip_prefix("data:image/png;base64,").unwrap();
    // The payload is an encoding, not the bytes handed back unchanged,
    // and decoding it restores them exactly.
    assert_eq!(payload, "AAEC+vv8Wg==");
    let decoded = base64::engine::general_purpose::STANDARD
        .decode(payload)
        .unwrap();
    assert_eq!(decoded, png);
}

#[test]
fn empty_image_encodes_to_the_bare_prefix() {
    let url = make_data_url(&Vec::new());
    assert_eq!(url, "data:image/png;base64,");
}

#[test]
fn successful_read_back_is_encoded() {
    let png = vec![7u8; 300];
    let url = encode_icon(Some(png.clone())).unwrap();
    let payload = url.strip_prefix("data:image/png;base64,").unwrap();
    let decoded = base64::engine::general_purpose::STANDARD
        .decode(payload)
        .unwrap();
    assert_eq!(decoded, png);
}

#[test]
fn failed_read_back_is_a_conversion_failure() {
    let e = encode_icon(None).unwrap_err();
    assert_eq!(
        e,
        IconError::ConversionFailed {
            detail: String::from("converted icon could not be read back")
        }
    );
}
