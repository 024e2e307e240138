use protobug::b64::decode_any_base64;
use protobug::error::DecodeError;

#[test]
fn decodes_standard_base64() {
    assert_eq!(decode_any_base64("Zm9vYmFy"), Ok(b"foobar".to_vec()));
    assert_eq!(decode_any_base64("CCo="), Ok(vec![0x08, 0x2a]));
}

#[test]
fn decodes_url_safe_no_pad_only_input() {
    // '-' and '_' rule out both standard alphabets, and the length rules
    // out the padded URL-safe variant, so only the last attempt succeeds
    assert_eq!(decode_any_base64("-_8"), Ok(vec![0xfb, 0xff]));
}

#[test]
fn rejects_text_no_variant_accepts() {
    assert_eq!(decode_any_base64("!!!"), Err(DecodeError::NoBase64Variant));
    assert_eq!(
        DecodeError::NoBase64Variant.message(),
        "No base64 variant matches the payload"
    );
}
