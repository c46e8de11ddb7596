use cloudflare_dns_operator::values::{
    decode_base64_utf8, decode_secret_value, resolve_config_value, resolve_secret_value,
};

#[test]
fn utf8_bytes_resolve_as_is() {
    let bytes = b"hello world".to_vec();
    assert_eq!(decode_secret_value(&bytes).as_deref(), Some("hello world"));
}

#[test]
fn base64_of_utf8_decodes_through_the_fallback() {
    // "aGVsbG8=" is the base64 encoding of "hello"; the fallback step
    // decodes it.  (As raw secret bytes the text is itself valid UTF-8, so
    // the UTF-8-first rule returns it unchanged there.)
    let bytes = b"aGVsbG8=".to_vec();
    assert_eq!(decode_base64_utf8(&bytes).as_deref(), Some("hello"));
    assert_eq!(decode_secret_value(&bytes).as_deref(), Some("aGVsbG8="));
}

#[test]
fn undecodable_bytes_resolve_to_no_value() {
    // Neither valid UTF-8 nor valid base64 text.
    let bytes = vec![0xff, 0xfe, 0x00, 0x80];
    assert!(decode_secret_value(&bytes).is_none());
    assert!(decode_base64_utf8(&bytes).is_none());
}

#[test]
fn base64_of_non_utf8_resolves_to_no_value() {
    // "/w==" decodes to the single byte 0xff, which is not UTF-8.
    let bytes = b"/w==".to_vec();
    assert!(decode_base64_utf8(&bytes).is_none());
}

#[test]
fn config_lookup_finds_key_or_nothing() {
    let data = Some(vec![
        ("zone".to_string(), "example.com".to_string()),
        ("region".to_string(), "eu-central".to_string()),
    ]);
    assert_eq!(
        resolve_config_value(&data, &"zone".to_string()).as_deref(),
        Some("example.com")
    );
    assert!(resolve_config_value(&data, &"missing".to_string()).is_none());
    assert!(resolve_config_value(&None, &"zone".to_string()).is_none());
}

#[test]
fn secret_lookup_prefers_string_data() {
    let string_data = Some(vec![("zone".to_string(), "plain.example.com".to_string())]);
    let data = Some(vec![("zone".to_string(), b"bytes.example.com".to_vec())]);
    assert_eq!(
        resolve_secret_value(&string_data, &data, &"zone".to_string()).as_deref(),
        Some("plain.example.com")
    );
}

#[test]
fn secret_lookup_decodes_byte_data() {
    let data = Some(vec![("zone".to_string(), b"bytes.example.com".to_vec())]);
    assert_eq!(
        resolve_secret_value(&None, &data, &"zone".to_string()).as_deref(),
        Some("bytes.example.com")
    );
    assert!(resolve_secret_value(&None, &data, &"other".to_string()).is_none());
    assert!(resolve_secret_value(&None, &None, &"zone".to_string()).is_none());
}

#[test]
fn secret_lookup_reports_undecodable_bytes_as_absent() {
    let data = Some(vec![("zone".to_string(), vec![0xff, 0xfe])]);
    assert!(resolve_secret_value(&None, &data, &"zone".to_string()).is_none());
}
