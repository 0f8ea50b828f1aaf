use suwayomi_source::api::graphql::auth_header;
use suwayomi_source::base64::base64_encode;

#[test]
fn base64_encodes_standard_vectors() {
    assert_eq!(base64_encode(b""), "");
    assert_eq!(base64_encode(b"f"), "Zg==");
    assert_eq!(base64_encode(b"fo"), "Zm8=");
    assert_eq!(base64_encode(b"foo"), "Zm9v");
    assert_eq!(base64_encode(b"foob"), "Zm9vYg==");
    assert_eq!(base64_encode(b"fooba"), "Zm9vYmE=");
    assert_eq!(base64_encode(b"foobar"), "Zm9vYmFy");
}

#[test]
fn base64_uses_plus_and_slash() {
    assert_eq!(base64_encode(&[0xfb, 0xff, 0xbf]), "+/+/");
    assert_eq!(base64_encode(&[0x00, 0x00, 0x00]), "AAAA");
    assert_eq!(base64_encode(&[0xff]), "/w==");
}

#[test]
fn base64_length_is_four_per_started_triple() {
    for n in 0..20usize {
        let bytes: Vec<u8> = (0..n).map(|i| (i * 37) as u8).collect();
        assert_eq!(base64_encode(&bytes).len(), 4 * ((n + 2) / 3));
    }
}

#[test]
fn base64_splits_after_whole_triples() {
    let a = b"abcdef";
    let b = b"xy";
    let mut ab = a.to_vec();
    ab.extend_from_slice(b);
    assert_eq!(base64_encode(&ab), format!("{}{}", base64_encode(a), base64_encode(b)));
}

#[test]
fn auth_header_with_user_and_password() {
    let h = auth_header(&Some("user".to_string()), &Some("pass".to_string()));
    assert_eq!(h, Some("Basic dXNlcjpwYXNz".to_string()));
}

#[test]
fn auth_header_without_password_uses_empty_password() {
    let h = auth_header(&Some("user".to_string()), &None);
    assert_eq!(h, Some("Basic dXNlcjo=".to_string()));
    let h2 = auth_header(&Some("user".to_string()), &Some(String::new()));
    assert_eq!(h2, h);
}

#[test]
fn auth_header_needs_a_user_name() {
    assert_eq!(auth_header(&None, &Some("pass".to_string())), None);
    assert_eq!(auth_header(&Some(String::new()), &Some("pass".to_string())), None);
}

#[test]
fn auth_header_encodes_utf8_credentials() {
    // "é:ü" is C3 A9 3A C3 BC in UTF-8.
    let h = auth_header(&Some("é".to_string()), &Some("ü".to_string()));
    assert_eq!(h, Some("Basic w6k6w7w=".to_string()));
}
