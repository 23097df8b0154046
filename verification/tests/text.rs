use aw_bridge::greeting::rust_greeting;
use aw_bridge::text::{decode_text, decode_text_strict, encode_text, DecodeError};

#[test]
fn strict_decode_reads_plain_text() {
    assert_eq!(decode_text_strict(b"bucket-1"), Ok("bucket-1".to_string()));
}

#[test]
fn strict_decode_reads_empty_text() {
    assert_eq!(decode_text_strict(b""), Ok(String::new()));
}

#[test]
fn strict_decode_reads_text_of_every_width() {
    let text = "a\u{e9}\u{20ac}\u{1f600}";
    assert_eq!(decode_text_strict(text.as_bytes()), Ok(text.to_string()));
}

#[test]
fn strict_decode_refuses_a_stray_byte() {
    assert_eq!(decode_text_strict(&[0x61, 0xff, 0x62]), Err(DecodeError));
}

#[test]
fn strict_decode_refuses_a_cut_sequence() {
    assert_eq!(decode_text_strict(&[0xe2, 0x82]), Err(DecodeError));
}

#[test]
fn strict_decode_refuses_an_overlong_zero() {
    assert_eq!(decode_text_strict(&[0xc0, 0x80]), Err(DecodeError));
}

#[test]
fn strict_decode_refuses_an_encoded_surrogate() {
    assert_eq!(decode_text_strict(&[0xed, 0xa0, 0x80]), Err(DecodeError));
}

#[test]
fn lenient_decode_keeps_valid_text() {
    assert_eq!(decode_text(b"world"), "world");
    assert_eq!(decode_text("\u{4e16}\u{754c}".as_bytes()), "\u{4e16}\u{754c}");
}

#[test]
fn lenient_decode_keeps_empty_text() {
    assert_eq!(decode_text(b""), "");
}

#[test]
fn lenient_decode_falls_back_to_the_placeholder() {
    assert_eq!(decode_text(&[0xff]), "there");
    assert_eq!(decode_text(&[0x68, 0x69, 0x80]), "there");
}

#[test]
fn encode_gives_the_bytes_of_the_text() {
    assert_eq!(encode_text("abc".to_string()), vec![0x61, 0x62, 0x63]);
    assert_eq!(encode_text("\u{e9}".to_string()), vec![0xc3, 0xa9]);
    assert_eq!(encode_text(String::new()), Vec::<u8>::new());
}

#[test]
fn encode_then_strict_decode_gives_the_text_back() {
    for text in ["", "plain", "tab\tand\nnewline", "\u{e9}\u{20ac}\u{1f600}", "nul\0inside"] {
        let raw = encode_text(text.to_string());
        assert_eq!(decode_text_strict(&raw), Ok(text.to_string()));
    }
}

#[test]
fn strict_decode_then_encode_gives_the_bytes_back() {
    let raw: Vec<u8> = vec![0x7b, 0x22, 0x69, 0x64, 0x22, 0x3a, 0x22, 0xc3, 0xa9, 0x22, 0x7d];
    let text = decode_text_strict(&raw).unwrap();
    assert_eq!(encode_text(text), raw);
}

#[test]
fn greeting_names_the_recipient() {
    assert_eq!(rust_greeting(b"world"), b"Hello world (from Rust!)".to_vec());
}

#[test]
fn greeting_of_nobody() {
    assert_eq!(rust_greeting(b""), b"Hello  (from Rust!)".to_vec());
}

#[test]
fn greeting_of_unreadable_recipient_uses_the_placeholder() {
    assert_eq!(rust_greeting(&[0xc3, 0x28]), b"Hello there (from Rust!)".to_vec());
}

#[test]
fn greeting_keeps_wide_characters() {
    let name = "Zo\u{eb}";
    let expected = format!("Hello {} (from Rust!)", name);
    assert_eq!(rust_greeting(name.as_bytes()), expected.into_bytes());
}

#[test]
fn greeting_without_zero_byte_in_has_none_out() {
    for name in [&b"world"[..], &b""[..], &[0xff, 0xfe][..], "\u{1f600}".as_bytes()] {
        assert!(!name.contains(&0));
        assert!(!rust_greeting(name).contains(&0));
    }
}
