use civicconnect::hexcode::{hex_decode, u128_hex};

#[test]
fn test_hex_decode_exact() {
    assert_eq!(hex_decode(b"00ff10"), Some(vec![0x00, 0xff, 0x10]));
    assert_eq!(hex_decode(b""), Some(vec![]));
    // Uppercase digits are accepted.
    assert_eq!(hex_decode(b"AB"), Some(vec![0xab]));
}

#[test]
fn test_hex_decode_rejects_malformed() {
    // Odd length.
    assert_eq!(hex_decode(b"abc"), None);
    // Non-hex bytes.
    assert_eq!(hex_decode(b"zz"), None);
    assert_eq!(hex_decode(b"0g"), None);
}

#[test]
fn test_u128_hex_fixed_width() {
    assert_eq!(u128_hex(0), vec![b'0'; 32]);
    let rendered = u128_hex(0x0123456789abcdef_0123456789abcdefu128);
    assert_eq!(rendered, b"0123456789abcdef0123456789abcdef".to_vec());
    assert_eq!(u128_hex(u128::MAX), vec![b'f'; 32]);
}
