use rusty_socks::utf8::validate_utf8;

#[test]
fn ascii_is_valid() {
    assert!(validate_utf8(b""));
    assert!(validate_utf8(b"foo.com"));
    assert!(validate_utf8(&[0x00, 0x7F]));
}

#[test]
fn two_byte_sequences() {
    assert!(validate_utf8(&[0xC3, 0xA9]));
    assert!(!validate_utf8(&[0xC3, 0x28]));
    assert!(!validate_utf8(&[0xC3]));
}

#[test]
fn overlong_encodings_are_invalid() {
    assert!(!validate_utf8(&[0xC0, 0x80]));
    assert!(!validate_utf8(&[0xC1, 0xBF]));
    assert!(!validate_utf8(&[0xE0, 0x80, 0x80]));
    assert!(!validate_utf8(&[0xF0, 0x80, 0x80, 0x80]));
}

#[test]
fn three_byte_sequences() {
    assert!(validate_utf8(&[0xE2, 0x82, 0xAC]));
    assert!(validate_utf8(&[0xE0, 0xA0, 0x80]));
    assert!(!validate_utf8(&[0xE2, 0x82]));
    assert!(!validate_utf8(&[0xE2, 0x28, 0xAC]));
}

#[test]
fn surrogates_are_invalid() {
    assert!(validate_utf8(&[0xED, 0x9F, 0xBF]));
    assert!(!validate_utf8(&[0xED, 0xA0, 0x80]));
    assert!(!validate_utf8(&[0xED, 0xBF, 0xBF]));
}

#[test]
fn four_byte_sequences() {
    assert!(validate_utf8(&[0xF0, 0x9F, 0x98, 0x80]));
    assert!(validate_utf8(&[0xF4, 0x8F, 0xBF, 0xBF]));
    assert!(!validate_utf8(&[0xF4, 0x90, 0x80, 0x80]));
    assert!(!validate_utf8(&[0xF5, 0x80, 0x80, 0x80]));
    assert!(!validate_utf8(&[0xF0, 0x9F, 0x98]));
}

#[test]
fn stray_continuation_bytes_are_invalid() {
    assert!(!validate_utf8(&[0x80]));
    assert!(!validate_utf8(&[0xBF, 0x41]));
    assert!(!validate_utf8(&[0x41, 0x80]));
}

#[test]
fn agrees_with_std_on_samples() {
    let samples: Vec<Vec<u8>> = vec![
        b"hello".to_vec(),
        vec![0xC3, 0xA9, 0x41],
        vec![0xE2, 0x82, 0xAC, 0xC3],
        vec![0xF0, 0x9F, 0x98, 0x80, 0x80],
        vec![0xED, 0x9F, 0xBF, 0xED, 0xA0, 0x80],
        vec![0xFF],
        vec![0xC2, 0x80],
        vec![0x7F, 0xDF, 0xBF],
    ];
    for sample in samples {
        assert_eq!(
            validate_utf8(&sample),
            std::str::from_utf8(&sample).is_ok(),
            "disagreement on {:?}",
            sample
        );
    }
}
