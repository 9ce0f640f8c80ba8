use error_example::{usize_to_decimal, validate_utf8};

#[test]
fn validate_empty_is_valid() {
    assert_eq!(validate_utf8(&vec![]), Ok(0));
}

#[test]
fn validate_ascii_is_valid() {
    assert_eq!(validate_utf8(&b"hello".to_vec()), Ok(5));
}

#[test]
fn validate_sparkle_heart_is_valid() {
    // the well-formed four-byte encoding of U+1F496
    assert_eq!(validate_utf8(&vec![240, 159, 146, 150]), Ok(4));
}

#[test]
fn validate_probe_bytes_fails_at_one() {
    let f = validate_utf8(&vec![0, 159, 146, 150]).unwrap_err();
    assert_eq!(f.valid_up_to, 1);
}

#[test]
fn validate_lone_continuation_fails_at_zero() {
    assert_eq!(validate_utf8(&vec![0x80]).unwrap_err().valid_up_to, 0);
}

#[test]
fn validate_truncated_sequence_fails() {
    // the first two bytes of the three-byte encoding of U+20AC
    assert_eq!(validate_utf8(&vec![0xE2, 0x82]).unwrap_err().valid_up_to, 0);
    // complete, it is valid
    assert_eq!(validate_utf8(&vec![0xE2, 0x82, 0xAC]), Ok(3));
}

#[test]
fn validate_overlong_encoding_fails() {
    // two-byte encoding of U+0000 is overlong
    assert_eq!(validate_utf8(&vec![0xC0, 0x80]).unwrap_err().valid_up_to, 0);
    // 0xC2 0x80 encodes U+0080, the smallest legitimate two-byte scalar
    assert_eq!(validate_utf8(&vec![0xC2, 0x80]), Ok(2));
}

#[test]
fn validate_surrogate_fails() {
    // 0xED 0xA0 0x80 would encode U+D800, a surrogate
    assert_eq!(validate_utf8(&vec![0xED, 0xA0, 0x80]).unwrap_err().valid_up_to, 0);
    // 0xED 0x9F 0xBF encodes U+D7FF, just below the surrogate range
    assert_eq!(validate_utf8(&vec![0xED, 0x9F, 0xBF]), Ok(3));
}

#[test]
fn validate_beyond_max_codepoint_fails() {
    // 0xF4 0x8F 0xBF 0xBF encodes U+10FFFF, the largest scalar
    assert_eq!(validate_utf8(&vec![0xF4, 0x8F, 0xBF, 0xBF]), Ok(4));
    // one past it is invalid
    assert_eq!(validate_utf8(&vec![0xF4, 0x90, 0x80, 0x80]).unwrap_err().valid_up_to, 0);
}

#[test]
fn validate_reports_longest_valid_prefix() {
    let f = validate_utf8(&vec![b'a', b'b', 0xFF, b'c']).unwrap_err();
    assert_eq!(f.valid_up_to, 2);
    let g = validate_utf8(&vec![0xC3, 0xA9, 0xE2, 0x82]).unwrap_err();
    assert_eq!(g.valid_up_to, 2);
}

#[test]
fn validate_agrees_with_std() {
    let cases: Vec<Vec<u8>> = vec![
        vec![],
        b"hello".to_vec(),
        vec![0, 159, 146, 150],
        vec![240, 159, 146, 150],
        vec![0xC0, 0x80],
        vec![0xED, 0xA0, 0x80],
        vec![0xF4, 0x90, 0x80, 0x80],
        vec![b'a', b'b', 0xFF, b'c'],
        vec![0xE2, 0x82],
    ];
    for bytes in cases {
        match (validate_utf8(&bytes), std::str::from_utf8(&bytes)) {
            (Ok(n), Ok(s)) => assert_eq!(n, s.len()),
            (Err(f), Err(e)) => assert_eq!(f.valid_up_to, e.valid_up_to()),
            (mine, std_res) => {
                panic!("disagreement on {:?}: {:?} vs {:?}", bytes, mine, std_res)
            }
        }
    }
}

#[test]
fn decimal_exact_values() {
    assert_eq!(usize_to_decimal(0), "0");
    assert_eq!(usize_to_decimal(7), "7");
    assert_eq!(usize_to_decimal(10), "10");
    assert_eq!(usize_to_decimal(12345), "12345");
    assert_eq!(usize_to_decimal(usize::MAX), format!("{}", usize::MAX));
}
