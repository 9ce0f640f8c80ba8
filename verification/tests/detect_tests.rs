use error_example::{detect, ErrorKind, IoFailure};

#[test]
fn detect_unknown_selector_renders_other() {
    for selector in [4, 5, -1, 100, i32::MAX, i32::MIN] {
        let e = detect(selector, None).unwrap_err();
        assert_eq!(e.message(), "Unknown error: something else");
        assert!(matches!(e.kind(), ErrorKind::Other(_)));
    }
}

#[test]
fn detect_one_is_value_error() {
    let e = detect(1, None).unwrap_err();
    assert_eq!(e.message(), "data missing: failed to get keyword");
    match e.into_kind() {
        ErrorKind::ValueError(m) => assert_eq!(m, "failed to get keyword"),
        _ => panic!("expected ValueError"),
    }
}

#[test]
fn detect_two_is_format_error() {
    let e = detect(2, None).unwrap_err();
    assert_eq!(e.message(), "Wrong format!");
    assert!(matches!(e.kind(), ErrorKind::FormatError));
}

#[test]
fn detect_three_is_decode_error_at_position_one() {
    let e = detect(3, None).unwrap_err();
    match e.kind() {
        ErrorKind::DecodeError(f) => assert_eq!(f.valid_up_to, 1),
        _ => panic!("expected DecodeError"),
    }
    assert_eq!(e.cause_message(), Some(String::from("invalid utf-8 sequence from index 1")));
}

#[test]
fn detect_zero_wraps_probe_failure_as_io() {
    let probe = IoFailure::new(true, String::from("No such file or directory (os error 2)"));
    let e = detect(0, Some(probe)).unwrap_err();
    match e.kind() {
        ErrorKind::Io(f) => {
            assert!(f.not_found);
            assert_eq!(f.message, "No such file or directory (os error 2)");
        }
        _ => panic!("expected Io"),
    }
    assert_eq!(e.message(), "No such file or directory (os error 2)");
}

#[test]
fn detect_zero_succeeds_when_probe_succeeds() {
    assert!(matches!(detect(0, None), Ok(0)));
}
