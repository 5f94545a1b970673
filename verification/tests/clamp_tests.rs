use benchbot::clamp::clamp_lines;
use benchbot::clamp::floor_char_boundary;
use benchbot::clamp::is_utf8_char_boundary;

#[test]
fn test_clamp_lines() {
    assert_eq!(clamp_lines(b"foo\nbar\nbaz", 5), b"foo".to_vec());
    assert_eq!(clamp_lines(b"foo\nbar\nbaz", 10), b"foo\nbar".to_vec());
    assert_eq!(clamp_lines(b"foo\nbar\nbaz", 15), b"foo\nbar\nbaz".to_vec());
}

/// Clamping within a line cuts wherever it may, but only at char boundaries.
#[test]
fn test_clamp_inline() {
    assert_eq!(clamp_lines(b"foo xyz", 5), b"foo x".to_vec());
    assert_eq!(clamp_lines("老虎".as_bytes(), 5), "老".as_bytes().to_vec());
}

/// A three-byte character straddling the limit is never split: the cut
/// falls back to the end of the last whole character.
#[test]
fn clamp_never_splits_a_multibyte_char() {
    // "ab" + one 3-byte char: bytes a, b, e8, 80, 81.
    let text = "ab老";
    assert_eq!(clamp_lines(text.as_bytes(), 4), b"ab".to_vec());
    assert_eq!(clamp_lines(text.as_bytes(), 3), b"ab".to_vec());
    assert_eq!(clamp_lines(text.as_bytes(), 5), "ab老".as_bytes().to_vec());
    // With a newline below the limit, the cut lands on the newline instead.
    let lines = "a\nb老x";
    assert_eq!(clamp_lines(lines.as_bytes(), 4), b"a".to_vec());
}

#[test]
fn floor_char_boundary_steps_back_over_continuation_bytes() {
    let bytes = "老虎".as_bytes();
    assert_eq!(floor_char_boundary(bytes, 0), 0);
    assert_eq!(floor_char_boundary(bytes, 1), 0);
    assert_eq!(floor_char_boundary(bytes, 2), 0);
    assert_eq!(floor_char_boundary(bytes, 3), 3);
    assert_eq!(floor_char_boundary(bytes, 4), 3);
    assert_eq!(floor_char_boundary(bytes, 99), 6);
}

#[test]
fn boundary_bytes() {
    assert!(is_utf8_char_boundary(b'a'));
    assert!(is_utf8_char_boundary(0x0A));
    assert!(is_utf8_char_boundary(0xE8));
    assert!(!is_utf8_char_boundary(0x80));
    assert!(!is_utf8_char_boundary(0xBF));
}
