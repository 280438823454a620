use chainhook_event_observer::matching::{ends_with, equals, starts_with, to_hex};

#[test]
fn equals_compares_every_byte() {
    assert!(equals(b"abc", b"abc"));
    assert!(!equals(b"abc", b"abd"));
    assert!(!equals(b"abc", b"ab"));
    assert!(equals(b"", b""));
}

#[test]
fn starts_with_accepts_prefixes_only() {
    assert!(starts_with(&[0xaa, 0xbb], &[0xaa]));
    assert!(!starts_with(&[0xbb, 0xaa], &[0xaa]));
    assert!(starts_with(&[0xaa, 0xbb], &[]));
    assert!(!starts_with(&[0xaa], &[0xaa, 0xbb]));
}

#[test]
fn ends_with_accepts_suffixes_only() {
    assert!(ends_with(&[0xaa, 0xbb], &[0xbb]));
    assert!(!ends_with(&[0xbb, 0xaa], &[0xbb]));
    assert!(ends_with(&[0xaa, 0xbb], &[]));
    assert!(!ends_with(&[0xbb], &[0xaa, 0xbb]));
}

#[test]
fn to_hex_writes_two_lower_case_digits_per_byte() {
    assert_eq!(to_hex(&[]), b"".to_vec());
    assert_eq!(to_hex(&[0x00, 0x0f, 0xa9, 0xff]), b"000fa9ff".to_vec());
    assert_eq!(to_hex(&[0x76, 0xa9, 0x14]), b"76a914".to_vec());
}
