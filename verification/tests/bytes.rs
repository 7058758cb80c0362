use xr_passthrough::bytes::{bytes_equal, copy_range, push_all, to_ascii_lowercase};

#[test]
fn byte_strings_are_compared_whole() {
    assert!(bytes_equal(b"ab", b"ab"));
    assert!(!bytes_equal(b"ab", b"ac"));
    assert!(!bytes_equal(b"ab", b"abc"));
    assert!(bytes_equal(b"", b""));
}

#[test]
fn only_ascii_capitals_are_lowered() {
    assert_eq!(to_ascii_lowercase(b"@AZ[`az{\xc4"), b"@az[`az{\xc4".to_vec());
}

#[test]
fn parts_are_copied_and_joined() {
    assert_eq!(copy_range(b"abcd", 1, 3), b"bc".to_vec());
    assert!(copy_range(b"abcd", 2, 2).is_empty());
    let mut joined = b"ab".to_vec();
    push_all(&mut joined, b"cd");
    assert_eq!(joined, b"abcd".to_vec());
}
