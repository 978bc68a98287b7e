use domain_guard::codec::join_write_bytes;

#[test]
fn test_join_write_bytes_empty() {
    let mut out = Vec::new();
    join_write_bytes(&mut out, b"|", &[]);
    assert_eq!(out, b"");
}

#[test]
fn test_join_write_bytes_single() {
    let mut out = Vec::new();
    join_write_bytes(&mut out, b"|", &[b"hello".to_vec()]);
    assert_eq!(out, b"hello");
}

#[test]
fn test_join_write_bytes_multiple() {
    let mut out = Vec::new();
    join_write_bytes(&mut out, b"|", &[b"a".to_vec(), b"b".to_vec(), b"c".to_vec()]);
    assert_eq!(out, b"a|b|c");
}

#[test]
fn test_join_write_bytes_multi_byte_sep() {
    let mut out = Vec::new();
    join_write_bytes(&mut out, b", ", &[b"x".to_vec(), b"y".to_vec()]);
    assert_eq!(out, b"x, y");
}

#[test]
fn join_appends_after_existing_bytes() {
    let mut out = b"pre:".to_vec();
    join_write_bytes(&mut out, b"|", &[b"".to_vec(), b"".to_vec()]);
    assert_eq!(out, b"pre:|");
}
