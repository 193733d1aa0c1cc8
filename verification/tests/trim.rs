use slumber::util::trim_bytes;

fn trimmed(bytes: &[u8]) -> Vec<u8> {
    let mut bytes = bytes.to_owned();
    trim_bytes(&mut bytes, |b| b == 0);
    bytes
}

#[test]
fn test_trim_bytes() {
    assert_eq!(trimmed(&[]), Vec::<u8>::new());
    assert_eq!(trimmed(&[0, 0, 1, 1]), vec![1, 1]);
    assert_eq!(trimmed(&[1, 1, 0, 0]), vec![1, 1]);
    assert_eq!(trimmed(&[0, 1, 0, 1, 0, 0]), vec![1, 0, 1]);
}

#[test]
fn trim_all_matching_is_empty() {
    assert_eq!(trimmed(&[0]), Vec::<u8>::new());
    assert_eq!(trimmed(&[0, 0, 0, 0]), Vec::<u8>::new());
}

#[test]
fn trim_non_matching_is_unchanged() {
    assert_eq!(trimmed(&[1]), vec![1]);
    assert_eq!(trimmed(&[1, 0, 0, 2]), vec![1, 0, 0, 2]);
    assert_eq!(trimmed(&[7, 8, 9]), vec![7, 8, 9]);
}

#[test]
fn trim_is_idempotent() {
    let inputs: [&[u8]; 6] =
        [&[], &[0], &[0, 1, 0], &[1, 0, 1], &[0, 0, 5, 0, 6, 0], &[3, 0, 0]];
    for input in inputs {
        let once = trimmed(input);
        assert_eq!(trimmed(&once), once);
    }
}

#[test]
fn trim_keeps_interior_bytes() {
    let mut bytes = b"\r\n a\nb\r\nc \n\r".to_vec();
    trim_bytes(&mut bytes, |b| b == b'\n' || b == b'\r');
    assert_eq!(bytes, b" a\nb\r\nc ".to_vec());
}

#[test]
fn trim_with_other_predicates() {
    let mut bytes = b"  padded\t ".to_vec();
    trim_bytes(&mut bytes, |b| b.is_ascii_whitespace());
    assert_eq!(bytes, b"padded".to_vec());
    let mut bytes = vec![1, 2, 3];
    trim_bytes(&mut bytes, |_| false);
    assert_eq!(bytes, vec![1, 2, 3]);
    trim_bytes(&mut bytes, |_| true);
    assert_eq!(bytes, Vec::<u8>::new());
}
