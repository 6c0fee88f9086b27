use opcua_core::bytes::append;
use opcua_core::bytes::bytes_equal;
use opcua_core::bytes::copy_into;
use opcua_core::bytes::zeroed;

#[test]
fn copy_into_overwrites_a_range() {
    let mut dst = vec![1u8, 2, 3, 4, 5, 6];
    copy_into(&mut dst, 2, &[9, 8, 7]);
    assert_eq!(dst, vec![1, 2, 9, 8, 7, 6]);
    copy_into(&mut dst, 0, &[]);
    assert_eq!(dst, vec![1, 2, 9, 8, 7, 6]);
    copy_into(&mut dst, 6, &[]);
    assert_eq!(dst, vec![1, 2, 9, 8, 7, 6]);
    copy_into(&mut dst, 0, &[0, 0, 0, 0, 0, 0]);
    assert_eq!(dst, vec![0u8; 6]);
    copy_into(&mut dst, 5, &[4]);
    assert_eq!(dst, vec![0, 0, 0, 0, 0, 4]);
}

#[test]
fn append_extends_a_vector() {
    let mut v = vec![1u8];
    append(&mut v, &[2, 3]);
    append(&mut v, &[]);
    append(&mut v, &[4]);
    assert_eq!(v, vec![1, 2, 3, 4]);
}

#[test]
fn zeroed_gives_zero_bytes() {
    assert_eq!(zeroed(0), Vec::<u8>::new());
    assert_eq!(zeroed(1), vec![0u8]);
    assert_eq!(zeroed(40), vec![0u8; 40]);
}

#[test]
fn bytes_equal_compares_length_and_content() {
    assert!(bytes_equal(&[], &[]));
    assert!(bytes_equal(&[1, 2, 3], &[1, 2, 3]));
    assert!(!bytes_equal(&[1, 2, 3], &[1, 2]));
    assert!(!bytes_equal(&[1, 2], &[1, 2, 3]));
    assert!(!bytes_equal(&[1, 2, 3], &[1, 2, 4]));
    assert!(!bytes_equal(&[0, 2, 3], &[1, 2, 3]));
}
