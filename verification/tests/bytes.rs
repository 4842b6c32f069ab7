use seckey::Bytes;

#[test]
fn eq_true_on_identical_bytes() {
    let b = Bytes::new(&[1, 2, 3, 4]);
    assert!(b.eq(&[1, 2, 3, 4]));
}

#[test]
fn eq_false_on_differing_byte() {
    let b = Bytes::new(&[1, 2, 3, 4]);
    assert!(!b.eq(&[1, 2, 3, 5]));
    assert!(!b.eq(&[0, 2, 3, 4]));
    assert!(!b.eq(&[1, 2, 0, 4]));
}

#[test]
fn eq_false_on_differing_length() {
    let b = Bytes::new(&[1, 2, 3, 4]);
    assert!(!b.eq(&[1, 2, 3]));
    assert!(!b.eq(&[1, 2, 3, 4, 5]));
    assert!(!b.eq(&[]));
}

#[test]
fn empty_buffer() {
    let b = Bytes::empty();
    assert_eq!(0, b.len());
    assert!(b.is_empty());
    assert!(b.eq(&[]));
    assert!(!b.eq(&[0]));
    assert_eq!("", b.masked());
}

#[test]
fn masked_hides_every_byte() {
    let b = Bytes::new(b"ABC");
    let m = b.masked();
    assert_eq!("***", m);
    assert_eq!(3, m.len());
    assert!(!m.contains('A'));
    assert!(!m.contains('B'));
    assert!(!m.contains('C'));
}

#[test]
fn masked_length_tracks_buffer_length() {
    for n in 0..20usize {
        let bytes = vec![0x5au8; n];
        let b = Bytes::new(&bytes);
        let m = b.masked();
        assert_eq!(n, m.len());
        assert!(m.chars().all(|c| c == '*'));
    }
}

#[test]
fn clone_keeps_the_bytes() {
    let b = Bytes::new(&[9, 8, 7]);
    let c = b.clone();
    assert!(c.eq(&[9, 8, 7]));
    assert!(c.eq(b.as_slice()));
}

#[test]
fn as_slice_and_len() {
    let b = Bytes::new(&[10, 20, 30]);
    assert_eq!(3, b.len());
    assert!(!b.is_empty());
    assert_eq!(&[10, 20, 30], b.as_slice());
}
