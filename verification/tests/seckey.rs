use seckey::{Bytes, Prot, SecKey};

#[test]
fn new_then_read_roundtrip() {
    let mut k = SecKey::new([8u8; 8]).unwrap();
    let g = k.read();
    assert_eq!([8u8; 8], *k.get());
    k.release_read(g);
}

#[test]
fn new_single_element() {
    let mut k = SecKey::new([1]).unwrap();
    let g = k.read();
    assert_eq!([1], *k.get());
    k.release_read(g);
}

#[test]
fn fresh_container_starts_closed() {
    let k = SecKey::new(42u64).unwrap();
    assert_eq!(Prot::NoAccess, k.current_prot());
    assert_eq!(0, k.guard_count());
}

#[test]
fn read_guard_opens_and_release_closes() {
    let mut k = SecKey::new(7u32).unwrap();
    let g = k.read();
    assert_eq!(Prot::ReadOnly, k.current_prot());
    assert_eq!(1, k.guard_count());
    assert_eq!(7, *k.get());
    k.release_read(g);
    assert_eq!(Prot::NoAccess, k.current_prot());
    assert_eq!(0, k.guard_count());
}

#[test]
fn concurrent_reads_keep_access_until_last_release() {
    let mut k = SecKey::new([3u8; 4]).unwrap();
    let g1 = k.read();
    let g2 = k.read();
    assert_eq!(2, k.guard_count());
    assert_eq!(Prot::ReadOnly, k.current_prot());
    k.release_read(g1);
    assert_eq!(1, k.guard_count());
    assert_eq!(Prot::ReadOnly, k.current_prot());
    assert_eq!([3u8; 4], *k.get());
    k.release_read(g2);
    assert_eq!(0, k.guard_count());
    assert_eq!(Prot::NoAccess, k.current_prot());
}

#[test]
fn write_guard_allows_mutation() {
    let mut k = SecKey::new([8u8; 8]).unwrap();
    let g = k.write();
    assert_eq!(Prot::ReadWrite, k.current_prot());
    k.get_mut()[0] = 0;
    assert_eq!([0, 8, 8, 8, 8, 8, 8, 8], *k.get());
    k.release_write(g);
    assert_eq!(Prot::NoAccess, k.current_prot());

    let g = k.read();
    assert_eq!([0, 8, 8, 8, 8, 8, 8, 8], *k.get());
    k.release_read(g);
}

#[test]
fn end_to_end_compare_through_buffer() {
    let mut k = SecKey::new([8u8; 8]).unwrap();
    let g = k.read();
    let b = Bytes::new(k.get());
    assert!(b.eq(&[8u8; 8]));
    assert!(!b.eq(&[8u8; 7]));
    assert!(!b.eq(&[9u8; 8]));
    k.release_read(g);
}

#[test]
fn drop_without_guards_is_fine() {
    let k = SecKey::new([5u8; 16]).unwrap();
    assert_eq!(0, k.guard_count());
    drop(k);
}
