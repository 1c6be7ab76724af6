use auto_ipld::{Cid, CidShape, MAX_DIGEST_LEN};

#[test]
fn cid_keeps_its_three_parts() {
    let k = Cid::new(0x71, 0x12, &[1, 2, 3]).unwrap();
    assert_eq!(k.codec(), 0x71);
    assert_eq!(k.mh_code(), 0x12);
    assert_eq!(k.digest(), vec![1u8, 2, 3]);
}

#[test]
fn cid_takes_an_empty_digest() {
    let k = Cid::new(0, 0, &[]).unwrap();
    assert_eq!(k.digest(), Vec::<u8>::new());
}

#[test]
fn cid_takes_a_digest_of_the_largest_length() {
    let digest = vec![0xabu8; MAX_DIGEST_LEN];
    let k = Cid::new(0x55, 0x13, &digest).unwrap();
    assert_eq!(k.digest(), digest);
}

#[test]
fn cid_refuses_a_digest_that_is_one_byte_too_long() {
    let digest = vec![0u8; MAX_DIGEST_LEN + 1];
    assert_eq!(Cid::new(0x55, 0x13, &digest), None);
}

#[test]
fn cids_are_equal_exactly_when_all_parts_are() {
    let k = Cid::new(0x71, 0x12, &[1, 2, 3]).unwrap();
    assert_eq!(k, Cid::new(0x71, 0x12, &[1, 2, 3]).unwrap());
    assert_ne!(k, Cid::new(0x70, 0x12, &[1, 2, 3]).unwrap());
    assert_ne!(k, Cid::new(0x71, 0x13, &[1, 2, 3]).unwrap());
    assert_ne!(k, Cid::new(0x71, 0x12, &[1, 2, 4]).unwrap());
    assert_ne!(k, Cid::new(0x71, 0x12, &[1, 2, 3, 0]).unwrap());
}

#[test]
fn shape_is_the_cid_without_its_digest() {
    let k = Cid::new(0x71, 0x12, &[9; 32]).unwrap();
    assert_eq!(CidShape::from(&k), CidShape { codec: 0x71, mh_code: 0x12 });
    let other = Cid::new(0x71, 0x12, &[8; 32]).unwrap();
    assert_eq!(CidShape::from(&k), CidShape::from(&other));
}
