use runtime_interface::{ExtrinsicWrapper, TestAccountId, TestXt, UintAuthorityId};

#[test]
fn authority_id_conversions() {
    let id = UintAuthorityId::from(17u64);
    assert_eq!(id, UintAuthorityId(17));
    assert_eq!(u64::from(id), 17);
}

#[test]
fn set_all_keys_and_all() {
    let mut keys: Vec<UintAuthorityId> = vec![UintAuthorityId(9)];
    UintAuthorityId::set_all_keys(&mut keys, &vec![1, 2, 3]);
    assert_eq!(keys, vec![UintAuthorityId(1), UintAuthorityId(2), UintAuthorityId(3)]);
    assert_eq!(UintAuthorityId::all(&keys), keys);
    UintAuthorityId::set_all_keys(&mut keys, &vec![]);
    assert!(UintAuthorityId::all(&keys).is_empty());
}

#[test]
fn sign_pads_short_messages_with_42() {
    let id = UintAuthorityId(1);
    assert_eq!(id.sign(&[]), Some(u64::from_le_bytes([42; 8])));
    assert_eq!(id.sign(&[1, 2, 3]), Some(u64::from_le_bytes([1, 2, 3, 42, 42, 42, 42, 42])));
    assert_eq!(id.sign(&[1, 0, 0, 0, 0, 0, 0, 0]), Some(1));
}

#[test]
fn sign_uses_first_eight_bytes() {
    let id = UintAuthorityId(5);
    let msg = [1u8, 2, 3, 4, 5, 6, 7, 8, 9, 10];
    assert_eq!(id.sign(&msg), Some(0x0807060504030201));
    assert_eq!(id.sign(&[255; 8]), Some(u64::MAX));
}

#[test]
fn verify_accepts_only_the_signature() {
    let id = UintAuthorityId(3);
    let msg = b"hello world".to_vec();
    let sig = id.sign(&msg).unwrap();
    assert!(id.verify(&msg, &sig));
    assert!(!id.verify(&msg, &(sig + 1)));
    assert!(!id.verify(b"other", &sig));
}

#[test]
fn raw_vec_is_little_endian() {
    let id = UintAuthorityId(0x0102030405060708);
    assert_eq!(id.to_raw_vec(), vec![8, 7, 6, 5, 4, 3, 2, 1]);
    assert_eq!(UintAuthorityId(0).to_raw_vec(), vec![0; 8]);
}

#[test]
fn generate_pair_gives_an_authority() {
    let a = UintAuthorityId::generate_pair(None);
    let b = UintAuthorityId::generate_pair(Some(vec![1, 2]));
    let _ = (a, b);
}

#[test]
fn test_xt_constructors() {
    let signed: TestXt<u64, u32, ()> = TestXt::new(5, (7, ()));
    assert_eq!(signed.call, 5);
    assert!(signed.signature == Some((7, ())));
    assert_eq!(signed.is_signed(), Some(true));
    assert_eq!(signed.sender(), Some(&7));

    let unsigned: TestXt<u64, u32, ()> = TestXt::new_unsigned(6);
    assert_eq!(unsigned.call, 6);
    assert!(unsigned.signature.is_none());
    assert_eq!(unsigned.is_signed(), Some(false));
    assert_eq!(unsigned.sender(), None);

    let built = TestXt::<u64, u32, ()>::new_extrinsic(6, None).unwrap();
    assert!(built == unsigned);
}

#[test]
fn extrinsic_wrapper_holds_its_value() {
    let w = ExtrinsicWrapper::from(11u32);
    assert_eq!(*w.get(), 11);
    assert_eq!(w.is_signed(), None);
}

#[test]
fn account_id_from_u64() {
    let id = TestAccountId::new(0x0102030405060708);
    assert_eq!(id.0, [8, 7, 6, 5, 4, 3, 2, 1]);
    assert_eq!(TestAccountId::from(1u64), TestAccountId([1, 0, 0, 0, 0, 0, 0, 0]));
    assert_eq!(id.as_bytes(), &[8, 7, 6, 5, 4, 3, 2, 1]);
}

#[test]
fn account_id_through_32_bytes() {
    let id = TestAccountId::new(42);
    let wide: [u8; 32] = id.clone().into();
    let mut expected = [0u8; 32];
    expected[0] = 42;
    assert_eq!(wide, expected);
    assert_eq!(TestAccountId::from(wide), id);

    let mut long = [9u8; 32];
    long[0] = 1;
    assert_eq!(TestAccountId::from(long), TestAccountId([1, 9, 9, 9, 9, 9, 9, 9]));
}
