use hash::digest::{ElementDigest, DIGEST_SIZE};
use hash::field::{Fp, MODULUS};
use hash::traits::Digest;

#[test]
fn digest_default_is_all_zero() {
    assert_eq!(DIGEST_SIZE, 4);
    assert_eq!(ElementDigest::default().to_elements(), [Fp::zero(); 4]);
    assert_eq!(ElementDigest::default().as_bytes(), [0u8; 32]);
}

#[test]
fn digest_holds_its_elements() {
    let elements = [Fp::new(1), Fp::new(2), Fp::new(3), Fp::new(4)];
    let digest = ElementDigest::new(elements);
    assert_eq!(digest.to_elements(), elements);
    assert_eq!(digest.as_elements(), &elements);
}

#[test]
fn digest_from_state_takes_the_first_four_elements() {
    let state = [
        Fp::new(10),
        Fp::new(11),
        Fp::new(12),
        Fp::new(13),
        Fp::new(14),
        Fp::new(15),
        Fp::new(16),
        Fp::new(17),
    ];
    let digest = ElementDigest::from_state(&state);
    assert_eq!(digest.as_elements()[..], state[..4]);
}

#[test]
fn digest_with_int_appends_the_reduced_value() {
    let digest = ElementDigest::new([Fp::new(1), Fp::new(2), Fp::new(3), Fp::new(4)]);
    assert_eq!(
        digest.with_int(MODULUS + 5),
        vec![Fp::new(1), Fp::new(2), Fp::new(3), Fp::new(4), Fp::new(5)]
    );
}

#[test]
fn digest_bytes_are_the_elements_in_order() {
    let digest = ElementDigest::new([
        Fp::new(0x0102030405060708),
        Fp::new(1),
        Fp::new(MODULUS - 1),
        Fp::new(0),
    ]);
    let mut expected = [0u8; 32];
    expected[..8].copy_from_slice(&[8, 7, 6, 5, 4, 3, 2, 1]);
    expected[8] = 1;
    expected[16..24].copy_from_slice(&(MODULUS - 1).to_le_bytes());
    assert_eq!(digest.as_bytes(), expected);
}

#[test]
fn digest_bytes_round_trip() {
    let digest = ElementDigest::new([
        Fp::new(0xdead_beef_cafe_f00d),
        Fp::new(MODULUS - 1),
        Fp::new(0),
        Fp::new(1 << 63),
    ]);
    assert_eq!(ElementDigest::from_bytes(&digest.as_bytes()), Some(digest));
    let zero = ElementDigest::default();
    assert_eq!(ElementDigest::from_bytes(&zero.as_bytes()), Some(zero));
}

#[test]
fn digest_from_bytes_rejects_an_element_outside_the_field() {
    let digest = ElementDigest::new([Fp::new(1), Fp::new(2), Fp::new(3), Fp::new(4)]);
    for slot in 0..4 {
        let mut bytes = digest.as_bytes();
        bytes[8 * slot..8 * slot + 8].copy_from_slice(&MODULUS.to_le_bytes());
        assert_eq!(ElementDigest::from_bytes(&bytes), None);
        bytes[8 * slot..8 * slot + 8].copy_from_slice(&(MODULUS - 1).to_le_bytes());
        assert!(ElementDigest::from_bytes(&bytes).is_some());
    }
    assert_eq!(ElementDigest::from_bytes(&[0xff; 32]), None);
}
