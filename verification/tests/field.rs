use hash::field::{reduce_u96, Fp, MODULUS};

#[test]
fn field_modulus_is_the_goldilocks_prime() {
    assert_eq!(MODULUS, 18446744069414584321);
    assert_eq!(MODULUS as u128, (1u128 << 64) - (1u128 << 32) + 1);
}

#[test]
fn field_new_reduces() {
    assert_eq!(Fp::new(0), Fp::zero());
    assert_eq!(Fp::new(1), Fp::one());
    assert_eq!(Fp::new(MODULUS), Fp::zero());
    assert_eq!(Fp::new(MODULUS + 1), Fp::one());
    assert_eq!(Fp::new(u64::MAX).to_u64(), 4294967294);
    assert_eq!(Fp::new(MODULUS - 1).to_u64(), MODULUS - 1);
    assert_eq!(Fp::default(), Fp::zero());
}

#[test]
fn field_add_exact() {
    assert_eq!(Fp::new(5).add(Fp::new(7)), Fp::new(12));
    assert_eq!(Fp::new(MODULUS - 1).add(Fp::one()), Fp::zero());
    assert_eq!(
        Fp::new(MODULUS - 1).add(Fp::new(MODULUS - 1)),
        Fp::new(MODULUS - 2)
    );
    assert_eq!(Fp::new(9).add(Fp::zero()), Fp::new(9));
}

#[test]
fn field_sub_exact() {
    assert_eq!(Fp::new(12).sub(Fp::new(7)), Fp::new(5));
    assert_eq!(Fp::zero().sub(Fp::one()), Fp::new(MODULUS - 1));
    assert_eq!(Fp::new(3).sub(Fp::new(MODULUS - 1)), Fp::new(4));
    assert_eq!(Fp::new(77).sub(Fp::new(77)), Fp::zero());
}

#[test]
fn field_mul_exact() {
    assert_eq!(Fp::new(6).mul(Fp::new(7)), Fp::new(42));
    assert_eq!(Fp::new(MODULUS - 1).mul(Fp::new(MODULUS - 1)), Fp::one());
    assert_eq!(Fp::new(1 << 32).mul(Fp::new(1 << 32)), Fp::new(4294967295));
    assert_eq!(
        Fp::new(12345678901234567890).mul(Fp::new(9876543210987654321)),
        Fp::new(7432351747408847865)
    );
    assert_eq!(Fp::new(5).mul(Fp::zero()), Fp::zero());
}

#[test]
fn field_square_and_small_multiples_exact() {
    assert_eq!(Fp::new(1 << 32).square(), Fp::new(4294967295));
    assert_eq!(Fp::new(MODULUS - 2).square(), Fp::new(4));
    assert_eq!(Fp::new(MODULUS - 1).mul_by_u32(7), Fp::new(MODULUS - 7));
    assert_eq!(
        Fp::new(1 << 63).mul_by_u32(u32::MAX),
        Fp::new(18446744067267100673)
    );
    assert_eq!(Fp::new(3).mul_by_u32(0), Fp::zero());
}

#[test]
fn field_pow_exact() {
    assert_eq!(Fp::new(2).pow(0), Fp::one());
    assert_eq!(Fp::zero().pow(0), Fp::one());
    assert_eq!(Fp::new(2).pow(10), Fp::new(1024));
    assert_eq!(Fp::new(2).pow(64), Fp::new(4294967295));
    assert_eq!(Fp::new(2).pow(96), Fp::new(MODULUS - 1));
    assert_eq!(Fp::new(7).pow(MODULUS - 1), Fp::one());
    assert_eq!(Fp::new(7).pow(u64::MAX), Fp::new(7).pow(4294967295));
    assert_eq!(
        Fp::new(3).pow(10540996611094048183).pow(7),
        Fp::new(3)
    );
}

#[test]
fn field_is_zero() {
    assert!(Fp::zero().is_zero());
    assert!(Fp::new(MODULUS).is_zero());
    assert!(!Fp::one().is_zero());
}

#[test]
fn field_reduce_u96_exact() {
    assert_eq!(reduce_u96(0), Fp::zero());
    assert_eq!(reduce_u96(MODULUS as u128), Fp::zero());
    assert_eq!(reduce_u96(1u128 << 64), Fp::new(4294967295));
    assert_eq!(reduce_u96((1u128 << 96) - 1), Fp::new(MODULUS - 2));
}

#[test]
fn field_bytes_are_little_endian() {
    assert_eq!(
        Fp::new(0x0102030405060708).to_bytes(),
        [8, 7, 6, 5, 4, 3, 2, 1]
    );
    assert_eq!(Fp::one().to_bytes(), [1, 0, 0, 0, 0, 0, 0, 0]);
    assert_eq!(
        Fp::from_bytes(&[8, 7, 6, 5, 4, 3, 2, 1]),
        Some(Fp::new(0x0102030405060708))
    );
}

#[test]
fn field_bytes_round_trip() {
    for value in [0, 1, 255, 256, 1 << 32, MODULUS - 1, 0xdead_beef_cafe_f00d] {
        let element = Fp::new(value);
        assert_eq!(Fp::from_bytes(&element.to_bytes()), Some(element));
    }
}

#[test]
fn field_from_bytes_rejects_values_outside_the_field() {
    assert_eq!(Fp::from_bytes(&MODULUS.to_le_bytes()), None);
    assert_eq!(Fp::from_bytes(&u64::MAX.to_le_bytes()), None);
    assert_eq!(
        Fp::from_bytes(&(MODULUS - 1).to_le_bytes()),
        Some(Fp::new(MODULUS - 1))
    );
}
