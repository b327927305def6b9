use curve_repr::field::{AffinePoint, BaseField, Error, Field, LIMBS, ProjectivePoint, Scalar};

#[test]
fn zero_is_all_zero_limbs() {
    let z: BaseField = Field::zero();
    assert_eq!(z.base_limbs(), [0u64; LIMBS]);
    let d: BaseField = Default::default();
    assert_eq!(d, z);
}

#[test]
fn one_sets_only_least_significant_limb() {
    let o: BaseField = Field::one();
    assert_eq!(o.base_limbs(), [1u64, 0, 0, 0]);
}

#[test]
fn scalar_zero_and_one() {
    assert_eq!(Scalar::zero().s.scalar_limbs(), [0u64; LIMBS]);
    assert_eq!(Scalar::one().s.scalar_limbs(), [1u64, 0, 0, 0]);
}

#[test]
fn from_limbs_shorter_slice_pads_with_trailing_zero() {
    let f = BaseField::from_limbs(&[7, 8, 9]).unwrap();
    assert_eq!(f.base_limbs(), [7, 8, 9, 0]);
}

#[test]
fn from_limbs_empty_slice_gives_zero() {
    let f = BaseField::from_limbs(&[]).unwrap();
    assert_eq!(f, BaseField::zero());
}

#[test]
fn from_limbs_exact_length_copies_exactly() {
    let f = BaseField::from_limbs(&[1, 2, 3, 4]).unwrap();
    assert_eq!(f.base_limbs(), [1, 2, 3, 4]);
}

#[test]
fn from_limbs_longer_slice_fails_with_length_overflow() {
    assert_eq!(BaseField::from_limbs(&[1, 2, 3, 4, 5]), Err(Error::LengthOverflow));
}

#[test]
fn affine_from_limbs_pads_each_coordinate() {
    let p = AffinePoint::from_limbs(&[5], &[6, 7]).unwrap();
    assert_eq!(p.x.base_limbs(), [5, 0, 0, 0]);
    assert_eq!(p.y.base_limbs(), [6, 7, 0, 0]);
}

#[test]
fn affine_from_limbs_rejects_either_long_coordinate() {
    assert_eq!(AffinePoint::from_limbs(&[1, 2, 3, 4, 5], &[1]), Err(Error::LengthOverflow));
    assert_eq!(AffinePoint::from_limbs(&[1], &[1, 2, 3, 4, 5]), Err(Error::LengthOverflow));
}

#[test]
fn affine_default_is_zero_sentinel() {
    let p = AffinePoint::default();
    assert_eq!(p.x, BaseField::zero());
    assert_eq!(p.y, BaseField::zero());
}

#[test]
fn projective_default_is_zero_sentinel() {
    let p = ProjectivePoint::default();
    assert_eq!(p.x, BaseField::zero());
    assert_eq!(p.y, BaseField::zero());
    assert_eq!(p.z, BaseField::zero());
}

#[test]
fn affine_form_returns_coordinates_verbatim() {
    // The documented trap: no division by z happens here, even when z is
    // not the identity.
    let p = ProjectivePoint {
        x: BaseField::from_limbs(&[10]).unwrap(),
        y: BaseField::from_limbs(&[11]).unwrap(),
        z: BaseField::from_limbs(&[12]).unwrap(),
    };
    let a = p.affine_form();
    assert_eq!(a.x.base_limbs(), [10, 0, 0, 0]);
    assert_eq!(a.y.base_limbs(), [11, 0, 0, 0]);
}

#[test]
fn to_bytes_le_is_limb_order_little_endian() {
    let f = BaseField::from_limbs(&[1, 0x0203, 0, u64::MAX]).unwrap();
    let bytes = f.to_bytes_le();
    assert_eq!(bytes.len(), 32);
    let mut expected = vec![0u8; 32];
    expected[0] = 1;
    expected[8] = 0x03;
    expected[9] = 0x02;
    for i in 24..32 {
        expected[i] = 0xff;
    }
    assert_eq!(bytes, expected);
}
