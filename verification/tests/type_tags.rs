use nanbox::bit_utils;
use nanbox::{ThinTypeId, TypeError, TypeId, TypeIdTooLargeError, UncleanPayloadError};
use std::convert::{TryFrom, TryInto};

/// The narrow identifier with the given number, which must be below 16.
fn thin(id: u64) -> ThinTypeId {
    TypeId(id).narrow().unwrap()
}

#[test]
fn fail_thintypeid_conv() {
    let thick_type_id = TypeId(0xffff);
    assert!(TryInto::<ThinTypeId>::try_into(thick_type_id).is_err());
}

#[test]
fn thintypeid_conv() {
    let type_id = TypeId(0x2);
    assert_eq!(
        TryInto::<ThinTypeId>::try_into(type_id).unwrap(),
        thin(0x2)
    );
    assert_eq!(TryInto::<ThinTypeId>::try_into(type_id).unwrap().value(), 0x2);
}

#[test]
fn tagged_nan() {
    let type_id = thin(0xa);

    let tagged_nan = type_id.tag(12345);

    assert_eq!(bit_utils::tag_of(tagged_nan), 0xa);
    assert_eq!(bit_utils::unsigned_untag(tagged_nan), 12345);
}

#[test]
fn try_untag() {
    let type_id = thin(0xa);
    let tagged_nan = type_id.tag(12345);

    assert_eq!(type_id.try_unsigned_untag(tagged_nan).unwrap(), 12345);

    let wrong_type_id = thin(0xc);

    assert!(wrong_type_id.try_unsigned_untag(tagged_nan).is_err());
}

#[test]
fn signed_number() {
    let signed = -666i64;
    let type_id = thin(0x2);
    let boxed = type_id.tag(signed as u64);
    assert_eq!(type_id.try_signed_untag(boxed).unwrap(), signed);
}

#[test]
fn tag_zero_of_dead_beef_is_a_nanbox() {
    let boxed = thin(0).tag(0xdeadbeef);
    assert!(bit_utils::is_nanbox(boxed));
    assert_eq!(bit_utils::tag_of(boxed), 0);
    assert_eq!(boxed, 0x7ff0_0000_dead_beef);
}

#[test]
fn tag_gives_the_exact_word() {
    assert_eq!(thin(0xa).tag(12345), 0x7ffa_0000_0000_3039);
    assert_eq!(thin(0x2).tag(-666i64 as u64), 0xfff2_ffff_ffff_fd66);
    assert_eq!(thin(0xf).tag(0x0000_ffff_ffff_ffff), 0x7fff_ffff_ffff_ffff);
    assert_eq!(thin(0x0).tag(u64::MAX), 0xfff0_ffff_ffff_ffff);
    assert_eq!(thin(0x1).tag(0), 0x7ff1_0000_0000_0000);
}

#[test]
fn mismatch_names_both_identifiers() {
    let boxed = thin(0xa).tag(12345);
    let refused = thin(0xc).try_unsigned_untag(boxed).unwrap_err();
    assert_eq!(refused.found, TypeId(0xa));
    assert_eq!(refused.expected, TypeId(0xc));
    assert_eq!(
        thin(0xc).try_signed_untag(boxed),
        Err(TypeError { expected: TypeId(0xc), found: TypeId(0xa) })
    );
}

#[test]
fn a_float_is_refused_under_every_identifier() {
    let one_and_a_half = 1.5f64.to_bits();
    for id in 0..16u64 {
        assert!(!thin(id).matches(one_and_a_half));
        assert_eq!(
            thin(id).try_unsigned_untag(one_and_a_half),
            Err(TypeError { expected: TypeId(id), found: TypeId(0x8) })
        );
        assert_eq!(
            thin(id).try_signed_untag(f64::NEG_INFINITY.to_bits()),
            Err(TypeError { expected: TypeId(id), found: TypeId(0x0) })
        );
    }
}

#[test]
fn matches_needs_a_nanbox_and_the_same_nibble() {
    let boxed = thin(0x7).tag(99);
    for id in 0..16u64 {
        assert_eq!(thin(id).matches(boxed), id == 0x7);
    }
    assert!(!thin(0).matches(f64::INFINITY.to_bits()));
    assert!(!thin(8).matches(f64::NAN.to_bits()));
    assert!(thin(8).matches(f64::NAN.to_bits() | 1));
}

#[test]
fn narrow_overflow_carries_the_identifier() {
    assert_eq!(
        TypeId(0xffff).narrow(),
        Err(TypeIdTooLargeError { id: TypeId(0xffff) })
    );
    assert_eq!(TypeId(16).narrow().unwrap_err().id, TypeId(16));
    assert_eq!(TypeId(u64::MAX).narrow().unwrap_err().id, TypeId(u64::MAX));
    assert_eq!(TypeId(0x2).narrow().unwrap().value(), 0x2);
    assert_eq!(TypeId(15).narrow().unwrap().value(), 15);
}

#[test]
fn widen_keeps_the_number() {
    for id in 0..16u64 {
        assert_eq!(thin(id).widen(), TypeId(id));
        assert_eq!(TypeId::from(thin(id)), TypeId(id));
        assert_eq!(ThinTypeId::try_from(TypeId(id)), Ok(thin(id)));
        assert_eq!(u64::from(thin(id).value()), id);
    }
}

#[test]
fn checked_tag_refuses_unclean_values() {
    assert_eq!(thin(0xa).checked_tag(12345), Ok(0x7ffa_0000_0000_3039));
    assert_eq!(thin(0x2).checked_tag(-666i64 as u64), Ok(0xfff2_ffff_ffff_fd66));
    assert_eq!(
        thin(0xa).checked_tag(0x0001_0000_0000_0000),
        Err(UncleanPayloadError { payload: 0x0001_0000_0000_0000 })
    );
    assert_eq!(
        thin(0xa).checked_tag(0x8000_0000_0000_0001),
        Err(UncleanPayloadError { payload: 0x8000_0000_0000_0001 })
    );
}
