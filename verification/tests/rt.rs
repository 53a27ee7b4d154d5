use wai_bindgen::rt::{
    bool_from_i32, char_from_i32, i32_from_bool, i32_from_char, i32_from_s16, i32_from_s8,
    i32_from_u16, i32_from_u32, i32_from_u8, i64_from_u64, lift_discriminant, lift_expected,
    lift_option, lower_expected, lower_option, s16_from_i32, s8_from_i32, u16_from_i32,
    u32_from_i32, u64_from_i64, u8_from_i32, validate_flags, RuntimeError,
};

#[test]
fn narrowing_to_u8() {
    assert_eq!(u8_from_i32(255), Ok(255));
    assert_eq!(u8_from_i32(256), Err(RuntimeError::IntegerRange));
    assert_eq!(u8_from_i32(0), Ok(0));
    assert_eq!(u8_from_i32(-1), Err(RuntimeError::IntegerRange));
}

#[test]
fn narrowing_to_the_other_widths() {
    assert_eq!(s8_from_i32(127), Ok(127));
    assert_eq!(s8_from_i32(-128), Ok(-128));
    assert_eq!(s8_from_i32(128), Err(RuntimeError::IntegerRange));
    assert_eq!(s8_from_i32(-129), Err(RuntimeError::IntegerRange));
    assert_eq!(u16_from_i32(65535), Ok(65535));
    assert_eq!(u16_from_i32(65536), Err(RuntimeError::IntegerRange));
    assert_eq!(u16_from_i32(-1), Err(RuntimeError::IntegerRange));
    assert_eq!(s16_from_i32(32767), Ok(32767));
    assert_eq!(s16_from_i32(-32768), Ok(-32768));
    assert_eq!(s16_from_i32(32768), Err(RuntimeError::IntegerRange));
    assert_eq!(s16_from_i32(-32769), Err(RuntimeError::IntegerRange));
}

#[test]
fn char_validation() {
    assert_eq!(char_from_i32(0x10FFFF), Ok('\u{10FFFF}'));
    assert_eq!(char_from_i32(0xD800), Err(RuntimeError::InvalidChar));
    assert_eq!(char_from_i32(0x110000), Err(RuntimeError::InvalidChar));
    assert_eq!(char_from_i32(0xDFFF), Err(RuntimeError::InvalidChar));
    assert_eq!(char_from_i32(0xD7FF), Ok('\u{D7FF}'));
    assert_eq!(char_from_i32(0xE000), Ok('\u{E000}'));
    assert_eq!(char_from_i32(-1), Err(RuntimeError::InvalidChar));
    assert_eq!(char_from_i32(0x41), Ok('A'));
    assert_eq!(i32_from_char('A'), 0x41);
    assert_eq!(i32_from_char('\u{10FFFF}'), 0x10FFFF);
}

#[test]
fn expected_lift_scenario() {
    assert_eq!(lift_expected(0, 42u32, ()), Ok(Ok(42)));
    assert_eq!(lift_expected(1, 42u32, ()), Ok(Err(())));
    assert_eq!(lift_expected(1, 0xdead_beefu32, ()), Ok(Err(())));
    assert_eq!(
        lift_expected(2, 42u32, ()),
        Err(RuntimeError::InvalidDiscriminant)
    );
    assert_eq!(
        lift_expected(-1, 42u32, ()),
        Err(RuntimeError::InvalidDiscriminant)
    );
    assert_eq!(lower_expected::<u32, ()>(&Ok(1)), 0);
    assert_eq!(lower_expected::<u32, ()>(&Err(())), 1);
}

#[test]
fn option_bool_and_discriminants() {
    assert_eq!(lift_option(0, 7u8), Ok(None));
    assert_eq!(lift_option(1, 7u8), Ok(Some(7)));
    assert_eq!(lift_option(2, 7u8), Err(RuntimeError::InvalidDiscriminant));
    assert_eq!(lower_option(&Some(3u8)), 1);
    assert_eq!(lower_option::<u8>(&None), 0);
    assert_eq!(bool_from_i32(0), Ok(false));
    assert_eq!(bool_from_i32(1), Ok(true));
    assert_eq!(bool_from_i32(2), Err(RuntimeError::InvalidDiscriminant));
    assert_eq!(bool_from_i32(-1), Err(RuntimeError::InvalidDiscriminant));
    assert_eq!(i32_from_bool(true), 1);
    assert_eq!(i32_from_bool(false), 0);
    assert_eq!(lift_discriminant(2, 3), Ok(2));
    assert_eq!(
        lift_discriminant(3, 3),
        Err(RuntimeError::InvalidDiscriminant)
    );
    assert_eq!(
        lift_discriminant(-1, 3),
        Err(RuntimeError::InvalidDiscriminant)
    );
    assert_eq!(lift_discriminant(0, 0), Err(RuntimeError::InvalidDiscriminant));
}

#[test]
fn flags_outside_the_declared_set_are_rejected() {
    assert_eq!(validate_flags(0b101, 0b111), Ok(0b101));
    assert_eq!(validate_flags(0, 0), Ok(0));
    assert_eq!(
        validate_flags(0b1000, 0b111),
        Err(RuntimeError::InvalidDiscriminant)
    );
    assert_eq!(validate_flags(u64::MAX, u64::MAX), Ok(u64::MAX));
}

#[test]
fn casts_between_signed_and_unsigned_keep_the_bits() {
    assert_eq!(i32_from_u32(0), 0);
    assert_eq!(i32_from_u32(0x7fff_ffff), i32::MAX);
    assert_eq!(i32_from_u32(0x8000_0000), i32::MIN);
    assert_eq!(i32_from_u32(u32::MAX), -1);
    assert_eq!(u32_from_i32(-1), u32::MAX);
    assert_eq!(u32_from_i32(i32::MIN), 0x8000_0000);
    assert_eq!(u32_from_i32(5), 5);
    assert_eq!(i64_from_u64(u64::MAX), -1);
    assert_eq!(i64_from_u64(0x8000_0000_0000_0000), i64::MIN);
    assert_eq!(u64_from_i64(-2), u64::MAX - 1);
    assert_eq!(u64_from_i64(i64::MIN), 0x8000_0000_0000_0000);
    for v in [0u32, 1, 0x7fff_ffff, 0x8000_0000, 0xffff_fffe, u32::MAX] {
        assert_eq!(u32_from_i32(i32_from_u32(v)), v);
        assert_eq!(i32_from_u32(v), v as i32);
    }
    assert_eq!(i32_from_u8(200), 200);
    assert_eq!(i32_from_s8(-3), -3);
    assert_eq!(i32_from_u16(60000), 60000);
    assert_eq!(i32_from_s16(-30000), -30000);
}
