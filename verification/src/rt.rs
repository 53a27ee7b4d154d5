//! What marshalled code does to single values at run time: the casts of a
//! lowering and the checks of a lifting.

use vstd::prelude::*;

verus! {

/// Why a call was aborted. Each of these ends the call in flight and
/// nothing else.
#[derive(Clone, Copy, Debug, PartialEq, Eq, Structural)]
pub enum RuntimeError {
    /// A memory access reached beyond the memory.
    OutOfBounds,
    /// A discriminant, a `bool` or a set of flags was outside its domain.
    InvalidDiscriminant,
    /// A handle named no occupied slot of its table.
    InvalidHandle,
    /// An integer did not fit the width it was to be narrowed to.
    IntegerRange,
    /// An integer was no Unicode scalar value.
    InvalidChar,
    /// The bytes of a string were no UTF-8.
    InvalidUtf8,
}

/// The 32 bits of a signed integer read as an unsigned one.
pub open spec fn u32_of_i32(x: i32) -> u32 {
    if x >= 0 {
        x as u32
    } else {
        (x + 0x1_0000_0000) as u32
    }
}

/// The 32 bits of an unsigned integer read as a signed one.
pub open spec fn i32_of_u32(x: u32) -> i32 {
    if x <= 0x7fff_ffff {
        x as i32
    } else {
        (x - 0x1_0000_0000) as i32
    }
}

/// The 8 bits of a signed integer read as an unsigned one.
pub open spec fn u8_of_i8(x: i8) -> u8 {
    if x >= 0 {
        x as u8
    } else {
        (x + 0x100) as u8
    }
}

/// The 8 bits of an unsigned integer read as a signed one.
pub open spec fn i8_of_u8(x: u8) -> i8 {
    if x <= 0x7f {
        x as i8
    } else {
        (x - 0x100) as i8
    }
}

/// The 16 bits of a signed integer read as an unsigned one.
pub open spec fn u16_of_i16(x: i16) -> u16 {
    if x >= 0 {
        x as u16
    } else {
        (x + 0x1_0000) as u16
    }
}

/// The 16 bits of an unsigned integer read as a signed one.
pub open spec fn i16_of_u16(x: u16) -> i16 {
    if x <= 0x7fff {
        x as i16
    } else {
        (x - 0x1_0000) as i16
    }
}

/// The 64 bits of a signed integer read as an unsigned one.
pub open spec fn u64_of_i64(x: i64) -> u64 {
    if x >= 0 {
        x as u64
    } else {
        (x + 0x1_0000_0000_0000_0000) as u64
    }
}

/// The 64 bits of an unsigned integer read as a signed one.
pub open spec fn i64_of_u64(x: u64) -> i64 {
    if x <= 0x7fff_ffff_ffff_ffff {
        x as i64
    } else {
        (x - 0x1_0000_0000_0000_0000) as i64
    }
}

/// Lowers a `u32`: the same bits as a core `i32`.
pub fn i32_from_u32(x: u32) -> (r: i32)
    ensures
        r == i32_of_u32(x),
        u32_of_i32(r) == x,
{
    if x <= 0x7fff_ffff {
        x as i32
    } else {
        ((x - 0x8000_0000) as i32) + i32::MIN
    }
}

/// Lifts a `u32`: the same bits as the core `i32`. Every value is valid.
pub fn u32_from_i32(x: i32) -> (r: u32)
    ensures
        r == u32_of_i32(x),
        i32_of_u32(r) == x,
{
    if x >= 0 {
        x as u32
    } else {
        ((x - i32::MIN) as u32) + 0x8000_0000
    }
}

/// The byte of a signed 8-bit integer: the same bits.
pub fn u8_from_i8(x: i8) -> (r: u8)
    ensures
        r == u8_of_i8(x),
        i8_of_u8(r) == x,
{
    if x >= 0 {
        x as u8
    } else {
        ((x - i8::MIN) as u8) + 0x80
    }
}

/// The signed 8-bit integer of a byte: the same bits.
pub fn i8_from_u8(x: u8) -> (r: i8)
    ensures
        r == i8_of_u8(x),
        u8_of_i8(r) == x,
{
    if x <= 0x7f {
        x as i8
    } else {
        ((x - 0x80) as i8) + i8::MIN
    }
}

/// The two bytes of a signed 16-bit integer as an unsigned one: the same
/// bits.
pub fn u16_from_i16(x: i16) -> (r: u16)
    ensures
        r == u16_of_i16(x),
        i16_of_u16(r) == x,
{
    if x >= 0 {
        x as u16
    } else {
        ((x - i16::MIN) as u16) + 0x8000
    }
}

/// The signed 16-bit integer of two bytes read as an unsigned one: the same
/// bits.
pub fn i16_from_u16(x: u16) -> (r: i16)
    ensures
        r == i16_of_u16(x),
        u16_of_i16(r) == x,
{
    if x <= 0x7fff {
        x as i16
    } else {
        ((x - 0x8000) as i16) + i16::MIN
    }
}

/// Lowers a `u64`: the same bits as a core `i64`.
pub fn i64_from_u64(x: u64) -> (r: i64)
    ensures
        r == i64_of_u64(x),
        u64_of_i64(r) == x,
{
    if x <= 0x7fff_ffff_ffff_ffff {
        x as i64
    } else {
        ((x - 0x8000_0000_0000_0000) as i64) + i64::MIN
    }
}

/// Lifts a `u64`: the same bits as the core `i64`. Every value is valid.
pub fn u64_from_i64(x: i64) -> (r: u64)
    ensures
        r == u64_of_i64(x),
        i64_of_u64(r) == x,
{
    if x >= 0 {
        x as u64
    } else {
        ((x - i64::MIN) as u64) + 0x8000_0000_0000_0000
    }
}

/// Lowers a `u8`.
pub fn i32_from_u8(x: u8) -> (r: i32)
    ensures
        r == x,
{
    x as i32
}

/// Lowers an `s8`.
pub fn i32_from_s8(x: i8) -> (r: i32)
    ensures
        r == x,
{
    x as i32
}

/// Lowers a `u16`.
pub fn i32_from_u16(x: u16) -> (r: i32)
    ensures
        r == x,
{
    x as i32
}

/// Lowers an `s16`.
pub fn i32_from_s16(x: i16) -> (r: i32)
    ensures
        r == x,
{
    x as i32
}

/// Lowers a `bool`: 1 for true, 0 for false.
pub fn i32_from_bool(x: bool) -> (r: i32)
    ensures
        r == if x {
            1int
        } else {
            0int
        },
{
    if x {
        1
    } else {
        0
    }
}

/// Lowers a `char`: its scalar value.
pub fn i32_from_char(c: char) -> (r: i32)
    ensures
        r == c as u32,
{
    let v = c as u32;
    proof {
        vstd::utf8::char_is_scalar(c);
    }
    v as i32
}

/// Lifts a `u8`. The integer must be one: nothing is cut off.
pub fn u8_from_i32(x: i32) -> (r: Result<u8, RuntimeError>)
    ensures
        match r {
            Ok(v) => v == x,
            Err(e) => e == RuntimeError::IntegerRange && !(0 <= x <= u8::MAX),
        },
{
    if 0 <= x && x <= 0xff {
        Ok(x as u8)
    } else {
        Err(RuntimeError::IntegerRange)
    }
}

/// Lifts an `s8`. The integer must be one: nothing is cut off.
pub fn s8_from_i32(x: i32) -> (r: Result<i8, RuntimeError>)
    ensures
        match r {
            Ok(v) => v == x,
            Err(e) => e == RuntimeError::IntegerRange && !(i8::MIN <= x <= i8::MAX),
        },
{
    if -128 <= x && x <= 127 {
        Ok(x as i8)
    } else {
        Err(RuntimeError::IntegerRange)
    }
}

/// Lifts a `u16`. The integer must be one: nothing is cut off.
pub fn u16_from_i32(x: i32) -> (r: Result<u16, RuntimeError>)
    ensures
        match r {
            Ok(v) => v == x,
            Err(e) => e == RuntimeError::IntegerRange && !(0 <= x <= u16::MAX),
        },
{
    if 0 <= x && x <= 0xffff {
        Ok(x as u16)
    } else {
        Err(RuntimeError::IntegerRange)
    }
}

/// Lifts an `s16`. The integer must be one: nothing is cut off.
pub fn s16_from_i32(x: i32) -> (r: Result<i16, RuntimeError>)
    ensures
        match r {
            Ok(v) => v == x,
            Err(e) => e == RuntimeError::IntegerRange && !(i16::MIN <= x <= i16::MAX),
        },
{
    if -32768 <= x && x <= 32767 {
        Ok(x as i16)
    } else {
        Err(RuntimeError::IntegerRange)
    }
}

/// Lifts a `bool`: 0 is false, 1 is true, and nothing else is a `bool`.
pub fn bool_from_i32(x: i32) -> (r: Result<bool, RuntimeError>)
    ensures
        match r {
            Ok(v) => (x == 0 && !v) || (x == 1 && v),
            Err(e) => e == RuntimeError::InvalidDiscriminant && x != 0 && x != 1,
        },
{
    if x == 0 {
        Ok(false)
    } else if x == 1 {
        Ok(true)
    } else {
        Err(RuntimeError::InvalidDiscriminant)
    }
}

/// Whether `v` is a Unicode scalar value: at most 0x10FFFF and no
/// surrogate.
pub open spec fn valid_char(v: u32) -> bool {
    v <= 0x10FFFF && !(0xD800 <= v <= 0xDFFF)
}

/// `char::from_u32` of the standard library: the `char` with the scalar
/// value `v`, for exactly the `v` that are at most 0x10FFFF and outside the
/// surrogates.
#[verifier::external_body]
fn char_of_u32(v: u32) -> (r: Option<char>)
    ensures
        r is Some <==> valid_char(v),
        r matches Some(c) ==> c as u32 == v,
{
    char::from_u32(v)
}

/// Lifts a `char`: the integer, read as unsigned, must be a Unicode scalar
/// value.
pub fn char_from_i32(x: i32) -> (r: Result<char, RuntimeError>)
    ensures
        match r {
            Ok(c) => valid_char(u32_of_i32(x)) && c as u32 == u32_of_i32(x),
            Err(e) => e == RuntimeError::InvalidChar && !valid_char(u32_of_i32(x)),
        },
{
    match char_of_u32(u32_from_i32(x)) {
        Some(c) => Ok(c),
        None => Err(RuntimeError::InvalidChar),
    }
}

/// Lifts a discriminant over `cases` cases: the integer, read as unsigned,
/// must be less than `cases`.
pub fn lift_discriminant(x: i32, cases: u32) -> (r: Result<u32, RuntimeError>)
    ensures
        match r {
            Ok(v) => v == u32_of_i32(x) && v < cases,
            Err(e) => e == RuntimeError::InvalidDiscriminant && u32_of_i32(x) >= cases,
        },
{
    let v = u32_from_i32(x);
    if v < cases {
        Ok(v)
    } else {
        Err(RuntimeError::InvalidDiscriminant)
    }
}

/// Lifts an option from its discriminant and the lifted payload: 0 is
/// `none`, whatever the payload, and 1 is `some`.
pub fn lift_option<T>(discriminant: i32, payload: T) -> (r: Result<Option<T>, RuntimeError>)
    ensures
        match r {
            Ok(None) => discriminant == 0,
            Ok(Some(v)) => discriminant == 1 && v == payload,
            Err(e) => e == RuntimeError::InvalidDiscriminant && discriminant != 0 && discriminant
                != 1,
        },
{
    if discriminant == 0 {
        Ok(None)
    } else if discriminant == 1 {
        Ok(Some(payload))
    } else {
        Err(RuntimeError::InvalidDiscriminant)
    }
}

/// Lifts an expected from its discriminant and the two lifted payloads: 0
/// is success and holds `ok`, 1 is failure and holds `err`.
pub fn lift_expected<T, E>(discriminant: i32, ok: T, err: E) -> (r: Result<
    Result<T, E>,
    RuntimeError,
>)
    ensures
        match r {
            Ok(Ok(v)) => discriminant == 0 && v == ok,
            Ok(Err(v)) => discriminant == 1 && v == err,
            Err(e) => e == RuntimeError::InvalidDiscriminant && discriminant != 0 && discriminant
                != 1,
        },
{
    if discriminant == 0 {
        Ok(Ok(ok))
    } else if discriminant == 1 {
        Ok(Err(err))
    } else {
        Err(RuntimeError::InvalidDiscriminant)
    }
}

/// Lowers an option to its discriminant.
pub fn lower_option<T>(value: &Option<T>) -> (r: i32)
    ensures
        r == if value is Some {
            1int
        } else {
            0int
        },
{
    match value {
        Some(_) => 1,
        None => 0,
    }
}

/// Lowers an expected to its discriminant.
pub fn lower_expected<T, E>(value: &Result<T, E>) -> (r: i32)
    ensures
        r == if value is Ok {
            0int
        } else {
            1int
        },
{
    match value {
        Ok(_) => 0,
        Err(_) => 1,
    }
}

/// Lifts a set of flags: no bit may be set that `all`, the set of declared
/// flags, does not have.
pub fn validate_flags(bits: u64, all: u64) -> (r: Result<u64, RuntimeError>)
    ensures
        match r {
            Ok(v) => v == bits && bits & !all == 0,
            Err(e) => e == RuntimeError::InvalidDiscriminant && bits & !all != 0,
        },
{
    if bits & !all != 0 {
        Err(RuntimeError::InvalidDiscriminant)
    } else {
        Ok(bits)
    }
}

} // verus!
