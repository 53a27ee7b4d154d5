//! Access to the guest's linear memory: every load and store is checked
//! against the extent of the memory before a byte is touched.

use crate::rt::{
    i16_from_u16, i16_of_u16, i32_from_u32, i32_of_u32, i64_from_u64, i64_of_u64, i8_from_u8,
    i8_of_u8, u16_from_i16, u16_of_i16, u32_from_i32, u32_of_i32, u64_from_i64, u64_of_i64,
    u8_from_i8, u8_of_i8, RuntimeError,
};
use vstd::bytes::{
    lemma_auto_spec_u16_to_from_le_bytes, lemma_auto_spec_u32_to_from_le_bytes,
    lemma_auto_spec_u64_to_from_le_bytes, spec_u16_from_le_bytes, spec_u16_to_le_bytes,
    spec_u32_from_le_bytes, spec_u32_to_le_bytes, spec_u64_from_le_bytes, spec_u64_to_le_bytes,
    u16_from_le_bytes, u16_to_le_bytes, u32_from_le_bytes, u32_to_le_bytes, u64_from_le_bytes,
    u64_to_le_bytes,
};
use vstd::prelude::*;
use vstd::slice::{slice_subrange, slice_to_vec};
use vstd::string::StringSliceAdditionalSpecFns;
use vstd::utf8::{decode_utf8, encode_utf8, valid_utf8};

verus! {

/// A type of which every pattern of bytes is a value, stored in memory in
/// little-endian order.
pub trait Scalar: Sized + Copy {
    /// The number of bytes of a value.
    spec fn spec_size() -> nat;

    /// The bytes of a value, lowest first.
    spec fn to_le(self) -> Seq<u8>;

    /// The value that the bytes stand for.
    spec fn from_le(bytes: Seq<u8>) -> Self;

    /// A value has `spec_size()` bytes, and reading them back gives the
    /// value again.
    proof fn lemma_scalar(x: Self)
        ensures
            1 <= Self::spec_size() <= 8,
            x.to_le().len() == Self::spec_size(),
            Self::from_le(x.to_le()) == x,
    ;

    fn size() -> (r: usize)
        ensures
            r == Self::spec_size(),
    ;

    fn read(bytes: &[u8]) -> (r: Self)
        requires
            bytes@.len() == Self::spec_size(),
        ensures
            r == Self::from_le(bytes@),
    ;

    fn write(self) -> (r: Vec<u8>)
        ensures
            r@ == self.to_le(),
    ;
}

impl Scalar for u8 {
    open spec fn spec_size() -> nat {
        1
    }

    open spec fn to_le(self) -> Seq<u8> {
        seq![self]
    }

    open spec fn from_le(bytes: Seq<u8>) -> u8 {
        bytes[0]
    }

    proof fn lemma_scalar(x: u8) {
    }

    fn size() -> (r: usize) {
        1
    }

    fn read(bytes: &[u8]) -> (r: u8) {
        bytes[0]
    }

    fn write(self) -> (r: Vec<u8>) {
        let mut out: Vec<u8> = Vec::new();
        out.push(self);
        assert(out@ =~= seq![self]);
        out
    }
}

impl Scalar for u16 {
    open spec fn spec_size() -> nat {
        2
    }

    open spec fn to_le(self) -> Seq<u8> {
        spec_u16_to_le_bytes(self)
    }

    open spec fn from_le(bytes: Seq<u8>) -> u16 {
        spec_u16_from_le_bytes(bytes)
    }

    proof fn lemma_scalar(x: u16) {
        lemma_auto_spec_u16_to_from_le_bytes();
    }

    fn size() -> (r: usize) {
        2
    }

    fn read(bytes: &[u8]) -> (r: u16) {
        u16_from_le_bytes(bytes)
    }

    fn write(self) -> (r: Vec<u8>) {
        u16_to_le_bytes(self)
    }
}

impl Scalar for u32 {
    open spec fn spec_size() -> nat {
        4
    }

    open spec fn to_le(self) -> Seq<u8> {
        spec_u32_to_le_bytes(self)
    }

    open spec fn from_le(bytes: Seq<u8>) -> u32 {
        spec_u32_from_le_bytes(bytes)
    }

    proof fn lemma_scalar(x: u32) {
        lemma_auto_spec_u32_to_from_le_bytes();
    }

    fn size() -> (r: usize) {
        4
    }

    fn read(bytes: &[u8]) -> (r: u32) {
        u32_from_le_bytes(bytes)
    }

    fn write(self) -> (r: Vec<u8>) {
        u32_to_le_bytes(self)
    }
}

impl Scalar for u64 {
    open spec fn spec_size() -> nat {
        8
    }

    open spec fn to_le(self) -> Seq<u8> {
        spec_u64_to_le_bytes(self)
    }

    open spec fn from_le(bytes: Seq<u8>) -> u64 {
        spec_u64_from_le_bytes(bytes)
    }

    proof fn lemma_scalar(x: u64) {
        lemma_auto_spec_u64_to_from_le_bytes();
    }

    fn size() -> (r: usize) {
        8
    }

    fn read(bytes: &[u8]) -> (r: u64) {
        u64_from_le_bytes(bytes)
    }

    fn write(self) -> (r: Vec<u8>) {
        u64_to_le_bytes(self)
    }
}

impl Scalar for i8 {
    open spec fn spec_size() -> nat {
        1
    }

    open spec fn to_le(self) -> Seq<u8> {
        seq![u8_of_i8(self)]
    }

    open spec fn from_le(bytes: Seq<u8>) -> i8 {
        i8_of_u8(bytes[0])
    }

    proof fn lemma_scalar(x: i8) {
    }

    fn size() -> (r: usize) {
        1
    }

    fn read(bytes: &[u8]) -> (r: i8) {
        i8_from_u8(bytes[0])
    }

    fn write(self) -> (r: Vec<u8>) {
        let mut out: Vec<u8> = Vec::new();
        out.push(u8_from_i8(self));
        assert(out@ =~= seq![u8_of_i8(self)]);
        out
    }
}

impl Scalar for i16 {
    open spec fn spec_size() -> nat {
        2
    }

    open spec fn to_le(self) -> Seq<u8> {
        spec_u16_to_le_bytes(u16_of_i16(self))
    }

    open spec fn from_le(bytes: Seq<u8>) -> i16 {
        i16_of_u16(spec_u16_from_le_bytes(bytes))
    }

    proof fn lemma_scalar(x: i16) {
        lemma_auto_spec_u16_to_from_le_bytes();
    }

    fn size() -> (r: usize) {
        2
    }

    fn read(bytes: &[u8]) -> (r: i16) {
        i16_from_u16(u16_from_le_bytes(bytes))
    }

    fn write(self) -> (r: Vec<u8>) {
        u16_to_le_bytes(u16_from_i16(self))
    }
}

impl Scalar for i32 {
    open spec fn spec_size() -> nat {
        4
    }

    open spec fn to_le(self) -> Seq<u8> {
        spec_u32_to_le_bytes(u32_of_i32(self))
    }

    open spec fn from_le(bytes: Seq<u8>) -> i32 {
        i32_of_u32(spec_u32_from_le_bytes(bytes))
    }

    proof fn lemma_scalar(x: i32) {
        lemma_auto_spec_u32_to_from_le_bytes();
    }

    fn size() -> (r: usize) {
        4
    }

    fn read(bytes: &[u8]) -> (r: i32) {
        i32_from_u32(u32_from_le_bytes(bytes))
    }

    fn write(self) -> (r: Vec<u8>) {
        u32_to_le_bytes(u32_from_i32(self))
    }
}

impl Scalar for i64 {
    open spec fn spec_size() -> nat {
        8
    }

    open spec fn to_le(self) -> Seq<u8> {
        spec_u64_to_le_bytes(u64_of_i64(self))
    }

    open spec fn from_le(bytes: Seq<u8>) -> i64 {
        i64_of_u64(spec_u64_from_le_bytes(bytes))
    }

    proof fn lemma_scalar(x: i64) {
        lemma_auto_spec_u64_to_from_le_bytes();
    }

    fn size() -> (r: usize) {
        8
    }

    fn read(bytes: &[u8]) -> (r: i64) {
        i64_from_u64(u64_from_le_bytes(bytes))
    }

    fn write(self) -> (r: Vec<u8>) {
        u64_to_le_bytes(u64_from_i64(self))
    }
}

/// The address that `base` and `offset` name: `base` read as an unsigned
/// 32-bit integer, plus `offset`.
pub open spec fn address(base: i32, offset: i32) -> int {
    u32_of_i32(base) as int + offset as int
}

/// Whether the `size` bytes at `base + offset` lie inside a memory of `len`
/// bytes.
pub open spec fn in_bounds(len: nat, base: i32, offset: i32, size: nat) -> bool {
    0 <= address(base, offset) && address(base, offset) + size <= len
}

/// `mem` with `bytes` written over what it held from `at` on.
pub open spec fn splice(mem: Seq<u8>, at: int, bytes: Seq<u8>) -> Seq<u8> {
    mem.subrange(0, at) + bytes + mem.subrange(at + bytes.len(), mem.len() as int)
}

/// The bytes of `vals`, value after value.
pub open spec fn encode_all<T: Scalar>(vals: Seq<T>) -> Seq<u8>
    decreases vals.len(),
{
    if vals.len() == 0 {
        Seq::empty()
    } else {
        encode_all(vals.drop_last()) + vals.last().to_le()
    }
}

/// The `n` values that `bytes` hold, value after value.
pub open spec fn decode_all<T: Scalar>(bytes: Seq<u8>, n: nat) -> Seq<T> {
    Seq::new(
        n,
        |k: int| T::from_le(bytes.subrange(k * T::spec_size(), (k + 1) * T::spec_size())),
    )
}

/// The start of the `size` bytes at `base + offset`, if they lie inside a
/// memory of `len` bytes.
pub fn checked_range(len: usize, base: i32, offset: i32, size: u128) -> (r: Option<usize>)
    ensures
        match r {
            Some(at) => in_bounds(len as nat, base, offset, size as nat) && at == address(
                base,
                offset,
            ),
            None => !in_bounds(len as nat, base, offset, size as nat),
        },
{
    let addr: i64 = (u32_from_i32(base) as i64) + (offset as i64);
    if addr < 0 {
        return None;
    }
    let at = addr as u64;
    if (len as u64) < at {
        return None;
    }
    if size > ((len as u64) - at) as u128 {
        return None;
    }
    Some(at as usize)
}

/// Writes `bytes` over what `mem` holds from `at` on.
fn write_bytes(mem: &mut Vec<u8>, at: usize, bytes: &Vec<u8>)
    requires
        at + bytes@.len() <= old(mem)@.len(),
    ensures
        final(mem)@ == splice(old(mem)@, at as int, bytes@),
{
    let total = mem.len();
    let mut i: usize = 0;
    while i < bytes.len()
        invariant
            i <= bytes@.len(),
            at + bytes@.len() <= mem@.len(),
            mem@.len() == old(mem)@.len(),
            mem@.len() == total,
            forall|j: int| 0 <= j < at ==> mem@[j] == old(mem)@[j],
            forall|j: int| at <= j < at + i ==> mem@[j] == bytes@[j - at],
            forall|j: int| at + i <= j < mem@.len() ==> mem@[j] == old(mem)@[j],
        decreases bytes@.len() - i,
    {
        mem.set(at + i, bytes[i]);
        i += 1;
    }
    assert(mem@ =~= splice(old(mem)@, at as int, bytes@));
}

/// Loads a value from `base + offset`. An access that reaches beyond the
/// memory is a bounds error, and nothing is read.
pub fn load<T: Scalar>(mem: &[u8], base: i32, offset: i32) -> (r: Result<T, RuntimeError>)
    ensures
        match r {
            Ok(v) => in_bounds(mem@.len(), base, offset, T::spec_size()) && v == T::from_le(
                mem@.subrange(address(base, offset), address(base, offset) + T::spec_size()),
            ),
            Err(e) => e == RuntimeError::OutOfBounds && !in_bounds(
                mem@.len(),
                base,
                offset,
                T::spec_size(),
            ),
        },
{
    let size = T::size();
    match checked_range(mem.len(), base, offset, size as u128) {
        Some(at) => Ok(T::read(slice_subrange(mem, at, at + size))),
        None => Err(RuntimeError::OutOfBounds),
    }
}

/// Loads a value from the address `at`. An access that reaches beyond the
/// memory is a bounds error, and nothing is read.
pub fn load_at<T: Scalar>(mem: &[u8], at: u128) -> (r: Result<T, RuntimeError>)
    ensures
        match r {
            Ok(v) => at + T::spec_size() <= mem@.len() && v == T::from_le(
                mem@.subrange(at as int, at + T::spec_size()),
            ),
            Err(e) => e == RuntimeError::OutOfBounds && at + T::spec_size() > mem@.len(),
        },
{
    let size = T::size();
    if at > mem.len() as u128 || size as u128 > mem.len() as u128 - at {
        return Err(RuntimeError::OutOfBounds);
    }
    let start = at as usize;
    Ok(T::read(slice_subrange(mem, start, start + size)))
}

/// Stores `val` at the address `at`. An access that reaches beyond the
/// memory is a bounds error, and nothing is written.
pub fn store_at<T: Scalar>(mem: &mut Vec<u8>, at: u128, val: T) -> (r: Result<(), RuntimeError>)
    ensures
        match r {
            Ok(()) => at + T::spec_size() <= old(mem)@.len() && final(mem)@ == splice(
                old(mem)@,
                at as int,
                val.to_le(),
            ),
            Err(e) => e == RuntimeError::OutOfBounds && at + T::spec_size() > old(mem)@.len()
                && final(mem)@ == old(mem)@,
        },
{
    let bytes = val.write();
    proof {
        T::lemma_scalar(val);
    }
    if at > mem.len() as u128 || bytes.len() as u128 > mem.len() as u128 - at {
        return Err(RuntimeError::OutOfBounds);
    }
    write_bytes(mem, at as usize, &bytes);
    Ok(())
}

/// Stores `val` at `base + offset`. An access that reaches beyond the
/// memory is a bounds error, and nothing is written.
pub fn store<T: Scalar>(mem: &mut Vec<u8>, base: i32, offset: i32, val: T) -> (r: Result<
    (),
    RuntimeError,
>)
    ensures
        match r {
            Ok(()) => in_bounds(old(mem)@.len(), base, offset, T::spec_size()) && final(mem)@
                == splice(old(mem)@, address(base, offset), val.to_le()),
            Err(e) => e == RuntimeError::OutOfBounds && !in_bounds(
                old(mem)@.len(),
                base,
                offset,
                T::spec_size(),
            ) && final(mem)@ == old(mem)@,
        },
{
    let bytes = val.write();
    proof {
        T::lemma_scalar(val);
    }
    match checked_range(mem.len(), base, offset, bytes.len() as u128) {
        Some(at) => {
            write_bytes(mem, at, &bytes);
            Ok(())
        },
        None => Err(RuntimeError::OutOfBounds),
    }
}

/// The bytes of `vals` have `vals.len()` times the size of one value, and
/// the bytes of value `k` stand at `k` times that size.
pub proof fn lemma_encode_all<T: Scalar>(vals: Seq<T>)
    ensures
        encode_all(vals).len() == vals.len() * T::spec_size(),
        forall|k: int|
            0 <= k < vals.len() ==> #[trigger] encode_all(vals).subrange(
                k * T::spec_size(),
                (k + 1) * T::spec_size(),
            ) == vals[k].to_le(),
    decreases vals.len(),
{
    let size = T::spec_size() as int;
    if vals.len() == 0 {
        assert(vals.len() * T::spec_size() == 0) by (nonlinear_arith)
            requires
                vals.len() == 0,
        ;
    } else {
        let front = vals.drop_last();
        let n = front.len() as int;
        lemma_encode_all(front);
        T::lemma_scalar(vals.last());
        assert((n + 1) * size == n * size + size) by (nonlinear_arith);
        assert forall|k: int| 0 <= k < vals.len() implies #[trigger] encode_all(vals).subrange(
            k * T::spec_size(),
            (k + 1) * T::spec_size(),
        ) == vals[k].to_le() by {
            assert((k + 1) * size == k * size + size) by (nonlinear_arith);
            assert(0 <= k * size && k * size + size <= (n + 1) * size) by (nonlinear_arith)
                requires
                    0 <= k <= n,
                    size >= 1,
            ;
            if k < n {
                assert(k * size + size <= n * size) by (nonlinear_arith)
                    requires
                        0 <= k < n,
                        size >= 1,
                ;
                assert(encode_all(vals).subrange(k * size, (k + 1) * size) =~= encode_all(
                    front,
                ).subrange(k * size, (k + 1) * size));
                assert(front[k] == vals[k]);
            } else {
                assert(encode_all(vals).subrange(k * size, (k + 1) * size) =~= vals.last().to_le());
            }
        }
    }
}

/// Round trip of a list whose elements are valid in every bit pattern:
/// what is read back from where the list was written is the list.
pub proof fn lemma_list_round_trip<T: Scalar>(mem: Seq<u8>, at: int, vals: Seq<T>)
    requires
        0 <= at,
        at + encode_all(vals).len() <= mem.len(),
    ensures
        decode_all::<T>(
            splice(mem, at, encode_all(vals)).subrange(at, at + vals.len() * T::spec_size()),
            vals.len(),
        ) == vals,
{
    lemma_encode_all(vals);
    let written = splice(mem, at, encode_all(vals));
    let region = written.subrange(at, at + vals.len() * T::spec_size());
    assert(region =~= encode_all(vals));
    let back = decode_all::<T>(region, vals.len());
    assert forall|k: int| 0 <= k < vals.len() implies back[k] == vals[k] by {
        T::lemma_scalar(vals[k]);
    }
    assert(back =~= vals);
}

/// The bytes of `vals`, value after value.
fn encode<T: Scalar>(vals: &Vec<T>) -> (r: Vec<u8>)
    ensures
        r@ == encode_all(vals@),
{
    let mut out: Vec<u8> = Vec::new();
    let mut k: usize = 0;
    while k < vals.len()
        invariant
            k <= vals@.len(),
            out@ == encode_all(vals@.take(k as int)),
        decreases vals@.len() - k,
    {
        let mut bytes = vals[k].write();
        out.append(&mut bytes);
        k += 1;
        assert(vals@.take(k as int).drop_last() =~= vals@.take(k - 1));
    }
    assert(vals@.take(k as int) =~= vals@);
    out
}

/// The `n` values that `bytes` hold, value after value.
fn decode<T: Scalar>(bytes: &[u8], n: usize) -> (r: Vec<T>)
    requires
        bytes@.len() == n * T::spec_size(),
    ensures
        r@ == decode_all::<T>(bytes@, n as nat),
{
    let size = T::size();
    let total = bytes.len();
    let mut out: Vec<T> = Vec::new();
    let mut k: usize = 0;
    while k < n
        invariant
            k <= n,
            size == T::spec_size(),
            bytes@.len() == n * T::spec_size(),
            bytes@.len() == total,
            out@.len() == k,
            forall|j: int| 0 <= j < k ==> #[trigger] out@[j] == decode_all::<T>(bytes@, n as nat)[j],
        decreases n - k,
    {
        assert((k + 1) * size == k * size + size) by (nonlinear_arith);
        assert(0 <= k * size && k * size + size <= n * size) by (nonlinear_arith)
            requires
                0 <= k < n,
                size >= 0,
        ;
        let v = T::read(slice_subrange(bytes, k * size, k * size + size));
        out.push(v);
        k += 1;
    }
    assert(out@ =~= decode_all::<T>(bytes@, n as nat));
    out
}

/// Lowers a list whose elements are valid in every bit pattern: writes the
/// elements, one after another, to the memory that was allocated for them at
/// `ptr`. A list that reaches beyond the memory is a bounds error, and
/// nothing is written.
pub fn store_many<T: Scalar>(mem: &mut Vec<u8>, ptr: i32, vals: &Vec<T>) -> (r: Result<
    (),
    RuntimeError,
>)
    ensures
        match r {
            Ok(()) => in_bounds(old(mem)@.len(), ptr, 0, vals@.len() * T::spec_size())
                && final(mem)@ == splice(old(mem)@, address(ptr, 0), encode_all(vals@)),
            Err(e) => e == RuntimeError::OutOfBounds && !in_bounds(
                old(mem)@.len(),
                ptr,
                0,
                vals@.len() * T::spec_size(),
            ) && final(mem)@ == old(mem)@,
        },
{
    let bytes = encode(vals);
    proof {
        lemma_encode_all(vals@);
    }
    match checked_range(mem.len(), ptr, 0, bytes.len() as u128) {
        Some(at) => {
            write_bytes(mem, at, &bytes);
            Ok(())
        },
        None => Err(RuntimeError::OutOfBounds),
    }
}

/// Lifts a list whose elements are valid in every bit pattern: copies `len`
/// elements out of the memory at `ptr`, without looking at them. Pointer and
/// length are read as unsigned. A list that reaches beyond the memory is a
/// bounds error.
pub fn load_many<T: Scalar>(mem: &[u8], ptr: i32, len: i32) -> (r: Result<Vec<T>, RuntimeError>)
    ensures
        match r {
            Ok(vals) => in_bounds(
                mem@.len(),
                ptr,
                0,
                (u32_of_i32(len) * T::spec_size()) as nat,
            ) && vals@
                == decode_all::<T>(
                mem@.subrange(
                    address(ptr, 0),
                    address(ptr, 0) + u32_of_i32(len) * T::spec_size(),
                ),
                u32_of_i32(len) as nat,
            ),
            Err(e) => e == RuntimeError::OutOfBounds && !in_bounds(
                mem@.len(),
                ptr,
                0,
                (u32_of_i32(len) * T::spec_size()) as nat,
            ),
        },
{
    let n = u32_from_i32(len);
    let size = T::size();
    proof {
        let probe = T::from_le(Seq::empty());
        T::lemma_scalar(probe);
        assert(n * size <= 0xffff_ffff * 8) by (nonlinear_arith)
            requires
                0 <= n <= 0xffff_ffff,
                0 <= size <= 8,
        ;
    }
    let total: u128 = (n as u128) * (size as u128);
    match checked_range(mem.len(), ptr, 0, total) {
        Some(at) => Ok(decode(slice_subrange(mem, at, at + total as usize), n as usize)),
        None => Err(RuntimeError::OutOfBounds),
    }
}

/// `String::from_utf8` of the standard library: the string that the bytes
/// encode, for exactly the bytes that are UTF-8.
#[verifier::external_body]
fn string_of_utf8(bytes: Vec<u8>) -> (r: Option<String>)
    ensures
        r is Some <==> valid_utf8(bytes@),
        r matches Some(s) ==> s@ == decode_utf8(bytes@),
{
    String::from_utf8(bytes).ok()
}

/// Lowers a string: writes its UTF-8 bytes to the memory that was allocated
/// for them at `ptr`, and returns their number. A string that reaches
/// beyond the memory is a bounds error, and nothing is written.
pub fn store_string(mem: &mut Vec<u8>, ptr: i32, s: &str) -> (r: Result<usize, RuntimeError>)
    ensures
        match r {
            Ok(len) => in_bounds(old(mem)@.len(), ptr, 0, encode_utf8(s@).len()) && final(mem)@
                == splice(old(mem)@, address(ptr, 0), encode_utf8(s@)) && len == encode_utf8(
                s@,
            ).len(),
            Err(e) => e == RuntimeError::OutOfBounds && !in_bounds(
                old(mem)@.len(),
                ptr,
                0,
                encode_utf8(s@).len(),
            ) && final(mem)@ == old(mem)@,
        },
{
    let bytes = slice_to_vec(s.as_bytes());
    match checked_range(mem.len(), ptr, 0, bytes.len() as u128) {
        Some(at) => {
            write_bytes(mem, at, &bytes);
            Ok(bytes.len())
        },
        None => Err(RuntimeError::OutOfBounds),
    }
}

/// Lifts a string: copies `len` bytes out of the memory at `ptr` and checks
/// that they are UTF-8. Pointer and length are read as unsigned.
pub fn load_string(mem: &[u8], ptr: i32, len: i32) -> (r: Result<String, RuntimeError>)
    ensures
        match r {
            Ok(s) => {
                &&& in_bounds(mem@.len(), ptr, 0, u32_of_i32(len) as nat)
                &&& valid_utf8(mem@.subrange(address(ptr, 0), address(ptr, 0) + u32_of_i32(len)))
                &&& s@ == decode_utf8(
                    mem@.subrange(address(ptr, 0), address(ptr, 0) + u32_of_i32(len)),
                )
            },
            Err(RuntimeError::OutOfBounds) => !in_bounds(
                mem@.len(),
                ptr,
                0,
                u32_of_i32(len) as nat,
            ),
            Err(RuntimeError::InvalidUtf8) => {
                &&& in_bounds(mem@.len(), ptr, 0, u32_of_i32(len) as nat)
                &&& !valid_utf8(mem@.subrange(address(ptr, 0), address(ptr, 0) + u32_of_i32(len)))
            },
            Err(_) => false,
        },
{
    let n = u32_from_i32(len);
    match checked_range(mem.len(), ptr, 0, n as u128) {
        Some(at) => {
            let bytes = slice_to_vec(slice_subrange(mem, at, at + n as usize));
            match string_of_utf8(bytes) {
                Some(s) => Ok(s),
                None => Err(RuntimeError::InvalidUtf8),
            }
        },
        None => Err(RuntimeError::OutOfBounds),
    }
}

/// Round trip of a string: what is read back from where the string was
/// written is UTF-8 and decodes to the string.
pub proof fn lemma_string_round_trip(mem: Seq<u8>, at: int, chars: Seq<char>)
    requires
        0 <= at,
        at + encode_utf8(chars).len() <= mem.len(),
    ensures
        valid_utf8(
            splice(mem, at, encode_utf8(chars)).subrange(at, at + encode_utf8(chars).len()),
        ),
        decode_utf8(
            splice(mem, at, encode_utf8(chars)).subrange(at, at + encode_utf8(chars).len()),
        ) == chars,
{
    let written = splice(mem, at, encode_utf8(chars));
    assert(written.subrange(at, at + encode_utf8(chars).len()) =~= encode_utf8(chars));
    vstd::utf8::encode_utf8_valid_utf8(chars);
    vstd::utf8::encode_utf8_decode_utf8(chars);
}

} // verus!
