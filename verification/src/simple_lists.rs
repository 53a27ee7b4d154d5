//! The bindings of a module whose functions take and give lists of 32-bit
//! integers: a list goes over the boundary as a pointer into the guest's
//! memory and a number of elements.

use crate::memory::{
    address, checked_range, decode_all, encode_all, in_bounds, lemma_encode_all, load_at,
    load_many, splice, store_at, store_many, Scalar,
};
use crate::rt::{i32_from_u32, i32_of_u32, u32_from_i32, u32_of_i32, RuntimeError};
use vstd::bytes::{spec_u32_from_le_bytes, spec_u32_to_le_bytes};
use vstd::prelude::*;

verus! {

/// What the host implements for the module.
pub trait SimpleLists: Sized + Send + Sync + 'static {
    fn simple_list1(&mut self, l: &[u32]) -> ();

    fn simple_list2(&mut self) -> Vec<u32>;

    fn simple_list4(&mut self, l: Vec<Vec<u32>>) -> Vec<Vec<u32>>;
}

/// Whether the `len` elements at `ptr`, both read as unsigned, lie inside a
/// memory of `size` bytes.
pub open spec fn list_fits(size: nat, ptr: i32, len: i32) -> bool {
    in_bounds(size, ptr, 0, (u32_of_i32(len) * 4) as nat)
}

/// The `len` elements that stand at `ptr` in `mem`, in their order.
pub open spec fn list_at(mem: Seq<u8>, ptr: i32, len: i32) -> Seq<u32> {
    decode_all::<u32>(
        mem.subrange(address(ptr, 0), address(ptr, 0) + u32_of_i32(len) * 4),
        u32_of_i32(len) as nat,
    )
}

/// Lifts the list that `simple-list1` is called with from the guest's
/// memory. Where it reaches beyond the memory, that is a bounds error and
/// nothing is read.
pub fn lift_simple_list1(mem: &[u8], ptr: i32, len: i32) -> (r: Result<Vec<u32>, RuntimeError>)
    ensures
        match r {
            Ok(v) => list_fits(mem@.len(), ptr, len) && v@ == list_at(mem@, ptr, len),
            Err(e) => e == RuntimeError::OutOfBounds && !list_fits(mem@.len(), ptr, len),
        },
{
    load_many::<u32>(mem, ptr, len)
}

/// What the guest calls as `simple-list1`: lifts the list from the guest's
/// memory and hands it to the host. Where the list reaches beyond the
/// memory, the host is not called.
pub fn simple_list1<T: SimpleLists>(host: &mut T, mem: &[u8], ptr: i32, len: i32) -> (r: Result<
    (),
    RuntimeError,
>)
    ensures
        r is Ok <==> list_fits(mem@.len(), ptr, len),
        r matches Err(e) ==> e == RuntimeError::OutOfBounds && *final(host) == *old(host),
{
    let list = lift_simple_list1(mem, ptr, len)?;
    host.simple_list1(list.as_slice());
    Ok(())
}

/// The bytes of a core integer, lowest first.
pub open spec fn word(x: i32) -> Seq<u8> {
    spec_u32_to_le_bytes(u32_of_i32(x))
}

/// The core integer that stands at the address `at` in `mem`.
pub open spec fn word_at(mem: Seq<u8>, at: int) -> i32 {
    i32_of_u32(spec_u32_from_le_bytes(mem.subrange(at, at + 4)))
}

/// The number of elements of a list as the core integer that carries it:
/// its low 32 bits.
pub open spec fn count_of(n: nat) -> i32 {
    i32_of_u32(n as u32)
}

/// `mem` with the pair of a list at the address `at`: the pointer first,
/// the number of elements four bytes on. The number is written first.
pub open spec fn pair_stored(mem: Seq<u8>, at: int, ptr: i32, count: i32) -> Seq<u8> {
    splice(splice(mem, at + 4, word(count)), at, word(ptr))
}

/// What lowering `list` does to `mem`, and whether it succeeds: the
/// elements go to `ptr`, which the guest allocated for them, and then
/// pointer and number go to the address `at`. Where the elements reach
/// beyond the memory nothing is written; where the pair does, the elements
/// are.
pub open spec fn list_lowered(mem: Seq<u8>, at: int, ptr: i32, list: Seq<u32>) -> (Seq<u8>, bool) {
    if !in_bounds(mem.len(), ptr, 0, list.len() * 4) {
        (mem, false)
    } else {
        let written = splice(mem, address(ptr, 0), encode_all(list));
        if at + 8 > mem.len() {
            (written, false)
        } else {
            (pair_stored(written, at, ptr, count_of(list.len())), true)
        }
    }
}

/// The address that `base` names, read as unsigned.
pub fn address_of(base: i32) -> (r: u128)
    ensures
        r == address(base, 0),
{
    u32_from_i32(base) as u128
}

/// Lowers `list` to `ptr` and its pair to the address `at`.
fn lower_list_at(mem: &mut Vec<u8>, at: u128, ptr: i32, list: &Vec<u32>) -> (r: Result<
    (),
    RuntimeError,
>)
    ensures
        (final(mem)@, r is Ok) == list_lowered(old(mem)@, at as int, ptr, list@),
        r matches Err(e) ==> e == RuntimeError::OutOfBounds,
{
    store_many(mem, ptr, list)?;
    let count = i32_from_u32(#[verifier::truncate] (list.len() as u32));
    proof {
        lemma_encode_all::<u32>(list@);
        lemma_splice_len(old(mem)@, address(ptr, 0), encode_all(list@));
        i32::lemma_scalar(count);
        i32::lemma_scalar(ptr);
    }
    let size = mem.len();
    if at > u128::MAX - 4 {
        assert(at + 8 > size);
        return Err(RuntimeError::OutOfBounds);
    }
    let ghost written = mem@;
    store_at(mem, at + 4, count)?;
    proof {
        lemma_splice_len(written, at + 4, word(count));
    }
    store_at(mem, at, ptr)?;
    proof {
        lemma_splice_len(splice(written, at + 4, word(count)), at as int, word(ptr));
    }
    Ok(())
}

/// Bytes written inside a memory leave its length.
pub proof fn lemma_splice_len(mem: Seq<u8>, at: int, bytes: Seq<u8>)
    requires
        0 <= at,
        at + bytes.len() <= mem.len(),
    ensures
        splice(mem, at, bytes).len() == mem.len(),
{
}

/// What the closure of `simple-list2` does with the list that the host
/// gave: lowers it to `ptr`, which the guest's allocator returned for it,
/// and writes pointer and number of elements to `arg0`, where the guest
/// looks for the result. A store that reaches beyond the memory is a bounds
/// error, and the stores before it stay.
pub fn lower_simple_list2(mem: &mut Vec<u8>, arg0: i32, ptr: i32, list: &Vec<u32>) -> (r: Result<
    (),
    RuntimeError,
>)
    ensures
        (final(mem)@, r is Ok) == list_lowered(old(mem)@, address(arg0, 0), ptr, list@),
        r is Ok <==> in_bounds(old(mem)@.len(), ptr, 0, list@.len() * 4) && in_bounds(
            old(mem)@.len(),
            arg0,
            0,
            8,
        ),
        r matches Err(e) ==> e == RuntimeError::OutOfBounds,
{
    lower_list_at(mem, address_of(arg0), ptr, list)
}

/// The pair of list `i` in the table at `base`: its pointer and its number
/// of elements.
pub open spec fn pair_at(mem: Seq<u8>, base: i32, i: int) -> (i32, i32) {
    (word_at(mem, address(base, 0) + 8 * i), word_at(mem, address(base, 0) + 8 * i + 4))
}

/// Whether the table of `len` pairs at `base` lies inside `mem`, and with
/// it every list that a pair names.
pub open spec fn lists_fit(mem: Seq<u8>, base: i32, len: i32) -> bool {
    &&& in_bounds(mem.len(), base, 0, (u32_of_i32(len) * 8) as nat)
    &&& forall|i: int|
        0 <= i < u32_of_i32(len) ==> list_fits(
            mem.len(),
            (#[trigger] pair_at(mem, base, i)).0,
            pair_at(mem, base, i).1,
        )
}

/// Lifts the list of lists that `simple-list4` is called with: `len` pairs
/// at `base`, each the pointer and the number of elements of one list.
/// Where the table or a list reaches beyond the memory, that is a bounds
/// error.
pub fn lift_simple_list4(mem: &[u8], base: i32, len: i32) -> (r: Result<Vec<Vec<u32>>, RuntimeError>)
    ensures
        match r {
            Ok(v) => {
                &&& lists_fit(mem@, base, len)
                &&& v@.len() == u32_of_i32(len)
                &&& forall|i: int|
                    0 <= i < v@.len() ==> (#[trigger] v@[i])@ == list_at(
                        mem@,
                        pair_at(mem@, base, i).0,
                        pair_at(mem@, base, i).1,
                    )
            },
            Err(e) => e == RuntimeError::OutOfBounds && !lists_fit(mem@, base, len),
        },
{
    let n = u32_from_i32(len);
    let start = match checked_range(mem.len(), base, 0, (n as u128) * 8) {
        Some(start) => start,
        None => {
            return Err(RuntimeError::OutOfBounds);
        },
    };
    let mut out: Vec<Vec<u32>> = Vec::new();
    let mut i: u32 = 0;
    while i < n
        invariant
            i <= n,
            n == u32_of_i32(len),
            start == address(base, 0),
            start + n * 8 <= mem@.len(),
            out@.len() == i,
            forall|j: int|
                0 <= j < i ==> list_fits(
                    mem@.len(),
                    (#[trigger] pair_at(mem@, base, j)).0,
                    pair_at(mem@, base, j).1,
                ),
            forall|j: int|
                0 <= j < i ==> (#[trigger] out@[j])@ == list_at(
                    mem@,
                    pair_at(mem@, base, j).0,
                    pair_at(mem@, base, j).1,
                ),
        decreases n - i,
    {
        let at = (start as u128) + (i as u128) * 8;
        let ptr = match load_at::<i32>(mem, at) {
            Ok(ptr) => ptr,
            Err(e) => {
                return Err(e);
            },
        };
        let count = match load_at::<i32>(mem, at + 4) {
            Ok(count) => count,
            Err(e) => {
                return Err(e);
            },
        };
        assert((ptr, count) == pair_at(mem@, base, i as int));
        match lift_simple_list1(mem, ptr, count) {
            Ok(list) => {
                out.push(list);
            },
            Err(e) => {
                return Err(e);
            },
        }
        i += 1;
    }
    Ok(out)
}

/// What lowering the first `n` of `lists` does to `mem`, and whether it
/// succeeds: list `i` goes to `ptrs[i]` and its pair to the table at
/// `table + 8 i`, one list after another, up to the first store that
/// reaches beyond the memory.
pub open spec fn lists_lowered(mem: Seq<u8>, table: int, ptrs: Seq<i32>, lists: Seq<Vec<u32>>, n: nat) -> (
    Seq<u8>,
    bool,
)
    decreases n,
{
    if n == 0 || n > lists.len() || n > ptrs.len() {
        (mem, true)
    } else {
        let before = lists_lowered(mem, table, ptrs, lists, (n - 1) as nat);
        if before.1 {
            list_lowered(before.0, table + 8 * (n - 1), ptrs[n - 1], lists[n - 1]@)
        } else {
            before
        }
    }
}

/// What returning `lists` does to `mem`, and whether it succeeds: the lists
/// are lowered into the table at `table`, and then the pointer to the table
/// and the number of lists go to `arg2`.
pub open spec fn lists_returned(mem: Seq<u8>, arg2: i32, table: i32, ptrs: Seq<i32>, lists: Seq<Vec<u32>>) -> (
    Seq<u8>,
    bool,
) {
    let done = lists_lowered(mem, address(table, 0), ptrs, lists, lists.len());
    if !done.1 {
        done
    } else if address(arg2, 0) + 8 > mem.len() {
        (done.0, false)
    } else {
        (pair_stored(done.0, address(arg2, 0), table, count_of(lists.len())), true)
    }
}

/// What the closure of `simple-list4` does with the lists that the host
/// gave: lowers list `i` to `ptrs[i]`, which the guest's allocator returned
/// for it, fills the table at `table`, which it returned for the pairs, and
/// writes the pointer to the table and the number of lists to `arg2`. A
/// store that reaches beyond the memory is a bounds error, and the stores
/// before it stay.
pub fn lower_simple_list4(
    mem: &mut Vec<u8>,
    arg2: i32,
    table: i32,
    ptrs: &Vec<i32>,
    lists: &Vec<Vec<u32>>,
) -> (r: Result<(), RuntimeError>)
    requires
        ptrs@.len() == lists@.len(),
    ensures
        (final(mem)@, r is Ok) == lists_returned(old(mem)@, arg2, table, ptrs@, lists@),
        r matches Err(e) ==> e == RuntimeError::OutOfBounds,
{
    let first = address_of(table);
    let mut i: usize = 0;
    while i < lists.len()
        invariant
            i <= lists@.len(),
            ptrs@.len() == lists@.len(),
            first == address(table, 0),
            mem@.len() == old(mem)@.len(),
            (mem@, true) == lists_lowered(old(mem)@, first as int, ptrs@, lists@, i as nat),
        decreases lists@.len() - i,
    {
        let at = first + (i as u128) * 8;
        let ghost before = mem@;
        match lower_list_at(mem, at, ptrs[i], &lists[i]) {
            Ok(()) => {
                proof {
                    let written = splice(before, address(ptrs@[i as int], 0), encode_all(lists@[i as int]@));
                    lemma_encode_all::<u32>(lists@[i as int]@);
                    lemma_splice_len(before, address(ptrs@[i as int], 0), encode_all(lists@[i as int]@));
                    i32::lemma_scalar(count_of(lists@[i as int]@.len()));
                    i32::lemma_scalar(ptrs@[i as int]);
                    lemma_splice_len(written, at + 4, word(count_of(lists@[i as int]@.len())));
                    lemma_splice_len(
                        splice(written, at + 4, word(count_of(lists@[i as int]@.len()))),
                        at as int,
                        word(ptrs@[i as int]),
                    );
                }
            },
            Err(e) => {
                proof {
                    lemma_lists_lowered_fail(
                        old(mem)@,
                        first as int,
                        ptrs@,
                        lists@,
                        (i + 1) as nat,
                        lists@.len(),
                    );
                }
                return Err(e);
            },
        }
        i += 1;
    }
    let count = i32_from_u32(#[verifier::truncate] (lists.len() as u32));
    let at = address_of(arg2);
    proof {
        i32::lemma_scalar(count);
        i32::lemma_scalar(table);
    }
    let ghost done = mem@;
    store_at(mem, at + 4, count)?;
    proof {
        lemma_splice_len(done, at + 4, word(count));
    }
    store_at(mem, at, table)?;
    Ok(())
}

/// Once a list could not be lowered, the lists after it are not lowered.
pub proof fn lemma_lists_lowered_fail(
    mem: Seq<u8>,
    table: int,
    ptrs: Seq<i32>,
    lists: Seq<Vec<u32>>,
    n: nat,
    m: nat,
)
    requires
        n <= m <= lists.len(),
        m <= ptrs.len(),
        !lists_lowered(mem, table, ptrs, lists, n).1,
    ensures
        lists_lowered(mem, table, ptrs, lists, m) == lists_lowered(mem, table, ptrs, lists, n),
    decreases m,
{
    if n < m {
        lemma_lists_lowered_fail(mem, table, ptrs, lists, n, (m - 1) as nat);
    }
}

/// The first part of what the guest calls as `simple-list4`: lifts the
/// lists from the guest's memory and hands them to the host. What the host
/// gives back is lowered by [`lower_simple_list4`] once the guest has
/// allocated room for it. Where the lists reach beyond the memory, the host
/// is not called.
pub fn simple_list4<T: SimpleLists>(host: &mut T, mem: &[u8], base: i32, len: i32) -> (r: Result<
    Vec<Vec<u32>>,
    RuntimeError,
>)
    ensures
        r is Ok <==> lists_fit(mem@, base, len),
        r matches Err(e) ==> e == RuntimeError::OutOfBounds && *final(host) == *old(host),
{
    let lists = lift_simple_list4(mem, base, len)?;
    Ok(host.simple_list4(lists))
}

} // verus!
