//! The bindings of a module with one function of twenty parameters: more
//! than go over the boundary as core values, so that the guest writes them
//! to its memory and hands over where they stand.

use crate::memory::{address, decode_all, in_bounds, load_many};
use crate::rt::RuntimeError;
use vstd::prelude::*;

verus! {

/// What the host implements for the module.
pub trait Imports: Sized + Send + Sync + 'static {
    fn many_arguments(
        &mut self,
        a1: u64,
        a2: u64,
        a3: u64,
        a4: u64,
        a5: u64,
        a6: u64,
        a7: u64,
        a8: u64,
        a9: u64,
        a10: u64,
        a11: u64,
        a12: u64,
        a13: u64,
        a14: u64,
        a15: u64,
        a16: u64,
        a17: u64,
        a18: u64,
        a19: u64,
        a20: u64,
    ) -> ();
}

/// The number of bytes that the twenty parameters take in memory.
pub const ARGUMENT_BYTES: usize = 160;

/// Whether the parameters that stand at `arg0` lie inside a memory of `len`
/// bytes.
pub open spec fn arguments_fit(len: nat, arg0: i32) -> bool {
    in_bounds(len, arg0, 0, ARGUMENT_BYTES as nat)
}

/// The parameters that stand at `arg0` in `mem`, in their order.
pub open spec fn arguments_at(mem: Seq<u8>, arg0: i32) -> Seq<u64> {
    decode_all::<u64>(mem.subrange(address(arg0, 0), address(arg0, 0) + ARGUMENT_BYTES), 20)
}

/// Lifts the parameters of `many-arguments` from the guest's memory. Where
/// they reach beyond the memory, that is a bounds error and nothing is
/// read.
pub fn lift_many_arguments(mem: &[u8], arg0: i32) -> (r: Result<Vec<u64>, RuntimeError>)
    ensures
        match r {
            Ok(v) => arguments_fit(mem@.len(), arg0) && v@ == arguments_at(mem@, arg0),
            Err(e) => e == RuntimeError::OutOfBounds && !arguments_fit(mem@.len(), arg0),
        },
{
    load_many::<u64>(mem, arg0, 20)
}

/// What the guest calls as `many-arguments`: lifts the parameters from the
/// guest's memory and hands them to the host. Where they reach beyond the
/// memory, the host is not called.
pub fn many_arguments<T: Imports>(host: &mut T, mem: &[u8], arg0: i32) -> (r: Result<(), RuntimeError>)
    ensures
        r is Ok <==> arguments_fit(mem@.len(), arg0),
        r matches Err(e) ==> e == RuntimeError::OutOfBounds && *final(host) == *old(host),
{
    let a = lift_many_arguments(mem, arg0)?;
    host.many_arguments(
        a[0],
        a[1],
        a[2],
        a[3],
        a[4],
        a[5],
        a[6],
        a[7],
        a[8],
        a[9],
        a[10],
        a[11],
        a[12],
        a[13],
        a[14],
        a[15],
        a[16],
        a[17],
        a[18],
        a[19],
    );
    Ok(())
}

} // verus!
