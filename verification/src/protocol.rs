//! The protocol that the compiler of a call hands to a renderer: a list of
//! steps, each an instruction with the operands it takes, or the start or
//! end of a block.

use crate::abi::{AbiVariant, WasmType};
use crate::instruction::{cast, spec_cast, spec_operands_len, Bitcast, Instruction, LiftLower};
use crate::types::TypeDef;
use vstd::prelude::*;

verus! {

/// A value that an instruction gave: the position of the step that gave it,
/// and which of the step's results it is. What it stands for in the
/// generated code is for the renderer to say.
#[derive(Clone, Copy, Debug, PartialEq, Eq, Hash, Structural)]
pub struct Operand {
    pub step: usize,
    pub index: usize,
}

/// One step of the protocol.
#[derive(Clone, Debug, PartialEq, Eq)]
pub enum Step {
    /// An instruction and the operands it takes. Its results are the
    /// operands with this step's position.
    Emit { inst: Instruction, operands: Vec<Operand> },
    /// What follows, up to the matching `FinishBlock`, is kept apart: it is
    /// the code for one case of a variant or one element of a list, which
    /// the instruction after the blocks puts in its place.
    PushBlock,
    /// Ends a block, whose value is made of `operands`.
    FinishBlock { operands: Vec<Operand> },
    /// Asks for static space of the given size and alignment; its address
    /// is the one result of this step.
    ReturnPointer { size: usize, align: usize },
}

pub enum StepView {
    Emit { inst: Instruction, operands: Seq<Operand> },
    PushBlock,
    FinishBlock { operands: Seq<Operand> },
    ReturnPointer { size: usize, align: usize },
}

impl View for Step {
    type V = StepView;

    open spec fn view(&self) -> StepView {
        match self {
            Step::Emit { inst, operands } => StepView::Emit { inst: *inst, operands: operands@ },
            Step::PushBlock => StepView::PushBlock,
            Step::FinishBlock { operands } => StepView::FinishBlock { operands: operands@ },
            Step::ReturnPointer { size, align } => StepView::ReturnPointer {
                size: *size,
                align: *align,
            },
        }
    }
}

/// The steps of `v` as plain values.
pub open spec fn steps_view(v: Seq<Step>) -> Seq<StepView> {
    Seq::new(v.len(), |i: int| v[i]@)
}

/// What a compilation works in: the definitions of the interface, the side
/// of the boundary, and the way the values go.
pub struct Ctx {
    pub types: Seq<TypeDef>,
    pub variant: AbiVariant,
    pub lift_lower: LiftLower,
}

/// Whether a lowered list is given to the guest, in memory allocated there.
/// The arguments of an import stay with the caller; everything else changes
/// hands.
pub open spec fn spec_realloc(variant: AbiVariant, lift_lower: LiftLower) -> bool {
    !(variant == AbiVariant::GuestImport && lift_lower == LiftLower::LowerArgsLiftResults)
}

/// Whether the memory of a lifted list is given back to the guest. The
/// arguments of an import stay with the caller; everything else changes
/// hands.
pub open spec fn spec_free(variant: AbiVariant, lift_lower: LiftLower) -> bool {
    !(variant == AbiVariant::GuestImport && lift_lower == LiftLower::LiftArgsLowerResults)
}

/// Result `k` of the step that comes next after `steps`.
pub open spec fn result_of(steps: Seq<StepView>, k: nat) -> Operand {
    Operand { step: steps.len() as usize, index: k as usize }
}

/// The first `n` results of the step that comes next after `steps`.
pub open spec fn results_of(steps: Seq<StepView>, n: nat) -> Seq<Operand> {
    Seq::new(n, |k: int| result_of(steps, k as nat))
}

/// Whether every instruction of `steps` has as many operands as it takes.
pub open spec fn arity_ok(steps: Seq<StepView>) -> bool {
    forall|i: int|
        0 <= i < steps.len() ==> (#[trigger] steps[i] matches StepView::Emit { inst, operands }
            ==> operands.len() == spec_operands_len(inst))
}

/// `steps` followed by an instruction.
pub open spec fn emitted(steps: Seq<StepView>, inst: Instruction, operands: Seq<Operand>) -> Seq<
    StepView,
> {
    steps.push(StepView::Emit { inst, operands })
}

/// `steps` followed by the start of a block.
pub open spec fn opened(steps: Seq<StepView>) -> Seq<StepView> {
    steps.push(StepView::PushBlock)
}

/// `steps` followed by the end of a block with the given value.
pub open spec fn closed(steps: Seq<StepView>, operands: Seq<Operand>) -> Seq<StepView> {
    steps.push(StepView::FinishBlock { operands })
}

/// `offset` moved on by `delta` bytes.
pub open spec fn offset_by(offset: i32, delta: nat) -> i32 {
    (offset + delta) as i32
}

/// The first `n` of `ops`, each changed from the type it has in `from` to
/// the type it is to have in `to`, where the two differ: the steps that
/// change them, and the operands after the change.
pub open spec fn cast_all(
    steps: Seq<StepView>,
    ops: Seq<Operand>,
    from: Seq<WasmType>,
    to: Seq<WasmType>,
    n: nat,
) -> (Seq<StepView>, Seq<Operand>)
    decreases n,
{
    if n == 0 || n > ops.len() || n > from.len() || n > to.len() {
        (steps, Seq::empty())
    } else {
        let before = cast_all(steps, ops, from, to, (n - 1) as nat);
        let cast = spec_cast(from[n - 1], to[n - 1]);
        if cast == Bitcast::Keep {
            (before.0, before.1.push(ops[n - 1]))
        } else {
            (
                emitted(before.0, Instruction::Bitcast { cast }, seq![ops[n - 1]]),
                before.1.push(result_of(before.0, 0)),
            )
        }
    }
}

/// A zero for each of the types `tys[from..n]`: the steps that give them,
/// and the zeros.
pub open spec fn zeros(steps: Seq<StepView>, tys: Seq<WasmType>, from: nat, n: nat) -> (
    Seq<StepView>,
    Seq<Operand>,
)
    decreases n,
{
    if n <= from || n > tys.len() {
        (steps, Seq::empty())
    } else {
        let before = zeros(steps, tys, from, (n - 1) as nat);
        (
            emitted(before.0, Instruction::ConstZero { ty: tys[n - 1] }, Seq::empty()),
            before.1.push(result_of(before.0, 0)),
        )
    }
}

/// Stores pointer and length of a list, which `pair` holds, at `offset`
/// from `addr`: the pointer at the lower address.
pub open spec fn store_pair(steps: Seq<StepView>, pair: Seq<Operand>, addr: Operand, offset: i32) -> Seq<
    StepView,
> {
    emitted(
        emitted(steps, Instruction::I32Store { offset: offset_by(offset, 4) }, seq![pair[1], addr]),
        Instruction::I32Store { offset },
        seq![pair[0], addr],
    )
}

/// Loads pointer and length of a list from `offset` from `addr`: the steps,
/// and the two values.
pub open spec fn load_pair(steps: Seq<StepView>, addr: Operand, offset: i32) -> (
    Seq<StepView>,
    Seq<Operand>,
) {
    let first = emitted(steps, Instruction::I32Load { offset }, seq![addr]);
    (
        emitted(first, Instruction::I32Load { offset: offset_by(offset, 4) }, seq![addr]),
        seq![result_of(steps, 0), result_of(first, 0)],
    )
}

/// Stores the 32-bit words `words[n - done..n]`, the last first, each at
/// four times its position from `offset`.
pub open spec fn store_words(
    steps: Seq<StepView>,
    words: Seq<Operand>,
    addr: Operand,
    offset: i32,
    n: nat,
    done: nat,
) -> Seq<StepView>
    decreases done,
{
    if done == 0 || done > n || n > words.len() {
        steps
    } else {
        emitted(
            store_words(steps, words, addr, offset, n, (done - 1) as nat),
            Instruction::I32Store { offset: offset_by(offset, ((n - done) * 4) as nat) },
            seq![words[n - done], addr],
        )
    }
}

/// Loads `n` 32-bit words, each from four times its position from
/// `offset`: the steps, and the words.
pub open spec fn load_words(steps: Seq<StepView>, addr: Operand, offset: i32, n: nat) -> (
    Seq<StepView>,
    Seq<Operand>,
)
    decreases n,
{
    if n == 0 {
        (steps, Seq::empty())
    } else {
        let before = load_words(steps, addr, offset, (n - 1) as nat);
        (
            emitted(
                before.0,
                Instruction::I32Load { offset: offset_by(offset, ((n - 1) * 4) as nat) },
                seq![addr],
            ),
            before.1.push(result_of(before.0, 0)),
        )
    }
}

/// Appends an instruction with its operands and returns the position of
/// its step.
pub fn emit(steps: &mut Vec<Step>, inst: Instruction, operands: Vec<Operand>) -> (at: usize)
    requires
        operands@.len() == spec_operands_len(inst),
    ensures
        arity_ok(steps_view(old(steps)@)) ==> arity_ok(steps_view(final(steps)@)),
        steps_view(final(steps)@) == emitted(steps_view(old(steps)@), inst, operands@),
        at == old(steps)@.len(),
        at == steps_view(old(steps)@).len(),
{
    let at = steps.len();
    steps.push(Step::Emit { inst, operands });
    assert(steps_view(steps@) =~= emitted(steps_view(old(steps)@), inst, operands@));
    at
}

/// Appends the start of a block and returns the position of the step after
/// it.
pub fn push_block(steps: &mut Vec<Step>)
    ensures
        arity_ok(steps_view(old(steps)@)) ==> arity_ok(steps_view(final(steps)@)),
        steps_view(final(steps)@) == opened(steps_view(old(steps)@)),
{
    steps.push(Step::PushBlock);
    assert(steps_view(steps@) =~= opened(steps_view(old(steps)@)));
}

/// Appends the end of a block whose value is made of `operands`.
pub fn finish_block(steps: &mut Vec<Step>, operands: Vec<Operand>)
    ensures
        arity_ok(steps_view(old(steps)@)) ==> arity_ok(steps_view(final(steps)@)),
        steps_view(final(steps)@) == closed(steps_view(old(steps)@), operands@),
{
    steps.push(Step::FinishBlock { operands });
    assert(steps_view(steps@) =~= closed(steps_view(old(steps)@), operands@));
}

/// The first `n` results of the step at `at`.
pub fn results(at: usize, n: usize, Ghost(steps): Ghost<Seq<StepView>>) -> (r: Vec<Operand>)
    requires
        at == steps.len(),
    ensures
        r@ == results_of(steps, n as nat),
{
    let mut out: Vec<Operand> = Vec::new();
    let mut k: usize = 0;
    while k < n
        invariant
            k <= n,
            at == steps.len(),
            out@ == results_of(steps, k as nat),
        decreases n - k,
    {
        out.push(Operand { step: at, index: k });
        k += 1;
        assert(out@ =~= results_of(steps, k as nat));
    }
    out
}

/// One operand as a list.
pub fn one(a: Operand) -> (r: Vec<Operand>)
    ensures
        r@ == seq![a],
{
    let mut out: Vec<Operand> = Vec::new();
    out.push(a);
    assert(out@ =~= seq![a]);
    out
}

/// Two operands as a list.
pub fn two(a: Operand, b: Operand) -> (r: Vec<Operand>)
    ensures
        r@ == seq![a, b],
{
    let mut out: Vec<Operand> = Vec::new();
    out.push(a);
    out.push(b);
    assert(out@ =~= seq![a, b]);
    out
}

/// Moves an offset on by `delta` bytes.
pub fn add_offset(offset: i32, delta: usize) -> (r: i32)
    requires
        0 <= offset,
        offset + delta <= i32::MAX,
    ensures
        r == offset_by(offset, delta as nat),
        r == offset + delta,
{
    let sum: i64 = offset as i64 + delta as i64;
    sum as i32
}

/// Changes the type of each operand where `from` and `to` differ.
pub fn emit_casts(steps: &mut Vec<Step>, ops: &Vec<Operand>, from: &[WasmType], to: &[WasmType]) -> (r:
    Vec<Operand>)
    ensures
        arity_ok(steps_view(old(steps)@)) ==> arity_ok(steps_view(final(steps)@)),
        (steps_view(final(steps)@), r@) == cast_all(
            steps_view(old(steps)@),
            ops@,
            from@,
            to@,
            ops@.len(),
        ),
        from@.len() >= ops@.len() && to@.len() >= ops@.len() ==> r@.len() == ops@.len(),
{
    let mut out: Vec<Operand> = Vec::new();
    let n = ops.len();
    if n > from.len() || n > to.len() {
        return out;
    }
    let mut k: usize = 0;
    while k < n
        invariant
            arity_ok(steps_view(old(steps)@)) ==> arity_ok(steps_view(steps@)),
            k <= n,
            n == ops@.len(),
            n <= from@.len(),
            n <= to@.len(),
            out@.len() == k,
            (steps_view(steps@), out@) == cast_all(
                steps_view(old(steps)@),
                ops@,
                from@,
                to@,
                k as nat,
            ),
        decreases n - k,
    {
        let c = cast(from[k], to[k]);
        match c {
            Bitcast::Keep => {
                out.push(ops[k]);
            },
            _ => {
                let at = emit(steps, Instruction::Bitcast { cast: c }, one(ops[k]));
                out.push(Operand { step: at, index: 0 });
            },
        }
        k += 1;
    }
    out
}

/// Gives a zero for each of the types `tys[from..]`.
pub fn emit_zeros(steps: &mut Vec<Step>, tys: &Vec<WasmType>, from: usize) -> (r: Vec<Operand>)
    ensures
        arity_ok(steps_view(old(steps)@)) ==> arity_ok(steps_view(final(steps)@)),
        (steps_view(final(steps)@), r@) == zeros(
            steps_view(old(steps)@),
            tys@,
            from as nat,
            tys@.len(),
        ),
{
    let mut out: Vec<Operand> = Vec::new();
    let n = tys.len();
    let mut k: usize = from;
    if k >= n {
        return out;
    }
    while k < n
        invariant
            arity_ok(steps_view(old(steps)@)) ==> arity_ok(steps_view(steps@)),
            from <= k <= n,
            n == tys@.len(),
            (steps_view(steps@), out@) == zeros(
                steps_view(old(steps)@),
                tys@,
                from as nat,
                k as nat,
            ),
        decreases n - k,
    {
        let at = emit(steps, Instruction::ConstZero { ty: tys[k] }, Vec::new());
        out.push(Operand { step: at, index: 0 });
        k += 1;
    }
    out
}

/// Stores pointer and length of a list.
pub fn emit_store_pair(steps: &mut Vec<Step>, pair: &Vec<Operand>, addr: Operand, offset: i32)
    requires
        pair@.len() == 2,
        0 <= offset,
        offset + 4 <= i32::MAX,
    ensures
        arity_ok(steps_view(old(steps)@)) ==> arity_ok(steps_view(final(steps)@)),
        steps_view(final(steps)@) == store_pair(steps_view(old(steps)@), pair@, addr, offset),
{
    emit(steps, Instruction::I32Store { offset: add_offset(offset, 4) }, two(pair[1], addr));
    emit(steps, Instruction::I32Store { offset }, two(pair[0], addr));
}

/// Loads pointer and length of a list.
pub fn emit_load_pair(steps: &mut Vec<Step>, addr: Operand, offset: i32) -> (r: Vec<Operand>)
    requires
        0 <= offset,
        offset + 4 <= i32::MAX,
    ensures
        arity_ok(steps_view(old(steps)@)) ==> arity_ok(steps_view(final(steps)@)),
        (steps_view(final(steps)@), r@) == load_pair(steps_view(old(steps)@), addr, offset),
        r@.len() == 2,
{
    let first = emit(steps, Instruction::I32Load { offset }, one(addr));
    let second = emit(steps, Instruction::I32Load { offset: add_offset(offset, 4) }, one(addr));
    two(Operand { step: first, index: 0 }, Operand { step: second, index: 0 })
}

/// Stores 32-bit words, the last first.
pub fn emit_store_words(steps: &mut Vec<Step>, words: &Vec<Operand>, addr: Operand, offset: i32)
    requires
        words@.len() * 4 <= usize::MAX,
        0 <= offset,
        offset + words@.len() * 4 <= i32::MAX,
    ensures
        arity_ok(steps_view(old(steps)@)) ==> arity_ok(steps_view(final(steps)@)),
        steps_view(final(steps)@) == store_words(
            steps_view(old(steps)@),
            words@,
            addr,
            offset,
            words@.len(),
            words@.len(),
        ),
{
    let n = words.len();
    let mut done: usize = 0;
    while done < n
        invariant
            arity_ok(steps_view(old(steps)@)) ==> arity_ok(steps_view(steps@)),
            done <= n,
            n == words@.len(),
            n * 4 <= usize::MAX,
            0 <= offset,
            offset + n * 4 <= i32::MAX,
            steps_view(steps@) == store_words(
                steps_view(old(steps)@),
                words@,
                addr,
                offset,
                n as nat,
                done as nat,
            ),
        decreases n - done,
    {
        done += 1;
        emit(
            steps,
            Instruction::I32Store { offset: add_offset(offset, (n - done) * 4) },
            two(words[n - done], addr),
        );
    }
}

/// Loads `n` 32-bit words.
pub fn emit_load_words(steps: &mut Vec<Step>, addr: Operand, offset: i32, n: usize) -> (r: Vec<
    Operand,
>)
    requires
        n * 4 <= usize::MAX,
        0 <= offset,
        offset + n * 4 <= i32::MAX,
    ensures
        arity_ok(steps_view(old(steps)@)) ==> arity_ok(steps_view(final(steps)@)),
        (steps_view(final(steps)@), r@) == load_words(
            steps_view(old(steps)@),
            addr,
            offset,
            n as nat,
        ),
        r@.len() == n,
{
    let mut out: Vec<Operand> = Vec::new();
    let mut k: usize = 0;
    while k < n
        invariant
            arity_ok(steps_view(old(steps)@)) ==> arity_ok(steps_view(steps@)),
            k <= n,
            n * 4 <= usize::MAX,
            0 <= offset,
            offset + n * 4 <= i32::MAX,
            out@.len() == k,
            (steps_view(steps@), out@) == load_words(
                steps_view(old(steps)@),
                addr,
                offset,
                k as nat,
            ),
        decreases n - k,
    {
        let at = emit(
            steps,
            Instruction::I32Load { offset: add_offset(offset, k * 4) },
            one(addr),
        );
        out.push(Operand { step: at, index: 0 });
        k += 1;
    }
    out
}

} // verus!
