//! The protocol of a whole call: the arguments one way, the call, the result
//! the other way.

use crate::abi::{
    concat_flat, flat, params_flat, spec_signature, AbiVariant, WasmSignature,
};
use crate::compile::{lift, lower, read, Setup};
use crate::instruction::{Instruction, LiftLower};
use crate::layout::{
    field_offset, spec_record, type_layout, LayoutError, SizeAlign, MAX_SIZE,
};
use crate::protocol::{
    add_offset, arity_ok, emit, emitted, offset_by, one, result_of, results, results_of, steps_view, Ctx,
    Operand, Step, StepView,
};
use crate::types::{Function, Interface, Type};
use vstd::prelude::*;

verus! {

/// The types of the parameters.
pub open spec fn param_types(params: Seq<(String, Type)>) -> Seq<Type> {
    Seq::new(params.len(), |i: int| params[i].1)
}

/// Takes the first `n` arguments and lowers each: the steps, and the core
/// values of all of them, one argument after another.
pub open spec fn lower_args(cx: Ctx, types: Seq<Type>, n: nat, steps: Seq<StepView>) -> (
    Seq<StepView>,
    Seq<Operand>,
)
    decreases n,
{
    if n == 0 || n > types.len() {
        (steps, Seq::empty())
    } else {
        let before = lower_args(cx, types, (n - 1) as nat, steps);
        let arg = emitted(before.0, Instruction::GetArg { nth: (n - 1) as usize }, Seq::empty());
        let lowered = lower(cx, types[n - 1], result_of(before.0, 0), cx.types.len(), arg);
        (lowered.0, before.1 + lowered.1)
    }
}

/// Takes the first `n` arguments and writes each to its place in the record
/// of all arguments at `ptr`.
pub open spec fn write_args(cx: Ctx, types: Seq<Type>, ptr: Operand, n: nat, steps: Seq<StepView>) -> Seq<
    StepView,
>
    decreases n,
{
    if n == 0 || n > types.len() {
        steps
    } else {
        let before = write_args(cx, types, ptr, (n - 1) as nat, steps);
        let arg = emitted(before, Instruction::GetArg { nth: (n - 1) as usize }, Seq::empty());
        crate::compile::write(
            cx,
            types[n - 1],
            result_of(before, 0),
            ptr,
            offset_by(0, field_offset(cx.types, types, (n - 1) as nat)),
            cx.types.len(),
            arg,
        )
    }
}

/// Takes the `n` core arguments from position `from` on: the steps, and the
/// arguments.
pub open spec fn get_args(steps: Seq<StepView>, from: nat, n: nat) -> (Seq<StepView>, Seq<Operand>)
    decreases n,
{
    if n == 0 {
        (steps, Seq::empty())
    } else {
        let before = get_args(steps, from, (n - 1) as nat);
        (
            emitted(
                before.0,
                Instruction::GetArg { nth: (from + n - 1) as usize },
                Seq::empty(),
            ),
            before.1.push(result_of(before.0, 0)),
        )
    }
}

/// Lifts the first `n` parameters, each from as many core arguments as it
/// flattens to: the steps, and the parameters.
pub open spec fn lift_args(cx: Ctx, types: Seq<Type>, n: nat, steps: Seq<StepView>) -> (
    Seq<StepView>,
    Seq<Operand>,
)
    decreases n,
{
    if n == 0 || n > types.len() {
        (steps, Seq::empty())
    } else {
        let before = lift_args(cx, types, (n - 1) as nat, steps);
        let from = concat_flat(cx.types, types, cx.types.len(), (n - 1) as nat).len();
        let width = flat(cx.types, types[n - 1], cx.types.len()).len();
        let args = get_args(before.0, from, width);
        let value = lift(cx, types[n - 1], args.1, cx.types.len(), args.0);
        (value.0, before.1.push(value.1))
    }
}

/// Reads the first `n` parameters, each from its place in the record of all
/// arguments at `ptr`: the steps, and the parameters.
pub open spec fn read_args(cx: Ctx, types: Seq<Type>, ptr: Operand, n: nat, steps: Seq<StepView>) -> (
    Seq<StepView>,
    Seq<Operand>,
)
    decreases n,
{
    if n == 0 || n > types.len() {
        (steps, Seq::empty())
    } else {
        let before = read_args(cx, types, ptr, (n - 1) as nat, steps);
        let value = read(
            cx,
            types[n - 1],
            ptr,
            offset_by(0, field_offset(cx.types, types, (n - 1) as nat)),
            cx.types.len(),
            before.0,
        );
        (value.0, before.1.push(value.1))
    }
}

/// `steps` followed by a request for static space for a value of `ty`.
pub open spec fn space_for(cx: Ctx, ty: Type, steps: Seq<StepView>) -> Seq<StepView> {
    steps.push(
        StepView::ReturnPointer {
            size: type_layout(cx.types, ty, cx.types.len()).0 as usize,
            align: type_layout(cx.types, ty, cx.types.len()).1 as usize,
        },
    )
}

/// The arguments of a call that a caller makes, as core values: each
/// lowered, or, where they are too many, all written to memory and the
/// address of that memory. For an import the memory is static, for an export
/// it is allocated in the guest.
pub open spec fn caller_args(cx: Ctx, func: Function) -> (Seq<StepView>, Seq<Operand>) {
    let types = param_types(func.params@);
    let start = Seq::<StepView>::empty();
    if !spec_signature(cx.types, cx.variant, func).indirect_params {
        lower_args(cx, types, types.len(), start)
    } else {
        let record = spec_record(cx.types, types)->0;
        let space = if cx.variant == AbiVariant::GuestImport {
            start.push(StepView::ReturnPointer { size: record.0, align: record.1 })
        } else {
            emitted(
                start,
                Instruction::Malloc { size: record.0, align: record.1 },
                Seq::empty(),
            )
        };
        (write_args(cx, types, result_of(start, 0), types.len(), space), seq![result_of(start, 0)])
    }
}

/// The protocol of a call of `func`, the function at position `index`, as
/// its caller sees it: the arguments are lowered, the function of the guest
/// is called, and the result is lifted, from the core value that comes back
/// or from the memory that a result of more than one core value is passed
/// in.
pub open spec fn caller_protocol(cx: Ctx, func: Function, index: nat) -> Seq<StepView> {
    let sig = spec_signature(cx.types, cx.variant, func);
    let args = caller_args(cx, func);
    let import_retptr = cx.variant == AbiVariant::GuestImport && sig.retptr;
    let ready = if import_retptr {
        (space_for(cx, func.result, args.0), args.1.push(result_of(args.0, 0)))
    } else {
        args
    };
    let called = emitted(
        ready.0,
        Instruction::CallWasm {
            func: index as usize,
            params: sig.params.len() as usize,
            results: sig.results.len() as usize,
        },
        ready.1,
    );
    let value = if !sig.retptr {
        lift(cx, func.result, results_of(ready.0, sig.results.len()), cx.types.len(), called)
    } else if import_retptr {
        read(cx, func.result, result_of(args.0, 0), 0, cx.types.len(), called)
    } else {
        read(cx, func.result, result_of(ready.0, 0), 0, cx.types.len(), called)
    };
    emitted(value.0, Instruction::Return { func: index as usize, amt: 1 }, seq![value.1])
}

/// The parameters of a call as its callee gets them: each lifted from its
/// core arguments, or, where they are too many, all read from the memory
/// whose address is the one core argument.
pub open spec fn callee_params(cx: Ctx, func: Function) -> (Seq<StepView>, Seq<Operand>) {
    let types = param_types(func.params@);
    let start = Seq::<StepView>::empty();
    if !spec_signature(cx.types, cx.variant, func).indirect_params {
        lift_args(cx, types, types.len(), start)
    } else {
        read_args(
            cx,
            types,
            result_of(start, 0),
            types.len(),
            emitted(start, Instruction::GetArg { nth: 0 }, Seq::empty()),
        )
    }
}

/// The protocol of a call of `func`, the function at position `index`, as
/// its callee sees it: the parameters are lifted, the function of the
/// interface is called, memory that the caller allocated for the arguments
/// is given back, and the result is lowered, to the core value that goes
/// back or to the memory that a result of more than one core value is
/// passed in.
pub open spec fn callee_protocol(cx: Ctx, func: Function, index: nat) -> Seq<StepView> {
    let sig = spec_signature(cx.types, cx.variant, func);
    let types = param_types(func.params@);
    let params = callee_params(cx, func);
    let called = emitted(
        params.0,
        Instruction::CallInterface { func: index as usize, params: types.len() as usize },
        params.1,
    );
    let result = result_of(params.0, 0);
    let record = spec_record(cx.types, types)->0;
    let freed = if cx.variant == AbiVariant::GuestExport && sig.indirect_params {
        emitted(
            emitted(called, Instruction::GetArg { nth: 0 }, Seq::empty()),
            Instruction::Free { size: record.0, align: record.1 },
            seq![result_of(called, 0)],
        )
    } else {
        called
    };
    if !sig.retptr {
        let lowered = lower(cx, func.result, result, cx.types.len(), freed);
        emitted(
            lowered.0,
            Instruction::Return { func: index as usize, amt: sig.results.len() as usize },
            lowered.1,
        )
    } else if cx.variant == AbiVariant::GuestImport {
        let ptr = emitted(
            freed,
            Instruction::GetArg { nth: (sig.params.len() - 1) as usize },
            Seq::empty(),
        );
        emitted(
            crate::compile::write(cx, func.result, result, result_of(freed, 0), 0, cx.types.len(), ptr),
            Instruction::Return { func: index as usize, amt: 0 },
            Seq::empty(),
        )
    } else {
        emitted(
            crate::compile::write(
                cx,
                func.result,
                result,
                result_of(freed, 0),
                0,
                cx.types.len(),
                space_for(cx, func.result, freed),
            ),
            Instruction::Return { func: index as usize, amt: 1 },
            seq![result_of(freed, 0)],
        )
    }
}

/// The protocol of a call of `func`.
pub open spec fn protocol(cx: Ctx, func: Function, index: nat) -> Seq<StepView> {
    match cx.lift_lower {
        LiftLower::LowerArgsLiftResults => caller_protocol(cx, func, index),
        LiftLower::LiftArgsLowerResults => callee_protocol(cx, func, index),
    }
}

/// Why a function has no protocol.
#[derive(Clone, Copy, Debug, PartialEq, Eq, Structural)]
pub enum CompileError {
    /// The interface has no function at that position.
    NoSuchFunction,
    /// The interface is not resolved.
    Unresolved,
    /// The interface has no layout.
    Layout(LayoutError),
    /// The function is asynchronous.
    Async,
    /// The parameters, which are too many to be passed as core values, are
    /// too large for memory.
    ParametersTooLarge,
}

/// Why the function at `index` has no protocol, if it has none.
pub open spec fn protocol_error(iface: Interface, variant: AbiVariant, index: nat) -> Option<
    CompileError,
> {
    if index >= iface.functions@.len() {
        Some(CompileError::NoSuchFunction)
    } else if !iface.wf() {
        Some(CompileError::Unresolved)
    } else if crate::layout::first_layout_error(iface.types@, iface.types@.len()) is Some {
        Some(
            CompileError::Layout(
                crate::layout::first_layout_error(iface.types@, iface.types@.len())->0,
            ),
        )
    } else if iface.functions@[index as int].is_async {
        Some(CompileError::Async)
    } else if spec_signature(iface.types@, variant, iface.functions@[index as int]).indirect_params
        && spec_record(iface.types@, param_types(iface.functions@[index as int].params@)) is None {
        Some(CompileError::ParametersTooLarge)
    } else {
        None
    }
}

/// The flattening of the parameters is that of a record made of them.
pub proof fn lemma_params_flat(types: Seq<crate::types::TypeDef>, params: Seq<(String, Type)>, n: nat)
    ensures
        params_flat(types, params, n) == concat_flat(types, param_types(params), types.len(), n),
    decreases n,
{
    if n == 0 || n > params.len() {
    } else {
        lemma_params_flat(types, params, (n - 1) as nat);
    }
}

/// The types of the parameters of `func`.
pub fn types_of_params(func: &Function) -> (r: Vec<Type>)
    ensures
        r@ == param_types(func.params@),
{
    let mut out: Vec<Type> = Vec::new();
    let mut k: usize = 0;
    while k < func.params.len()
        invariant
            k <= func.params@.len(),
            out@.len() == k,
            forall|j: int| 0 <= j < k ==> out@[j] == func.params@[j].1,
        decreases func.params@.len() - k,
    {
        out.push(func.params[k].1);
        k += 1;
    }
    assert(out@ =~= param_types(func.params@));
    out
}

/// Appends a request for static space for a value of `ty` and returns its
/// address.
fn emit_space_for(setup: &Setup, ty: Type, steps: &mut Vec<Step>) -> (r: Operand)
    requires
        setup.inv(),
    ensures
        arity_ok(steps_view(old(steps)@)) ==> arity_ok(steps_view(final(steps)@)),
        steps_view(final(steps)@) == space_for(setup.cx(), ty, steps_view(old(steps)@)),
        r == result_of(steps_view(old(steps)@), 0),
{
    proof {
        setup.sizes.lemma_filled(setup.iface.types@, ty);
    }
    let at = steps.len();
    steps.push(Step::ReturnPointer { size: setup.sizes.size(&ty), align: setup.sizes.align(&ty) });
    assert(steps_view(steps@) =~= space_for(setup.cx(), ty, steps_view(old(steps)@)));
    Operand { step: at, index: 0 }
}

fn emit_lower_args(setup: &Setup, types: &Vec<Type>, steps: &mut Vec<Step>) -> (r: Vec<Operand>)
    requires
        setup.inv(),
    ensures
        arity_ok(steps_view(old(steps)@)) ==> arity_ok(steps_view(final(steps)@)),
        (steps_view(final(steps)@), r@) == lower_args(
            setup.cx(),
            types@,
            types@.len(),
            steps_view(old(steps)@),
        ),
        r@.len() == concat_flat(
            setup.iface.types@,
            types@,
            setup.iface.types@.len(),
            types@.len(),
        ).len(),
{
    let bound = setup.iface.types.len();
    let mut out: Vec<Operand> = Vec::new();
    let mut k: usize = 0;
    while k < types.len()
        invariant
            arity_ok(steps_view(old(steps)@)) ==> arity_ok(steps_view(steps@)),
            k <= types@.len(),
            setup.inv(),
            bound == setup.iface.types@.len(),
            (steps_view(steps@), out@) == lower_args(
                setup.cx(),
                types@,
                k as nat,
                steps_view(old(steps)@),
            ),
            out@.len() == concat_flat(setup.iface.types@, types@, bound as nat, k as nat).len(),
        decreases types@.len() - k,
    {
        let arg = emit(steps, Instruction::GetArg { nth: k }, Vec::new());
        let mut lowered = setup.lower(types[k], Operand { step: arg, index: 0 }, bound, steps);
        out.append(&mut lowered);
        k += 1;
    }
    out
}

fn emit_write_args(
    setup: &Setup,
    types: &Vec<Type>,
    offsets: &Vec<usize>,
    ptr: Operand,
    steps: &mut Vec<Step>,
)
    requires
        setup.inv(),
        offsets@.len() == types@.len(),
        forall|j: int|
            0 <= j < types@.len() ==> #[trigger] offsets@[j] == field_offset(
                setup.iface.types@,
                types@,
                j as nat,
            ),
        forall|j: int|
            0 <= j < types@.len() ==> #[trigger] offsets@[j] + type_layout(
                setup.iface.types@,
                types@[j],
                setup.iface.types@.len(),
            ).0 <= MAX_SIZE,
    ensures
        arity_ok(steps_view(old(steps)@)) ==> arity_ok(steps_view(final(steps)@)),
        steps_view(final(steps)@) == write_args(
            setup.cx(),
            types@,
            ptr,
            types@.len(),
            steps_view(old(steps)@),
        ),
{
    let bound = setup.iface.types.len();
    let mut k: usize = 0;
    while k < types.len()
        invariant
            arity_ok(steps_view(old(steps)@)) ==> arity_ok(steps_view(steps@)),
            k <= types@.len(),
            setup.inv(),
            bound == setup.iface.types@.len(),
            offsets@.len() == types@.len(),
            forall|j: int|
                0 <= j < types@.len() ==> #[trigger] offsets@[j] == field_offset(
                    setup.iface.types@,
                    types@,
                    j as nat,
                ),
            forall|j: int|
                0 <= j < types@.len() ==> #[trigger] offsets@[j] + type_layout(
                    setup.iface.types@,
                    types@[j],
                    setup.iface.types@.len(),
                ).0 <= MAX_SIZE,
            steps_view(steps@) == write_args(
                setup.cx(),
                types@,
                ptr,
                k as nat,
                steps_view(old(steps)@),
            ),
        decreases types@.len() - k,
    {
        let arg = emit(steps, Instruction::GetArg { nth: k }, Vec::new());
        setup.write(
            types[k],
            Operand { step: arg, index: 0 },
            ptr,
            add_offset(0, offsets[k]),
            bound,
            steps,
        );
        k += 1;
    }
}

fn emit_get_args(steps: &mut Vec<Step>, from: usize, n: usize) -> (r: Vec<Operand>)
    requires
        from + n <= usize::MAX,
    ensures
        arity_ok(steps_view(old(steps)@)) ==> arity_ok(steps_view(final(steps)@)),
        (steps_view(final(steps)@), r@) == get_args(
            steps_view(old(steps)@),
            from as nat,
            n as nat,
        ),
        r@.len() == n,
{
    let mut out: Vec<Operand> = Vec::new();
    let mut k: usize = 0;
    while k < n
        invariant
            arity_ok(steps_view(old(steps)@)) ==> arity_ok(steps_view(steps@)),
            k <= n,
            from + n <= usize::MAX,
            out@.len() == k,
            (steps_view(steps@), out@) == get_args(
                steps_view(old(steps)@),
                from as nat,
                k as nat,
            ),
        decreases n - k,
    {
        let at = emit(steps, Instruction::GetArg { nth: from + k }, Vec::new());
        out.push(Operand { step: at, index: 0 });
        k += 1;
    }
    out
}

fn emit_lift_args(setup: &Setup, types: &Vec<Type>, total: usize, steps: &mut Vec<Step>) -> (r: Vec<
    Operand,
>)
    requires
        setup.inv(),
        total == concat_flat(
            setup.iface.types@,
            types@,
            setup.iface.types@.len(),
            types@.len(),
        ).len(),
    ensures
        arity_ok(steps_view(old(steps)@)) ==> arity_ok(steps_view(final(steps)@)),
        (steps_view(final(steps)@), r@) == lift_args(
            setup.cx(),
            types@,
            types@.len(),
            steps_view(old(steps)@),
        ),
        r@.len() == types@.len(),
{
    let bound = setup.iface.types.len();
    let mut out: Vec<Operand> = Vec::new();
    let mut from: usize = 0;
    let mut k: usize = 0;
    while k < types.len()
        invariant
            arity_ok(steps_view(old(steps)@)) ==> arity_ok(steps_view(steps@)),
            k <= types@.len(),
            setup.inv(),
            bound == setup.iface.types@.len(),
            total == concat_flat(setup.iface.types@, types@, bound as nat, types@.len()).len(),
            from == concat_flat(setup.iface.types@, types@, bound as nat, k as nat).len(),
            out@.len() == k,
            (steps_view(steps@), out@) == lift_args(
                setup.cx(),
                types@,
                k as nat,
                steps_view(old(steps)@),
            ),
        decreases types@.len() - k,
    {
        proof {
            crate::abi::lemma_concat_flat_len(
                setup.iface.types@,
                types@,
                bound as nat,
                (k + 1) as nat,
                types@.len(),
            );
        }
        let width = setup.iface.flat_below(types[k], bound).len();
        assert(from + width == concat_flat(
            setup.iface.types@,
            types@,
            bound as nat,
            (k + 1) as nat,
        ).len());
        let args = emit_get_args(steps, from, width);
        let value = setup.lift(types[k], args, bound, steps);
        out.push(value);
        from = from + width;
        k += 1;
    }
    out
}

fn emit_read_args(
    setup: &Setup,
    types: &Vec<Type>,
    offsets: &Vec<usize>,
    ptr: Operand,
    steps: &mut Vec<Step>,
) -> (r: Vec<Operand>)
    requires
        setup.inv(),
        offsets@.len() == types@.len(),
        forall|j: int|
            0 <= j < types@.len() ==> #[trigger] offsets@[j] == field_offset(
                setup.iface.types@,
                types@,
                j as nat,
            ),
        forall|j: int|
            0 <= j < types@.len() ==> #[trigger] offsets@[j] + type_layout(
                setup.iface.types@,
                types@[j],
                setup.iface.types@.len(),
            ).0 <= MAX_SIZE,
    ensures
        arity_ok(steps_view(old(steps)@)) ==> arity_ok(steps_view(final(steps)@)),
        (steps_view(final(steps)@), r@) == read_args(
            setup.cx(),
            types@,
            ptr,
            types@.len(),
            steps_view(old(steps)@),
        ),
        r@.len() == types@.len(),
{
    let bound = setup.iface.types.len();
    let mut out: Vec<Operand> = Vec::new();
    let mut k: usize = 0;
    while k < types.len()
        invariant
            arity_ok(steps_view(old(steps)@)) ==> arity_ok(steps_view(steps@)),
            k <= types@.len(),
            setup.inv(),
            bound == setup.iface.types@.len(),
            offsets@.len() == types@.len(),
            forall|j: int|
                0 <= j < types@.len() ==> #[trigger] offsets@[j] == field_offset(
                    setup.iface.types@,
                    types@,
                    j as nat,
                ),
            forall|j: int|
                0 <= j < types@.len() ==> #[trigger] offsets@[j] + type_layout(
                    setup.iface.types@,
                    types@[j],
                    setup.iface.types@.len(),
                ).0 <= MAX_SIZE,
            out@.len() == k,
            (steps_view(steps@), out@) == read_args(
                setup.cx(),
                types@,
                ptr,
                k as nat,
                steps_view(old(steps)@),
            ),
        decreases types@.len() - k,
    {
        let value = setup.read(types[k], ptr, add_offset(0, offsets[k]), bound, steps);
        out.push(value);
        k += 1;
    }
    out
}

/// The protocol of a call as its caller sees it.
fn compile_caller(
    setup: &Setup,
    func: &Function,
    index: usize,
    sig: &WasmSignature,
    types: &Vec<Type>,
    record: Option<(usize, usize)>,
    offsets: Option<Vec<usize>>,
) -> (steps: Vec<Step>)
    requires
        setup.inv(),
        sig@ == spec_signature(setup.iface.types@, setup.variant, *func),
        types@ == param_types(func.params@),
        record == spec_record(setup.iface.types@, types@),
        sig.indirect_params ==> record is Some,
        offsets is Some <==> record is Some,
        offsets matches Some(o) ==> o@.len() == types@.len() && (forall|j: int|
            0 <= j < types@.len() ==> #[trigger] o@[j] == field_offset(
                setup.iface.types@,
                types@,
                j as nat,
            )) && (forall|j: int|
            0 <= j < types@.len() ==> #[trigger] o@[j] + type_layout(
                setup.iface.types@,
                types@[j],
                setup.iface.types@.len(),
            ).0 <= MAX_SIZE),
    ensures
        steps_view(steps@) == caller_protocol(setup.cx(), *func, index as nat),
        arity_ok(steps_view(steps@)),
{
    let bound = setup.iface.types.len();
    let mut steps: Vec<Step> = Vec::new();
    assert(steps_view(steps@) =~= Seq::<StepView>::empty());
    proof {
        lemma_params_flat(setup.iface.types@, func.params@, func.params@.len());
    }
    let mut args = if !sig.indirect_params {
        emit_lower_args(setup, types, &mut steps)
    } else {
        let (size, align) = record.unwrap();
        let ptr = Operand { step: 0, index: 0 };
        match setup.variant {
            AbiVariant::GuestImport => {
                steps.push(Step::ReturnPointer { size, align });
                assert(steps_view(steps@) =~= Seq::<StepView>::empty().push(
                    StepView::ReturnPointer { size, align },
                ));
            },
            AbiVariant::GuestExport => {
                emit(&mut steps, Instruction::Malloc { size, align }, Vec::new());
            },
        }
        let offsets = offsets.unwrap();
        emit_write_args(setup, types, &offsets, ptr, &mut steps);
        one(ptr)
    };
    let ghost plain = steps_view(steps@);
    let mut retptr = Operand { step: 0, index: 0 };
    let import_retptr = match setup.variant {
        AbiVariant::GuestImport => sig.retptr,
        AbiVariant::GuestExport => false,
    };
    if import_retptr {
        retptr = emit_space_for(setup, func.result, &mut steps);
        args.push(retptr);
    }
    let ghost ready = steps_view(steps@);
    let nresults = sig.results.len();
    let at = emit(
        &mut steps,
        Instruction::CallWasm { func: index, params: sig.params.len(), results: nresults },
        args,
    );
    proof {
        setup.sizes.lemma_filled(setup.iface.types@, func.result);
    }
    let value = if !sig.retptr {
        let core = results(at, nresults, Ghost(ready));
        setup.lift(func.result, core, bound, &mut steps)
    } else if import_retptr {
        setup.read(func.result, retptr, 0, bound, &mut steps)
    } else {
        setup.read(func.result, Operand { step: at, index: 0 }, 0, bound, &mut steps)
    };
    emit(&mut steps, Instruction::Return { func: index, amt: 1 }, one(value));
    steps
}

/// The protocol of a call as its callee sees it.
fn compile_callee(
    setup: &Setup,
    func: &Function,
    index: usize,
    sig: &WasmSignature,
    types: &Vec<Type>,
    record: Option<(usize, usize)>,
    offsets: Option<Vec<usize>>,
) -> (steps: Vec<Step>)
    requires
        setup.inv(),
        sig@ == spec_signature(setup.iface.types@, setup.variant, *func),
        types@ == param_types(func.params@),
        record == spec_record(setup.iface.types@, types@),
        sig.indirect_params ==> record is Some,
        offsets is Some <==> record is Some,
        offsets matches Some(o) ==> o@.len() == types@.len() && (forall|j: int|
            0 <= j < types@.len() ==> #[trigger] o@[j] == field_offset(
                setup.iface.types@,
                types@,
                j as nat,
            )) && (forall|j: int|
            0 <= j < types@.len() ==> #[trigger] o@[j] + type_layout(
                setup.iface.types@,
                types@[j],
                setup.iface.types@.len(),
            ).0 <= MAX_SIZE),
    ensures
        steps_view(steps@) == callee_protocol(setup.cx(), *func, index as nat),
        arity_ok(steps_view(steps@)),
{
    let bound = setup.iface.types.len();
    let mut steps: Vec<Step> = Vec::new();
    assert(steps_view(steps@) =~= Seq::<StepView>::empty());
    proof {
        lemma_params_flat(setup.iface.types@, func.params@, func.params@.len());
    }
    let params = if !sig.indirect_params {
        emit_lift_args(setup, types, sig.params.len() - if sig.retptr {
            match setup.variant {
                AbiVariant::GuestImport => 1usize,
                AbiVariant::GuestExport => 0usize,
            }
        } else {
            0usize
        }, &mut steps)
    } else {
        let at = emit(&mut steps, Instruction::GetArg { nth: 0 }, Vec::new());
        let offsets = offsets.unwrap();
        emit_read_args(setup, types, &offsets, Operand { step: at, index: 0 }, &mut steps)
    };
    let call = emit(
        &mut steps,
        Instruction::CallInterface { func: index, params: types.len() },
        params,
    );
    let result = Operand { step: call, index: 0 };
    let is_export = match setup.variant {
        AbiVariant::GuestImport => false,
        AbiVariant::GuestExport => true,
    };
    if is_export && sig.indirect_params {
        let (size, align) = record.unwrap();
        let at = emit(&mut steps, Instruction::GetArg { nth: 0 }, Vec::new());
        emit(&mut steps, Instruction::Free { size, align }, one(Operand { step: at, index: 0 }));
    }
    proof {
        setup.sizes.lemma_filled(setup.iface.types@, func.result);
    }
    if !sig.retptr {
        let lowered = setup.lower(func.result, result, bound, &mut steps);
        emit(&mut steps, Instruction::Return { func: index, amt: sig.results.len() }, lowered);
    } else if !is_export {
        let at = emit(
            &mut steps,
            Instruction::GetArg { nth: sig.params.len() - 1 },
            Vec::new(),
        );
        setup.write(func.result, result, Operand { step: at, index: 0 }, 0, bound, &mut steps);
        emit(&mut steps, Instruction::Return { func: index, amt: 0 }, Vec::new());
    } else {
        let ptr = emit_space_for(setup, func.result, &mut steps);
        setup.write(func.result, result, ptr, 0, bound, &mut steps);
        emit(&mut steps, Instruction::Return { func: index, amt: 1 }, one(ptr));
    }
    steps
}

/// Compiles the call of the function at position `index` of `iface`: the
/// ordered protocol that a renderer turns into the code that marshals the
/// arguments and the result.
pub fn compile(iface: &Interface, variant: AbiVariant, lift_lower: LiftLower, index: usize) -> (r:
    Result<Vec<Step>, CompileError>)
    ensures
        match r {
            Ok(steps) => protocol_error(*iface, variant, index as nat) is None && steps_view(steps@)
                == protocol(
                Ctx { types: iface.types@, variant, lift_lower },
                iface.functions@[index as int],
                index as nat,
            ) && arity_ok(steps_view(steps@)),
            Err(e) => protocol_error(*iface, variant, index as nat) == Some(e),
        },
{
    if index >= iface.functions.len() {
        return Err(CompileError::NoSuchFunction);
    }
    if !iface.validate() {
        return Err(CompileError::Unresolved);
    }
    let mut sizes = SizeAlign::new();
    match sizes.fill(iface) {
        Ok(()) => {},
        Err(e) => {
            return Err(CompileError::Layout(e));
        },
    }
    let func = &iface.functions[index];
    if func.is_async {
        return Err(CompileError::Async);
    }
    let sig = iface.wasm_signature(variant, func);
    let types = types_of_params(func);
    let record = sizes.record(iface, &types);
    if sig.indirect_params && record.is_none() {
        return Err(CompileError::ParametersTooLarge);
    }
    let offsets = sizes.field_offsets(iface, &types);
    let setup = Setup { iface, sizes: &sizes, variant, lift_lower };
    match lift_lower {
        LiftLower::LowerArgsLiftResults => Ok(
            compile_caller(&setup, func, index, &sig, &types, record, offsets),
        ),
        LiftLower::LiftArgsLowerResults => Ok(
            compile_callee(&setup, func, index, &sig, &types, record, offsets),
        ),
    }
}

} // verus!
