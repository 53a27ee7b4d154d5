//! The compiler of one call: from a function's signature to the protocol
//! that marshals its arguments and its result.

use crate::abi::{
    concat_flat, def_flat, flat, lemma_concat_flat_len, lemma_joined_flat_covers, AbiVariant,
    WasmType,
};
use crate::instruction::{
    lift_inst, load_inst, load_int, lower_inst, spec_lift_inst, spec_load_inst, spec_load_int,
    spec_lower_inst, spec_operands_len, spec_results_len, spec_store_inst, spec_store_int,
    spec_variant_lift, spec_variant_lower, store_inst, store_int, variant_lift, variant_lower,
    Instruction, LiftLower,
};
use crate::layout::{
    def_layout, field_offset, lemma_def_record_fits, lemma_field_within,
    lemma_no_layout_error, lemma_payload_within, spec_payload_offset, spec_record,
    spec_record_size, type_layout,
    SizeAlign, MAX_SIZE,
};
use crate::protocol::{
    add_offset, arity_ok, cast_all, closed, emit, emit_casts, emit_load_pair, emit_load_words,
    emit_store_pair, emit_store_words, emit_zeros, emitted, finish_block, load_pair, load_words,
    offset_by, one, opened, push_block, result_of, results, results_of, spec_free, spec_realloc,
    steps_view, store_pair, store_words, two, zeros, Ctx, Operand, Step, StepView,
};
use crate::types::{
    bits_valid, spec_flags_repr, spec_repr_count, spec_tag, tag_for, FlagsRepr, Interface, Type,
    TypeDef, TypeDefKind,
};
use vstd::prelude::*;
use vstd::slice::{slice_subrange, slice_to_vec};

verus! {

/// Lowers a value of a type that is no reference to a definition: one
/// instruction.
pub open spec fn lower_prim(cx: Ctx, ty: Type, value: Operand, steps: Seq<StepView>) -> (
    Seq<StepView>,
    Seq<Operand>,
) {
    let inst = spec_lower_inst(ty, cx.lift_lower, spec_realloc(cx.variant, cx.lift_lower));
    (
        emitted(steps, inst, seq![value]),
        results_of(steps, spec_results_len(inst)),
    )
}

/// Lifts a value of a type that is no reference to a definition: one
/// instruction.
pub open spec fn lift_prim(cx: Ctx, ty: Type, flat: Seq<Operand>, steps: Seq<StepView>) -> (
    Seq<StepView>,
    Operand,
) {
    let inst = spec_lift_inst(ty, cx.lift_lower, spec_free(cx.variant, cx.lift_lower));
    (emitted(steps, inst, flat), result_of(steps, 0))
}

/// Lowers `value` of type `ty` to core values: the steps, and the core
/// values. A reference is followed to a definition before `bound`; one that
/// leads nowhere is lowered as a unit.
pub open spec fn lower(cx: Ctx, ty: Type, value: Operand, bound: nat, steps: Seq<StepView>) -> (
    Seq<StepView>,
    Seq<Operand>,
)
    decreases bound, 0nat, 0nat,
{
    match ty {
        Type::Id(id) => if id < bound && id < cx.types.len() {
            lower_def(cx, id as nat, value, steps)
        } else {
            lower_prim(cx, Type::Unit, value, steps)
        },
        _ => lower_prim(cx, ty, value, steps),
    }
}

/// Lowers a value of the definition at `id`.
pub open spec fn lower_def(cx: Ctx, id: nat, value: Operand, steps: Seq<StepView>) -> (
    Seq<StepView>,
    Seq<Operand>,
)
    decreases id, 4nat, 0nat,
{
    if id >= cx.types.len() {
        (steps, Seq::empty())
    } else {
        let kind = cx.types[id as int].kind;
        let members = kind.spec_members();
        match kind {
            TypeDefKind::Type(t) => lower(cx, t, value, id, steps),
            TypeDefKind::List(element) => lower_list(cx, element, value, id, steps),
            TypeDefKind::Record(_) => lower_fields(
                cx,
                members,
                results_of(steps, members.len()),
                id,
                members.len(),
                emitted(
                    steps,
                    Instruction::RecordLower { ty: id as usize, fields: members.len() as usize },
                    seq![value],
                ),
            ),
            TypeDefKind::Tuple(_) => lower_fields(
                cx,
                members,
                results_of(steps, members.len()),
                id,
                members.len(),
                emitted(
                    steps,
                    Instruction::TupleLower { ty: id as usize, fields: members.len() as usize },
                    seq![value],
                ),
            ),
            TypeDefKind::Flags(f) => (
                emitted(
                    steps,
                    Instruction::FlagsLower {
                        ty: id as usize,
                        words: spec_repr_count(spec_flags_repr(f.flags@.len())) as usize,
                    },
                    seq![value],
                ),
                results_of(steps, spec_repr_count(spec_flags_repr(f.flags@.len()))),
            ),
            TypeDefKind::Enum(_) => (
                emitted(steps, Instruction::EnumLower { ty: id as usize }, seq![value]),
                results_of(steps, 1),
            ),
            _ => {
                let arms = lower_arms(cx, id, members, members.len(), steps);
                let results = def_flat(cx.types, id).len();
                (
                    emitted(
                        arms,
                        spec_variant_lower(kind, id as usize, results as usize),
                        seq![value],
                    ),
                    results_of(arms, results),
                )
            },
        }
    }
}

/// Lowers a list of `element`: by one copy where every bit pattern is an
/// element, and else by a block that writes one element to its place in the
/// list's memory.
pub open spec fn lower_list(
    cx: Ctx,
    element: Type,
    value: Operand,
    bound: nat,
    steps: Seq<StepView>,
) -> (Seq<StepView>, Seq<Operand>)
    decreases bound, 3nat, 0nat,
{
    let realloc = spec_realloc(cx.variant, cx.lift_lower);
    if bits_valid(cx.types, element, cx.types.len()) {
        (
            emitted(steps, Instruction::ListCanonLower { element, realloc }, seq![value]),
            results_of(steps, 2),
        )
    } else {
        let block = opened(steps);
        let elem = emitted(block, Instruction::IterElem { element }, Seq::empty());
        let base = emitted(elem, Instruction::IterBasePointer, Seq::empty());
        let body = write(cx, element, result_of(block, 0), result_of(elem, 0), 0, bound, base);
        let end = closed(body, Seq::empty());
        (
            emitted(end, Instruction::ListLower { element, realloc }, seq![value]),
            results_of(end, 2),
        )
    }
}

/// Lowers the first `n` fields of a record, which `values` hold: the steps,
/// and the core values of all of them, one field after another.
pub open spec fn lower_fields(
    cx: Ctx,
    members: Seq<Type>,
    values: Seq<Operand>,
    bound: nat,
    n: nat,
    steps: Seq<StepView>,
) -> (Seq<StepView>, Seq<Operand>)
    decreases bound, 1nat, n,
{
    if n == 0 || n > members.len() || n > values.len() {
        (steps, Seq::empty())
    } else {
        let before = lower_fields(cx, members, values, bound, (n - 1) as nat, steps);
        let field = lower(cx, members[n - 1], values[n - 1], bound, before.0);
        (field.0, before.1 + field.1)
    }
}

/// The blocks of the first `n` cases of the variant at `id`, each of which
/// lowers its case to the core values of the variant.
pub open spec fn lower_arms(cx: Ctx, id: nat, members: Seq<Type>, n: nat, steps: Seq<StepView>) -> Seq<
    StepView,
>
    decreases id, 2nat, n,
{
    if n == 0 || n > members.len() {
        steps
    } else {
        lower_arm(
            cx,
            id,
            (n - 1) as nat,
            members[n - 1],
            lower_arms(cx, id, members, (n - 1) as nat, steps),
        )
    }
}

/// The block of case `i` of the variant at `id`, which holds a `case`: the
/// discriminant, the core values of the payload, each cast to the type the
/// variant has at its place, and zeros for the places the payload does not
/// reach.
pub open spec fn lower_arm(cx: Ctx, id: nat, i: nat, case: Type, steps: Seq<StepView>) -> Seq<
    StepView,
>
    decreases id, 1nat, 0nat,
{
    let block = opened(steps);
    let name = emitted(block, Instruction::VariantPayloadName, Seq::empty());
    let tag = emitted(name, Instruction::I32Const { val: i as i32 }, Seq::empty());
    let payload = lower(cx, case, result_of(block, 0), id, tag);
    let all = def_flat(cx.types, id);
    let cast = cast_all(
        payload.0,
        payload.1,
        flat(cx.types, case, id),
        all.skip(1),
        payload.1.len(),
    );
    let fill = zeros(cast.0, all, 1 + payload.1.len(), all.len());
    closed(fill.0, seq![result_of(name, 0)] + cast.1 + fill.1)
}

/// Lifts a value of type `ty` from the core values `flat`: the steps, and
/// the value. A reference is followed to a definition before `bound`; one
/// that leads nowhere is lifted as a unit.
pub open spec fn lift(cx: Ctx, ty: Type, flat: Seq<Operand>, bound: nat, steps: Seq<StepView>) -> (
    Seq<StepView>,
    Operand,
)
    decreases bound, 0nat, 0nat,
{
    match ty {
        Type::Id(id) => if id < bound && id < cx.types.len() {
            lift_def(cx, id as nat, flat, steps)
        } else {
            lift_prim(cx, Type::Unit, flat, steps)
        },
        _ => lift_prim(cx, ty, flat, steps),
    }
}

/// Lifts a value of the definition at `id`.
pub open spec fn lift_def(cx: Ctx, id: nat, flat: Seq<Operand>, steps: Seq<StepView>) -> (
    Seq<StepView>,
    Operand,
)
    decreases id, 4nat, 0nat,
{
    if id >= cx.types.len() {
        (steps, result_of(steps, 0))
    } else {
        let kind = cx.types[id as int].kind;
        let members = kind.spec_members();
        match kind {
            TypeDefKind::Type(t) => lift(cx, t, flat, id, steps),
            TypeDefKind::List(element) => lift_list(cx, element, id, flat, id, steps),
            TypeDefKind::Record(_) => {
                let fields = lift_fields(cx, members, flat, id, members.len(), steps);
                (
                    emitted(
                        fields.0,
                        Instruction::RecordLift {
                            ty: id as usize,
                            fields: members.len() as usize,
                        },
                        fields.1,
                    ),
                    result_of(fields.0, 0),
                )
            },
            TypeDefKind::Tuple(_) => {
                let fields = lift_fields(cx, members, flat, id, members.len(), steps);
                (
                    emitted(
                        fields.0,
                        Instruction::TupleLift { ty: id as usize, fields: members.len() as usize },
                        fields.1,
                    ),
                    result_of(fields.0, 0),
                )
            },
            TypeDefKind::Flags(f) => (
                emitted(
                    steps,
                    Instruction::FlagsLift {
                        ty: id as usize,
                        words: spec_repr_count(spec_flags_repr(f.flags@.len())) as usize,
                    },
                    flat,
                ),
                result_of(steps, 0),
            ),
            TypeDefKind::Enum(_) => (
                emitted(steps, Instruction::EnumLift { ty: id as usize }, flat),
                result_of(steps, 0),
            ),
            _ => {
                let arms = lift_arms(cx, id, members, flat.skip(1), members.len(), steps);
                (
                    emitted(arms, spec_variant_lift(kind, id as usize), seq![flat[0]]),
                    result_of(arms, 0),
                )
            },
        }
    }
}

/// Lifts a list of `element`, the definition at `ty`: by one copy where
/// every bit pattern is an element, and else by a block that reads one
/// element from its place in the list's memory.
pub open spec fn lift_list(
    cx: Ctx,
    element: Type,
    ty: nat,
    flat: Seq<Operand>,
    bound: nat,
    steps: Seq<StepView>,
) -> (Seq<StepView>, Operand)
    decreases bound, 3nat, 0nat,
{
    let free = spec_free(cx.variant, cx.lift_lower);
    if bits_valid(cx.types, element, cx.types.len()) {
        (
            emitted(steps, Instruction::ListCanonLift { element, free, ty: ty as usize }, flat),
            result_of(steps, 0),
        )
    } else {
        let block = opened(steps);
        let base = emitted(block, Instruction::IterBasePointer, Seq::empty());
        let body = read(cx, element, result_of(block, 0), 0, bound, base);
        let end = closed(body.0, seq![body.1]);
        (
            emitted(end, Instruction::ListLift { element, free, ty: ty as usize }, flat),
            result_of(end, 0),
        )
    }
}

/// Lifts the first `n` fields of a record from their core values, which
/// stand in `flat` one field after another: the steps, and the fields.
pub open spec fn lift_fields(
    cx: Ctx,
    members: Seq<Type>,
    flat: Seq<Operand>,
    bound: nat,
    n: nat,
    steps: Seq<StepView>,
) -> (Seq<StepView>, Seq<Operand>)
    decreases bound, 1nat, n,
{
    if n == 0 || n > members.len() {
        (steps, Seq::empty())
    } else {
        let before = lift_fields(cx, members, flat, bound, (n - 1) as nat, steps);
        let from = concat_flat(cx.types, members, bound, (n - 1) as nat).len();
        let to = concat_flat(cx.types, members, bound, n).len();
        let field = lift(cx, members[n - 1], flat.subrange(from as int, to as int), bound, before.0);
        (field.0, before.1.push(field.1))
    }
}

/// The blocks of the first `n` cases of the variant at `id`, each of which
/// lifts its case from the core values of the variant, `inputs`.
pub open spec fn lift_arms(
    cx: Ctx,
    id: nat,
    members: Seq<Type>,
    inputs: Seq<Operand>,
    n: nat,
    steps: Seq<StepView>,
) -> Seq<StepView>
    decreases id, 2nat, n,
{
    if n == 0 || n > members.len() {
        steps
    } else {
        lift_arm(
            cx,
            id,
            members[n - 1],
            inputs,
            lift_arms(cx, id, members, inputs, (n - 1) as nat, steps),
        )
    }
}

/// The block of one case of the variant at `id`, which holds a `case`: as
/// many of the variant's core values as the payload has, each cast to the
/// type the payload has at its place, and the payload lifted from them.
pub open spec fn lift_arm(cx: Ctx, id: nat, case: Type, inputs: Seq<Operand>, steps: Seq<StepView>) -> Seq<
    StepView,
>
    decreases id, 1nat, 0nat,
{
    let block = opened(steps);
    let want = flat(cx.types, case, id);
    let cast = cast_all(
        block,
        inputs.take(want.len() as int),
        def_flat(cx.types, id).skip(1),
        want,
        want.len(),
    );
    let payload = lift(cx, case, cast.1, id, cast.0);
    closed(payload.0, seq![payload.1])
}

/// Writes `value` of type `ty` to memory at `offset` from `addr`.
pub open spec fn write(
    cx: Ctx,
    ty: Type,
    value: Operand,
    addr: Operand,
    offset: i32,
    bound: nat,
    steps: Seq<StepView>,
) -> Seq<StepView>
    decreases bound, 0nat, 0nat,
{
    match ty {
        Type::Id(id) => if id < bound && id < cx.types.len() {
            write_def(cx, id as nat, value, addr, offset, steps)
        } else {
            lower_prim(cx, Type::Unit, value, steps).0
        },
        Type::Unit => lower_prim(cx, ty, value, steps).0,
        Type::String => store_pair(
            lower_prim(cx, ty, value, steps).0,
            lower_prim(cx, ty, value, steps).1,
            addr,
            offset,
        ),
        _ => emitted(
            lower_prim(cx, ty, value, steps).0,
            spec_store_inst(ty, offset),
            seq![result_of(steps, 0), addr],
        ),
    }
}

/// Writes a value of the definition at `id` to memory.
pub open spec fn write_def(
    cx: Ctx,
    id: nat,
    value: Operand,
    addr: Operand,
    offset: i32,
    steps: Seq<StepView>,
) -> Seq<StepView>
    decreases id, 4nat, 0nat,
{
    if id >= cx.types.len() {
        steps
    } else {
        let kind = cx.types[id as int].kind;
        let members = kind.spec_members();
        let tag = spec_tag(kind.spec_case_count());
        match kind {
            TypeDefKind::Type(t) => write(cx, t, value, addr, offset, id, steps),
            TypeDefKind::List(element) => store_pair(
                lower_list(cx, element, value, id, steps).0,
                lower_list(cx, element, value, id, steps).1,
                addr,
                offset,
            ),
            TypeDefKind::Record(_) => write_fields(
                cx,
                members,
                results_of(steps, members.len()),
                addr,
                offset,
                id,
                members.len(),
                emitted(
                    steps,
                    Instruction::RecordLower { ty: id as usize, fields: members.len() as usize },
                    seq![value],
                ),
            ),
            TypeDefKind::Tuple(_) => write_fields(
                cx,
                members,
                results_of(steps, members.len()),
                addr,
                offset,
                id,
                members.len(),
                emitted(
                    steps,
                    Instruction::TupleLower { ty: id as usize, fields: members.len() as usize },
                    seq![value],
                ),
            ),
            TypeDefKind::Flags(f) => {
                let repr = spec_flags_repr(f.flags@.len());
                let words = spec_repr_count(repr);
                let lowered = emitted(
                    steps,
                    Instruction::FlagsLower { ty: id as usize, words: words as usize },
                    seq![value],
                );
                match repr {
                    FlagsRepr::U8 => emitted(
                        lowered,
                        Instruction::I32Store8 { offset },
                        seq![result_of(steps, 0), addr],
                    ),
                    FlagsRepr::U16 => emitted(
                        lowered,
                        Instruction::I32Store16 { offset },
                        seq![result_of(steps, 0), addr],
                    ),
                    FlagsRepr::U32(_) => store_words(
                        lowered,
                        results_of(steps, words),
                        addr,
                        offset,
                        words,
                        words,
                    ),
                }
            },
            TypeDefKind::Enum(_) => emitted(
                emitted(steps, Instruction::EnumLower { ty: id as usize }, seq![value]),
                spec_store_int(tag, offset),
                seq![result_of(steps, 0), addr],
            ),
            _ => emitted(
                write_arms(cx, id, members, addr, offset, members.len(), steps),
                spec_variant_lower(kind, id as usize, 0),
                seq![value],
            ),
        }
    }
}

/// Writes the first `n` fields of a record, which `values` hold, each at
/// its offset in the record.
pub open spec fn write_fields(
    cx: Ctx,
    members: Seq<Type>,
    values: Seq<Operand>,
    addr: Operand,
    offset: i32,
    bound: nat,
    n: nat,
    steps: Seq<StepView>,
) -> Seq<StepView>
    decreases bound, 1nat, n,
{
    if n == 0 || n > members.len() || n > values.len() {
        steps
    } else {
        write(
            cx,
            members[n - 1],
            values[n - 1],
            addr,
            offset_by(offset, field_offset(cx.types, members, (n - 1) as nat)),
            bound,
            write_fields(cx, members, values, addr, offset, bound, (n - 1) as nat, steps),
        )
    }
}

/// The blocks of the first `n` cases of the variant at `id`, each of which
/// writes the discriminant and its case.
pub open spec fn write_arms(
    cx: Ctx,
    id: nat,
    members: Seq<Type>,
    addr: Operand,
    offset: i32,
    n: nat,
    steps: Seq<StepView>,
) -> Seq<StepView>
    decreases id, 2nat, n,
{
    if n == 0 || n > members.len() {
        steps
    } else {
        write_arm(
            cx,
            id,
            (n - 1) as nat,
            members,
            addr,
            offset,
            write_arms(cx, id, members, addr, offset, (n - 1) as nat, steps),
        )
    }
}

/// The block of case `i` of the variant at `id`: the discriminant goes to
/// `offset`, the payload behind it, where every payload of the variant
/// starts.
pub open spec fn write_arm(
    cx: Ctx,
    id: nat,
    i: nat,
    members: Seq<Type>,
    addr: Operand,
    offset: i32,
    steps: Seq<StepView>,
) -> Seq<StepView>
    decreases id, 1nat, 0nat,
{
    let tag = spec_tag(members.len());
    let block = opened(steps);
    let name = emitted(block, Instruction::VariantPayloadName, Seq::empty());
    let index = emitted(name, Instruction::I32Const { val: i as i32 }, Seq::empty());
    let stored = emitted(index, spec_store_int(tag, offset), seq![result_of(name, 0), addr]);
    closed(
        write(
            cx,
            members[i as int],
            result_of(block, 0),
            addr,
            offset_by(offset, spec_payload_offset(cx.types, tag, members)),
            id,
            stored,
        ),
        Seq::empty(),
    )
}

/// Reads a value of type `ty` from memory at `offset` from `addr`: the
/// steps, and the value.
pub open spec fn read(
    cx: Ctx,
    ty: Type,
    addr: Operand,
    offset: i32,
    bound: nat,
    steps: Seq<StepView>,
) -> (Seq<StepView>, Operand)
    decreases bound, 0nat, 0nat,
{
    match ty {
        Type::Id(id) => if id < bound && id < cx.types.len() {
            read_def(cx, id as nat, addr, offset, steps)
        } else {
            lift_prim(cx, Type::Unit, Seq::empty(), steps)
        },
        Type::Unit => lift_prim(cx, ty, Seq::empty(), steps),
        Type::String => lift_prim(
            cx,
            ty,
            load_pair(steps, addr, offset).1,
            load_pair(steps, addr, offset).0,
        ),
        _ => lift_prim(
            cx,
            ty,
            seq![result_of(steps, 0)],
            emitted(steps, spec_load_inst(ty, offset), seq![addr]),
        ),
    }
}

/// Reads a value of the definition at `id` from memory.
pub open spec fn read_def(cx: Ctx, id: nat, addr: Operand, offset: i32, steps: Seq<StepView>) -> (
    Seq<StepView>,
    Operand,
)
    decreases id, 4nat, 0nat,
{
    if id >= cx.types.len() {
        (steps, result_of(steps, 0))
    } else {
        let kind = cx.types[id as int].kind;
        let members = kind.spec_members();
        let tag = spec_tag(kind.spec_case_count());
        match kind {
            TypeDefKind::Type(t) => read(cx, t, addr, offset, id, steps),
            TypeDefKind::List(element) => lift_list(
                cx,
                element,
                id,
                load_pair(steps, addr, offset).1,
                id,
                load_pair(steps, addr, offset).0,
            ),
            TypeDefKind::Record(_) => {
                let fields = read_fields(cx, members, addr, offset, id, members.len(), steps);
                (
                    emitted(
                        fields.0,
                        Instruction::RecordLift {
                            ty: id as usize,
                            fields: members.len() as usize,
                        },
                        fields.1,
                    ),
                    result_of(fields.0, 0),
                )
            },
            TypeDefKind::Tuple(_) => {
                let fields = read_fields(cx, members, addr, offset, id, members.len(), steps);
                (
                    emitted(
                        fields.0,
                        Instruction::TupleLift { ty: id as usize, fields: members.len() as usize },
                        fields.1,
                    ),
                    result_of(fields.0, 0),
                )
            },
            TypeDefKind::Flags(f) => {
                let repr = spec_flags_repr(f.flags@.len());
                let words = spec_repr_count(repr);
                let loaded = match repr {
                    FlagsRepr::U8 => (
                        emitted(steps, Instruction::I32Load8U { offset }, seq![addr]),
                        seq![result_of(steps, 0)],
                    ),
                    FlagsRepr::U16 => (
                        emitted(steps, Instruction::I32Load16U { offset }, seq![addr]),
                        seq![result_of(steps, 0)],
                    ),
                    FlagsRepr::U32(_) => load_words(steps, addr, offset, words),
                };
                (
                    emitted(
                        loaded.0,
                        Instruction::FlagsLift { ty: id as usize, words: words as usize },
                        loaded.1,
                    ),
                    result_of(loaded.0, 0),
                )
            },
            TypeDefKind::Enum(_) => {
                let loaded = emitted(steps, spec_load_int(tag, offset), seq![addr]);
                (
                    emitted(
                        loaded,
                        Instruction::EnumLift { ty: id as usize },
                        seq![result_of(steps, 0)],
                    ),
                    result_of(loaded, 0),
                )
            },
            _ => {
                let loaded = emitted(steps, spec_load_int(tag, offset), seq![addr]);
                let arms = read_arms(cx, id, members, addr, offset, members.len(), loaded);
                (
                    emitted(arms, spec_variant_lift(kind, id as usize), seq![result_of(steps, 0)]),
                    result_of(arms, 0),
                )
            },
        }
    }
}

/// Reads the first `n` fields of a record, each from its offset in the
/// record: the steps, and the fields.
pub open spec fn read_fields(
    cx: Ctx,
    members: Seq<Type>,
    addr: Operand,
    offset: i32,
    bound: nat,
    n: nat,
    steps: Seq<StepView>,
) -> (Seq<StepView>, Seq<Operand>)
    decreases bound, 1nat, n,
{
    if n == 0 || n > members.len() {
        (steps, Seq::empty())
    } else {
        let before = read_fields(cx, members, addr, offset, bound, (n - 1) as nat, steps);
        let field = read(
            cx,
            members[n - 1],
            addr,
            offset_by(offset, field_offset(cx.types, members, (n - 1) as nat)),
            bound,
            before.0,
        );
        (field.0, before.1.push(field.1))
    }
}

/// The blocks of the first `n` cases of the variant at `id`, each of which
/// reads its case from behind the discriminant.
pub open spec fn read_arms(
    cx: Ctx,
    id: nat,
    members: Seq<Type>,
    addr: Operand,
    offset: i32,
    n: nat,
    steps: Seq<StepView>,
) -> Seq<StepView>
    decreases id, 2nat, n,
{
    if n == 0 || n > members.len() {
        steps
    } else {
        let before = read_arms(cx, id, members, addr, offset, (n - 1) as nat, steps);
        let block = opened(before);
        let payload = read(
            cx,
            members[n - 1],
            addr,
            offset_by(offset, spec_payload_offset(cx.types, spec_tag(members.len()), members)),
            id,
            block,
        );
        closed(payload.0, seq![payload.1])
    }
}

/// Whether a value of type `ty` at `offset` lies within what a 32-bit offset
/// reaches.
pub open spec fn room(types: Seq<TypeDef>, ty: Type, offset: i32) -> bool {
    0 <= offset && offset + type_layout(types, ty, types.len()).0 <= MAX_SIZE
}

/// What a compilation works with: the interface, the layout of its types,
/// the side of the boundary, and the way the values go.
pub struct Setup<'a> {
    pub iface: &'a Interface,
    pub sizes: &'a SizeAlign,
    pub variant: AbiVariant,
    pub lift_lower: LiftLower,
}

impl<'a> Setup<'a> {
    pub open spec fn cx(&self) -> Ctx {
        Ctx { types: self.iface.types@, variant: self.variant, lift_lower: self.lift_lower }
    }

    /// The layout is that of the interface.
    pub open spec fn inv(&self) -> bool {
        self.sizes.filled_for(self.iface.types@)
    }

    /// Whether a lowered list is given to the guest.
    pub fn realloc(&self) -> (r: bool)
        ensures
            r == spec_realloc(self.variant, self.lift_lower),
    {
        match (self.variant, self.lift_lower) {
            (AbiVariant::GuestImport, LiftLower::LowerArgsLiftResults) => false,
            _ => true,
        }
    }

    /// Whether the memory of a lifted list is given back to the guest.
    pub fn free(&self) -> (r: bool)
        ensures
            r == spec_free(self.variant, self.lift_lower),
    {
        match (self.variant, self.lift_lower) {
            (AbiVariant::GuestImport, LiftLower::LiftArgsLowerResults) => false,
            _ => true,
        }
    }

    fn lower_prim(&self, ty: Type, value: Operand, steps: &mut Vec<Step>) -> (r: Vec<Operand>)
        ensures
            arity_ok(steps_view(old(steps)@)) ==> arity_ok(steps_view(final(steps)@)),
            (steps_view(final(steps)@), r@) == lower_prim(
                self.cx(),
                ty,
                value,
                steps_view(old(steps)@),
            ),
            r@.len() == spec_results_len(
                spec_lower_inst(ty, self.lift_lower, spec_realloc(self.variant, self.lift_lower)),
            ),
    {
        let inst = lower_inst(ty, self.lift_lower, self.realloc());
        let ghost before = steps_view(steps@);
        let at = emit(steps, inst, one(value));
        results(at, inst.results_len(), Ghost(before))
    }

    /// Lowers `value` of type `ty` to core values, which it returns.
    pub fn lower(&self, ty: Type, value: Operand, bound: usize, steps: &mut Vec<Step>) -> (r: Vec<
        Operand,
    >)
        requires
            self.inv(),
        ensures
            arity_ok(steps_view(old(steps)@)) ==> arity_ok(steps_view(final(steps)@)),
            (steps_view(final(steps)@), r@) == lower(
                self.cx(),
                ty,
                value,
                bound as nat,
                steps_view(old(steps)@),
            ),
            r@.len() == crate::abi::flat(self.iface.types@, ty, bound as nat).len(),
        decreases bound, 0nat, 0nat,
    {
        match ty {
            Type::Id(id) => {
                if id < bound && id < self.iface.types.len() {
                    self.lower_def(id, value, steps)
                } else {
                    self.lower_prim(Type::Unit, value, steps)
                }
            },
            _ => self.lower_prim(ty, value, steps),
        }
    }

    fn lower_def(&self, id: usize, value: Operand, steps: &mut Vec<Step>) -> (r: Vec<Operand>)
        requires
            self.inv(),
            id < self.iface.types@.len(),
        ensures
            arity_ok(steps_view(old(steps)@)) ==> arity_ok(steps_view(final(steps)@)),
            (steps_view(final(steps)@), r@) == lower_def(
                self.cx(),
                id as nat,
                value,
                steps_view(old(steps)@),
            ),
            r@.len() == def_flat(self.iface.types@, id as nat).len(),
        decreases id, 4nat, 0nat,
    {
        let kind = &self.iface.types[id].kind;
        let ghost before = steps_view(steps@);
        match kind {
            TypeDefKind::Type(t) => self.lower(*t, value, id, steps),
            TypeDefKind::List(element) => self.lower_list(*element, value, id, steps),
            TypeDefKind::Record(_) => {
                let members = kind.members();
                let n = members.len();
                let at = emit(steps, Instruction::RecordLower { ty: id, fields: n }, one(value));
                let values = results(at, n, Ghost(before));
                self.lower_fields(&members, &values, id, steps)
            },
            TypeDefKind::Tuple(_) => {
                let members = kind.members();
                let n = members.len();
                let at = emit(steps, Instruction::TupleLower { ty: id, fields: n }, one(value));
                let values = results(at, n, Ghost(before));
                self.lower_fields(&members, &values, id, steps)
            },
            TypeDefKind::Flags(f) => {
                let words = f.repr().count();
                let at = emit(steps, Instruction::FlagsLower { ty: id, words }, one(value));
                results(at, words, Ghost(before))
            },
            TypeDefKind::Enum(_) => {
                let at = emit(steps, Instruction::EnumLower { ty: id }, one(value));
                results(at, 1, Ghost(before))
            },
            _ => {
                let members = kind.members();
                let all = self.iface.flatten(&Type::Id(id));
                self.lower_arms(id, &members, &all, steps);
                let ghost arms = steps_view(steps@);
                let at = emit(steps, variant_lower(kind, id, all.len()), one(value));
                results(at, all.len(), Ghost(arms))
            },
        }
    }

    fn lower_list(&self, element: Type, value: Operand, bound: usize, steps: &mut Vec<Step>) -> (r:
        Vec<Operand>)
        requires
            self.inv(),
        ensures
            arity_ok(steps_view(old(steps)@)) ==> arity_ok(steps_view(final(steps)@)),
            (steps_view(final(steps)@), r@) == lower_list(
                self.cx(),
                element,
                value,
                bound as nat,
                steps_view(old(steps)@),
            ),
            r@.len() == 2,
        decreases bound, 3nat, 0nat,
    {
        let realloc = self.realloc();
        if self.iface.all_bits_valid(&element) {
            let ghost before = steps_view(steps@);
            let at = emit(steps, Instruction::ListCanonLower { element, realloc }, one(value));
            results(at, 2, Ghost(before))
        } else {
            push_block(steps);
            let elem = emit(steps, Instruction::IterElem { element }, Vec::new());
            let base = emit(steps, Instruction::IterBasePointer, Vec::new());
            proof {
                self.sizes.lemma_filled(self.iface.types@, element);
            }
            self.write(
                element,
                Operand { step: elem, index: 0 },
                Operand { step: base, index: 0 },
                0,
                bound,
                steps,
            );
            finish_block(steps, Vec::new());
            let ghost end = steps_view(steps@);
            let at = emit(steps, Instruction::ListLower { element, realloc }, one(value));
            results(at, 2, Ghost(end))
        }
    }

    fn lower_fields(
        &self,
        members: &Vec<Type>,
        values: &Vec<Operand>,
        bound: usize,
        steps: &mut Vec<Step>,
    ) -> (r: Vec<Operand>)
        requires
            self.inv(),
            values@.len() == members@.len(),
        ensures
            arity_ok(steps_view(old(steps)@)) ==> arity_ok(steps_view(final(steps)@)),
            (steps_view(final(steps)@), r@) == lower_fields(
                self.cx(),
                members@,
                values@,
                bound as nat,
                members@.len(),
                steps_view(old(steps)@),
            ),
            r@.len() == concat_flat(self.iface.types@, members@, bound as nat, members@.len()).len(),
        decreases bound, 1nat, 0nat,
    {
        let mut out: Vec<Operand> = Vec::new();
        let mut k: usize = 0;
        while k < members.len()
            invariant
                arity_ok(steps_view(old(steps)@)) ==> arity_ok(steps_view(steps@)),
                k <= members@.len(),
                self.inv(),
                values@.len() == members@.len(),
                (steps_view(steps@), out@) == lower_fields(
                    self.cx(),
                    members@,
                    values@,
                    bound as nat,
                    k as nat,
                    steps_view(old(steps)@),
                ),
                out@.len() == concat_flat(self.iface.types@, members@, bound as nat, k as nat).len(),
            decreases members@.len() - k,
        {
            let mut field = self.lower(members[k], values[k], bound, steps);
            out.append(&mut field);
            k += 1;
        }
        out
    }

    fn lower_arms(&self, id: usize, members: &Vec<Type>, all: &Vec<WasmType>, steps: &mut Vec<Step>)
        requires
            self.inv(),
            id < self.iface.types@.len(),
            members@ == self.iface.types@[id as int].kind.spec_members(),
            self.iface.types@[id as int].kind.spec_has_payloads(),
            all@ == def_flat(self.iface.types@, id as nat),
        ensures
            arity_ok(steps_view(old(steps)@)) ==> arity_ok(steps_view(final(steps)@)),
            steps_view(final(steps)@) == lower_arms(
                self.cx(),
                id as nat,
                members@,
                members@.len(),
                steps_view(old(steps)@),
            ),
        decreases id, 2nat, 0nat,
    {
        let mut i: usize = 0;
        while i < members.len()
            invariant
                arity_ok(steps_view(old(steps)@)) ==> arity_ok(steps_view(steps@)),
                i <= members@.len(),
                self.inv(),
                id < self.iface.types@.len(),
                members@ == self.iface.types@[id as int].kind.spec_members(),
                self.iface.types@[id as int].kind.spec_has_payloads(),
                all@ == def_flat(self.iface.types@, id as nat),
                steps_view(steps@) == lower_arms(
                    self.cx(),
                    id as nat,
                    members@,
                    i as nat,
                    steps_view(old(steps)@),
                ),
            decreases members@.len() - i,
        {
            proof {
                lemma_joined_flat_covers(
                    self.iface.types@,
                    members@,
                    id as nat,
                    members@.len(),
                    i as nat,
                );
            }
            self.lower_arm(id, i, members[i], all, steps);
            i += 1;
        }
    }

    fn lower_arm(&self, id: usize, i: usize, case: Type, all: &Vec<WasmType>, steps: &mut Vec<Step>)
        requires
            self.inv(),
            id < self.iface.types@.len(),
            all@ == def_flat(self.iface.types@, id as nat),
            1 + crate::abi::flat(self.iface.types@, case, id as nat).len() <= all@.len(),
        ensures
            arity_ok(steps_view(old(steps)@)) ==> arity_ok(steps_view(final(steps)@)),
            steps_view(final(steps)@) == lower_arm(
                self.cx(),
                id as nat,
                i as nat,
                case,
                steps_view(old(steps)@),
            ),
        decreases id, 1nat, 0nat,
    {
        push_block(steps);
        let name = emit(steps, Instruction::VariantPayloadName, Vec::new());
        let tag = emit(steps, Instruction::I32Const { val: i as i32 }, Vec::new());
        let payload = self.lower(case, Operand { step: name, index: 0 }, id, steps);
        let have = self.iface.flat_below(case, id);
        let rest = slice_subrange(all.as_slice(), 1, all.len());
        let mut cast = emit_casts(steps, &payload, have.as_slice(), rest);
        let mut fill = emit_zeros(steps, all, 1 + payload.len());
        let mut value = one(Operand { step: tag, index: 0 });
        value.append(&mut cast);
        value.append(&mut fill);
        finish_block(steps, value);
    }

    /// Writes `value` of type `ty` to memory at `offset` from `addr`.
    pub fn write(
        &self,
        ty: Type,
        value: Operand,
        addr: Operand,
        offset: i32,
        bound: usize,
        steps: &mut Vec<Step>,
    )
        requires
            self.inv(),
            room(self.iface.types@, ty, offset),
        ensures
            arity_ok(steps_view(old(steps)@)) ==> arity_ok(steps_view(final(steps)@)),
            steps_view(final(steps)@) == write(
                self.cx(),
                ty,
                value,
                addr,
                offset,
                bound as nat,
                steps_view(old(steps)@),
            ),
        decreases bound, 0nat, 0nat,
    {
        match ty {
            Type::Id(id) => {
                if id < bound && id < self.iface.types.len() {
                    self.write_def(id, value, addr, offset, steps);
                } else {
                    self.lower_prim(Type::Unit, value, steps);
                }
            },
            Type::Unit => {
                self.lower_prim(ty, value, steps);
            },
            Type::String => {
                let pair = self.lower_prim(ty, value, steps);
                emit_store_pair(steps, &pair, addr, offset);
            },
            _ => {
                let lowered = self.lower_prim(ty, value, steps);
                emit(steps, store_inst(ty, offset), two(lowered[0], addr));
            },
        }
    }

    fn write_def(&self, id: usize, value: Operand, addr: Operand, offset: i32, steps: &mut Vec<Step>)
        requires
            self.inv(),
            id < self.iface.types@.len(),
            0 <= offset,
            offset + def_layout(self.iface.types@, id as nat).0 <= MAX_SIZE,
        ensures
            arity_ok(steps_view(old(steps)@)) ==> arity_ok(steps_view(final(steps)@)),
            steps_view(final(steps)@) == write_def(
                self.cx(),
                id as nat,
                value,
                addr,
                offset,
                steps_view(old(steps)@),
            ),
        decreases id, 4nat, 0nat,
    {
        let kind = &self.iface.types[id].kind;
        let ghost before = steps_view(steps@);
        match kind {
            TypeDefKind::Type(t) => {
                proof {
                    lemma_no_layout_error(
                        self.iface.types@,
                        self.iface.types@.len(),
                        id as nat,
                    );
                    assert(kind.spec_members()[0] == *t);
                    assert(type_layout(self.iface.types@, *t, id as nat) == type_layout(
                        self.iface.types@,
                        *t,
                        self.iface.types@.len(),
                    ));
                }
                self.write(*t, value, addr, offset, id, steps);
            },
            TypeDefKind::List(element) => {
                let pair = self.lower_list(*element, value, id, steps);
                emit_store_pair(steps, &pair, addr, offset);
            },
            TypeDefKind::Record(_) => {
                let members = kind.members();
                let n = members.len();
                let at = emit(steps, Instruction::RecordLower { ty: id, fields: n }, one(value));
                let values = results(at, n, Ghost(before));
                proof {
                    lemma_def_record_fits(self.iface.types@, id as nat);
                }
                self.write_fields(&members, &values, addr, offset, id, steps);
            },
            TypeDefKind::Tuple(_) => {
                let members = kind.members();
                let n = members.len();
                let at = emit(steps, Instruction::TupleLower { ty: id, fields: n }, one(value));
                let values = results(at, n, Ghost(before));
                proof {
                    lemma_def_record_fits(self.iface.types@, id as nat);
                }
                self.write_fields(&members, &values, addr, offset, id, steps);
            },
            TypeDefKind::Flags(f) => {
                let repr = f.repr();
                let words = repr.count();
                let at = emit(steps, Instruction::FlagsLower { ty: id, words }, one(value));
                match repr {
                    FlagsRepr::U8 => {
                        emit(
                            steps,
                            Instruction::I32Store8 { offset },
                            two(Operand { step: at, index: 0 }, addr),
                        );
                    },
                    FlagsRepr::U16 => {
                        emit(
                            steps,
                            Instruction::I32Store16 { offset },
                            two(Operand { step: at, index: 0 }, addr),
                        );
                    },
                    FlagsRepr::U32(_) => {
                        let lowered = results(at, words, Ghost(before));
                        assert(def_layout(self.iface.types@, id as nat).0 == words * 4);
                        emit_store_words(steps, &lowered, addr, offset);
                    },
                }
            },
            TypeDefKind::Enum(_) => {
                let at = emit(steps, Instruction::EnumLower { ty: id }, one(value));
                emit(steps, store_int(kind.tag(), offset), two(Operand { step: at, index: 0 }, addr));
            },
            _ => {
                let members = kind.members();
                assert(kind.spec_has_payloads());
                self.write_arms(id, &members, addr, offset, steps);
                emit(steps, variant_lower(kind, id, 0), one(value));
            },
        }
    }

    fn write_fields(
        &self,
        members: &Vec<Type>,
        values: &Vec<Operand>,
        addr: Operand,
        offset: i32,
        bound: usize,
        steps: &mut Vec<Step>,
    )
        requires
            self.inv(),
            values@.len() == members@.len(),
            spec_record(self.iface.types@, members@) is Some,
            0 <= offset,
            offset + spec_record_size(self.iface.types@, members@) <= MAX_SIZE,
        ensures
            arity_ok(steps_view(old(steps)@)) ==> arity_ok(steps_view(final(steps)@)),
            steps_view(final(steps)@) == write_fields(
                self.cx(),
                members@,
                values@,
                addr,
                offset,
                bound as nat,
                members@.len(),
                steps_view(old(steps)@),
            ),
        decreases bound, 1nat, 0nat,
    {
        let offsets = match self.sizes.field_offsets(self.iface, members) {
            Some(offsets) => offsets,
            None => Vec::new(),
        };
        let mut k: usize = 0;
        while k < members.len()
            invariant
                arity_ok(steps_view(old(steps)@)) ==> arity_ok(steps_view(steps@)),
                k <= members@.len(),
                self.inv(),
                values@.len() == members@.len(),
                offsets@.len() == members@.len(),
                spec_record(self.iface.types@, members@) is Some,
                0 <= offset,
                offset + spec_record_size(self.iface.types@, members@) <= MAX_SIZE,
                forall|j: int|
                    0 <= j < members@.len() ==> #[trigger] offsets@[j] == field_offset(
                        self.iface.types@,
                        members@,
                        j as nat,
                    ),
                steps_view(steps@) == write_fields(
                    self.cx(),
                    members@,
                    values@,
                    addr,
                    offset,
                    bound as nat,
                    k as nat,
                    steps_view(old(steps)@),
                ),
            decreases members@.len() - k,
        {
            proof {
                lemma_field_within(self.iface.types@, members@, k as nat);
            }
            self.write(members[k], values[k], addr, add_offset(offset, offsets[k]), bound, steps);
            k += 1;
        }
    }

    fn write_arms(
        &self,
        id: usize,
        members: &Vec<Type>,
        addr: Operand,
        offset: i32,
        steps: &mut Vec<Step>,
    )
        requires
            self.inv(),
            id < self.iface.types@.len(),
            members@ == self.iface.types@[id as int].kind.spec_members(),
            self.iface.types@[id as int].kind.spec_has_payloads(),
            0 <= offset,
            offset + def_layout(self.iface.types@, id as nat).0 <= MAX_SIZE,
        ensures
            arity_ok(steps_view(old(steps)@)) ==> arity_ok(steps_view(final(steps)@)),
            steps_view(final(steps)@) == write_arms(
                self.cx(),
                id as nat,
                members@,
                addr,
                offset,
                members@.len(),
                steps_view(old(steps)@),
            ),
        decreases id, 2nat, 0nat,
    {
        let mut i: usize = 0;
        while i < members.len()
            invariant
                arity_ok(steps_view(old(steps)@)) ==> arity_ok(steps_view(steps@)),
                i <= members@.len(),
                self.inv(),
                id < self.iface.types@.len(),
                members@ == self.iface.types@[id as int].kind.spec_members(),
                self.iface.types@[id as int].kind.spec_has_payloads(),
                0 <= offset,
                offset + def_layout(self.iface.types@, id as nat).0 <= MAX_SIZE,
                steps_view(steps@) == write_arms(
                    self.cx(),
                    id as nat,
                    members@,
                    addr,
                    offset,
                    i as nat,
                    steps_view(old(steps)@),
                ),
            decreases members@.len() - i,
        {
            proof {
                lemma_payload_within(self.iface.types@, id as nat, i as nat);
            }
            self.write_arm(id, i, members, addr, offset, steps);
            i += 1;
        }
    }

    fn write_arm(
        &self,
        id: usize,
        i: usize,
        members: &Vec<Type>,
        addr: Operand,
        offset: i32,
        steps: &mut Vec<Step>,
    )
        requires
            self.inv(),
            id < self.iface.types@.len(),
            i < members@.len(),
            0 <= offset,
            offset + spec_payload_offset(
                self.iface.types@,
                spec_tag(members@.len()),
                members@,
            ) + type_layout(self.iface.types@, members@[i as int], self.iface.types@.len()).0
                <= MAX_SIZE,
        ensures
            arity_ok(steps_view(old(steps)@)) ==> arity_ok(steps_view(final(steps)@)),
            steps_view(final(steps)@) == write_arm(
                self.cx(),
                id as nat,
                i as nat,
                members@,
                addr,
                offset,
                steps_view(old(steps)@),
            ),
        decreases id, 1nat, 0nat,
    {
        let tag = tag_for(members.len());
        push_block(steps);
        let name = emit(steps, Instruction::VariantPayloadName, Vec::new());
        let index = emit(steps, Instruction::I32Const { val: i as i32 }, Vec::new());
        emit(steps, store_int(tag, offset), two(Operand { step: index, index: 0 }, addr));
        let payload = self.sizes.payload_offset(self.iface, tag, members);
        self.write(
            members[i],
            Operand { step: name, index: 0 },
            addr,
            add_offset(offset, payload),
            id,
            steps,
        );
        finish_block(steps, Vec::new());
    }

    fn lift_prim(&self, ty: Type, flat: Vec<Operand>, steps: &mut Vec<Step>) -> (r: Operand)
        requires
            flat@.len() == spec_operands_len(
                spec_lift_inst(ty, self.lift_lower, spec_free(self.variant, self.lift_lower)),
            ),
        ensures
            arity_ok(steps_view(old(steps)@)) ==> arity_ok(steps_view(final(steps)@)),
            (steps_view(final(steps)@), r) == lift_prim(
                self.cx(),
                ty,
                flat@,
                steps_view(old(steps)@),
            ),
    {
        let inst = lift_inst(ty, self.lift_lower, self.free());
        let at = emit(steps, inst, flat);
        Operand { step: at, index: 0 }
    }

    /// Lifts a value of type `ty` from the core values `flat`, and returns
    /// it.
    pub fn lift(&self, ty: Type, flat: Vec<Operand>, bound: usize, steps: &mut Vec<Step>) -> (r:
        Operand)
        requires
            self.inv(),
            flat@.len() == crate::abi::flat(self.iface.types@, ty, bound as nat).len(),
        ensures
            arity_ok(steps_view(old(steps)@)) ==> arity_ok(steps_view(final(steps)@)),
            (steps_view(final(steps)@), r) == lift(
                self.cx(),
                ty,
                flat@,
                bound as nat,
                steps_view(old(steps)@),
            ),
        decreases bound, 0nat, 0nat,
    {
        match ty {
            Type::Id(id) => {
                if id < bound && id < self.iface.types.len() {
                    self.lift_def(id, flat, steps)
                } else {
                    self.lift_prim(Type::Unit, flat, steps)
                }
            },
            _ => self.lift_prim(ty, flat, steps),
        }
    }

    fn lift_def(&self, id: usize, flat: Vec<Operand>, steps: &mut Vec<Step>) -> (r: Operand)
        requires
            self.inv(),
            id < self.iface.types@.len(),
            flat@.len() == def_flat(self.iface.types@, id as nat).len(),
        ensures
            arity_ok(steps_view(old(steps)@)) ==> arity_ok(steps_view(final(steps)@)),
            (steps_view(final(steps)@), r) == lift_def(
                self.cx(),
                id as nat,
                flat@,
                steps_view(old(steps)@),
            ),
        decreases id, 4nat, 0nat,
    {
        let kind = &self.iface.types[id].kind;
        match kind {
            TypeDefKind::Type(t) => self.lift(*t, flat, id, steps),
            TypeDefKind::List(element) => self.lift_list(*element, id, flat, id, steps),
            TypeDefKind::Record(_) => {
                let members = kind.members();
                let fields = self.lift_fields(&members, &flat, id, steps);
                let at = emit(
                    steps,
                    Instruction::RecordLift { ty: id, fields: members.len() },
                    fields,
                );
                Operand { step: at, index: 0 }
            },
            TypeDefKind::Tuple(_) => {
                let members = kind.members();
                let fields = self.lift_fields(&members, &flat, id, steps);
                let at = emit(steps, Instruction::TupleLift { ty: id, fields: members.len() }, fields);
                Operand { step: at, index: 0 }
            },
            TypeDefKind::Flags(f) => {
                let words = f.repr().count();
                let at = emit(steps, Instruction::FlagsLift { ty: id, words }, flat);
                Operand { step: at, index: 0 }
            },
            TypeDefKind::Enum(_) => {
                let at = emit(steps, Instruction::EnumLift { ty: id }, flat);
                Operand { step: at, index: 0 }
            },
            _ => {
                let members = kind.members();
                let all = self.iface.flatten(&Type::Id(id));
                let inputs = slice_to_vec(slice_subrange(flat.as_slice(), 1, flat.len()));
                self.lift_arms(id, &members, &inputs, &all, steps);
                let at = emit(steps, variant_lift(kind, id), one(flat[0]));
                Operand { step: at, index: 0 }
            },
        }
    }

    fn lift_list(
        &self,
        element: Type,
        ty: usize,
        flat: Vec<Operand>,
        bound: usize,
        steps: &mut Vec<Step>,
    ) -> (r: Operand)
        requires
            self.inv(),
            flat@.len() == 2,
        ensures
            arity_ok(steps_view(old(steps)@)) ==> arity_ok(steps_view(final(steps)@)),
            (steps_view(final(steps)@), r) == lift_list(
                self.cx(),
                element,
                ty as nat,
                flat@,
                bound as nat,
                steps_view(old(steps)@),
            ),
        decreases bound, 3nat, 0nat,
    {
        let free = self.free();
        if self.iface.all_bits_valid(&element) {
            let at = emit(steps, Instruction::ListCanonLift { element, free, ty }, flat);
            Operand { step: at, index: 0 }
        } else {
            push_block(steps);
            let base = emit(steps, Instruction::IterBasePointer, Vec::new());
            proof {
                self.sizes.lemma_filled(self.iface.types@, element);
            }
            let value = self.read(element, Operand { step: base, index: 0 }, 0, bound, steps);
            finish_block(steps, one(value));
            let at = emit(steps, Instruction::ListLift { element, free, ty }, flat);
            Operand { step: at, index: 0 }
        }
    }

    fn lift_fields(
        &self,
        members: &Vec<Type>,
        flat: &Vec<Operand>,
        bound: usize,
        steps: &mut Vec<Step>,
    ) -> (r: Vec<Operand>)
        requires
            self.inv(),
            flat@.len() == concat_flat(
                self.iface.types@,
                members@,
                bound as nat,
                members@.len(),
            ).len(),
        ensures
            arity_ok(steps_view(old(steps)@)) ==> arity_ok(steps_view(final(steps)@)),
            (steps_view(final(steps)@), r@) == lift_fields(
                self.cx(),
                members@,
                flat@,
                bound as nat,
                members@.len(),
                steps_view(old(steps)@),
            ),
            r@.len() == members@.len(),
        decreases bound, 1nat, 0nat,
    {
        let mut out: Vec<Operand> = Vec::new();
        let total = flat.len();
        let mut from: usize = 0;
        let mut k: usize = 0;
        while k < members.len()
            invariant
                arity_ok(steps_view(old(steps)@)) ==> arity_ok(steps_view(steps@)),
                k <= members@.len(),
                self.inv(),
                total == flat@.len(),
                flat@.len() == concat_flat(
                    self.iface.types@,
                    members@,
                    bound as nat,
                    members@.len(),
                ).len(),
                from == concat_flat(self.iface.types@, members@, bound as nat, k as nat).len(),
                out@.len() == k,
                (steps_view(steps@), out@) == lift_fields(
                    self.cx(),
                    members@,
                    flat@,
                    bound as nat,
                    k as nat,
                    steps_view(old(steps)@),
                ),
            decreases members@.len() - k,
        {
            proof {
                lemma_concat_flat_len(
                    self.iface.types@,
                    members@,
                    bound as nat,
                    (k + 1) as nat,
                    members@.len(),
                );
            }
            let width = self.iface.flat_below(members[k], bound).len();
            assert(from + width == concat_flat(
                self.iface.types@,
                members@,
                bound as nat,
                (k + 1) as nat,
            ).len());
            let part = slice_to_vec(slice_subrange(flat.as_slice(), from, from + width));
            let value = self.lift(members[k], part, bound, steps);
            out.push(value);
            from = from + width;
            k += 1;
        }
        out
    }

    fn lift_arms(
        &self,
        id: usize,
        members: &Vec<Type>,
        inputs: &Vec<Operand>,
        all: &Vec<WasmType>,
        steps: &mut Vec<Step>,
    )
        requires
            self.inv(),
            id < self.iface.types@.len(),
            members@ == self.iface.types@[id as int].kind.spec_members(),
            self.iface.types@[id as int].kind.spec_has_payloads(),
            all@ == def_flat(self.iface.types@, id as nat),
            inputs@.len() + 1 == all@.len(),
        ensures
            arity_ok(steps_view(old(steps)@)) ==> arity_ok(steps_view(final(steps)@)),
            steps_view(final(steps)@) == lift_arms(
                self.cx(),
                id as nat,
                members@,
                inputs@,
                members@.len(),
                steps_view(old(steps)@),
            ),
        decreases id, 2nat, 0nat,
    {
        let mut i: usize = 0;
        while i < members.len()
            invariant
                arity_ok(steps_view(old(steps)@)) ==> arity_ok(steps_view(steps@)),
                i <= members@.len(),
                self.inv(),
                id < self.iface.types@.len(),
                members@ == self.iface.types@[id as int].kind.spec_members(),
                self.iface.types@[id as int].kind.spec_has_payloads(),
                all@ == def_flat(self.iface.types@, id as nat),
                inputs@.len() + 1 == all@.len(),
                steps_view(steps@) == lift_arms(
                    self.cx(),
                    id as nat,
                    members@,
                    inputs@,
                    i as nat,
                    steps_view(old(steps)@),
                ),
            decreases members@.len() - i,
        {
            proof {
                lemma_joined_flat_covers(
                    self.iface.types@,
                    members@,
                    id as nat,
                    members@.len(),
                    i as nat,
                );
            }
            self.lift_arm(id, members[i], inputs, all, steps);
            i += 1;
        }
    }

    fn lift_arm(
        &self,
        id: usize,
        case: Type,
        inputs: &Vec<Operand>,
        all: &Vec<WasmType>,
        steps: &mut Vec<Step>,
    )
        requires
            self.inv(),
            id < self.iface.types@.len(),
            all@ == def_flat(self.iface.types@, id as nat),
            inputs@.len() + 1 == all@.len(),
            1 + crate::abi::flat(self.iface.types@, case, id as nat).len() <= all@.len(),
        ensures
            arity_ok(steps_view(old(steps)@)) ==> arity_ok(steps_view(final(steps)@)),
            steps_view(final(steps)@) == lift_arm(
                self.cx(),
                id as nat,
                case,
                inputs@,
                steps_view(old(steps)@),
            ),
        decreases id, 1nat, 0nat,
    {
        push_block(steps);
        let want = self.iface.flat_below(case, id);
        let taken = slice_to_vec(slice_subrange(inputs.as_slice(), 0, want.len()));
        assert(taken@ =~= inputs@.take(want@.len() as int));
        let rest = slice_subrange(all.as_slice(), 1, all.len());
        let cast = emit_casts(steps, &taken, rest, want.as_slice());
        let value = self.lift(case, cast, id, steps);
        finish_block(steps, one(value));
    }

    /// Reads a value of type `ty` from memory at `offset` from `addr`, and
    /// returns it.
    pub fn read(&self, ty: Type, addr: Operand, offset: i32, bound: usize, steps: &mut Vec<Step>) -> (r:
        Operand)
        requires
            self.inv(),
            room(self.iface.types@, ty, offset),
        ensures
            arity_ok(steps_view(old(steps)@)) ==> arity_ok(steps_view(final(steps)@)),
            (steps_view(final(steps)@), r) == read(
                self.cx(),
                ty,
                addr,
                offset,
                bound as nat,
                steps_view(old(steps)@),
            ),
        decreases bound, 0nat, 0nat,
    {
        match ty {
            Type::Id(id) => {
                if id < bound && id < self.iface.types.len() {
                    self.read_def(id, addr, offset, steps)
                } else {
                    self.lift_prim(Type::Unit, Vec::new(), steps)
                }
            },
            Type::Unit => self.lift_prim(ty, Vec::new(), steps),
            Type::String => {
                let pair = emit_load_pair(steps, addr, offset);
                self.lift_prim(ty, pair, steps)
            },
            _ => {
                let at = emit(steps, load_inst(ty, offset), one(addr));
                self.lift_prim(ty, one(Operand { step: at, index: 0 }), steps)
            },
        }
    }

    fn read_def(&self, id: usize, addr: Operand, offset: i32, steps: &mut Vec<Step>) -> (r: Operand)
        requires
            self.inv(),
            id < self.iface.types@.len(),
            0 <= offset,
            offset + def_layout(self.iface.types@, id as nat).0 <= MAX_SIZE,
        ensures
            arity_ok(steps_view(old(steps)@)) ==> arity_ok(steps_view(final(steps)@)),
            (steps_view(final(steps)@), r) == read_def(
                self.cx(),
                id as nat,
                addr,
                offset,
                steps_view(old(steps)@),
            ),
        decreases id, 4nat, 0nat,
    {
        let kind = &self.iface.types[id].kind;
        match kind {
            TypeDefKind::Type(t) => {
                proof {
                    lemma_no_layout_error(
                        self.iface.types@,
                        self.iface.types@.len(),
                        id as nat,
                    );
                    assert(kind.spec_members()[0] == *t);
                    assert(type_layout(self.iface.types@, *t, id as nat) == type_layout(
                        self.iface.types@,
                        *t,
                        self.iface.types@.len(),
                    ));
                }
                self.read(*t, addr, offset, id, steps)
            },
            TypeDefKind::List(element) => {
                let pair = emit_load_pair(steps, addr, offset);
                self.lift_list(*element, id, pair, id, steps)
            },
            TypeDefKind::Record(_) => {
                let members = kind.members();
                proof {
                    lemma_def_record_fits(self.iface.types@, id as nat);
                }
                let fields = self.read_fields(&members, addr, offset, id, steps);
                let at = emit(
                    steps,
                    Instruction::RecordLift { ty: id, fields: members.len() },
                    fields,
                );
                Operand { step: at, index: 0 }
            },
            TypeDefKind::Tuple(_) => {
                let members = kind.members();
                proof {
                    lemma_def_record_fits(self.iface.types@, id as nat);
                }
                let fields = self.read_fields(&members, addr, offset, id, steps);
                let at = emit(steps, Instruction::TupleLift { ty: id, fields: members.len() }, fields);
                Operand { step: at, index: 0 }
            },
            TypeDefKind::Flags(f) => {
                let repr = f.repr();
                let words = repr.count();
                let loaded = match repr {
                    FlagsRepr::U8 => {
                        let at = emit(steps, Instruction::I32Load8U { offset }, one(addr));
                        one(Operand { step: at, index: 0 })
                    },
                    FlagsRepr::U16 => {
                        let at = emit(steps, Instruction::I32Load16U { offset }, one(addr));
                        one(Operand { step: at, index: 0 })
                    },
                    FlagsRepr::U32(_) => {
                        assert(def_layout(self.iface.types@, id as nat).0 == words * 4);
                        emit_load_words(steps, addr, offset, words)
                    },
                };
                let at = emit(steps, Instruction::FlagsLift { ty: id, words }, loaded);
                Operand { step: at, index: 0 }
            },
            TypeDefKind::Enum(_) => {
                let loaded = emit(steps, load_int(kind.tag(), offset), one(addr));
                let at = emit(
                    steps,
                    Instruction::EnumLift { ty: id },
                    one(Operand { step: loaded, index: 0 }),
                );
                Operand { step: at, index: 0 }
            },
            _ => {
                let members = kind.members();
                let loaded = emit(steps, load_int(kind.tag(), offset), one(addr));
                assert(kind.spec_has_payloads());
                self.read_arms(id, &members, addr, offset, steps);
                let at = emit(
                    steps,
                    variant_lift(kind, id),
                    one(Operand { step: loaded, index: 0 }),
                );
                Operand { step: at, index: 0 }
            },
        }
    }

    fn read_fields(
        &self,
        members: &Vec<Type>,
        addr: Operand,
        offset: i32,
        bound: usize,
        steps: &mut Vec<Step>,
    ) -> (r: Vec<Operand>)
        requires
            self.inv(),
            spec_record(self.iface.types@, members@) is Some,
            0 <= offset,
            offset + spec_record_size(self.iface.types@, members@) <= MAX_SIZE,
        ensures
            arity_ok(steps_view(old(steps)@)) ==> arity_ok(steps_view(final(steps)@)),
            (steps_view(final(steps)@), r@) == read_fields(
                self.cx(),
                members@,
                addr,
                offset,
                bound as nat,
                members@.len(),
                steps_view(old(steps)@),
            ),
            r@.len() == members@.len(),
        decreases bound, 1nat, 0nat,
    {
        let offsets = match self.sizes.field_offsets(self.iface, members) {
            Some(offsets) => offsets,
            None => Vec::new(),
        };
        let mut out: Vec<Operand> = Vec::new();
        let mut k: usize = 0;
        while k < members.len()
            invariant
                arity_ok(steps_view(old(steps)@)) ==> arity_ok(steps_view(steps@)),
                k <= members@.len(),
                self.inv(),
                offsets@.len() == members@.len(),
                spec_record(self.iface.types@, members@) is Some,
                0 <= offset,
                offset + spec_record_size(self.iface.types@, members@) <= MAX_SIZE,
                forall|j: int|
                    0 <= j < members@.len() ==> #[trigger] offsets@[j] == field_offset(
                        self.iface.types@,
                        members@,
                        j as nat,
                    ),
                out@.len() == k,
                (steps_view(steps@), out@) == read_fields(
                    self.cx(),
                    members@,
                    addr,
                    offset,
                    bound as nat,
                    k as nat,
                    steps_view(old(steps)@),
                ),
            decreases members@.len() - k,
        {
            proof {
                lemma_field_within(self.iface.types@, members@, k as nat);
            }
            let value = self.read(members[k], addr, add_offset(offset, offsets[k]), bound, steps);
            out.push(value);
            k += 1;
        }
        out
    }

    fn read_arms(
        &self,
        id: usize,
        members: &Vec<Type>,
        addr: Operand,
        offset: i32,
        steps: &mut Vec<Step>,
    )
        requires
            self.inv(),
            id < self.iface.types@.len(),
            members@ == self.iface.types@[id as int].kind.spec_members(),
            self.iface.types@[id as int].kind.spec_has_payloads(),
            0 <= offset,
            offset + def_layout(self.iface.types@, id as nat).0 <= MAX_SIZE,
        ensures
            arity_ok(steps_view(old(steps)@)) ==> arity_ok(steps_view(final(steps)@)),
            steps_view(final(steps)@) == read_arms(
                self.cx(),
                id as nat,
                members@,
                addr,
                offset,
                members@.len(),
                steps_view(old(steps)@),
            ),
        decreases id, 2nat, 0nat,
    {
        let tag = tag_for(members.len());
        let ahead = self.sizes.payload_offset(self.iface, tag, members);
        proof {
            lemma_no_layout_error(self.iface.types@, self.iface.types@.len(), id as nat);
        }
        let payload: i32 = if members.len() > 0 {
            proof {
                lemma_payload_within(self.iface.types@, id as nat, 0);
            }
            add_offset(offset, ahead)
        } else {
            offset
        };
        let mut i: usize = 0;
        while i < members.len()
            invariant
                arity_ok(steps_view(old(steps)@)) ==> arity_ok(steps_view(steps@)),
                i <= members@.len(),
                self.inv(),
                id < self.iface.types@.len(),
                members@ == self.iface.types@[id as int].kind.spec_members(),
                self.iface.types@[id as int].kind.spec_has_payloads(),
                0 <= offset,
                offset + def_layout(self.iface.types@, id as nat).0 <= MAX_SIZE,
                members@.len() > 0 ==> payload == offset_by(
                    offset,
                    spec_payload_offset(self.iface.types@, spec_tag(members@.len()), members@),
                ),
                members@.len() > 0 ==> payload == offset + spec_payload_offset(
                    self.iface.types@,
                    spec_tag(members@.len()),
                    members@,
                ),
                steps_view(steps@) == read_arms(
                    self.cx(),
                    id as nat,
                    members@,
                    addr,
                    offset,
                    i as nat,
                    steps_view(old(steps)@),
                ),
            decreases members@.len() - i,
        {
            push_block(steps);
            proof {
                lemma_payload_within(self.iface.types@, id as nat, i as nat);
            }
            let value = self.read(members[i], addr, payload, id, steps);
            finish_block(steps, one(value));
            i += 1;
        }
    }
}

} // verus!
