//! The closed vocabulary of marshalling operations. Each takes a fixed
//! number of operands and gives a fixed number of results; what it means is
//! for the renderer of a target to say.

use crate::abi::WasmType;
use crate::types::{Int, ResourceId, Type, TypeDefKind, TypeId};
use vstd::prelude::*;

verus! {

/// A change of the core type of a value that keeps its bits.
#[derive(Clone, Copy, Debug, PartialEq, Eq, Hash, Structural)]
pub enum Bitcast {
    F32ToI32,
    F64ToI64,
    I32ToI64,
    F32ToI64,
    I32ToF32,
    I64ToF64,
    I64ToI32,
    I64ToF32,
    /// The two types are one.
    Keep,
}

/// Which way the values of a call go: a caller lowers the arguments and
/// lifts the result, a callee lifts the arguments and lowers the result.
#[derive(Clone, Copy, Debug, PartialEq, Eq, Hash, Structural)]
pub enum LiftLower {
    LowerArgsLiftResults,
    LiftArgsLowerResults,
}

#[allow(inconsistent_fields)]
#[derive(Clone, Copy, Debug, PartialEq, Eq, Hash, Structural)]
pub enum Instruction {
    /// The `nth` argument of the function.
    GetArg { nth: usize },
    /// A constant.
    I32Const { val: i32 },
    /// Changes the core type of a value.
    Bitcast { cast: Bitcast },
    /// The zero of a core type.
    ConstZero { ty: WasmType },
    I32Load { offset: i32 },
    I32Load8U { offset: i32 },
    I32Load8S { offset: i32 },
    I32Load16U { offset: i32 },
    I32Load16S { offset: i32 },
    I64Load { offset: i32 },
    F32Load { offset: i32 },
    F64Load { offset: i32 },
    I32Store { offset: i32 },
    I32Store8 { offset: i32 },
    I32Store16 { offset: i32 },
    I64Store { offset: i32 },
    F32Store { offset: i32 },
    F64Store { offset: i32 },
    I32FromChar,
    I64FromU64,
    I64FromS64,
    I32FromU32,
    I32FromS32,
    I32FromU16,
    I32FromS16,
    I32FromU8,
    I32FromS8,
    F32FromFloat32,
    F64FromFloat64,
    S8FromI32,
    U8FromI32,
    S16FromI32,
    U16FromI32,
    S32FromI32,
    U32FromI32,
    S64FromI64,
    U64FromI64,
    CharFromI32,
    Float32FromF32,
    Float64FromF64,
    BoolFromI32,
    I32FromBool,
    UnitLower,
    UnitLift,
    I32FromOwnedHandle { ty: ResourceId },
    I32FromBorrowedHandle { ty: ResourceId },
    HandleOwnedFromI32 { ty: ResourceId },
    HandleBorrowedFromI32 { ty: ResourceId },
    /// Lowers a list by one copy of its elements; `realloc` says whether
    /// memory is allocated for it in the guest.
    ListCanonLower { element: Type, realloc: bool },
    StringLower { realloc: bool },
    /// Lowers a list element by element, by the block closed just before.
    ListLower { element: Type, realloc: bool },
    /// Lifts a list by one copy of its elements; `free` says whether the
    /// guest's memory is given back afterwards.
    ListCanonLift { element: Type, free: bool, ty: TypeId },
    StringLift { free: bool },
    /// Lifts a list element by element, by the block closed just before.
    ListLift { element: Type, free: bool, ty: TypeId },
    /// The element that a block of a list works on.
    IterElem { element: Type },
    /// The address of the element that a block of a list works on.
    IterBasePointer,
    RecordLower { ty: TypeId, fields: usize },
    RecordLift { ty: TypeId, fields: usize },
    TupleLower { ty: TypeId, fields: usize },
    TupleLift { ty: TypeId, fields: usize },
    FlagsLower { ty: TypeId, words: usize },
    FlagsLift { ty: TypeId, words: usize },
    /// The payload that a block of a variant works on.
    VariantPayloadName,
    /// Lowers a variant by the blocks closed just before, one per case.
    VariantLower { ty: TypeId, cases: usize, results: usize },
    /// Lifts a variant by the blocks closed just before, one per case.
    VariantLift { ty: TypeId, cases: usize },
    UnionLower { ty: TypeId, cases: usize, results: usize },
    UnionLift { ty: TypeId, cases: usize },
    OptionLower { ty: TypeId, results: usize },
    OptionLift { ty: TypeId },
    ExpectedLower { ty: TypeId, results: usize },
    ExpectedLift { ty: TypeId },
    EnumLower { ty: TypeId },
    EnumLift { ty: TypeId },
    /// Calls the function of the guest with the given position in the
    /// interface.
    CallWasm { func: usize, params: usize, results: usize },
    /// Calls the function of the host with the given position in the
    /// interface.
    CallInterface { func: usize, params: usize },
    /// Returns `amt` values from the function.
    Return { func: usize, amt: usize },
    /// Allocates memory in the guest.
    Malloc { size: usize, align: usize },
    /// Gives memory back to the guest.
    Free { size: usize, align: usize },
}

/// The number of operands that an instruction takes.
pub open spec fn spec_operands_len(inst: Instruction) -> nat {
    match inst {
        Instruction::GetArg { .. } => 0,
        Instruction::I32Const { .. } => 0,
        Instruction::ConstZero { .. } => 0,
        Instruction::UnitLift => 0,
        Instruction::IterElem { .. } => 0,
        Instruction::IterBasePointer => 0,
        Instruction::VariantPayloadName => 0,
        Instruction::Malloc { .. } => 0,
        Instruction::I32Store { .. } => 2,
        Instruction::I32Store8 { .. } => 2,
        Instruction::I32Store16 { .. } => 2,
        Instruction::I64Store { .. } => 2,
        Instruction::F32Store { .. } => 2,
        Instruction::F64Store { .. } => 2,
        Instruction::ListCanonLift { .. } => 2,
        Instruction::StringLift { .. } => 2,
        Instruction::ListLift { .. } => 2,
        Instruction::RecordLift { fields, .. } => fields as nat,
        Instruction::TupleLift { fields, .. } => fields as nat,
        Instruction::FlagsLift { words, .. } => words as nat,
        Instruction::CallWasm { params, .. } => params as nat,
        Instruction::CallInterface { params, .. } => params as nat,
        Instruction::Return { amt, .. } => amt as nat,
        _ => 1,
    }
}

/// The number of results that an instruction gives.
pub open spec fn spec_results_len(inst: Instruction) -> nat {
    match inst {
        Instruction::I32Store { .. } => 0,
        Instruction::I32Store8 { .. } => 0,
        Instruction::I32Store16 { .. } => 0,
        Instruction::I64Store { .. } => 0,
        Instruction::F32Store { .. } => 0,
        Instruction::F64Store { .. } => 0,
        Instruction::UnitLower => 0,
        Instruction::Return { .. } => 0,
        Instruction::Free { .. } => 0,
        Instruction::ListCanonLower { .. } => 2,
        Instruction::StringLower { .. } => 2,
        Instruction::ListLower { .. } => 2,
        Instruction::RecordLower { fields, .. } => fields as nat,
        Instruction::TupleLower { fields, .. } => fields as nat,
        Instruction::FlagsLower { words, .. } => words as nat,
        Instruction::VariantLower { results, .. } => results as nat,
        Instruction::UnionLower { results, .. } => results as nat,
        Instruction::OptionLower { results, .. } => results as nat,
        Instruction::ExpectedLower { results, .. } => results as nat,
        Instruction::CallWasm { results, .. } => results as nat,
        _ => 1,
    }
}

impl Instruction {
    /// The number of operands that the instruction takes.
    pub fn operands_len(&self) -> (n: usize)
        ensures
            n == spec_operands_len(*self),
    {
        match self {
            Instruction::GetArg { .. }
            | Instruction::I32Const { .. }
            | Instruction::ConstZero { .. }
            | Instruction::UnitLift
            | Instruction::IterElem { .. }
            | Instruction::IterBasePointer
            | Instruction::VariantPayloadName
            | Instruction::Malloc { .. } => 0,
            Instruction::I32Store { .. }
            | Instruction::I32Store8 { .. }
            | Instruction::I32Store16 { .. }
            | Instruction::I64Store { .. }
            | Instruction::F32Store { .. }
            | Instruction::F64Store { .. }
            | Instruction::ListCanonLift { .. }
            | Instruction::StringLift { .. }
            | Instruction::ListLift { .. } => 2,
            Instruction::RecordLift { fields, .. } => *fields,
            Instruction::TupleLift { fields, .. } => *fields,
            Instruction::FlagsLift { words, .. } => *words,
            Instruction::CallWasm { params, .. } => *params,
            Instruction::CallInterface { params, .. } => *params,
            Instruction::Return { amt, .. } => *amt,
            _ => 1,
        }
    }

    /// The number of results that the instruction gives.
    pub fn results_len(&self) -> (n: usize)
        ensures
            n == spec_results_len(*self),
    {
        match self {
            Instruction::I32Store { .. }
            | Instruction::I32Store8 { .. }
            | Instruction::I32Store16 { .. }
            | Instruction::I64Store { .. }
            | Instruction::F32Store { .. }
            | Instruction::F64Store { .. }
            | Instruction::UnitLower
            | Instruction::Return { .. }
            | Instruction::Free { .. } => 0,
            Instruction::ListCanonLower { .. }
            | Instruction::StringLower { .. }
            | Instruction::ListLower { .. } => 2,
            Instruction::RecordLower { fields, .. } => *fields,
            Instruction::TupleLower { fields, .. } => *fields,
            Instruction::FlagsLower { words, .. } => *words,
            Instruction::VariantLower { results, .. } => *results,
            Instruction::UnionLower { results, .. } => *results,
            Instruction::OptionLower { results, .. } => *results,
            Instruction::ExpectedLower { results, .. } => *results,
            Instruction::CallWasm { results, .. } => *results,
            _ => 1,
        }
    }
}

/// The change of type that takes a value of `from` where one of `to` is
/// expected. A float never stands where the other float or an integer of
/// the other width is expected: for such a pair the value is kept.
pub open spec fn spec_cast(from: WasmType, to: WasmType) -> Bitcast {
    match (from, to) {
        (WasmType::I32, WasmType::I64) => Bitcast::I32ToI64,
        (WasmType::F32, WasmType::I32) => Bitcast::F32ToI32,
        (WasmType::F64, WasmType::I64) => Bitcast::F64ToI64,
        (WasmType::I64, WasmType::I32) => Bitcast::I64ToI32,
        (WasmType::I32, WasmType::F32) => Bitcast::I32ToF32,
        (WasmType::I64, WasmType::F64) => Bitcast::I64ToF64,
        (WasmType::F32, WasmType::I64) => Bitcast::F32ToI64,
        (WasmType::I64, WasmType::F32) => Bitcast::I64ToF32,
        _ => Bitcast::Keep,
    }
}

pub fn cast(from: WasmType, to: WasmType) -> (r: Bitcast)
    ensures
        r == spec_cast(from, to),
{
    match (from, to) {
        (WasmType::I32, WasmType::I64) => Bitcast::I32ToI64,
        (WasmType::F32, WasmType::I32) => Bitcast::F32ToI32,
        (WasmType::F64, WasmType::I64) => Bitcast::F64ToI64,
        (WasmType::I64, WasmType::I32) => Bitcast::I64ToI32,
        (WasmType::I32, WasmType::F32) => Bitcast::I32ToF32,
        (WasmType::I64, WasmType::F64) => Bitcast::I64ToF64,
        (WasmType::F32, WasmType::I64) => Bitcast::F32ToI64,
        (WasmType::I64, WasmType::F32) => Bitcast::I64ToF32,
        _ => Bitcast::Keep,
    }
}

/// The instruction that loads an integer of the given width.
pub open spec fn spec_load_int(repr: Int, offset: i32) -> Instruction {
    match repr {
        Int::U64 => Instruction::I64Load { offset },
        Int::U32 => Instruction::I32Load { offset },
        Int::U16 => Instruction::I32Load16U { offset },
        Int::U8 => Instruction::I32Load8U { offset },
    }
}

/// The instruction that stores an integer of the given width.
pub open spec fn spec_store_int(repr: Int, offset: i32) -> Instruction {
    match repr {
        Int::U64 => Instruction::I64Store { offset },
        Int::U32 => Instruction::I32Store { offset },
        Int::U16 => Instruction::I32Store16 { offset },
        Int::U8 => Instruction::I32Store8 { offset },
    }
}

pub fn load_int(repr: Int, offset: i32) -> (r: Instruction)
    ensures
        r == spec_load_int(repr, offset),
{
    match repr {
        Int::U64 => Instruction::I64Load { offset },
        Int::U32 => Instruction::I32Load { offset },
        Int::U16 => Instruction::I32Load16U { offset },
        Int::U8 => Instruction::I32Load8U { offset },
    }
}

pub fn store_int(repr: Int, offset: i32) -> (r: Instruction)
    ensures
        r == spec_store_int(repr, offset),
{
    match repr {
        Int::U64 => Instruction::I64Store { offset },
        Int::U32 => Instruction::I32Store { offset },
        Int::U16 => Instruction::I32Store16 { offset },
        Int::U8 => Instruction::I32Store8 { offset },
    }
}

/// The instruction that lowers a value of a type that is no reference to a
/// definition. A handle that a caller lowers is lent, one that a callee
/// lowers is given away.
pub open spec fn spec_lower_inst(ty: Type, lift_lower: LiftLower, realloc: bool) -> Instruction {
    match ty {
        Type::Bool => Instruction::I32FromBool,
        Type::S8 => Instruction::I32FromS8,
        Type::U8 => Instruction::I32FromU8,
        Type::S16 => Instruction::I32FromS16,
        Type::U16 => Instruction::I32FromU16,
        Type::S32 => Instruction::I32FromS32,
        Type::U32 => Instruction::I32FromU32,
        Type::S64 => Instruction::I64FromS64,
        Type::U64 => Instruction::I64FromU64,
        Type::Char => Instruction::I32FromChar,
        Type::Float32 => Instruction::F32FromFloat32,
        Type::Float64 => Instruction::F64FromFloat64,
        Type::Handle(r) => if lift_lower == LiftLower::LowerArgsLiftResults {
            Instruction::I32FromBorrowedHandle { ty: r }
        } else {
            Instruction::I32FromOwnedHandle { ty: r }
        },
        Type::String => Instruction::StringLower { realloc },
        _ => Instruction::UnitLower,
    }
}

/// The instruction that lifts a value of a type that is no reference to a
/// definition. A handle that a callee lifts is lent, one that a caller lifts
/// is its own.
pub open spec fn spec_lift_inst(ty: Type, lift_lower: LiftLower, free: bool) -> Instruction {
    match ty {
        Type::Bool => Instruction::BoolFromI32,
        Type::S8 => Instruction::S8FromI32,
        Type::U8 => Instruction::U8FromI32,
        Type::S16 => Instruction::S16FromI32,
        Type::U16 => Instruction::U16FromI32,
        Type::S32 => Instruction::S32FromI32,
        Type::U32 => Instruction::U32FromI32,
        Type::S64 => Instruction::S64FromI64,
        Type::U64 => Instruction::U64FromI64,
        Type::Char => Instruction::CharFromI32,
        Type::Float32 => Instruction::Float32FromF32,
        Type::Float64 => Instruction::Float64FromF64,
        Type::Handle(r) => if lift_lower == LiftLower::LiftArgsLowerResults {
            Instruction::HandleBorrowedFromI32 { ty: r }
        } else {
            Instruction::HandleOwnedFromI32 { ty: r }
        },
        Type::String => Instruction::StringLift { free },
        _ => Instruction::UnitLift,
    }
}

pub fn lower_inst(ty: Type, lift_lower: LiftLower, realloc: bool) -> (r: Instruction)
    ensures
        r == spec_lower_inst(ty, lift_lower, realloc),
{
    match ty {
        Type::Bool => Instruction::I32FromBool,
        Type::S8 => Instruction::I32FromS8,
        Type::U8 => Instruction::I32FromU8,
        Type::S16 => Instruction::I32FromS16,
        Type::U16 => Instruction::I32FromU16,
        Type::S32 => Instruction::I32FromS32,
        Type::U32 => Instruction::I32FromU32,
        Type::S64 => Instruction::I64FromS64,
        Type::U64 => Instruction::I64FromU64,
        Type::Char => Instruction::I32FromChar,
        Type::Float32 => Instruction::F32FromFloat32,
        Type::Float64 => Instruction::F64FromFloat64,
        Type::Handle(r) => match lift_lower {
            LiftLower::LowerArgsLiftResults => Instruction::I32FromBorrowedHandle { ty: r },
            LiftLower::LiftArgsLowerResults => Instruction::I32FromOwnedHandle { ty: r },
        },
        Type::String => Instruction::StringLower { realloc },
        _ => Instruction::UnitLower,
    }
}

pub fn lift_inst(ty: Type, lift_lower: LiftLower, free: bool) -> (r: Instruction)
    ensures
        r == spec_lift_inst(ty, lift_lower, free),
{
    match ty {
        Type::Bool => Instruction::BoolFromI32,
        Type::S8 => Instruction::S8FromI32,
        Type::U8 => Instruction::U8FromI32,
        Type::S16 => Instruction::S16FromI32,
        Type::U16 => Instruction::U16FromI32,
        Type::S32 => Instruction::S32FromI32,
        Type::U32 => Instruction::U32FromI32,
        Type::S64 => Instruction::S64FromI64,
        Type::U64 => Instruction::U64FromI64,
        Type::Char => Instruction::CharFromI32,
        Type::Float32 => Instruction::Float32FromF32,
        Type::Float64 => Instruction::Float64FromF64,
        Type::Handle(r) => match lift_lower {
            LiftLower::LiftArgsLowerResults => Instruction::HandleBorrowedFromI32 { ty: r },
            LiftLower::LowerArgsLiftResults => Instruction::HandleOwnedFromI32 { ty: r },
        },
        Type::String => Instruction::StringLift { free },
        _ => Instruction::UnitLift,
    }
}

/// The instruction that loads the core value of a primitive type from
/// memory.
pub open spec fn spec_load_inst(ty: Type, offset: i32) -> Instruction {
    match ty {
        Type::Bool => Instruction::I32Load8U { offset },
        Type::U8 => Instruction::I32Load8U { offset },
        Type::S8 => Instruction::I32Load8S { offset },
        Type::U16 => Instruction::I32Load16U { offset },
        Type::S16 => Instruction::I32Load16S { offset },
        Type::U64 => Instruction::I64Load { offset },
        Type::S64 => Instruction::I64Load { offset },
        Type::Float32 => Instruction::F32Load { offset },
        Type::Float64 => Instruction::F64Load { offset },
        _ => Instruction::I32Load { offset },
    }
}

/// The instruction that stores the core value of a primitive type to
/// memory.
pub open spec fn spec_store_inst(ty: Type, offset: i32) -> Instruction {
    match ty {
        Type::Bool => Instruction::I32Store8 { offset },
        Type::U8 => Instruction::I32Store8 { offset },
        Type::S8 => Instruction::I32Store8 { offset },
        Type::U16 => Instruction::I32Store16 { offset },
        Type::S16 => Instruction::I32Store16 { offset },
        Type::U64 => Instruction::I64Store { offset },
        Type::S64 => Instruction::I64Store { offset },
        Type::Float32 => Instruction::F32Store { offset },
        Type::Float64 => Instruction::F64Store { offset },
        _ => Instruction::I32Store { offset },
    }
}

pub fn load_inst(ty: Type, offset: i32) -> (r: Instruction)
    ensures
        r == spec_load_inst(ty, offset),
{
    match ty {
        Type::Bool | Type::U8 => Instruction::I32Load8U { offset },
        Type::S8 => Instruction::I32Load8S { offset },
        Type::U16 => Instruction::I32Load16U { offset },
        Type::S16 => Instruction::I32Load16S { offset },
        Type::U64 | Type::S64 => Instruction::I64Load { offset },
        Type::Float32 => Instruction::F32Load { offset },
        Type::Float64 => Instruction::F64Load { offset },
        _ => Instruction::I32Load { offset },
    }
}

pub fn store_inst(ty: Type, offset: i32) -> (r: Instruction)
    ensures
        r == spec_store_inst(ty, offset),
{
    match ty {
        Type::Bool | Type::U8 | Type::S8 => Instruction::I32Store8 { offset },
        Type::U16 | Type::S16 => Instruction::I32Store16 { offset },
        Type::U64 | Type::S64 => Instruction::I64Store { offset },
        Type::Float32 => Instruction::F32Store { offset },
        Type::Float64 => Instruction::F64Store { offset },
        _ => Instruction::I32Store { offset },
    }
}

/// The instruction that lowers a value of one of the variant family, after
/// the blocks of its cases.
pub open spec fn spec_variant_lower(kind: TypeDefKind, ty: TypeId, results: usize) -> Instruction {
    match kind {
        TypeDefKind::Union(u) => Instruction::UnionLower {
            ty,
            cases: u.cases@.len() as usize,
            results,
        },
        TypeDefKind::Option(_) => Instruction::OptionLower { ty, results },
        TypeDefKind::Expected(_) => Instruction::ExpectedLower { ty, results },
        _ => Instruction::VariantLower { ty, cases: kind.spec_case_count() as usize, results },
    }
}

/// The instruction that lifts a value of one of the variant family, after
/// the blocks of its cases.
pub open spec fn spec_variant_lift(kind: TypeDefKind, ty: TypeId) -> Instruction {
    match kind {
        TypeDefKind::Union(u) => Instruction::UnionLift { ty, cases: u.cases@.len() as usize },
        TypeDefKind::Option(_) => Instruction::OptionLift { ty },
        TypeDefKind::Expected(_) => Instruction::ExpectedLift { ty },
        _ => Instruction::VariantLift { ty, cases: kind.spec_case_count() as usize },
    }
}

pub fn variant_lower(kind: &TypeDefKind, ty: TypeId, results: usize) -> (r: Instruction)
    ensures
        r == spec_variant_lower(*kind, ty, results),
        spec_results_len(r) == results,
        spec_operands_len(r) == 1,
{
    match kind {
        TypeDefKind::Union(u) => Instruction::UnionLower { ty, cases: u.cases.len(), results },
        TypeDefKind::Option(_) => Instruction::OptionLower { ty, results },
        TypeDefKind::Expected(_) => Instruction::ExpectedLower { ty, results },
        _ => Instruction::VariantLower { ty, cases: kind.case_count(), results },
    }
}

pub fn variant_lift(kind: &TypeDefKind, ty: TypeId) -> (r: Instruction)
    ensures
        r == spec_variant_lift(*kind, ty),
        spec_results_len(r) == 1,
        spec_operands_len(r) == 1,
{
    match kind {
        TypeDefKind::Union(u) => Instruction::UnionLift { ty, cases: u.cases.len() },
        TypeDefKind::Option(_) => Instruction::OptionLift { ty },
        TypeDefKind::Expected(_) => Instruction::ExpectedLift { ty },
        _ => Instruction::VariantLift { ty, cases: kind.case_count() },
    }
}

} // verus!
