//! What the code of one function needs from its surroundings, decided from
//! the function's protocol and handed back as a value, to be folded over
//! the functions of an interface.

use crate::instruction::Instruction;
use crate::protocol::{steps_view, Step, StepView};
use vstd::prelude::*;

verus! {

/// What the rendered code of a function needs. Each need is met once, in
/// the code around the functions.
#[derive(Clone, Copy, Debug, PartialEq, Eq, Structural)]
pub struct Requirements {
    /// Loads and stores that are checked against the extent of the memory.
    pub raw_mem: bool,
    /// The check of a lifted `char`.
    pub char_from_i32: bool,
    /// The error of a discriminant outside its domain.
    pub invalid_variant: bool,
    /// The check of lifted flags.
    pub validate_flags: bool,
    /// The error of an integer that does not fit.
    pub bad_int: bool,
    /// The copy of a list out of the guest's memory.
    pub copy_slice: bool,
    /// The guest's memory.
    pub memory: bool,
    /// Borrows of the guest's memory that last through the call.
    pub borrow_checker: bool,
    /// The guest's function that allocates.
    pub realloc: bool,
    /// The guest's function that gives memory back.
    pub free: bool,
}

/// Nothing is needed.
pub open spec fn spec_none() -> Requirements {
    Requirements {
        raw_mem: false,
        char_from_i32: false,
        invalid_variant: false,
        validate_flags: false,
        bad_int: false,
        copy_slice: false,
        memory: false,
        borrow_checker: false,
        realloc: false,
        free: false,
    }
}

/// What is needed where either of the two is.
pub open spec fn spec_merge(a: Requirements, b: Requirements) -> Requirements {
    Requirements {
        raw_mem: a.raw_mem || b.raw_mem,
        char_from_i32: a.char_from_i32 || b.char_from_i32,
        invalid_variant: a.invalid_variant || b.invalid_variant,
        validate_flags: a.validate_flags || b.validate_flags,
        bad_int: a.bad_int || b.bad_int,
        copy_slice: a.copy_slice || b.copy_slice,
        memory: a.memory || b.memory,
        borrow_checker: a.borrow_checker || b.borrow_checker,
        realloc: a.realloc || b.realloc,
        free: a.free || b.free,
    }
}

/// Whether the instruction loads from or stores to memory.
pub open spec fn touches_memory(inst: Instruction) -> bool {
    match inst {
        Instruction::I32Load { .. } => true,
        Instruction::I32Load8U { .. } => true,
        Instruction::I32Load8S { .. } => true,
        Instruction::I32Load16U { .. } => true,
        Instruction::I32Load16S { .. } => true,
        Instruction::I64Load { .. } => true,
        Instruction::F32Load { .. } => true,
        Instruction::F64Load { .. } => true,
        Instruction::I32Store { .. } => true,
        Instruction::I32Store8 { .. } => true,
        Instruction::I32Store16 { .. } => true,
        Instruction::I64Store { .. } => true,
        Instruction::F32Store { .. } => true,
        Instruction::F64Store { .. } => true,
        _ => false,
    }
}

/// Whether the instruction is the call itself.
pub open spec fn is_call(inst: Instruction) -> bool {
    inst is CallWasm || inst is CallInterface
}

/// How memory is reached at some point of a function: where the host
/// implements an import, before the call through borrows that last, and
/// after it through the memory itself; everywhere else through the memory.
pub open spec fn memory_access(in_import: bool, after_call: bool) -> Requirements {
    Requirements {
        memory: !in_import || after_call,
        borrow_checker: in_import && !after_call,
        ..spec_none()
    }
}

/// What one instruction needs, at a point before or after the call.
pub open spec fn of_instruction(inst: Instruction, in_import: bool, after_call: bool) -> Requirements {
    if touches_memory(inst) {
        Requirements { raw_mem: true, ..memory_access(in_import, after_call) }
    } else {
        match inst {
            Instruction::S8FromI32 => Requirements { bad_int: true, ..spec_none() },
            Instruction::U8FromI32 => Requirements { bad_int: true, ..spec_none() },
            Instruction::S16FromI32 => Requirements { bad_int: true, ..spec_none() },
            Instruction::U16FromI32 => Requirements { bad_int: true, ..spec_none() },
            Instruction::CharFromI32 => Requirements { char_from_i32: true, ..spec_none() },
            Instruction::BoolFromI32 => Requirements { invalid_variant: true, ..spec_none() },
            Instruction::VariantLift { .. } => Requirements {
                invalid_variant: true,
                ..spec_none()
            },
            Instruction::UnionLift { .. } => Requirements { invalid_variant: true, ..spec_none() },
            Instruction::OptionLift { .. } => Requirements { invalid_variant: true, ..spec_none() },
            Instruction::ExpectedLift { .. } => Requirements {
                invalid_variant: true,
                ..spec_none()
            },
            Instruction::EnumLift { .. } => Requirements { invalid_variant: true, ..spec_none() },
            Instruction::FlagsLift { .. } => Requirements { validate_flags: true, ..spec_none() },
            Instruction::ListCanonLower { realloc, .. } => Requirements {
                raw_mem: true,
                realloc,
                memory: true,
                borrow_checker: in_import && !after_call,
                ..spec_none()
            },
            Instruction::StringLower { realloc } => Requirements {
                raw_mem: true,
                realloc,
                memory: true,
                borrow_checker: in_import && !after_call,
                ..spec_none()
            },
            Instruction::ListLower { realloc, .. } => Requirements { realloc, ..spec_none() },
            Instruction::ListCanonLift { free, .. } => Requirements {
                memory: free,
                copy_slice: free,
                free,
                borrow_checker: !free,
                ..spec_none()
            },
            Instruction::StringLift { free } => Requirements {
                memory: free,
                copy_slice: free,
                free,
                borrow_checker: !free,
                ..spec_none()
            },
            Instruction::ListLift { free, .. } => Requirements { free, ..spec_none() },
            Instruction::Malloc { .. } => Requirements { realloc: true, ..spec_none() },
            Instruction::Free { .. } => Requirements { free: true, ..spec_none() },
            _ => spec_none(),
        }
    }
}

/// Whether the call lies among the first `n` steps.
pub open spec fn called_before(steps: Seq<StepView>, n: nat) -> bool
    decreases n,
{
    if n == 0 || n > steps.len() {
        false
    } else {
        called_before(steps, (n - 1) as nat) || (steps[n - 1] matches StepView::Emit { inst, .. }
            && is_call(inst))
    }
}

/// What the first `n` steps need together.
pub open spec fn of_steps(steps: Seq<StepView>, in_import: bool, n: nat) -> Requirements
    decreases n,
{
    if n == 0 || n > steps.len() {
        spec_none()
    } else {
        let before = of_steps(steps, in_import, (n - 1) as nat);
        match steps[n - 1] {
            StepView::Emit { inst, .. } => spec_merge(
                before,
                of_instruction(inst, in_import, called_before(steps, (n - 1) as nat)),
            ),
            _ => before,
        }
    }
}

impl Requirements {
    /// Nothing is needed.
    pub fn none() -> (r: Requirements)
        ensures
            r == spec_none(),
    {
        Requirements {
            raw_mem: false,
            char_from_i32: false,
            invalid_variant: false,
            validate_flags: false,
            bad_int: false,
            copy_slice: false,
            memory: false,
            borrow_checker: false,
            realloc: false,
            free: false,
        }
    }

    /// What is needed where `self` or `other` is. This folds the needs of
    /// the functions of an interface.
    pub fn merge(self, other: Requirements) -> (r: Requirements)
        ensures
            r == spec_merge(self, other),
    {
        Requirements {
            raw_mem: self.raw_mem || other.raw_mem,
            char_from_i32: self.char_from_i32 || other.char_from_i32,
            invalid_variant: self.invalid_variant || other.invalid_variant,
            validate_flags: self.validate_flags || other.validate_flags,
            bad_int: self.bad_int || other.bad_int,
            copy_slice: self.copy_slice || other.copy_slice,
            memory: self.memory || other.memory,
            borrow_checker: self.borrow_checker || other.borrow_checker,
            realloc: self.realloc || other.realloc,
            free: self.free || other.free,
        }
    }

    /// What one instruction needs.
    pub fn of(inst: Instruction, in_import: bool, after_call: bool) -> (r: Requirements)
        ensures
            r == of_instruction(inst, in_import, after_call),
    {
        let mut r = Requirements::none();
        match inst {
            Instruction::I32Load { .. }
            | Instruction::I32Load8U { .. }
            | Instruction::I32Load8S { .. }
            | Instruction::I32Load16U { .. }
            | Instruction::I32Load16S { .. }
            | Instruction::I64Load { .. }
            | Instruction::F32Load { .. }
            | Instruction::F64Load { .. }
            | Instruction::I32Store { .. }
            | Instruction::I32Store8 { .. }
            | Instruction::I32Store16 { .. }
            | Instruction::I64Store { .. }
            | Instruction::F32Store { .. }
            | Instruction::F64Store { .. } => {
                r.raw_mem = true;
                r.memory = !in_import || after_call;
                r.borrow_checker = in_import && !after_call;
            },
            Instruction::S8FromI32
            | Instruction::U8FromI32
            | Instruction::S16FromI32
            | Instruction::U16FromI32 => {
                r.bad_int = true;
            },
            Instruction::CharFromI32 => {
                r.char_from_i32 = true;
            },
            Instruction::BoolFromI32
            | Instruction::VariantLift { .. }
            | Instruction::UnionLift { .. }
            | Instruction::OptionLift { .. }
            | Instruction::ExpectedLift { .. }
            | Instruction::EnumLift { .. } => {
                r.invalid_variant = true;
            },
            Instruction::FlagsLift { .. } => {
                r.validate_flags = true;
            },
            Instruction::ListCanonLower { realloc, .. } => {
                r.raw_mem = true;
                r.realloc = realloc;
                r.memory = true;
                r.borrow_checker = in_import && !after_call;
            },
            Instruction::StringLower { realloc } => {
                r.raw_mem = true;
                r.realloc = realloc;
                r.memory = true;
                r.borrow_checker = in_import && !after_call;
            },
            Instruction::ListLower { realloc, .. } => {
                r.realloc = realloc;
            },
            Instruction::ListCanonLift { free, .. } => {
                r.memory = free;
                r.copy_slice = free;
                r.free = free;
                r.borrow_checker = !free;
            },
            Instruction::StringLift { free } => {
                r.memory = free;
                r.copy_slice = free;
                r.free = free;
                r.borrow_checker = !free;
            },
            Instruction::ListLift { free, .. } => {
                r.free = free;
            },
            Instruction::Malloc { .. } => {
                r.realloc = true;
            },
            Instruction::Free { .. } => {
                r.free = true;
            },
            _ => {},
        }
        r
    }

    /// What the protocol of one function needs, where `in_import` says
    /// whether the host implements the function.
    pub fn of_protocol(steps: &Vec<Step>, in_import: bool) -> (r: Requirements)
        ensures
            r == of_steps(steps_view(steps@), in_import, steps@.len()),
    {
        let mut r = Requirements::none();
        let mut after_call = false;
        let mut k: usize = 0;
        while k < steps.len()
            invariant
                k <= steps@.len(),
                after_call == called_before(steps_view(steps@), k as nat),
                r == of_steps(steps_view(steps@), in_import, k as nat),
            decreases steps@.len() - k,
        {
            match &steps[k] {
                Step::Emit { inst, .. } => {
                    r = r.merge(Requirements::of(*inst, in_import, after_call));
                    match inst {
                        Instruction::CallWasm { .. } | Instruction::CallInterface { .. } => {
                            after_call = true;
                        },
                        _ => {},
                    }
                },
                _ => {},
            }
            k += 1;
        }
        r
    }
}

} // verus!
