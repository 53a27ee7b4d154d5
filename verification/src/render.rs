//! The renderer of host bindings: what each instruction of a protocol is in
//! Rust source text.

use crate::abi::WasmType;
use crate::instruction::{Bitcast, Instruction};
use crate::layout::SizeAlign;
use crate::names::{flags_type, spec_flags_type, texts, Names};
use crate::options::FunctionRet;
use crate::protocol::{steps_view, Operand, Step, StepView};
use crate::types::{FlagsRepr, Interface, Type, TypeDefKind};
use crate::templates::{
    as_i32, as_i64, bits_as, block_stmts, block_value, bool_lift, bool_lower,
    borrowed_handle_lift, borrowed_handle_lower, cast_as, char_lift, field_bind, flags_let,
    flags_lift, flags_or, flags_word, float_from_bits, handle_as_i32, handle_wrapped, i64_from,
    i64_from_bits, intrinsic_call, item_comma, item_comma_space, let_open, load_stmt, number_i32,
    numbered_part, owned_handle_lift, owned_handle_lower,
    parenthesized, record_close, record_open, spec_as_i32, spec_as_i64, spec_bits_as,
    spec_block_stmts, spec_block_value, spec_bool_lift, spec_bool_lower,
    spec_borrowed_handle_lift, spec_borrowed_handle_lower, spec_cast_as, spec_char_lift,
    spec_field_bind, spec_flags_let, spec_flags_or, spec_flags_word,
    spec_float_from_bits, spec_handle_as_i32, spec_handle_wrapped, spec_i64_from,
    spec_i64_from_bits, spec_intrinsic_call, spec_item_comma, spec_item_comma_space,
    spec_let_open, spec_load_stmt, spec_number_i32, spec_numbered, spec_numbered_part,
    spec_owned_handle_lift, spec_owned_handle_lower, spec_parenthesized, spec_record_close,
    spec_record_open, spec_store_stmt, spec_try_from, spec_tuple_close, spec_tuple_one,
    spec_widened, store_stmt, try_from, tuple_close, tuple_one, widened,
};
use crate::text::{decimal, decimal_of, signed_decimal, signed_decimal_of};
use vstd::prelude::*;
use vstd::string::StringExecFns;

verus! {

/// The state of the rendering of one function.
pub struct Renderer {
    /// Whether the host implements the function.
    pub in_import: bool,
    /// The number that the next temporary variable gets.
    pub tmp: u64,
    /// The statements so far.
    pub src: String,
    /// The statements of the blocks that are still open, the outermost
    /// first.
    pub block_storage: Vec<String>,
    /// The blocks that are closed and not yet put in their place.
    pub blocks: Vec<String>,
    /// Whether the call itself is rendered already.
    pub after_call: bool,
    /// Whether the variable `caller_memory` is defined and up to date.
    pub caller_memory_available: bool,
}

pub struct RendererView {
    pub in_import: bool,
    pub tmp: nat,
    pub src: Seq<char>,
    pub storage: Seq<Seq<char>>,
    pub blocks: Seq<Seq<char>>,
    pub after_call: bool,
    pub available: bool,
}

impl View for Renderer {
    type V = RendererView;

    open spec fn view(&self) -> RendererView {
        RendererView {
            in_import: self.in_import,
            tmp: self.tmp as nat,
            src: self.src@,
            storage: texts(self.block_storage@),
            blocks: texts(self.blocks@),
            after_call: self.after_call,
            available: self.caller_memory_available,
        }
    }
}

/// The text at position `i` of `v`, or nothing where `v` is shorter.
pub open spec fn text_at(v: Seq<Seq<char>>, i: int) -> Seq<char> {
    if 0 <= i < v.len() {
        v[i]
    } else {
        Seq::empty()
    }
}

/// The text at position `i` of `v`, or nothing where `v` is shorter.
pub fn get_text(v: &Vec<String>, i: usize) -> (r: &str)
    ensures
        r@ == text_at(texts(v@), i as int),
{
    if i < v.len() {
        v[i].as_str()
    } else {
        proof {
            reveal_strlit("");
            assert(""@ =~= Seq::<char>::empty());
        }
        ""
    }
}

/// `v` with `text` added to its statements.
pub open spec fn pushed(v: RendererView, text: Seq<char>) -> RendererView {
    RendererView { src: v.src + text, ..v }
}

/// The number after `tmp`.
pub open spec fn bump(tmp: nat) -> nat {
    tmp + 1
}

/// `v` after a temporary variable took its number.
pub open spec fn numbered(v: RendererView) -> RendererView {
    RendererView { tmp: bump(v.tmp), ..v }
}

/// The memory as the code reaches it at this point, and the state after it
/// did so. Where the host implements the function, the memory is borrowed
/// before the call and taken anew after it, once until a call of the guest
/// makes it stale.
pub open spec fn spec_memory_src(v: RendererView) -> (RendererView, Seq<char>) {
    if v.in_import {
        if !v.after_call {
            (v, "_bc"@)
        } else if !v.available {
            (
                RendererView {
                    available: true,
                    ..pushed(
                        v,
                        "let caller_memory = unsafe { _memory.data_unchecked_mut(&store.as_store_ref()) };\n"@,
                    )
                },
                "caller_memory"@,
            )
        } else {
            (v, "caller_memory"@)
        }
    } else {
        (v, "unsafe { _memory.data_unchecked_mut(&store.as_store_ref()) }"@)
    }
}

/// `v` after a call of the guest's function `name` with `args`.
pub open spec fn spec_call_intrinsic(v: RendererView, name: Seq<char>, args: Seq<char>) -> RendererView {
    RendererView { available: false, ..pushed(v, spec_intrinsic_call(name, args)) }
}

/// `v` after a block was opened: the statements so far are put aside.
pub open spec fn spec_push_block(v: RendererView) -> RendererView {
    RendererView { src: Seq::empty(), storage: v.storage.push(v.src), ..v }
}

/// The operands of a block as one expression: the unit for none, the
/// operand for one, a tuple for more.
pub open spec fn block_expr(operands: Seq<Seq<char>>) -> Seq<char> {
    if operands.len() == 0 {
        "()"@
    } else if operands.len() == 1 {
        operands[0]
    } else {
        spec_parenthesized(comma_separated(operands, operands.len()))
    }
}

/// The first `n` of `operands` with a comma and a space between them.
pub open spec fn comma_separated(operands: Seq<Seq<char>>, n: nat) -> Seq<char>
    decreases n,
{
    if n == 0 || n > operands.len() {
        Seq::empty()
    } else if n == 1 {
        operands[0]
    } else {
        comma_separated(operands, (n - 1) as nat) + ", "@ + operands[n - 1]
    }
}

/// A block as text: its value alone where it has no statements, its
/// statements in braces where it has no value, and both in braces else.
pub open spec fn block_text(src: Seq<char>, operands: Seq<Seq<char>>) -> Seq<char> {
    if src.len() == 0 {
        block_expr(operands)
    } else if operands.len() == 0 {
        spec_block_stmts(src)
    } else {
        spec_block_value(src, block_expr(operands))
    }
}

/// `v` after a block was closed: the statements put aside last are back,
/// and the block is kept until the instruction that uses it.
pub open spec fn spec_finish_block(v: RendererView, operands: Seq<Seq<char>>) -> RendererView {
    if v.storage.len() == 0 {
        v
    } else {
        RendererView {
            src: v.storage.last(),
            storage: v.storage.drop_last(),
            blocks: v.blocks.push(block_text(v.src, operands)),
            available: false,
            ..v
        }
    }
}

/// The text of a change of type of `s`.
pub open spec fn spec_bitcast(cast: Bitcast, s: Seq<char>) -> Seq<char> {
    match cast {
        Bitcast::Keep => s,
        Bitcast::I32ToI64 => spec_i64_from(s),
        Bitcast::F32ToI32 => spec_bits_as(s, "i32"@),
        Bitcast::F64ToI64 => spec_bits_as(s, "i64"@),
        Bitcast::I64ToI32 => spec_cast_as(s, "i32"@),
        Bitcast::I32ToF32 => spec_float_from_bits("f32"@, s, "u32"@),
        Bitcast::I64ToF64 => spec_float_from_bits("f64"@, s, "u64"@),
        Bitcast::F32ToI64 => spec_i64_from_bits(s),
        Bitcast::I64ToF32 => spec_float_from_bits("f32"@, s, "u32"@),
    }
}

/// The zero of a core type.
pub open spec fn spec_zero(ty: WasmType) -> Seq<char> {
    match ty {
        WasmType::I32 => "0i32"@,
        WasmType::I64 => "0i64"@,
        WasmType::F32 => "0."@ + "0f32"@,
        WasmType::F64 => "0."@ + "0f64"@,
    }
}

/// The name of a core type.
pub open spec fn spec_wasm_type(ty: WasmType) -> Seq<char> {
    match ty {
        WasmType::I32 => "i32"@,
        WasmType::I64 => "i64"@,
        WasmType::F32 => "f32"@,
        WasmType::F64 => "f64"@,
    }
}

/// The name of a core type.
pub fn wasm_type(ty: WasmType) -> (r: &'static str)
    ensures
        r@ == spec_wasm_type(ty),
{
    match ty {
        WasmType::I32 => "i32",
        WasmType::I64 => "i64",
        WasmType::F32 => "f32",
        WasmType::F64 => "f64",
    }
}

/// The expression that an instruction is, where it is one expression of its
/// one operand and nothing else.
pub open spec fn spec_expression(inst: Instruction, s: Seq<char>) -> Option<Seq<char>> {
    match inst {
        Instruction::I32Const { val } => Some(spec_number_i32(signed_decimal(val as int))),
        Instruction::ConstZero { ty } => Some(spec_zero(ty)),
        Instruction::I64FromU64 => Some(spec_as_i64(s)),
        Instruction::I64FromS64 => Some(spec_as_i64(s)),
        Instruction::I32FromChar => Some(spec_as_i32(s)),
        Instruction::I32FromU8 => Some(spec_as_i32(s)),
        Instruction::I32FromS8 => Some(spec_as_i32(s)),
        Instruction::I32FromU16 => Some(spec_as_i32(s)),
        Instruction::I32FromS16 => Some(spec_as_i32(s)),
        Instruction::I32FromU32 => Some(spec_as_i32(s)),
        Instruction::I32FromS32 => Some(spec_as_i32(s)),
        Instruction::F32FromFloat32 => Some(s),
        Instruction::F64FromFloat64 => Some(s),
        Instruction::Float32FromF32 => Some(s),
        Instruction::Float64FromF64 => Some(s),
        Instruction::S32FromI32 => Some(s),
        Instruction::S64FromI64 => Some(s),
        Instruction::S8FromI32 => Some(spec_try_from("i8"@, s)),
        Instruction::U8FromI32 => Some(spec_try_from("u8"@, s)),
        Instruction::S16FromI32 => Some(spec_try_from("i16"@, s)),
        Instruction::U16FromI32 => Some(spec_try_from("u16"@, s)),
        Instruction::U32FromI32 => Some(spec_cast_as(s, "u32"@)),
        Instruction::U64FromI64 => Some(spec_cast_as(s, "u64"@)),
        Instruction::CharFromI32 => Some(spec_char_lift(s)),
        Instruction::Bitcast { cast } => Some(spec_bitcast(cast, s)),
        Instruction::UnitLift => Some("()"@),
        Instruction::I32FromBool => Some(spec_bool_lower(s)),
        Instruction::BoolFromI32 => Some(spec_bool_lift(s)),
        Instruction::EnumLower { .. } => Some(spec_cast_as(s, "i32"@)),
        Instruction::VariantPayloadName => Some("e"@),
        Instruction::IterBasePointer => Some("base"@),
        _ => None,
    }
}

/// The text of a change of type of `s`.
pub fn bitcast(cast: Bitcast, s: &str) -> (r: String)
    ensures
        r@ == spec_bitcast(cast, s@),
{
    match cast {
        Bitcast::Keep => String::from_str(s),
        Bitcast::I32ToI64 => i64_from(s),
        Bitcast::F32ToI32 => bits_as(s, "i32"),
        Bitcast::F64ToI64 => bits_as(s, "i64"),
        Bitcast::I64ToI32 => cast_as(s, "i32"),
        Bitcast::I32ToF32 => float_from_bits("f32", s, "u32"),
        Bitcast::I64ToF64 => float_from_bits("f64", s, "u64"),
        Bitcast::F32ToI64 => i64_from_bits(s),
        Bitcast::I64ToF32 => float_from_bits("f32", s, "u32"),
    }
}

/// The zero of a core type.
pub fn zero(ty: WasmType) -> (r: String)
    ensures
        r@ == spec_zero(ty),
{
    match ty {
        WasmType::I32 => String::from_str("0i32"),
        WasmType::I64 => String::from_str("0i64"),
        WasmType::F32 => {
            let mut r = String::from_str("0.");
            r.append("0f32");
            r
        },
        WasmType::F64 => {
            let mut r = String::from_str("0.");
            r.append("0f64");
            r
        },
    }
}

/// The expression that an instruction is, where it is one expression of its
/// one operand and nothing else.
pub fn expression(inst: &Instruction, s: &str) -> (r: Option<String>)
    ensures
        match r {
            Some(text) => spec_expression(*inst, s@) == Some(text@),
            None => spec_expression(*inst, s@) is None,
        },
{
    match inst {
        Instruction::I32Const { val } => {
            let digits = signed_decimal_of(*val as i64);
            Some(number_i32(digits.as_str()))
        },
        Instruction::ConstZero { ty } => Some(zero(*ty)),
        Instruction::I64FromU64 | Instruction::I64FromS64 => Some(as_i64(s)),
        Instruction::I32FromChar
        | Instruction::I32FromU8
        | Instruction::I32FromS8
        | Instruction::I32FromU16
        | Instruction::I32FromS16
        | Instruction::I32FromU32
        | Instruction::I32FromS32 => Some(as_i32(s)),
        Instruction::F32FromFloat32
        | Instruction::F64FromFloat64
        | Instruction::Float32FromF32
        | Instruction::Float64FromF64
        | Instruction::S32FromI32
        | Instruction::S64FromI64 => Some(String::from_str(s)),
        Instruction::S8FromI32 => Some(try_from("i8", s)),
        Instruction::U8FromI32 => Some(try_from("u8", s)),
        Instruction::S16FromI32 => Some(try_from("i16", s)),
        Instruction::U16FromI32 => Some(try_from("u16", s)),
        Instruction::U32FromI32 => Some(cast_as(s, "u32")),
        Instruction::U64FromI64 => Some(cast_as(s, "u64")),
        Instruction::CharFromI32 => Some(char_lift(s)),
        Instruction::Bitcast { cast } => Some(bitcast(*cast, s)),
        Instruction::UnitLift => Some(String::from_str("()")),
        Instruction::I32FromBool => Some(bool_lower(s)),
        Instruction::BoolFromI32 => Some(bool_lift(s)),
        Instruction::EnumLower { .. } => Some(cast_as(s, "i32")),
        Instruction::VariantPayloadName => Some(String::from_str("e")),
        Instruction::IterBasePointer => Some(String::from_str("base")),
        _ => None,
    }
}

/// The first `n` of `operands` with a comma and a space between them.
pub fn join_operands(operands: &Vec<String>) -> (r: String)
    ensures
        r@ == comma_separated(texts(operands@), operands@.len()),
{
    let mut out = String::new();
    let mut k: usize = 0;
    assert(out@ =~= comma_separated(texts(operands@), 0));
    while k < operands.len()
        invariant
            k <= operands@.len(),
            out@ == comma_separated(texts(operands@), k as nat),
        decreases operands@.len() - k,
    {
        if k > 0 {
            out.append(", ");
        }
        out.append(operands[k].as_str());
        k += 1;
        assert(out@ =~= comma_separated(texts(operands@), k as nat));
    }
    out
}

/// The operands of a block as one expression.
pub fn block_expression(operands: &Vec<String>) -> (r: String)
    ensures
        r@ == block_expr(texts(operands@)),
{
    if operands.len() == 0 {
        String::from_str("()")
    } else if operands.len() == 1 {
        operands[0].clone()
    } else {
        let joined = join_operands(operands);
        parenthesized(joined.as_str())
    }
}

impl Renderer {
    /// The state at the start of a function.
    pub fn new(in_import: bool) -> (r: Renderer)
        ensures
            r@ == (RendererView {
                in_import,
                tmp: 0,
                src: Seq::empty(),
                storage: Seq::empty(),
                blocks: Seq::empty(),
                after_call: false,
                available: false,
            }),
    {
        let r = Renderer {
            in_import,
            tmp: 0,
            src: String::new(),
            block_storage: Vec::new(),
            blocks: Vec::new(),
            after_call: false,
            caller_memory_available: false,
        };
        assert(r@.storage =~= Seq::empty());
        assert(r@.blocks =~= Seq::empty());
        r
    }

    /// Adds `text` to the statements.
    pub fn push_str(&mut self, text: &str)
        ensures
            final(self)@ == pushed(old(self)@, text@),
    {
        self.src.append(text);
    }

    /// The number of the next temporary variable, in decimal.
    pub fn next_tmp(&mut self) -> (r: String)
        requires
            old(self)@.tmp < u64::MAX,
        ensures
            final(self)@.tmp <= old(self)@.tmp + 1,
            final(self)@ == numbered(old(self)@),
            r@ == decimal(old(self)@.tmp),
    {
        let r = decimal_of(self.tmp);
        self.tmp = self.tmp + 1;
        r
    }

    /// The expression by which the code reaches the memory at this point.
    pub fn memory_src(&mut self) -> (r: String)
        ensures
            (final(self)@, r@) == spec_memory_src(old(self)@),
    {
        if self.in_import {
            if !self.after_call {
                return String::from_str("_bc");
            }
            if !self.caller_memory_available {
                self.caller_memory_available = true;
                self.push_str(
                    "let caller_memory = unsafe { _memory.data_unchecked_mut(&store.as_store_ref()) };\n",
                );
            }
            String::from_str("caller_memory")
        } else {
            String::from_str("unsafe { _memory.data_unchecked_mut(&store.as_store_ref()) }")
        }
    }

    /// Adds a call of the guest's function `name` with `args`.
    pub fn call_intrinsic(&mut self, name: &str, args: &str)
        ensures
            final(self)@ == spec_call_intrinsic(old(self)@, name@, args@),
    {
        let call = intrinsic_call(name, args);
        self.push_str(call.as_str());
        self.caller_memory_available = false;
    }

    /// Opens a block.
    pub fn push_block(&mut self)
        ensures
            final(self)@ == spec_push_block(old(self)@),
    {
        let mut prev = String::new();
        std::mem::swap(&mut prev, &mut self.src);
        self.block_storage.push(prev);
        assert(self@.storage =~= old(self)@.storage.push(old(self)@.src));
        assert(self@.src =~= Seq::empty());
    }

    /// Closes a block whose value is made of `operands`.
    pub fn finish_block(&mut self, operands: &Vec<String>)
        ensures
            final(self)@ == spec_finish_block(old(self)@, texts(operands@)),
    {
        let mut body = match self.block_storage.pop() {
            Some(prev) => prev,
            None => {
                assert(self@.storage =~= old(self)@.storage);
                return ;
            },
        };
        assert(self@.storage =~= old(self)@.storage.drop_last());
        std::mem::swap(&mut body, &mut self.src);
        let expr = block_expression(operands);
        proof {
            reveal_strlit("");
        }
        let text = if body.as_str().unicode_len() == 0 {
            expr
        } else if operands.len() == 0 {
            block_stmts(body.as_str())
        } else {
            block_value(body.as_str(), expr.as_str())
        };
        self.blocks.push(text);
        self.caller_memory_available = false;
        assert(self@.blocks =~= old(self)@.blocks.push(
            block_text(old(self)@.src, texts(operands@)),
        ));
    }
}

/// The Rust type that a load instruction reads, and whether what it reads is
/// widened to an `i32`.
pub open spec fn spec_load_type(inst: Instruction) -> Option<(Seq<char>, bool, i32)> {
    match inst {
        Instruction::I32Load { offset } => Some(("i32"@, false, offset)),
        Instruction::I32Load8U { offset } => Some(("u8"@, true, offset)),
        Instruction::I32Load8S { offset } => Some(("i8"@, true, offset)),
        Instruction::I32Load16U { offset } => Some(("u16"@, true, offset)),
        Instruction::I32Load16S { offset } => Some(("i16"@, true, offset)),
        Instruction::I64Load { offset } => Some(("i64"@, false, offset)),
        Instruction::F32Load { offset } => Some(("f32"@, false, offset)),
        Instruction::F64Load { offset } => Some(("f64"@, false, offset)),
        _ => None,
    }
}

/// The conversion by which a store instruction writes, and the cast after
/// it.
pub open spec fn spec_store_method(inst: Instruction) -> Option<(Seq<char>, Seq<char>, i32)> {
    match inst {
        Instruction::I32Store { offset } => Some(("as_i32"@, ""@, offset)),
        Instruction::I64Store { offset } => Some(("as_i64"@, ""@, offset)),
        Instruction::F32Store { offset } => Some(("as_f32"@, ""@, offset)),
        Instruction::F64Store { offset } => Some(("as_f64"@, ""@, offset)),
        Instruction::I32Store8 { offset } => Some(("as_i32"@, " as u8"@, offset)),
        Instruction::I32Store16 { offset } => Some(("as_i32"@, " as u16"@, offset)),
        _ => None,
    }
}

/// A load of a value of the Rust type `ty` from `offset` from `op`: the
/// state after it, and the value.
pub open spec fn spec_load(v: RendererView, ty: Seq<char>, widen: bool, op: Seq<char>, offset: i32) -> (
    RendererView,
    Seq<char>,
) {
    let mem = spec_memory_src(v);
    let tmp = decimal(mem.0.tmp);
    let name = spec_numbered("load"@, tmp);
    (
        pushed(numbered(mem.0), spec_load_stmt(tmp, mem.1, ty, op, signed_decimal(offset as int))),
        if widen {
            spec_widened(name)
        } else {
            name
        },
    )
}

/// The state after a store of `value` to `offset` from `addr`.
pub open spec fn spec_store(
    v: RendererView,
    method: Seq<char>,
    extra: Seq<char>,
    value: Seq<char>,
    addr: Seq<char>,
    offset: i32,
) -> RendererView {
    let mem = spec_memory_src(v);
    pushed(
        mem.0,
        spec_store_stmt(mem.1, addr, signed_decimal(offset as int), method, value, extra),
    )
}

/// The state after the results of a match were given names, and the names:
/// none for no result, one variable for one, a tuple pattern for more.
pub open spec fn spec_let_results(v: RendererView, amt: nat) -> (RendererView, Seq<Seq<char>>) {
    if amt == 0 {
        (v, Seq::empty())
    } else if amt == 1 {
        (
            pushed(numbered(v), spec_let_open(spec_numbered("result"@, decimal(v.tmp)))),
            seq![spec_numbered("result"@, decimal(v.tmp))],
        )
    } else {
        (
            pushed(numbered(v), "let ("@ + result_pattern(decimal(v.tmp), amt) + ") = "@),
            result_names(decimal(v.tmp), amt),
        )
    }
}

/// The names of the first `n` results of a match with the number `tmp`.
pub open spec fn result_names(tmp: Seq<char>, n: nat) -> Seq<Seq<char>> {
    Seq::new(n, |i: int| spec_numbered_part("result"@, tmp, decimal(i as nat)))
}

/// The names of the first `n` results, each followed by a comma.
pub open spec fn result_pattern(tmp: Seq<char>, n: nat) -> Seq<char>
    decreases n,
{
    if n == 0 {
        Seq::empty()
    } else {
        result_pattern(tmp, (n - 1) as nat) + spec_item_comma(
            spec_numbered_part("result"@, tmp, decimal((n - 1) as nat)),
        )
    }
}

/// The names that the first `n` fields of a record are bound to.
pub open spec fn field_args(fields: Seq<Seq<char>>, tmp: Seq<char>, n: nat) -> Seq<Seq<char>> {
    Seq::new(n, |i: int| spec_numbered(text_at(fields, i), tmp))
}

/// The first `n` fields of a record pattern.
pub open spec fn field_pattern(fields: Seq<Seq<char>>, tmp: Seq<char>, n: nat) -> Seq<char>
    decreases n,
{
    if n == 0 {
        Seq::empty()
    } else {
        field_pattern(fields, tmp, (n - 1) as nat) + spec_field_bind(
            text_at(fields, n - 1),
            spec_numbered(text_at(fields, n - 1), tmp),
        )
    }
}

/// The first `n` fields of a record expression.
pub open spec fn field_values(fields: Seq<Seq<char>>, values: Seq<Seq<char>>, n: nat) -> Seq<char>
    decreases n,
{
    if n == 0 {
        Seq::empty()
    } else {
        field_values(fields, values, (n - 1) as nat) + spec_field_bind(
            text_at(fields, n - 1),
            text_at(values, n - 1),
        )
    }
}

/// The state after a record was taken apart, and the names of its fields.
pub open spec fn spec_record_lower(
    v: RendererView,
    name: Seq<char>,
    fields: Seq<Seq<char>>,
    n: nat,
    operand: Seq<char>,
) -> (RendererView, Seq<Seq<char>>) {
    let tmp = decimal(v.tmp);
    (
        pushed(
            numbered(v),
            spec_record_open(name) + field_pattern(fields, tmp, n) + spec_record_close(operand),
        ),
        field_args(fields, tmp, n),
    )
}

/// A record put together from the values of its fields.
pub open spec fn spec_record_lift(
    name: Seq<char>,
    fields: Seq<Seq<char>>,
    n: nat,
    values: Seq<Seq<char>>,
) -> Seq<char> {
    name + "{"@ + field_values(fields, values, n) + "}"@
}

/// The names that the first `n` parts of a tuple are bound to.
pub open spec fn tuple_args(tmp: Seq<char>, n: nat) -> Seq<Seq<char>> {
    Seq::new(n, |i: int| spec_numbered_part("t"@, tmp, decimal(i as nat)))
}

/// The first `n` parts of a tuple pattern.
pub open spec fn tuple_pattern(tmp: Seq<char>, n: nat) -> Seq<char>
    decreases n,
{
    if n == 0 {
        Seq::empty()
    } else {
        tuple_pattern(tmp, (n - 1) as nat) + spec_item_comma_space(
            spec_numbered_part("t"@, tmp, decimal((n - 1) as nat)),
        )
    }
}

/// The state after a tuple was taken apart, and the names of its parts.
pub open spec fn spec_tuple_lower(v: RendererView, n: nat, operand: Seq<char>) -> (
    RendererView,
    Seq<Seq<char>>,
) {
    let tmp = decimal(v.tmp);
    (
        pushed(numbered(v), "let ("@ + tuple_pattern(tmp, n) + spec_tuple_close(operand)),
        tuple_args(tmp, n),
    )
}

/// A tuple put together from its parts.
pub open spec fn spec_tuple_lift(values: Seq<Seq<char>>) -> Seq<char> {
    if values.len() == 1 {
        spec_tuple_one(values[0])
    } else {
        spec_parenthesized(comma_separated(values, values.len()))
    }
}

/// The 32-bit words of flags, the lowest first.
pub open spec fn flag_words(tmp: Seq<char>, n: nat) -> Seq<Seq<char>> {
    Seq::new(n, |i: int| spec_flags_word(tmp, decimal((i * 32) as nat)))
}

/// The state after flags were lowered, and their words.
pub open spec fn spec_flags_lower(v: RendererView, words: nat, operand: Seq<char>) -> (
    RendererView,
    Seq<Seq<char>>,
) {
    let tmp = decimal(v.tmp);
    (pushed(numbered(v), spec_flags_let(tmp, operand)), flag_words(tmp, words))
}

/// The first `n` words, each put at its place among the bits of flags.
pub open spec fn flag_bits(words: Seq<Seq<char>>, repr: Seq<char>, n: nat) -> Seq<char>
    decreases n,
{
    if n == 0 {
        "0"@
    } else {
        flag_bits(words, repr, (n - 1) as nat) + spec_flags_or(
            text_at(words, n - 1),
            repr,
            decimal(((n - 1) * 32) as nat),
        )
    }
}

/// Flags put together from their words and checked.
pub open spec fn spec_flags_text(name: Seq<char>, repr: Seq<char>, words: Seq<Seq<char>>) -> Seq<
    char,
> {
    crate::templates::spec_flags_lift(flag_bits(words, repr, words.len()), name)
}

impl Renderer {
    /// Adds a load and returns the value.
    pub fn load(&mut self, ty: &str, widen: bool, op: &str, offset: i32) -> (r: String)
        requires
            old(self)@.tmp < u64::MAX,
        ensures
            final(self)@.tmp <= old(self)@.tmp + 1,
            (final(self)@, r@) == spec_load(old(self)@, ty@, widen, op@, offset),
    {
        let mem = self.memory_src();
        let tmp = self.next_tmp();
        let digits = signed_decimal_of(offset as i64);
        let stmt = load_stmt(tmp.as_str(), mem.as_str(), ty, op, digits.as_str());
        self.push_str(stmt.as_str());
        let name = crate::templates::numbered("load", tmp.as_str());
        if widen {
            widened(name.as_str())
        } else {
            name
        }
    }

    /// Adds a store.
    pub fn store(&mut self, method: &str, extra: &str, value: &str, addr: &str, offset: i32)
        ensures
            final(self)@ == spec_store(old(self)@, method@, extra@, value@, addr@, offset),
    {
        let mem = self.memory_src();
        let digits = signed_decimal_of(offset as i64);
        let stmt = store_stmt(mem.as_str(), addr, digits.as_str(), method, value, extra);
        self.push_str(stmt.as_str());
    }

    /// Gives the results of a match names and returns them.
    pub fn let_results(&mut self, amt: usize) -> (r: Vec<String>)
        requires
            old(self)@.tmp < u64::MAX,
        ensures
            final(self)@.tmp <= old(self)@.tmp + 1,
            final(self)@ == spec_let_results(old(self)@, amt as nat).0,
            texts(r@) == spec_let_results(old(self)@, amt as nat).1,
    {
        let mut out: Vec<String> = Vec::new();
        if amt == 0 {
            assert(texts(out@) =~= Seq::empty());
            return out;
        }
        let tmp = self.next_tmp();
        if amt == 1 {
            let res = crate::templates::numbered("result", tmp.as_str());
            let open = let_open(res.as_str());
            self.push_str(open.as_str());
            out.push(res);
            assert(texts(out@) =~= seq![spec_numbered("result"@, tmp@)]);
            return out;
        }
        let mut pattern = String::from_str("let (");
        let mut i: usize = 0;
        assert(pattern@ =~= "let ("@ + result_pattern(tmp@, 0));
        while i < amt
            invariant
                i <= amt,
                out@.len() == i,
                pattern@ == "let ("@ + result_pattern(tmp@, i as nat),
                forall|j: int|
                    0 <= j < i ==> (#[trigger] out@[j])@ == spec_numbered_part(
                        "result"@,
                        tmp@,
                        decimal(j as nat),
                    ),
            decreases amt - i,
        {
            let digits = decimal_of(i as u64);
            let arg = numbered_part("result", tmp.as_str(), digits.as_str());
            let item = item_comma(arg.as_str());
            pattern.append(item.as_str());
            out.push(arg);
            i += 1;
            assert(pattern@ =~= "let ("@ + result_pattern(tmp@, i as nat));
        }
        pattern.append(") = ");
        self.push_str(pattern.as_str());
        assert(texts(out@) =~= result_names(tmp@, amt as nat));
        out
    }

    /// Takes a record apart and returns the names of its fields.
    pub fn record_lower(&mut self, name: &str, fields: &Vec<String>, n: usize, operand: &str) -> (r:
        Vec<String>)
        requires
            old(self)@.tmp < u64::MAX,
        ensures
            final(self)@.tmp <= old(self)@.tmp + 1,
            final(self)@ == spec_record_lower(
                old(self)@,
                name@,
                texts(fields@),
                n as nat,
                operand@,
            ).0,
            texts(r@) == spec_record_lower(
                old(self)@,
                name@,
                texts(fields@),
                n as nat,
                operand@,
            ).1,
    {
        let tmp = self.next_tmp();
        let mut out: Vec<String> = Vec::new();
        let mut stmt = record_open(name);
        let mut i: usize = 0;
        assert(stmt@ =~= spec_record_open(name@) + field_pattern(texts(fields@), tmp@, 0));
        while i < n
            invariant
                i <= n,
                out@.len() == i,
                stmt@ == spec_record_open(name@) + field_pattern(texts(fields@), tmp@, i as nat),
                forall|j: int|
                    0 <= j < i ==> (#[trigger] out@[j])@ == spec_numbered(
                        text_at(texts(fields@), j),
                        tmp@,
                    ),
            decreases n - i,
        {
            let field = get_text(fields, i);
            let arg = crate::templates::numbered(field, tmp.as_str());
            let bind = field_bind(field, arg.as_str());
            stmt.append(bind.as_str());
            out.push(arg);
            i += 1;
            assert(stmt@ =~= spec_record_open(name@) + field_pattern(
                texts(fields@),
                tmp@,
                i as nat,
            ));
        }
        let close = record_close(operand);
        stmt.append(close.as_str());
        self.push_str(stmt.as_str());
        assert(texts(out@) =~= field_args(texts(fields@), tmp@, n as nat));
        out
    }

    /// Takes a tuple apart and returns the names of its parts.
    pub fn tuple_lower(&mut self, n: usize, operand: &str) -> (r: Vec<String>)
        requires
            old(self)@.tmp < u64::MAX,
        ensures
            final(self)@.tmp <= old(self)@.tmp + 1,
            final(self)@ == spec_tuple_lower(old(self)@, n as nat, operand@).0,
            texts(r@) == spec_tuple_lower(old(self)@, n as nat, operand@).1,
    {
        let tmp = self.next_tmp();
        let mut out: Vec<String> = Vec::new();
        let mut stmt = String::from_str("let (");
        let mut i: usize = 0;
        assert(stmt@ =~= "let ("@ + tuple_pattern(tmp@, 0));
        while i < n
            invariant
                i <= n,
                out@.len() == i,
                stmt@ == "let ("@ + tuple_pattern(tmp@, i as nat),
                forall|j: int|
                    0 <= j < i ==> (#[trigger] out@[j])@ == spec_numbered_part(
                        "t"@,
                        tmp@,
                        decimal(j as nat),
                    ),
            decreases n - i,
        {
            let digits = decimal_of(i as u64);
            let arg = numbered_part("t", tmp.as_str(), digits.as_str());
            let item = item_comma_space(arg.as_str());
            stmt.append(item.as_str());
            out.push(arg);
            i += 1;
            assert(stmt@ =~= "let ("@ + tuple_pattern(tmp@, i as nat));
        }
        let close = tuple_close(operand);
        stmt.append(close.as_str());
        self.push_str(stmt.as_str());
        assert(texts(out@) =~= tuple_args(tmp@, n as nat));
        out
    }

    /// Lowers flags of at most four words and returns the words.
    pub fn flags_lower(&mut self, words: usize, operand: &str) -> (r: Vec<String>)
        requires
            old(self)@.tmp < u64::MAX,
            words <= 4,
        ensures
            final(self)@.tmp <= old(self)@.tmp + 1,
            final(self)@ == spec_flags_lower(old(self)@, words as nat, operand@).0,
            texts(r@) == spec_flags_lower(old(self)@, words as nat, operand@).1,
    {
        let tmp = self.next_tmp();
        let stmt = flags_let(tmp.as_str(), operand);
        self.push_str(stmt.as_str());
        let mut out: Vec<String> = Vec::new();
        let mut i: usize = 0;
        while i < words
            invariant
                i <= words <= 4,
                out@.len() == i,
                forall|j: int|
                    0 <= j < i ==> (#[trigger] out@[j])@ == spec_flags_word(
                        tmp@,
                        decimal((j * 32) as nat),
                    ),
            decreases words - i,
        {
            let shift = decimal_of((i * 32) as u64);
            out.push(flags_word(tmp.as_str(), shift.as_str()));
            i += 1;
        }
        assert(texts(out@) =~= flag_words(tmp@, words as nat));
        out
    }
}

/// A record put together from the values of its fields.
pub fn record_lift(name: &str, fields: &Vec<String>, n: usize, values: &Vec<String>) -> (r: String)
    ensures
        r@ == spec_record_lift(name@, texts(fields@), n as nat, texts(values@)),
{
    let mut out = String::from_str(name);
    out.append("{");
    let mut i: usize = 0;
    assert(out@ =~= name@ + "{"@ + field_values(texts(fields@), texts(values@), 0));
    while i < n
        invariant
            i <= n,
            out@ == name@ + "{"@ + field_values(texts(fields@), texts(values@), i as nat),
        decreases n - i,
    {
        let bind = field_bind(get_text(fields, i), get_text(values, i));
        out.append(bind.as_str());
        i += 1;
        assert(out@ =~= name@ + "{"@ + field_values(texts(fields@), texts(values@), i as nat));
    }
    out.append("}");
    out
}

/// A tuple put together from its parts.
pub fn tuple_lift(values: &Vec<String>) -> (r: String)
    ensures
        r@ == spec_tuple_lift(texts(values@)),
{
    if values.len() == 1 {
        tuple_one(values[0].as_str())
    } else {
        let joined = join_operands(values);
        parenthesized(joined.as_str())
    }
}

/// Flags of at most four words put together from their words and checked.
pub fn flags_lift_text(name: &str, repr: &str, words: &Vec<String>) -> (r: String)
    requires
        words@.len() <= 4,
    ensures
        r@ == spec_flags_text(name@, repr@, texts(words@)),
{
    let mut bits = String::from_str("0");
    let mut i: usize = 0;
    while i < words.len()
        invariant
            i <= words@.len() <= 4,
            bits@ == flag_bits(texts(words@), repr@, i as nat),
        decreases words@.len() - i,
    {
        let shift = decimal_of((i * 32) as u64);
        let part = flags_or(get_text(words, i), repr, shift.as_str());
        bits.append(part.as_str());
        i += 1;
    }
    flags_lift(bits.as_str(), name)
}

/// The last `n` of the closed blocks, or all of them where they are fewer,
/// and the state without them.
pub open spec fn spec_take_blocks(v: RendererView, n: nat) -> (RendererView, Seq<Seq<char>>) {
    let keep = if n <= v.blocks.len() {
        (v.blocks.len() - n) as int
    } else {
        0
    };
    (RendererView { blocks: v.blocks.take(keep), ..v }, v.blocks.skip(keep))
}

/// The arms of the match that lowers a variant, for its first `n` cases: a
/// case without payload binds the unit.
pub open spec fn lower_arms_text(
    name: Seq<char>,
    cases: Seq<Seq<char>>,
    units: Seq<bool>,
    blocks: Seq<Seq<char>>,
    n: nat,
) -> Seq<char>
    decreases n,
{
    if n == 0 {
        Seq::empty()
    } else if n - 1 < units.len() && units[n - 1] {
        lower_arms_text(name, cases, units, blocks, (n - 1) as nat)
            + crate::templates::spec_lower_arm_unit(
            name,
            text_at(cases, n - 1),
            text_at(blocks, n - 1),
        )
    } else {
        lower_arms_text(name, cases, units, blocks, (n - 1) as nat)
            + crate::templates::spec_lower_arm_payload(
            name,
            text_at(cases, n - 1),
            text_at(blocks, n - 1),
        )
    }
}

/// The arms of the match that lifts a variant, for its first `n` cases.
pub open spec fn lift_arms_text(
    name: Seq<char>,
    cases: Seq<Seq<char>>,
    units: Seq<bool>,
    blocks: Seq<Seq<char>>,
    n: nat,
) -> Seq<char>
    decreases n,
{
    if n == 0 {
        Seq::empty()
    } else {
        lift_arms_text(name, cases, units, blocks, (n - 1) as nat)
            + crate::templates::spec_lift_arm(
            decimal((n - 1) as nat),
            name,
            text_at(cases, n - 1),
            if n - 1 < units.len() && units[n - 1] {
                Seq::empty()
            } else {
                spec_parenthesized(text_at(blocks, n - 1))
            },
        )
    }
}

/// The arms of the match that lifts an enum, for its first `n` cases.
pub open spec fn enum_arms_text(name: Seq<char>, cases: Seq<Seq<char>>, n: nat) -> Seq<char>
    decreases n,
{
    if n == 0 {
        Seq::empty()
    } else {
        enum_arms_text(name, cases, (n - 1) as nat) + crate::templates::spec_enum_arm(
            decimal((n - 1) as nat),
            name,
            text_at(cases, n - 1),
        )
    }
}

/// The state after a variant was lowered by the blocks of its cases, and the
/// names of the core values.
pub open spec fn spec_variant_lower(
    v: RendererView,
    name: Seq<char>,
    cases: Seq<Seq<char>>,
    units: Seq<bool>,
    ncases: nat,
    nresults: nat,
    op: Seq<char>,
) -> (RendererView, Seq<Seq<char>>) {
    let taken = spec_take_blocks(v, ncases);
    let named = spec_let_results(taken.0, nresults);
    (
        pushed(
            named.0,
            crate::templates::spec_match_open(op) + lower_arms_text(
                name,
                cases,
                units,
                taken.1,
                taken.1.len(),
            ) + "};\n"@,
        ),
        named.1,
    )
}

/// The state after a variant was lifted by the blocks of its cases, and the
/// value.
pub open spec fn spec_variant_lift(
    v: RendererView,
    name: Seq<char>,
    cases: Seq<Seq<char>>,
    units: Seq<bool>,
    ncases: nat,
    op: Seq<char>,
) -> (RendererView, Seq<char>) {
    let taken = spec_take_blocks(v, ncases);
    (
        taken.0,
        crate::templates::spec_match_open(op) + lift_arms_text(
            name,
            cases,
            units,
            taken.1,
            taken.1.len(),
        ) + crate::templates::spec_lift_default(name) + "}"@,
    )
}

/// An enum lifted from its discriminant.
pub open spec fn spec_enum_lift(name: Seq<char>, cases: Seq<Seq<char>>, op: Seq<char>) -> Seq<char> {
    crate::templates::spec_match_open(op) + enum_arms_text(name, cases, cases.len())
        + crate::templates::spec_lift_default(name) + "}"@
}

/// The names of the cases of a union of `n` cases.
pub open spec fn union_cases(n: nat) -> Seq<Seq<char>> {
    Seq::new(n, |k: int| spec_numbered("V"@, decimal(k as nat)))
}

/// The state after an option or an expected was lowered by its two blocks,
/// and the names of the core values.
pub open spec fn spec_pair_lower(v: RendererView, expected: bool, nresults: nat, op: Seq<char>) -> (
    RendererView,
    Seq<Seq<char>>,
) {
    let taken = spec_take_blocks(v, 2);
    let named = spec_let_results(taken.0, nresults);
    (
        pushed(
            named.0,
            if expected {
                crate::templates::spec_expected_lower(
                    op,
                    text_at(taken.1, 0),
                    text_at(taken.1, 1),
                )
            } else {
                crate::templates::spec_option_lower(op, text_at(taken.1, 1), text_at(taken.1, 0))
            },
        ),
        named.1,
    )
}

/// The state after an option or an expected was lifted by its two blocks,
/// and the value.
pub open spec fn spec_pair_lift(v: RendererView, expected: bool, op: Seq<char>) -> (
    RendererView,
    Seq<char>,
) {
    let taken = spec_take_blocks(v, 2);
    (
        taken.0,
        if expected {
            crate::templates::spec_expected_lift(op, text_at(taken.1, 0), text_at(taken.1, 1))
        } else {
            crate::templates::spec_option_lift(op, text_at(taken.1, 1))
        },
    )
}

/// The state after a list was lowered by one copy, and pointer and length.
pub open spec fn spec_list_canon_lower(v: RendererView, size: nat, align: nat, op: Seq<char>) -> (
    RendererView,
    Seq<Seq<char>>,
) {
    let tmp = decimal(v.tmp);
    let val = spec_numbered("vec"@, tmp);
    let ptr = spec_numbered("ptr"@, tmp);
    let bound = pushed(
        pushed(numbered(v), crate::templates::spec_let_stmt(val, op)),
        spec_let_open(ptr),
    );
    let called = spec_call_intrinsic(
        bound,
        "canonical_abi_realloc"@,
        crate::templates::spec_realloc_args_canon(decimal(align), val, decimal(size)),
    );
    let mem = spec_memory_src(called);
    (
        pushed(mem.0, crate::templates::spec_store_many(mem.1, ptr, val)),
        seq![ptr, crate::templates::spec_len_i32(val)],
    )
}

/// The state after a string was lowered, and pointer and length.
pub open spec fn spec_string_lower(v: RendererView, op: Seq<char>) -> (
    RendererView,
    Seq<Seq<char>>,
) {
    let tmp = decimal(v.tmp);
    let val = spec_numbered("vec"@, tmp);
    let ptr = spec_numbered("ptr"@, tmp);
    let bound = pushed(
        pushed(numbered(v), crate::templates::spec_let_stmt(val, op)),
        spec_let_open(ptr),
    );
    let called = spec_call_intrinsic(
        bound,
        "canonical_abi_realloc"@,
        crate::templates::spec_realloc_args_string(val),
    );
    let mem = spec_memory_src(called);
    (
        pushed(mem.0, crate::templates::spec_store_many_bytes(mem.1, ptr, val)),
        seq![ptr, crate::templates::spec_len_i32(val)],
    )
}

/// The state after pointer and length of a list were bound to variables.
pub open spec fn spec_bind_list(v: RendererView, ptr: Seq<char>, len: Seq<char>) -> RendererView {
    let tmp = decimal(v.tmp);
    pushed(
        pushed(numbered(v), crate::templates::spec_let_stmt(spec_numbered("ptr"@, tmp), ptr)),
        crate::templates::spec_let_stmt(spec_numbered("len"@, tmp), len),
    )
}

/// The state after a list was lifted by one copy, and the list. A list
/// that the guest gives away is copied out of its memory, which is then
/// given back; one that it lends is borrowed.
pub open spec fn spec_list_canon_lift(
    v: RendererView,
    free: bool,
    align: nat,
    ptr: Seq<char>,
    len: Seq<char>,
) -> (RendererView, Seq<char>) {
    let tmp = decimal(v.tmp);
    (
        spec_bind_list(v, ptr, len),
        if free {
            crate::templates::spec_copy_slice("canonical_abi_free"@, tmp, decimal(align))
        } else {
            crate::templates::spec_bc_slice(tmp)
        },
    )
}

/// The state after a string was lifted, and the string.
pub open spec fn spec_string_lift(v: RendererView, free: bool, ptr: Seq<char>, len: Seq<char>) -> (
    RendererView,
    Seq<char>,
) {
    let tmp = decimal(v.tmp);
    if free {
        (
            pushed(
                spec_bind_list(v, ptr, len),
                crate::templates::spec_string_copy(tmp, "canonical_abi_free"@),
            ),
            crate::templates::spec_string_from_utf8(tmp),
        )
    } else {
        (spec_bind_list(v, ptr, len), crate::templates::spec_bc_slice_str(tmp))
    }
}

/// The last of the closed blocks, or nothing where there is none, and the
/// state without it.
pub open spec fn spec_pop_block(v: RendererView) -> (RendererView, Seq<char>) {
    let taken = spec_take_blocks(v, 1);
    (taken.0, text_at(taken.1, 0))
}

/// The state after a list was lowered element by element, and pointer and
/// length.
pub open spec fn spec_list_lower(v: RendererView, size: nat, align: nat, op: Seq<char>) -> (
    RendererView,
    Seq<Seq<char>>,
) {
    let body = spec_pop_block(v);
    let tmp = decimal(body.0.tmp);
    let vec = spec_numbered("vec"@, tmp);
    let result = spec_numbered("result"@, tmp);
    let len = spec_numbered("len"@, tmp);
    let bound = pushed(
        pushed(
            pushed(numbered(body.0), crate::templates::spec_let_stmt(vec, op)),
            crate::templates::spec_len_let(len, vec),
        ),
        spec_let_open(result),
    );
    let called = spec_call_intrinsic(
        bound,
        "canonical_abi_realloc"@,
        crate::templates::spec_realloc_args_list(decimal(align), len, decimal(size)),
    );
    (
        pushed(
            pushed(
                pushed(
                    pushed(called, crate::templates::spec_for_each(vec)),
                    crate::templates::spec_base_lower(result, decimal(size)),
                ),
                body.1,
            ),
            "}"@,
        ),
        seq![result, len],
    )
}

/// The state after a list was lifted element by element, and the list.
pub open spec fn spec_list_lift(
    v: RendererView,
    free: bool,
    size: nat,
    align: nat,
    ptr: Seq<char>,
    count: Seq<char>,
) -> (RendererView, Seq<char>) {
    let body = spec_pop_block(v);
    let tmp = decimal(body.0.tmp);
    let len = spec_numbered("len"@, tmp);
    let base = spec_numbered("base"@, tmp);
    let result = spec_numbered("result"@, tmp);
    let looped = pushed(
        pushed(
            pushed(
                pushed(numbered(body.0), crate::templates::spec_let_stmt(len, count)),
                crate::templates::spec_let_stmt(base, ptr),
            ),
            crate::templates::spec_vec_let(result, len),
        ),
        crate::templates::spec_lift_loop(len, base, decimal(size), result, body.1),
    );
    (
        if free {
            spec_call_intrinsic(
                looped,
                "canonical_abi_free"@,
                crate::templates::spec_free_args_list(base, len, decimal(size), decimal(align)),
            )
        } else {
            looped
        },
        result,
    )
}

/// The state after memory was allocated in the guest, and its address.
pub open spec fn spec_malloc(v: RendererView, size: nat, align: nat) -> (RendererView, Seq<char>) {
    let ptr = spec_numbered("ptr"@, decimal(v.tmp));
    (
        spec_call_intrinsic(
            pushed(numbered(v), spec_let_open(ptr)),
            "canonical_abi_realloc"@,
            crate::templates::spec_malloc_args(decimal(align), decimal(size)),
        ),
        ptr,
    )
}

impl Renderer {
    /// Takes the last `n` of the closed blocks.
    pub fn take_blocks(&mut self, n: usize) -> (r: Vec<String>)
        ensures
            final(self)@ == spec_take_blocks(old(self)@, n as nat).0,
            texts(r@) == spec_take_blocks(old(self)@, n as nat).1,
    {
        let have = self.blocks.len();
        let keep = if n <= have {
            have - n
        } else {
            0
        };
        let taken = self.blocks.split_off(keep);
        assert(texts(self.blocks@) =~= old(self)@.blocks.take(keep as int));
        assert(texts(taken@) =~= old(self)@.blocks.skip(keep as int));
        taken
    }

    /// Takes the last of the closed blocks.
    pub fn pop_block(&mut self) -> (r: String)
        ensures
            (final(self)@, r@) == spec_pop_block(old(self)@),
    {
        let mut taken = self.take_blocks(1);
        let ghost before = texts(taken@);
        match taken.pop() {
            Some(text) => {
                assert(before.len() == 1);
                assert(text@ == text_at(before, 0));
                text
            },
            None => {
                proof {
                    reveal_strlit("");
                    assert(""@ =~= Seq::<char>::empty());
                }
                String::from_str("")
            },
        }
    }

    /// Lowers a variant by the blocks of its cases.
    pub fn variant_lower(
        &mut self,
        name: &str,
        cases: &Vec<String>,
        units: &Vec<bool>,
        ncases: usize,
        nresults: usize,
        op: &str,
    ) -> (r: Vec<String>)
        requires
            old(self)@.tmp < u64::MAX,
        ensures
            final(self)@.tmp <= old(self)@.tmp + 1,
            final(self)@ == spec_variant_lower(
                old(self)@,
                name@,
                texts(cases@),
                units@,
                ncases as nat,
                nresults as nat,
                op@,
            ).0,
            texts(r@) == spec_variant_lower(
                old(self)@,
                name@,
                texts(cases@),
                units@,
                ncases as nat,
                nresults as nat,
                op@,
            ).1,
    {
        let blocks = self.take_blocks(ncases);
        let results = self.let_results(nresults);
        let mut text = crate::templates::match_open(op);
        let mut k: usize = 0;
        assert(text@ =~= crate::templates::spec_match_open(op@) + lower_arms_text(
            name@,
            texts(cases@),
            units@,
            texts(blocks@),
            0,
        ));
        while k < blocks.len()
            invariant
                k <= blocks@.len(),
                text@ == crate::templates::spec_match_open(op@) + lower_arms_text(
                    name@,
                    texts(cases@),
                    units@,
                    texts(blocks@),
                    k as nat,
                ),
            decreases blocks@.len() - k,
        {
            let arm = if k < units.len() && units[k] {
                crate::templates::lower_arm_unit(name, get_text(cases, k), get_text(&blocks, k))
            } else {
                crate::templates::lower_arm_payload(name, get_text(cases, k), get_text(&blocks, k))
            };
            text.append(arm.as_str());
            k += 1;
            assert(text@ =~= crate::templates::spec_match_open(op@) + lower_arms_text(
                name@,
                texts(cases@),
                units@,
                texts(blocks@),
                k as nat,
            ));
        }
        text.append("};\n");
        self.push_str(text.as_str());
        results
    }

    /// Lifts a variant by the blocks of its cases.
    pub fn variant_lift(
        &mut self,
        name: &str,
        cases: &Vec<String>,
        units: &Vec<bool>,
        ncases: usize,
        op: &str,
    ) -> (r: String)
        requires
            old(self)@.tmp < u64::MAX,
        ensures
            final(self)@.tmp <= old(self)@.tmp + 1,
            (final(self)@, r@) == spec_variant_lift(
                old(self)@,
                name@,
                texts(cases@),
                units@,
                ncases as nat,
                op@,
            ),
    {
        let blocks = self.take_blocks(ncases);
        let mut text = crate::templates::match_open(op);
        let mut k: usize = 0;
        assert(text@ =~= crate::templates::spec_match_open(op@) + lift_arms_text(
            name@,
            texts(cases@),
            units@,
            texts(blocks@),
            0,
        ));
        while k < blocks.len()
            invariant
                k <= blocks@.len(),
                text@ == crate::templates::spec_match_open(op@) + lift_arms_text(
                    name@,
                    texts(cases@),
                    units@,
                    texts(blocks@),
                    k as nat,
                ),
            decreases blocks@.len() - k,
        {
            let payload = if k < units.len() && units[k] {
                proof {
                    reveal_strlit("");
                    assert(""@ =~= Seq::<char>::empty());
                }
                String::from_str("")
            } else {
                parenthesized(get_text(&blocks, k))
            };
            let digits = decimal_of(k as u64);
            let arm = crate::templates::lift_arm(
                digits.as_str(),
                name,
                get_text(cases, k),
                payload.as_str(),
            );
            text.append(arm.as_str());
            k += 1;
            assert(text@ =~= crate::templates::spec_match_open(op@) + lift_arms_text(
                name@,
                texts(cases@),
                units@,
                texts(blocks@),
                k as nat,
            ));
        }
        let default = crate::templates::lift_default(name);
        text.append(default.as_str());
        text.append("}");
        text
    }

    /// Lowers an option, or an expected, by its two blocks.
    pub fn pair_lower(&mut self, expected: bool, nresults: usize, op: &str) -> (r: Vec<String>)
        requires
            old(self)@.tmp < u64::MAX,
        ensures
            final(self)@.tmp <= old(self)@.tmp + 1,
            final(self)@ == spec_pair_lower(old(self)@, expected, nresults as nat, op@).0,
            texts(r@) == spec_pair_lower(old(self)@, expected, nresults as nat, op@).1,
    {
        let blocks = self.take_blocks(2);
        let results = self.let_results(nresults);
        let text = if expected {
            crate::templates::expected_lower(op, get_text(&blocks, 0), get_text(&blocks, 1))
        } else {
            crate::templates::option_lower(op, get_text(&blocks, 1), get_text(&blocks, 0))
        };
        self.push_str(text.as_str());
        results
    }

    /// Lifts an option, or an expected, by its two blocks.
    pub fn pair_lift(&mut self, expected: bool, op: &str) -> (r: String)
        requires
            old(self)@.tmp < u64::MAX,
        ensures
            final(self)@.tmp <= old(self)@.tmp + 1,
            (final(self)@, r@) == spec_pair_lift(old(self)@, expected, op@),
    {
        let blocks = self.take_blocks(2);
        if expected {
            crate::templates::expected_lift(op, get_text(&blocks, 0), get_text(&blocks, 1))
        } else {
            crate::templates::option_lift(op, get_text(&blocks, 1))
        }
    }

    /// Lowers a list by one copy.
    pub fn list_canon_lower(&mut self, size: usize, align: usize, op: &str) -> (r: Vec<String>)
        requires
            old(self)@.tmp < u64::MAX,
        ensures
            final(self)@.tmp <= old(self)@.tmp + 1,
            final(self)@ == spec_list_canon_lower(old(self)@, size as nat, align as nat, op@).0,
            texts(r@) == spec_list_canon_lower(old(self)@, size as nat, align as nat, op@).1,
    {
        let tmp = self.next_tmp();
        let val = crate::templates::numbered("vec", tmp.as_str());
        let ptr = crate::templates::numbered("ptr", tmp.as_str());
        let bind = crate::templates::let_stmt(val.as_str(), op);
        self.push_str(bind.as_str());
        let open = let_open(ptr.as_str());
        self.push_str(open.as_str());
        let aligned = decimal_of(align as u64);
        let sized = decimal_of(size as u64);
        let args = crate::templates::realloc_args_canon(
            aligned.as_str(),
            val.as_str(),
            sized.as_str(),
        );
        self.call_intrinsic("canonical_abi_realloc", args.as_str());
        let mem = self.memory_src();
        let copy = crate::templates::store_many(mem.as_str(), ptr.as_str(), val.as_str());
        self.push_str(copy.as_str());
        let len = crate::templates::len_i32(val.as_str());
        let mut out: Vec<String> = Vec::new();
        out.push(ptr);
        out.push(len);
        assert(texts(out@) =~= seq![ptr@, len@]);
        out
    }

    /// Lowers a string.
    pub fn string_lower(&mut self, op: &str) -> (r: Vec<String>)
        requires
            old(self)@.tmp < u64::MAX,
        ensures
            final(self)@.tmp <= old(self)@.tmp + 1,
            final(self)@ == spec_string_lower(old(self)@, op@).0,
            texts(r@) == spec_string_lower(old(self)@, op@).1,
    {
        let tmp = self.next_tmp();
        let val = crate::templates::numbered("vec", tmp.as_str());
        let ptr = crate::templates::numbered("ptr", tmp.as_str());
        let bind = crate::templates::let_stmt(val.as_str(), op);
        self.push_str(bind.as_str());
        let open = let_open(ptr.as_str());
        self.push_str(open.as_str());
        let args = crate::templates::realloc_args_string(val.as_str());
        self.call_intrinsic("canonical_abi_realloc", args.as_str());
        let mem = self.memory_src();
        let copy = crate::templates::store_many_bytes(mem.as_str(), ptr.as_str(), val.as_str());
        self.push_str(copy.as_str());
        let len = crate::templates::len_i32(val.as_str());
        let mut out: Vec<String> = Vec::new();
        out.push(ptr);
        out.push(len);
        assert(texts(out@) =~= seq![ptr@, len@]);
        out
    }

    /// Binds pointer and length of a list to variables and returns their
    /// number.
    fn bind_list(&mut self, ptr: &str, len: &str) -> (r: String)
        requires
            old(self)@.tmp < u64::MAX,
        ensures
            final(self)@.tmp <= old(self)@.tmp + 1,
            final(self)@ == spec_bind_list(old(self)@, ptr@, len@),
            r@ == decimal(old(self)@.tmp),
    {
        let tmp = self.next_tmp();
        let name = crate::templates::numbered("ptr", tmp.as_str());
        let bind = crate::templates::let_stmt(name.as_str(), ptr);
        self.push_str(bind.as_str());
        let name = crate::templates::numbered("len", tmp.as_str());
        let bind = crate::templates::let_stmt(name.as_str(), len);
        self.push_str(bind.as_str());
        tmp
    }

    /// Lifts a list by one copy.
    pub fn list_canon_lift(&mut self, free: bool, align: usize, ptr: &str, len: &str) -> (r: String)
        requires
            old(self)@.tmp < u64::MAX,
        ensures
            final(self)@.tmp <= old(self)@.tmp + 1,
            (final(self)@, r@) == spec_list_canon_lift(old(self)@, free, align as nat, ptr@, len@),
    {
        let tmp = self.bind_list(ptr, len);
        if free {
            let aligned = decimal_of(align as u64);
            crate::templates::copy_slice("canonical_abi_free", tmp.as_str(), aligned.as_str())
        } else {
            crate::templates::bc_slice(tmp.as_str())
        }
    }

    /// Lifts a string.
    pub fn string_lift(&mut self, free: bool, ptr: &str, len: &str) -> (r: String)
        requires
            old(self)@.tmp < u64::MAX,
        ensures
            final(self)@.tmp <= old(self)@.tmp + 1,
            (final(self)@, r@) == spec_string_lift(old(self)@, free, ptr@, len@),
    {
        let tmp = self.bind_list(ptr, len);
        if free {
            let copy = crate::templates::string_copy(tmp.as_str(), "canonical_abi_free");
            self.push_str(copy.as_str());
            crate::templates::string_from_utf8(tmp.as_str())
        } else {
            crate::templates::bc_slice_str(tmp.as_str())
        }
    }

    /// Lowers a list element by element, by the block closed last.
    pub fn list_lower(&mut self, size: usize, align: usize, op: &str) -> (r: Vec<String>)
        requires
            old(self)@.tmp < u64::MAX,
        ensures
            final(self)@.tmp <= old(self)@.tmp + 1,
            final(self)@ == spec_list_lower(old(self)@, size as nat, align as nat, op@).0,
            texts(r@) == spec_list_lower(old(self)@, size as nat, align as nat, op@).1,
    {
        let body = self.pop_block();
        let tmp = self.next_tmp();
        let vec = crate::templates::numbered("vec", tmp.as_str());
        let result = crate::templates::numbered("result", tmp.as_str());
        let len = crate::templates::numbered("len", tmp.as_str());
        let text = crate::templates::let_stmt(vec.as_str(), op);
        self.push_str(text.as_str());
        let text = crate::templates::len_let(len.as_str(), vec.as_str());
        self.push_str(text.as_str());
        let text = let_open(result.as_str());
        self.push_str(text.as_str());
        let aligned = decimal_of(align as u64);
        let sized = decimal_of(size as u64);
        let args = crate::templates::realloc_args_list(
            aligned.as_str(),
            len.as_str(),
            sized.as_str(),
        );
        self.call_intrinsic("canonical_abi_realloc", args.as_str());
        let text = crate::templates::for_each(vec.as_str());
        self.push_str(text.as_str());
        let text = crate::templates::base_lower(result.as_str(), sized.as_str());
        self.push_str(text.as_str());
        self.push_str(body.as_str());
        self.push_str("}");
        let mut out: Vec<String> = Vec::new();
        out.push(result);
        out.push(len);
        assert(texts(out@) =~= seq![result@, len@]);
        out
    }

    /// Lifts a list element by element, by the block closed last.
    pub fn list_lift(&mut self, free: bool, size: usize, align: usize, ptr: &str, count: &str) -> (r:
        String)
        requires
            old(self)@.tmp < u64::MAX,
        ensures
            final(self)@.tmp <= old(self)@.tmp + 1,
            (final(self)@, r@) == spec_list_lift(
                old(self)@,
                free,
                size as nat,
                align as nat,
                ptr@,
                count@,
            ),
    {
        let body = self.pop_block();
        let tmp = self.next_tmp();
        let len = crate::templates::numbered("len", tmp.as_str());
        let base = crate::templates::numbered("base", tmp.as_str());
        let result = crate::templates::numbered("result", tmp.as_str());
        let text = crate::templates::let_stmt(len.as_str(), count);
        self.push_str(text.as_str());
        let text = crate::templates::let_stmt(base.as_str(), ptr);
        self.push_str(text.as_str());
        let text = crate::templates::vec_let(result.as_str(), len.as_str());
        self.push_str(text.as_str());
        let sized = decimal_of(size as u64);
        let text = crate::templates::lift_loop(
            len.as_str(),
            base.as_str(),
            sized.as_str(),
            result.as_str(),
            body.as_str(),
        );
        self.push_str(text.as_str());
        if free {
            let aligned = decimal_of(align as u64);
            let args = crate::templates::free_args_list(
                base.as_str(),
                len.as_str(),
                sized.as_str(),
                aligned.as_str(),
            );
            self.call_intrinsic("canonical_abi_free", args.as_str());
        }
        result
    }

    /// Allocates memory in the guest.
    pub fn malloc(&mut self, size: usize, align: usize) -> (r: String)
        requires
            old(self)@.tmp < u64::MAX,
        ensures
            final(self)@.tmp <= old(self)@.tmp + 1,
            (final(self)@, r@) == spec_malloc(old(self)@, size as nat, align as nat),
    {
        let tmp = self.next_tmp();
        let ptr = crate::templates::numbered("ptr", tmp.as_str());
        let open = let_open(ptr.as_str());
        self.push_str(open.as_str());
        let aligned = decimal_of(align as u64);
        let sized = decimal_of(size as u64);
        let args = crate::templates::malloc_args(aligned.as_str(), sized.as_str());
        self.call_intrinsic("canonical_abi_realloc", args.as_str());
        ptr
    }
}

/// An enum lifted from its discriminant.
pub fn enum_lift(name: &str, cases: &Vec<String>, op: &str) -> (r: String)
    ensures
        r@ == spec_enum_lift(name@, texts(cases@), op@),
{
    let mut text = crate::templates::match_open(op);
    let mut k: usize = 0;
    assert(text@ =~= crate::templates::spec_match_open(op@) + enum_arms_text(
        name@,
        texts(cases@),
        0,
    ));
    while k < cases.len()
        invariant
            k <= cases@.len(),
            text@ == crate::templates::spec_match_open(op@) + enum_arms_text(
                name@,
                texts(cases@),
                k as nat,
            ),
        decreases cases@.len() - k,
    {
        let digits = decimal_of(k as u64);
        let arm = crate::templates::enum_arm(digits.as_str(), name, get_text(cases, k));
        text.append(arm.as_str());
        k += 1;
        assert(text@ =~= crate::templates::spec_match_open(op@) + enum_arms_text(
            name@,
            texts(cases@),
            k as nat,
        ));
    }
    let default = crate::templates::lift_default(name);
    text.append(default.as_str());
    text.append("}");
    text
}

/// The names of the cases of a union of `n` cases.
pub fn union_case_names(n: usize) -> (r: Vec<String>)
    ensures
        texts(r@) == union_cases(n as nat),
{
    let mut out: Vec<String> = Vec::new();
    let mut k: usize = 0;
    while k < n
        invariant
            k <= n,
            out@.len() == k,
            forall|j: int|
                0 <= j < k ==> (#[trigger] out@[j])@ == spec_numbered("V"@, decimal(j as nat)),
        decreases n - k,
    {
        let digits = decimal_of(k as u64);
        out.push(crate::templates::numbered("V", digits.as_str()));
        k += 1;
    }
    assert(texts(out@) =~= union_cases(n as nat));
    out
}

/// What the rendering of a call needs to know of the function.
#[derive(Debug)]
pub struct CallInfo {
    /// Whether the function is asynchronous.
    pub is_async: bool,
    /// Whether the call is traced.
    pub tracing: bool,
    /// Whether the interface has handles, whose tables are let go after the
    /// call.
    pub has_handles: bool,
    /// Where a failure of the host goes.
    pub ret: FunctionRet,
    /// Whether the function returns nothing.
    pub result_is_unit: bool,
    /// The parameters, as identifiers.
    pub params: Vec<String>,
}

/// What a function is rendered with.
pub struct Context<'a> {
    pub names: &'a Names,
    pub iface: &'a Interface,
    pub sizes: &'a SizeAlign,
    /// The expressions for the arguments of the function.
    pub args: &'a Vec<String>,
    pub call: &'a CallInfo,
}

/// A protocol has an instruction that the host bindings have no code for.
#[derive(Clone, Copy, Debug, PartialEq, Eq, Structural)]
pub enum RenderError {
    Unsupported,
}

/// The first `n` operands, each followed by a comma and a space.
pub open spec fn call_args(operands: Seq<Seq<char>>, n: nat) -> Seq<char>
    decreases n,
{
    if n == 0 {
        Seq::empty()
    } else {
        call_args(operands, (n - 1) as nat) + crate::templates::spec_call_arg(
            text_at(operands, n - 1),
        )
    }
}

/// The call of a function of the guest.
pub open spec fn call_wasm_text(name: Seq<char>, is_async: bool, operands: Seq<Seq<char>>) -> Seq<
    char,
> {
    crate::templates::spec_call_wasm_open(
        name,
        if is_async {
            ".call_async(store, "@
        } else {
            ".call(store, "@
        },
    ) + call_args(operands, operands.len()) + ")"@ + (if is_async {
        ".await"@
    } else {
        Seq::empty()
    }) + "?;\n"@
}

/// The state after the function of the guest was called, and the names of
/// what it returned.
pub open spec fn spec_call_wasm(
    v: RendererView,
    name: Seq<char>,
    is_async: bool,
    nresults: nat,
    operands: Seq<Seq<char>>,
) -> (RendererView, Seq<Seq<char>>) {
    let named = spec_let_results(v, nresults);
    (
        RendererView {
            after_call: true,
            available: false,
            ..pushed(named.0, call_wasm_text(name, is_async, operands))
        },
        named.1,
    )
}

/// The first `n` operands, each bound to a parameter.
pub open spec fn param_lets(operands: Seq<Seq<char>>, n: nat) -> Seq<char>
    decreases n,
{
    if n == 0 {
        Seq::empty()
    } else {
        param_lets(operands, (n - 1) as nat) + crate::templates::spec_param_let(
            decimal((n - 1) as nat),
            text_at(operands, n - 1),
        )
    }
}

/// The first `n` parameters as arguments of the host's method.
pub open spec fn param_args(n: nat) -> Seq<char>
    decreases n,
{
    if n == 0 {
        Seq::empty()
    } else {
        param_args((n - 1) as nat) + crate::templates::spec_param_arg(decimal((n - 1) as nat))
    }
}

/// The first `n` parameters as fields of a trace event.
pub open spec fn trace_fields(params: Seq<Seq<char>>, n: nat) -> Seq<char>
    decreases n,
{
    if n == 0 {
        Seq::empty()
    } else {
        trace_fields(params, (n - 1) as nat) + crate::templates::spec_trace_field(
            text_at(params, n - 1),
            decimal((n - 1) as nat),
        )
    }
}

/// The start of a trace event.
pub open spec fn trace_open() -> Seq<char> {
    "wit_bindgen_wasmer::tracing::event!(\n"@ + "wit_bindgen_wasmer::tracing::Level::TRACE,\n"@
}

/// The call of the host's method, with what it returns turned into what
/// the guest gets.
pub open spec fn host_call(call: CallInfo, method: Seq<char>, n: nat) -> Seq<char> {
    let plain = crate::templates::spec_host_call_open(method) + param_args(n) + ")"@ + (
    if call.is_async {
        ".await"@
    } else {
        Seq::empty()
    });
    match call.ret {
        FunctionRet::Normal => plain,
        FunctionRet::CustomToTrap => crate::templates::spec_to_trap(plain),
        FunctionRet::CustomToError { err, .. } => crate::templates::spec_to_error(plain, err@),
    }
}

/// The statements of the call of a function of the host.
pub open spec fn call_interface_text(call: CallInfo, method: Seq<char>, operands: Seq<Seq<char>>) -> Seq<
    char,
> {
    param_lets(operands, operands.len()) + (if call.tracing && call.params@.len() > 0 {
        trace_open() + trace_fields(texts(call.params@), call.params@.len()) + ");\n"@
    } else {
        Seq::empty()
    }) + "let host = &mut data_mut.data;\n"@ + "let result = "@ + host_call(
        call,
        method,
        operands.len(),
    ) + ";\n"@ + (if call.has_handles {
        "drop(tables);\n"@
    } else {
        Seq::empty()
    }) + (if call.tracing && !call.result_is_unit {
        trace_open() + crate::templates::spec_trace_result("result"@) + ");\n"@
    } else {
        Seq::empty()
    })
}

/// What a function returns: the unit for no operand, the operand for one, a
/// tuple for more.
pub open spec fn return_text(amt: nat, operands: Seq<Seq<char>>) -> Seq<char> {
    if amt == 0 {
        "Ok(())\n"@
    } else if amt == 1 {
        crate::templates::spec_return_one(text_at(operands, 0))
    } else {
        crate::templates::spec_return_many(comma_separated(operands, operands.len()))
    }
}

/// Which cases of a definition have no payload.
pub open spec fn case_units(kind: TypeDefKind) -> Seq<bool> {
    match kind {
        TypeDefKind::Variant(v) => Seq::new(v.cases@.len(), |k: int| v.cases@[k].ty == Type::Unit),
        _ => Seq::empty(),
    }
}

/// Which cases of the definition at `ty` have no payload.
pub open spec fn units_of(iface: Interface, ty: int) -> Seq<bool> {
    if 0 <= ty < iface.types@.len() {
        case_units(iface.types@[ty].kind)
    } else {
        Seq::empty()
    }
}

/// The Rust integer type that holds the flags of the definition at `ty`,
/// which has `words` words.
pub open spec fn flags_repr_of(iface: Interface, ty: int, words: nat) -> Seq<char> {
    if 0 <= ty < iface.types@.len() && iface.types@[ty].kind is Flags {
        spec_flags_type(iface.types@[ty].kind->Flags_0.spec_repr())
    } else {
        spec_flags_type(FlagsRepr::U32(words as usize))
    }
}

/// The names of the members of the definition at `ty`.
pub open spec fn members_of(names: Names, ty: int) -> Seq<Seq<char>> {
    if 0 <= ty < names.members@.len() {
        texts(names.members@[ty]@)
    } else {
        Seq::empty()
    }
}

/// What `inst` is in the generated code: the state after it, and its
/// results. Nothing where the host bindings have no code for it.
pub open spec fn spec_emit(v: RendererView, cx: Context, inst: Instruction, ops: Seq<Seq<char>>) -> Option<
    (RendererView, Seq<Seq<char>>),
> {
    let op0 = text_at(ops, 0);
    let op1 = text_at(ops, 1);
    let type_names = texts(cx.names.types@);
    if spec_expression(inst, op0) is Some {
        Some((v, seq![spec_expression(inst, op0)->0]))
    } else if spec_load_type(inst) is Some {
        let load = spec_load_type(inst)->0;
        Some((spec_load(v, load.0, load.1, op0, load.2).0, seq![
            spec_load(v, load.0, load.1, op0, load.2).1,
        ]))
    } else if spec_store_method(inst) is Some {
        let store = spec_store_method(inst)->0;
        Some((spec_store(v, store.0, store.1, op0, op1, store.2), Seq::empty()))
    } else {
        match inst {
            Instruction::GetArg { nth } => Some((v, seq![text_at(texts(cx.args@), nth as int)])),
            Instruction::UnitLower => Some(
                (pushed(v, crate::templates::spec_unit_lower(op0)), Seq::empty()),
            ),
            Instruction::IterElem { .. } => Some((RendererView { available: false, ..v }, seq!["e"@])),
            Instruction::I32FromOwnedHandle { ty } => Some(
                (v, seq![
                    spec_owned_handle_lower(text_at(texts(cx.names.resource_tables@), ty as int), op0),
                ]),
            ),
            Instruction::HandleBorrowedFromI32 { ty } => Some(
                (v, seq![
                    spec_borrowed_handle_lift(
                        text_at(texts(cx.names.resource_tables@), ty as int),
                        op0,
                    ),
                ]),
            ),
            Instruction::I32FromBorrowedHandle { ty } => Some(
                (
                    pushed(
                        numbered(v),
                        spec_borrowed_handle_lower(decimal(v.tmp), op0, decimal(ty as nat)),
                    ),
                    seq![spec_handle_as_i32(decimal(v.tmp))],
                ),
            ),
            Instruction::HandleOwnedFromI32 { ty } => Some(
                (
                    pushed(
                        numbered(v),
                        spec_owned_handle_lift(decimal(v.tmp), decimal(ty as nat), op0),
                    ),
                    seq![
                        spec_handle_wrapped(
                            text_at(texts(cx.names.resource_types@), ty as int),
                            decimal(v.tmp),
                        ),
                    ],
                ),
            ),
            Instruction::RecordLower { ty, fields } => Some(
                spec_record_lower(
                    v,
                    text_at(type_names, ty as int),
                    members_of(*cx.names, ty as int),
                    fields as nat,
                    op0,
                ),
            ),
            Instruction::RecordLift { ty, fields } => Some(
                (v, seq![
                    spec_record_lift(
                        text_at(type_names, ty as int),
                        members_of(*cx.names, ty as int),
                        fields as nat,
                        ops,
                    ),
                ]),
            ),
            Instruction::TupleLower { fields, .. } => Some(spec_tuple_lower(v, fields as nat, op0)),
            Instruction::TupleLift { .. } => Some((v, seq![spec_tuple_lift(ops)])),
            Instruction::FlagsLower { words, .. } => if words <= 4 {
                Some(spec_flags_lower(v, words as nat, op0))
            } else {
                None
            },
            Instruction::FlagsLift { ty, words } => if ops.len() <= 4 {
                Some(
                    (v, seq![
                        spec_flags_text(
                            text_at(type_names, ty as int),
                            flags_repr_of(*cx.iface, ty as int, words as nat),
                            ops,
                        ),
                    ]),
                )
            } else {
                None
            },
            Instruction::VariantLower { ty, cases, results } => Some(
                spec_variant_lower(
                    v,
                    text_at(type_names, ty as int),
                    members_of(*cx.names, ty as int),
                    units_of(*cx.iface, ty as int),
                    cases as nat,
                    results as nat,
                    op0,
                ),
            ),
            Instruction::VariantLift { ty, cases } => Some(
                (
                    spec_variant_lift(
                        v,
                        text_at(type_names, ty as int),
                        members_of(*cx.names, ty as int),
                        units_of(*cx.iface, ty as int),
                        cases as nat,
                        op0,
                    ).0,
                    seq![
                        spec_variant_lift(
                            v,
                            text_at(type_names, ty as int),
                            members_of(*cx.names, ty as int),
                            units_of(*cx.iface, ty as int),
                            cases as nat,
                            op0,
                        ).1,
                    ],
                ),
            ),
            Instruction::UnionLower { ty, cases, results } => Some(
                spec_variant_lower(
                    v,
                    text_at(type_names, ty as int),
                    union_cases(cases as nat),
                    Seq::empty(),
                    cases as nat,
                    results as nat,
                    op0,
                ),
            ),
            Instruction::UnionLift { ty, cases } => Some(
                (
                    spec_variant_lift(
                        v,
                        text_at(type_names, ty as int),
                        union_cases(cases as nat),
                        Seq::empty(),
                        cases as nat,
                        op0,
                    ).0,
                    seq![
                        spec_variant_lift(
                            v,
                            text_at(type_names, ty as int),
                            union_cases(cases as nat),
                            Seq::empty(),
                            cases as nat,
                            op0,
                        ).1,
                    ],
                ),
            ),
            Instruction::OptionLower { results, .. } => Some(
                spec_pair_lower(v, false, results as nat, op0),
            ),
            Instruction::OptionLift { .. } => Some(
                (spec_pair_lift(v, false, op0).0, seq![spec_pair_lift(v, false, op0).1]),
            ),
            Instruction::ExpectedLower { results, .. } => Some(
                spec_pair_lower(v, true, results as nat, op0),
            ),
            Instruction::ExpectedLift { .. } => Some(
                (spec_pair_lift(v, true, op0).0, seq![spec_pair_lift(v, true, op0).1]),
            ),
            Instruction::EnumLift { ty } => Some(
                (v, seq![
                    spec_enum_lift(text_at(type_names, ty as int), members_of(*cx.names, ty as int), op0),
                ]),
            ),
            Instruction::ListCanonLower { element, realloc } => if realloc {
                Some(
                    spec_list_canon_lower(
                        v,
                        cx.sizes.spec_size(element),
                        cx.sizes.spec_align(element),
                        op0,
                    ),
                )
            } else {
                None
            },
            Instruction::StringLower { realloc } => if realloc {
                Some(spec_string_lower(v, op0))
            } else {
                None
            },
            Instruction::ListLower { element, realloc } => if realloc {
                Some(
                    spec_list_lower(v, cx.sizes.spec_size(element), cx.sizes.spec_align(element), op0),
                )
            } else {
                None
            },
            Instruction::ListCanonLift { element, free, .. } => Some(
                (
                    spec_list_canon_lift(v, free, cx.sizes.spec_align(element), op0, op1).0,
                    seq![spec_list_canon_lift(v, free, cx.sizes.spec_align(element), op0, op1).1],
                ),
            ),
            Instruction::StringLift { free } => Some(
                (spec_string_lift(v, free, op0, op1).0, seq![spec_string_lift(v, free, op0, op1).1]),
            ),
            Instruction::ListLift { element, free, .. } => Some(
                (
                    spec_list_lift(
                        v,
                        free,
                        cx.sizes.spec_size(element),
                        cx.sizes.spec_align(element),
                        op0,
                        op1,
                    ).0,
                    seq![
                        spec_list_lift(
                            v,
                            free,
                            cx.sizes.spec_size(element),
                            cx.sizes.spec_align(element),
                            op0,
                            op1,
                        ).1,
                    ],
                ),
            ),
            Instruction::CallWasm { func, results, .. } => Some(
                spec_call_wasm(
                    v,
                    text_at(texts(cx.names.functions@), func as int),
                    cx.call.is_async,
                    results as nat,
                    ops,
                ),
            ),
            Instruction::CallInterface { func, .. } => Some(
                (
                    RendererView {
                        after_call: true,
                        ..pushed(
                            v,
                            call_interface_text(
                                *cx.call,
                                text_at(texts(cx.names.methods@), func as int),
                                ops,
                            ),
                        )
                    },
                    seq!["result"@],
                ),
            ),
            Instruction::Return { amt, .. } => Some(
                (pushed(v, return_text(amt as nat, ops)), Seq::empty()),
            ),
            Instruction::Malloc { size, align } => Some(
                (spec_malloc(v, size as nat, align as nat).0, seq![
                    spec_malloc(v, size as nat, align as nat).1,
                ]),
            ),
            _ => None,
        }
    }
}

/// One text as a list.
pub fn single(text: String) -> (r: Vec<String>)
    ensures
        texts(r@) == seq![text@],
{
    let mut out: Vec<String> = Vec::new();
    out.push(text);
    assert(texts(out@) =~= seq![text@]);
    out
}

/// No text.
pub fn no_texts() -> (r: Vec<String>)
    ensures
        texts(r@) == Seq::<Seq<char>>::empty(),
{
    let out: Vec<String> = Vec::new();
    assert(texts(out@) =~= Seq::<Seq<char>>::empty());
    out
}

/// The call of a function of the guest.
pub fn call_wasm(name: &str, is_async: bool, operands: &Vec<String>) -> (r: String)
    ensures
        r@ == call_wasm_text(name@, is_async, texts(operands@)),
{
    let mut text = crate::templates::call_wasm_open(
        name,
        if is_async {
            ".call_async(store, "
        } else {
            ".call(store, "
        },
    );
    let ghost open = text@;
    let mut k: usize = 0;
    assert(text@ =~= open + call_args(texts(operands@), 0));
    while k < operands.len()
        invariant
            k <= operands@.len(),
            text@ == open + call_args(texts(operands@), k as nat),
        decreases operands@.len() - k,
    {
        let arg = crate::templates::call_arg(get_text(operands, k));
        text.append(arg.as_str());
        k += 1;
        assert(text@ =~= open + call_args(texts(operands@), k as nat));
    }
    text.append(")");
    if is_async {
        text.append(".await");
    } else {
        assert(text@ =~= text@ + Seq::<char>::empty());
    }
    text.append("?;\n");
    text
}

/// The call of the host's method.
pub fn render_host_call(call: &CallInfo, method: &str, n: usize) -> (r: String)
    ensures
        r@ == host_call(*call, method@, n as nat),
{
    let mut plain = crate::templates::host_call_open(method);
    let ghost open = plain@;
    let mut k: usize = 0;
    assert(plain@ =~= open + param_args(0));
    while k < n
        invariant
            k <= n,
            plain@ == open + param_args(k as nat),
        decreases n - k,
    {
        let digits = decimal_of(k as u64);
        let arg = crate::templates::param_arg(digits.as_str());
        plain.append(arg.as_str());
        k += 1;
        assert(plain@ =~= open + param_args(k as nat));
    }
    plain.append(")");
    if call.is_async {
        plain.append(".await");
    } else {
        assert(plain@ =~= plain@ + Seq::<char>::empty());
    }
    match &call.ret {
        FunctionRet::Normal => plain,
        FunctionRet::CustomToTrap => crate::templates::to_trap(plain.as_str()),
        FunctionRet::CustomToError { err, .. } => crate::templates::to_error(
            plain.as_str(),
            err.as_str(),
        ),
    }
}

/// The statements of the call of a function of the host.
pub fn call_interface(call: &CallInfo, method: &str, operands: &Vec<String>) -> (r: String)
    ensures
        r@ == call_interface_text(*call, method@, texts(operands@)),
{
    let mut text = String::new();
    let mut k: usize = 0;
    assert(text@ =~= param_lets(texts(operands@), 0));
    while k < operands.len()
        invariant
            k <= operands@.len(),
            text@ == param_lets(texts(operands@), k as nat),
        decreases operands@.len() - k,
    {
        let digits = decimal_of(k as u64);
        let bind = crate::templates::param_let(digits.as_str(), get_text(operands, k));
        text.append(bind.as_str());
        k += 1;
    }
    if call.tracing && call.params.len() > 0 {
        let mut event = String::from_str("wit_bindgen_wasmer::tracing::event!(\n");
        event.append("wit_bindgen_wasmer::tracing::Level::TRACE,\n");
        let mut i: usize = 0;
        assert(event@ =~= trace_open() + trace_fields(texts(call.params@), 0));
        while i < call.params.len()
            invariant
                i <= call.params@.len(),
                event@ == trace_open() + trace_fields(texts(call.params@), i as nat),
            decreases call.params@.len() - i,
        {
            let digits = decimal_of(i as u64);
            let field = crate::templates::trace_field(get_text(&call.params, i), digits.as_str());
            event.append(field.as_str());
            i += 1;
            assert(event@ =~= trace_open() + trace_fields(texts(call.params@), i as nat));
        }
        event.append(");\n");
        text.append(event.as_str());
    } else {
        assert(text@ =~= text@ + Seq::<char>::empty());
    }
    text.append("let host = &mut data_mut.data;\n");
    text.append("let result = ");
    let called = render_host_call(call, method, operands.len());
    text.append(called.as_str());
    text.append(";\n");
    if call.has_handles {
        text.append("drop(tables);\n");
    } else {
        assert(text@ =~= text@ + Seq::<char>::empty());
    }
    if call.tracing && !call.result_is_unit {
        let mut event = String::from_str("wit_bindgen_wasmer::tracing::event!(\n");
        event.append("wit_bindgen_wasmer::tracing::Level::TRACE,\n");
        let field = crate::templates::trace_result("result");
        event.append(field.as_str());
        event.append(");\n");
        text.append(event.as_str());
    } else {
        assert(text@ =~= text@ + Seq::<char>::empty());
    }
    text
}

/// What a function returns.
pub fn render_return(amt: usize, operands: &Vec<String>) -> (r: String)
    ensures
        r@ == return_text(amt as nat, texts(operands@)),
{
    if amt == 0 {
        String::from_str("Ok(())\n")
    } else if amt == 1 {
        crate::templates::return_one(get_text(operands, 0))
    } else {
        let joined = join_operands(operands);
        crate::templates::return_many(joined.as_str())
    }
}

/// Which cases of the definition at `ty` have no payload.
pub fn units(iface: &Interface, ty: usize) -> (r: Vec<bool>)
    ensures
        r@ == units_of(*iface, ty as int),
{
    let mut out: Vec<bool> = Vec::new();
    if ty < iface.types.len() {
        match &iface.types[ty].kind {
            TypeDefKind::Variant(v) => {
                let mut k: usize = 0;
                while k < v.cases.len()
                    invariant
                        k <= v.cases@.len(),
                        out@.len() == k,
                        forall|j: int| 0 <= j < k ==> out@[j] == (v.cases@[j].ty == Type::Unit),
                    decreases v.cases@.len() - k,
                {
                    out.push(v.cases[k].ty == Type::Unit);
                    k += 1;
                }
                assert(out@ =~= units_of(*iface, ty as int));
            },
            _ => {
                assert(out@ =~= units_of(*iface, ty as int));
            },
        }
    } else {
        assert(out@ =~= units_of(*iface, ty as int));
    }
    out
}

/// The Rust integer type that holds the flags of the definition at `ty`.
pub fn flags_repr(iface: &Interface, ty: usize, words: usize) -> (r: &'static str)
    ensures
        r@ == flags_repr_of(*iface, ty as int, words as nat),
{
    if ty < iface.types.len() {
        match &iface.types[ty].kind {
            TypeDefKind::Flags(f) => {
                return flags_type(f.repr());
            },
            _ => {},
        }
    }
    flags_type(FlagsRepr::U32(words))
}

/// The names of the members of the definition at `ty`.
pub fn members<'a>(names: &'a Names, ty: usize) -> (r: Vec<String>)
    ensures
        texts(r@) == members_of(*names, ty as int),
{
    if ty < names.members.len() {
        let r = names.members[ty].clone();
        assert(texts(r@) =~= texts(names.members@[ty as int]@)) by {
            assert(r@.len() == names.members@[ty as int]@.len());
            assert forall|i: int| 0 <= i < r@.len() implies r@[i]@ == names.members@[ty as int]@[i]@ by {
                assert(vstd::pervasive::cloned(names.members@[ty as int]@[i], r@[i]));
            }
        }
        r
    } else {
        no_texts()
    }
}

/// The type, the widening and the offset of a load instruction.
pub fn load_type(inst: &Instruction) -> (r: Option<(&'static str, bool, i32)>)
    ensures
        match r {
            Some(load) => spec_load_type(*inst) == Some((load.0@, load.1, load.2)),
            None => spec_load_type(*inst) is None,
        },
{
    match inst {
        Instruction::I32Load { offset } => Some(("i32", false, *offset)),
        Instruction::I32Load8U { offset } => Some(("u8", true, *offset)),
        Instruction::I32Load8S { offset } => Some(("i8", true, *offset)),
        Instruction::I32Load16U { offset } => Some(("u16", true, *offset)),
        Instruction::I32Load16S { offset } => Some(("i16", true, *offset)),
        Instruction::I64Load { offset } => Some(("i64", false, *offset)),
        Instruction::F32Load { offset } => Some(("f32", false, *offset)),
        Instruction::F64Load { offset } => Some(("f64", false, *offset)),
        _ => None,
    }
}

/// The conversion, the cast and the offset of a store instruction.
pub fn store_method(inst: &Instruction) -> (r: Option<(&'static str, &'static str, i32)>)
    ensures
        match r {
            Some(store) => spec_store_method(*inst) == Some((store.0@, store.1@, store.2)),
            None => spec_store_method(*inst) is None,
        },
{
    match inst {
        Instruction::I32Store { offset } => Some(("as_i32", "", *offset)),
        Instruction::I64Store { offset } => Some(("as_i64", "", *offset)),
        Instruction::F32Store { offset } => Some(("as_f32", "", *offset)),
        Instruction::F64Store { offset } => Some(("as_f64", "", *offset)),
        Instruction::I32Store8 { offset } => Some(("as_i32", " as u8", *offset)),
        Instruction::I32Store16 { offset } => Some(("as_i32", " as u16", *offset)),
        _ => None,
    }
}

impl Renderer {
    /// Renders the instructions that take a record, a tuple or flags apart
    /// or put one together, and the one that makes an enum.
    fn emit_product(&mut self, cx: &Context, inst: &Instruction, operands: &Vec<String>) -> (r:
        Result<Vec<String>, RenderError>)
        requires
            old(self)@.tmp < u64::MAX,
            *inst is RecordLower || *inst is RecordLift || *inst is TupleLower || *inst
                is TupleLift || *inst is FlagsLower || *inst is FlagsLift || *inst is EnumLift,
        ensures
            final(self)@.tmp <= old(self)@.tmp + 1,
            match r {
                Ok(results) => spec_emit(old(self)@, *cx, *inst, texts(operands@)) == Some(
                    (final(self)@, texts(results@)),
                ),
                Err(_) => spec_emit(old(self)@, *cx, *inst, texts(operands@)) is None && final(self)@
                    == old(self)@,
            },
    {
        let op0 = get_text(operands, 0);
        match inst {
            Instruction::RecordLower { ty, fields } => {
                let fields_of = members(cx.names, *ty);
                Ok(self.record_lower(get_text(&cx.names.types, *ty), &fields_of, *fields, op0))
            },
            Instruction::RecordLift { ty, fields } => {
                let fields_of = members(cx.names, *ty);
                Ok(
                    single(
                        record_lift(get_text(&cx.names.types, *ty), &fields_of, *fields, operands),
                    ),
                )
            },
            Instruction::TupleLower { fields, .. } => Ok(self.tuple_lower(*fields, op0)),
            Instruction::TupleLift { .. } => Ok(single(tuple_lift(operands))),
            Instruction::FlagsLower { words, .. } => {
                if *words <= 4 {
                    Ok(self.flags_lower(*words, op0))
                } else {
                    Err(RenderError::Unsupported)
                }
            },
            Instruction::FlagsLift { ty, words } => {
                if operands.len() <= 4 {
                    Ok(
                        single(
                            flags_lift_text(
                                get_text(&cx.names.types, *ty),
                                flags_repr(cx.iface, *ty, *words),
                                operands,
                            ),
                        ),
                    )
                } else {
                    Err(RenderError::Unsupported)
                }
            },
            Instruction::EnumLift { ty } => {
                let names = members(cx.names, *ty);
                Ok(single(enum_lift(get_text(&cx.names.types, *ty), &names, op0)))
            },
            _ => Err(RenderError::Unsupported),
        }
    }

    /// Renders the instructions that tell the cases of a definition apart or
    /// make one of them.
    fn emit_sum(&mut self, cx: &Context, inst: &Instruction, operands: &Vec<String>) -> (r: Result<
        Vec<String>,
        RenderError,
    >)
        requires
            old(self)@.tmp < u64::MAX,
            *inst is VariantLower || *inst is VariantLift || *inst is UnionLower || *inst
                is UnionLift || *inst is OptionLower || *inst is OptionLift || *inst
                is ExpectedLower || *inst is ExpectedLift,
        ensures
            final(self)@.tmp <= old(self)@.tmp + 1,
            match r {
                Ok(results) => spec_emit(old(self)@, *cx, *inst, texts(operands@)) == Some(
                    (final(self)@, texts(results@)),
                ),
                Err(_) => spec_emit(old(self)@, *cx, *inst, texts(operands@)) is None && final(self)@
                    == old(self)@,
            },
    {
        let op0 = get_text(operands, 0);
        match inst {
            Instruction::VariantLower { ty, cases, results } => {
                let names = members(cx.names, *ty);
                let unit = units(cx.iface, *ty);
                Ok(
                    self.variant_lower(
                        get_text(&cx.names.types, *ty),
                        &names,
                        &unit,
                        *cases,
                        *results,
                        op0,
                    ),
                )
            },
            Instruction::VariantLift { ty, cases } => {
                let names = members(cx.names, *ty);
                let unit = units(cx.iface, *ty);
                let text = self.variant_lift(
                    get_text(&cx.names.types, *ty),
                    &names,
                    &unit,
                    *cases,
                    op0,
                );
                Ok(single(text))
            },
            Instruction::UnionLower { ty, cases, results } => {
                let names = union_case_names(*cases);
                let unit: Vec<bool> = Vec::new();
                assert(unit@ =~= Seq::<bool>::empty());
                Ok(
                    self.variant_lower(
                        get_text(&cx.names.types, *ty),
                        &names,
                        &unit,
                        *cases,
                        *results,
                        op0,
                    ),
                )
            },
            Instruction::UnionLift { ty, cases } => {
                let names = union_case_names(*cases);
                let unit: Vec<bool> = Vec::new();
                assert(unit@ =~= Seq::<bool>::empty());
                let text = self.variant_lift(
                    get_text(&cx.names.types, *ty),
                    &names,
                    &unit,
                    *cases,
                    op0,
                );
                Ok(single(text))
            },
            Instruction::OptionLower { results, .. } => Ok(self.pair_lower(false, *results, op0)),
            Instruction::OptionLift { .. } => {
                let text = self.pair_lift(false, op0);
                Ok(single(text))
            },
            Instruction::ExpectedLower { results, .. } => Ok(self.pair_lower(true, *results, op0)),
            Instruction::ExpectedLift { .. } => {
                let text = self.pair_lift(true, op0);
                Ok(single(text))
            },
            _ => Err(RenderError::Unsupported),
        }
    }

    /// Renders the instructions of handles and of allocation.
    fn emit_handle(&mut self, cx: &Context, inst: &Instruction, operands: &Vec<String>) -> (r:
        Result<Vec<String>, RenderError>)
        requires
            old(self)@.tmp < u64::MAX,
            *inst is I32FromOwnedHandle || *inst is HandleBorrowedFromI32 || *inst
                is I32FromBorrowedHandle || *inst is HandleOwnedFromI32 || *inst is Malloc,
        ensures
            final(self)@.tmp <= old(self)@.tmp + 1,
            match r {
                Ok(results) => spec_emit(old(self)@, *cx, *inst, texts(operands@)) == Some(
                    (final(self)@, texts(results@)),
                ),
                Err(_) => spec_emit(old(self)@, *cx, *inst, texts(operands@)) is None && final(self)@
                    == old(self)@,
            },
    {
        let op0 = get_text(operands, 0);
        match inst {
            Instruction::I32FromOwnedHandle { ty } => Ok(
                single(owned_handle_lower(get_text(&cx.names.resource_tables, *ty), op0)),
            ),
            Instruction::HandleBorrowedFromI32 { ty } => Ok(
                single(borrowed_handle_lift(get_text(&cx.names.resource_tables, *ty), op0)),
            ),
            Instruction::I32FromBorrowedHandle { ty } => {
                let tmp = self.next_tmp();
                let idx = decimal_of(*ty as u64);
                let text = borrowed_handle_lower(tmp.as_str(), op0, idx.as_str());
                self.push_str(text.as_str());
                Ok(single(handle_as_i32(tmp.as_str())))
            },
            Instruction::HandleOwnedFromI32 { ty } => {
                let tmp = self.next_tmp();
                let idx = decimal_of(*ty as u64);
                let text = owned_handle_lift(tmp.as_str(), idx.as_str(), op0);
                self.push_str(text.as_str());
                Ok(
                    single(
                        handle_wrapped(get_text(&cx.names.resource_types, *ty), tmp.as_str()),
                    ),
                )
            },
            Instruction::Malloc { size, align } => {
                let ptr = self.malloc(*size, *align);
                Ok(single(ptr))
            },
            _ => Err(RenderError::Unsupported),
        }
    }

    /// Renders the instructions that lower lists and strings.
    fn emit_list_lower(&mut self, cx: &Context, inst: &Instruction, operands: &Vec<String>) -> (r:
        Result<Vec<String>, RenderError>)
        requires
            old(self)@.tmp < u64::MAX,
            *inst is ListCanonLower || *inst is StringLower || *inst is ListLower,
        ensures
            final(self)@.tmp <= old(self)@.tmp + 1,
            match r {
                Ok(results) => spec_emit(old(self)@, *cx, *inst, texts(operands@)) == Some(
                    (final(self)@, texts(results@)),
                ),
                Err(_) => spec_emit(old(self)@, *cx, *inst, texts(operands@)) is None && final(self)@
                    == old(self)@,
            },
    {
        let op0 = get_text(operands, 0);
        match inst {
            Instruction::ListCanonLower { element, realloc } => {
                if *realloc {
                    Ok(self.list_canon_lower(cx.sizes.size(element), cx.sizes.align(element), op0))
                } else {
                    Err(RenderError::Unsupported)
                }
            },
            Instruction::StringLower { realloc } => {
                if *realloc {
                    Ok(self.string_lower(op0))
                } else {
                    Err(RenderError::Unsupported)
                }
            },
            Instruction::ListLower { element, realloc } => {
                if *realloc {
                    Ok(self.list_lower(cx.sizes.size(element), cx.sizes.align(element), op0))
                } else {
                    Err(RenderError::Unsupported)
                }
            },
            _ => Err(RenderError::Unsupported),
        }
    }

    /// Renders the instructions that lift lists and strings.
    fn emit_list_lift(&mut self, cx: &Context, inst: &Instruction, operands: &Vec<String>) -> (r:
        Result<Vec<String>, RenderError>)
        requires
            old(self)@.tmp < u64::MAX,
            *inst is ListCanonLift || *inst is StringLift || *inst is ListLift,
        ensures
            final(self)@.tmp <= old(self)@.tmp + 1,
            match r {
                Ok(results) => spec_emit(old(self)@, *cx, *inst, texts(operands@)) == Some(
                    (final(self)@, texts(results@)),
                ),
                Err(_) => spec_emit(old(self)@, *cx, *inst, texts(operands@)) is None && final(self)@
                    == old(self)@,
            },
    {
        let op0 = get_text(operands, 0);
        let op1 = get_text(operands, 1);
        match inst {
            Instruction::ListCanonLift { element, free, .. } => {
                let text = self.list_canon_lift(*free, cx.sizes.align(element), op0, op1);
                Ok(single(text))
            },
            Instruction::StringLift { free } => {
                let text = self.string_lift(*free, op0, op1);
                Ok(single(text))
            },
            Instruction::ListLift { element, free, .. } => {
                let text = self.list_lift(
                    *free,
                    cx.sizes.size(element),
                    cx.sizes.align(element),
                    op0,
                    op1,
                );
                Ok(single(text))
            },
            _ => Err(RenderError::Unsupported),
        }
    }

    /// Renders one instruction with the texts of its operands, and returns
    /// the texts of its results.
    pub fn emit(&mut self, cx: &Context, inst: &Instruction, operands: &Vec<String>) -> (r: Result<
        Vec<String>,
        RenderError,
    >)
        requires
            old(self)@.tmp < u64::MAX,
        ensures
            final(self)@.tmp <= old(self)@.tmp + 1,
            match r {
                Ok(results) => spec_emit(old(self)@, *cx, *inst, texts(operands@)) == Some(
                    (final(self)@, texts(results@)),
                ),
                Err(_) => spec_emit(old(self)@, *cx, *inst, texts(operands@)) is None && final(self)@
                    == old(self)@,
            },
    {
        let op0 = get_text(operands, 0);
        let op1 = get_text(operands, 1);
        if let Some(text) = expression(inst, op0) {
            return Ok(single(text));
        }
        if let Some(load) = load_type(inst) {
            let text = self.load(load.0, load.1, op0, load.2);
            return Ok(single(text));
        }
        if let Some(store) = store_method(inst) {
            self.store(store.0, store.1, op0, op1, store.2);
            return Ok(no_texts());
        }
        match inst {
            Instruction::GetArg { nth } => Ok(single(String::from_str(get_text(cx.args, *nth)))),
            Instruction::UnitLower => {
                let text = crate::templates::unit_lower(op0);
                self.push_str(text.as_str());
                Ok(no_texts())
            },
            Instruction::IterElem { .. } => {
                self.caller_memory_available = false;
                Ok(single(String::from_str("e")))
            },
            Instruction::RecordLower { .. }
            | Instruction::RecordLift { .. }
            | Instruction::TupleLower { .. }
            | Instruction::TupleLift { .. }
            | Instruction::FlagsLower { .. }
            | Instruction::FlagsLift { .. }
            | Instruction::EnumLift { .. } => self.emit_product(cx, inst, operands),
            Instruction::VariantLower { .. }
            | Instruction::VariantLift { .. }
            | Instruction::UnionLower { .. }
            | Instruction::UnionLift { .. }
            | Instruction::OptionLower { .. }
            | Instruction::OptionLift { .. }
            | Instruction::ExpectedLower { .. }
            | Instruction::ExpectedLift { .. } => self.emit_sum(cx, inst, operands),
            Instruction::ListCanonLower { .. }
            | Instruction::StringLower { .. }
            | Instruction::ListLower { .. } => self.emit_list_lower(cx, inst, operands),
            Instruction::ListCanonLift { .. }
            | Instruction::StringLift { .. }
            | Instruction::ListLift { .. } => self.emit_list_lift(cx, inst, operands),
            Instruction::I32FromOwnedHandle { .. }
            | Instruction::HandleBorrowedFromI32 { .. }
            | Instruction::I32FromBorrowedHandle { .. }
            | Instruction::HandleOwnedFromI32 { .. }
            | Instruction::Malloc { .. } => self.emit_handle(cx, inst, operands),
            Instruction::CallWasm { func, results, .. } => {
                let names = self.let_results(*results);
                let text = call_wasm(
                    get_text(&cx.names.functions, *func),
                    cx.call.is_async,
                    operands,
                );
                self.push_str(text.as_str());
                self.after_call = true;
                self.caller_memory_available = false;
                Ok(names)
            },
            Instruction::CallInterface { func, .. } => {
                let text = call_interface(cx.call, get_text(&cx.names.methods, *func), operands);
                self.push_str(text.as_str());
                self.after_call = true;
                Ok(single(String::from_str("result")))
            },
            Instruction::Return { amt, .. } => {
                let text = render_return(*amt, operands);
                self.push_str(text.as_str());
                Ok(no_texts())
            },
            _ => Err(RenderError::Unsupported),
        }
    }
}

/// The texts of all the steps: per step the texts of its results.
pub open spec fn all_texts(values: Seq<Vec<String>>) -> Seq<Seq<Seq<char>>> {
    Seq::new(values.len(), |i: int| texts(values[i]@))
}

/// The text of the value that `operand` names, or nothing where it names
/// none.
pub open spec fn value_of(values: Seq<Seq<Seq<char>>>, operand: Operand) -> Seq<char> {
    if operand.step < values.len() {
        text_at(values[operand.step as int], operand.index as int)
    } else {
        Seq::empty()
    }
}

/// The texts of the values that `operands` name.
pub open spec fn operand_texts(values: Seq<Seq<Seq<char>>>, operands: Seq<Operand>) -> Seq<
    Seq<char>,
> {
    Seq::new(operands.len(), |i: int| value_of(values, operands[i]))
}

/// The state after the first `n` steps of a protocol were rendered, and the
/// texts of the values they gave. Nothing where the host bindings have no
/// code for one of them.
pub open spec fn rendered(cx: Context, steps: Seq<StepView>, in_import: bool, n: nat) -> Option<
    (RendererView, Seq<Seq<Seq<char>>>),
>
    decreases n,
{
    if n == 0 || n > steps.len() {
        Some(
            (
                RendererView {
                    in_import,
                    tmp: 0,
                    src: Seq::empty(),
                    storage: Seq::empty(),
                    blocks: Seq::empty(),
                    after_call: false,
                    available: false,
                },
                Seq::empty(),
            ),
        )
    } else {
        match rendered(cx, steps, in_import, (n - 1) as nat) {
            None => None,
            Some(before) => match steps[n - 1] {
                StepView::Emit { inst, operands } => match spec_emit(
                    before.0,
                    cx,
                    inst,
                    operand_texts(before.1, operands),
                ) {
                    None => None,
                    Some(after) => Some((after.0, before.1.push(after.1))),
                },
                StepView::PushBlock => Some((spec_push_block(before.0), before.1.push(Seq::empty()))),
                StepView::FinishBlock { operands } => Some(
                    (
                        spec_finish_block(before.0, operand_texts(before.1, operands)),
                        before.1.push(Seq::empty()),
                    ),
                ),
                StepView::ReturnPointer { .. } => None,
            },
        }
    }
}

/// Where the bindings have no code for a step, they have none for the
/// protocol.
pub proof fn lemma_unrendered_stays(cx: Context, steps: Seq<StepView>, in_import: bool, n: nat, m: nat)
    requires
        1 <= n <= m <= steps.len(),
        rendered(cx, steps, in_import, n) is None,
    ensures
        rendered(cx, steps, in_import, m) is None,
    decreases m,
{
    if n < m {
        lemma_unrendered_stays(cx, steps, in_import, n, (m - 1) as nat);
    }
}

/// The texts of the values that `operands` name.
fn texts_of(values: &Vec<Vec<String>>, operands: &Vec<Operand>) -> (r: Vec<String>)
    ensures
        texts(r@) == operand_texts(all_texts(values@), operands@),
{
    let mut out: Vec<String> = Vec::new();
    let mut k: usize = 0;
    while k < operands.len()
        invariant
            k <= operands@.len(),
            out@.len() == k,
            forall|j: int|
                0 <= j < k ==> (#[trigger] out@[j])@ == value_of(all_texts(values@), operands@[j]),
        decreases operands@.len() - k,
    {
        let operand = operands[k];
        let text = if operand.step < values.len() {
            String::from_str(get_text(&values[operand.step], operand.index))
        } else {
            proof {
                reveal_strlit("");
                assert(""@ =~= Seq::<char>::empty());
            }
            String::from_str("")
        };
        out.push(text);
        k += 1;
    }
    assert(texts(out@) =~= operand_texts(all_texts(values@), operands@));
    out
}

/// Renders a protocol: the statements of the function that does what the
/// protocol says.
pub fn render(cx: &Context, steps: &Vec<Step>, in_import: bool) -> (r: Result<String, RenderError>)
    ensures
        match r {
            Ok(text) => rendered(*cx, steps_view(steps@), in_import, steps@.len()) matches Some(
                done,
            ) && text@ == done.0.src,
            Err(_) => rendered(*cx, steps_view(steps@), in_import, steps@.len()) is None,
        },
{
    let mut state = Renderer::new(in_import);
    let mut values: Vec<Vec<String>> = Vec::new();
    let mut k: usize = 0;
    assert(all_texts(values@) =~= Seq::empty());
    while k < steps.len()
        invariant
            k <= steps@.len(),
            values@.len() == k,
            state@.tmp <= k,
            rendered(*cx, steps_view(steps@), in_import, k as nat) == Some(
                (state@, all_texts(values@)),
            ),
        decreases steps@.len() - k,
    {
        let ghost before = all_texts(values@);
        assert(steps_view(steps@)[k as int] == steps@[k as int]@);
        match &steps[k] {
            Step::Emit { inst, operands } => {
                let ops = texts_of(&values, operands);
                match state.emit(cx, inst, &ops) {
                    Ok(results) => {
                        values.push(results);
                        assert(all_texts(values@) =~= before.push(texts(results@)));
                    },
                    Err(e) => {
                        assert(rendered(*cx, steps_view(steps@), in_import, (k + 1) as nat) is None);
                        proof {
                            lemma_unrendered_stays(
                                *cx,
                                steps_view(steps@),
                                in_import,
                                (k + 1) as nat,
                                steps@.len(),
                            );
                        }
                        return Err(e);
                    },
                }
            },
            Step::PushBlock => {
                state.push_block();
                values.push(no_texts());
                assert(all_texts(values@) =~= before.push(Seq::empty()));
            },
            Step::FinishBlock { operands } => {
                let ops = texts_of(&values, operands);
                state.finish_block(&ops);
                values.push(no_texts());
                assert(all_texts(values@) =~= before.push(Seq::empty()));
            },
            Step::ReturnPointer { .. } => {
                assert(rendered(*cx, steps_view(steps@), in_import, (k + 1) as nat) is None);
                proof {
                    lemma_unrendered_stays(
                        *cx,
                        steps_view(steps@),
                        in_import,
                        (k + 1) as nat,
                        steps@.len(),
                    );
                }
                return Err(RenderError::Unsupported);
            },
        }
        k += 1;
    }
    Ok(state.src)
}

} // verus!
