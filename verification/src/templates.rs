//! The pieces of text that the generated host code is made of. Each piece
//! is the same text every time, with the given strings in the gaps.

use vstd::prelude::*;
use vstd::string::StringExecFns;

verus! {

/// A 64-bit integer as a core `i64`.
pub open spec fn spec_as_i64(s: Seq<char>) -> Seq<char> {
    "wit_bindgen_wasmer::rt::as_i64("@ + s + ")"@
}

/// A 64-bit integer as a core `i64`.
pub fn as_i64(s: &str) -> (r: String)
    ensures
        r@ == spec_as_i64(s@),
{
    let mut r = String::from_str("wit_bindgen_wasmer::rt::as_i64(");
    r.append(s);
    r.append(")");
    r
}

/// An integer of at most 32 bits, or a `char`, as a core `i32`.
pub open spec fn spec_as_i32(s: Seq<char>) -> Seq<char> {
    "wit_bindgen_wasmer::rt::as_i32("@ + s + ")"@
}

/// An integer of at most 32 bits, or a `char`, as a core `i32`.
pub fn as_i32(s: &str) -> (r: String)
    ensures
        r@ == spec_as_i32(s@),
{
    let mut r = String::from_str("wit_bindgen_wasmer::rt::as_i32(");
    r.append(s);
    r.append(")");
    r
}

/// A checked conversion to the narrower integer type `cvt`.
pub open spec fn spec_try_from(cvt: Seq<char>, s: Seq<char>) -> Seq<char> {
    cvt + "::try_from("@ + s + ").map_err(bad_int)?"@
}

/// A checked conversion to the narrower integer type `cvt`.
pub fn try_from(cvt: &str, s: &str) -> (r: String)
    ensures
        r@ == spec_try_from(cvt@, s@),
{
    let mut r = String::from_str(cvt);
    r.append("::try_from(");
    r.append(s);
    r.append(").map_err(bad_int)?");
    r
}

/// A cast to `cvt` that keeps the bits.
pub open spec fn spec_cast_as(s: Seq<char>, cvt: Seq<char>) -> Seq<char> {
    s + " as "@ + cvt
}

/// A cast to `cvt` that keeps the bits.
pub fn cast_as(s: &str, cvt: &str) -> (r: String)
    ensures
        r@ == spec_cast_as(s@, cvt@),
{
    let mut r = String::from_str(s);
    r.append(" as ");
    r.append(cvt);
    r
}

/// A checked conversion to `char`.
pub open spec fn spec_char_lift(s: Seq<char>) -> Seq<char> {
    "char_from_i32("@ + s + ")?"@
}

/// A checked conversion to `char`.
pub fn char_lift(s: &str) -> (r: String)
    ensures
        r@ == spec_char_lift(s@),
{
    let mut r = String::from_str("char_from_i32(");
    r.append(s);
    r.append(")?");
    r
}

pub open spec fn spec_i64_from(s: Seq<char>) -> Seq<char> {
    "i64::from("@ + s + ")"@
}

pub fn i64_from(s: &str) -> (r: String)
    ensures
        r@ == spec_i64_from(s@),
{
    let mut r = String::from_str("i64::from(");
    r.append(s);
    r.append(")");
    r
}

/// The bits of a float as the integer type `cvt`.
pub open spec fn spec_bits_as(s: Seq<char>, cvt: Seq<char>) -> Seq<char> {
    "("@ + s + ").to_bits() as "@ + cvt
}

/// The bits of a float as the integer type `cvt`.
pub fn bits_as(s: &str, cvt: &str) -> (r: String)
    ensures
        r@ == spec_bits_as(s@, cvt@),
{
    let mut r = String::from_str("(");
    r.append(s);
    r.append(").to_bits() as ");
    r.append(cvt);
    r
}

/// The float of type `float` with the bits of an integer, read as `bits`.
pub open spec fn spec_float_from_bits(float: Seq<char>, s: Seq<char>, bits: Seq<char>) -> Seq<char> {
    float + "::from_bits("@ + s + " as "@ + bits + ")"@
}

/// The float of type `float` with the bits of an integer, read as `bits`.
pub fn float_from_bits(float: &str, s: &str, bits: &str) -> (r: String)
    ensures
        r@ == spec_float_from_bits(float@, s@, bits@),
{
    let mut r = String::from_str(float);
    r.append("::from_bits(");
    r.append(s);
    r.append(" as ");
    r.append(bits);
    r.append(")");
    r
}

pub open spec fn spec_i64_from_bits(s: Seq<char>) -> Seq<char> {
    "i64::from(("@ + s + ").to_bits())"@
}

pub fn i64_from_bits(s: &str) -> (r: String)
    ensures
        r@ == spec_i64_from_bits(s@),
{
    let mut r = String::from_str("i64::from((");
    r.append(s);
    r.append(").to_bits())");
    r
}

/// A constant of type `i32`.
pub open spec fn spec_number_i32(val: Seq<char>) -> Seq<char> {
    val + "i32"@
}

/// A constant of type `i32`.
pub fn number_i32(val: &str) -> (r: String)
    ensures
        r@ == spec_number_i32(val@),
{
    let mut r = String::from_str(val);
    r.append("i32");
    r
}

pub open spec fn spec_unit_lower(s: Seq<char>) -> Seq<char> {
    "let () = "@ + s + ";\n"@
}

pub fn unit_lower(s: &str) -> (r: String)
    ensures
        r@ == spec_unit_lower(s@),
{
    let mut r = String::from_str("let () = ");
    r.append(s);
    r.append(";\n");
    r
}

pub open spec fn spec_bool_lower(s: Seq<char>) -> Seq<char> {
    "match "@ + s + " { true => 1, false => 0 }"@
}

pub fn bool_lower(s: &str) -> (r: String)
    ensures
        r@ == spec_bool_lower(s@),
{
    let mut r = String::from_str("match ");
    r.append(s);
    r.append(" { true => 1, false => 0 }");
    r
}

pub open spec fn spec_bool_lift(s: Seq<char>) -> Seq<char> {
    "match "@ + s + " {\n                        0 => false,\n                        1 => true,\n                        _ => return Err(invalid_variant(\"bool\")),\n                    }"@
}

pub fn bool_lift(s: &str) -> (r: String)
    ensures
        r@ == spec_bool_lift(s@),
{
    let mut r = String::from_str("match ");
    r.append(s);
    r.append(" {\n                        0 => false,\n                        1 => true,\n                        _ => return Err(invalid_variant(\"bool\")),\n                    }");
    r
}

/// Puts a handle of the host into its table.
pub open spec fn spec_owned_handle_lower(table: Seq<char>, s: Seq<char>) -> Seq<char> {
    "{\n                        let data_mut = store.data_mut();\n                        let mut tables = data_mut.tables.borrow_mut();\n                        tables."@ + table + "_table.insert("@ + s + ") as i32\n                    }"@
}

/// Puts a handle of the host into its table.
pub fn owned_handle_lower(table: &str, s: &str) -> (r: String)
    ensures
        r@ == spec_owned_handle_lower(table@, s@),
{
    let mut r = String::from_str("{\n                        let data_mut = store.data_mut();\n                        let mut tables = data_mut.tables.borrow_mut();\n                        tables.");
    r.append(table);
    r.append("_table.insert(");
    r.append(s);
    r.append(") as i32\n                    }");
    r
}

/// Looks a handle of the host up in its table.
pub open spec fn spec_borrowed_handle_lift(table: Seq<char>, s: Seq<char>) -> Seq<char> {
    "tables\n                        ."@ + table + "_table\n                        .get(("@ + s + ") as u32)\n                        .ok_or_else(|| {\n                            wasmer::RuntimeError::new(\"invalid handle index\")\n                        })?"@
}

/// Looks a handle of the host up in its table.
pub fn borrowed_handle_lift(table: &str, s: &str) -> (r: String)
    ensures
        r@ == spec_borrowed_handle_lift(table@, s@),
{
    let mut r = String::from_str("tables\n                        .");
    r.append(table);
    r.append("_table\n                        .get((");
    r.append(s);
    r.append(") as u32)\n                        .ok_or_else(|| {\n                            wasmer::RuntimeError::new(\"invalid handle index\")\n                        })?");
    r
}

/// Makes one more handle to a resource of the guest.
pub open spec fn spec_borrowed_handle_lower(tmp: Seq<char>, op: Seq<char>, idx: Seq<char>) -> Seq<char> {
    "\n                        let obj"@ + tmp + " = "@ + op + ";\n                        let handle"@ + tmp + " = {\n                            let state = self.env.as_mut(store);\n                            state.resource_slab"@ + idx + ".clone(obj"@ + tmp + ".0)?;\n                            state.index_slab"@ + idx + ".insert(obj"@ + tmp + ".0)\n                        };\n                    "@
}

/// Makes one more handle to a resource of the guest.
pub fn borrowed_handle_lower(tmp: &str, op: &str, idx: &str) -> (r: String)
    ensures
        r@ == spec_borrowed_handle_lower(tmp@, op@, idx@),
{
    let mut r = String::from_str("\n                        let obj");
    r.append(tmp);
    r.append(" = ");
    r.append(op);
    r.append(";\n                        let handle");
    r.append(tmp);
    r.append(" = {\n                            let state = self.env.as_mut(store);\n                            state.resource_slab");
    r.append(idx);
    r.append(".clone(obj");
    r.append(tmp);
    r.append(".0)?;\n                            state.index_slab");
    r.append(idx);
    r.append(".insert(obj");
    r.append(tmp);
    r.append(".0)\n                        };\n                    ");
    r
}

pub open spec fn spec_handle_as_i32(tmp: Seq<char>) -> Seq<char> {
    "handle"@ + tmp + " as i32"@
}

pub fn handle_as_i32(tmp: &str) -> (r: String)
    ensures
        r@ == spec_handle_as_i32(tmp@),
{
    let mut r = String::from_str("handle");
    r.append(tmp);
    r.append(" as i32");
    r
}

/// Takes a handle to a resource of the guest out of its table.
pub open spec fn spec_owned_handle_lift(tmp: Seq<char>, idx: Seq<char>, op: Seq<char>) -> Seq<char> {
    "let state = self.env.as_mut(store);\n                    let handle"@ + tmp + " = state.index_slab"@ + idx + ".remove("@ + op + " as u32)?;\n"@
}

/// Takes a handle to a resource of the guest out of its table.
pub fn owned_handle_lift(tmp: &str, idx: &str, op: &str) -> (r: String)
    ensures
        r@ == spec_owned_handle_lift(tmp@, idx@, op@),
{
    let mut r = String::from_str("let state = self.env.as_mut(store);\n                    let handle");
    r.append(tmp);
    r.append(" = state.index_slab");
    r.append(idx);
    r.append(".remove(");
    r.append(op);
    r.append(" as u32)?;\n");
    r
}

pub open spec fn spec_handle_wrapped(name: Seq<char>, tmp: Seq<char>) -> Seq<char> {
    name + "(handle"@ + tmp + ")"@
}

pub fn handle_wrapped(name: &str, tmp: &str) -> (r: String)
    ensures
        r@ == spec_handle_wrapped(name@, tmp@),
{
    let mut r = String::from_str(name);
    r.append("(handle");
    r.append(tmp);
    r.append(")");
    r
}

pub open spec fn spec_flags_let(tmp: Seq<char>, op: Seq<char>) -> Seq<char> {
    "let flags"@ + tmp + " = "@ + op + ";\n"@
}

pub fn flags_let(tmp: &str, op: &str) -> (r: String)
    ensures
        r@ == spec_flags_let(tmp@, op@),
{
    let mut r = String::from_str("let flags");
    r.append(tmp);
    r.append(" = ");
    r.append(op);
    r.append(";\n");
    r
}

/// One 32-bit word of the bits of flags.
pub open spec fn spec_flags_word(tmp: Seq<char>, shift: Seq<char>) -> Seq<char> {
    "(flags"@ + tmp + ".bits >> "@ + shift + ") as i32"@
}

/// One 32-bit word of the bits of flags.
pub fn flags_word(tmp: &str, shift: &str) -> (r: String)
    ensures
        r@ == spec_flags_word(tmp@, shift@),
{
    let mut r = String::from_str("(flags");
    r.append(tmp);
    r.append(".bits >> ");
    r.append(shift);
    r.append(") as i32");
    r
}

/// One 32-bit word put at its place among the bits of flags.
pub open spec fn spec_flags_or(op: Seq<char>, repr: Seq<char>, shift: Seq<char>) -> Seq<char> {
    "| (("@ + op + " as "@ + repr + ") << "@ + shift + ")"@
}

/// One 32-bit word put at its place among the bits of flags.
pub fn flags_or(op: &str, repr: &str, shift: &str) -> (r: String)
    ensures
        r@ == spec_flags_or(op@, repr@, shift@),
{
    let mut r = String::from_str("| ((");
    r.append(op);
    r.append(" as ");
    r.append(repr);
    r.append(") << ");
    r.append(shift);
    r.append(")");
    r
}

pub open spec fn spec_flags_lift(flags: Seq<char>, name: Seq<char>) -> Seq<char> {
    "validate_flags(\n                        "@ + flags + ",\n                        "@ + name + "::all().bits(),\n                        \""@ + name + "\",\n                        |bits| "@ + name + " { bits }\n                    )?"@
}

pub fn flags_lift(flags: &str, name: &str) -> (r: String)
    ensures
        r@ == spec_flags_lift(flags@, name@),
{
    let mut r = String::from_str("validate_flags(\n                        ");
    r.append(flags);
    r.append(",\n                        ");
    r.append(name);
    r.append("::all().bits(),\n                        \"");
    r.append(name);
    r.append("\",\n                        |bits| ");
    r.append(name);
    r.append(" { bits }\n                    )?");
    r
}

/// A name with a number.
pub open spec fn spec_numbered(name: Seq<char>, tmp: Seq<char>) -> Seq<char> {
    name + tmp
}

/// A name with a number.
pub fn numbered(name: &str, tmp: &str) -> (r: String)
    ensures
        r@ == spec_numbered(name@, tmp@),
{
    let mut r = String::from_str(name);
    r.append(tmp);
    r
}

/// A name with two numbers.
pub open spec fn spec_numbered_part(name: Seq<char>, tmp: Seq<char>, i: Seq<char>) -> Seq<char> {
    name + tmp + "_"@ + i
}

/// A name with two numbers.
pub fn numbered_part(name: &str, tmp: &str, i: &str) -> (r: String)
    ensures
        r@ == spec_numbered_part(name@, tmp@, i@),
{
    let mut r = String::from_str(name);
    r.append(tmp);
    r.append("_");
    r.append(i);
    r
}

pub open spec fn spec_let_open(name: Seq<char>) -> Seq<char> {
    "let "@ + name + " = "@
}

pub fn let_open(name: &str) -> (r: String)
    ensures
        r@ == spec_let_open(name@),
{
    let mut r = String::from_str("let ");
    r.append(name);
    r.append(" = ");
    r
}

pub open spec fn spec_let_stmt(name: Seq<char>, value: Seq<char>) -> Seq<char> {
    "let "@ + name + " = "@ + value + ";\n"@
}

pub fn let_stmt(name: &str, value: &str) -> (r: String)
    ensures
        r@ == spec_let_stmt(name@, value@),
{
    let mut r = String::from_str("let ");
    r.append(name);
    r.append(" = ");
    r.append(value);
    r.append(";\n");
    r
}

pub open spec fn spec_match_open(op: Seq<char>) -> Seq<char> {
    "match "@ + op + " {\n"@
}

pub fn match_open(op: &str) -> (r: String)
    ensures
        r@ == spec_match_open(op@),
{
    let mut r = String::from_str("match ");
    r.append(op);
    r.append(" {\n");
    r
}

pub open spec fn spec_lower_arm_unit(name: Seq<char>, case: Seq<char>, block: Seq<char>) -> Seq<char> {
    name + "::"@ + case + " => {\nlet e = ();\n"@ + block + "\n}\n"@
}

pub fn lower_arm_unit(name: &str, case: &str, block: &str) -> (r: String)
    ensures
        r@ == spec_lower_arm_unit(name@, case@, block@),
{
    let mut r = String::from_str(name);
    r.append("::");
    r.append(case);
    r.append(" => {\nlet e = ();\n");
    r.append(block);
    r.append("\n}\n");
    r
}

pub open spec fn spec_lower_arm_payload(name: Seq<char>, case: Seq<char>, block: Seq<char>) -> Seq<char> {
    name + "::"@ + case + "(e) => "@ + block + ",\n"@
}

pub fn lower_arm_payload(name: &str, case: &str, block: &str) -> (r: String)
    ensures
        r@ == spec_lower_arm_payload(name@, case@, block@),
{
    let mut r = String::from_str(name);
    r.append("::");
    r.append(case);
    r.append("(e) => ");
    r.append(block);
    r.append(",\n");
    r
}

pub open spec fn spec_lift_arm(i: Seq<char>, name: Seq<char>, case: Seq<char>, payload: Seq<char>) -> Seq<char> {
    i + " => "@ + name + "::"@ + case + payload + ",\n"@
}

pub fn lift_arm(i: &str, name: &str, case: &str, payload: &str) -> (r: String)
    ensures
        r@ == spec_lift_arm(i@, name@, case@, payload@),
{
    let mut r = String::from_str(i);
    r.append(" => ");
    r.append(name);
    r.append("::");
    r.append(case);
    r.append(payload);
    r.append(",\n");
    r
}

pub open spec fn spec_parenthesized(s: Seq<char>) -> Seq<char> {
    "("@ + s + ")"@
}

pub fn parenthesized(s: &str) -> (r: String)
    ensures
        r@ == spec_parenthesized(s@),
{
    let mut r = String::from_str("(");
    r.append(s);
    r.append(")");
    r
}

pub open spec fn spec_lift_default(name: Seq<char>) -> Seq<char> {
    "_ => return Err(invalid_variant(\""@ + name + "\")),\n"@
}

pub fn lift_default(name: &str) -> (r: String)
    ensures
        r@ == spec_lift_default(name@),
{
    let mut r = String::from_str("_ => return Err(invalid_variant(\"");
    r.append(name);
    r.append("\")),\n");
    r
}

pub open spec fn spec_option_lower(operand: Seq<char>, some: Seq<char>, none: Seq<char>) -> Seq<char> {
    "match "@ + operand + " {\n                        Some(e) => "@ + some + ",\n                        None => {\nlet e = ();\n"@ + none + "\n},\n                    };"@
}

pub fn option_lower(operand: &str, some: &str, none: &str) -> (r: String)
    ensures
        r@ == spec_option_lower(operand@, some@, none@),
{
    let mut r = String::from_str("match ");
    r.append(operand);
    r.append(" {\n                        Some(e) => ");
    r.append(some);
    r.append(",\n                        None => {\nlet e = ();\n");
    r.append(none);
    r.append("\n},\n                    };");
    r
}

pub open spec fn spec_option_lift(operand: Seq<char>, some: Seq<char>) -> Seq<char> {
    "match "@ + operand + " {\n                        0 => None,\n                        1 => Some("@ + some + "),\n                        _ => return Err(invalid_variant(\"option\")),\n                    }"@
}

pub fn option_lift(operand: &str, some: &str) -> (r: String)
    ensures
        r@ == spec_option_lift(operand@, some@),
{
    let mut r = String::from_str("match ");
    r.append(operand);
    r.append(" {\n                        0 => None,\n                        1 => Some(");
    r.append(some);
    r.append("),\n                        _ => return Err(invalid_variant(\"option\")),\n                    }");
    r
}

pub open spec fn spec_expected_lower(operand: Seq<char>, ok: Seq<char>, err: Seq<char>) -> Seq<char> {
    "match "@ + operand + " {\n                        Ok(e) => { "@ + ok + " },\n                        Err(e) => { "@ + err + " },\n                    };"@
}

pub fn expected_lower(operand: &str, ok: &str, err: &str) -> (r: String)
    ensures
        r@ == spec_expected_lower(operand@, ok@, err@),
{
    let mut r = String::from_str("match ");
    r.append(operand);
    r.append(" {\n                        Ok(e) => { ");
    r.append(ok);
    r.append(" },\n                        Err(e) => { ");
    r.append(err);
    r.append(" },\n                    };");
    r
}

pub open spec fn spec_expected_lift(operand: Seq<char>, ok: Seq<char>, err: Seq<char>) -> Seq<char> {
    "match "@ + operand + " {\n                        0 => Ok("@ + ok + "),\n                        1 => Err("@ + err + "),\n                        _ => return Err(invalid_variant(\"expected\")),\n                    }"@
}

pub fn expected_lift(operand: &str, ok: &str, err: &str) -> (r: String)
    ensures
        r@ == spec_expected_lift(operand@, ok@, err@),
{
    let mut r = String::from_str("match ");
    r.append(operand);
    r.append(" {\n                        0 => Ok(");
    r.append(ok);
    r.append("),\n                        1 => Err(");
    r.append(err);
    r.append("),\n                        _ => return Err(invalid_variant(\"expected\")),\n                    }");
    r
}

pub open spec fn spec_enum_arm(i: Seq<char>, name: Seq<char>, case: Seq<char>) -> Seq<char> {
    i + " => "@ + name + "::"@ + case + ",\n"@
}

pub fn enum_arm(i: &str, name: &str, case: &str) -> (r: String)
    ensures
        r@ == spec_enum_arm(i@, name@, case@),
{
    let mut r = String::from_str(i);
    r.append(" => ");
    r.append(name);
    r.append("::");
    r.append(case);
    r.append(",\n");
    r
}

pub open spec fn spec_realloc_args_canon(align: Seq<char>, val: Seq<char>, size: Seq<char>) -> Seq<char> {
    "&mut store.as_store_mut(), 0, 0, "@ + align + ", ("@ + val + ".len() as i32) * "@ + size
}

pub fn realloc_args_canon(align: &str, val: &str, size: &str) -> (r: String)
    ensures
        r@ == spec_realloc_args_canon(align@, val@, size@),
{
    let mut r = String::from_str("&mut store.as_store_mut(), 0, 0, ");
    r.append(align);
    r.append(", (");
    r.append(val);
    r.append(".len() as i32) * ");
    r.append(size);
    r
}

pub open spec fn spec_realloc_args_string(val: Seq<char>) -> Seq<char> {
    "&mut store.as_store_mut(), 0, 0, 1, "@ + val + ".len() as i32"@
}

pub fn realloc_args_string(val: &str) -> (r: String)
    ensures
        r@ == spec_realloc_args_string(val@),
{
    let mut r = String::from_str("&mut store.as_store_mut(), 0, 0, 1, ");
    r.append(val);
    r.append(".len() as i32");
    r
}

pub open spec fn spec_realloc_args_list(align: Seq<char>, len: Seq<char>, size: Seq<char>) -> Seq<char> {
    "&mut store.as_store_mut(), 0, 0, "@ + align + ", "@ + len + " * "@ + size
}

pub fn realloc_args_list(align: &str, len: &str, size: &str) -> (r: String)
    ensures
        r@ == spec_realloc_args_list(align@, len@, size@),
{
    let mut r = String::from_str("&mut store.as_store_mut(), 0, 0, ");
    r.append(align);
    r.append(", ");
    r.append(len);
    r.append(" * ");
    r.append(size);
    r
}

pub open spec fn spec_free_args_list(base: Seq<char>, len: Seq<char>, size: Seq<char>, align: Seq<char>) -> Seq<char> {
    "&mut store.as_store_mut(), "@ + base + ", "@ + len + " * "@ + size + ", "@ + align
}

pub fn free_args_list(base: &str, len: &str, size: &str, align: &str) -> (r: String)
    ensures
        r@ == spec_free_args_list(base@, len@, size@, align@),
{
    let mut r = String::from_str("&mut store.as_store_mut(), ");
    r.append(base);
    r.append(", ");
    r.append(len);
    r.append(" * ");
    r.append(size);
    r.append(", ");
    r.append(align);
    r
}

pub open spec fn spec_malloc_args(align: Seq<char>, size: Seq<char>) -> Seq<char> {
    "store, 0, 0, "@ + align + ", "@ + size
}

pub fn malloc_args(align: &str, size: &str) -> (r: String)
    ensures
        r@ == spec_malloc_args(align@, size@),
{
    let mut r = String::from_str("store, 0, 0, ");
    r.append(align);
    r.append(", ");
    r.append(size);
    r
}

/// A call of a function of the guest.
pub open spec fn spec_intrinsic_call(name: Seq<char>, args: Seq<char>) -> Seq<char> {
    "func_"@ + name + ".call("@ + args + ")?;\n"@
}

/// A call of a function of the guest.
pub fn intrinsic_call(name: &str, args: &str) -> (r: String)
    ensures
        r@ == spec_intrinsic_call(name@, args@),
{
    let mut r = String::from_str("func_");
    r.append(name);
    r.append(".call(");
    r.append(args);
    r.append(")?;\n");
    r
}

pub open spec fn spec_store_many(mem: Seq<char>, ptr: Seq<char>, val: Seq<char>) -> Seq<char> {
    mem + ".store_many("@ + ptr + ", &"@ + val + ")?;\n"@
}

pub fn store_many(mem: &str, ptr: &str, val: &str) -> (r: String)
    ensures
        r@ == spec_store_many(mem@, ptr@, val@),
{
    let mut r = String::from_str(mem);
    r.append(".store_many(");
    r.append(ptr);
    r.append(", &");
    r.append(val);
    r.append(")?;\n");
    r
}

pub open spec fn spec_store_many_bytes(mem: Seq<char>, ptr: Seq<char>, val: Seq<char>) -> Seq<char> {
    mem + ".store_many("@ + ptr + ", "@ + val + ".as_bytes())?;\n"@
}

pub fn store_many_bytes(mem: &str, ptr: &str, val: &str) -> (r: String)
    ensures
        r@ == spec_store_many_bytes(mem@, ptr@, val@),
{
    let mut r = String::from_str(mem);
    r.append(".store_many(");
    r.append(ptr);
    r.append(", ");
    r.append(val);
    r.append(".as_bytes())?;\n");
    r
}

pub open spec fn spec_len_i32(val: Seq<char>) -> Seq<char> {
    val + ".len() as i32"@
}

pub fn len_i32(val: &str) -> (r: String)
    ensures
        r@ == spec_len_i32(val@),
{
    let mut r = String::from_str(val);
    r.append(".len() as i32");
    r
}

pub open spec fn spec_len_let(len: Seq<char>, vec: Seq<char>) -> Seq<char> {
    "let "@ + len + " = "@ + vec + ".len() as i32;\n"@
}

pub fn len_let(len: &str, vec: &str) -> (r: String)
    ensures
        r@ == spec_len_let(len@, vec@),
{
    let mut r = String::from_str("let ");
    r.append(len);
    r.append(" = ");
    r.append(vec);
    r.append(".len() as i32;\n");
    r
}

pub open spec fn spec_copy_slice(free: Seq<char>, tmp: Seq<char>, align: Seq<char>) -> Seq<char> {
    "\n                                copy_slice(\n                                    store,\n                                    _memory,\n                                    func_"@ + free + ",\n                                    ptr"@ + tmp + ", len"@ + tmp + ", "@ + align + "\n                                )?\n                            "@
}

pub fn copy_slice(free: &str, tmp: &str, align: &str) -> (r: String)
    ensures
        r@ == spec_copy_slice(free@, tmp@, align@),
{
    let mut r = String::from_str("\n                                copy_slice(\n                                    store,\n                                    _memory,\n                                    func_");
    r.append(free);
    r.append(",\n                                    ptr");
    r.append(tmp);
    r.append(", len");
    r.append(tmp);
    r.append(", ");
    r.append(align);
    r.append("\n                                )?\n                            ");
    r
}

pub open spec fn spec_bc_slice(tmp: Seq<char>) -> Seq<char> {
    "_bc.slice(ptr"@ + tmp + ", len"@ + tmp + ")?"@
}

pub fn bc_slice(tmp: &str) -> (r: String)
    ensures
        r@ == spec_bc_slice(tmp@),
{
    let mut r = String::from_str("_bc.slice(ptr");
    r.append(tmp);
    r.append(", len");
    r.append(tmp);
    r.append(")?");
    r
}

pub open spec fn spec_string_copy(tmp: Seq<char>, free: Seq<char>) -> Seq<char> {
    "\n                            let data"@ + tmp + " = copy_slice(\n                                store,\n                                _memory,\n                                func_"@ + free + ",\n                                ptr"@ + tmp + ", len"@ + tmp + ", 1,\n                            )?;\n                        "@
}

pub fn string_copy(tmp: &str, free: &str) -> (r: String)
    ensures
        r@ == spec_string_copy(tmp@, free@),
{
    let mut r = String::from_str("\n                            let data");
    r.append(tmp);
    r.append(" = copy_slice(\n                                store,\n                                _memory,\n                                func_");
    r.append(free);
    r.append(",\n                                ptr");
    r.append(tmp);
    r.append(", len");
    r.append(tmp);
    r.append(", 1,\n                            )?;\n                        ");
    r
}

pub open spec fn spec_string_from_utf8(tmp: Seq<char>) -> Seq<char> {
    "String::from_utf8(data"@ + tmp + ")\n                            .map_err(|_| wasmer::RuntimeError::new(\"invalid utf-8\"))?"@
}

pub fn string_from_utf8(tmp: &str) -> (r: String)
    ensures
        r@ == spec_string_from_utf8(tmp@),
{
    let mut r = String::from_str("String::from_utf8(data");
    r.append(tmp);
    r.append(")\n                            .map_err(|_| wasmer::RuntimeError::new(\"invalid utf-8\"))?");
    r
}

pub open spec fn spec_bc_slice_str(tmp: Seq<char>) -> Seq<char> {
    "_bc.slice_str(ptr"@ + tmp + ", len"@ + tmp + ")?"@
}

pub fn bc_slice_str(tmp: &str) -> (r: String)
    ensures
        r@ == spec_bc_slice_str(tmp@),
{
    let mut r = String::from_str("_bc.slice_str(ptr");
    r.append(tmp);
    r.append(", len");
    r.append(tmp);
    r.append(")?");
    r
}

pub open spec fn spec_for_each(vec: Seq<char>) -> Seq<char> {
    "for (i, e) in "@ + vec + ".into_iter().enumerate() {\n"@
}

pub fn for_each(vec: &str) -> (r: String)
    ensures
        r@ == spec_for_each(vec@),
{
    let mut r = String::from_str("for (i, e) in ");
    r.append(vec);
    r.append(".into_iter().enumerate() {\n");
    r
}

pub open spec fn spec_base_lower(result: Seq<char>, size: Seq<char>) -> Seq<char> {
    "let base = "@ + result + " + (i as i32) * "@ + size + ";\n"@
}

pub fn base_lower(result: &str, size: &str) -> (r: String)
    ensures
        r@ == spec_base_lower(result@, size@),
{
    let mut r = String::from_str("let base = ");
    r.append(result);
    r.append(" + (i as i32) * ");
    r.append(size);
    r.append(";\n");
    r
}

pub open spec fn spec_vec_let(result: Seq<char>, len: Seq<char>) -> Seq<char> {
    "let mut "@ + result + " = Vec::with_capacity("@ + len + " as usize);\n"@
}

pub fn vec_let(result: &str, len: &str) -> (r: String)
    ensures
        r@ == spec_vec_let(result@, len@),
{
    let mut r = String::from_str("let mut ");
    r.append(result);
    r.append(" = Vec::with_capacity(");
    r.append(len);
    r.append(" as usize);\n");
    r
}

pub open spec fn spec_lift_loop(len: Seq<char>, base: Seq<char>, size: Seq<char>, result: Seq<char>, body: Seq<char>) -> Seq<char> {
    "for i in 0.."@ + len + " {\n"@ + "let base = "@ + base + " + i *"@ + size + ";\n"@ + result + ".push("@ + body + ");\n"@ + "}\n"@
}

pub fn lift_loop(len: &str, base: &str, size: &str, result: &str, body: &str) -> (r: String)
    ensures
        r@ == spec_lift_loop(len@, base@, size@, result@, body@),
{
    let mut r = String::from_str("for i in 0..");
    r.append(len);
    r.append(" {\n");
    r.append("let base = ");
    r.append(base);
    r.append(" + i *");
    r.append(size);
    r.append(";\n");
    r.append(result);
    r.append(".push(");
    r.append(body);
    r.append(");\n");
    r.append("}\n");
    r
}

pub open spec fn spec_call_wasm_open(name: Seq<char>, method: Seq<char>) -> Seq<char> {
    "self.func_"@ + name + method
}

pub fn call_wasm_open(name: &str, method: &str) -> (r: String)
    ensures
        r@ == spec_call_wasm_open(name@, method@),
{
    let mut r = String::from_str("self.func_");
    r.append(name);
    r.append(method);
    r
}

pub open spec fn spec_call_arg(operand: Seq<char>) -> Seq<char> {
    operand + ", "@
}

pub fn call_arg(operand: &str) -> (r: String)
    ensures
        r@ == spec_call_arg(operand@),
{
    let mut r = String::from_str(operand);
    r.append(", ");
    r
}

pub open spec fn spec_host_call_open(name: Seq<char>) -> Seq<char> {
    "host."@ + name + "("@
}

pub fn host_call_open(name: &str) -> (r: String)
    ensures
        r@ == spec_host_call_open(name@),
{
    let mut r = String::from_str("host.");
    r.append(name);
    r.append("(");
    r
}

pub open spec fn spec_param_arg(i: Seq<char>) -> Seq<char> {
    "param"@ + i + ", "@
}

pub fn param_arg(i: &str) -> (r: String)
    ensures
        r@ == spec_param_arg(i@),
{
    let mut r = String::from_str("param");
    r.append(i);
    r.append(", ");
    r
}

pub open spec fn spec_param_let(i: Seq<char>, operand: Seq<char>) -> Seq<char> {
    "let param"@ + i + " = "@ + operand + ";\n"@
}

pub fn param_let(i: &str, operand: &str) -> (r: String)
    ensures
        r@ == spec_param_let(i@, operand@),
{
    let mut r = String::from_str("let param");
    r.append(i);
    r.append(" = ");
    r.append(operand);
    r.append(";\n");
    r
}

pub open spec fn spec_trace_field(name: Seq<char>, i: Seq<char>) -> Seq<char> {
    name + " = wit_bindgen_wasmer::tracing::field::debug(&param"@ + i + "),\n"@
}

pub fn trace_field(name: &str, i: &str) -> (r: String)
    ensures
        r@ == spec_trace_field(name@, i@),
{
    let mut r = String::from_str(name);
    r.append(" = wit_bindgen_wasmer::tracing::field::debug(&param");
    r.append(i);
    r.append("),\n");
    r
}

pub open spec fn spec_trace_result(name: Seq<char>) -> Seq<char> {
    name + " = wit_bindgen_wasmer::tracing::field::debug(&"@ + name + "),\n"@
}

pub fn trace_result(name: &str) -> (r: String)
    ensures
        r@ == spec_trace_result(name@),
{
    let mut r = String::from_str(name);
    r.append(" = wit_bindgen_wasmer::tracing::field::debug(&");
    r.append(name);
    r.append("),\n");
    r
}

pub open spec fn spec_to_trap(call: Seq<char>) -> Seq<char> {
    "match "@ + call + "{\n"@ + "Ok(val) => val,\n"@ + "Err(e) => return Err(host.error_to_trap(e)),\n"@ + "}"@
}

pub fn to_trap(call: &str) -> (r: String)
    ensures
        r@ == spec_to_trap(call@),
{
    let mut r = String::from_str("match ");
    r.append(call);
    r.append("{\n");
    r.append("Ok(val) => val,\n");
    r.append("Err(e) => return Err(host.error_to_trap(e)),\n");
    r.append("}");
    r
}

pub open spec fn spec_to_error(call: Seq<char>, err: Seq<char>) -> Seq<char> {
    "match "@ + call + "{\n"@ + "Ok(val) => Ok(val),\n"@ + "Err(e) => Err(host.error_to_"@ + err + "(e)?),\n"@ + "}"@
}

pub fn to_error(call: &str, err: &str) -> (r: String)
    ensures
        r@ == spec_to_error(call@, err@),
{
    let mut r = String::from_str("match ");
    r.append(call);
    r.append("{\n");
    r.append("Ok(val) => Ok(val),\n");
    r.append("Err(e) => Err(host.error_to_");
    r.append(err);
    r.append("(e)?),\n");
    r.append("}");
    r
}

pub open spec fn spec_return_one(op: Seq<char>) -> Seq<char> {
    "Ok("@ + op + ")\n"@
}

pub fn return_one(op: &str) -> (r: String)
    ensures
        r@ == spec_return_one(op@),
{
    let mut r = String::from_str("Ok(");
    r.append(op);
    r.append(")\n");
    r
}

pub open spec fn spec_return_many(ops: Seq<char>) -> Seq<char> {
    "Ok(("@ + ops + "))\n"@
}

pub fn return_many(ops: &str) -> (r: String)
    ensures
        r@ == spec_return_many(ops@),
{
    let mut r = String::from_str("Ok((");
    r.append(ops);
    r.append("))\n");
    r
}

pub open spec fn spec_load_stmt(tmp: Seq<char>, mem: Seq<char>, ty: Seq<char>, op: Seq<char>, offset: Seq<char>) -> Seq<char> {
    "let load"@ + tmp + " = "@ + mem + ".load::<"@ + ty + ">("@ + op + " + "@ + offset + ")?;\n"@
}

pub fn load_stmt(tmp: &str, mem: &str, ty: &str, op: &str, offset: &str) -> (r: String)
    ensures
        r@ == spec_load_stmt(tmp@, mem@, ty@, op@, offset@),
{
    let mut r = String::from_str("let load");
    r.append(tmp);
    r.append(" = ");
    r.append(mem);
    r.append(".load::<");
    r.append(ty);
    r.append(">(");
    r.append(op);
    r.append(" + ");
    r.append(offset);
    r.append(")?;\n");
    r
}

pub open spec fn spec_widened(s: Seq<char>) -> Seq<char> {
    "i32::from("@ + s + ")"@
}

pub fn widened(s: &str) -> (r: String)
    ensures
        r@ == spec_widened(s@),
{
    let mut r = String::from_str("i32::from(");
    r.append(s);
    r.append(")");
    r
}

pub open spec fn spec_store_stmt(mem: Seq<char>, addr: Seq<char>, offset: Seq<char>, method: Seq<char>, value: Seq<char>, extra: Seq<char>) -> Seq<char> {
    mem + ".store("@ + addr + " + "@ + offset + ", wit_bindgen_wasmer::rt::"@ + method + "("@ + value + ")"@ + extra + ")?;\n"@
}

pub fn store_stmt(mem: &str, addr: &str, offset: &str, method: &str, value: &str, extra: &str) -> (r: String)
    ensures
        r@ == spec_store_stmt(mem@, addr@, offset@, method@, value@, extra@),
{
    let mut r = String::from_str(mem);
    r.append(".store(");
    r.append(addr);
    r.append(" + ");
    r.append(offset);
    r.append(", wit_bindgen_wasmer::rt::");
    r.append(method);
    r.append("(");
    r.append(value);
    r.append(")");
    r.append(extra);
    r.append(")?;\n");
    r
}

pub open spec fn spec_block_stmts(src: Seq<char>) -> Seq<char> {
    "{\n"@ + src + "}"@
}

pub fn block_stmts(src: &str) -> (r: String)
    ensures
        r@ == spec_block_stmts(src@),
{
    let mut r = String::from_str("{\n");
    r.append(src);
    r.append("}");
    r
}

pub open spec fn spec_block_value(src: Seq<char>, expr: Seq<char>) -> Seq<char> {
    "{\n"@ + src + expr + "\n}"@
}

pub fn block_value(src: &str, expr: &str) -> (r: String)
    ensures
        r@ == spec_block_value(src@, expr@),
{
    let mut r = String::from_str("{\n");
    r.append(src);
    r.append(expr);
    r.append("\n}");
    r
}

pub open spec fn spec_tuple_one(op: Seq<char>) -> Seq<char> {
    "("@ + op + ",)"@
}

pub fn tuple_one(op: &str) -> (r: String)
    ensures
        r@ == spec_tuple_one(op@),
{
    let mut r = String::from_str("(");
    r.append(op);
    r.append(",)");
    r
}

pub open spec fn spec_field_bind(name: Seq<char>, arg: Seq<char>) -> Seq<char> {
    name + ":"@ + arg + ", "@
}

pub fn field_bind(name: &str, arg: &str) -> (r: String)
    ensures
        r@ == spec_field_bind(name@, arg@),
{
    let mut r = String::from_str(name);
    r.append(":");
    r.append(arg);
    r.append(", ");
    r
}

pub open spec fn spec_record_open(name: Seq<char>) -> Seq<char> {
    "let "@ + name + "{ "@
}

pub fn record_open(name: &str) -> (r: String)
    ensures
        r@ == spec_record_open(name@),
{
    let mut r = String::from_str("let ");
    r.append(name);
    r.append("{ ");
    r
}

pub open spec fn spec_record_close(operand: Seq<char>) -> Seq<char> {
    "} = "@ + operand + ";\n"@
}

pub fn record_close(operand: &str) -> (r: String)
    ensures
        r@ == spec_record_close(operand@),
{
    let mut r = String::from_str("} = ");
    r.append(operand);
    r.append(";\n");
    r
}

pub open spec fn spec_tuple_close(operand: Seq<char>) -> Seq<char> {
    ") = "@ + operand + ";\n"@
}

pub fn tuple_close(operand: &str) -> (r: String)
    ensures
        r@ == spec_tuple_close(operand@),
{
    let mut r = String::from_str(") = ");
    r.append(operand);
    r.append(";\n");
    r
}

pub open spec fn spec_item_comma(s: Seq<char>) -> Seq<char> {
    s + ","@
}

pub fn item_comma(s: &str) -> (r: String)
    ensures
        r@ == spec_item_comma(s@),
{
    let mut r = String::from_str(s);
    r.append(",");
    r
}

pub open spec fn spec_item_comma_space(s: Seq<char>) -> Seq<char> {
    s + ", "@
}

pub fn item_comma_space(s: &str) -> (r: String)
    ensures
        r@ == spec_item_comma_space(s@),
{
    let mut r = String::from_str(s);
    r.append(", ");
    r
}

pub open spec fn spec_flags_open(name: Seq<char>, repr: Seq<char>) -> Seq<char> {
    "pub struct "@ + name + ": "@ + repr + " {"@
}

pub fn flags_open(name: &str, repr: &str) -> (r: String)
    ensures
        r@ == spec_flags_open(name@, repr@),
{
    let mut r = String::from_str("pub struct ");
    r.append(name);
    r.append(": ");
    r.append(repr);
    r.append(" {");
    r
}

pub open spec fn spec_flags_const(name: Seq<char>, i: Seq<char>) -> Seq<char> {
    "const "@ + name + " = 1 << "@ + i + ";\n"@
}

pub fn flags_const(name: &str, i: &str) -> (r: String)
    ensures
        r@ == spec_flags_const(name@, i@),
{
    let mut r = String::from_str("const ");
    r.append(name);
    r.append(" = 1 << ");
    r.append(i);
    r.append(";\n");
    r
}

pub open spec fn spec_flags_display(name: Seq<char>) -> Seq<char> {
    "impl core::fmt::Display for "@ + name + "{\nfn fmt(&self, f: &mut core::fmt::Formatter<'_>) -> core::fmt::Result {\n"@ + "f.write_str(\""@ + name + "(\")?;\n"@ + "core::fmt::Debug::fmt(self, f)?;\n"@ + "f.write_str(\" (0x\")?;\n"@ + "core::fmt::LowerHex::fmt(&self.bits, f)?;\n"@ + "f.write_str(\"))\")?;\n"@ + "Ok(())"@ + "}\n"@ + "}\n\n"@
}

pub fn flags_display(name: &str) -> (r: String)
    ensures
        r@ == spec_flags_display(name@),
{
    let mut r = String::from_str("impl core::fmt::Display for ");
    r.append(name);
    r.append("{\nfn fmt(&self, f: &mut core::fmt::Formatter<'_>) -> core::fmt::Result {\n");
    r.append("f.write_str(\"");
    r.append(name);
    r.append("(\")?;\n");
    r.append("core::fmt::Debug::fmt(self, f)?;\n");
    r.append("f.write_str(\" (0x\")?;\n");
    r.append("core::fmt::LowerHex::fmt(&self.bits, f)?;\n");
    r.append("f.write_str(\"))\")?;\n");
    r.append("Ok(())");
    r.append("}\n");
    r.append("}\n\n");
    r
}

pub open spec fn spec_resource_struct(name: Seq<char>) -> Seq<char> {
    "#[derive(Debug)]\n"@ + "pub struct "@ + name + "(wit_bindgen_wasmer::rt::ResourceIndex);\n"@
}

pub fn resource_struct(name: &str) -> (r: String)
    ensures
        r@ == spec_resource_struct(name@),
{
    let mut r = String::from_str("#[derive(Debug)]\n");
    r.append("pub struct ");
    r.append(name);
    r.append("(wit_bindgen_wasmer::rt::ResourceIndex);\n");
    r
}

pub open spec fn spec_endian_field(field: Seq<char>, method: Seq<char>) -> Seq<char> {
    field + ": self."@ + field + "."@ + method + "(),\n"@
}

pub fn endian_field(field: &str, method: &str) -> (r: String)
    ensures
        r@ == spec_endian_field(field@, method@),
{
    let mut r = String::from_str(field);
    r.append(": self.");
    r.append(field);
    r.append(".");
    r.append(method);
    r.append("(),\n");
    r
}

pub open spec fn spec_endian_fn(method: Seq<char>, fields: Seq<char>) -> Seq<char> {
    "fn "@ + method + "(self) -> Self {\n"@ + "Self {\n"@ + fields + "}\n"@ + "}\n"@
}

pub fn endian_fn(method: &str, fields: &str) -> (r: String)
    ensures
        r@ == spec_endian_fn(method@, fields@),
{
    let mut r = String::from_str("fn ");
    r.append(method);
    r.append("(self) -> Self {\n");
    r.append("Self {\n");
    r.append(fields);
    r.append("}\n");
    r.append("}\n");
    r
}

pub open spec fn spec_endian_impl(name: Seq<char>, into: Seq<char>, from: Seq<char>) -> Seq<char> {
    "impl wit_bindgen_wasmer::Endian for "@ + name + " {\n"@ + into + from + "}\n"@ + "unsafe impl wit_bindgen_wasmer::AllBytesValid for "@ + name + " {}\n"@
}

pub fn endian_impl(name: &str, into: &str, from: &str) -> (r: String)
    ensures
        r@ == spec_endian_impl(name@, into@, from@),
{
    let mut r = String::from_str("impl wit_bindgen_wasmer::Endian for ");
    r.append(name);
    r.append(" {\n");
    r.append(into);
    r.append(from);
    r.append("}\n");
    r.append("unsafe impl wit_bindgen_wasmer::AllBytesValid for ");
    r.append(name);
    r.append(" {}\n");
    r
}

pub open spec fn spec_closure_param(i: Seq<char>, ty: Seq<char>) -> Seq<char> {
    ","@ + "arg"@ + i + ":"@ + ty
}

pub fn closure_param(i: &str, ty: &str) -> (r: String)
    ensures
        r@ == spec_closure_param(i@, ty@),
{
    let mut r = String::from_str(",");
    r.append("arg");
    r.append(i);
    r.append(":");
    r.append(ty);
    r
}

pub open spec fn spec_closure_open(params: Seq<char>, result: Seq<char>) -> Seq<char> {
    "move |mut store: wasmer::FunctionEnvMut<EnvWrapper<T>>"@ + params + "| -> Result<"@ + result + ", wasmer::RuntimeError> {\n"@
}

pub fn closure_open(params: &str, result: &str) -> (r: String)
    ensures
        r@ == spec_closure_open(params@, result@),
{
    let mut r = String::from_str("move |mut store: wasmer::FunctionEnvMut<EnvWrapper<T>>");
    r.append(params);
    r.append("| -> Result<");
    r.append(result);
    r.append(", wasmer::RuntimeError> {\n");
    r
}

pub open spec fn spec_self_func(name: Seq<char>) -> Seq<char> {
    "let func_"@ + name + " = &self.func_"@ + name + ";\n"@
}

pub fn self_func(name: &str) -> (r: String)
    ensures
        r@ == spec_self_func(name@),
{
    let mut r = String::from_str("let func_");
    r.append(name);
    r.append(" = &self.func_");
    r.append(name);
    r.append(";\n");
    r
}

pub open spec fn spec_get_typed_function(name: Seq<char>) -> Seq<char> {
    "_instance.exports.get_typed_function(store, \""@ + name + "\")?"@
}

pub fn get_typed_function(name: &str) -> (r: String)
    ensures
        r@ == spec_get_typed_function(name@),
{
    let mut r = String::from_str("_instance.exports.get_typed_function(store, \"");
    r.append(name);
    r.append("\")?");
    r
}

pub open spec fn spec_typed_function(cvt: Seq<char>) -> Seq<char> {
    "wasmer::TypedFunction<"@ + cvt + ">"@
}

pub fn typed_function(cvt: &str) -> (r: String)
    ensures
        r@ == spec_typed_function(cvt@),
{
    let mut r = String::from_str("wasmer::TypedFunction<");
    r.append(cvt);
    r.append(">");
    r
}

pub open spec fn spec_func_field(name: Seq<char>) -> Seq<char> {
    "func_"@ + name
}

pub fn func_field(name: &str) -> (r: String)
    ensures
        r@ == spec_func_field(name@),
{
    let mut r = String::from_str("func_");
    r.append(name);
    r
}

pub open spec fn spec_error_to_method(snake: Seq<char>, camel: Seq<char>) -> Seq<char> {
    "fn error_to_"@ + snake + "(&mut self, err: Self::Error) -> Result<"@ + camel + ", wasmer::RuntimeError>;\n"@
}

pub fn error_to_method(snake: &str, camel: &str) -> (r: String)
    ensures
        r@ == spec_error_to_method(snake@, camel@),
{
    let mut r = String::from_str("fn error_to_");
    r.append(snake);
    r.append("(&mut self, err: Self::Error) -> Result<");
    r.append(camel);
    r.append(", wasmer::RuntimeError>;\n");
    r
}

pub open spec fn spec_drop_method(snake: Seq<char>, camel: Seq<char>) -> Seq<char> {
    "fn drop_"@ + snake + "(&mut self, state: Self::"@ + camel + ") {\n                        drop(state);\n                    }\n"@
}

pub fn drop_method(snake: &str, camel: &str) -> (r: String)
    ensures
        r@ == spec_drop_method(snake@, camel@),
{
    let mut r = String::from_str("fn drop_");
    r.append(snake);
    r.append("(&mut self, state: Self::");
    r.append(camel);
    r.append(") {\n                        drop(state);\n                    }\n");
    r
}

pub open spec fn spec_lazy_field(name: Seq<char>, cvt: Seq<char>) -> Seq<char> {
    "func_"@ + name + ": wasmer::TypedFunction<"@ + cvt + ">,\n"@
}

pub fn lazy_field(name: &str, cvt: &str) -> (r: String)
    ensures
        r@ == spec_lazy_field(name@, cvt@),
{
    let mut r = String::from_str("func_");
    r.append(name);
    r.append(": wasmer::TypedFunction<");
    r.append(cvt);
    r.append(">,\n");
    r
}

pub open spec fn spec_export_insert(name: Seq<char>, closure: Seq<char>) -> Seq<char> {
    "exports.insert(\n                        \""@ + name + "\",\n                        wasmer::Function::new_native(\n                            &mut store,\n                            &env,\n                            "@ + closure + "\n                    ));\n"@
}

pub fn export_insert(name: &str, closure: &str) -> (r: String)
    ensures
        r@ == spec_export_insert(name@, closure@),
{
    let mut r = String::from_str("exports.insert(\n                        \"");
    r.append(name);
    r.append("\",\n                        wasmer::Function::new_native(\n                            &mut store,\n                            &env,\n                            ");
    r.append(closure);
    r.append("\n                    ));\n");
    r
}

pub open spec fn spec_register_namespace(module: Seq<char>) -> Seq<char> {
    "imports.register_namespace(\""@ + module + "\", exports);\n"@
}

pub fn register_namespace(module: &str) -> (r: String)
    ensures
        r@ == spec_register_namespace(module@),
{
    let mut r = String::from_str("imports.register_namespace(\"");
    r.append(module);
    r.append("\", exports);\n");
    r
}

pub open spec fn spec_resource_drop_import(name: Seq<char>, snake: Seq<char>) -> Seq<char> {
    "canonical_abi.insert(\n                            \"resource_drop_"@ + name + "\",\n                            wasmer::Function::new_native(\n                                &mut store,\n                                &env,\n                                move |mut store: wasmer::FunctionEnvMut<EnvWrapper<T>>, handle: u32| -> Result<(), wasmer::RuntimeError> {\n                                    let data_mut = store.data_mut();\n                                    let mut tables = data_mut.tables.borrow_mut();\n                                    let handle = tables\n                                        ."@ + snake + "_table\n                                        .remove(handle)\n                                        .map_err(|e| {\n                                            wasmer::RuntimeError::new(format!(\"failed to remove handle: {}\", e))\n                                        })?;\n                                    let host = &mut data_mut.data;\n                                    host.drop_"@ + snake + "(handle);\n                                    Ok(())\n                                }\n                            )\n                        );\n"@
}

pub fn resource_drop_import(name: &str, snake: &str) -> (r: String)
    ensures
        r@ == spec_resource_drop_import(name@, snake@),
{
    let mut r = String::from_str("canonical_abi.insert(\n                            \"resource_drop_");
    r.append(name);
    r.append("\",\n                            wasmer::Function::new_native(\n                                &mut store,\n                                &env,\n                                move |mut store: wasmer::FunctionEnvMut<EnvWrapper<T>>, handle: u32| -> Result<(), wasmer::RuntimeError> {\n                                    let data_mut = store.data_mut();\n                                    let mut tables = data_mut.tables.borrow_mut();\n                                    let handle = tables\n                                        .");
    r.append(snake);
    r.append("_table\n                                        .remove(handle)\n                                        .map_err(|e| {\n                                            wasmer::RuntimeError::new(format!(\"failed to remove handle: {}\", e))\n                                        })?;\n                                    let host = &mut data_mut.data;\n                                    host.drop_");
    r.append(snake);
    r.append("(handle);\n                                    Ok(())\n                                }\n                            )\n                        );\n");
    r
}

pub open spec fn spec_lazy_get(name: Seq<char>) -> Seq<char> {
    "let func_"@ + name + " = _instance\n                        .exports\n                        .get_typed_function(\n                            &_store.as_store_ref(),\n                            \""@ + name + "\",\n                        )\n                        .unwrap()\n                        .clone();\n"@
}

pub fn lazy_get(name: &str) -> (r: String)
    ensures
        r@ == spec_lazy_get(name@),
{
    let mut r = String::from_str("let func_");
    r.append(name);
    r.append(" = _instance\n                        .exports\n                        .get_typed_function(\n                            &_store.as_store_ref(),\n                            \"");
    r.append(name);
    r.append("\",\n                        )\n                        .unwrap()\n                        .clone();\n");
    r
}

pub open spec fn spec_func_comma(name: Seq<char>) -> Seq<char> {
    "func_"@ + name + ",\n"@
}

pub fn func_comma(name: &str) -> (r: String)
    ensures
        r@ == spec_func_comma(name@),
{
    let mut r = String::from_str("func_");
    r.append(name);
    r.append(",\n");
    r
}

pub open spec fn spec_slab_fields(idx: Seq<char>) -> Seq<char> {
    "\n                        index_slab"@ + idx + ": wit_bindgen_wasmer::rt::IndexSlab,\n                        resource_slab"@ + idx + ": wit_bindgen_wasmer::rt::ResourceSlab,\n                        dtor"@ + idx + ": OnceCell<wasmer::TypedFunction<i32, ()>>,\n                    "@
}

pub fn slab_fields(idx: &str) -> (r: String)
    ensures
        r@ == spec_slab_fields(idx@),
{
    let mut r = String::from_str("\n                        index_slab");
    r.append(idx);
    r.append(": wit_bindgen_wasmer::rt::IndexSlab,\n                        resource_slab");
    r.append(idx);
    r.append(": wit_bindgen_wasmer::rt::ResourceSlab,\n                        dtor");
    r.append(idx);
    r.append(": OnceCell<wasmer::TypedFunction<i32, ()>>,\n                    ");
    r
}

pub open spec fn spec_env_field(name: Seq<char>) -> Seq<char> {
    "env: wasmer::FunctionEnv<"@ + name + "Data>,\n"@
}

pub fn env_field(name: &str) -> (r: String)
    ensures
        r@ == spec_env_field(name@),
{
    let mut r = String::from_str("env: wasmer::FunctionEnv<");
    r.append(name);
    r.append("Data>,\n");
    r
}

pub open spec fn spec_impl_open(name: Seq<char>) -> Seq<char> {
    "impl "@ + name + " {\n"@
}

pub fn impl_open(name: &str) -> (r: String)
    ensures
        r@ == spec_impl_open(name@),
{
    let mut r = String::from_str("impl ");
    r.append(name);
    r.append(" {\n");
    r
}

pub open spec fn spec_exports_add_open(name: Seq<char>) -> Seq<char> {
    "\n                    /// Adds any intrinsics, if necessary for this exported wasm\n                    /// functionality to the `ImportObject` provided.\n                    ///\n                    /// This function returns the `"@ + name + "Data` which needs to be\n                    /// passed through to `"@ + name + "::new`.\n                    fn add_to_imports(\n                        store: &mut wasmer::StoreMut<'_>,\n                        imports: &mut wasmer::Imports,\n                    ) -> wasmer::FunctionEnv<"@ + name + "Data> {\n                "@
}

pub fn exports_add_open(name: &str) -> (r: String)
    ensures
        r@ == spec_exports_add_open(name@),
{
    let mut r = String::from_str("\n                    /// Adds any intrinsics, if necessary for this exported wasm\n                    /// functionality to the `ImportObject` provided.\n                    ///\n                    /// This function returns the `");
    r.append(name);
    r.append("Data` which needs to be\n                    /// passed through to `");
    r.append(name);
    r.append("::new`.\n                    fn add_to_imports(\n                        store: &mut wasmer::StoreMut<'_>,\n                        imports: &mut wasmer::Imports,\n                    ) -> wasmer::FunctionEnv<");
    r.append(name);
    r.append("Data> {\n                ");
    r
}

pub open spec fn spec_resource_functions(name: Seq<char>, resource: Seq<char>, idx: Seq<char>) -> Seq<char> {
    "\n                        canonical_abi.insert(\n                            \"resource_drop_"@ + resource + "\",\n                            wasmer::Function::new_native(\n                                store,\n                                &env,\n                                move |mut store: wasmer::FunctionEnvMut<"@ + name + "Data>, idx: u32| -> Result<(), wasmer::RuntimeError> {\n                                    let resource_idx = store.data_mut().index_slab"@ + idx + ".remove(idx)?;\n                                    let wasm = match store.data_mut().resource_slab"@ + idx + ".drop(resource_idx) {\n                                        Some(wasm) => wasm,\n                                        None => return Ok(()),\n                                    };\n                                    let dtor = store.data_mut().dtor"@ + idx + ".get().unwrap().clone();\n                                    dtor.call(&mut store, wasm)?;\n                                    Ok(())\n                                },\n                            )\n                        );\n                        canonical_abi.insert(\n                            \"resource_clone_"@ + resource + "\",\n                            wasmer::Function::new_native(\n                                store,\n                                &env,\n                                move |mut store: wasmer::FunctionEnvMut<"@ + name + "Data>, idx: u32| -> Result<u32, wasmer::RuntimeError>  {\n                                    let state = &mut *store.data_mut();\n                                    let resource_idx = state.index_slab"@ + idx + ".get(idx)?;\n                                    state.resource_slab"@ + idx + ".clone(resource_idx)?;\n                                    Ok(state.index_slab"@ + idx + ".insert(resource_idx))\n                                },\n                            )\n                        );\n                        canonical_abi.insert(\n                            \"resource_get_"@ + resource + "\",\n                            wasmer::Function::new_native(\n                                store,\n                                &env,\n                                move |mut store: wasmer::FunctionEnvMut<"@ + name + "Data>, idx: u32| -> Result<i32, wasmer::RuntimeError>  {\n                                    let state = &mut *store.data_mut();\n                                    let resource_idx = state.index_slab"@ + idx + ".get(idx)?;\n                                    Ok(state.resource_slab"@ + idx + ".get(resource_idx))\n                                },\n                            )\n                        );\n                        canonical_abi.insert(\n                            \"resource_new_"@ + resource + "\",\n                            wasmer::Function::new_native(\n                                store,\n                                &env,\n                                move |mut store: wasmer::FunctionEnvMut<"@ + name + "Data>, val: i32| -> Result<u32, wasmer::RuntimeError>  {\n                                    let state = &mut *store.data_mut();\n                                    let resource_idx = state.resource_slab"@ + idx + ".insert(val);\n                                    Ok(state.index_slab"@ + idx + ".insert(resource_idx))\n                                },\n                            )\n                        );\n                    "@
}

pub fn resource_functions(name: &str, resource: &str, idx: &str) -> (r: String)
    ensures
        r@ == spec_resource_functions(name@, resource@, idx@),
{
    let mut r = String::from_str("\n                        canonical_abi.insert(\n                            \"resource_drop_");
    r.append(resource);
    r.append("\",\n                            wasmer::Function::new_native(\n                                store,\n                                &env,\n                                move |mut store: wasmer::FunctionEnvMut<");
    r.append(name);
    r.append("Data>, idx: u32| -> Result<(), wasmer::RuntimeError> {\n                                    let resource_idx = store.data_mut().index_slab");
    r.append(idx);
    r.append(".remove(idx)?;\n                                    let wasm = match store.data_mut().resource_slab");
    r.append(idx);
    r.append(".drop(resource_idx) {\n                                        Some(wasm) => wasm,\n                                        None => return Ok(()),\n                                    };\n                                    let dtor = store.data_mut().dtor");
    r.append(idx);
    r.append(".get().unwrap().clone();\n                                    dtor.call(&mut store, wasm)?;\n                                    Ok(())\n                                },\n                            )\n                        );\n                        canonical_abi.insert(\n                            \"resource_clone_");
    r.append(resource);
    r.append("\",\n                            wasmer::Function::new_native(\n                                store,\n                                &env,\n                                move |mut store: wasmer::FunctionEnvMut<");
    r.append(name);
    r.append("Data>, idx: u32| -> Result<u32, wasmer::RuntimeError>  {\n                                    let state = &mut *store.data_mut();\n                                    let resource_idx = state.index_slab");
    r.append(idx);
    r.append(".get(idx)?;\n                                    state.resource_slab");
    r.append(idx);
    r.append(".clone(resource_idx)?;\n                                    Ok(state.index_slab");
    r.append(idx);
    r.append(".insert(resource_idx))\n                                },\n                            )\n                        );\n                        canonical_abi.insert(\n                            \"resource_get_");
    r.append(resource);
    r.append("\",\n                            wasmer::Function::new_native(\n                                store,\n                                &env,\n                                move |mut store: wasmer::FunctionEnvMut<");
    r.append(name);
    r.append("Data>, idx: u32| -> Result<i32, wasmer::RuntimeError>  {\n                                    let state = &mut *store.data_mut();\n                                    let resource_idx = state.index_slab");
    r.append(idx);
    r.append(".get(idx)?;\n                                    Ok(state.resource_slab");
    r.append(idx);
    r.append(".get(resource_idx))\n                                },\n                            )\n                        );\n                        canonical_abi.insert(\n                            \"resource_new_");
    r.append(resource);
    r.append("\",\n                            wasmer::Function::new_native(\n                                store,\n                                &env,\n                                move |mut store: wasmer::FunctionEnvMut<");
    r.append(name);
    r.append("Data>, val: i32| -> Result<u32, wasmer::RuntimeError>  {\n                                    let state = &mut *store.data_mut();\n                                    let resource_idx = state.resource_slab");
    r.append(idx);
    r.append(".insert(val);\n                                    Ok(state.index_slab");
    r.append(idx);
    r.append(".insert(resource_idx))\n                                },\n                            )\n                        );\n                    ");
    r
}

pub open spec fn spec_instantiate_open() -> Seq<char> {
    "\n                    /// Instantiates the provided `module` using the specified\n                    /// parameters, wrapping up the result in a structure that\n                    /// translates between wasm and the host.\n                    ///\n                    /// The `imports` provided will have intrinsics added to it\n                    /// automatically, so it's not necessary to call\n                    /// `add_to_imports` beforehand. This function will\n                    /// instantiate the `module` otherwise using `imports`, and\n                    /// both an instance of this structure and the underlying\n                    /// `wasmer::Instance` will be returned.\n                    pub fn instantiate(\n                        store: &mut wasmer::StoreMut<'_>,\n                        module: &wasmer::Module,\n                        imports: &mut wasmer::Imports,\n                    ) -> anyhow::Result<(Self, wasmer::Instance)> {\n                        let env = Self::add_to_imports(\n                            &mut store.as_store_mut().as_store_mut(),\n                            imports,\n                        );\n                        let instance = wasmer::Instance::new(\n                            &mut store.as_store_mut(),\n                            module,\n                            &*imports,\n                        )?;\n                        "@
}

pub fn instantiate_open() -> (r: String)
    ensures
        r@ == spec_instantiate_open(),
{
    let mut r = String::from_str("\n                    /// Instantiates the provided `module` using the specified\n                    /// parameters, wrapping up the result in a structure that\n                    /// translates between wasm and the host.\n                    ///\n                    /// The `imports` provided will have intrinsics added to it\n                    /// automatically, so it's not necessary to call\n                    /// `add_to_imports` beforehand. This function will\n                    /// instantiate the `module` otherwise using `imports`, and\n                    /// both an instance of this structure and the underlying\n                    /// `wasmer::Instance` will be returned.\n                    pub fn instantiate(\n                        store: &mut wasmer::StoreMut<'_>,\n                        module: &wasmer::Module,\n                        imports: &mut wasmer::Imports,\n                    ) -> anyhow::Result<(Self, wasmer::Instance)> {\n                        let env = Self::add_to_imports(\n                            &mut store.as_store_mut().as_store_mut(),\n                            imports,\n                        );\n                        let instance = wasmer::Instance::new(\n                            &mut store.as_store_mut(),\n                            module,\n                            &*imports,\n                        )?;\n                        ");
    r
}

pub open spec fn spec_dtor_get(idx: Seq<char>, name: Seq<char>) -> Seq<char> {
    "let dtor"@ + idx + " = instance\n                                .exports\n                                .get_typed_function(\n                                    store,\n                                    \"canonical_abi_drop_"@ + name + "\",\n                                )?\n                                .clone();\n                                "@
}

pub fn dtor_get(idx: &str, name: &str) -> (r: String)
    ensures
        r@ == spec_dtor_get(idx@, name@),
{
    let mut r = String::from_str("let dtor");
    r.append(idx);
    r.append(" = instance\n                                .exports\n                                .get_typed_function(\n                                    store,\n                                    \"canonical_abi_drop_");
    r.append(name);
    r.append("\",\n                                )?\n                                .clone();\n                                ");
    r
}

pub open spec fn spec_dtor_set(idx: Seq<char>, name: Seq<char>) -> Seq<char> {
    "env\n                                .as_mut(store)\n                                .dtor"@ + idx + "\n                                .set(dtor"@ + idx + ")\n                                .map_err(|_e| anyhow::anyhow!(\"Couldn't set canonical_abi_drop_"@ + name + "\"))?;\n                                "@
}

pub fn dtor_set(idx: &str, name: &str) -> (r: String)
    ensures
        r@ == spec_dtor_set(idx@, name@),
{
    let mut r = String::from_str("env\n                                .as_mut(store)\n                                .dtor");
    r.append(idx);
    r.append("\n                                .set(dtor");
    r.append(idx);
    r.append(")\n                                .map_err(|_e| anyhow::anyhow!(\"Couldn't set canonical_abi_drop_");
    r.append(name);
    r.append("\"))?;\n                                ");
    r
}

pub open spec fn spec_instantiate_close() -> Seq<char> {
    "\n                        Ok((Self::new(store, &instance, env)?, instance))\n                    }\n                "@
}

pub fn instantiate_close() -> (r: String)
    ensures
        r@ == spec_instantiate_close(),
{
    let mut r = String::from_str("\n                        Ok((Self::new(store, &instance, env)?, instance))\n                    }\n                ");
    r
}

pub open spec fn spec_new_open(name: Seq<char>) -> Seq<char> {
    "\n                    /// Low-level creation wrapper for wrapping up the exports\n                    /// of the `instance` provided in this structure of wasm\n                    /// exports.\n                    ///\n                    /// This function will extract exports from the `instance`\n                    /// and wrap them all up in the returned structure which can\n                    /// be used to interact with the wasm module.\n                    pub fn new(\n                        store: &mut wasmer::StoreMut<'_>,\n                        _instance: &wasmer::Instance,\n                        env: wasmer::FunctionEnv<"@ + name + "Data>,\n                    ) -> Result<Self, wasmer::ExportError> {\n                "@
}

pub fn new_open(name: &str) -> (r: String)
    ensures
        r@ == spec_new_open(name@),
{
    let mut r = String::from_str("\n                    /// Low-level creation wrapper for wrapping up the exports\n                    /// of the `instance` provided in this structure of wasm\n                    /// exports.\n                    ///\n                    /// This function will extract exports from the `instance`\n                    /// and wrap them all up in the returned structure which can\n                    /// be used to interact with the wasm module.\n                    pub fn new(\n                        store: &mut wasmer::StoreMut<'_>,\n                        _instance: &wasmer::Instance,\n                        env: wasmer::FunctionEnv<");
    r.append(name);
    r.append("Data>,\n                    ) -> Result<Self, wasmer::ExportError> {\n                ");
    r
}

pub open spec fn spec_drop_resource(name_snake: Seq<char>, name_camel: Seq<char>, idx: Seq<char>) -> Seq<char> {
    "\n                        /// Drops the host-owned handle to the resource\n                        /// specified.\n                        ///\n                        /// Note that this may execute the WebAssembly-defined\n                        /// destructor for this type. This also may not run\n                        /// the destructor if there are still other references\n                        /// to this type.\n                        pub fn drop_"@ + name_snake + "(\n                            &self,\n                            store: &mut wasmer::Store,\n                            val: "@ + name_camel + ",\n                        ) -> Result<(), wasmer::RuntimeError> {\n                            let state = self.env.as_mut(store);\n                            let wasm = match state.resource_slab"@ + idx + ".drop(val.0) {\n                                Some(val) => val,\n                                None => return Ok(()),\n                            };\n                            let dtor"@ + idx + " = state.dtor"@ + idx + ".get().unwrap().clone();\n                            dtor"@ + idx + ".call(store, wasm)?;\n                            Ok(())\n                        }\n                    "@
}

pub fn drop_resource(name_snake: &str, name_camel: &str, idx: &str) -> (r: String)
    ensures
        r@ == spec_drop_resource(name_snake@, name_camel@, idx@),
{
    let mut r = String::from_str("\n                        /// Drops the host-owned handle to the resource\n                        /// specified.\n                        ///\n                        /// Note that this may execute the WebAssembly-defined\n                        /// destructor for this type. This also may not run\n                        /// the destructor if there are still other references\n                        /// to this type.\n                        pub fn drop_");
    r.append(name_snake);
    r.append("(\n                            &self,\n                            store: &mut wasmer::Store,\n                            val: ");
    r.append(name_camel);
    r.append(",\n                        ) -> Result<(), wasmer::RuntimeError> {\n                            let state = self.env.as_mut(store);\n                            let wasm = match state.resource_slab");
    r.append(idx);
    r.append(".drop(val.0) {\n                                Some(val) => val,\n                                None => return Ok(()),\n                            };\n                            let dtor");
    r.append(idx);
    r.append(" = state.dtor");
    r.append(idx);
    r.append(".get().unwrap().clone();\n                            dtor");
    r.append(idx);
    r.append(".call(store, wasm)?;\n                            Ok(())\n                        }\n                    ");
    r
}

pub open spec fn spec_trait_open(asyncness: Seq<char>, name: Seq<char>) -> Seq<char> {
    asyncness + "pub trait "@ + name + ": Sized + Send + Sync + 'static"@ + "{\n"@
}

pub fn trait_open(asyncness: &str, name: &str) -> (r: String)
    ensures
        r@ == spec_trait_open(asyncness@, name@),
{
    let mut r = String::from_str(asyncness);
    r.append("pub trait ");
    r.append(name);
    r.append(": Sized + Send + Sync + 'static");
    r.append("{\n");
    r
}

pub open spec fn spec_handle_type(camel: Seq<char>, bounds: Seq<char>) -> Seq<char> {
    "type "@ + camel + ": std::fmt::Debug"@ + bounds + ";\n"@
}

pub fn handle_type(camel: &str, bounds: &str) -> (r: String)
    ensures
        r@ == spec_handle_type(camel@, bounds@),
{
    let mut r = String::from_str("type ");
    r.append(camel);
    r.append(": std::fmt::Debug");
    r.append(bounds);
    r.append(";\n");
    r
}

pub open spec fn spec_signature_item(signature: Seq<char>) -> Seq<char> {
    signature + ";\n\n"@
}

pub fn signature_item(signature: &str) -> (r: String)
    ensures
        r@ == spec_signature_item(signature@),
{
    let mut r = String::from_str(signature);
    r.append(";\n\n");
    r
}

pub open spec fn spec_tables_open(name: Seq<char>) -> Seq<char> {
    "\npub struct "@ + name + "Tables<T: "@ + name + "> {\n"@
}

pub fn tables_open(name: &str) -> (r: String)
    ensures
        r@ == spec_tables_open(name@),
{
    let mut r = String::from_str("\npub struct ");
    r.append(name);
    r.append("Tables<T: ");
    r.append(name);
    r.append("> {\n");
    r
}

pub open spec fn spec_table_field(snake: Seq<char>, camel: Seq<char>) -> Seq<char> {
    "pub(crate) "@ + snake + "_table: wit_bindgen_wasmer::Table<T::"@ + camel + ">,\n"@
}

pub fn table_field(snake: &str, camel: &str) -> (r: String)
    ensures
        r@ == spec_table_field(snake@, camel@),
{
    let mut r = String::from_str("pub(crate) ");
    r.append(snake);
    r.append("_table: wit_bindgen_wasmer::Table<T::");
    r.append(camel);
    r.append(">,\n");
    r
}

pub open spec fn spec_tables_default_open(name: Seq<char>) -> Seq<char> {
    "}\n"@ + "impl<T: "@ + name + "> Default for "@ + name + "Tables<T> {\n"@ + "fn default() -> Self { Self {"@
}

pub fn tables_default_open(name: &str) -> (r: String)
    ensures
        r@ == spec_tables_default_open(name@),
{
    let mut r = String::from_str("}\n");
    r.append("impl<T: ");
    r.append(name);
    r.append("> Default for ");
    r.append(name);
    r.append("Tables<T> {\n");
    r.append("fn default() -> Self { Self {");
    r
}

pub open spec fn spec_table_default(snake: Seq<char>) -> Seq<char> {
    snake + "_table: Default::default(),"@
}

pub fn table_default(snake: &str) -> (r: String)
    ensures
        r@ == spec_table_default(snake@),
{
    let mut r = String::from_str(snake);
    r.append("_table: Default::default(),");
    r
}

pub open spec fn spec_tables_clone(name: Seq<char>) -> Seq<char> {
    "}}}"@ + "impl<T: "@ + name + "> Clone for "@ + name + "Tables<T> {\n"@ + "fn clone(&self) -> Self {\n"@ + "Self::default()\n"@ + "}}\n"@
}

pub fn tables_clone(name: &str) -> (r: String)
    ensures
        r@ == spec_tables_clone(name@),
{
    let mut r = String::from_str("}}}");
    r.append("impl<T: ");
    r.append(name);
    r.append("> Clone for ");
    r.append(name);
    r.append("Tables<T> {\n");
    r.append("fn clone(&self) -> Self {\n");
    r.append("Self::default()\n");
    r.append("}}\n");
    r
}

pub open spec fn spec_add_to_imports_open(name: Seq<char>) -> Seq<char> {
    "\n#[must_use = \"The returned initializer function must be called\n"@ + "with the instance and the store before starting the runtime\"]\n"@ + "pub fn add_to_imports<T>(store: &mut wasmer::Store, imports: &mut wasmer::Imports, data: T)\n"@ + "-> impl FnOnce(&wasmer::Instance, &dyn wasmer::AsStoreRef) -> Result<(), anyhow::Error>\n"@ + "where T: "@ + name + "\n{\n"@ + "#[derive(Clone)]"@ + "struct EnvWrapper<T: "@ + name + "> {\n"@ + "data: T,\n"@
}

pub fn add_to_imports_open(name: &str) -> (r: String)
    ensures
        r@ == spec_add_to_imports_open(name@),
{
    let mut r = String::from_str("\n#[must_use = \"The returned initializer function must be called\n");
    r.append("with the instance and the store before starting the runtime\"]\n");
    r.append("pub fn add_to_imports<T>(store: &mut wasmer::Store, imports: &mut wasmer::Imports, data: T)\n");
    r.append("-> impl FnOnce(&wasmer::Instance, &dyn wasmer::AsStoreRef) -> Result<(), anyhow::Error>\n");
    r.append("where T: ");
    r.append(name);
    r.append("\n{\n");
    r.append("#[derive(Clone)]");
    r.append("struct EnvWrapper<T: ");
    r.append(name);
    r.append("> {\n");
    r.append("data: T,\n");
    r
}

pub open spec fn spec_env_tables(name: Seq<char>) -> Seq<char> {
    "tables: std::rc::Rc<core::cell::RefCell<"@ + name + "Tables<T>>>,\n"@
}

pub fn env_tables(name: &str) -> (r: String)
    ensures
        r@ == spec_env_tables(name@),
{
    let mut r = String::from_str("tables: std::rc::Rc<core::cell::RefCell<");
    r.append(name);
    r.append("Tables<T>>>,\n");
    r
}

pub open spec fn spec_env_markers(name: Seq<char>) -> Seq<char> {
    "}\n"@ + "unsafe impl<T: "@ + name + "> Send for EnvWrapper<T> {}\n"@ + "unsafe impl<T: "@ + name + "> Sync for EnvWrapper<T> {}\n"@
}

pub fn env_markers(name: &str) -> (r: String)
    ensures
        r@ == spec_env_markers(name@),
{
    let mut r = String::from_str("}\n");
    r.append("unsafe impl<T: ");
    r.append(name);
    r.append("> Send for EnvWrapper<T> {}\n");
    r.append("unsafe impl<T: ");
    r.append(name);
    r.append("> Sync for EnvWrapper<T> {}\n");
    r
}

pub open spec fn spec_exports_data_open(name: Seq<char>) -> Seq<char> {
    "\n                /// Auxiliary data associated with the wasm exports.\n                "@ + "#[derive(Default)]\n"@ + "pub struct "@ + name + "Data {\n"@
}

pub fn exports_data_open(name: &str) -> (r: String)
    ensures
        r@ == spec_exports_data_open(name@),
{
    let mut r = String::from_str("\n                /// Auxiliary data associated with the wasm exports.\n                ");
    r.append("#[derive(Default)]\n");
    r.append("pub struct ");
    r.append(name);
    r.append("Data {\n");
    r
}

pub open spec fn spec_exports_struct_open(name: Seq<char>) -> Seq<char> {
    "}\n\n"@ + "pub struct "@ + name + " {\n"@ + "#[allow(dead_code)]\n"@
}

pub fn exports_struct_open(name: &str) -> (r: String)
    ensures
        r@ == spec_exports_struct_open(name@),
{
    let mut r = String::from_str("}\n\n");
    r.append("pub struct ");
    r.append(name);
    r.append(" {\n");
    r.append("#[allow(dead_code)]\n");
    r
}

pub open spec fn spec_struct_field(name: Seq<char>, ty: Seq<char>) -> Seq<char> {
    name + ": "@ + ty + ",\n"@
}

pub fn struct_field(name: &str, ty: &str) -> (r: String)
    ensures
        r@ == spec_struct_field(name@, ty@),
{
    let mut r = String::from_str(name);
    r.append(": ");
    r.append(ty);
    r.append(",\n");
    r
}

pub open spec fn spec_let_get(name: Seq<char>, get: Seq<char>) -> Seq<char> {
    "let "@ + name + "= "@ + get + ";\n"@
}

pub fn let_get(name: &str, get: &str) -> (r: String)
    ensures
        r@ == spec_let_get(name@, get@),
{
    let mut r = String::from_str("let ");
    r.append(name);
    r.append("= ");
    r.append(get);
    r.append(";\n");
    r
}

pub open spec fn spec_new_struct_open(name: Seq<char>) -> Seq<char> {
    "Ok("@ + name + "{\n"@
}

pub fn new_struct_open(name: &str) -> (r: String)
    ensures
        r@ == spec_new_struct_open(name@),
{
    let mut r = String::from_str("Ok(");
    r.append(name);
    r.append("{\n");
    r
}

pub open spec fn spec_name_comma(name: Seq<char>) -> Seq<char> {
    name + ",\n"@
}

pub fn name_comma(name: &str) -> (r: String)
    ensures
        r@ == spec_name_comma(name@),
{
    let mut r = String::from_str(name);
    r.append(",\n");
    r
}

pub open spec fn spec_memory_let() -> Seq<char> {
    "let _memory: wasmer::Memory = store.data().lazy.get().unwrap().memory.clone();\n"@
}

pub fn memory_let() -> (r: String)
    ensures
        r@ == spec_memory_let(),
{
    let mut r = String::from_str("let _memory: wasmer::Memory = store.data().lazy.get().unwrap().memory.clone();\n");
    r
}

pub open spec fn spec_borrow_checker_let() -> Seq<char> {
    "let mut _bc = wit_bindgen_wasmer::BorrowChecker::new(unsafe {\n                        _memory.data_unchecked_mut(&store)\n                 });\n"@
}

pub fn borrow_checker_let() -> (r: String)
    ensures
        r@ == spec_borrow_checker_let(),
{
    let mut r = String::from_str("let mut _bc = wit_bindgen_wasmer::BorrowChecker::new(unsafe {\n                        _memory.data_unchecked_mut(&store)\n                 });\n");
    r
}

pub open spec fn spec_trace_span(module: Seq<char>, function: Seq<char>) -> Seq<char> {
    "\n                    let span = wit_bindgen_wasmer::tracing::span!(\n                        wit_bindgen_wasmer::tracing::Level::TRACE,\n                        \"wit-bindgen abi\",\n                        module = \""@ + module + "\",\n                        function = \""@ + function + "\",\n                    );\n                    let _enter = span.enter();\n                "@
}

pub fn trace_span(module: &str, function: &str) -> (r: String)
    ensures
        r@ == spec_trace_span(module@, function@),
{
    let mut r = String::from_str("\n                    let span = wit_bindgen_wasmer::tracing::span!(\n                        wit_bindgen_wasmer::tracing::Level::TRACE,\n                        \"wit-bindgen abi\",\n                        module = \"");
    r.append(module);
    r.append("\",\n                        function = \"");
    r.append(function);
    r.append("\",\n                    );\n                    let _enter = span.enter();\n                ");
    r
}

pub open spec fn spec_lazy_func(name: Seq<char>) -> Seq<char> {
    "let func_"@ + name + " = store\n                    .data()\n                    .lazy\n                    .get()\n                    .unwrap()\n                    .func_"@ + name + "\n                    .clone();\n"@
}

pub fn lazy_func(name: &str) -> (r: String)
    ensures
        r@ == spec_lazy_func(name@),
{
    let mut r = String::from_str("let func_");
    r.append(name);
    r.append(" = store\n                    .data()\n                    .lazy\n                    .get()\n                    .unwrap()\n                    .func_");
    r.append(name);
    r.append("\n                    .clone();\n");
    r
}

} // verus!
