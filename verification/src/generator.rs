//! The parts of the generated host bindings that stand around the
//! functions: what is imported, what a type of the interface becomes, and
//! the signatures of the core functions.

use crate::abi::{WasmSignature, WasmType};
use crate::names::{flags_type, spec_flags_type, texts};
use crate::render::{get_text, spec_wasm_type, text_at, wasm_type};
use crate::requirements::Requirements;
use crate::templates::{
    closure_open, closure_param, endian_field, endian_fn, endian_impl, flags_const, flags_display,
    flags_open, resource_struct, spec_closure_open, spec_closure_param, spec_endian_field,
    spec_endian_fn, spec_endian_impl, spec_flags_const, spec_flags_display, spec_flags_open,
    spec_resource_struct,
};
use crate::text::{decimal, decimal_of};
use crate::types::FlagsRepr;
use vstd::prelude::*;
use vstd::string::StringExecFns;

verus! {

/// Which helpers of the runtime the generated module uses.
#[derive(Clone, Copy, Debug, PartialEq, Eq, Structural)]
pub struct Intrinsics {
    /// Whether anything is set up only once the module is instantiated, or
    /// a resource is exported.
    pub once_cell: bool,
    pub raw_mem: bool,
    pub char_from_i32: bool,
    pub invalid_variant: bool,
    pub bad_int: bool,
    pub validate_flags: bool,
    pub le: bool,
    pub copy_slice: bool,
}

/// `t` followed by `text`, where `wanted`.
pub open spec fn with(t: Seq<char>, wanted: bool, text: Seq<char>) -> Seq<char> {
    if wanted {
        t + text
    } else {
        t
    }
}

/// What the generated module imports at its end.
#[verifier::opaque]
pub open spec fn spec_intrinsics(i: Intrinsics) -> Seq<char> {
    let t = with(Seq::empty(), i.once_cell, "use wit_bindgen_wasmer::once_cell::unsync::OnceCell;\n"@);
    let t = t + "#[allow(unused_imports)]\n"@ + "use wasmer::AsStoreMut as _;\n"@
        + "#[allow(unused_imports)]\n"@ + "use wasmer::AsStoreRef as _;\n"@;
    let t = with(t, i.raw_mem, "use wit_bindgen_wasmer::rt::RawMem;\n"@);
    let t = with(t, i.char_from_i32, "use wit_bindgen_wasmer::rt::char_from_i32;\n"@);
    let t = with(t, i.invalid_variant, "use wit_bindgen_wasmer::rt::invalid_variant;\n"@);
    let t = with(t, i.bad_int, "use core::convert::TryFrom;\n"@);
    let t = with(t, i.bad_int, "use wit_bindgen_wasmer::rt::bad_int;\n"@);
    let t = with(t, i.validate_flags, "use wit_bindgen_wasmer::rt::validate_flags;\n"@);
    let t = with(t, i.le, "use wit_bindgen_wasmer::Le;\n"@);
    with(t, i.copy_slice, "use wit_bindgen_wasmer::rt::copy_slice;\n"@)
}

fn push_if(out: &mut String, wanted: bool, text: &str)
    ensures
        final(out)@ == with(old(out)@, wanted, text@),
{
    if wanted {
        out.append(text);
    }
}

/// What the generated module imports at its end.
pub fn print_intrinsics(i: Intrinsics) -> (r: String)
    ensures
        r@ == spec_intrinsics(i),
{
    reveal(spec_intrinsics);
    let mut out = String::new();
    assert(out@ =~= Seq::<char>::empty());
    push_if(&mut out, i.once_cell, "use wit_bindgen_wasmer::once_cell::unsync::OnceCell;\n");
    out.append("#[allow(unused_imports)]\n");
    out.append("use wasmer::AsStoreMut as _;\n");
    out.append("#[allow(unused_imports)]\n");
    out.append("use wasmer::AsStoreRef as _;\n");
    push_if(&mut out, i.raw_mem, "use wit_bindgen_wasmer::rt::RawMem;\n");
    push_if(&mut out, i.char_from_i32, "use wit_bindgen_wasmer::rt::char_from_i32;\n");
    push_if(&mut out, i.invalid_variant, "use wit_bindgen_wasmer::rt::invalid_variant;\n");
    push_if(&mut out, i.bad_int, "use core::convert::TryFrom;\n");
    push_if(&mut out, i.bad_int, "use wit_bindgen_wasmer::rt::bad_int;\n");
    push_if(&mut out, i.validate_flags, "use wit_bindgen_wasmer::rt::validate_flags;\n");
    push_if(&mut out, i.le, "use wit_bindgen_wasmer::Le;\n");
    push_if(&mut out, i.copy_slice, "use wit_bindgen_wasmer::rt::copy_slice;\n");
    out
}

/// The helpers that the functions of a module need, given what was decided
/// for the module as a whole.
pub fn intrinsics_of(needs: Requirements, once_cell: bool, le: bool) -> (r: Intrinsics)
    ensures
        r == (Intrinsics {
            once_cell,
            raw_mem: needs.raw_mem,
            char_from_i32: needs.char_from_i32,
            invalid_variant: needs.invalid_variant,
            bad_int: needs.bad_int,
            validate_flags: needs.validate_flags,
            le,
            copy_slice: needs.copy_slice,
        }),
{
    Intrinsics {
        once_cell,
        raw_mem: needs.raw_mem,
        char_from_i32: needs.char_from_i32,
        invalid_variant: needs.invalid_variant,
        bad_int: needs.bad_int,
        validate_flags: needs.validate_flags,
        le,
        copy_slice: needs.copy_slice,
    }
}

/// The constants of the first `n` flags, each one bit, and each after the
/// comment that says what it is.
pub open spec fn flag_consts(flags: Seq<Seq<char>>, comments: Seq<Seq<char>>, n: nat) -> Seq<char>
    decreases n,
{
    if n == 0 || n > flags.len() {
        Seq::empty()
    } else {
        flag_consts(flags, comments, (n - 1) as nat) + text_at(comments, n - 1) + spec_flags_const(
            flags[n - 1],
            decimal((n - 1) as nat),
        )
    }
}

/// The type of a set of flags: a bit set, after the comment that says what
/// it is, with one constant per flag, and how it is shown.
pub open spec fn spec_type_flags(
    comment: Seq<char>,
    name: Seq<char>,
    repr: FlagsRepr,
    flags: Seq<Seq<char>>,
    comments: Seq<Seq<char>>,
) -> Seq<char> {
    "wit_bindgen_wasmer::bitflags::bitflags! {\n"@ + comment + spec_flags_open(
        name,
        spec_flags_type(repr),
    ) + flag_consts(flags, comments, flags.len()) + "}\n"@ + "}\n\n"@ + spec_flags_display(name)
}

/// The type of a set of flags, whose name is `name` in camel case and whose
/// flags are `flags` in shouty snake case. `comment` says what the set is,
/// and `comments` what each flag is.
pub fn type_flags(comment: &str, name: &str, repr: FlagsRepr, flags: &Vec<String>, comments: &Vec<String>) -> (r:
    String)
    ensures
        r@ == spec_type_flags(comment@, name@, repr, texts(flags@), texts(comments@)),
{
    let mut out = String::from_str("wit_bindgen_wasmer::bitflags::bitflags! {\n");
    out.append(comment);
    let open = flags_open(name, flags_type(repr));
    out.append(open.as_str());
    let ghost head = out@;
    let mut i: usize = 0;
    assert(out@ =~= head + flag_consts(texts(flags@), texts(comments@), 0));
    while i < flags.len()
        invariant
            i <= flags@.len(),
            out@ == head + flag_consts(texts(flags@), texts(comments@), i as nat),
        decreases flags@.len() - i,
    {
        let digits = decimal_of(i as u64);
        let item = flags_const(flags[i].as_str(), digits.as_str());
        out.append(get_text(comments, i));
        out.append(item.as_str());
        i += 1;
        assert(out@ =~= head + flag_consts(texts(flags@), texts(comments@), i as nat));
    }
    out.append("}\n");
    out.append("}\n\n");
    let display = flags_display(name);
    out.append(display.as_str());
    out
}

/// The type that stands for a resource of the guest: a wrapper of its index.
pub fn type_resource(name: &str) -> (r: String)
    ensures
        r@ == spec_resource_struct(name@),
{
    resource_struct(name)
}

/// The first `n` fields, each converted by `method`.
pub open spec fn endian_fields(fields: Seq<Seq<char>>, method: Seq<char>, n: nat) -> Seq<char>
    decreases n,
{
    if n == 0 || n > fields.len() {
        Seq::empty()
    } else {
        endian_fields(fields, method, (n - 1) as nat) + spec_endian_field(fields[n - 1], method)
    }
}

/// The two conversions of byte order for a record whose fields are valid in
/// every bit pattern, and the mark that it is so itself.
pub open spec fn spec_record_endian(name: Seq<char>, fields: Seq<Seq<char>>) -> Seq<char> {
    spec_endian_impl(
        name,
        spec_endian_fn("into_le"@, endian_fields(fields, "into_le"@, fields.len())),
        spec_endian_fn("from_le"@, endian_fields(fields, "from_le"@, fields.len())),
    )
}

fn endian_conversion(fields: &Vec<String>, method: &str) -> (r: String)
    ensures
        r@ == spec_endian_fn(method@, endian_fields(texts(fields@), method@, fields@.len())),
{
    let mut body = String::new();
    let mut i: usize = 0;
    assert(body@ =~= endian_fields(texts(fields@), method@, 0));
    while i < fields.len()
        invariant
            i <= fields@.len(),
            body@ == endian_fields(texts(fields@), method@, i as nat),
        decreases fields@.len() - i,
    {
        let item = endian_field(fields[i].as_str(), method);
        body.append(item.as_str());
        i += 1;
    }
    endian_fn(method, body.as_str())
}

/// What makes a record usable in slices that are read from the guest's
/// memory as they are.
pub fn record_endian(name: &str, fields: &Vec<String>) -> (r: String)
    ensures
        r@ == spec_record_endian(name@, texts(fields@)),
{
    let into = endian_conversion(fields, "into_le");
    let from = endian_conversion(fields, "from_le");
    endian_impl(name, into.as_str(), from.as_str())
}

/// The names of the first `n` core types, with a comma and a space between
/// them.
pub open spec fn type_list(tys: Seq<WasmType>, n: nat) -> Seq<char>
    decreases n,
{
    if n == 0 || n > tys.len() {
        Seq::empty()
    } else if n == 1 {
        spec_wasm_type(tys[0])
    } else {
        type_list(tys, (n - 1) as nat) + ", "@ + spec_wasm_type(tys[n - 1])
    }
}

/// The Rust type of what a core function returns: the unit for nothing, the
/// type for one value, a tuple for more.
pub open spec fn spec_result_type(results: Seq<WasmType>) -> Seq<char> {
    if results.len() == 0 {
        "()"@
    } else if results.len() == 1 {
        spec_wasm_type(results[0])
    } else {
        "("@ + type_list(results, results.len()) + ")"@
    }
}

/// The Rust type of what a core function returns.
pub fn result_type(results: &Vec<WasmType>) -> (r: String)
    ensures
        r@ == spec_result_type(results@),
{
    if results.len() == 0 {
        String::from_str("()")
    } else if results.len() == 1 {
        String::from_str(wasm_type(results[0]))
    } else {
        let mut out = String::from_str("(");
        let mut i: usize = 0;
        assert(out@ =~= "("@ + type_list(results@, 0));
        while i < results.len()
            invariant
                i <= results@.len(),
                out@ == "("@ + type_list(results@, i as nat),
            decreases results@.len() - i,
        {
            if i > 0 {
                out.append(", ");
            }
            out.append(wasm_type(results[i]));
            i += 1;
            assert(out@ =~= "("@ + type_list(results@, i as nat));
        }
        out.append(")");
        out
    }
}

/// The first `n` parameters of the closure that implements an import.
pub open spec fn closure_params(params: Seq<WasmType>, n: nat) -> Seq<char>
    decreases n,
{
    if n == 0 || n > params.len() {
        Seq::empty()
    } else {
        closure_params(params, (n - 1) as nat) + spec_closure_param(
            decimal((n - 1) as nat),
            spec_wasm_type(params[n - 1]),
        )
    }
}

/// The head of the closure that implements an import with the given core
/// signature.
pub open spec fn spec_closure_head(sig: WasmSignature) -> Seq<char> {
    spec_closure_open(closure_params(sig.params@, sig.params@.len()), spec_result_type(sig.results@))
}

/// The head of the closure that implements an import.
pub fn closure_head(sig: &WasmSignature) -> (r: String)
    ensures
        r@ == spec_closure_head(*sig),
{
    let mut params = String::new();
    let mut i: usize = 0;
    assert(params@ =~= closure_params(sig.params@, 0));
    while i < sig.params.len()
        invariant
            i <= sig.params@.len(),
            params@ == closure_params(sig.params@, i as nat),
        decreases sig.params@.len() - i,
    {
        let digits = decimal_of(i as u64);
        let item = closure_param(digits.as_str(), wasm_type(sig.params[i]));
        params.append(item.as_str());
        i += 1;
    }
    let result = result_type(&sig.results);
    closure_open(params.as_str(), result.as_str())
}

/// The names of the arguments of the closure that implements an import with
/// `n` core parameters.
pub fn closure_args(n: usize) -> (r: Vec<String>)
    ensures
        r@.len() == n,
        forall|i: int|
            0 <= i < n ==> (#[trigger] r@[i])@ == crate::templates::spec_numbered(
                "arg"@,
                decimal(i as nat),
            ),
{
    let mut out: Vec<String> = Vec::new();
    let mut i: usize = 0;
    while i < n
        invariant
            i <= n,
            out@.len() == i,
            forall|j: int|
                0 <= j < i ==> (#[trigger] out@[j])@ == crate::templates::spec_numbered(
                    "arg"@,
                    decimal(j as nat),
                ),
        decreases n - i,
    {
        let digits = decimal_of(i as u64);
        out.push(crate::templates::numbered("arg", digits.as_str()));
        i += 1;
    }
    out
}

/// One side of the type of a core function of the guest: the type for one
/// value, a tuple with a comma after each type else.
pub open spec fn spec_cvt_side(tys: Seq<WasmType>) -> Seq<char> {
    if tys.len() == 1 {
        spec_wasm_type(tys[0])
    } else {
        "("@ + cvt_items(tys, tys.len()) + ")"@
    }
}

/// The names of the first `n` core types, each followed by a comma.
pub open spec fn cvt_items(tys: Seq<WasmType>, n: nat) -> Seq<char>
    decreases n,
{
    if n == 0 || n > tys.len() {
        Seq::empty()
    } else {
        cvt_items(tys, (n - 1) as nat) + spec_wasm_type(tys[n - 1]) + ","@
    }
}

/// The parameters and results of a core function of the guest, as the
/// arguments of the type of a typed function.
pub open spec fn spec_cvt(sig: WasmSignature) -> Seq<char> {
    spec_cvt_side(sig.params@) + ", "@ + spec_cvt_side(sig.results@)
}

fn cvt_side(tys: &Vec<WasmType>) -> (r: String)
    ensures
        r@ == spec_cvt_side(tys@),
{
    if tys.len() == 1 {
        String::from_str(wasm_type(tys[0]))
    } else {
        let mut out = String::from_str("(");
        let mut i: usize = 0;
        assert(out@ =~= "("@ + cvt_items(tys@, 0));
        while i < tys.len()
            invariant
                i <= tys@.len(),
                out@ == "("@ + cvt_items(tys@, i as nat),
            decreases tys@.len() - i,
        {
            out.append(wasm_type(tys[i]));
            out.append(",");
            i += 1;
            assert(out@ =~= "("@ + cvt_items(tys@, i as nat));
        }
        out.append(")");
        out
    }
}

/// The parameters and results of a core function of the guest, as the
/// arguments of the type of a typed function.
pub fn cvt(sig: &WasmSignature) -> (r: String)
    ensures
        r@ == spec_cvt(*sig),
{
    let mut out = cvt_side(&sig.params);
    out.append(", ");
    let results = cvt_side(&sig.results);
    out.append(results.as_str());
    out
}

} // verus!
