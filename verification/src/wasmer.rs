//! The generator of host bindings for Wasmer: the module of Rust source for
//! one interface, from the items of its types over the functions, each
//! rendered from its protocol, to the trait and the tables around them.

use crate::abi::{spec_signature, AbiVariant, SignatureView};
use crate::call::{compile, protocol, protocol_error, CompileError};
use crate::dependencies::{insert_name, names_view, sorted_insert};
use crate::docs::{doc_comment, print_docs};
use crate::generator::{
    closure_args, closure_head, closure_params, cvt, intrinsics_of, print_intrinsics,
    record_endian, spec_cvt_side, spec_intrinsics, spec_record_endian, spec_result_type,
    spec_type_flags, type_flags, Intrinsics,
};
use crate::instruction::LiftLower;
use crate::layout::{first_layout_error, LayoutError, SizeAlign};
use crate::module::{
    add_to_imports, export_closure, exports, function_field, host_trait, import_function,
    memory_field, spec_add_to_imports, spec_export_closure, spec_exports, spec_host_trait,
    spec_import_function, typed_field, ClosureInfo, ErrorType, ExportField, ExportedResource,
    Handle, Import, LazyFunction,
};
use crate::names::{
    camel_case_name, camel_case_of, rust_ident_of, snake_case_name, snake_case_of, texts,
    to_rust_ident, Names,
};
use crate::options::{
    classify_fn_ret, declared_error, declares_async, Async, Direction, FunctionRet,
    NeededFunction, Opts,
};
use crate::printer::{
    members_at, param_idents, params_text, signature_head, type_text, typedef_text, FnSig,
    Lifetime, Printer, TypeMode,
};
use crate::protocol::{Ctx, StepView};
use crate::render::{get_text, render, rendered, text_at, CallInfo, Context, RendererView};
use crate::requirements::{of_steps, spec_merge, spec_none, Requirements};
use crate::templates::{
    resource_struct, spec_closure_open, spec_func_field, spec_get_typed_function,
    spec_numbered, spec_resource_struct, spec_typed_function,
};
use crate::text::{chars_of, decimal, order_of, seq_lt, Order};
use crate::types::{
    all_bits_valid_to, spec_flags_repr, spec_repr_count, Flag, Function, Interface, Type, TypeDef,
    TypeDefKind,
};
use vstd::prelude::*;
use vstd::string::StringExecFns;

verus! {

/// Whether `ty` is the definition at `id` or is made of it, with references
/// followed only to definitions before `bound`.
pub open spec fn mentions(types: Seq<TypeDef>, ty: Type, id: nat, bound: nat) -> bool
    decreases bound, 0nat, 0nat,
{
    match ty {
        Type::Id(t) => t == id || (t < bound && t < types.len() && any_mentions(
            types,
            types[t as int].kind.spec_members(),
            id,
            t as nat,
            types[t as int].kind.spec_members().len(),
        )),
        _ => false,
    }
}

/// Whether one of the first `n` of `members` mentions the definition at
/// `id`.
pub open spec fn any_mentions(types: Seq<TypeDef>, members: Seq<Type>, id: nat, bound: nat, n: nat) -> bool
    decreases bound, 1nat, n,
{
    if n == 0 || n > members.len() {
        false
    } else {
        any_mentions(types, members, id, bound, (n - 1) as nat) || mentions(
            types,
            members[n - 1],
            id,
            bound,
        )
    }
}

/// Whether one of the first `n` parameters mentions the definition at `id`.
pub open spec fn params_mention(types: Seq<TypeDef>, params: Seq<(String, Type)>, id: nat, n: nat) -> bool
    decreases n,
{
    if n == 0 || n > params.len() {
        false
    } else {
        params_mention(types, params, id, (n - 1) as nat) || mentions(
            types,
            params[n - 1].1,
            id,
            types.len(),
        )
    }
}

/// Whether a value of the definition at `id` is given to one of the first
/// `n` functions, or comes back from it.
pub open spec fn used_by(iface: Interface, id: nat, n: nat) -> bool
    decreases n,
{
    if n == 0 || n > iface.functions@.len() {
        false
    } else {
        let f = iface.functions@[n - 1];
        used_by(iface, id, (n - 1) as nat) || mentions(iface.types@, f.result, id, iface.types@.len())
            || params_mention(iface.types@, f.params@, id, f.params@.len())
    }
}

fn mentions_below(iface: &Interface, ty: &Type, id: usize, bound: usize) -> (r: bool)
    ensures
        r == mentions(iface.types@, *ty, id as nat, bound as nat),
    decreases bound,
{
    match ty {
        Type::Id(t) => {
            if *t == id {
                return true;
            }
            if *t < bound && *t < iface.types.len() {
                let members = iface.types[*t].kind.members();
                let mut found = false;
                let mut k: usize = 0;
                while k < members.len()
                    invariant
                        k <= members@.len(),
                        *t < bound,
                        *t < iface.types@.len(),
                        members@ == iface.types@[*t as int].kind.spec_members(),
                        found == any_mentions(iface.types@, members@, id as nat, *t as nat, k as nat),
                    decreases members@.len() - k,
                {
                    let here = mentions_below(iface, &members[k], id, *t);
                    found = found || here;
                    k += 1;
                }
                found
            } else {
                false
            }
        },
        _ => false,
    }
}

/// Whether a value of the definition at `id` is given to a function of the
/// interface, or comes back from one.
pub fn type_used(iface: &Interface, id: usize) -> (r: bool)
    ensures
        r == used_by(*iface, id as nat, iface.functions@.len()),
{
    let mut found = false;
    let mut i: usize = 0;
    while i < iface.functions.len()
        invariant
            i <= iface.functions@.len(),
            found == used_by(*iface, id as nat, i as nat),
        decreases iface.functions@.len() - i,
    {
        let f = &iface.functions[i];
        let mut here = mentions_below(iface, &f.result, id, iface.types.len());
        let mut k: usize = 0;
        let ghost in_result = here;
        while k < f.params.len()
            invariant
                k <= f.params@.len(),
                here == (in_result || params_mention(iface.types@, f.params@, id as nat, k as nat)),
            decreases f.params@.len() - k,
        {
            let p = mentions_below(iface, &f.params[k].1, id, iface.types.len());
            here = here || p;
            k += 1;
        }
        found = found || here;
        i += 1;
    }
    found
}

/// What is said of each flag, as a documentation comment.
pub open spec fn flag_comments(flags: Seq<Flag>) -> Seq<Seq<char>> {
    Seq::new(flags.len(), |i: int| doc_comment(flags[i].docs))
}

/// What is said of each flag, as a documentation comment.
pub fn print_flag_comments(flags: &Vec<Flag>) -> (r: Vec<String>)
    ensures
        texts(r@) == flag_comments(flags@),
{
    let mut out: Vec<String> = Vec::new();
    let mut i: usize = 0;
    while i < flags.len()
        invariant
            i <= flags@.len(),
            out@.len() == i,
            forall|j: int| 0 <= j < i ==> (#[trigger] out@[j])@ == doc_comment(flags@[j].docs),
        decreases flags@.len() - i,
    {
        out.push(print_docs(&flags[i].docs));
        i += 1;
    }
    assert(texts(out@) =~= flag_comments(flags@));
    out
}

/// The items of the definition at `id` in the generated module: what
/// defines the type and, for a record that the functions use and that is
/// valid in every bit pattern, what lets slices of it be read in place.
/// Nothing where it is a set of flags that no integer of Rust holds.
pub open spec fn type_item(p: Printer, id: nat) -> Option<Seq<char>> {
    if id >= p.iface.types@.len() || p.iface.types@[id as int].name is None {
        Some(Seq::empty())
    } else {
        let name = text_at(texts(p.names.types@), id as int);
        let names = members_at(p.names.members@, id as int);
        let kind = p.iface.types@[id as int].kind;
        match kind {
            TypeDefKind::Record(_) => Some(
                typedef_text(p, id) + (if used_by(*p.iface, id, p.iface.functions@.len())
                    && all_bits_valid_to(
                    p.iface.types@,
                    kind.spec_members(),
                    p.iface.types@.len(),
                    kind.spec_members().len(),
                ) {
                    spec_record_endian(name, names)
                } else {
                    Seq::empty()
                }),
            ),
            TypeDefKind::Flags(f) => if spec_repr_count(spec_flags_repr(f.flags@.len())) > 4 {
                None
            } else {
                Some(
                    spec_type_flags(
                        doc_comment(p.iface.types@[id as int].docs),
                        name,
                        spec_flags_repr(f.flags@.len()),
                        names,
                        flag_comments(f.flags@),
                    ),
                )
            },
            _ => Some(typedef_text(p, id)),
        }
    }
}

/// The items of the first `n` definitions, or the first of them that has
/// none.
pub open spec fn type_items(p: Printer, n: nat) -> Result<Seq<char>, nat>
    decreases n,
{
    if n == 0 || n > p.iface.types@.len() {
        Ok(Seq::empty())
    } else {
        match type_items(p, (n - 1) as nat) {
            Err(id) => Err(id),
            Ok(before) => match type_item(p, (n - 1) as nat) {
                None => Err((n - 1) as nat),
                Some(item) => Ok(before + item),
            },
        }
    }
}

/// The wrappers of the first `n` resources, which the guest defines, each
/// after what the interface says of the resource.
pub open spec fn resource_items(iface: Interface, names: Names, n: nat) -> Seq<char>
    decreases n,
{
    if n == 0 || n > iface.resources@.len() {
        Seq::empty()
    } else {
        resource_items(iface, names, (n - 1) as nat) + doc_comment(iface.resources@[n - 1].docs)
            + spec_resource_struct(text_at(texts(names.resource_types@), n - 1))
    }
}

/// The items of the definition at `id`.
pub fn print_type_item(p: &Printer, id: usize) -> (r: Option<String>)
    ensures
        r is Some == type_item(*p, id as nat) is Some,
        r matches Some(text) ==> Some(text@) == type_item(*p, id as nat),
{
    let mut out = String::from_str("");
    proof {
        reveal_strlit("");
        assert(out@ =~= Seq::<char>::empty());
    }
    if id >= p.iface.types.len() {
        return Some(out);
    }
    if p.iface.types[id].name.is_none() {
        return Some(out);
    }
    let none: Vec<String> = Vec::new();
    let names = if id < p.names.members.len() {
        &p.names.members[id]
    } else {
        &none
    };
    assert(texts(names@) =~= members_at(p.names.members@, id as int));
    let name = get_text(&p.names.types, id);
    match &p.iface.types[id].kind {
        TypeDefKind::Record(_) => {
            let item = p.print_typedef(id);
            let members = p.iface.types[id].kind.members();
            let mut plain = true;
            let mut k: usize = 0;
            while k < members.len()
                invariant
                    k <= members@.len(),
                    plain == all_bits_valid_to(
                        p.iface.types@,
                        members@,
                        p.iface.types@.len(),
                        k as nat,
                    ),
                decreases members@.len() - k,
            {
                let here = p.iface.all_bits_valid(&members[k]);
                plain = plain && here;
                k += 1;
            }
            let used = type_used(p.iface, id);
            let mut out = item;
            if used && plain {
                let endian = record_endian(name, names);
                out.append(endian.as_str());
            } else {
                assert(out@ =~= out@ + Seq::<char>::empty());
            }
            Some(out)
        },
        TypeDefKind::Flags(f) => {
            let repr = f.repr();
            if repr.count() > 4 {
                None
            } else {
                let said = print_docs(&p.iface.types[id].docs);
                let comments = print_flag_comments(&f.flags);
                Some(type_flags(said.as_str(), name, repr, names, &comments))
            }
        },
        _ => Some(p.print_typedef(id)),
    }
}

/// The items of all definitions, or the first definition that has none.
pub fn print_type_items(p: &Printer) -> (r: Result<String, usize>)
    ensures
        match r {
            Ok(text) => type_items(*p, p.iface.types@.len()) == Ok::<Seq<char>, nat>(text@),
            Err(id) => type_items(*p, p.iface.types@.len()) == Err::<Seq<char>, nat>(id as nat),
        },
{
    let mut out = String::from_str("");
    proof {
        reveal_strlit("");
        assert(out@ =~= Seq::<char>::empty());
    }
    let mut id: usize = 0;
    while id < p.iface.types.len()
        invariant
            id <= p.iface.types@.len(),
            type_items(*p, id as nat) == Ok::<Seq<char>, nat>(out@),
        decreases p.iface.types@.len() - id,
    {
        match print_type_item(p, id) {
            Some(item) => {
                out.append(item.as_str());
            },
            None => {
                proof {
                    lemma_type_items_fail(*p, (id + 1) as nat, p.iface.types@.len());
                }
                return Err(id);
            },
        }
        id += 1;
    }
    Ok(out)
}

/// Once a definition has no items, the definitions up to any later one have
/// none, with the same definition to blame.
pub proof fn lemma_type_items_fail(p: Printer, n: nat, m: nat)
    requires
        1 <= n <= m <= p.iface.types@.len(),
        type_items(p, n) is Err,
    ensures
        type_items(p, m) == type_items(p, n),
    decreases m,
{
    if n < m {
        lemma_type_items_fail(p, n, (m - 1) as nat);
    }
}

/// The wrappers of the resources, which the guest defines.
pub fn print_resource_items(iface: &Interface, names: &Names) -> (r: String)
    ensures
        r@ == resource_items(*iface, *names, iface.resources@.len()),
{
    let mut out = String::from_str("");
    proof {
        reveal_strlit("");
        assert(out@ =~= Seq::<char>::empty());
    }
    let mut k: usize = 0;
    while k < iface.resources.len()
        invariant
            k <= iface.resources@.len(),
            out@ == resource_items(*iface, *names, k as nat),
        decreases iface.resources@.len() - k,
    {
        let ghost before = out@;
        let said = print_docs(&iface.resources[k].docs);
        let item = resource_struct(get_text(&names.resource_types, k));
        out.append(said.as_str());
        out.append(item.as_str());
        k += 1;
        assert(out@ =~= before + said@ + item@);
    }
    out
}

/// How the module of an interface begins.
pub open spec fn module_head(name: Seq<char>) -> Seq<char> {
    "#[allow(clippy::all)]\npub mod "@ + snake_case_of(name) + " {\n"@
        + "#[allow(unused_imports)]\nuse wit_bindgen_wasmer::{anyhow, wasmer};\n"@
}

/// How the module of an interface begins.
pub fn print_module_head(name: &str) -> (r: String)
    ensures
        r@ == module_head(name@),
{
    let mut out = String::from_str("#[allow(clippy::all)]\npub mod ");
    let snake = snake_case_name(name);
    out.append(snake.as_str());
    out.append(" {\n");
    out.append("#[allow(unused_imports)]\nuse wit_bindgen_wasmer::{anyhow, wasmer};\n");
    out
}

/// What the functions of an interface are bound with: the options, the
/// interface with its names and its layout, and whether it has resources.
pub struct Setting<'a> {
    pub opts: &'a Opts,
    pub iface: &'a Interface,
    pub names: &'a Names,
    pub sizes: &'a SizeAlign,
    pub has_handles: bool,
}

/// Why a function has no binding.
#[derive(Clone, Copy, Debug, PartialEq, Eq, Structural)]
pub enum BindError {
    /// The function has no protocol.
    Protocol(CompileError),
    /// The protocol has an instruction that the bindings have no code for.
    Code,
}

/// What the binding of one function asks of the code around it.
pub struct Bound {
    /// The functions of the guest that the binding calls to manage the
    /// guest's memory: the one that allocates first.
    pub functions: Vec<LazyFunction>,
    /// What the code of the binding needs.
    pub needs: Requirements,
    /// Whether a slice in the signature is read through the wrapper that
    /// knows the byte order of its elements.
    pub needs_le: bool,
}

/// The printer of the types of an interface.
pub open spec fn printer_of<'a>(s: Setting<'a>, in_import: bool, projection: Option<&'a str>) -> Printer<
    'a,
> {
    Printer { iface: s.iface, names: s.names, sizes: s.sizes, in_import, projection }
}

/// Whether `call` is what the options and the interface say of `func`.
pub open spec fn call_is(s: Setting, func: Function, call: CallInfo) -> bool {
    &&& call.is_async == s.opts.async_.spec_includes(func.name@)
    &&& call.tracing == s.opts.tracing
    &&& call.has_handles == s.has_handles
    &&& match call.ret {
        FunctionRet::Normal => !s.opts.custom_error,
        FunctionRet::CustomToTrap => s.opts.custom_error && declared_error(*s.iface, func) is None,
        FunctionRet::CustomToError { ok, err } => s.opts.custom_error && declared_error(
            *s.iface,
            func,
        ) == Some((ok, err@)),
    }
    &&& call.result_is_unit == (func.result is Unit)
    &&& texts(call.params@) == param_idents(func.params@)
}

/// Whether `f` is the function `name` of the guest, of the given kind.
pub open spec fn is_function(f: LazyFunction, name: Seq<char>, kind: NeededFunction) -> bool {
    f.name@ == name && f.kind == kind
}

/// Whether `fs` are the functions of the guest that a binding asks for: the
/// one that allocates first, where both are asked for.
pub open spec fn functions_are(fs: Seq<LazyFunction>, realloc: bool, free: bool) -> bool {
    &&& fs.len() == (if realloc {
        1nat
    } else {
        0nat
    }) + (if free {
        1nat
    } else {
        0nat
    })
    &&& realloc ==> is_function(fs[0], "canonical_abi_realloc"@, NeededFunction::Realloc)
    &&& free ==> is_function(fs[fs.len() - 1], "canonical_abi_free"@, NeededFunction::Free)
}

/// The names of the core arguments of the closure that implements an
/// import.
pub open spec fn args_are(args: Seq<String>, n: nat) -> bool {
    &&& args.len() == n
    &&& forall|i: int| 0 <= i < n ==> (#[trigger] args[i])@ == spec_numbered("arg"@, decimal(i as nat))
}

/// The result of the method of the host's trait, and whether a slice in it
/// is read through the wrapper that knows the byte order of its elements.
pub open spec fn host_result(p: Printer, func: Function, ret: FunctionRet) -> (Seq<char>, bool) {
    match ret {
        FunctionRet::Normal => (
            " -> "@ + type_text(p, func.result, TypeMode::Owned, p.iface.types@.len()).0,
            type_text(p, func.result, TypeMode::Owned, p.iface.types@.len()).1,
        ),
        FunctionRet::CustomToTrap => (
            " -> Result<"@ + type_text(p, func.result, TypeMode::Owned, p.iface.types@.len()).0
                + ", Self::Error>"@,
            type_text(p, func.result, TypeMode::Owned, p.iface.types@.len()).1,
        ),
        FunctionRet::CustomToError { ok, .. } => (
            " -> Result<"@ + type_text(p, ok, TypeMode::Owned, p.iface.types@.len()).0
                + ", Self::Error>"@,
            type_text(p, ok, TypeMode::Owned, p.iface.types@.len()).1,
        ),
    }
}

/// The statements that a protocol was rendered to, or nothing where the
/// bindings have no code for it.
pub open spec fn body_of(done: Option<(RendererView, Seq<Seq<Seq<char>>>)>) -> Seq<char> {
    match done {
        Some(state) => state.0.src,
        None => Seq::empty(),
    }
}

/// The head of the closure that implements an import with the core
/// signature `sig`.
pub open spec fn closure_head_of(sig: SignatureView) -> Seq<char> {
    spec_closure_open(closure_params(sig.params, sig.params.len()), spec_result_type(sig.results))
}

/// The protocol by which the host implements the function at `index`.
pub open spec fn host_protocol(s: Setting, index: nat) -> Seq<StepView> {
    protocol(
        Ctx {
            types: s.iface.types@,
            variant: AbiVariant::GuestImport,
            lift_lower: LiftLower::LiftArgsLowerResults,
        },
        s.iface.functions@[index as int],
        index,
    )
}

/// The protocol by which the host calls the function at `index`.
pub open spec fn guest_protocol(s: Setting, index: nat) -> Seq<StepView> {
    protocol(
        Ctx {
            types: s.iface.types@,
            variant: AbiVariant::GuestExport,
            lift_lower: LiftLower::LowerArgsLiftResults,
        },
        s.iface.functions@[index as int],
        index,
    )
}

/// Why the host has no binding to implement the function at `index` with,
/// if it has none.
pub open spec fn host_error(s: Setting, index: nat, call: CallInfo, args: Vec<String>) -> Option<
    BindError,
> {
    let steps = host_protocol(s, index);
    if protocol_error(*s.iface, AbiVariant::GuestImport, index) is Some {
        Some(BindError::Protocol(protocol_error(*s.iface, AbiVariant::GuestImport, index)->0))
    } else if rendered(
        Context { names: s.names, iface: s.iface, sizes: s.sizes, args: &args, call: &call },
        steps,
        true,
        steps.len(),
    ) is None {
        Some(BindError::Code)
    } else {
        None
    }
}

/// Whether `import` is the binding by which the host implements the
/// function at `index`, and `b` what it asks for: the method of the host's
/// trait, and the closure that lifts the core arguments named by `args`,
/// calls the method as `call` says, and lowers what it returns. What the
/// closure looks up is what the code of this function needs, whatever the
/// other functions of the interface need.
pub open spec fn host_bound(
    s: Setting,
    index: nat,
    call: CallInfo,
    args: Vec<String>,
    b: Bound,
    import: Import,
) -> bool {
    let func = s.iface.functions@[index as int];
    let steps = host_protocol(s, index);
    let sig = spec_signature(s.iface.types@, AbiVariant::GuestImport, func);
    let p = printer_of(s, true, Some("Self"));
    let mode = TypeMode::LeafBorrowed(Lifetime::Anonymous);
    let done = rendered(
        Context { names: s.names, iface: s.iface, sizes: s.sizes, args: &args, call: &call },
        steps,
        true,
        steps.len(),
    );
    &&& index < s.iface.functions@.len()
    &&& b.needs == of_steps(steps, true, steps.len())
    &&& functions_are(b.functions@, b.needs.realloc, b.needs.free)
    &&& b.needs_le == (params_text(p, func.params@, mode, func.params@.len()).1 || host_result(
        p,
        func,
        call.ret,
    ).1)
    &&& import.is_async == call.is_async
    &&& import.name@ == func.name@
    &&& import.trait_signature@ == signature_head(
        p,
        func,
        index as int,
        mode,
        FnSig { async_: false, private: true, self_arg: Some("&mut self") },
    ) + host_result(p, func, call.ret).0
    &&& done is Some
    &&& import.closure@ == spec_export_closure(
        closure_head_of(sig),
        ClosureInfo {
            is_async: call.is_async,
            tracing: s.opts.tracing,
            needs_memory: reaches_memory(b.needs),
            needs_borrow_checker: b.needs.borrow_checker,
            has_handles: s.has_handles,
        },
        s.iface.name@,
        func.name@,
        b.functions@,
        body_of(done),
    )
}

/// The functions of the guest that a binding with the given needs calls to
/// manage the guest's memory.
pub fn needed_functions(needs: Requirements) -> (r: Vec<LazyFunction>)
    ensures
        functions_are(r@, needs.realloc, needs.free),
{
    let mut out: Vec<LazyFunction> = Vec::new();
    if needs.realloc {
        out.push(
            LazyFunction {
                name: String::from_str("canonical_abi_realloc"),
                kind: NeededFunction::Realloc,
            },
        );
    }
    if needs.free {
        out.push(
            LazyFunction { name: String::from_str("canonical_abi_free"), kind: NeededFunction::Free },
        );
    }
    out
}

/// What the rendering of the call of `func` needs to know of it, where
/// `params` are the identifiers of its parameters.
pub fn call_info(s: &Setting, func: &Function, params: Vec<String>) -> (r: CallInfo)
    requires
        texts(params@) == param_idents(func.params@),
    ensures
        call_is(*s, *func, r),
{
    let result_is_unit = match func.result {
        Type::Unit => true,
        _ => false,
    };
    CallInfo {
        is_async: s.opts.async_.includes(func.name.as_str()),
        tracing: s.opts.tracing,
        has_handles: s.has_handles,
        ret: classify_fn_ret(s.opts.custom_error, s.iface, func),
        result_is_unit,
        params,
    }
}

/// The result of the method of the host's trait.
pub fn print_host_result(p: &Printer, func: &Function, ret: &FunctionRet) -> (r: (String, bool))
    ensures
        (r.0@, r.1) == host_result(*p, *func, *ret),
{
    match ret {
        FunctionRet::Normal => {
            let ty = p.print_ty(&func.result, TypeMode::Owned, p.iface.types.len());
            let mut out = String::from_str(" -> ");
            out.append(ty.0.as_str());
            (out, ty.1)
        },
        FunctionRet::CustomToTrap => {
            let ty = p.print_ty(&func.result, TypeMode::Owned, p.iface.types.len());
            let mut out = String::from_str(" -> Result<");
            out.append(ty.0.as_str());
            out.append(", Self::Error>");
            (out, ty.1)
        },
        FunctionRet::CustomToError { ok, .. } => {
            let ty = p.print_ty(ok, TypeMode::Owned, p.iface.types.len());
            let mut out = String::from_str(" -> Result<");
            out.append(ty.0.as_str());
            out.append(", Self::Error>");
            (out, ty.1)
        },
    }
}

/// Binds the function at `index` for the host to implement. The bindings
/// have nothing for a function that is declared to be asynchronous.
pub fn host_function(s: &Setting, index: usize, call: &CallInfo, args: &Vec<String>) -> (r: Result<
    (Bound, Import),
    BindError,
>)
    requires
        index < s.iface.functions@.len() ==> !s.iface.functions@[index as int].is_async,
    ensures
        match r {
            Ok(b) => host_error(*s, index as nat, *call, *args) is None && host_bound(
                *s,
                index as nat,
                *call,
                *args,
                b.0,
                b.1,
            ),
            Err(e) => host_error(*s, index as nat, *call, *args) == Some(e),
        },
{
    let steps = match compile(
        s.iface,
        AbiVariant::GuestImport,
        LiftLower::LiftArgsLowerResults,
        index,
    ) {
        Ok(steps) => steps,
        Err(e) => {
            return Err(BindError::Protocol(e));
        },
    };
    let func = &s.iface.functions[index];
    let cx = Context { names: s.names, iface: s.iface, sizes: s.sizes, args, call };
    let body = match render(&cx, &steps, true) {
        Ok(body) => body,
        Err(_) => {
            return Err(BindError::Code);
        },
    };
    let needs = Requirements::of_protocol(&steps, true);
    let functions = needed_functions(needs);
    let p = Printer {
        iface: s.iface,
        names: s.names,
        sizes: s.sizes,
        in_import: true,
        projection: Some("Self"),
    };
    let sig = FnSig { async_: false, private: true, self_arg: Some("&mut self") };
    let head = p.print_docs_and_params(
        func,
        index,
        TypeMode::LeafBorrowed(Lifetime::Anonymous),
        &sig,
    );
    let result = print_host_result(&p, func, &call.ret);
    let mut signature = head.text;
    signature.append(result.0.as_str());
    let core = s.iface.wasm_signature(AbiVariant::GuestImport, func);
    let info = ClosureInfo {
        is_async: call.is_async,
        tracing: s.opts.tracing,
        needs_memory: needs.memory || needs.borrow_checker,
        needs_borrow_checker: needs.borrow_checker,
        has_handles: s.has_handles,
    };
    let opening = closure_head(&core);
    let text = export_closure(
        opening.as_str(),
        &info,
        s.iface.name.as_str(),
        func.name.as_str(),
        &functions,
        body.as_str(),
    );
    Ok(
        (
            Bound { functions, needs, needs_le: head.needs_le || result.1 },
            Import {
                is_async: call.is_async,
                name: func.name.clone(),
                trait_signature: signature,
                closure: text,
            },
        ),
    )
}

/// Why the host has no binding to call the function at `index` with, if it
/// has none.
pub open spec fn guest_error(s: Setting, index: nat, call: CallInfo) -> Option<BindError> {
    let steps = guest_protocol(s, index);
    if protocol_error(*s.iface, AbiVariant::GuestExport, index) is Some {
        Some(BindError::Protocol(protocol_error(*s.iface, AbiVariant::GuestExport, index)->0))
    } else if rendered(
        Context { names: s.names, iface: s.iface, sizes: s.sizes, args: &call.params, call: &call },
        steps,
        false,
        steps.len(),
    ) is None {
        Some(BindError::Code)
    } else {
        None
    }
}

/// The head of the method that calls the function at `index` of the guest.
pub open spec fn guest_head(s: Setting, index: nat) -> Seq<char> {
    let func = s.iface.functions@[index as int];
    let p = printer_of(s, false, None);
    signature_head(
        p,
        func,
        index as int,
        TypeMode::AllBorrowed(Lifetime::Anonymous),
        FnSig {
            async_: !(s.opts.async_ is Never),
            private: false,
            self_arg: Some("&self, store: &mut wasmer::Store"),
        },
    ) + "-> Result<"@ + type_text(p, func.result, TypeMode::Owned, s.iface.types@.len()).0
        + ", wasmer::RuntimeError> {\n"@
}

/// Whether `method` is the binding by which the host calls the function at
/// `index` of the guest, and `b` what it asks for: the method lowers its
/// parameters, calls the function and lifts what it returns, as `call`
/// says.
pub open spec fn guest_bound(s: Setting, index: nat, call: CallInfo, b: Bound, method: String) -> bool {
    let func = s.iface.functions@[index as int];
    let steps = guest_protocol(s, index);
    let p = printer_of(s, false, None);
    let done = rendered(
        Context { names: s.names, iface: s.iface, sizes: s.sizes, args: &call.params, call: &call },
        steps,
        false,
        steps.len(),
    );
    &&& index < s.iface.functions@.len()
    &&& b.needs == of_steps(steps, false, steps.len())
    &&& functions_are(b.functions@, b.needs.realloc, b.needs.free)
    &&& b.needs_le == (params_text(
        p,
        func.params@,
        TypeMode::AllBorrowed(Lifetime::Anonymous),
        func.params@.len(),
    ).1 || type_text(p, func.result, TypeMode::Owned, s.iface.types@.len()).1)
    &&& done is Some
    &&& method@ == spec_import_function(guest_head(s, index), b.functions@, b.needs.memory, body_of(done))
}

/// Whether `field` is the field of the exports that holds the function at
/// `index` of the guest.
pub open spec fn guest_field(s: Setting, index: nat, field: ExportField) -> bool {
    let func = s.iface.functions@[index as int];
    let sig = spec_signature(s.iface.types@, AbiVariant::GuestExport, func);
    &&& field.name@ == spec_func_field(text_at(texts(s.names.functions@), index as int))
    &&& field.ty@ == spec_typed_function(spec_cvt_side(sig.params) + ", "@ + spec_cvt_side(sig.results))
    &&& field.get@ == spec_get_typed_function(func.name@)
}

/// Binds the function at `index` for the host to call. The bindings have
/// nothing for a function that is declared to be asynchronous.
pub fn guest_function(s: &Setting, index: usize, call: &CallInfo) -> (r: Result<
    (Bound, String, ExportField),
    BindError,
>)
    requires
        index < s.iface.functions@.len() ==> !s.iface.functions@[index as int].is_async,
    ensures
        match r {
            Ok(b) => guest_error(*s, index as nat, *call) is None && guest_bound(
                *s,
                index as nat,
                *call,
                b.0,
                b.1,
            ) && guest_field(*s, index as nat, b.2),
            Err(e) => guest_error(*s, index as nat, *call) == Some(e),
        },
{
    let steps = match compile(
        s.iface,
        AbiVariant::GuestExport,
        LiftLower::LowerArgsLiftResults,
        index,
    ) {
        Ok(steps) => steps,
        Err(e) => {
            return Err(BindError::Protocol(e));
        },
    };
    let func = &s.iface.functions[index];
    let cx = Context { names: s.names, iface: s.iface, sizes: s.sizes, args: &call.params, call };
    let body = match render(&cx, &steps, false) {
        Ok(body) => body,
        Err(_) => {
            return Err(BindError::Code);
        },
    };
    let needs = Requirements::of_protocol(&steps, false);
    let functions = needed_functions(needs);
    let p = Printer {
        iface: s.iface,
        names: s.names,
        sizes: s.sizes,
        in_import: false,
        projection: None,
    };
    let sig = FnSig {
        async_: !s.opts.async_.is_none(),
        private: false,
        self_arg: Some("&self, store: &mut wasmer::Store"),
    };
    let head = p.print_docs_and_params(func, index, TypeMode::AllBorrowed(Lifetime::Anonymous), &sig);
    let result = p.print_ty(&func.result, TypeMode::Owned, s.iface.types.len());
    let mut signature = head.text;
    signature.append("-> Result<");
    signature.append(result.0.as_str());
    signature.append(", wasmer::RuntimeError> {\n");
    let text = import_function(signature.as_str(), &functions, needs.memory, body.as_str());
    let core = s.iface.wasm_signature(AbiVariant::GuestExport, func);
    let converted = cvt(&core);
    let field = typed_field(get_text(&s.names.functions, index), converted.as_str(), func.name.as_str());
    Ok((Bound { functions, needs, needs_le: head.needs_le || result.1 }, text, field))
}

/// What the first `n` bindings need together.
pub open spec fn needs_of(bound: Seq<Bound>, n: nat) -> Requirements
    decreases n,
{
    if n == 0 || n > bound.len() {
        spec_none()
    } else {
        spec_merge(needs_of(bound, (n - 1) as nat), bound[n - 1].needs)
    }
}

/// Whether one of the first `n` bindings has a slice that is read through
/// the wrapper that knows the byte order of its elements.
pub open spec fn le_of(bound: Seq<Bound>, n: nat) -> bool
    decreases n,
{
    if n == 0 || n > bound.len() {
        false
    } else {
        le_of(bound, (n - 1) as nat) || bound[n - 1].needs_le
    }
}

/// Whether the bindings with the given needs reach into the guest's memory.
pub open spec fn reaches_memory(needs: Requirements) -> bool {
    needs.memory || needs.borrow_checker
}

/// The bindings of the functions that the host implements, one to a
/// function, and what each was made with.
pub struct HostSide {
    /// What the call of each function was rendered with.
    pub calls: Vec<CallInfo>,
    /// The names of the core arguments of each closure.
    pub args: Vec<Vec<String>>,
    /// What each binding asks for.
    pub bound: Vec<Bound>,
    /// The bindings.
    pub imports: Vec<Import>,
}

/// A function that could not be bound, what it was to be bound with, and
/// why it could not.
#[derive(Debug)]
pub struct Failure {
    pub index: usize,
    pub error: BindError,
    pub call: CallInfo,
    pub args: Vec<String>,
}

/// Whether the parts of `h` at `i` are the binding of the function at `i`.
pub open spec fn host_at(s: Setting, h: HostSide, i: int) -> bool {
    let func = s.iface.functions@[i];
    &&& call_is(s, func, h.calls@[i])
    &&& args_are(h.args@[i]@, spec_signature(s.iface.types@, AbiVariant::GuestImport, func).params.len())
    &&& host_error(s, i as nat, h.calls@[i], h.args@[i]) is None
    &&& host_bound(
        s,
        i as nat,
        h.calls@[i],
        h.args@[i],
        h.bound@[i],
        h.imports@[i],
    )
}

/// Whether `h` holds the bindings of the first `n` functions.
pub open spec fn host_side(s: Setting, h: HostSide, n: nat) -> bool {
    &&& n <= s.iface.functions@.len()
    &&& h.calls@.len() == n
    &&& h.args@.len() == n
    &&& h.bound@.len() == n
    &&& h.imports@.len() == n
    &&& forall|i: int| 0 <= i < n ==> #[trigger] host_at(s, h, i)
}

/// The identifiers of the parameters of `func`.
pub fn param_names(func: &Function) -> (r: Vec<String>)
    ensures
        texts(r@) == param_idents(func.params@),
{
    let mut out: Vec<String> = Vec::new();
    let mut k: usize = 0;
    while k < func.params.len()
        invariant
            k <= func.params@.len(),
            out@.len() == k,
            forall|j: int| 0 <= j < k ==> (#[trigger] out@[j])@ == rust_ident_of(func.params@[j].0@),
        decreases func.params@.len() - k,
    {
        out.push(to_rust_ident(func.params[k].0.as_str()));
        k += 1;
    }
    assert(texts(out@) =~= param_idents(func.params@));
    out
}

/// Binds every function of the interface for the host to implement, in
/// their order.
pub fn bind_host(s: &Setting) -> (r: Result<HostSide, Failure>)
    requires
        !declares_async(*s.iface),
    ensures
        match r {
            Ok(h) => host_side(*s, h, s.iface.functions@.len()),
            Err(f) => {
                let func = s.iface.functions@[f.index as int];
                &&& f.index < s.iface.functions@.len()
                &&& call_is(*s, func, f.call)
                &&& args_are(
                    f.args@,
                    spec_signature(s.iface.types@, AbiVariant::GuestImport, func).params.len(),
                )
                &&& host_error(*s, f.index as nat, f.call, f.args) == Some(f.error)
            },
        },
{
    let mut h = HostSide { calls: Vec::new(), args: Vec::new(), bound: Vec::new(), imports: Vec::new() };
    let mut i: usize = 0;
    while i < s.iface.functions.len()
        invariant
            i <= s.iface.functions@.len(),
            !declares_async(*s.iface),
            host_side(*s, h, i as nat),
        decreases s.iface.functions@.len() - i,
    {
        let func = &s.iface.functions[i];
        let call = call_info(s, func, param_names(func));
        let core = s.iface.wasm_signature(AbiVariant::GuestImport, func);
        let args = closure_args(core.params.len());
        match host_function(s, i, &call, &args) {
            Err(error) => {
                return Err(Failure { index: i, error, call, args });
            },
            Ok(made) => {
                let ghost before = h;
                h.calls.push(call);
                h.args.push(args);
                h.bound.push(made.0);
                h.imports.push(made.1);
                proof {
                    assert forall|j: int| 0 <= j < i + 1 implies #[trigger] host_at(*s, h, j) by {
                        if j < i {
                            assert(host_at(*s, before, j));
                        }
                    }
                }
            },
        }
        i += 1;
    }
    Ok(h)
}

/// `fields`, which are in the order of their names, with `f` at its place:
/// in the place of the field of its name, where there is one.
pub open spec fn field_insert(fields: Seq<ExportField>, f: ExportField) -> Seq<ExportField>
    decreases fields.len(),
{
    if fields.len() == 0 {
        seq![f]
    } else if fields[0].name@ == f.name@ {
        seq![f] + fields.drop_first()
    } else if seq_lt(f.name@, fields[0].name@) {
        seq![f] + fields
    } else {
        seq![fields[0]] + field_insert(fields.drop_first(), f)
    }
}

/// `fields` with the first `n` of `items`, each put at its place in turn.
pub open spec fn fields_with(fields: Seq<ExportField>, items: Seq<ExportField>, n: nat) -> Seq<
    ExportField,
>
    decreases n,
{
    if n == 0 || n > items.len() {
        fields
    } else {
        field_insert(fields_with(fields, items, (n - 1) as nat), items[n - 1])
    }
}

/// The fields of the exports after the first `n` functions have put in
/// theirs.
pub open spec fn fields_of(inserted: Seq<Vec<ExportField>>, n: nat) -> Seq<ExportField>
    decreases n,
{
    if n == 0 || n > inserted.len() {
        Seq::empty()
    } else {
        fields_with(fields_of(inserted, (n - 1) as nat), inserted[n - 1]@, inserted[n - 1]@.len())
    }
}

/// The fields after the first `n` functions depend on them alone.
pub proof fn lemma_fields_of_prefix(a: Seq<Vec<ExportField>>, b: Seq<Vec<ExportField>>, n: nat)
    requires
        n <= a.len(),
        n <= b.len(),
        forall|i: int| 0 <= i < n ==> a[i] == b[i],
    ensures
        fields_of(a, n) == fields_of(b, n),
    decreases n,
{
    if n > 0 {
        lemma_fields_of_prefix(a, b, (n - 1) as nat);
    }
}

/// Puts `f` at its place in `fields`.
pub fn insert_field(fields: &mut Vec<ExportField>, f: ExportField)
    ensures
        final(fields)@ == field_insert(old(fields)@, f),
{
    let key = chars_of(f.name.as_str());
    let ghost all = fields@;
    let mut i: usize = 0;
    assert(all.skip(0) =~= all);
    assert(all.take(0) + field_insert(all, f) =~= field_insert(all, f));
    while i < fields.len()
        invariant
            i <= fields@.len(),
            fields@ == all,
            all == old(fields)@,
            key@ == f.name@,
            field_insert(all, f) == all.take(i as int) + field_insert(all.skip(i as int), f),
        decreases fields@.len() - i,
    {
        let here = chars_of(fields[i].name.as_str());
        let ghost rest = all.skip(i as int);
        assert(rest[0] == all[i as int]);
        assert(rest.len() > 0);
        assert(rest.drop_first() =~= all.skip(i + 1));
        match order_of(&key, &here) {
            Order::Same => {
                assert(field_insert(rest, f) == seq![f] + rest.drop_first());
                fields.set(i, f);
                assert(fields@ =~= all.take(i as int) + (seq![f] + all.skip(i + 1)));
                return ;
            },
            Order::Before => {
                assert(field_insert(rest, f) == seq![f] + rest);
                fields.insert(i, f);
                assert(fields@ =~= all.take(i as int) + (seq![f] + rest));
                return ;
            },
            Order::After => {
                assert(field_insert(rest, f) == seq![rest[0]] + field_insert(rest.drop_first(), f));
                assert(all.take(i as int) + (seq![all[i as int]] + field_insert(all.skip(i + 1), f))
                    =~= all.take(i + 1) + field_insert(all.skip(i + 1), f));
                i += 1;
            },
        }
    }
    fields.push(f);
    assert(fields@ =~= all.take(i as int) + seq![f]);
}

/// Whether `field` holds the function `function` of the guest.
pub open spec fn is_function_field(field: ExportField, function: LazyFunction) -> bool {
    &&& field.name@ == spec_func_field(function.name@)
    &&& field.ty@ == "wasmer::TypedFunction<"@ + function.kind.spec_cvt() + ">"@
    &&& field.get@ == spec_get_typed_function(function.name@)
}

/// Whether `field` holds the guest's memory.
pub open spec fn is_memory_field(field: ExportField) -> bool {
    &&& field.name@ == "memory"@
    &&& field.ty@ == "wasmer::Memory"@
    &&& field.get@ == "_instance.exports.get_memory(\"memory\")?.clone()"@
}

/// Whether `items` are the fields that the binding of one function puts
/// into the exports: those of the functions that manage the guest's memory,
/// that of the memory where the binding needs it, and last `typed`, that of
/// the function.
pub open spec fn fields_are(items: Seq<ExportField>, functions: Seq<LazyFunction>, memory: bool, typed: ExportField) -> bool {
    &&& items.len() == functions.len() + (if memory {
        1nat
    } else {
        0nat
    }) + 1
    &&& forall|j: int| 0 <= j < functions.len() ==> is_function_field(#[trigger] items[j], functions[j])
    &&& memory ==> is_memory_field(items[functions.len() as int])
    &&& items[items.len() - 1] == typed
}

/// The fields that the binding of one function puts into the exports.
pub fn fields_for(functions: &Vec<LazyFunction>, memory: bool, typed: ExportField) -> (r: Vec<ExportField>)
    ensures
        fields_are(r@, functions@, memory, typed),
{
    let mut out: Vec<ExportField> = Vec::new();
    let mut j: usize = 0;
    while j < functions.len()
        invariant
            j <= functions@.len(),
            out@.len() == j,
            forall|k: int| 0 <= k < j ==> is_function_field(#[trigger] out@[k], functions@[k]),
        decreases functions@.len() - j,
    {
        out.push(function_field(&functions[j]));
        j += 1;
    }
    if memory {
        out.push(memory_field());
    }
    out.push(typed);
    out
}

/// Puts each of `items` at its place in `fields`, in their order.
pub fn insert_fields(fields: &mut Vec<ExportField>, items: &Vec<ExportField>)
    ensures
        final(fields)@ == fields_with(old(fields)@, items@, items@.len()),
{
    let mut k: usize = 0;
    while k < items.len()
        invariant
            k <= items@.len(),
            fields@ == fields_with(old(fields)@, items@, k as nat),
        decreases items@.len() - k,
    {
        insert_field(fields, copy_field(&items[k]));
        k += 1;
    }
}

/// A field like `f`.
pub fn copy_field(f: &ExportField) -> (r: ExportField)
    ensures
        r == *f,
{
    ExportField { name: f.name.clone(), ty: f.ty.clone(), get: f.get.clone() }
}

/// The bindings of the functions that the host calls, one to a function,
/// what each was made with, and the fields of the exports.
pub struct GuestSide {
    /// What the call of each function was rendered with.
    pub calls: Vec<CallInfo>,
    /// What each binding asks for.
    pub bound: Vec<Bound>,
    /// The methods.
    pub funcs: Vec<String>,
    /// The fields that each binding put into the exports.
    pub inserted: Vec<Vec<ExportField>>,
    /// The fields of the exports, in the order of their names.
    pub fields: Vec<ExportField>,
}

/// Whether the parts of `g` at `i` are the binding of the function at `i`.
pub open spec fn guest_at(s: Setting, g: GuestSide, i: int) -> bool {
    let func = s.iface.functions@[i];
    let items = g.inserted@[i]@;
    &&& call_is(s, func, g.calls@[i])
    &&& guest_error(s, i as nat, g.calls@[i]) is None
    &&& guest_bound(s, i as nat, g.calls@[i], g.bound@[i], g.funcs@[i])
    &&& items.len() > 0
    &&& guest_field(s, i as nat, items[items.len() - 1])
    &&& fields_are(items, g.bound@[i].functions@, g.bound@[i].needs.memory, items[items.len() - 1])
}

/// Whether `g` holds the bindings of the first `n` functions.
pub open spec fn guest_side(s: Setting, g: GuestSide, n: nat) -> bool {
    &&& n <= s.iface.functions@.len()
    &&& g.calls@.len() == n
    &&& g.bound@.len() == n
    &&& g.funcs@.len() == n
    &&& g.inserted@.len() == n
    &&& forall|i: int| 0 <= i < n ==> #[trigger] guest_at(s, g, i)
    &&& g.fields@ == fields_of(g.inserted@, n)
}

/// Binds every function of the interface for the host to call, in their
/// order.
pub fn bind_guest(s: &Setting) -> (r: Result<GuestSide, Failure>)
    requires
        !declares_async(*s.iface),
    ensures
        match r {
            Ok(g) => guest_side(*s, g, s.iface.functions@.len()),
            Err(f) => {
                &&& f.index < s.iface.functions@.len()
                &&& call_is(*s, s.iface.functions@[f.index as int], f.call)
                &&& guest_error(*s, f.index as nat, f.call) == Some(f.error)
            },
        },
{
    let mut calls: Vec<CallInfo> = Vec::new();
    let mut bound: Vec<Bound> = Vec::new();
    let mut funcs: Vec<String> = Vec::new();
    let mut inserted: Vec<Vec<ExportField>> = Vec::new();
    let mut fields: Vec<ExportField> = Vec::new();
    let mut i: usize = 0;
    while i < s.iface.functions.len()
        invariant
            i <= s.iface.functions@.len(),
            !declares_async(*s.iface),
            guest_side(*s, GuestSide { calls, bound, funcs, inserted, fields }, i as nat),
        decreases s.iface.functions@.len() - i,
    {
        let func = &s.iface.functions[i];
        let call = call_info(s, func, param_names(func));
        match guest_function(s, i, &call) {
            Err(error) => {
                return Err(Failure { index: i, error, call, args: Vec::new() });
            },
            Ok(made) => {
                let ghost before = GuestSide { calls, bound, funcs, inserted, fields };
                let items = fields_for(&made.0.functions, made.0.needs.memory, made.2);
                insert_fields(&mut fields, &items);
                calls.push(call);
                bound.push(made.0);
                funcs.push(made.1);
                inserted.push(items);
                proof {
                    let after = GuestSide { calls, bound, funcs, inserted, fields };
                    assert forall|j: int| 0 <= j < i + 1 implies #[trigger] guest_at(*s, after, j) by {
                        if j < i {
                            assert(guest_at(*s, before, j));
                        }
                    }
                    lemma_fields_of_prefix(before.inserted@, after.inserted@, i as nat);
                }
            },
        }
        i += 1;
    }
    Ok(GuestSide { calls, bound, funcs, inserted, fields })
}

/// The names of the first `n` resources, in order, each once.
pub open spec fn handle_names(iface: Interface, n: nat) -> Seq<Seq<char>>
    decreases n,
{
    if n == 0 || n > iface.resources@.len() {
        Seq::empty()
    } else {
        sorted_insert(handle_names(iface, (n - 1) as nat), iface.resources@[n - 1].name@)
    }
}

/// Whether `handles` are the resources of the given names.
pub open spec fn handles_are(handles: Seq<Handle>, names: Seq<Seq<char>>) -> bool {
    &&& handles.len() == names.len()
    &&& forall|i: int|
        0 <= i < names.len() ==> {
            &&& (#[trigger] handles[i]).name@ == names[i]
            &&& handles[i].snake@ == snake_case_of(names[i])
            &&& handles[i].camel@ == camel_case_of(names[i])
        }
}

/// The resources that the bindings of an interface have handles of, in the
/// order of their names.
pub fn needed_handles(iface: &Interface) -> (r: Vec<Handle>)
    ensures
        handles_are(r@, handle_names(*iface, iface.resources@.len())),
{
    let mut names: Vec<String> = Vec::new();
    let mut i: usize = 0;
    assert(names_view(names@) =~= handle_names(*iface, 0));
    while i < iface.resources.len()
        invariant
            i <= iface.resources@.len(),
            names_view(names@) == handle_names(*iface, i as nat),
        decreases iface.resources@.len() - i,
    {
        insert_name(&mut names, iface.resources[i].name.as_str());
        i += 1;
    }
    let mut out: Vec<Handle> = Vec::new();
    let mut k: usize = 0;
    while k < names.len()
        invariant
            k <= names@.len(),
            out@.len() == k,
            forall|j: int|
                0 <= j < k ==> {
                    &&& (#[trigger] out@[j]).name@ == names@[j]@
                    &&& out@[j].snake@ == snake_case_of(names@[j]@)
                    &&& out@[j].camel@ == camel_case_of(names@[j]@)
                },
        decreases names@.len() - k,
    {
        let name = names[k].as_str();
        out.push(
            Handle {
                name: names[k].clone(),
                snake: snake_case_name(name),
                camel: camel_case_name(name),
            },
        );
        k += 1;
    }
    out
}

/// Whether `resources` are the resources of the interface, in their order.
pub open spec fn resources_are(resources: Seq<ExportedResource>, iface: Interface) -> bool {
    &&& resources.len() == iface.resources@.len()
    &&& forall|i: int|
        0 <= i < resources.len() ==> {
            &&& (#[trigger] resources[i]).idx == i
            &&& resources[i].name@ == iface.resources@[i].name@
            &&& resources[i].snake@ == snake_case_of(iface.resources@[i].name@)
            &&& resources[i].camel@ == camel_case_of(iface.resources@[i].name@)
        }
}

/// The resources that the guest defines.
pub fn exported_resources(iface: &Interface) -> (r: Vec<ExportedResource>)
    ensures
        resources_are(r@, *iface),
{
    let mut out: Vec<ExportedResource> = Vec::new();
    let mut i: usize = 0;
    while i < iface.resources.len()
        invariant
            i <= iface.resources@.len(),
            out@.len() == i,
            forall|j: int|
                0 <= j < i ==> {
                    &&& (#[trigger] out@[j]).idx == j
                    &&& out@[j].name@ == iface.resources@[j].name@
                    &&& out@[j].snake@ == snake_case_of(iface.resources@[j].name@)
                    &&& out@[j].camel@ == camel_case_of(iface.resources@[j].name@)
                },
        decreases iface.resources@.len() - i,
    {
        let name = iface.resources[i].name.as_str();
        out.push(
            ExportedResource {
                idx: i,
                name: iface.resources[i].name.clone(),
                snake: snake_case_name(name),
                camel: camel_case_name(name),
            },
        );
        i += 1;
    }
    out
}

/// Whether an error of the host aborts one of the first `n` calls.
pub open spec fn traps(calls: Seq<CallInfo>, n: nat) -> bool
    decreases n,
{
    if n == 0 || n > calls.len() {
        false
    } else {
        traps(calls, (n - 1) as nat) || calls[n - 1].ret is CustomToTrap
    }
}

/// The names of the types that an error of the host is turned into by one
/// of the first `n` calls, in order, each once.
pub open spec fn error_names(calls: Seq<CallInfo>, n: nat) -> Seq<Seq<char>>
    decreases n,
{
    if n == 0 || n > calls.len() {
        Seq::empty()
    } else {
        match calls[n - 1].ret {
            FunctionRet::CustomToError { err, .. } => sorted_insert(
                error_names(calls, (n - 1) as nat),
                err@,
            ),
            _ => error_names(calls, (n - 1) as nat),
        }
    }
}

/// Whether `errors` are the types of the given names.
pub open spec fn errors_are(errors: Seq<ErrorType>, names: Seq<Seq<char>>) -> bool {
    &&& errors.len() == names.len()
    &&& forall|i: int|
        0 <= i < names.len() ==> {
            &&& (#[trigger] errors[i]).snake@ == snake_case_of(names[i])
            &&& errors[i].camel@ == camel_case_of(names[i])
        }
}

/// Whether an error of the host aborts a call, and the types that an error
/// of the host is turned into.
pub fn custom_errors(calls: &Vec<CallInfo>) -> (r: (bool, Vec<ErrorType>))
    ensures
        r.0 == traps(calls@, calls@.len()),
        errors_are(r.1@, error_names(calls@, calls@.len())),
{
    let mut trap = false;
    let mut names: Vec<String> = Vec::new();
    let mut i: usize = 0;
    assert(names_view(names@) =~= error_names(calls@, 0));
    while i < calls.len()
        invariant
            i <= calls@.len(),
            trap == traps(calls@, i as nat),
            names_view(names@) == error_names(calls@, i as nat),
        decreases calls@.len() - i,
    {
        match &calls[i].ret {
            FunctionRet::Normal => {},
            FunctionRet::CustomToTrap => {
                trap = true;
            },
            FunctionRet::CustomToError { err, .. } => {
                insert_name(&mut names, err.as_str());
            },
        }
        i += 1;
    }
    let mut out: Vec<ErrorType> = Vec::new();
    let mut k: usize = 0;
    while k < names.len()
        invariant
            k <= names@.len(),
            out@.len() == k,
            forall|j: int|
                0 <= j < k ==> {
                    &&& (#[trigger] out@[j]).snake@ == snake_case_of(names@[j]@)
                    &&& out@[j].camel@ == camel_case_of(names@[j]@)
                },
        decreases names@.len() - k,
    {
        let name = names[k].as_str();
        out.push(ErrorType { snake: snake_case_name(name), camel: camel_case_name(name) });
        k += 1;
    }
    (trap, out)
}

/// Whether `fs` are the functions of the guest that a module asks for, in
/// the order of their names.
pub open spec fn lazy_are(fs: Seq<LazyFunction>, needs: Requirements) -> bool {
    &&& fs.len() == (if needs.free {
        1nat
    } else {
        0nat
    }) + (if needs.realloc {
        1nat
    } else {
        0nat
    })
    &&& needs.free ==> is_function(fs[0], "canonical_abi_free"@, NeededFunction::Free)
    &&& needs.realloc ==> is_function(
        fs[fs.len() - 1],
        "canonical_abi_realloc"@,
        NeededFunction::Realloc,
    )
}

/// The functions of the guest that a module with the given needs calls to
/// manage the guest's memory, in the order of their names.
pub fn lazy_functions(needs: Requirements) -> (r: Vec<LazyFunction>)
    ensures
        lazy_are(r@, needs),
{
    let mut out: Vec<LazyFunction> = Vec::new();
    if needs.free {
        out.push(
            LazyFunction { name: String::from_str("canonical_abi_free"), kind: NeededFunction::Free },
        );
    }
    if needs.realloc {
        out.push(
            LazyFunction {
                name: String::from_str("canonical_abi_realloc"),
                kind: NeededFunction::Realloc,
            },
        );
    }
    out
}

/// What the bindings need together, and whether a slice in one of them is
/// read through the wrapper that knows the byte order of its elements.
pub fn needs_together(bound: &Vec<Bound>) -> (r: (Requirements, bool))
    ensures
        r.0 == needs_of(bound@, bound@.len()),
        r.1 == le_of(bound@, bound@.len()),
{
    let mut needs = Requirements::none();
    let mut le = false;
    let mut i: usize = 0;
    while i < bound.len()
        invariant
            i <= bound@.len(),
            needs == needs_of(bound@, i as nat),
            le == le_of(bound@, i as nat),
        decreases bound@.len() - i,
    {
        needs = needs.merge(bound[i].needs);
        le = le || bound[i].needs_le;
        i += 1;
    }
    (needs, le)
}

/// Whether the definition at `id` is a set of flags with a name and with
/// more flags than an integer of Rust has bits.
pub open spec fn too_many_flags(iface: Interface, id: nat) -> bool {
    &&& id < iface.types@.len()
    &&& iface.types@[id as int].name is Some
    &&& iface.types@[id as int].kind matches TypeDefKind::Flags(f) && spec_repr_count(
        spec_flags_repr(f.flags@.len()),
    ) > 4
}

/// The first of the first `n` definitions that has too many flags.
pub open spec fn flags_error(iface: Interface, n: nat) -> Option<nat>
    decreases n,
{
    if n == 0 || n > iface.types@.len() {
        None
    } else if flags_error(iface, (n - 1) as nat) is Some {
        flags_error(iface, (n - 1) as nat)
    } else if too_many_flags(iface, (n - 1) as nat) {
        Some((n - 1) as nat)
    } else {
        None
    }
}

/// The definitions have their items unless one has too many flags, whatever
/// they are printed with.
pub proof fn lemma_type_items(p: Printer, n: nat)
    requires
        n <= p.iface.types@.len(),
    ensures
        match type_items(p, n) {
            Ok(_) => flags_error(*p.iface, n) is None,
            Err(id) => flags_error(*p.iface, n) == Some(id),
        },
    decreases n,
{
    if n > 0 {
        lemma_type_items(p, (n - 1) as nat);
    }
}

/// The items of the definitions, or nothing where one has too many flags.
pub open spec fn types_text(p: Printer) -> Seq<char> {
    match type_items(p, p.iface.types@.len()) {
        Ok(text) => text,
        Err(_) => Seq::empty(),
    }
}

/// Whether the options make one of the first `n` functions asynchronous.
pub open spec fn includes_any(opts: Opts, iface: Interface, n: nat) -> bool
    decreases n,
{
    if n == 0 || n > iface.functions@.len() {
        false
    } else {
        includes_any(opts, iface, (n - 1) as nat) || opts.async_.spec_includes(
            iface.functions@[n - 1].name@,
        )
    }
}

/// Whether the options ask for asynchronous bindings: where the host
/// implements the functions, for one of them; where it calls them, for any.
pub open spec fn asks_async(opts: Opts, iface: Interface, dir: Direction) -> bool {
    match dir {
        Direction::Export => includes_any(opts, iface, iface.functions@.len()),
        Direction::Import => iface.functions@.len() > 0 && !(opts.async_ is Never),
    }
}

/// Whether the options ask for asynchronous bindings.
pub fn wants_async(opts: &Opts, iface: &Interface, dir: Direction) -> (r: bool)
    ensures
        r == asks_async(*opts, *iface, dir),
{
    match dir {
        Direction::Import => iface.functions.len() > 0 && !opts.async_.is_none(),
        Direction::Export => {
            let mut found = false;
            let mut i: usize = 0;
            while i < iface.functions.len()
                invariant
                    i <= iface.functions@.len(),
                    found == includes_any(*opts, *iface, i as nat),
                decreases iface.functions@.len() - i,
            {
                let here = opts.async_.includes(iface.functions[i].name.as_str());
                found = found || here;
                i += 1;
            }
            found
        },
    }
}

/// Why an interface has no bindings.
#[derive(Debug)]
pub enum GenerateError {
    /// The definitions have no layout.
    Layout(LayoutError),
    /// The options ask for asynchronous bindings.
    Async,
    /// The definition at this position is a set of more flags than an
    /// integer of Rust has bits.
    Flags(usize),
    /// A function could not be bound.
    Function(Failure),
}

/// The module of bindings for one interface: its text, and the parts that
/// the text was put together from.
pub struct Module {
    /// The resources that the bindings have handles of.
    pub handles: Vec<Handle>,
    /// The resources that the guest defines, where the host calls the
    /// functions.
    pub resources: Vec<ExportedResource>,
    /// The types that an error of the host is turned into.
    pub errors: Vec<ErrorType>,
    /// The functions of the guest that the closures call to manage its
    /// memory.
    pub lazy: Vec<LazyFunction>,
    /// The bindings of the functions, where the host implements them.
    pub host: HostSide,
    /// The bindings of the functions, where the host calls them.
    pub guest: GuestSide,
    /// The source of the module.
    pub text: String,
}

/// What the module imports at its end, given what its functions need.
pub open spec fn module_intrinsics(needs: Requirements, once_cell: bool, le: bool) -> Seq<char> {
    spec_intrinsics(
        Intrinsics {
            once_cell,
            raw_mem: needs.raw_mem,
            char_from_i32: needs.char_from_i32,
            invalid_variant: needs.invalid_variant,
            bad_int: needs.bad_int,
            validate_flags: needs.validate_flags,
            le,
            copy_slice: needs.copy_slice,
        },
    )
}

/// The module of an interface whose functions the host implements: the
/// items of the types, the trait of the host with the tables of its
/// handles, the function that adds the closures to the imports of an
/// instance, and the imports of the module itself.
pub open spec fn host_text(
    s: Setting,
    handles: Seq<Handle>,
    errors: Seq<ErrorType>,
    lazy: Seq<LazyFunction>,
    host: HostSide,
) -> Seq<char> {
    let n = s.iface.functions@.len();
    let needs = needs_of(host.bound@, n);
    let memory = reaches_memory(needs);
    let once = memory || needs.realloc || needs.free;
    let camel = camel_case_of(s.iface.name@);
    let head = module_head(s.iface.name@) + types_text(printer_of(s, true, Some("T")));
    let items = if n > 0 {
        head + spec_host_trait(
            camel,
            !(s.opts.async_ is Never),
            handles,
            s.opts.custom_error,
            traps(host.calls@, n),
            errors,
            host.imports@,
        ) + spec_add_to_imports(s.iface.name@, camel, handles, once, memory, lazy, host.imports@)
    } else {
        head
    };
    items + module_intrinsics(needs, once, le_of(host.bound@, n)) + "}\n"@
}

/// The module of an interface whose functions the host implements.
pub open spec fn host_module(s: Setting, m: Module) -> Seq<char> {
    host_text(s, m.handles@, m.errors@, m.lazy@, m.host)
}

/// The module of an interface whose functions the host calls: the items of
/// the types and of the resources, the structure that holds the exports of
/// an instance with its methods, and the imports of the module itself.
pub open spec fn guest_text(s: Setting, resources: Seq<ExportedResource>, guest: GuestSide) -> Seq<
    char,
> {
    let n = s.iface.functions@.len();
    let head = module_head(s.iface.name@) + types_text(printer_of(s, false, None)) + resource_items(
        *s.iface,
        *s.names,
        s.iface.resources@.len(),
    );
    let items = if n > 0 {
        head + spec_exports(
            camel_case_of(s.iface.name@),
            resources,
            guest.fields@,
            guest.funcs@,
            s.has_handles,
        )
    } else {
        head
    };
    items + module_intrinsics(needs_of(guest.bound@, n), resources.len() > 0, le_of(guest.bound@, n))
        + "}\n"@
}

/// The module of an interface whose functions the host calls.
pub open spec fn guest_module(s: Setting, m: Module) -> Seq<char> {
    guest_text(s, m.resources@, m.guest)
}

/// Whether `m` is the module of the interface of `s`: its parts are what
/// the library's functions make of the interface, and its text is what the
/// parts give.
pub open spec fn module_is(s: Setting, dir: Direction, m: Module) -> bool {
    let n = s.iface.functions@.len();
    &&& handles_are(m.handles@, handle_names(*s.iface, s.iface.resources@.len()))
    &&& match dir {
        Direction::Export => {
            &&& host_side(s, m.host, n)
            &&& m.resources@.len() == 0
            &&& errors_are(m.errors@, error_names(m.host.calls@, n))
            &&& lazy_are(m.lazy@, needs_of(m.host.bound@, n))
            &&& m.text@ == host_module(s, m)
        },
        Direction::Import => {
            &&& guest_side(s, m.guest, n)
            &&& resources_are(m.resources@, *s.iface)
            &&& m.errors@.len() == 0
            &&& m.lazy@.len() == 0
            &&& m.text@ == guest_module(s, m)
        },
    }
}

/// Why the interface of `s` has no module, if it has none.
pub open spec fn refused(s: Setting, dir: Direction, e: GenerateError) -> bool {
    let n = s.iface.functions@.len();
    match e {
        GenerateError::Layout(_) => false,
        GenerateError::Async => asks_async(*s.opts, *s.iface, dir),
        GenerateError::Flags(id) => !asks_async(*s.opts, *s.iface, dir) && flags_error(
            *s.iface,
            s.iface.types@.len(),
        ) == Some(id as nat),
        GenerateError::Function(f) => {
            let func = s.iface.functions@[f.index as int];
            &&& !asks_async(*s.opts, *s.iface, dir)
            &&& flags_error(*s.iface, s.iface.types@.len()) is None
            &&& f.index < n
            &&& call_is(s, func, f.call)
            &&& match dir {
                Direction::Export => args_are(
                    f.args@,
                    spec_signature(s.iface.types@, AbiVariant::GuestImport, func).params.len(),
                ) && host_error(s, f.index as nat, f.call, f.args) == Some(f.error),
                Direction::Import => guest_error(s, f.index as nat, f.call) == Some(f.error),
            }
        },
    }
}

/// The text of the module of an interface whose functions the host
/// implements, after `head`.
fn print_host_module(
    s: &Setting,
    head: String,
    handles: &Vec<Handle>,
    errors: &Vec<ErrorType>,
    trap: bool,
    lazy: &Vec<LazyFunction>,
    host: &HostSide,
) -> (r: String)
    requires
        head@ == module_head(s.iface.name@) + types_text(printer_of(*s, true, Some("T"))),
        trap == traps(host.calls@, s.iface.functions@.len()),
        host.bound@.len() == s.iface.functions@.len(),
    ensures
        r@ == host_text(*s, handles@, errors@, lazy@, *host),
{
    let summary = needs_together(&host.bound);
    let needs = summary.0;
    let memory = needs.memory || needs.borrow_checker;
    let once = memory || needs.realloc || needs.free;
    let camel = camel_case_name(s.iface.name.as_str());
    let mut text = head;
    if s.iface.functions.len() > 0 {
        let item = host_trait(
            camel.as_str(),
            !s.opts.async_.is_none(),
            handles,
            s.opts.custom_error,
            trap,
            errors,
            &host.imports,
        );
        text.append(item.as_str());
        let adder = add_to_imports(
            s.iface.name.as_str(),
            camel.as_str(),
            handles,
            once,
            memory,
            lazy,
            &host.imports,
        );
        text.append(adder.as_str());
    }
    let uses = print_intrinsics(intrinsics_of(needs, once, summary.1));
    text.append(uses.as_str());
    text.append("}\n");
    text
}

/// The text of the module of an interface whose functions the host calls,
/// after `head`.
fn print_guest_module(s: &Setting, head: String, resources: &Vec<ExportedResource>, guest: &GuestSide) -> (r:
    String)
    requires
        head@ == module_head(s.iface.name@) + types_text(printer_of(*s, false, None)),
        guest.bound@.len() == s.iface.functions@.len(),
    ensures
        r@ == guest_text(*s, resources@, *guest),
{
    let summary = needs_together(&guest.bound);
    let camel = camel_case_name(s.iface.name.as_str());
    let mut text = head;
    let items = print_resource_items(s.iface, s.names);
    text.append(items.as_str());
    if s.iface.functions.len() > 0 {
        let item = exports(camel.as_str(), resources, &guest.fields, &guest.funcs, s.has_handles);
        text.append(item.as_str());
    }
    let uses = print_intrinsics(intrinsics_of(summary.0, resources.len() > 0, summary.1));
    text.append(uses.as_str());
    text.append("}\n");
    text
}

/// The module of an interface whose functions the host implements.
fn generate_host(s: &Setting, head: String, handles: Vec<Handle>) -> (r: Result<Module, GenerateError>)
    requires
        !declares_async(*s.iface),
        !asks_async(*s.opts, *s.iface, Direction::Export),
        flags_error(*s.iface, s.iface.types@.len()) is None,
        handles_are(handles@, handle_names(*s.iface, s.iface.resources@.len())),
        head@ == module_head(s.iface.name@) + types_text(printer_of(*s, true, Some("T"))),
    ensures
        match r {
            Ok(m) => module_is(*s, Direction::Export, m),
            Err(e) => refused(*s, Direction::Export, e),
        },
{
    let host = match bind_host(s) {
        Ok(host) => host,
        Err(f) => {
            return Err(GenerateError::Function(f));
        },
    };
    let summary = needs_together(&host.bound);
    let custom = custom_errors(&host.calls);
    let lazy = lazy_functions(summary.0);
    let text = print_host_module(s, head, &handles, &custom.1, custom.0, &lazy, &host);
    let guest = GuestSide {
        calls: Vec::new(),
        bound: Vec::new(),
        funcs: Vec::new(),
        inserted: Vec::new(),
        fields: Vec::new(),
    };
    Ok(Module { handles, resources: Vec::new(), errors: custom.1, lazy, host, guest, text })
}

/// The module of an interface whose functions the host calls.
fn generate_guest(s: &Setting, head: String, handles: Vec<Handle>) -> (r: Result<Module, GenerateError>)
    requires
        !declares_async(*s.iface),
        !asks_async(*s.opts, *s.iface, Direction::Import),
        flags_error(*s.iface, s.iface.types@.len()) is None,
        handles_are(handles@, handle_names(*s.iface, s.iface.resources@.len())),
        head@ == module_head(s.iface.name@) + types_text(printer_of(*s, false, None)),
    ensures
        match r {
            Ok(m) => module_is(*s, Direction::Import, m),
            Err(e) => refused(*s, Direction::Import, e),
        },
{
    let guest = match bind_guest(s) {
        Ok(guest) => guest,
        Err(f) => {
            return Err(GenerateError::Function(f));
        },
    };
    let resources = exported_resources(s.iface);
    let text = print_guest_module(s, head, &resources, &guest);
    let host = HostSide { calls: Vec::new(), args: Vec::new(), bound: Vec::new(), imports: Vec::new() };
    Ok(Module { handles, resources, errors: Vec::new(), lazy: Vec::new(), host, guest, text })
}

/// Generates the module of bindings for the interface of `s`: for the host
/// to implement its functions where `dir` is an export of the host, for the
/// host to call them where it is an import. The bindings have nothing for
/// an interface with a function that is declared to be asynchronous.
pub fn generate(s: &Setting, dir: Direction) -> (r: Result<Module, GenerateError>)
    requires
        !declares_async(*s.iface),
    ensures
        match r {
            Ok(m) => !asks_async(*s.opts, *s.iface, dir) && flags_error(
                *s.iface,
                s.iface.types@.len(),
            ) is None && module_is(*s, dir, m),
            Err(e) => refused(*s, dir, e),
        },
{
    if wants_async(s.opts, s.iface, dir) {
        return Err(GenerateError::Async);
    }
    let in_import = match dir {
        Direction::Export => true,
        Direction::Import => false,
    };
    let p = Printer {
        iface: s.iface,
        names: s.names,
        sizes: s.sizes,
        in_import,
        projection: if in_import {
            Some("T")
        } else {
            None
        },
    };
    proof {
        lemma_type_items(p, s.iface.types@.len());
    }
    let items = match print_type_items(&p) {
        Ok(items) => items,
        Err(id) => {
            return Err(GenerateError::Flags(id));
        },
    };
    let mut head = print_module_head(s.iface.name.as_str());
    head.append(items.as_str());
    let handles = needed_handles(s.iface);
    match dir {
        Direction::Export => generate_host(s, head, handles),
        Direction::Import => generate_guest(s, head, handles),
    }
}

/// What the bindings of `iface` are made with, given its names and its
/// layout.
pub open spec fn setting_of<'a>(opts: &'a Opts, iface: &'a Interface, names: &'a Names, sizes: &'a SizeAlign) -> Setting<
    'a,
> {
    Setting { opts, iface, names, sizes, has_handles: iface.resources@.len() > 0 }
}

/// Whether the interface has no module for the reason `e`, with the given
/// names and layout of it.
pub open spec fn refused_with(
    opts: Opts,
    iface: Interface,
    names: Names,
    sizes: SizeAlign,
    dir: Direction,
    e: GenerateError,
) -> bool {
    &&& names.of(iface)
    &&& sizes.filled_for(iface.types@)
    &&& refused(setting_of(&opts, &iface, &names, &sizes), dir, e)
}

/// The generator of host bindings for Wasmer.
pub struct Wasmer {
    pub opts: Opts,
}

/// The bindings of one interface, with the names and the layout that they
/// were made with.
pub struct Bindings {
    pub names: Names,
    pub sizes: SizeAlign,
    pub module: Module,
}

impl Wasmer {
    /// A generator with the options that hold where none are given.
    pub fn new() -> (r: Wasmer)
        ensures
            !r.opts.rustfmt,
            !r.opts.tracing,
            r.opts.async_ is Never,
            !r.opts.custom_error,
    {
        Wasmer {
            opts: Opts { rustfmt: false, tracing: false, async_: Async::Never, custom_error: false },
        }
    }

    /// Generates the bindings of `iface`: for the host to implement its
    /// functions where `dir` is an export of the host, for the host to call
    /// them where it is an import. The bindings have nothing for an
    /// interface with a function that is declared to be asynchronous.
    pub fn generate_one(&self, iface: &Interface, dir: Direction) -> (r: Result<Bindings, GenerateError>)
        requires
            !declares_async(*iface),
        ensures
            match r {
                Ok(b) => {
                    &&& first_layout_error(iface.types@, iface.types@.len()) is None
                    &&& !asks_async(self.opts, *iface, dir)
                    &&& flags_error(*iface, iface.types@.len()) is None
                    &&& b.names.of(*iface)
                    &&& b.sizes.filled_for(iface.types@)
                    &&& module_is(setting_of(&self.opts, iface, &b.names, &b.sizes), dir, b.module)
                },
                Err(GenerateError::Layout(e)) => first_layout_error(iface.types@, iface.types@.len())
                    == Some(e),
                Err(e) => first_layout_error(iface.types@, iface.types@.len()) is None && exists|
                    names: Names,
                    sizes: SizeAlign,
                | #[trigger] refused_with(self.opts, *iface, names, sizes, dir, e),
            },
    {
        let mut sizes = SizeAlign::new();
        match sizes.fill(iface) {
            Ok(()) => {},
            Err(e) => {
                return Err(GenerateError::Layout(e));
            },
        }
        let names = Names::new(iface);
        let s = Setting {
            opts: &self.opts,
            iface,
            names: &names,
            sizes: &sizes,
            has_handles: iface.resources.len() > 0,
        };
        match generate(&s, dir) {
            Ok(module) => Ok(Bindings { names, sizes, module }),
            Err(e) => {
                assert(refused_with(self.opts, *iface, names, sizes, dir, e));
                Err(e)
            },
        }
    }
}

impl Opts {
    /// The generator with these options.
    pub fn build(self) -> (r: Wasmer)
        ensures
            r.opts == self,
    {
        Wasmer { opts: self }
    }
}

} // verus!
