//! The module of generated host bindings around its functions: the trait
//! that the host implements, the tables of its handles, and the structure
//! through which it calls the guest.

use crate::generator::with;
use crate::options::NeededFunction;
use crate::text::{decimal, decimal_of};
use vstd::prelude::*;
use vstd::string::StringExecFns;

verus! {

/// A resource that the bindings have handles of, by its name as given, in
/// snake case and in camel case.
pub struct Handle {
    pub name: String,
    pub snake: String,
    pub camel: String,
}

/// A type of the interface that an error of the host is turned into, by its
/// name in snake case and in camel case.
pub struct ErrorType {
    pub snake: String,
    pub camel: String,
}

/// A function that the host implements: the signature of its method in the
/// trait, and the closure that the guest calls.
pub struct Import {
    pub is_async: bool,
    pub name: String,
    pub trait_signature: String,
    pub closure: String,
}

/// A function of the guest that manages its memory.
pub struct LazyFunction {
    pub name: String,
    pub kind: NeededFunction,
}

/// Something that the guest exports: the name of the field that holds it,
/// the type of the field, and the expression that looks it up.
pub struct ExportField {
    pub name: String,
    pub ty: String,
    pub get: String,
}

/// A resource that the guest defines, by its position and its names.
pub struct ExportedResource {
    pub idx: usize,
    pub name: String,
    pub snake: String,
    pub camel: String,
}

/// The associated types of the handles.
pub open spec fn spec_handle_types(items: Seq<Handle>, is_async: bool, n: nat) -> Seq<char>
    decreases n,
{
    if n == 0 || n > items.len() {
        Seq::empty()
    } else {
        spec_handle_types(items, is_async, (n - 1) as nat) + crate::templates::spec_handle_type(items[n - 1].camel@, if is_async { " + Send + Sync"@ } else { ""@ })
    }
}

/// The associated types of the handles.
pub fn handle_types(items: &Vec<Handle>, is_async: bool) -> (r: String)
    ensures
        r@ == spec_handle_types(items@, is_async, items@.len()),
{
    let mut out = String::new();
    let mut i: usize = 0;
    assert(out@ =~= spec_handle_types(items@, is_async, 0));
    while i < items.len()
        invariant
            i <= items@.len(),
            out@ == spec_handle_types(items@, is_async, i as nat),
        decreases items@.len() - i,
    {
        let item = crate::templates::handle_type(items[i].camel.as_str(), if is_async { " + Send + Sync" } else { "" });
        out.append(item.as_str());
        i += 1;
    }
    out
}

/// The methods that turn an error of the host into an error of the interface.
pub open spec fn spec_error_methods(items: Seq<ErrorType>, n: nat) -> Seq<char>
    decreases n,
{
    if n == 0 || n > items.len() {
        Seq::empty()
    } else {
        spec_error_methods(items, (n - 1) as nat) + crate::templates::spec_error_to_method(items[n - 1].snake@, items[n - 1].camel@)
    }
}

/// The methods that turn an error of the host into an error of the interface.
pub fn error_methods(items: &Vec<ErrorType>) -> (r: String)
    ensures
        r@ == spec_error_methods(items@, items@.len()),
{
    let mut out = String::new();
    let mut i: usize = 0;
    assert(out@ =~= spec_error_methods(items@, 0));
    while i < items.len()
        invariant
            i <= items@.len(),
            out@ == spec_error_methods(items@, i as nat),
        decreases items@.len() - i,
    {
        let item = crate::templates::error_to_method(items[i].snake.as_str(), items[i].camel.as_str());
        out.append(item.as_str());
        i += 1;
    }
    out
}

/// The methods of the trait of the host.
pub open spec fn spec_signatures(items: Seq<Import>, n: nat) -> Seq<char>
    decreases n,
{
    if n == 0 || n > items.len() {
        Seq::empty()
    } else {
        spec_signatures(items, (n - 1) as nat) + crate::templates::spec_signature_item(items[n - 1].trait_signature@)
    }
}

/// The methods of the trait of the host.
pub fn signatures(items: &Vec<Import>) -> (r: String)
    ensures
        r@ == spec_signatures(items@, items@.len()),
{
    let mut out = String::new();
    let mut i: usize = 0;
    assert(out@ =~= spec_signatures(items@, 0));
    while i < items.len()
        invariant
            i <= items@.len(),
            out@ == spec_signatures(items@, i as nat),
        decreases items@.len() - i,
    {
        let item = crate::templates::signature_item(items[i].trait_signature.as_str());
        out.append(item.as_str());
        i += 1;
    }
    out
}

/// The methods that let a handle go.
pub open spec fn spec_drop_methods(items: Seq<Handle>, n: nat) -> Seq<char>
    decreases n,
{
    if n == 0 || n > items.len() {
        Seq::empty()
    } else {
        spec_drop_methods(items, (n - 1) as nat) + crate::templates::spec_drop_method(items[n - 1].snake@, items[n - 1].camel@)
    }
}

/// The methods that let a handle go.
pub fn drop_methods(items: &Vec<Handle>) -> (r: String)
    ensures
        r@ == spec_drop_methods(items@, items@.len()),
{
    let mut out = String::new();
    let mut i: usize = 0;
    assert(out@ =~= spec_drop_methods(items@, 0));
    while i < items.len()
        invariant
            i <= items@.len(),
            out@ == spec_drop_methods(items@, i as nat),
        decreases items@.len() - i,
    {
        let item = crate::templates::drop_method(items[i].snake.as_str(), items[i].camel.as_str());
        out.append(item.as_str());
        i += 1;
    }
    out
}

/// The tables of the handles.
pub open spec fn spec_table_fields(items: Seq<Handle>, n: nat) -> Seq<char>
    decreases n,
{
    if n == 0 || n > items.len() {
        Seq::empty()
    } else {
        spec_table_fields(items, (n - 1) as nat) + crate::templates::spec_table_field(items[n - 1].snake@, items[n - 1].camel@)
    }
}

/// The tables of the handles.
pub fn table_fields(items: &Vec<Handle>) -> (r: String)
    ensures
        r@ == spec_table_fields(items@, items@.len()),
{
    let mut out = String::new();
    let mut i: usize = 0;
    assert(out@ =~= spec_table_fields(items@, 0));
    while i < items.len()
        invariant
            i <= items@.len(),
            out@ == spec_table_fields(items@, i as nat),
        decreases items@.len() - i,
    {
        let item = crate::templates::table_field(items[i].snake.as_str(), items[i].camel.as_str());
        out.append(item.as_str());
        i += 1;
    }
    out
}

/// The empty tables of the handles.
pub open spec fn spec_table_defaults(items: Seq<Handle>, n: nat) -> Seq<char>
    decreases n,
{
    if n == 0 || n > items.len() {
        Seq::empty()
    } else {
        spec_table_defaults(items, (n - 1) as nat) + crate::templates::spec_table_default(items[n - 1].snake@)
    }
}

/// The empty tables of the handles.
pub fn table_defaults(items: &Vec<Handle>) -> (r: String)
    ensures
        r@ == spec_table_defaults(items@, items@.len()),
{
    let mut out = String::new();
    let mut i: usize = 0;
    assert(out@ =~= spec_table_defaults(items@, 0));
    while i < items.len()
        invariant
            i <= items@.len(),
            out@ == spec_table_defaults(items@, i as nat),
        decreases items@.len() - i,
    {
        let item = crate::templates::table_default(items[i].snake.as_str());
        out.append(item.as_str());
        i += 1;
    }
    out
}

/// The functions of the guest that are looked up once.
pub open spec fn spec_lazy_fields(items: Seq<LazyFunction>, n: nat) -> Seq<char>
    decreases n,
{
    if n == 0 || n > items.len() {
        Seq::empty()
    } else {
        spec_lazy_fields(items, (n - 1) as nat) + crate::templates::spec_lazy_field(items[n - 1].name@, items[n - 1].kind.spec_cvt())
    }
}

/// The functions of the guest that are looked up once.
pub fn lazy_fields(items: &Vec<LazyFunction>) -> (r: String)
    ensures
        r@ == spec_lazy_fields(items@, items@.len()),
{
    let mut out = String::new();
    let mut i: usize = 0;
    assert(out@ =~= spec_lazy_fields(items@, 0));
    while i < items.len()
        invariant
            i <= items@.len(),
            out@ == spec_lazy_fields(items@, i as nat),
        decreases items@.len() - i,
    {
        let item = crate::templates::lazy_field(items[i].name.as_str(), items[i].kind.cvt());
        out.append(item.as_str());
        i += 1;
    }
    out
}

/// The closures of the imports, each put under its name.
pub open spec fn spec_export_inserts(items: Seq<Import>, n: nat) -> Seq<char>
    decreases n,
{
    if n == 0 || n > items.len() {
        Seq::empty()
    } else {
        spec_export_inserts(items, (n - 1) as nat) + crate::templates::spec_export_insert(items[n - 1].name@, items[n - 1].closure@)
    }
}

/// The closures of the imports, each put under its name.
pub fn export_inserts(items: &Vec<Import>) -> (r: String)
    ensures
        r@ == spec_export_inserts(items@, items@.len()),
{
    let mut out = String::new();
    let mut i: usize = 0;
    assert(out@ =~= spec_export_inserts(items@, 0));
    while i < items.len()
        invariant
            i <= items@.len(),
            out@ == spec_export_inserts(items@, i as nat),
        decreases items@.len() - i,
    {
        let item = crate::templates::export_insert(items[i].name.as_str(), items[i].closure.as_str());
        out.append(item.as_str());
        i += 1;
    }
    out
}

/// The functions by which the guest lets handles of the host go.
pub open spec fn spec_resource_drops(items: Seq<Handle>, n: nat) -> Seq<char>
    decreases n,
{
    if n == 0 || n > items.len() {
        Seq::empty()
    } else {
        spec_resource_drops(items, (n - 1) as nat) + crate::templates::spec_resource_drop_import(items[n - 1].name@, items[n - 1].snake@)
    }
}

/// The functions by which the guest lets handles of the host go.
pub fn resource_drops(items: &Vec<Handle>) -> (r: String)
    ensures
        r@ == spec_resource_drops(items@, items@.len()),
{
    let mut out = String::new();
    let mut i: usize = 0;
    assert(out@ =~= spec_resource_drops(items@, 0));
    while i < items.len()
        invariant
            i <= items@.len(),
            out@ == spec_resource_drops(items@, i as nat),
        decreases items@.len() - i,
    {
        let item = crate::templates::resource_drop_import(items[i].name.as_str(), items[i].snake.as_str());
        out.append(item.as_str());
        i += 1;
    }
    out
}

/// The lookups of the functions of the guest.
pub open spec fn spec_lazy_gets(items: Seq<LazyFunction>, n: nat) -> Seq<char>
    decreases n,
{
    if n == 0 || n > items.len() {
        Seq::empty()
    } else {
        spec_lazy_gets(items, (n - 1) as nat) + crate::templates::spec_lazy_get(items[n - 1].name@)
    }
}

/// The lookups of the functions of the guest.
pub fn lazy_gets(items: &Vec<LazyFunction>) -> (r: String)
    ensures
        r@ == spec_lazy_gets(items@, items@.len()),
{
    let mut out = String::new();
    let mut i: usize = 0;
    assert(out@ =~= spec_lazy_gets(items@, 0));
    while i < items.len()
        invariant
            i <= items@.len(),
            out@ == spec_lazy_gets(items@, i as nat),
        decreases items@.len() - i,
    {
        let item = crate::templates::lazy_get(items[i].name.as_str());
        out.append(item.as_str());
        i += 1;
    }
    out
}

/// The functions of the guest as fields.
pub open spec fn spec_func_commas(items: Seq<LazyFunction>, n: nat) -> Seq<char>
    decreases n,
{
    if n == 0 || n > items.len() {
        Seq::empty()
    } else {
        spec_func_commas(items, (n - 1) as nat) + crate::templates::spec_func_comma(items[n - 1].name@)
    }
}

/// The functions of the guest as fields.
pub fn func_commas(items: &Vec<LazyFunction>) -> (r: String)
    ensures
        r@ == spec_func_commas(items@, items@.len()),
{
    let mut out = String::new();
    let mut i: usize = 0;
    assert(out@ =~= spec_func_commas(items@, 0));
    while i < items.len()
        invariant
            i <= items@.len(),
            out@ == spec_func_commas(items@, i as nat),
        decreases items@.len() - i,
    {
        let item = crate::templates::func_comma(items[i].name.as_str());
        out.append(item.as_str());
        i += 1;
    }
    out
}

/// The tables of the exported resources.
pub open spec fn spec_slab_fields(items: Seq<ExportedResource>, n: nat) -> Seq<char>
    decreases n,
{
    if n == 0 || n > items.len() {
        Seq::empty()
    } else {
        spec_slab_fields(items, (n - 1) as nat) + crate::templates::spec_slab_fields(decimal(items[n - 1].idx as nat))
    }
}

/// The tables of the exported resources.
pub fn slab_fields(items: &Vec<ExportedResource>) -> (r: String)
    ensures
        r@ == spec_slab_fields(items@, items@.len()),
{
    let mut out = String::new();
    let mut i: usize = 0;
    assert(out@ =~= spec_slab_fields(items@, 0));
    while i < items.len()
        invariant
            i <= items@.len(),
            out@ == spec_slab_fields(items@, i as nat),
        decreases items@.len() - i,
    {
        let item = crate::templates::slab_fields(decimal_of(items[i].idx as u64).as_str());
        out.append(item.as_str());
        i += 1;
    }
    out
}

/// The fields of the exports.
pub open spec fn spec_struct_fields(items: Seq<ExportField>, n: nat) -> Seq<char>
    decreases n,
{
    if n == 0 || n > items.len() {
        Seq::empty()
    } else {
        spec_struct_fields(items, (n - 1) as nat) + crate::templates::spec_struct_field(items[n - 1].name@, items[n - 1].ty@)
    }
}

/// The fields of the exports.
pub fn struct_fields(items: &Vec<ExportField>) -> (r: String)
    ensures
        r@ == spec_struct_fields(items@, items@.len()),
{
    let mut out = String::new();
    let mut i: usize = 0;
    assert(out@ =~= spec_struct_fields(items@, 0));
    while i < items.len()
        invariant
            i <= items@.len(),
            out@ == spec_struct_fields(items@, i as nat),
        decreases items@.len() - i,
    {
        let item = crate::templates::struct_field(items[i].name.as_str(), items[i].ty.as_str());
        out.append(item.as_str());
        i += 1;
    }
    out
}

/// The four functions of each exported resource.
pub open spec fn spec_resource_functions(items: Seq<ExportedResource>, name: Seq<char>, n: nat) -> Seq<char>
    decreases n,
{
    if n == 0 || n > items.len() {
        Seq::empty()
    } else {
        spec_resource_functions(items, name, (n - 1) as nat) + crate::templates::spec_resource_functions(name, items[n - 1].name@, decimal(items[n - 1].idx as nat))
    }
}

/// The four functions of each exported resource.
pub fn resource_functions(items: &Vec<ExportedResource>, name: &str) -> (r: String)
    ensures
        r@ == spec_resource_functions(items@, name@, items@.len()),
{
    let mut out = String::new();
    let mut i: usize = 0;
    assert(out@ =~= spec_resource_functions(items@, name@, 0));
    while i < items.len()
        invariant
            i <= items@.len(),
            out@ == spec_resource_functions(items@, name@, i as nat),
        decreases items@.len() - i,
    {
        let item = crate::templates::resource_functions(name, items[i].name.as_str(), decimal_of(items[i].idx as u64).as_str());
        out.append(item.as_str());
        i += 1;
    }
    out
}

/// The lookups of the destructors.
pub open spec fn spec_dtor_gets(items: Seq<ExportedResource>, n: nat) -> Seq<char>
    decreases n,
{
    if n == 0 || n > items.len() {
        Seq::empty()
    } else {
        spec_dtor_gets(items, (n - 1) as nat) + crate::templates::spec_dtor_get(decimal(items[n - 1].idx as nat), items[n - 1].name@)
    }
}

/// The lookups of the destructors.
pub fn dtor_gets(items: &Vec<ExportedResource>) -> (r: String)
    ensures
        r@ == spec_dtor_gets(items@, items@.len()),
{
    let mut out = String::new();
    let mut i: usize = 0;
    assert(out@ =~= spec_dtor_gets(items@, 0));
    while i < items.len()
        invariant
            i <= items@.len(),
            out@ == spec_dtor_gets(items@, i as nat),
        decreases items@.len() - i,
    {
        let item = crate::templates::dtor_get(decimal_of(items[i].idx as u64).as_str(), items[i].name.as_str());
        out.append(item.as_str());
        i += 1;
    }
    out
}

/// The destructors put where the functions find them.
pub open spec fn spec_dtor_sets(items: Seq<ExportedResource>, n: nat) -> Seq<char>
    decreases n,
{
    if n == 0 || n > items.len() {
        Seq::empty()
    } else {
        spec_dtor_sets(items, (n - 1) as nat) + crate::templates::spec_dtor_set(decimal(items[n - 1].idx as nat), items[n - 1].name@)
    }
}

/// The destructors put where the functions find them.
pub fn dtor_sets(items: &Vec<ExportedResource>) -> (r: String)
    ensures
        r@ == spec_dtor_sets(items@, items@.len()),
{
    let mut out = String::new();
    let mut i: usize = 0;
    assert(out@ =~= spec_dtor_sets(items@, 0));
    while i < items.len()
        invariant
            i <= items@.len(),
            out@ == spec_dtor_sets(items@, i as nat),
        decreases items@.len() - i,
    {
        let item = crate::templates::dtor_set(decimal_of(items[i].idx as u64).as_str(), items[i].name.as_str());
        out.append(item.as_str());
        i += 1;
    }
    out
}

/// The lookups of the exports.
pub open spec fn spec_let_gets(items: Seq<ExportField>, n: nat) -> Seq<char>
    decreases n,
{
    if n == 0 || n > items.len() {
        Seq::empty()
    } else {
        spec_let_gets(items, (n - 1) as nat) + crate::templates::spec_let_get(items[n - 1].name@, items[n - 1].get@)
    }
}

/// The lookups of the exports.
pub fn let_gets(items: &Vec<ExportField>) -> (r: String)
    ensures
        r@ == spec_let_gets(items@, items@.len()),
{
    let mut out = String::new();
    let mut i: usize = 0;
    assert(out@ =~= spec_let_gets(items@, 0));
    while i < items.len()
        invariant
            i <= items@.len(),
            out@ == spec_let_gets(items@, i as nat),
        decreases items@.len() - i,
    {
        let item = crate::templates::let_get(items[i].name.as_str(), items[i].get.as_str());
        out.append(item.as_str());
        i += 1;
    }
    out
}

/// The exports as fields.
pub open spec fn spec_name_commas(items: Seq<ExportField>, n: nat) -> Seq<char>
    decreases n,
{
    if n == 0 || n > items.len() {
        Seq::empty()
    } else {
        spec_name_commas(items, (n - 1) as nat) + crate::templates::spec_name_comma(items[n - 1].name@)
    }
}

/// The exports as fields.
pub fn name_commas(items: &Vec<ExportField>) -> (r: String)
    ensures
        r@ == spec_name_commas(items@, items@.len()),
{
    let mut out = String::new();
    let mut i: usize = 0;
    assert(out@ =~= spec_name_commas(items@, 0));
    while i < items.len()
        invariant
            i <= items@.len(),
            out@ == spec_name_commas(items@, i as nat),
        decreases items@.len() - i,
    {
        let item = crate::templates::name_comma(items[i].name.as_str());
        out.append(item.as_str());
        i += 1;
    }
    out
}

/// The methods that let a resource of the guest go.
pub open spec fn spec_drop_resources(items: Seq<ExportedResource>, n: nat) -> Seq<char>
    decreases n,
{
    if n == 0 || n > items.len() {
        Seq::empty()
    } else {
        spec_drop_resources(items, (n - 1) as nat) + crate::templates::spec_drop_resource(items[n - 1].snake@, items[n - 1].camel@, decimal(items[n - 1].idx as nat))
    }
}

/// The methods that let a resource of the guest go.
pub fn drop_resources(items: &Vec<ExportedResource>) -> (r: String)
    ensures
        r@ == spec_drop_resources(items@, items@.len()),
{
    let mut out = String::new();
    let mut i: usize = 0;
    assert(out@ =~= spec_drop_resources(items@, 0));
    while i < items.len()
        invariant
            i <= items@.len(),
            out@ == spec_drop_resources(items@, i as nat),
        decreases items@.len() - i,
    {
        let item = crate::templates::drop_resource(items[i].snake.as_str(), items[i].camel.as_str(), decimal_of(items[i].idx as u64).as_str());
        out.append(item.as_str());
        i += 1;
    }
    out
}

fn push_if(out: &mut String, wanted: bool, text: &str)
    ensures
        final(out)@ == with(old(out)@, wanted, text@),
{
    if wanted {
        out.append(text);
    }
}

/// The functions of `funcs`, one after another.
pub open spec fn spec_bodies(funcs: Seq<String>, n: nat) -> Seq<char>
    decreases n,
{
    if n == 0 || n > funcs.len() {
        Seq::empty()
    } else {
        spec_bodies(funcs, (n - 1) as nat) + funcs[n - 1]@
    }
}

/// The functions of `funcs`, one after another.
pub fn bodies(funcs: &Vec<String>) -> (r: String)
    ensures
        r@ == spec_bodies(funcs@, funcs@.len()),
{
    let mut out = String::new();
    let mut i: usize = 0;
    assert(out@ =~= spec_bodies(funcs@, 0));
    while i < funcs.len()
        invariant
            i <= funcs@.len(),
            out@ == spec_bodies(funcs@, i as nat),
        decreases funcs@.len() - i,
    {
        out.append(funcs[i].as_str());
        i += 1;
    }
    out
}

/// What the trait of the host says of errors of its own: the type of the
/// error, and the methods that turn it into an abort of the call or into an
/// error of the interface.
pub open spec fn spec_error_items(needs_trap: bool, errors: Seq<ErrorType>) -> Seq<char> {
    with(
        "type Error;\n"@,
        needs_trap,
        "fn error_to_trap(&mut self, err: Self::Error) -> wasmer::RuntimeError;\n"@,
    ) + spec_error_methods(errors, errors.len())
}

/// The tables of the handles of the host, one per resource, with their
/// empty state.
pub open spec fn spec_tables(name: Seq<char>, handles: Seq<Handle>) -> Seq<char> {
    crate::templates::spec_tables_open(name) + spec_table_fields(handles, handles.len())
        + crate::templates::spec_tables_default_open(name) + spec_table_defaults(
        handles,
        handles.len(),
    ) + crate::templates::spec_tables_clone(name)
}

/// The trait that the host implements for a module of imports, and, where
/// the module has handles, the tables of them.
#[verifier::opaque]
pub open spec fn spec_host_trait(
    name: Seq<char>,
    is_async: bool,
    handles: Seq<Handle>,
    custom_error: bool,
    needs_trap: bool,
    errors: Seq<ErrorType>,
    imports: Seq<Import>,
) -> Seq<char> {
    let t = crate::templates::spec_trait_open(
        if is_async {
            "#[wit_bindgen_wasmer::async_trait]\n"@
        } else {
            ""@
        },
        name,
    ) + spec_handle_types(handles, is_async, handles.len());
    let t = with(t, custom_error, spec_error_items(needs_trap, errors));
    let t = t + spec_signatures(imports, imports.len()) + spec_drop_methods(handles, handles.len())
        + "}\n"@;
    with(t, handles.len() > 0, spec_tables(name, handles))
}

/// What the trait of the host says of errors of its own.
pub fn error_items(needs_trap: bool, errors: &Vec<ErrorType>) -> (r: String)
    ensures
        r@ == spec_error_items(needs_trap, errors@),
{
    let mut out = String::from_str("type Error;\n");
    push_if(
        &mut out,
        needs_trap,
        "fn error_to_trap(&mut self, err: Self::Error) -> wasmer::RuntimeError;\n",
    );
    let methods = error_methods(errors);
    out.append(methods.as_str());
    out
}

/// The tables of the handles of the host.
pub fn tables(name: &str, handles: &Vec<Handle>) -> (r: String)
    ensures
        r@ == spec_tables(name@, handles@),
{
    let mut out = crate::templates::tables_open(name);
    let fields = table_fields(handles);
    out.append(fields.as_str());
    let open = crate::templates::tables_default_open(name);
    out.append(open.as_str());
    let defaults = table_defaults(handles);
    out.append(defaults.as_str());
    let clone = crate::templates::tables_clone(name);
    out.append(clone.as_str());
    out
}

/// The trait that the host implements for a module of imports, and, where
/// the module has handles, the tables of them.
pub fn host_trait(
    name: &str,
    is_async: bool,
    handles: &Vec<Handle>,
    custom_error: bool,
    needs_trap: bool,
    errors: &Vec<ErrorType>,
    imports: &Vec<Import>,
) -> (r: String)
    ensures
        r@ == spec_host_trait(
            name@,
            is_async,
            handles@,
            custom_error,
            needs_trap,
            errors@,
            imports@,
        ),
{
    reveal(spec_host_trait);
    let mut out = crate::templates::trait_open(
        if is_async {
            "#[wit_bindgen_wasmer::async_trait]\n"
        } else {
            ""
        },
        name,
    );
    let types = handle_types(handles, is_async);
    out.append(types.as_str());
    let errors_text = error_items(needs_trap, errors);
    push_if(&mut out, custom_error, errors_text.as_str());
    let methods = signatures(imports);
    out.append(methods.as_str());
    let drops = drop_methods(handles);
    out.append(drops.as_str());
    out.append("}\n");
    let tables_text = tables(name, handles);
    push_if(&mut out, handles.len() > 0, tables_text.as_str());
    out
}

/// What is looked up in the guest once it is instantiated: its memory and
/// the functions that manage it.
pub open spec fn spec_lazy_initialized(needs_memory: bool, functions: Seq<LazyFunction>) -> Seq<
    char,
> {
    with("pub struct LazyInitialized {\n"@, needs_memory, "memory: wasmer::Memory,\n"@)
        + spec_lazy_fields(functions, functions.len()) + "}\n"@
}

/// What is looked up in the guest once it is instantiated.
pub fn lazy_initialized(needs_memory: bool, functions: &Vec<LazyFunction>) -> (r: String)
    ensures
        r@ == spec_lazy_initialized(needs_memory, functions@),
{
    let mut out = String::from_str("pub struct LazyInitialized {\n");
    push_if(&mut out, needs_memory, "memory: wasmer::Memory,\n");
    let fields = lazy_fields(functions);
    out.append(fields.as_str());
    out.append("}\n");
    out
}

/// The functions by which the guest lets handles of the host go, registered
/// with the imports.
pub open spec fn spec_canonical_abi(handles: Seq<Handle>) -> Seq<char> {
    "let mut canonical_abi = imports.get_namespace_exports(\"canonical_abi\").unwrap_or_else(wasmer::Exports::new);\n"@
        + spec_resource_drops(handles, handles.len())
        + "imports.register_namespace(\"canonical_abi\", canonical_abi);\n"@
}

/// What the initializer does once the guest is instantiated.
pub open spec fn spec_lazy_set(needs_memory: bool, functions: Seq<LazyFunction>) -> Seq<char> {
    with(
        with(
            Seq::empty(),
            needs_memory,
            "let memory = _instance.exports.get_memory(\"memory\")?.clone();\n"@,
        ) + spec_lazy_gets(functions, functions.len()) + "lazy.set(LazyInitialized {\n"@,
        needs_memory,
        "memory,\n"@,
    ) + spec_func_commas(functions, functions.len()) + "})\n"@
        + ".map_err(|_e| anyhow::anyhow!(\"Couldn't set lazy initialized data\"))?;\n"@
}

/// The function that adds the imports of a module to the imports of an
/// instance, with what stands before it.
#[verifier::opaque]
pub open spec fn spec_add_to_imports(
    module: Seq<char>,
    name: Seq<char>,
    handles: Seq<Handle>,
    lazy: bool,
    needs_memory: bool,
    functions: Seq<LazyFunction>,
    imports: Seq<Import>,
) -> Seq<char> {
    let has_handles = handles.len() > 0;
    let t = with(Seq::empty(), lazy, spec_lazy_initialized(needs_memory, functions))
        + crate::templates::spec_add_to_imports_open(name);
    let t = with(t, has_handles, crate::templates::spec_env_tables(name));
    let t = with(t, lazy, "lazy: std::rc::Rc<OnceCell<LazyInitialized>>,\n"@)
        + crate::templates::spec_env_markers(name);
    let t = with(t, lazy, "let lazy = std::rc::Rc::new(OnceCell::new());\n"@)
        + "let env = EnvWrapper {\n"@ + "data,\n"@;
    let t = with(t, has_handles, "tables: std::rc::Rc::default(),\n"@);
    let t = with(t, lazy, "lazy: std::rc::Rc::clone(&lazy),\n"@) + "};\n"@
        + "let env = wasmer::FunctionEnv::new(&mut *store, env);\n"@
        + "let mut exports = wasmer::Exports::new();\n"@
        + "let mut store = store.as_store_mut();\n"@ + spec_export_inserts(imports, imports.len())
        + crate::templates::spec_register_namespace(module);
    let t = with(t, has_handles, spec_canonical_abi(handles))
        + "move |_instance: &wasmer::Instance, _store: &dyn wasmer::AsStoreRef| {\n"@;
    with(t, lazy, spec_lazy_set(needs_memory, functions)) + "Ok(())\n"@ + "}\n"@ + "}\n"@
}

/// The functions by which the guest lets handles of the host go.
pub fn canonical_abi(handles: &Vec<Handle>) -> (r: String)
    ensures
        r@ == spec_canonical_abi(handles@),
{
    let mut out = String::from_str(
        "let mut canonical_abi = imports.get_namespace_exports(\"canonical_abi\").unwrap_or_else(wasmer::Exports::new);\n",
    );
    let drops = resource_drops(handles);
    out.append(drops.as_str());
    out.append("imports.register_namespace(\"canonical_abi\", canonical_abi);\n");
    out
}

/// What the initializer does once the guest is instantiated.
pub fn lazy_set(needs_memory: bool, functions: &Vec<LazyFunction>) -> (r: String)
    ensures
        r@ == spec_lazy_set(needs_memory, functions@),
{
    let mut out = String::new();
    assert(out@ =~= Seq::<char>::empty());
    push_if(
        &mut out,
        needs_memory,
        "let memory = _instance.exports.get_memory(\"memory\")?.clone();\n",
    );
    let gets = lazy_gets(functions);
    out.append(gets.as_str());
    out.append("lazy.set(LazyInitialized {\n");
    push_if(&mut out, needs_memory, "memory,\n");
    let fields = func_commas(functions);
    out.append(fields.as_str());
    out.append("})\n");
    out.append(".map_err(|_e| anyhow::anyhow!(\"Couldn't set lazy initialized data\"))?;\n");
    out
}

/// The function that adds the imports of a module to the imports of an
/// instance, with what stands before it.
pub fn add_to_imports(
    module: &str,
    name: &str,
    handles: &Vec<Handle>,
    lazy: bool,
    needs_memory: bool,
    functions: &Vec<LazyFunction>,
    imports: &Vec<Import>,
) -> (r: String)
    ensures
        r@ == spec_add_to_imports(
            module@,
            name@,
            handles@,
            lazy,
            needs_memory,
            functions@,
            imports@,
        ),
{
    reveal(spec_add_to_imports);
    let has_handles = handles.len() > 0;
    let mut out = String::new();
    assert(out@ =~= Seq::<char>::empty());
    let lazy_struct = lazy_initialized(needs_memory, functions);
    push_if(&mut out, lazy, lazy_struct.as_str());
    let open = crate::templates::add_to_imports_open(name);
    out.append(open.as_str());
    let env_tables = crate::templates::env_tables(name);
    push_if(&mut out, has_handles, env_tables.as_str());
    push_if(&mut out, lazy, "lazy: std::rc::Rc<OnceCell<LazyInitialized>>,\n");
    let markers = crate::templates::env_markers(name);
    out.append(markers.as_str());
    push_if(&mut out, lazy, "let lazy = std::rc::Rc::new(OnceCell::new());\n");
    out.append("let env = EnvWrapper {\n");
    out.append("data,\n");
    push_if(&mut out, has_handles, "tables: std::rc::Rc::default(),\n");
    push_if(&mut out, lazy, "lazy: std::rc::Rc::clone(&lazy),\n");
    out.append("};\n");
    out.append("let env = wasmer::FunctionEnv::new(&mut *store, env);\n");
    out.append("let mut exports = wasmer::Exports::new();\n");
    out.append("let mut store = store.as_store_mut();\n");
    let inserts = export_inserts(imports);
    out.append(inserts.as_str());
    let register = crate::templates::register_namespace(module);
    out.append(register.as_str());
    let abi = canonical_abi(handles);
    push_if(&mut out, has_handles, abi.as_str());
    out.append("move |_instance: &wasmer::Instance, _store: &dyn wasmer::AsStoreRef| {\n");
    let set = lazy_set(needs_memory, functions);
    push_if(&mut out, lazy, set.as_str());
    out.append("Ok(())\n");
    out.append("}\n");
    out.append("}\n");
    out
}

/// The functions of the exported resources, registered with the imports.
pub open spec fn spec_resource_abi(name: Seq<char>, resources: Seq<ExportedResource>) -> Seq<char> {
    "let mut canonical_abi = imports.get_namespace_exports(\"canonical_abi\").unwrap_or_else(wasmer::Exports::new);\n"@
        + spec_resource_functions(resources, name, resources.len())
        + "imports.register_namespace(\"canonical_abi\", canonical_abi);\n"@
}

/// The destructors of the exported resources, looked up and put where the
/// functions find them.
pub open spec fn spec_destructors(resources: Seq<ExportedResource>) -> Seq<char> {
    "{\n"@ + spec_dtor_gets(resources, resources.len()) + "\n"@ + spec_dtor_sets(
        resources,
        resources.len(),
    ) + "}\n"@
}

/// The structure through which the host calls the exports of a module: its
/// data, its fields, how it is made from an instance, and the functions.
#[verifier::opaque]
pub open spec fn spec_exports(
    name: Seq<char>,
    resources: Seq<ExportedResource>,
    fields: Seq<ExportField>,
    funcs: Seq<String>,
    has_handles: bool,
) -> Seq<char> {
    let t = crate::templates::spec_exports_data_open(name) + spec_slab_fields(
        resources,
        resources.len(),
    ) + crate::templates::spec_exports_struct_open(name) + crate::templates::spec_env_field(name)
        + spec_struct_fields(fields, fields.len()) + "}\n"@ + crate::templates::spec_impl_open(
        name,
    );
    let t = with(t, resources.len() == 0, "#[allow(unused_variables)]\n"@)
        + crate::templates::spec_exports_add_open(name)
        + "let env = wasmer::FunctionEnv::new(store, Default::default());\n"@;
    let t = with(t, has_handles, spec_resource_abi(name, resources)) + "env\n"@ + "}\n"@
        + crate::templates::spec_instantiate_open();
    let t = with(t, resources.len() > 0, spec_destructors(resources))
        + crate::templates::spec_instantiate_close() + crate::templates::spec_new_open(name)
        + spec_let_gets(fields, fields.len()) + crate::templates::spec_new_struct_open(name)
        + spec_name_commas(fields, fields.len()) + "env,\n"@ + "})\n"@ + "}\n"@;
    t + spec_bodies(funcs, funcs.len()) + spec_drop_resources(resources, resources.len()) + "}\n"@
}

/// The functions of the exported resources, registered with the imports.
pub fn resource_abi(name: &str, resources: &Vec<ExportedResource>) -> (r: String)
    ensures
        r@ == spec_resource_abi(name@, resources@),
{
    let mut out = String::from_str(
        "let mut canonical_abi = imports.get_namespace_exports(\"canonical_abi\").unwrap_or_else(wasmer::Exports::new);\n",
    );
    let functions = resource_functions(resources, name);
    out.append(functions.as_str());
    out.append("imports.register_namespace(\"canonical_abi\", canonical_abi);\n");
    out
}

/// The destructors of the exported resources.
pub fn destructors(resources: &Vec<ExportedResource>) -> (r: String)
    ensures
        r@ == spec_destructors(resources@),
{
    let mut out = String::from_str("{\n");
    let gets = dtor_gets(resources);
    out.append(gets.as_str());
    out.append("\n");
    let sets = dtor_sets(resources);
    out.append(sets.as_str());
    out.append("}\n");
    out
}

/// The structure through which the host calls the exports of a module.
pub fn exports(
    name: &str,
    resources: &Vec<ExportedResource>,
    fields: &Vec<ExportField>,
    funcs: &Vec<String>,
    has_handles: bool,
) -> (r: String)
    ensures
        r@ == spec_exports(name@, resources@, fields@, funcs@, has_handles),
{
    reveal(spec_exports);
    let mut out = crate::templates::exports_data_open(name);
    let text = slab_fields(resources);
    out.append(text.as_str());
    let text = crate::templates::exports_struct_open(name);
    out.append(text.as_str());
    let text = crate::templates::env_field(name);
    out.append(text.as_str());
    let text = struct_fields(fields);
    out.append(text.as_str());
    out.append("}\n");
    let text = crate::templates::impl_open(name);
    out.append(text.as_str());
    push_if(&mut out, resources.len() == 0, "#[allow(unused_variables)]\n");
    let text = crate::templates::exports_add_open(name);
    out.append(text.as_str());
    out.append("let env = wasmer::FunctionEnv::new(store, Default::default());\n");
    let text = resource_abi(name, resources);
    push_if(&mut out, has_handles, text.as_str());
    out.append("env\n");
    out.append("}\n");
    let text = crate::templates::instantiate_open();
    out.append(text.as_str());
    let text = destructors(resources);
    push_if(&mut out, resources.len() > 0, text.as_str());
    let text = crate::templates::instantiate_close();
    out.append(text.as_str());
    let text = crate::templates::new_open(name);
    out.append(text.as_str());
    let text = let_gets(fields);
    out.append(text.as_str());
    let text = crate::templates::new_struct_open(name);
    out.append(text.as_str());
    let text = name_commas(fields);
    out.append(text.as_str());
    out.append("env,\n");
    out.append("})\n");
    out.append("}\n");
    let text = bodies(funcs);
    out.append(text.as_str());
    let text = drop_resources(resources);
    out.append(text.as_str());
    out.append("}\n");
    out
}

/// The lookups of the guest's functions in what was set up once.
pub open spec fn spec_lazy_funcs(items: Seq<LazyFunction>, n: nat) -> Seq<char>
    decreases n,
{
    if n == 0 || n > items.len() {
        Seq::empty()
    } else {
        spec_lazy_funcs(items, (n - 1) as nat) + crate::templates::spec_lazy_func(items[n - 1].name@)
    }
}

/// The lookups of the guest's functions in what was set up once.
pub fn lazy_funcs(items: &Vec<LazyFunction>) -> (r: String)
    ensures
        r@ == spec_lazy_funcs(items@, items@.len()),
{
    let mut out = String::new();
    let mut i: usize = 0;
    assert(out@ =~= spec_lazy_funcs(items@, 0));
    while i < items.len()
        invariant
            i <= items@.len(),
            out@ == spec_lazy_funcs(items@, i as nat),
        decreases items@.len() - i,
    {
        let item = crate::templates::lazy_func(items[i].name.as_str());
        out.append(item.as_str());
        i += 1;
    }
    out
}

/// The lookups of the guest's functions in the structure of the exports.
pub open spec fn spec_self_funcs(items: Seq<LazyFunction>, n: nat) -> Seq<char>
    decreases n,
{
    if n == 0 || n > items.len() {
        Seq::empty()
    } else {
        spec_self_funcs(items, (n - 1) as nat) + crate::templates::spec_self_func(items[n - 1].name@)
    }
}

/// The lookups of the guest's functions in the structure of the exports.
pub fn self_funcs(items: &Vec<LazyFunction>) -> (r: String)
    ensures
        r@ == spec_self_funcs(items@, items@.len()),
{
    let mut out = String::new();
    let mut i: usize = 0;
    assert(out@ =~= spec_self_funcs(items@, 0));
    while i < items.len()
        invariant
            i <= items@.len(),
            out@ == spec_self_funcs(items@, i as nat),
        decreases items@.len() - i,
    {
        let item = crate::templates::self_func(items[i].name.as_str());
        out.append(item.as_str());
        i += 1;
    }
    out
}

/// What a closure of an import is rendered with.
pub struct ClosureInfo {
    /// Whether the closure is asynchronous.
    pub is_async: bool,
    /// Whether the call is traced.
    pub tracing: bool,
    /// Whether the function reaches into the guest's memory.
    pub needs_memory: bool,
    /// Whether the function borrows from the guest's memory.
    pub needs_borrow_checker: bool,
    /// Whether the interface has handles.
    pub has_handles: bool,
}

/// The closure that implements an import: its head, what it looks up, and
/// the statements of the function.
pub open spec fn spec_export_closure(
    head: Seq<char>,
    info: ClosureInfo,
    module: Seq<char>,
    function: Seq<char>,
    functions: Seq<LazyFunction>,
    body: Seq<char>,
) -> Seq<char> {
    let t = with(head, info.is_async, "Box::new(async move {\n"@);
    let t = with(t, info.tracing, crate::templates::spec_trace_span(module, function))
        + spec_lazy_funcs(functions, functions.len());
    let t = with(t, info.needs_memory, crate::templates::spec_memory_let());
    let t = with(t, info.needs_borrow_checker, crate::templates::spec_borrow_checker_let())
        + "let data_mut = store.data_mut();\n"@;
    let t = with(t, info.has_handles, "let tables = data_mut.tables.borrow_mut();\n"@) + body;
    with(t, info.is_async, "})\n"@) + "}"@
}

/// The closure that implements an import.
pub fn export_closure(
    head: &str,
    info: &ClosureInfo,
    module: &str,
    function: &str,
    functions: &Vec<LazyFunction>,
    body: &str,
) -> (r: String)
    ensures
        r@ == spec_export_closure(head@, *info, module@, function@, functions@, body@),
{
    let mut out = String::from_str(head);
    push_if(&mut out, info.is_async, "Box::new(async move {\n");
    let span = crate::templates::trace_span(module, function);
    push_if(&mut out, info.tracing, span.as_str());
    let lookups = lazy_funcs(functions);
    out.append(lookups.as_str());
    let memory = crate::templates::memory_let();
    push_if(&mut out, info.needs_memory, memory.as_str());
    let checker = crate::templates::borrow_checker_let();
    push_if(&mut out, info.needs_borrow_checker, checker.as_str());
    out.append("let data_mut = store.data_mut();\n");
    push_if(&mut out, info.has_handles, "let tables = data_mut.tables.borrow_mut();\n");
    out.append(body);
    push_if(&mut out, info.is_async, "})\n");
    out.append("}");
    out
}

/// The method that calls an export: its head, what it looks up, and the
/// statements of the function.
pub open spec fn spec_import_function(
    head: Seq<char>,
    functions: Seq<LazyFunction>,
    needs_memory: bool,
    body: Seq<char>,
) -> Seq<char> {
    with(head + spec_self_funcs(functions, functions.len()), needs_memory, "let _memory = &self.memory;\n"@)
        + body + "}\n"@
}

/// The method that calls an export.
pub fn import_function(head: &str, functions: &Vec<LazyFunction>, needs_memory: bool, body: &str) -> (r:
    String)
    ensures
        r@ == spec_import_function(head@, functions@, needs_memory, body@),
{
    let mut out = String::from_str(head);
    let lookups = self_funcs(functions);
    out.append(lookups.as_str());
    push_if(&mut out, needs_memory, "let _memory = &self.memory;\n");
    out.append(body);
    out.append("}\n");
    out
}

/// The field of the exports that holds a function of the guest that
/// manages its memory.
pub fn function_field(function: &LazyFunction) -> (r: ExportField)
    ensures
        r.name@ == crate::templates::spec_func_field(function.name@),
        r.ty@ == "wasmer::TypedFunction<"@ + function.kind.spec_cvt() + ">"@,
        r.get@ == crate::templates::spec_get_typed_function(function.name@),
{
    ExportField {
        name: crate::templates::func_field(function.name.as_str()),
        ty: function.kind.ty(),
        get: crate::templates::get_typed_function(function.name.as_str()),
    }
}

/// The field of the exports that holds the guest's memory.
pub fn memory_field() -> (r: ExportField)
    ensures
        r.name@ == "memory"@,
        r.ty@ == "wasmer::Memory"@,
        r.get@ == "_instance.exports.get_memory(\"memory\")?.clone()"@,
{
    ExportField {
        name: String::from_str("memory"),
        ty: String::from_str("wasmer::Memory"),
        get: String::from_str("_instance.exports.get_memory(\"memory\")?.clone()"),
    }
}

/// The field of the exports that holds the function `name` of the guest,
/// whose identifier is `ident` and whose core signature is `cvt`.
pub fn typed_field(ident: &str, cvt: &str, name: &str) -> (r: ExportField)
    ensures
        r.name@ == crate::templates::spec_func_field(ident@),
        r.ty@ == crate::templates::spec_typed_function(cvt@),
        r.get@ == crate::templates::spec_get_typed_function(name@),
{
    ExportField {
        name: crate::templates::func_field(ident),
        ty: crate::templates::typed_function(cvt),
        get: crate::templates::get_typed_function(name),
    }
}

} // verus!
