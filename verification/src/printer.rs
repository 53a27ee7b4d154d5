//! How the types of an interface and the heads of its functions are written
//! in the generated Rust.

use crate::docs::{doc_comment, print_docs};
use crate::layout::SizeAlign;
use crate::names::{rust_ident_of, texts, to_rust_ident, Names};
use crate::render::{get_text, text_at, union_case_names, union_cases};
use crate::types::{
    bits_valid, Case, EnumCase, Field, Function, Interface, Type, TypeDefKind, UnionCase,
};
use vstd::prelude::*;
use vstd::string::StringExecFns;

verus! {

/// The lifetime of a borrow in a signature.
#[derive(Clone, Copy, Debug, PartialEq, Eq, Structural)]
pub enum Lifetime {
    /// The lifetime that is left to be inferred.
    Anonymous,
    /// The lifetime `'a`.
    Named,
}

/// How a type is written where a value of it is taken or given.
#[derive(Clone, Copy, Debug, PartialEq, Eq, Structural)]
pub enum TypeMode {
    /// Everything is owned.
    Owned,
    /// Everything that can be borrowed is.
    AllBorrowed(Lifetime),
    /// Strings, and lists whose elements are valid in every bit pattern,
    /// are borrowed; everything else is owned.
    LeafBorrowed(Lifetime),
}

/// The signature of a generated function.
pub struct FnSig<'a> {
    pub async_: bool,
    pub private: bool,
    pub self_arg: Option<&'a str>,
}

/// What types and signatures are written with.
pub struct Printer<'a> {
    pub iface: &'a Interface,
    pub names: &'a Names,
    pub sizes: &'a SizeAlign,
    /// Whether the host implements the functions.
    pub in_import: bool,
    /// The type that a handle is an associated type of, where the host
    /// defines the resources.
    pub projection: Option<&'a str>,
}

/// The lifetime of the borrows of a mode, if it borrows.
pub open spec fn spec_lifetime(mode: TypeMode) -> Option<Lifetime> {
    match mode {
        TypeMode::Owned => None,
        TypeMode::AllBorrowed(lt) => Some(lt),
        TypeMode::LeafBorrowed(lt) => Some(lt),
    }
}

/// A reference with the given lifetime.
pub open spec fn reference(lt: Lifetime) -> Seq<char> {
    match lt {
        Lifetime::Anonymous => "&"@,
        Lifetime::Named => "&"@ + "'a"@ + " "@,
    }
}

/// A borrowed string.
pub open spec fn spec_borrowed_str(lt: Lifetime) -> Seq<char> {
    reference(lt) + " str"@
}

/// A borrowed slice of elements written as `element`. Where the host
/// implements the functions, elements that need alignment are read from the
/// guest's memory in place, through a wrapper that knows their byte order.
pub open spec fn spec_borrowed_slice(wrapped: bool, mutbl: bool, lt: Lifetime, element: Seq<char>) -> Seq<
    char,
> {
    if wrapped {
        reference(lt) + (if mutbl {
            " mut "@
        } else {
            ""@
        }) + "[Le<"@ + element + ">]"@
    } else {
        reference(lt) + (if mutbl {
            "mut "@
        } else {
            ""@
        }) + "["@ + element + "]"@
    }
}

/// The name of a type that is no reference to a definition and no string or
/// handle.
pub open spec fn primitive_name(ty: Type) -> Seq<char> {
    match ty {
        Type::Unit => "()"@,
        Type::Bool => "bool"@,
        Type::U8 => "u8"@,
        Type::U16 => "u16"@,
        Type::U32 => "u32"@,
        Type::U64 => "u64"@,
        Type::S8 => "i8"@,
        Type::S16 => "i16"@,
        Type::S32 => "i32"@,
        Type::S64 => "i64"@,
        Type::Float32 => "f32"@,
        Type::Float64 => "f64"@,
        Type::Char => "char"@,
        _ => "()"@,
    }
}

/// A handle, as an associated type of `projection` where there is one.
pub open spec fn handle_text(projection: Option<&str>, name: Seq<char>, mode: TypeMode) -> Seq<
    char,
> {
    (match spec_lifetime(mode) {
        Some(lt) => reference(lt),
        None => ""@,
    }) + (match projection {
        Some(from) => from@ + "::"@,
        None => ""@,
    }) + name
}

/// Whether slices of `element` are read through the wrapper that knows
/// their byte order.
pub open spec fn wraps(p: Printer, element: Type) -> bool {
    p.in_import && p.sizes.spec_align(element) > 1
}

/// How `ty` is written in `mode`, and whether a slice in it is read through
/// the wrapper that knows the byte order of its elements. A reference is
/// followed to a definition before `bound`; one that leads nowhere is
/// written as a unit.
pub open spec fn type_text(p: Printer, ty: Type, mode: TypeMode, bound: nat) -> (Seq<char>, bool)
    decreases bound, 0nat, 0nat,
{
    match ty {
        Type::String => match spec_lifetime(mode) {
            Some(lt) => (spec_borrowed_str(lt), false),
            None => ("String"@, false),
        },
        Type::Handle(r) => (
            handle_text(p.projection, text_at(texts(p.names.resource_types@), r as int), mode),
            false,
        ),
        Type::Id(id) => if id < bound && id < p.iface.types@.len() {
            def_text(p, id as nat, mode)
        } else {
            ("()"@, false)
        },
        _ => (primitive_name(ty), false),
    }
}

/// How the definition at `id` is written where it is used: by its name
/// where it has one, unless it is a list, and by what it is made of else.
pub open spec fn def_text(p: Printer, id: nat, mode: TypeMode) -> (Seq<char>, bool)
    decreases id, 3nat, 0nat,
{
    if id >= p.iface.types@.len() {
        ("()"@, false)
    } else if p.iface.types@[id as int].name is Some && !(p.iface.types@[id as int].kind is List) {
        (text_at(texts(p.names.types@), id as int), false)
    } else {
        structure_text(p, id, mode)
    }
}

/// How the definition at `id` is written by what it is made of.
pub open spec fn structure_text(p: Printer, id: nat, mode: TypeMode) -> (Seq<char>, bool)
    decreases id, 2nat, 0nat,
{
    if id >= p.iface.types@.len() {
        ("()"@, false)
    } else {
        let kind = p.iface.types@[id as int].kind;
        match kind {
            TypeDefKind::List(element) => {
                let borrowed = match mode {
                    TypeMode::Owned => None,
                    TypeMode::AllBorrowed(lt) => Some(lt),
                    TypeMode::LeafBorrowed(lt) => if bits_valid(
                        p.iface.types@,
                        element,
                        p.iface.types@.len(),
                    ) {
                        Some(lt)
                    } else {
                        None
                    },
                };
                match borrowed {
                    Some(lt) => (
                        spec_borrowed_slice(
                            wraps(p, element),
                            false,
                            lt,
                            type_text(p, element, TypeMode::AllBorrowed(lt), id).0,
                        ),
                        wraps(p, element) || type_text(p, element, TypeMode::AllBorrowed(lt), id).1,
                    ),
                    None => (
                        "Vec<"@ + type_text(p, element, mode, id).0 + ">"@,
                        type_text(p, element, mode, id).1,
                    ),
                }
            },
            TypeDefKind::Option(t) => (
                "Option<"@ + type_text(p, t, mode, id).0 + ">"@,
                type_text(p, t, mode, id).1,
            ),
            TypeDefKind::Expected(e) => (
                "Result<"@ + type_text(p, e.ok, mode, id).0 + ","@ + type_text(p, e.err, mode, id).0
                    + ">"@,
                type_text(p, e.ok, mode, id).1 || type_text(p, e.err, mode, id).1,
            ),
            TypeDefKind::Tuple(t) => (
                "("@ + tuple_items(p, t.types@, mode, id, t.types@.len()).0 + ")"@,
                tuple_items(p, t.types@, mode, id, t.types@.len()).1,
            ),
            TypeDefKind::Type(t) => type_text(p, t, mode, id),
            _ => (text_at(texts(p.names.types@), id as int), false),
        }
    }
}

/// The first `n` parts of a tuple, each followed by a comma.
pub open spec fn tuple_items(p: Printer, members: Seq<Type>, mode: TypeMode, bound: nat, n: nat) -> (
    Seq<char>,
    bool,
)
    decreases bound, 1nat, n,
{
    if n == 0 || n > members.len() {
        (Seq::empty(), false)
    } else {
        (
            tuple_items(p, members, mode, bound, (n - 1) as nat).0 + type_text(
                p,
                members[n - 1],
                mode,
                bound,
            ).0 + ","@,
            tuple_items(p, members, mode, bound, (n - 1) as nat).1 || type_text(
                p,
                members[n - 1],
                mode,
                bound,
            ).1,
        )
    }
}

/// The lifetime of the borrows of a mode, if it borrows.
pub fn lifetime(mode: TypeMode) -> (r: Option<Lifetime>)
    ensures
        r == spec_lifetime(mode),
{
    match mode {
        TypeMode::Owned => None,
        TypeMode::AllBorrowed(lt) => Some(lt),
        TypeMode::LeafBorrowed(lt) => Some(lt),
    }
}

/// A reference with the given lifetime.
pub fn print_reference(lt: Lifetime) -> (r: String)
    ensures
        r@ == reference(lt),
{
    let mut out = String::from_str("&");
    match lt {
        Lifetime::Anonymous => {},
        Lifetime::Named => {
            out.append("'a");
            out.append(" ");
        },
    }
    out
}

/// A borrowed string.
pub fn print_borrowed_str(lt: Lifetime) -> (r: String)
    ensures
        r@ == spec_borrowed_str(lt),
{
    let mut out = print_reference(lt);
    out.append(" str");
    out
}

/// A borrowed slice.
pub fn print_borrowed_slice(wrapped: bool, mutbl: bool, lt: Lifetime, element: &str) -> (r: String)
    ensures
        r@ == spec_borrowed_slice(wrapped, mutbl, lt, element@),
{
    let mut out = print_reference(lt);
    if wrapped {
        out.append(
            if mutbl {
                " mut "
            } else {
                ""
            },
        );
        out.append("[Le<");
        out.append(element);
        out.append(">]");
    } else {
        out.append(
            if mutbl {
                "mut "
            } else {
                ""
            },
        );
        out.append("[");
        out.append(element);
        out.append("]");
    }
    out
}

/// The name of a primitive type.
pub fn print_primitive(ty: Type) -> (r: &'static str)
    ensures
        r@ == primitive_name(ty),
{
    match ty {
        Type::Unit => "()",
        Type::Bool => "bool",
        Type::U8 => "u8",
        Type::U16 => "u16",
        Type::U32 => "u32",
        Type::U64 => "u64",
        Type::S8 => "i8",
        Type::S16 => "i16",
        Type::S32 => "i32",
        Type::S64 => "i64",
        Type::Float32 => "f32",
        Type::Float64 => "f64",
        Type::Char => "char",
        _ => "()",
    }
}

impl<'a> Printer<'a> {
    /// Whether slices of `element` are read through the wrapper that knows
    /// their byte order.
    pub fn wraps(&self, element: &Type) -> (r: bool)
        ensures
            r == wraps(*self, *element),
    {
        self.in_import && self.sizes.align(element) > 1
    }

    fn print_handle(&self, r: usize, mode: TypeMode) -> (text: String)
        ensures
            text@ == handle_text(
                self.projection,
                text_at(texts(self.names.resource_types@), r as int),
                mode,
            ),
    {
        let mut out = match lifetime(mode) {
            Some(lt) => print_reference(lt),
            None => String::from_str(""),
        };
        match self.projection {
            Some(from) => {
                out.append(from);
                out.append("::");
            },
            None => {
                out.append("");
            },
        }
        out.append(get_text(&self.names.resource_types, r));
        out
    }

    /// How `ty` is written in `mode`, and whether a slice in it is read
    /// through the wrapper that knows the byte order of its elements.
    pub fn print_ty(&self, ty: &Type, mode: TypeMode, bound: usize) -> (r: (String, bool))
        ensures
            (r.0@, r.1) == type_text(*self, *ty, mode, bound as nat),
        decreases bound, 0nat, 0nat,
    {
        match ty {
            Type::String => match lifetime(mode) {
                Some(lt) => (print_borrowed_str(lt), false),
                None => (String::from_str("String"), false),
            },
            Type::Handle(r) => (self.print_handle(*r, mode), false),
            Type::Id(id) => {
                if *id < bound && *id < self.iface.types.len() {
                    self.print_def(*id, mode)
                } else {
                    (String::from_str("()"), false)
                }
            },
            _ => (String::from_str(print_primitive(*ty)), false),
        }
    }

    fn print_def(&self, id: usize, mode: TypeMode) -> (r: (String, bool))
        requires
            id < self.iface.types@.len(),
        ensures
            (r.0@, r.1) == def_text(*self, id as nat, mode),
        decreases id, 3nat, 0nat,
    {
        let named = match &self.iface.types[id].name {
            Some(_) => true,
            None => false,
        };
        let is_list = match &self.iface.types[id].kind {
            TypeDefKind::List(_) => true,
            _ => false,
        };
        if named && !is_list {
            (String::from_str(get_text(&self.names.types, id)), false)
        } else {
            self.print_structure(id, mode)
        }
    }

    /// How the definition at `id` is written by what it is made of.
    pub fn print_structure(&self, id: usize, mode: TypeMode) -> (r: (String, bool))
        requires
            id < self.iface.types@.len(),
        ensures
            (r.0@, r.1) == structure_text(*self, id as nat, mode),
        decreases id, 2nat, 0nat,
    {
        match &self.iface.types[id].kind {
            TypeDefKind::List(element) => {
                let borrowed = match mode {
                    TypeMode::Owned => None,
                    TypeMode::AllBorrowed(lt) => Some(lt),
                    TypeMode::LeafBorrowed(lt) => if self.iface.all_bits_valid(element) {
                        Some(lt)
                    } else {
                        None
                    },
                };
                match borrowed {
                    Some(lt) => {
                        let inner = self.print_ty(element, TypeMode::AllBorrowed(lt), id);
                        let wrapped = self.wraps(element);
                        (
                            print_borrowed_slice(wrapped, false, lt, inner.0.as_str()),
                            wrapped || inner.1,
                        )
                    },
                    None => {
                        let inner = self.print_ty(element, mode, id);
                        let mut out = String::from_str("Vec<");
                        out.append(inner.0.as_str());
                        out.append(">");
                        (out, inner.1)
                    },
                }
            },
            TypeDefKind::Option(t) => {
                let inner = self.print_ty(t, mode, id);
                let mut out = String::from_str("Option<");
                out.append(inner.0.as_str());
                out.append(">");
                (out, inner.1)
            },
            TypeDefKind::Expected(e) => {
                let ok = self.print_ty(&e.ok, mode, id);
                let err = self.print_ty(&e.err, mode, id);
                let mut out = String::from_str("Result<");
                out.append(ok.0.as_str());
                out.append(",");
                out.append(err.0.as_str());
                out.append(">");
                (out, ok.1 || err.1)
            },
            TypeDefKind::Tuple(t) => {
                let mut out = String::from_str("(");
                let mut le = false;
                let mut k: usize = 0;
                assert(out@ =~= "("@ + tuple_items(*self, t.types@, mode, id as nat, 0).0);
                while k < t.types.len()
                    invariant
                        k <= t.types@.len(),
                        id < self.iface.types@.len(),
                        (out@, le) == (
                            "("@ + tuple_items(*self, t.types@, mode, id as nat, k as nat).0,
                            tuple_items(*self, t.types@, mode, id as nat, k as nat).1,
                        ),
                    decreases t.types@.len() - k,
                {
                    let item = self.print_ty(&t.types[k], mode, id);
                    let ghost before = out@;
                    out.append(item.0.as_str());
                    out.append(",");
                    le = le || item.1;
                    k += 1;
                    assert(out@ =~= "("@ + tuple_items(*self, t.types@, mode, id as nat, k as nat).0);
                }
                out.append(")");
                (out, le)
            },
            TypeDefKind::Type(t) => self.print_ty(t, mode, id),
            _ => (String::from_str(get_text(&self.names.types, id)), false),
        }
    }
}

/// The names of the members of the definition at `id`, or none where
/// `members` is shorter.
pub open spec fn members_at(members: Seq<Vec<String>>, id: int) -> Seq<Seq<char>> {
    if 0 <= id < members.len() {
        texts(members[id]@)
    } else {
        Seq::empty()
    }
}

/// The first `n` fields of a struct, one to a line.
pub open spec fn struct_fields(p: Printer, fields: Seq<Field>, names: Seq<Seq<char>>, id: nat, n: nat) -> Seq<
    char,
>
    decreases n,
{
    if n == 0 || n > fields.len() {
        Seq::empty()
    } else {
        struct_fields(p, fields, names, id, (n - 1) as nat) + doc_comment(fields[n - 1].docs)
            + "pub "@ + text_at(names, n - 1) + ": "@ + type_text(
            p,
            fields[n - 1].ty,
            TypeMode::Owned,
            id,
        ).0 + ",\n"@
    }
}

/// The first `n` cases of the enum for a variant, one to a line; a case
/// with a payload other than the unit holds it.
pub open spec fn variant_cases(p: Printer, cases: Seq<Case>, names: Seq<Seq<char>>, id: nat, n: nat) -> Seq<
    char,
>
    decreases n,
{
    if n == 0 || n > cases.len() {
        Seq::empty()
    } else {
        variant_cases(p, cases, names, id, (n - 1) as nat) + doc_comment(cases[n - 1].docs)
            + text_at(names, n - 1) + (if cases[n - 1].ty is Unit {
            ""@
        } else {
            "("@ + type_text(p, cases[n - 1].ty, TypeMode::Owned, id).0 + ")"@
        }) + ",\n"@
    }
}

/// The first `n` cases of the enum for a union, one to a line.
pub open spec fn union_items(p: Printer, cases: Seq<UnionCase>, id: nat, n: nat) -> Seq<char>
    decreases n,
{
    if n == 0 || n > cases.len() {
        Seq::empty()
    } else {
        union_items(p, cases, id, (n - 1) as nat) + text_at(union_cases(cases.len()), n - 1) + "("@
            + type_text(p, cases[n - 1].ty, TypeMode::Owned, id).0 + "),\n"@
    }
}

/// The first `n` cases of an enum, each after what is said of it, on a
/// line of its own and followed by a comma.
pub open spec fn enum_cases(cases: Seq<EnumCase>, names: Seq<Seq<char>>, n: nat) -> Seq<char>
    decreases n,
{
    if n == 0 || n > cases.len() {
        Seq::empty()
    } else {
        enum_cases(cases, names, (n - 1) as nat) + doc_comment(cases[n - 1].docs) + text_at(
            names,
            n - 1,
        ) + ",\n"@
    }
}

/// The item that defines the type at `id`: a struct for a record, an enum
/// for a variant, a union or an enum, and an alias for what is written by
/// its structure, each after what the interface says of it. A definition
/// without a name has no item, and the item for flags is written apart.
pub open spec fn typedef_text(p: Printer, id: nat) -> Seq<char> {
    if id >= p.iface.types@.len() || p.iface.types@[id as int].name is None {
        Seq::empty()
    } else {
        let name = text_at(texts(p.names.types@), id as int);
        let names = members_at(p.names.members@, id as int);
        let docs = doc_comment(p.iface.types@[id as int].docs);
        match p.iface.types@[id as int].kind {
            TypeDefKind::Record(r) => docs + "#[derive(Debug, Clone)]\n"@ + "pub struct "@ + name
                + " {\n"@ + struct_fields(p, r.fields@, names, id, r.fields@.len()) + "}\n"@,
            TypeDefKind::Variant(v) => docs + "#[derive(Debug, Clone)]\n"@ + "pub enum "@ + name
                + " {\n"@ + variant_cases(p, v.cases@, names, id, v.cases@.len()) + "}\n"@,
            TypeDefKind::Union(u) => docs + "#[derive(Debug, Clone)]\n"@ + "pub enum "@ + name
                + " {\n"@ + union_items(p, u.cases@, id, u.cases@.len()) + "}\n"@,
            TypeDefKind::Enum(e) => docs
                + "#[repr(u8)]\n#[derive(Debug, Clone, Copy, PartialEq, Eq)]\n"@ + "pub enum "@ + name
                + " {\n"@ + enum_cases(e.cases@, names, e.cases@.len()) + "}\n"@,
            TypeDefKind::Flags(_) => Seq::empty(),
            _ => docs + "pub type "@ + name + " = "@ + structure_text(p, id, TypeMode::Owned).0
                + ";\n"@,
        }
    }
}

/// The first `n` parameters of a function, each with its type and followed
/// by a comma, and whether a slice among them is read through the wrapper
/// that knows the byte order of its elements.
pub open spec fn params_text(p: Printer, params: Seq<(String, Type)>, mode: TypeMode, n: nat) -> (
    Seq<char>,
    bool,
)
    decreases n,
{
    if n == 0 || n > params.len() {
        (Seq::empty(), false)
    } else {
        (
            params_text(p, params, mode, (n - 1) as nat).0 + rust_ident_of(params[n - 1].0@) + ": "@
                + type_text(p, params[n - 1].1, mode, p.iface.types@.len()).0 + ","@,
            params_text(p, params, mode, (n - 1) as nat).1 || type_text(
                p,
                params[n - 1].1,
                mode,
                p.iface.types@.len(),
            ).1,
        )
    }
}

/// The identifiers of the parameters of a function.
pub open spec fn param_idents(params: Seq<(String, Type)>) -> Seq<Seq<char>> {
    Seq::new(params.len(), |i: int| rust_ident_of(params[i].0@))
}

/// The head of the generated function for `func`, the function at `index`
/// of the interface: what is said of the function, and its signature up to
/// the end of its parameters.
pub open spec fn signature_head(p: Printer, func: Function, index: int, mode: TypeMode, sig: FnSig) -> Seq<
    char,
> {
    doc_comment(func.docs) + (if sig.private {
        ""@
    } else {
        "pub "@
    }) + (if sig.async_ {
        "async "@
    } else {
        ""@
    }) + "fn "@ + text_at(texts(p.names.functions@), index) + "("@ + (match sig.self_arg {
        Some(arg) => arg@ + ","@,
        None => ""@,
    }) + params_text(p, func.params@, mode, func.params@.len()).0 + ")"@
}

/// The head of a generated function.
pub struct Head {
    /// The text, up to the end of the parameters.
    pub text: String,
    /// The identifiers of the parameters.
    pub params: Vec<String>,
    /// Whether a slice among the parameters is read through the wrapper
    /// that knows the byte order of its elements.
    pub needs_le: bool,
}

impl<'a> Printer<'a> {
    fn print_struct_fields(&self, out: &mut String, fields: &Vec<Field>, names: &Vec<String>, id: usize)
        ensures
            final(out)@ == old(out)@ + struct_fields(
                *self,
                fields@,
                texts(names@),
                id as nat,
                fields@.len(),
            ),
    {
        let mut k: usize = 0;
        assert(out@ =~= old(out)@ + struct_fields(*self, fields@, texts(names@), id as nat, 0));
        while k < fields.len()
            invariant
                k <= fields@.len(),
                out@ == old(out)@ + struct_fields(*self, fields@, texts(names@), id as nat, k as nat),
            decreases fields@.len() - k,
        {
            let ty = self.print_ty(&fields[k].ty, TypeMode::Owned, id);
            let said = print_docs(&fields[k].docs);
            out.append(said.as_str());
            out.append("pub ");
            out.append(get_text(names, k));
            out.append(": ");
            out.append(ty.0.as_str());
            out.append(",\n");
            k += 1;
            assert(out@ =~= old(out)@ + struct_fields(
                *self,
                fields@,
                texts(names@),
                id as nat,
                k as nat,
            ));
        }
    }

    fn print_variant_cases(&self, out: &mut String, cases: &Vec<Case>, names: &Vec<String>, id: usize)
        ensures
            final(out)@ == old(out)@ + variant_cases(
                *self,
                cases@,
                texts(names@),
                id as nat,
                cases@.len(),
            ),
    {
        let mut k: usize = 0;
        assert(out@ =~= old(out)@ + variant_cases(*self, cases@, texts(names@), id as nat, 0));
        while k < cases.len()
            invariant
                k <= cases@.len(),
                out@ == old(out)@ + variant_cases(*self, cases@, texts(names@), id as nat, k as nat),
            decreases cases@.len() - k,
        {
            let said = print_docs(&cases[k].docs);
            out.append(said.as_str());
            out.append(get_text(names, k));
            match cases[k].ty {
                Type::Unit => {
                    out.append("");
                },
                _ => {
                    let ty = self.print_ty(&cases[k].ty, TypeMode::Owned, id);
                    out.append("(");
                    out.append(ty.0.as_str());
                    out.append(")");
                },
            }
            out.append(",\n");
            k += 1;
            assert(out@ =~= old(out)@ + variant_cases(
                *self,
                cases@,
                texts(names@),
                id as nat,
                k as nat,
            ));
        }
    }

    fn print_union_items(&self, out: &mut String, cases: &Vec<UnionCase>, id: usize)
        ensures
            final(out)@ == old(out)@ + union_items(*self, cases@, id as nat, cases@.len()),
    {
        let names = union_case_names(cases.len());
        let mut k: usize = 0;
        assert(out@ =~= old(out)@ + union_items(*self, cases@, id as nat, 0));
        while k < cases.len()
            invariant
                k <= cases@.len(),
                texts(names@) == union_cases(cases@.len()),
                out@ == old(out)@ + union_items(*self, cases@, id as nat, k as nat),
            decreases cases@.len() - k,
        {
            let ty = self.print_ty(&cases[k].ty, TypeMode::Owned, id);
            out.append(get_text(&names, k));
            out.append("(");
            out.append(ty.0.as_str());
            out.append("),\n");
            k += 1;
            assert(out@ =~= old(out)@ + union_items(*self, cases@, id as nat, k as nat));
        }
    }

    /// The item that defines the type at `id`.
    pub fn print_typedef(&self, id: usize) -> (r: String)
        ensures
            r@ == typedef_text(*self, id as nat),
    {
        let mut out = String::from_str("");
        proof {
            reveal_strlit("");
            assert(out@ =~= Seq::<char>::empty());
        }
        if id >= self.iface.types.len() {
            return out;
        }
        if self.iface.types[id].name.is_none() {
            return out;
        }
        let none: Vec<String> = Vec::new();
        let names = if id < self.names.members.len() {
            &self.names.members[id]
        } else {
            &none
        };
        assert(texts(names@) =~= members_at(self.names.members@, id as int));
        let name = get_text(&self.names.types, id);
        let said = print_docs(&self.iface.types[id].docs);
        match &self.iface.types[id].kind {
            TypeDefKind::Record(r) => {
                out.append(said.as_str());
                out.append("#[derive(Debug, Clone)]\n");
                out.append("pub struct ");
                out.append(name);
                out.append(" {\n");
                self.print_struct_fields(&mut out, &r.fields, names, id);
                out.append("}\n");
                assert(out@ =~= typedef_text(*self, id as nat));
            },
            TypeDefKind::Variant(v) => {
                out.append(said.as_str());
                out.append("#[derive(Debug, Clone)]\n");
                out.append("pub enum ");
                out.append(name);
                out.append(" {\n");
                self.print_variant_cases(&mut out, &v.cases, names, id);
                out.append("}\n");
                assert(out@ =~= typedef_text(*self, id as nat));
            },
            TypeDefKind::Union(u) => {
                out.append(said.as_str());
                out.append("#[derive(Debug, Clone)]\n");
                out.append("pub enum ");
                out.append(name);
                out.append(" {\n");
                self.print_union_items(&mut out, &u.cases, id);
                out.append("}\n");
                assert(out@ =~= typedef_text(*self, id as nat));
            },
            TypeDefKind::Enum(e) => {
                out.append(said.as_str());
                out.append("#[repr(u8)]\n#[derive(Debug, Clone, Copy, PartialEq, Eq)]\n");
                out.append("pub enum ");
                out.append(name);
                out.append(" {\n");
                let ghost head = out@;
                let mut k: usize = 0;
                assert(out@ =~= head + enum_cases(e.cases@, texts(names@), 0));
                while k < e.cases.len()
                    invariant
                        k <= e.cases@.len(),
                        out@ == head + enum_cases(e.cases@, texts(names@), k as nat),
                    decreases e.cases@.len() - k,
                {
                    let about = print_docs(&e.cases[k].docs);
                    out.append(about.as_str());
                    out.append(get_text(names, k));
                    out.append(",\n");
                    k += 1;
                    assert(out@ =~= head + enum_cases(e.cases@, texts(names@), k as nat));
                }
                out.append("}\n");
                assert(out@ =~= typedef_text(*self, id as nat));
            },
            TypeDefKind::Flags(_) => {},
            _ => {
                let alias = self.print_structure(id, TypeMode::Owned);
                out.append(said.as_str());
                out.append("pub type ");
                out.append(name);
                out.append(" = ");
                out.append(alias.0.as_str());
                out.append(";\n");
                assert(out@ =~= typedef_text(*self, id as nat));
            },
        }
        out
    }

    /// The head of the generated function for `func`, the function at
    /// `index` of the interface.
    pub fn print_docs_and_params(&self, func: &Function, index: usize, mode: TypeMode, sig: &FnSig) -> (r: Head)
        ensures
            r.text@ == signature_head(*self, *func, index as int, mode, *sig),
            texts(r.params@) == param_idents(func.params@),
            r.needs_le == params_text(*self, func.params@, mode, func.params@.len()).1,
    {
        let mut out = print_docs(&func.docs);
        out.append(
            if sig.private {
                ""
            } else {
                "pub "
            },
        );
        out.append(
            if sig.async_ {
                "async "
            } else {
                ""
            },
        );
        out.append("fn ");
        out.append(get_text(&self.names.functions, index));
        out.append("(");
        match sig.self_arg {
            Some(arg) => {
                out.append(arg);
                out.append(",");
            },
            None => {
                out.append("");
            },
        }
        let ghost head = out@;
        let mut idents: Vec<String> = Vec::new();
        let mut le = false;
        let mut k: usize = 0;
        assert(out@ =~= head + params_text(*self, func.params@, mode, 0).0);
        while k < func.params.len()
            invariant
                k <= func.params@.len(),
                idents@.len() == k,
                forall|j: int| 0 <= j < k ==> (#[trigger] idents@[j])@ == rust_ident_of(func.params@[j].0@),
                out@ == head + params_text(*self, func.params@, mode, k as nat).0,
                le == params_text(*self, func.params@, mode, k as nat).1,
            decreases func.params@.len() - k,
        {
            let ident = to_rust_ident(func.params[k].0.as_str());
            let ty = self.print_ty(&func.params[k].1, mode, self.iface.types.len());
            out.append(ident.as_str());
            out.append(": ");
            out.append(ty.0.as_str());
            out.append(",");
            idents.push(ident);
            le = le || ty.1;
            k += 1;
            assert(out@ =~= head + params_text(*self, func.params@, mode, k as nat).0);
        }
        out.append(")");
        assert(texts(idents@) =~= param_idents(func.params@));
        Head { text: out, params: idents, needs_le: le }
    }
}

} // verus!
