//! The names by which the generated code knows the things of an interface.

use crate::encoding::same_str;
use crate::types::{FlagsRepr, Interface, TypeDefKind};
use vstd::prelude::*;
use vstd::string::StringExecFns;

verus! {

/// What `heck` makes of a name in camel case.
pub uninterp spec fn camel_case_of(name: Seq<char>) -> Seq<char>;

/// What `heck` makes of a name in snake case.
pub uninterp spec fn snake_case_of(name: Seq<char>) -> Seq<char>;

/// What `heck` makes of a name in shouty snake case.
pub uninterp spec fn shouty_snake_case_of(name: Seq<char>) -> Seq<char>;

/// `CamelCase::to_camel_case` of `heck`: the words of the name, each with a
/// capital first letter, without anything between them. The result depends
/// on the name alone.
#[verifier::external_body]
pub(crate) fn camel_case(name: &str) -> (r: String)
    ensures
        r@ == camel_case_of(name@),
{
    heck::CamelCase::to_camel_case(name)
}

/// `SnakeCase::to_snake_case` of `heck`: the words of the name in lower
/// case, with underscores between them. The result depends on the name
/// alone.
#[verifier::external_body]
pub(crate) fn snake_case(name: &str) -> (r: String)
    ensures
        r@ == snake_case_of(name@),
{
    heck::SnakeCase::to_snake_case(name)
}

/// `ShoutySnakeCase::to_shouty_snake_case` of `heck`: the words of the name
/// in upper case, with underscores between them. The result depends on the
/// name alone.
#[verifier::external_body]
pub(crate) fn shouty_snake_case(name: &str) -> (r: String)
    ensures
        r@ == shouty_snake_case_of(name@),
{
    heck::ShoutySnakeCase::to_shouty_snake_case(name)
}

/// `name` in camel case.
pub fn camel_case_name(name: &str) -> (r: String)
    ensures
        r@ == camel_case_of(name@),
{
    camel_case(name)
}

/// `name` in snake case.
pub fn snake_case_name(name: &str) -> (r: String)
    ensures
        r@ == snake_case_of(name@),
{
    snake_case(name)
}

/// Whether `name` is a word of Rust that no function or field can be called.
pub open spec fn is_keyword(name: Seq<char>) -> bool {
    name == "in"@ || name == "type"@ || name == "where"@ || name == "yield"@ || name == "async"@
        || name == "self"@
}

/// The identifier that stands for `name`, as made from what `heck` says the
/// name is in snake case: a word of Rust gets an underscore at its end, any
/// other name is put in snake case.
pub open spec fn ident_from(name: Seq<char>, snake: Seq<char>) -> Seq<char> {
    if is_keyword(name) {
        name + "_"@
    } else {
        snake
    }
}

/// The identifier that stands for `name` in Rust.
pub open spec fn rust_ident_of(name: Seq<char>) -> Seq<char> {
    ident_from(name, snake_case_of(name))
}

/// The identifier that stands for `name`, given `snake`, the name in snake
/// case.
pub fn ident_with(name: &str, snake: String) -> (r: String)
    ensures
        r@ == ident_from(name@, snake@),
{
    if same_str(name, "in") || same_str(name, "type") || same_str(name, "where") || same_str(
        name,
        "yield",
    ) || same_str(name, "async") || same_str(name, "self") {
        let mut out = String::from_str(name);
        out.append("_");
        out
    } else {
        snake
    }
}

/// The identifier that stands for `name` in Rust.
pub fn to_rust_ident(name: &str) -> (r: String)
    ensures
        r@ == rust_ident_of(name@),
{
    ident_with(name, snake_case(name))
}

/// The Rust integer type that holds the bits of flags stored in the given
/// way.
pub open spec fn spec_flags_type(repr: FlagsRepr) -> Seq<char> {
    match repr {
        FlagsRepr::U8 => "u8"@,
        FlagsRepr::U16 => "u16"@,
        FlagsRepr::U32(n) => if n <= 1 {
            "u32"@
        } else if n == 2 {
            "u64"@
        } else {
            "u128"@
        },
    }
}

pub fn flags_type(repr: FlagsRepr) -> (r: &'static str)
    ensures
        r@ == spec_flags_type(repr),
{
    match repr {
        FlagsRepr::U8 => "u8",
        FlagsRepr::U16 => "u16",
        FlagsRepr::U32(n) => if n <= 1 {
            "u32"
        } else if n == 2 {
            "u64"
        } else {
            "u128"
        },
    }
}

/// The name of a definition as given, or nothing where it has no name.
pub open spec fn given_name(name: Option<String>) -> Seq<char> {
    match name {
        Some(n) => n@,
        None => Seq::empty(),
    }
}

/// The names of the members of a definition as given: the fields of a
/// record, the cases of a variant or an enum, the flags.
pub open spec fn member_names(kind: TypeDefKind) -> Seq<Seq<char>> {
    match kind {
        TypeDefKind::Record(r) => Seq::new(r.fields@.len(), |i: int| r.fields@[i].name@),
        TypeDefKind::Variant(v) => Seq::new(v.cases@.len(), |i: int| v.cases@[i].name@),
        TypeDefKind::Enum(e) => Seq::new(e.cases@.len(), |i: int| e.cases@[i].name@),
        TypeDefKind::Flags(f) => Seq::new(f.flags@.len(), |i: int| f.flags@[i].name@),
        _ => Seq::empty(),
    }
}

/// The names by which the generated code knows the types, resources and
/// functions of an interface.
pub struct Names {
    /// The name of each definition, in camel case.
    pub types: Vec<String>,
    /// Per definition the names of its members: the fields of a record as
    /// identifiers, the cases of a variant or an enum in camel case, the
    /// flags in shouty snake case.
    pub members: Vec<Vec<String>>,
    /// The name of each resource, in snake case.
    pub resource_tables: Vec<String>,
    /// The name of each resource, in camel case.
    pub resource_types: Vec<String>,
    /// The name of each function as a method of the host, in snake case.
    pub methods: Vec<String>,
    /// The name of each function as an identifier.
    pub functions: Vec<String>,
}

/// The strings of `v` as sequences of characters.
pub open spec fn texts(v: Seq<String>) -> Seq<Seq<char>> {
    Seq::new(v.len(), |i: int| v[i]@)
}

/// The name of member `k` of a definition in the generated code.
pub open spec fn member_name(kind: TypeDefKind, k: int) -> Seq<char> {
    match kind {
        TypeDefKind::Record(_) => rust_ident_of(member_names(kind)[k]),
        TypeDefKind::Flags(_) => shouty_snake_case_of(member_names(kind)[k]),
        _ => camel_case_of(member_names(kind)[k]),
    }
}

impl Names {
    /// The names are those of `iface`.
    pub open spec fn of(&self, iface: Interface) -> bool {
        &&& self.types@.len() == iface.types@.len()
        &&& self.members@.len() == iface.types@.len()
        &&& forall|i: int|
            0 <= i < iface.types@.len() ==> {
                &&& (#[trigger] self.types@[i])@ == camel_case_of(given_name(iface.types@[i].name))
                &&& self.members@[i]@.len() == member_names(iface.types@[i].kind).len()
                &&& forall|k: int|
                    0 <= k < self.members@[i]@.len() ==> (#[trigger] self.members@[i]@[k])@
                        == member_name(iface.types@[i].kind, k)
            }
        &&& self.resource_tables@.len() == iface.resources@.len()
        &&& self.resource_types@.len() == iface.resources@.len()
        &&& forall|i: int|
            0 <= i < iface.resources@.len() ==> {
                &&& (#[trigger] self.resource_tables@[i])@ == snake_case_of(
                    iface.resources@[i].name@,
                )
                &&& self.resource_types@[i]@ == camel_case_of(iface.resources@[i].name@)
            }
        &&& self.methods@.len() == iface.functions@.len()
        &&& self.functions@.len() == iface.functions@.len()
        &&& forall|i: int|
            0 <= i < iface.functions@.len() ==> {
                &&& (#[trigger] self.methods@[i])@ == snake_case_of(iface.functions@[i].name@)
                &&& self.functions@[i]@ == rust_ident_of(iface.functions@[i].name@)
            }
    }

    /// The names of the members of one definition.
    fn members_of(kind: &TypeDefKind) -> (r: Vec<String>)
        ensures
            r@.len() == member_names(*kind).len(),
            forall|k: int| 0 <= k < r@.len() ==> (#[trigger] r@[k])@ == member_name(*kind, k),
    {
        let mut out: Vec<String> = Vec::new();
        match kind {
            TypeDefKind::Record(r) => {
                let mut k: usize = 0;
                while k < r.fields.len()
                    invariant
                        k <= r.fields@.len(),
                        *kind == TypeDefKind::Record(*r),
                        out@.len() == k,
                        forall|j: int|
                            0 <= j < k ==> (#[trigger] out@[j])@ == member_name(*kind, j),
                    decreases r.fields@.len() - k,
                {
                    out.push(to_rust_ident(r.fields[k].name.as_str()));
                    k += 1;
                }
            },
            TypeDefKind::Variant(v) => {
                let mut k: usize = 0;
                while k < v.cases.len()
                    invariant
                        k <= v.cases@.len(),
                        *kind == TypeDefKind::Variant(*v),
                        out@.len() == k,
                        forall|j: int|
                            0 <= j < k ==> (#[trigger] out@[j])@ == member_name(*kind, j),
                    decreases v.cases@.len() - k,
                {
                    out.push(camel_case(v.cases[k].name.as_str()));
                    k += 1;
                }
            },
            TypeDefKind::Enum(e) => {
                let mut k: usize = 0;
                while k < e.cases.len()
                    invariant
                        k <= e.cases@.len(),
                        *kind == TypeDefKind::Enum(*e),
                        out@.len() == k,
                        forall|j: int|
                            0 <= j < k ==> (#[trigger] out@[j])@ == member_name(*kind, j),
                    decreases e.cases@.len() - k,
                {
                    out.push(camel_case(e.cases[k].name.as_str()));
                    k += 1;
                }
            },
            TypeDefKind::Flags(f) => {
                let mut k: usize = 0;
                while k < f.flags.len()
                    invariant
                        k <= f.flags@.len(),
                        *kind == TypeDefKind::Flags(*f),
                        out@.len() == k,
                        forall|j: int|
                            0 <= j < k ==> (#[trigger] out@[j])@ == member_name(*kind, j),
                    decreases f.flags@.len() - k,
                {
                    out.push(shouty_snake_case(f.flags[k].name.as_str()));
                    k += 1;
                }
            },
            _ => {},
        }
        out
    }

    /// The names of `iface` as the generated code has them.
    pub fn new(iface: &Interface) -> (r: Names)
        ensures
            r.of(*iface),
    {
        let mut types: Vec<String> = Vec::new();
        let mut members: Vec<Vec<String>> = Vec::new();
        let mut i: usize = 0;
        while i < iface.types.len()
            invariant
                i <= iface.types@.len(),
                types@.len() == i,
                members@.len() == i,
                forall|j: int|
                    0 <= j < i ==> {
                        &&& (#[trigger] types@[j])@ == camel_case_of(
                            given_name(iface.types@[j].name),
                        )
                        &&& members@[j]@.len() == member_names(iface.types@[j].kind).len()
                        &&& forall|k: int|
                            0 <= k < members@[j]@.len() ==> (#[trigger] members@[j]@[k])@
                                == member_name(iface.types@[j].kind, k)
                    },
            decreases iface.types@.len() - i,
        {
            let name = match &iface.types[i].name {
                Some(n) => camel_case(n.as_str()),
                None => camel_case(""),
            };
            proof {
                if iface.types@[i as int].name is None {
                    reveal_strlit("");
                    assert(""@ =~= Seq::<char>::empty());
                }
            }
            types.push(name);
            members.push(Names::members_of(&iface.types[i].kind));
            i += 1;
        }
        let mut resource_tables: Vec<String> = Vec::new();
        let mut resource_types: Vec<String> = Vec::new();
        let mut i: usize = 0;
        while i < iface.resources.len()
            invariant
                i <= iface.resources@.len(),
                resource_tables@.len() == i,
                resource_types@.len() == i,
                forall|j: int|
                    0 <= j < i ==> {
                        &&& (#[trigger] resource_tables@[j])@ == snake_case_of(
                            iface.resources@[j].name@,
                        )
                        &&& resource_types@[j]@ == camel_case_of(iface.resources@[j].name@)
                    },
            decreases iface.resources@.len() - i,
        {
            resource_tables.push(snake_case(iface.resources[i].name.as_str()));
            resource_types.push(camel_case(iface.resources[i].name.as_str()));
            i += 1;
        }
        let mut methods: Vec<String> = Vec::new();
        let mut functions: Vec<String> = Vec::new();
        let mut i: usize = 0;
        while i < iface.functions.len()
            invariant
                i <= iface.functions@.len(),
                methods@.len() == i,
                functions@.len() == i,
                forall|j: int|
                    0 <= j < i ==> {
                        &&& (#[trigger] methods@[j])@ == snake_case_of(iface.functions@[j].name@)
                        &&& functions@[j]@ == rust_ident_of(iface.functions@[j].name@)
                    },
            decreases iface.functions@.len() - i,
        {
            methods.push(snake_case(iface.functions[i].name.as_str()));
            functions.push(to_rust_ident(iface.functions[i].name.as_str()));
            i += 1;
        }
        Names { types, members, resource_tables, resource_types, methods, functions }
    }
}

} // verus!
