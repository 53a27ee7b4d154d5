//! The resolved type graph of an interface.

use vstd::prelude::*;

verus! {

/// Position of a type definition in [`Interface::types`].
pub type TypeId = usize;

/// Position of a resource in [`Interface::resources`].
pub type ResourceId = usize;

/// A type as it is written where a value is expected: a primitive, a handle
/// to a resource, or a reference to a definition of the interface.
#[derive(Clone, Copy, Debug, PartialEq, Eq, Hash, Structural)]
pub enum Type {
    Unit,
    Bool,
    U8,
    U16,
    U32,
    U64,
    S8,
    S16,
    S32,
    S64,
    Float32,
    Float64,
    Char,
    String,
    Handle(ResourceId),
    Id(TypeId),
}

/// Width of the integer that stores a discriminant or a set of flags.
#[derive(Clone, Copy, Debug, PartialEq, Eq, Hash, Structural)]
pub enum Int {
    U8,
    U16,
    U32,
    U64,
}

#[derive(Clone, Debug)]
pub struct Field {
    /// What the interface says of it in words.
    pub docs: Option<String>,
    pub name: String,
    pub ty: Type,
}

#[derive(Clone, Debug)]
pub struct Record {
    pub fields: Vec<Field>,
}

#[derive(Clone, Debug)]
pub struct Tuple {
    pub types: Vec<Type>,
}

#[derive(Clone, Debug)]
pub struct Flag {
    /// What the interface says of it in words.
    pub docs: Option<String>,
    pub name: String,
}

#[derive(Clone, Debug)]
pub struct Flags {
    pub flags: Vec<Flag>,
}

/// How a set of flags is stored: one byte, two bytes, or a number of 32-bit
/// words.
#[derive(Clone, Copy, Debug, PartialEq, Eq, Structural)]
pub enum FlagsRepr {
    U8,
    U16,
    U32(usize),
}

#[derive(Clone, Debug)]
pub struct Case {
    /// What the interface says of it in words.
    pub docs: Option<String>,
    pub name: String,
    pub ty: Type,
}

#[derive(Clone, Debug)]
pub struct Variant {
    pub cases: Vec<Case>,
}

#[derive(Clone, Debug)]
pub struct EnumCase {
    /// What the interface says of it in words.
    pub docs: Option<String>,
    pub name: String,
}

#[derive(Clone, Debug)]
pub struct Enum {
    pub cases: Vec<EnumCase>,
}

#[derive(Clone, Copy, Debug)]
pub struct Expected {
    pub ok: Type,
    pub err: Type,
}

#[derive(Clone, Copy, Debug)]
pub struct UnionCase {
    pub ty: Type,
}

#[derive(Clone, Debug)]
pub struct Union {
    pub cases: Vec<UnionCase>,
}

#[derive(Clone, Debug)]
pub enum TypeDefKind {
    Record(Record),
    Flags(Flags),
    Tuple(Tuple),
    Variant(Variant),
    Enum(Enum),
    Option(Type),
    Expected(Expected),
    Union(Union),
    List(Type),
    Type(Type),
}

#[derive(Clone, Debug)]
pub struct TypeDef {
    /// What the interface says of it in words.
    pub docs: Option<String>,
    pub name: Option<String>,
    pub kind: TypeDefKind,
}

#[derive(Clone, Debug)]
pub struct Resource {
    /// What the interface says of it in words.
    pub docs: Option<String>,
    pub name: String,
}

#[derive(Clone, Debug)]
pub struct Function {
    /// What the interface says of it in words.
    pub docs: Option<String>,
    pub is_async: bool,
    pub name: String,
    pub params: Vec<(String, Type)>,
    pub result: Type,
}

/// A named collection of type definitions, resources and functions. A type
/// is referred to by its position in `types`, a resource by its position in
/// `resources`.
#[derive(Clone, Debug)]
pub struct Interface {
    pub name: String,
    pub types: Vec<TypeDef>,
    pub resources: Vec<Resource>,
    pub functions: Vec<Function>,
}

/// The largest number of cases a variant, enum or union may declare.
pub const MAX_CASES: usize = 0x7fff_ffff;

/// The integer width that holds a discriminant over `n` cases.
pub open spec fn spec_tag(n: nat) -> Int {
    if n <= 0xff {
        Int::U8
    } else if n <= 0xffff {
        Int::U16
    } else if n <= 0xffff_ffff {
        Int::U32
    } else {
        Int::U64
    }
}

/// The storage of `n` flags.
pub open spec fn spec_flags_repr(n: nat) -> FlagsRepr {
    if n <= 8 {
        FlagsRepr::U8
    } else if n <= 16 {
        FlagsRepr::U16
    } else {
        FlagsRepr::U32(((n + 31) / 32) as usize)
    }
}

/// The number of 32-bit core values that carry a set of flags.
pub open spec fn spec_repr_count(r: FlagsRepr) -> nat {
    match r {
        FlagsRepr::U8 => 1,
        FlagsRepr::U16 => 1,
        FlagsRepr::U32(n) => n as nat,
    }
}

/// The smallest integer width that holds a discriminant over `n` cases.
pub fn tag_for(n: usize) -> (r: Int)
    ensures
        r == spec_tag(n as nat),
{
    if n <= 0xff {
        Int::U8
    } else if n <= 0xffff {
        Int::U16
    } else if n <= 0xffff_ffff {
        Int::U32
    } else {
        Int::U64
    }
}

impl Flags {
    pub open spec fn spec_repr(&self) -> FlagsRepr {
        spec_flags_repr(self.flags@.len())
    }

    /// The storage of this set of flags.
    pub fn repr(&self) -> (r: FlagsRepr)
        ensures
            r == self.spec_repr(),
            spec_repr_count(r) * 4 <= usize::MAX,
    {
        let n: usize = self.flags.len();
        if n <= 8 {
            FlagsRepr::U8
        } else if n <= 16 {
            FlagsRepr::U16
        } else {
            FlagsRepr::U32((n - 1) / 32 + 1)
        }
    }
}

impl FlagsRepr {
    /// The number of 32-bit core values that carry the flags.
    pub fn count(&self) -> (n: usize)
        ensures
            n == spec_repr_count(*self),
    {
        match self {
            FlagsRepr::U8 => 1,
            FlagsRepr::U16 => 1,
            FlagsRepr::U32(n) => *n,
        }
    }
}

impl Variant {
    pub fn tag(&self) -> (r: Int)
        ensures
            r == spec_tag(self.cases@.len()),
    {
        tag_for(self.cases.len())
    }
}

impl Enum {
    pub fn tag(&self) -> (r: Int)
        ensures
            r == spec_tag(self.cases@.len()),
    {
        tag_for(self.cases.len())
    }
}

impl Union {
    pub fn tag(&self) -> (r: Int)
        ensures
            r == spec_tag(self.cases@.len()),
    {
        tag_for(self.cases.len())
    }
}


/// The number of definitions that `ty` depends on being resolved before it:
/// one more than its position for a reference, nothing for the rest.
pub open spec fn rank(ty: Type) -> nat {
    match ty {
        Type::Id(id) => id as nat + 1,
        _ => 0,
    }
}

/// Whether `ty` may stand inside the definition at position `bound`: a
/// reference points to an earlier definition, a handle to a declared
/// resource.
pub open spec fn type_resolved(ty: Type, bound: nat, resources: nat) -> bool {
    match ty {
        Type::Id(id) => id < bound,
        Type::Handle(r) => r < resources,
        _ => true,
    }
}

pub fn check_type_resolved(ty: Type, bound: usize, resources: usize) -> (r: bool)
    ensures
        r == type_resolved(ty, bound as nat, resources as nat),
{
    match ty {
        Type::Id(id) => id < bound,
        Type::Handle(r) => r < resources,
        _ => true,
    }
}

impl TypeDefKind {
    /// The types a definition is made of, in declaration order: the fields
    /// of a record or tuple, the payloads of a variant or union, `unit` and
    /// the payload for an option, the two payloads of an expected, the
    /// element of a list, the target of an alias. Flags and enums have none.
    pub open spec fn spec_members(&self) -> Seq<Type> {
        match self {
            TypeDefKind::Record(r) => Seq::new(r.fields@.len(), |i: int| r.fields@[i].ty),
            TypeDefKind::Tuple(t) => t.types@,
            TypeDefKind::Variant(v) => Seq::new(v.cases@.len(), |i: int| v.cases@[i].ty),
            TypeDefKind::Union(u) => Seq::new(u.cases@.len(), |i: int| u.cases@[i].ty),
            TypeDefKind::Option(t) => seq![Type::Unit, *t],
            TypeDefKind::Expected(e) => seq![e.ok, e.err],
            TypeDefKind::List(t) => seq![*t],
            TypeDefKind::Type(t) => seq![*t],
            TypeDefKind::Flags(_) => Seq::empty(),
            TypeDefKind::Enum(_) => Seq::empty(),
        }
    }

    /// The number of cases a discriminant of this definition selects from;
    /// zero for a definition without discriminant.
    pub open spec fn spec_case_count(&self) -> nat {
        match self {
            TypeDefKind::Variant(v) => v.cases@.len(),
            TypeDefKind::Union(u) => u.cases@.len(),
            TypeDefKind::Enum(e) => e.cases@.len(),
            TypeDefKind::Option(_) => 2,
            TypeDefKind::Expected(_) => 2,
            _ => 0,
        }
    }

    /// Whether the definition is one of the variant family: a variant, a
    /// union, an option or an expected.
    pub open spec fn spec_has_payloads(&self) -> bool {
        match self {
            TypeDefKind::Variant(_) => true,
            TypeDefKind::Union(_) => true,
            TypeDefKind::Option(_) => true,
            TypeDefKind::Expected(_) => true,
            _ => false,
        }
    }

    pub fn members(&self) -> (r: Vec<Type>)
        ensures
            r@ == self.spec_members(),
    {
        let mut out: Vec<Type> = Vec::new();
        match self {
            TypeDefKind::Record(r) => {
                let mut i: usize = 0;
                while i < r.fields.len()
                    invariant
                        i <= r.fields@.len(),
                        out@ == Seq::new(i as nat, |k: int| r.fields@[k].ty),
                    decreases r.fields@.len() - i,
                {
                    out.push(r.fields[i].ty);
                    i += 1;
                    assert(out@ =~= Seq::new(i as nat, |k: int| r.fields@[k].ty));
                }
                assert(out@ =~= self.spec_members());
            },
            TypeDefKind::Tuple(t) => {
                let mut i: usize = 0;
                while i < t.types.len()
                    invariant
                        i <= t.types@.len(),
                        out@ == t.types@.take(i as int),
                    decreases t.types@.len() - i,
                {
                    out.push(t.types[i]);
                    i += 1;
                    assert(out@ =~= t.types@.take(i as int));
                }
                assert(out@ =~= self.spec_members());
            },
            TypeDefKind::Variant(v) => {
                let mut i: usize = 0;
                while i < v.cases.len()
                    invariant
                        i <= v.cases@.len(),
                        out@ == Seq::new(i as nat, |k: int| v.cases@[k].ty),
                    decreases v.cases@.len() - i,
                {
                    out.push(v.cases[i].ty);
                    i += 1;
                    assert(out@ =~= Seq::new(i as nat, |k: int| v.cases@[k].ty));
                }
                assert(out@ =~= self.spec_members());
            },
            TypeDefKind::Union(u) => {
                let mut i: usize = 0;
                while i < u.cases.len()
                    invariant
                        i <= u.cases@.len(),
                        out@ == Seq::new(i as nat, |k: int| u.cases@[k].ty),
                    decreases u.cases@.len() - i,
                {
                    out.push(u.cases[i].ty);
                    i += 1;
                    assert(out@ =~= Seq::new(i as nat, |k: int| u.cases@[k].ty));
                }
                assert(out@ =~= self.spec_members());
            },
            TypeDefKind::Option(t) => {
                out.push(Type::Unit);
                out.push(*t);
                assert(out@ =~= self.spec_members());
            },
            TypeDefKind::Expected(e) => {
                out.push(e.ok);
                out.push(e.err);
                assert(out@ =~= self.spec_members());
            },
            TypeDefKind::List(t) => {
                out.push(*t);
                assert(out@ =~= self.spec_members());
            },
            TypeDefKind::Type(t) => {
                out.push(*t);
                assert(out@ =~= self.spec_members());
            },
            TypeDefKind::Flags(_) => {
                assert(out@ =~= self.spec_members());
            },
            TypeDefKind::Enum(_) => {
                assert(out@ =~= self.spec_members());
            },
        }
        out
    }

    pub fn case_count(&self) -> (n: usize)
        ensures
            n == self.spec_case_count(),
    {
        match self {
            TypeDefKind::Variant(v) => v.cases.len(),
            TypeDefKind::Union(u) => u.cases.len(),
            TypeDefKind::Enum(e) => e.cases.len(),
            TypeDefKind::Option(_) => 2,
            TypeDefKind::Expected(_) => 2,
            _ => 0,
        }
    }

    /// The width of this definition's discriminant.
    pub fn tag(&self) -> (r: Int)
        ensures
            r == spec_tag(self.spec_case_count()),
    {
        tag_for(self.case_count())
    }
}

/// Whether every type in `members` may stand inside the definition at
/// position `bound`.
pub open spec fn members_resolved(members: Seq<Type>, bound: nat, resources: nat) -> bool {
    forall|k: int| 0 <= k < members.len() ==> type_resolved(#[trigger] members[k], bound, resources)
}

/// Whether the definition at position `id` is resolved: everything it is
/// made of was defined before it, and its cases can be numbered by a
/// non-negative 32-bit integer.
pub open spec fn def_resolved(kind: TypeDefKind, id: nat, resources: nat) -> bool {
    &&& members_resolved(kind.spec_members(), id, resources)
    &&& kind.spec_case_count() <= MAX_CASES
}

/// Whether a function's parameters and result refer to definitions and
/// resources of the interface.
pub open spec fn function_resolved(f: Function, types: nat, resources: nat) -> bool {
    &&& forall|k: int| 0 <= k < f.params@.len() ==> type_resolved(#[trigger] f.params@[k].1, types, resources)
    &&& type_resolved(f.result, types, resources)
}

pub fn check_members_resolved(members: &Vec<Type>, bound: usize, resources: usize) -> (r: bool)
    ensures
        r == members_resolved(members@, bound as nat, resources as nat),
{
    let mut k: usize = 0;
    while k < members.len()
        invariant
            k <= members@.len(),
            forall|j: int| 0 <= j < k ==> type_resolved(#[trigger] members@[j], bound as nat, resources as nat),
        decreases members@.len() - k,
    {
        if !check_type_resolved(members[k], bound, resources) {
            return false;
        }
        k += 1;
    }
    true
}

impl Interface {
    /// The interface is resolved: the definitions stand in dependency order,
    /// so the graph of types has no cycle, and every reference and handle
    /// points to something declared.
    pub open spec fn wf(&self) -> bool {
        &&& forall|i: int| 0 <= i < self.types@.len() ==> def_resolved(
            #[trigger] self.types@[i].kind,
            i as nat,
            self.resources@.len(),
        )
        &&& forall|i: int| 0 <= i < self.functions@.len() ==> function_resolved(
            #[trigger] self.functions@[i],
            self.types@.len(),
            self.resources@.len(),
        )
    }

    /// Checks that the interface is resolved.
    pub fn validate(&self) -> (r: bool)
        ensures
            r == self.wf(),
    {
        let nres: usize = self.resources.len();
        let mut i: usize = 0;
        while i < self.types.len()
            invariant
                i <= self.types@.len(),
                nres == self.resources@.len(),
                forall|j: int| 0 <= j < i ==> def_resolved(
                    #[trigger] self.types@[j].kind,
                    j as nat,
                    self.resources@.len(),
                ),
            decreases self.types@.len() - i,
        {
            let members = self.types[i].kind.members();
            if !check_members_resolved(&members, i, nres) {
                return false;
            }
            if self.types[i].kind.case_count() > MAX_CASES {
                return false;
            }
            i += 1;
        }
        let ntypes: usize = self.types.len();
        let mut f: usize = 0;
        while f < self.functions.len()
            invariant
                f <= self.functions@.len(),
                nres == self.resources@.len(),
                ntypes == self.types@.len(),
                forall|j: int| 0 <= j < f ==> function_resolved(
                    #[trigger] self.functions@[j],
                    self.types@.len(),
                    self.resources@.len(),
                ),
            decreases self.functions@.len() - f,
        {
            let func = &self.functions[f];
            let mut k: usize = 0;
            while k < func.params.len()
                invariant
                    k <= func.params@.len(),
                    f < self.functions@.len(),
                    *func == self.functions@[f as int],
                    ntypes == self.types@.len(),
                    nres == self.resources@.len(),
                    forall|j: int| 0 <= j < k ==> type_resolved(
                        #[trigger] func.params@[j].1,
                        ntypes as nat,
                        nres as nat,
                    ),
                decreases func.params@.len() - k,
            {
                if !check_type_resolved(func.params[k].1, ntypes, nres) {
                    return false;
                }
                k += 1;
            }
            if !check_type_resolved(func.result, ntypes, nres) {
                return false;
            }
            f += 1;
        }
        true
    }
}

/// Whether every byte pattern of the size of `ty` is a value of `ty`, with
/// references followed only to definitions before `bound`.
pub open spec fn bits_valid(types: Seq<TypeDef>, ty: Type, bound: nat) -> bool
    decreases bound, 0nat,
{
    match ty {
        Type::Unit => true,
        Type::U8 => true,
        Type::S8 => true,
        Type::U16 => true,
        Type::S16 => true,
        Type::U32 => true,
        Type::S32 => true,
        Type::U64 => true,
        Type::S64 => true,
        Type::Float32 => true,
        Type::Float64 => true,
        Type::Bool => false,
        Type::Char => false,
        Type::Handle(_) => false,
        Type::String => false,
        Type::Id(id) => id < bound && id < types.len() && match types[id as int].kind {
            TypeDefKind::Type(t) => bits_valid(types, t, id as nat),
            TypeDefKind::Record(_) => all_bits_valid_to(
                types,
                types[id as int].kind.spec_members(),
                id as nat,
                types[id as int].kind.spec_members().len(),
            ),
            TypeDefKind::Tuple(_) => all_bits_valid_to(
                types,
                types[id as int].kind.spec_members(),
                id as nat,
                types[id as int].kind.spec_members().len(),
            ),
            _ => false,
        },
    }
}

/// Whether the first `n` of `members` are all valid in every bit pattern.
pub open spec fn all_bits_valid_to(types: Seq<TypeDef>, members: Seq<Type>, bound: nat, n: nat) -> bool
    decreases bound, n + 1,
{
    if n == 0 || n > members.len() {
        true
    } else {
        all_bits_valid_to(types, members, bound, (n - 1) as nat) && bits_valid(
            types,
            members[n - 1],
            bound,
        )
    }
}

impl Interface {
    pub open spec fn spec_all_bits_valid(&self, ty: Type) -> bool {
        bits_valid(self.types@, ty, self.types@.len())
    }

    /// Whether any byte pattern is a value of `ty`, so that a list of it can
    /// be copied out of memory without looking at the elements: true of the
    /// numeric primitives, of `unit`, and of records and tuples made of
    /// such.
    pub fn all_bits_valid(&self, ty: &Type) -> (r: bool)
        ensures
            r == self.spec_all_bits_valid(*ty),
    {
        self.bits_valid_below(*ty, self.types.len())
    }

    fn bits_valid_below(&self, ty: Type, bound: usize) -> (r: bool)
        ensures
            r == bits_valid(self.types@, ty, bound as nat),
        decreases bound,
    {
        match ty {
            Type::Unit
            | Type::U8
            | Type::S8
            | Type::U16
            | Type::S16
            | Type::U32
            | Type::S32
            | Type::U64
            | Type::S64
            | Type::Float32
            | Type::Float64 => true,
            Type::Bool | Type::Char | Type::Handle(_) | Type::String => false,
            Type::Id(id) => {
                if id >= bound || id >= self.types.len() {
                    return false;
                }
                match &self.types[id].kind {
                    TypeDefKind::Type(t) => self.bits_valid_below(*t, id),
                    TypeDefKind::Record(_) | TypeDefKind::Tuple(_) => {
                        let members = self.types[id].kind.members();
                        let mut k: usize = 0;
                        while k < members.len()
                            invariant
                                k <= members@.len(),
                                id < bound,
                                id < self.types@.len(),
                                ty == Type::Id(id),
                                members@ == self.types@[id as int].kind.spec_members(),
                                self.types@[id as int].kind is Record
                                    || self.types@[id as int].kind is Tuple,
                                all_bits_valid_to(self.types@, members@, id as nat, k as nat),
                            decreases members@.len() - k,
                        {
                            if !self.bits_valid_below(members[k], id) {
                                proof {
                                    assert(!bits_valid(self.types@, members@[k as int], id as nat));
                                    assert(!all_bits_valid_to(
                                        self.types@,
                                        members@,
                                        id as nat,
                                        (k + 1) as nat,
                                    ));
                                    if all_bits_valid_to(
                                        self.types@,
                                        members@,
                                        id as nat,
                                        members@.len(),
                                    ) {
                                        lemma_all_bits_valid_to_prefix(
                                            self.types@,
                                            members@,
                                            id as nat,
                                            (k + 1) as nat,
                                            members@.len(),
                                        );
                                    }
                                }
                                return false;
                            }
                            k += 1;
                        }
                        true
                    },
                    _ => false,
                }
            },
        }
    }
}

/// If the first `n` members are valid in every bit pattern, so are the first
/// `m` of them for any `m <= n`.
pub proof fn lemma_all_bits_valid_to_prefix(
    types: Seq<TypeDef>,
    members: Seq<Type>,
    bound: nat,
    m: nat,
    n: nat,
)
    requires
        m <= n <= members.len(),
        all_bits_valid_to(types, members, bound, n),
    ensures
        all_bits_valid_to(types, members, bound, m),
    decreases n,
{
    if m < n {
        lemma_all_bits_valid_to_prefix(types, members, bound, m, (n - 1) as nat);
    }
}

} // verus!
