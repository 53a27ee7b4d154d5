//! Size and alignment of every interface type in linear memory.

use crate::types::{spec_flags_repr, spec_tag, FlagsRepr, Int, Interface, Type, TypeDef, TypeDefKind, TypeId};
use vstd::arithmetic::power2::{lemma2_to64, pow2};
use vstd::prelude::*;

verus! {

/// The largest size a laid-out type may have: offsets into a value are
/// non-negative 32-bit integers.
pub const MAX_SIZE: usize = 0x7fff_ffff;

/// Why an interface has no layout.
#[derive(Clone, Copy, Debug, PartialEq, Eq, Structural)]
pub enum LayoutError {
    /// The definition at this position holds, by value, a type that is not
    /// defined before it: the definition is cyclic or refers to nothing.
    Unresolved(TypeId),
    /// The definition at this position is larger than [`MAX_SIZE`] bytes.
    TooLarge(TypeId),
}

pub open spec fn max(a: nat, b: nat) -> nat {
    if a >= b {
        a
    } else {
        b
    }
}

/// `val` moved forward to the next multiple of `align`.
pub open spec fn round_up(val: nat, align: nat) -> nat {
    if align == 0 || val % align == 0 {
        val
    } else {
        (val + align - val % align) as nat
    }
}

/// Whether `n` is a power of two.
pub open spec fn is_power_of_two(n: nat) -> bool {
    exists|k: nat| n == pow2(k)
}

/// The alignments that occur: those of the core scalar types.
pub open spec fn is_scalar_align(n: nat) -> bool {
    n == 1 || n == 2 || n == 4 || n == 8
}

pub proof fn lemma_scalar_align_is_power_of_two(n: nat)
    requires
        is_scalar_align(n),
    ensures
        is_power_of_two(n),
{
    lemma2_to64();
    if n == 1 {
        assert(n == pow2(0));
    } else if n == 2 {
        assert(n == pow2(1));
    } else if n == 4 {
        assert(n == pow2(2));
    } else {
        assert(n == pow2(3));
    }
}

pub proof fn lemma_round_up(val: nat, align: nat)
    requires
        is_scalar_align(align),
    ensures
        round_up(val, align) % align == 0,
        val <= round_up(val, align) < val + align,
{
}

/// Moves `val` forward to the next multiple of `align`.
pub fn align_to(val: usize, align: usize) -> (r: usize)
    requires
        align > 0,
        val + align <= usize::MAX,
    ensures
        r == round_up(val as nat, align as nat),
{
    let rem = val % align;
    if rem == 0 {
        val
    } else {
        val + (align - rem)
    }
}

fn align_to_u64(val: u64, align: u64) -> (r: u64)
    requires
        align > 0,
        val + align <= u64::MAX,
    ensures
        r == round_up(val as nat, align as nat),
{
    let rem = val % align;
    if rem == 0 {
        val
    } else {
        val + (align - rem)
    }
}

pub open spec fn spec_int_size_align(i: Int) -> (nat, nat) {
    match i {
        Int::U8 => (1, 1),
        Int::U16 => (2, 2),
        Int::U32 => (4, 4),
        Int::U64 => (8, 8),
    }
}

/// Size and alignment of an integer of the given width.
pub fn int_size_align(i: Int) -> (r: (usize, usize))
    ensures
        (r.0 as nat, r.1 as nat) == spec_int_size_align(i),
{
    match i {
        Int::U8 => (1, 1),
        Int::U16 => (2, 2),
        Int::U32 => (4, 4),
        Int::U64 => (8, 8),
    }
}

/// Size and alignment of a type that is no reference to a definition.
pub open spec fn primitive_layout(ty: Type) -> (nat, nat) {
    match ty {
        Type::Unit => (0, 1),
        Type::Bool => (1, 1),
        Type::U8 => (1, 1),
        Type::S8 => (1, 1),
        Type::U16 => (2, 2),
        Type::S16 => (2, 2),
        Type::U32 => (4, 4),
        Type::S32 => (4, 4),
        Type::Float32 => (4, 4),
        Type::Char => (4, 4),
        Type::Handle(_) => (4, 4),
        Type::U64 => (8, 8),
        Type::S64 => (8, 8),
        Type::Float64 => (8, 8),
        Type::String => (8, 4),
        Type::Id(_) => (0, 1),
    }
}

/// Size and alignment of `ty` where references are followed to definitions
/// before `bound` only; a reference to anything else counts as empty.
pub open spec fn type_layout(types: Seq<TypeDef>, ty: Type, bound: nat) -> (nat, nat)
    decreases bound, 0nat, 0nat,
{
    match ty {
        Type::Id(id) => if id < bound && id < types.len() {
            def_layout(types, id as nat)
        } else {
            (0, 1)
        },
        _ => primitive_layout(ty),
    }
}

/// Where the first `n` of `members` end when laid out one after another,
/// each moved forward to its own alignment, and the largest alignment among
/// them.
pub open spec fn record_layout(types: Seq<TypeDef>, members: Seq<Type>, bound: nat, n: nat) -> (
    nat,
    nat,
)
    decreases bound, 1nat, n,
{
    if n == 0 || n > members.len() {
        (0, 1)
    } else {
        let before = record_layout(types, members, bound, (n - 1) as nat);
        let field = type_layout(types, members[n - 1], bound);
        (round_up(before.0, field.1) + field.0, max(before.1, field.1))
    }
}

/// The largest size and the largest alignment among the first `n` of
/// `members`.
pub open spec fn payload_layout(types: Seq<TypeDef>, members: Seq<Type>, bound: nat, n: nat) -> (
    nat,
    nat,
)
    decreases bound, 1nat, n,
{
    if n == 0 || n > members.len() {
        (0, 1)
    } else {
        let before = payload_layout(types, members, bound, (n - 1) as nat);
        let case = type_layout(types, members[n - 1], bound);
        (max(before.0, case.0), max(before.1, case.1))
    }
}

/// Size and alignment of a discriminant of width `tag` followed by payload
/// space of the given size and alignment.
pub open spec fn variant_layout(tag: Int, payload: (nat, nat)) -> (nat, nat) {
    let discriminant = spec_int_size_align(tag);
    let align = max(discriminant.1, payload.1);
    (round_up(round_up(discriminant.0, payload.1) + payload.0, align), align)
}

pub open spec fn flags_layout(n: nat) -> (nat, nat) {
    match spec_flags_repr(n) {
        FlagsRepr::U8 => (1, 1),
        FlagsRepr::U16 => (2, 2),
        FlagsRepr::U32(words) => (words as nat * 4, 4),
    }
}

/// Size and alignment of the definition at position `id`.
pub open spec fn def_layout(types: Seq<TypeDef>, id: nat) -> (nat, nat)
    decreases id, 2nat, 0nat,
{
    if id >= types.len() {
        (0, 1)
    } else {
        let kind = types[id as int].kind;
        let members = kind.spec_members();
        match kind {
            TypeDefKind::Type(t) => type_layout(types, t, id),
            TypeDefKind::List(_) => (8, 4),
            TypeDefKind::Record(_) => {
                let end = record_layout(types, members, id, members.len());
                (round_up(end.0, end.1), end.1)
            },
            TypeDefKind::Tuple(_) => {
                let end = record_layout(types, members, id, members.len());
                (round_up(end.0, end.1), end.1)
            },
            TypeDefKind::Flags(f) => flags_layout(f.flags@.len()),
            _ => variant_layout(
                spec_tag(kind.spec_case_count()),
                payload_layout(types, members, id, members.len()),
            ),
        }
    }
}

/// Whether everything the definition at `id` holds by value is defined
/// before it. The element of a list is held through a pointer and so may be
/// anything.
pub open spec fn layout_resolved(types: Seq<TypeDef>, id: nat) -> bool {
    let kind = types[id as int].kind;
    kind is List || forall|k: int|
        0 <= k < kind.spec_members().len() ==> match #[trigger] kind.spec_members()[k] {
            Type::Id(j) => j < id,
            _ => true,
        }
}

/// The reason why the definition at `id` has no layout, if there is one.
pub open spec fn layout_error(types: Seq<TypeDef>, id: nat) -> Option<LayoutError> {
    if !layout_resolved(types, id) {
        Some(LayoutError::Unresolved(id as usize))
    } else if def_layout(types, id).0 > MAX_SIZE {
        Some(LayoutError::TooLarge(id as usize))
    } else {
        None
    }
}

/// The error of the first definition, among those before `n`, that has
/// none.
pub open spec fn first_layout_error(types: Seq<TypeDef>, n: nat) -> Option<LayoutError>
    decreases n,
{
    if n == 0 {
        None
    } else {
        match first_layout_error(types, (n - 1) as nat) {
            Some(e) => Some(e),
            None => layout_error(types, (n - 1) as nat),
        }
    }
}

/// The layout of every definition of an interface, by position.
pub open spec fn layout_table(types: Seq<TypeDef>) -> Seq<(usize, usize)> {
    Seq::new(
        types.len(),
        |i: int| (def_layout(types, i as nat).0 as usize, def_layout(types, i as nat).1 as usize),
    )
}

pub proof fn lemma_type_layout_aligned(types: Seq<TypeDef>, ty: Type, bound: nat)
    ensures
        is_scalar_align(type_layout(types, ty, bound).1),
        type_layout(types, ty, bound).0 % type_layout(types, ty, bound).1 == 0,
    decreases bound, 0nat, 0nat,
{
    match ty {
        Type::Id(j) => {
            if j < bound && j < types.len() {
                lemma_def_layout_aligned(types, j as nat);
                assert(type_layout(types, ty, bound) == def_layout(types, j as nat));
            } else {
                assert(type_layout(types, ty, bound) == (0nat, 1nat));
            }
        },
        _ => {
            assert(type_layout(types, ty, bound) == primitive_layout(ty));
        },
    }
}

proof fn lemma_record_layout_aligned(types: Seq<TypeDef>, members: Seq<Type>, bound: nat, n: nat)
    ensures
        is_scalar_align(record_layout(types, members, bound, n).1),
    decreases bound, 1nat, n,
{
    if n == 0 || n > members.len() {
    } else {
        lemma_record_layout_aligned(types, members, bound, (n - 1) as nat);
        lemma_type_layout_aligned(types, members[n - 1], bound);
    }
}

proof fn lemma_payload_layout_aligned(types: Seq<TypeDef>, members: Seq<Type>, bound: nat, n: nat)
    ensures
        is_scalar_align(payload_layout(types, members, bound, n).1),
    decreases bound, 1nat, n,
{
    if n == 0 || n > members.len() {
    } else {
        lemma_payload_layout_aligned(types, members, bound, (n - 1) as nat);
        lemma_type_layout_aligned(types, members[n - 1], bound);
    }
}

pub proof fn lemma_def_layout_aligned(types: Seq<TypeDef>, id: nat)
    ensures
        is_scalar_align(def_layout(types, id).1),
        def_layout(types, id).0 % def_layout(types, id).1 == 0,
    decreases id, 2nat, 0nat,
{
    if id < types.len() {
        let kind = types[id as int].kind;
        let members = kind.spec_members();
        match kind {
            TypeDefKind::Type(t) => {
                lemma_type_layout_aligned(types, t, id);
            },
            TypeDefKind::List(_) => {},
            TypeDefKind::Record(_) => {
                lemma_record_layout_aligned(types, members, id, members.len());
                let end = record_layout(types, members, id, members.len());
                lemma_round_up(end.0, end.1);
            },
            TypeDefKind::Tuple(_) => {
                lemma_record_layout_aligned(types, members, id, members.len());
                let end = record_layout(types, members, id, members.len());
                lemma_round_up(end.0, end.1);
            },
            TypeDefKind::Flags(f) => {},
            _ => {
                lemma_payload_layout_aligned(types, members, id, members.len());
                let payload = payload_layout(types, members, id, members.len());
                let discriminant = spec_int_size_align(spec_tag(kind.spec_case_count()));
                let align = max(discriminant.1, payload.1);
                lemma_round_up(round_up(discriminant.0, payload.1) + payload.0, align);
            },
        }
    }
}


/// Laying out more members never moves the end backwards.
pub proof fn lemma_record_layout_monotone(
    types: Seq<TypeDef>,
    members: Seq<Type>,
    bound: nat,
    m: nat,
    n: nat,
)
    requires
        m <= n <= members.len(),
    ensures
        record_layout(types, members, bound, m).0 <= record_layout(types, members, bound, n).0,
    decreases n,
{
    if m < n {
        lemma_record_layout_monotone(types, members, bound, m, (n - 1) as nat);
        lemma_type_layout_aligned(types, members[n - 1], bound);
        let before = record_layout(types, members, bound, (n - 1) as nat);
        let field = type_layout(types, members[n - 1], bound);
        lemma_round_up(before.0, field.1);
    }
}

/// Without an error before `n`, no definition before `n` has one.
pub proof fn lemma_no_layout_error(types: Seq<TypeDef>, n: nat, id: nat)
    requires
        first_layout_error(types, n) is None,
        id < n,
    ensures
        layout_error(types, id) is None,
    decreases n,
{
    if id < n - 1 {
        lemma_no_layout_error(types, (n - 1) as nat, id);
    }
}

/// Whether every member that refers to a definition refers to one before
/// `bound`.
pub open spec fn members_before(members: Seq<Type>, bound: nat) -> bool {
    forall|k: int|
        0 <= k < members.len() ==> match #[trigger] members[k] {
            Type::Id(j) => j < bound,
            _ => true,
        }
}

/// Size and alignment of a record made of `members`, if it is no larger
/// than [`MAX_SIZE`].
pub open spec fn spec_record(types: Seq<TypeDef>, members: Seq<Type>) -> Option<(usize, usize)> {
    let end = record_layout(types, members, types.len(), members.len());
    if round_up(end.0, end.1) <= MAX_SIZE {
        Some((round_up(end.0, end.1) as usize, end.1 as usize))
    } else {
        None
    }
}

/// The size of a record made of `members`, if it is no larger than
/// [`MAX_SIZE`], and nothing else.
pub open spec fn spec_record_size(types: Seq<TypeDef>, members: Seq<Type>) -> nat {
    match spec_record(types, members) {
        Some(pair) => pair.0 as nat,
        None => 0,
    }
}

/// Where member `k` of a record made of `members` starts: the end of the
/// members before it, moved forward to its own alignment.
pub open spec fn field_offset(types: Seq<TypeDef>, members: Seq<Type>, k: nat) -> nat {
    round_up(
        record_layout(types, members, types.len(), k).0,
        type_layout(types, members[k as int], types.len()).1,
    )
}

/// Where the payload of a variant starts: the size of its discriminant,
/// moved forward to the largest alignment among the cases.
pub open spec fn spec_payload_offset(types: Seq<TypeDef>, tag: Int, members: Seq<Type>) -> nat {
    round_up(
        spec_int_size_align(tag).0,
        payload_layout(types, members, types.len(), members.len()).1,
    )
}

/// Every type's size is a multiple of its alignment, and its alignment is a
/// power of two.
pub proof fn lemma_size_is_multiple_of_align(iface: Interface, ty: Type)
    ensures
        type_layout(iface.types@, ty, iface.types@.len()).0 % type_layout(
            iface.types@,
            ty,
            iface.types@.len(),
        ).1 == 0,
        is_power_of_two(type_layout(iface.types@, ty, iface.types@.len()).1),
{
    lemma_type_layout_aligned(iface.types@, ty, iface.types@.len());
    lemma_scalar_align_is_power_of_two(type_layout(iface.types@, ty, iface.types@.len()).1);
}

/// Computing the layout of one interface again gives the same sizes and
/// alignments: two tables filled for the same definitions agree on every
/// type.
pub proof fn lemma_layout_deterministic(a: SizeAlign, b: SizeAlign, iface: Interface, ty: Type)
    requires
        a.filled_for(iface.types@),
        b.filled_for(iface.types@),
    ensures
        a@ =~= b@,
        a.spec_size(ty) == b.spec_size(ty),
        a.spec_align(ty) == b.spec_align(ty),
{
    a.lemma_filled(iface.types@, ty);
    b.lemma_filled(iface.types@, ty);
}

/// The memo of the layout calculation: size and alignment of every
/// definition of one interface, by position.
#[derive(Clone, Debug)]
pub struct SizeAlign {
    pub map: Vec<(usize, usize)>,
}

impl View for SizeAlign {
    type V = Seq<(usize, usize)>;

    open spec fn view(&self) -> Seq<(usize, usize)> {
        self.map@
    }
}

impl Default for SizeAlign {
    fn default() -> (r: SizeAlign)
        ensures
            r@.len() == 0,
    {
        SizeAlign { map: Vec::new() }
    }
}

impl SizeAlign {
    /// Size and alignment of `ty` as the table has them; a reference that
    /// the table does not hold counts as empty.
    pub open spec fn spec_layout(&self, ty: Type) -> (nat, nat) {
        match ty {
            Type::Id(id) => if id < self@.len() {
                (self@[id as int].0 as nat, self@[id as int].1 as nat)
            } else {
                (0, 1)
            },
            _ => primitive_layout(ty),
        }
    }

    pub open spec fn spec_size(&self, ty: Type) -> nat {
        self.spec_layout(ty).0
    }

    pub open spec fn spec_align(&self, ty: Type) -> nat {
        self.spec_layout(ty).1
    }

    /// The table holds the layout of the first `bound` definitions of
    /// `types`, none of which is larger than [`MAX_SIZE`].
    pub open spec fn filled_below(&self, types: Seq<TypeDef>, bound: nat) -> bool {
        &&& self@.len() == bound
        &&& bound <= types.len()
        &&& forall|k: int|
            0 <= k < bound ==> {
                &&& (#[trigger] self@[k]).0 == def_layout(types, k as nat).0
                &&& self@[k].1 == def_layout(types, k as nat).1
                &&& def_layout(types, k as nat).0 <= MAX_SIZE
            }
    }

    /// The table holds the layout of all of `types`, and `types` has one.
    pub open spec fn filled_for(&self, types: Seq<TypeDef>) -> bool {
        &&& first_layout_error(types, types.len()) is None
        &&& self.filled_below(types, types.len())
    }

    pub fn new() -> (r: SizeAlign)
        ensures
            r@.len() == 0,
    {
        SizeAlign { map: Vec::new() }
    }

    /// The size of `ty` in bytes.
    pub fn size(&self, ty: &Type) -> (r: usize)
        ensures
            r == self.spec_size(*ty),
    {
        match ty {
            Type::Unit => 0,
            Type::Bool | Type::U8 | Type::S8 => 1,
            Type::U16 | Type::S16 => 2,
            Type::U32 | Type::S32 | Type::Float32 | Type::Char | Type::Handle(_) => 4,
            Type::U64 | Type::S64 | Type::Float64 | Type::String => 8,
            Type::Id(id) => if *id < self.map.len() {
                self.map[*id].0
            } else {
                0
            },
        }
    }

    /// The alignment of `ty` in bytes.
    pub fn align(&self, ty: &Type) -> (r: usize)
        ensures
            r == self.spec_align(*ty),
    {
        match ty {
            Type::Unit | Type::Bool | Type::U8 | Type::S8 => 1,
            Type::U16 | Type::S16 => 2,
            Type::U32
            | Type::S32
            | Type::Float32
            | Type::Char
            | Type::Handle(_)
            | Type::String => 4,
            Type::U64 | Type::S64 | Type::Float64 => 8,
            Type::Id(id) => if *id < self.map.len() {
                self.map[*id].1
            } else {
                1
            },
        }
    }

    /// What the table says of a type is what the interface's definitions
    /// say, once the table is filled for them.
    pub proof fn lemma_filled(&self, types: Seq<TypeDef>, ty: Type)
        requires
            self.filled_for(types),
        ensures
            self.spec_layout(ty) == type_layout(types, ty, types.len()),
            self.spec_size(ty) <= MAX_SIZE,
            is_scalar_align(self.spec_align(ty)),
            self.spec_size(ty) % self.spec_align(ty) == 0,
    {
        lemma_type_layout_aligned(types, ty, types.len());
    }

    fn lookup(&self, ty: Type, Ghost(types): Ghost<Seq<TypeDef>>, Ghost(bound): Ghost<nat>) -> (r: (
        u64,
        u64,
    ))
        requires
            self.filled_below(types, bound),
            bound == types.len() || (ty matches Type::Id(j) ==> j < bound),
        ensures
            (r.0 as nat, r.1 as nat) == type_layout(types, ty, bound),
            r.0 <= MAX_SIZE,
            is_scalar_align(r.1 as nat),
    {
        proof {
            lemma_type_layout_aligned(types, ty, bound);
        }
        (self.size(&ty) as u64, self.align(&ty) as u64)
    }

    fn record_end(
        &self,
        members: &Vec<Type>,
        Ghost(types): Ghost<Seq<TypeDef>>,
        Ghost(bound): Ghost<nat>,
    ) -> (r: Option<(u64, u64)>)
        requires
            self.filled_below(types, bound),
            bound == types.len() || members_before(members@, bound),
        ensures
            match r {
                Some(end) => {
                    &&& (end.0 as nat, end.1 as nat) == record_layout(
                        types,
                        members@,
                        bound,
                        members@.len(),
                    )
                    &&& round_up(end.0 as nat, end.1 as nat) <= MAX_SIZE
                    &&& is_scalar_align(end.1 as nat)
                },
                None => round_up(
                    record_layout(types, members@, bound, members@.len()).0,
                    record_layout(types, members@, bound, members@.len()).1,
                ) > MAX_SIZE,
            },
    {
        let mut size: u64 = 0;
        let mut align: u64 = 1;
        let mut k: usize = 0;
        while k < members.len()
            invariant
                k <= members@.len(),
                self.filled_below(types, bound),
                bound == types.len() || members_before(members@, bound),
                (size as nat, align as nat) == record_layout(types, members@, bound, k as nat),
                size <= MAX_SIZE,
                is_scalar_align(align as nat),
            decreases members@.len() - k,
        {
            let field = self.lookup(members[k], Ghost(types), Ghost(bound));
            proof {
                lemma_round_up(size as nat, field.1 as nat);
            }
            size = align_to_u64(size, field.1) + field.0;
            if field.1 > align {
                align = field.1;
            }
            k += 1;
            if size > MAX_SIZE as u64 {
                proof {
                    lemma_record_layout_monotone(types, members@, bound, k as nat, members@.len());
                    lemma_record_layout_aligned(types, members@, bound, members@.len());
                    let end = record_layout(types, members@, bound, members@.len());
                    lemma_round_up(end.0, end.1);
                }
                return None;
            }
        }
        proof {
            lemma_round_up(size as nat, align as nat);
        }
        if align_to_u64(size, align) > MAX_SIZE as u64 {
            None
        } else {
            Some((size, align))
        }
    }

    fn payload_max(
        &self,
        members: &Vec<Type>,
        Ghost(types): Ghost<Seq<TypeDef>>,
        Ghost(bound): Ghost<nat>,
    ) -> (r: (u64, u64))
        requires
            self.filled_below(types, bound),
            bound == types.len() || members_before(members@, bound),
        ensures
            (r.0 as nat, r.1 as nat) == payload_layout(types, members@, bound, members@.len()),
            r.0 <= MAX_SIZE,
            is_scalar_align(r.1 as nat),
    {
        let mut size: u64 = 0;
        let mut align: u64 = 1;
        let mut k: usize = 0;
        while k < members.len()
            invariant
                k <= members@.len(),
                self.filled_below(types, bound),
                bound == types.len() || members_before(members@, bound),
                (size as nat, align as nat) == payload_layout(types, members@, bound, k as nat),
                size <= MAX_SIZE,
                is_scalar_align(align as nat),
            decreases members@.len() - k,
        {
            let case = self.lookup(members[k], Ghost(types), Ghost(bound));
            if case.0 > size {
                size = case.0;
            }
            if case.1 > align {
                align = case.1;
            }
            k += 1;
        }
        (size, align)
    }

    /// Size and alignment of a record with the given fields, or nothing if
    /// it would be larger than [`MAX_SIZE`].
    pub fn record(&self, iface: &Interface, members: &Vec<Type>) -> (r: Option<(usize, usize)>)
        requires
            self.filled_for(iface.types@),
        ensures
            r == spec_record(iface.types@, members@),
    {
        match self.record_end(members, Ghost(iface.types@), Ghost(iface.types@.len())) {
            Some(end) => {
                proof {
                    lemma_round_up(end.0 as nat, end.1 as nat);
                }
                Some((align_to_u64(end.0, end.1) as usize, end.1 as usize))
            },
            None => None,
        }
    }

    /// The offset of each of the given fields from the start of a record
    /// made of them, or nothing if the record would be larger than
    /// [`MAX_SIZE`].
    pub fn field_offsets(&self, iface: &Interface, members: &Vec<Type>) -> (r: Option<Vec<usize>>)
        requires
            self.filled_for(iface.types@),
        ensures
            r is Some <==> spec_record(iface.types@, members@) is Some,
            r matches Some(offsets) ==> {
                &&& offsets@.len() == members@.len()
                &&& forall|k: int|
                    0 <= k < members@.len() ==> #[trigger] offsets@[k] == field_offset(
                        iface.types@,
                        members@,
                        k as nat,
                    )
                &&& forall|k: int|
                    0 <= k < members@.len() ==> #[trigger] offsets@[k] + type_layout(
                        iface.types@,
                        members@[k],
                        iface.types@.len(),
                    ).0 <= MAX_SIZE
            },
    {
        let ghost types = iface.types@;
        let ghost bound = iface.types@.len();
        if self.record_end(members, Ghost(types), Ghost(bound)).is_none() {
            return None;
        }
        let mut offsets: Vec<usize> = Vec::new();
        let mut size: u64 = 0;
        let mut k: usize = 0;
        while k < members.len()
            invariant
                k <= members@.len(),
                bound == types.len(),
                types == iface.types@,
                self.filled_below(types, bound),
                size as nat == record_layout(types, members@, bound, k as nat).0,
                round_up(
                    record_layout(types, members@, bound, members@.len()).0,
                    record_layout(types, members@, bound, members@.len()).1,
                ) <= MAX_SIZE,
                offsets@.len() == k,
                forall|j: int|
                    0 <= j < k ==> #[trigger] offsets@[j] == field_offset(types, members@, j as nat),
                forall|j: int|
                    0 <= j < k ==> #[trigger] offsets@[j] + type_layout(types, members@[j], bound).0
                        <= MAX_SIZE,
            decreases members@.len() - k,
        {
            let field = self.lookup(members[k], Ghost(types), Ghost(bound));
            proof {
                lemma_round_up(size as nat, field.1 as nat);
                lemma_record_layout_monotone(types, members@, bound, k as nat, members@.len());
                lemma_record_layout_monotone(
                    types,
                    members@,
                    bound,
                    (k + 1) as nat,
                    members@.len(),
                );
                lemma_record_layout_aligned(types, members@, bound, members@.len());
                let end = record_layout(types, members@, bound, members@.len());
                lemma_round_up(end.0, end.1);
            }
            let at = align_to_u64(size, field.1);
            offsets.push(at as usize);
            size = at + field.0;
            k += 1;
        }
        Some(offsets)
    }

    /// The offset of the payload of a variant whose discriminant has width
    /// `tag` and whose cases hold the given types.
    pub fn payload_offset(&self, iface: &Interface, tag: Int, members: &Vec<Type>) -> (r: usize)
        requires
            self.filled_for(iface.types@),
        ensures
            r == spec_payload_offset(iface.types@, tag, members@),
            r <= 8,
    {
        let payload = self.payload_max(members, Ghost(iface.types@), Ghost(iface.types@.len()));
        let discriminant = int_size_align(tag);
        proof {
            lemma_round_up(discriminant.0 as nat, payload.1 as nat);
        }
        align_to_u64(discriminant.0 as u64, payload.1) as usize
    }

    /// Size and alignment of the definition at `id`, computed from the
    /// entries before it.
    fn calculate(&self, iface: &Interface, id: usize) -> (r: Result<(usize, usize), LayoutError>)
        requires
            id < iface.types@.len(),
            self.filled_below(iface.types@, id as nat),
        ensures
            match r {
                Ok(pair) => {
                    &&& layout_error(iface.types@, id as nat) is None
                    &&& pair.0 == def_layout(iface.types@, id as nat).0
                    &&& pair.1 == def_layout(iface.types@, id as nat).1
                },
                Err(e) => layout_error(iface.types@, id as nat) == Some(e),
            },
    {
        let kind = &iface.types[id].kind;
        let members = kind.members();
        let ghost types = iface.types@;
        let ghost bound = id as nat;
        let is_list = match kind {
            TypeDefKind::List(_) => true,
            _ => false,
        };
        if is_list {
            return Ok((8, 4));
        }
        let mut k: usize = 0;
        while k < members.len()
            invariant
                k <= members@.len(),
                id < iface.types@.len(),
                *kind == iface.types@[id as int].kind,
                !(kind is List),
                members@ == kind.spec_members(),
                forall|j: int|
                    0 <= j < k ==> match #[trigger] members@[j] {
                        Type::Id(t) => t < id,
                        _ => true,
                    },
            decreases members@.len() - k,
        {
            let before = match members[k] {
                Type::Id(t) => t < id,
                _ => true,
            };
            if !before {
                assert(!layout_resolved(iface.types@, id as nat)) by {
                    let m = kind.spec_members()[k as int];
                    assert(m matches Type::Id(t) && t >= id);
                }
                return Err(LayoutError::Unresolved(id));
            }
            k += 1;
        }
        assert(members_before(members@, bound));
        let pair: (u64, u64) = match kind {
            TypeDefKind::Type(t) => {
                assert(members@[0] == *t);
                self.lookup(*t, Ghost(types), Ghost(bound))
            },
            TypeDefKind::List(_) => (8, 4),
            TypeDefKind::Record(_) | TypeDefKind::Tuple(_) => {
                match self.record_end(&members, Ghost(types), Ghost(bound)) {
                    Some(end) => {
                        proof {
                            lemma_round_up(end.0 as nat, end.1 as nat);
                        }
                        (align_to_u64(end.0, end.1), end.1)
                    },
                    None => {
                        return Err(LayoutError::TooLarge(id));
                    },
                }
            },
            TypeDefKind::Flags(f) => match f.repr() {
                FlagsRepr::U8 => (1, 1),
                FlagsRepr::U16 => (2, 2),
                FlagsRepr::U32(n) => {
                    if n > MAX_SIZE / 4 {
                        return Err(LayoutError::TooLarge(id));
                    }
                    ((n as u64) * 4, 4)
                },
            },
            _ => {
                let payload = self.payload_max(&members, Ghost(types), Ghost(bound));
                let discriminant = int_size_align(kind.tag());
                let align = if discriminant.1 as u64 > payload.1 {
                    discriminant.1 as u64
                } else {
                    payload.1
                };
                proof {
                    lemma_round_up(discriminant.0 as nat, payload.1 as nat);
                    lemma_round_up(
                        round_up(discriminant.0 as nat, payload.1 as nat) + payload.0 as nat,
                        align as nat,
                    );
                }
                let start = align_to_u64(discriminant.0 as u64, payload.1);
                (align_to_u64(start + payload.0, align), align)
            },
        };
        if pair.0 > MAX_SIZE as u64 {
            Err(LayoutError::TooLarge(id))
        } else {
            Ok((pair.0 as usize, pair.1 as usize))
        }
    }

    /// Computes the layout of every definition of `iface`, in order, each
    /// from those before it. On an error the table is left empty.
    pub fn fill(&mut self, iface: &Interface) -> (r: Result<(), LayoutError>)
        ensures
            match r {
                Ok(()) => final(self).filled_for(iface.types@),
                Err(e) => {
                    &&& first_layout_error(iface.types@, iface.types@.len()) == Some(e)
                    &&& final(self)@.len() == 0
                },
            },
    {
        self.map = Vec::new();
        let mut i: usize = 0;
        while i < iface.types.len()
            invariant
                i <= iface.types@.len(),
                self.filled_below(iface.types@, i as nat),
                first_layout_error(iface.types@, i as nat) is None,
            decreases iface.types@.len() - i,
        {
            match self.calculate(iface, i) {
                Ok(pair) => {
                    let ghost before = self@;
                    self.map.push(pair);
                    assert(self.filled_below(iface.types@, (i + 1) as nat)) by {
                        assert forall|k: int| 0 <= k < i + 1 implies {
                            &&& (#[trigger] self@[k]).0 == def_layout(iface.types@, k as nat).0
                            &&& self@[k].1 == def_layout(iface.types@, k as nat).1
                            &&& def_layout(iface.types@, k as nat).0 <= MAX_SIZE
                        } by {
                            if k < i {
                                assert(self@[k] == before[k]);
                            }
                        }
                    }
                },
                Err(e) => {
                    self.map = Vec::new();
                    proof {
                        lemma_first_layout_error_stays(
                            iface.types@,
                            (i + 1) as nat,
                            iface.types@.len(),
                        );
                    }
                    return Err(e);
                },
            }
            i += 1;
        }
        Ok(())
    }
}

/// Once there is an error before `m`, it is the first error before any
/// `n >= m` too.
proof fn lemma_first_layout_error_stays(types: Seq<TypeDef>, m: nat, n: nat)
    requires
        m <= n,
        first_layout_error(types, m) is Some,
    ensures
        first_layout_error(types, n) == first_layout_error(types, m),
    decreases n,
{
    if m < n {
        lemma_first_layout_error_stays(types, m, (n - 1) as nat);
    }
}

/// The layout of the members of a definition does not depend on how far
/// references are followed, once they are followed to all the members
/// refer to.
pub proof fn lemma_record_layout_bound(
    types: Seq<TypeDef>,
    members: Seq<Type>,
    low: nat,
    high: nat,
    n: nat,
)
    requires
        members_before(members, low),
        low <= high,
    ensures
        record_layout(types, members, low, n) == record_layout(types, members, high, n),
    decreases n,
{
    if n == 0 || n > members.len() {
    } else {
        lemma_record_layout_bound(types, members, low, high, (n - 1) as nat);
        let m = members[n - 1];
        assert(type_layout(types, m, low) == type_layout(types, m, high));
    }
}

/// A record or tuple of an interface that has a layout is no larger than
/// [`MAX_SIZE`], and its layout is that of a record made of its members.
pub proof fn lemma_def_record_fits(types: Seq<TypeDef>, id: nat)
    requires
        first_layout_error(types, types.len()) is None,
        id < types.len(),
        types[id as int].kind is Record || types[id as int].kind is Tuple,
    ensures
        spec_record(types, types[id as int].kind.spec_members()) == Some(
            (def_layout(types, id).0 as usize, def_layout(types, id).1 as usize),
        ),
        def_layout(types, id).0 <= MAX_SIZE,
{
    lemma_no_layout_error(types, types.len(), id);
    let members = types[id as int].kind.spec_members();
    assert(members_before(members, id));
    lemma_record_layout_bound(types, members, id, types.len(), members.len());
}

/// A field of a record ends inside the record.
pub proof fn lemma_field_within(types: Seq<TypeDef>, members: Seq<Type>, k: nat)
    requires
        k < members.len(),
    ensures
        field_offset(types, members, k) + type_layout(types, members[k as int], types.len()).0
            <= round_up(
            record_layout(types, members, types.len(), members.len()).0,
            record_layout(types, members, types.len(), members.len()).1,
        ),
{
    lemma_record_layout_monotone(types, members, types.len(), k + 1, members.len());
    lemma_record_layout_aligned(types, members, types.len(), members.len());
    let end = record_layout(types, members, types.len(), members.len());
    lemma_round_up(end.0, end.1);
}

/// The payloads of a definition do not depend on how far references are
/// followed, once they are followed to all the members refer to.
pub proof fn lemma_payload_layout_bound(
    types: Seq<TypeDef>,
    members: Seq<Type>,
    low: nat,
    high: nat,
    n: nat,
)
    requires
        members_before(members, low),
        low <= high,
    ensures
        payload_layout(types, members, low, n) == payload_layout(types, members, high, n),
    decreases n,
{
    if n == 0 || n > members.len() {
    } else {
        lemma_payload_layout_bound(types, members, low, high, (n - 1) as nat);
        let m = members[n - 1];
        assert(type_layout(types, m, low) == type_layout(types, m, high));
    }
}

/// The space for the payloads is as large as each payload.
pub proof fn lemma_payload_layout_covers(
    types: Seq<TypeDef>,
    members: Seq<Type>,
    bound: nat,
    n: nat,
    k: nat,
)
    requires
        k < n <= members.len(),
    ensures
        type_layout(types, members[k as int], bound).0 <= payload_layout(types, members, bound, n).0,
    decreases n,
{
    if k < n - 1 {
        lemma_payload_layout_covers(types, members, bound, (n - 1) as nat, k);
    }
}

/// A payload of a variant ends inside the variant.
pub proof fn lemma_payload_within(types: Seq<TypeDef>, id: nat, k: nat)
    requires
        first_layout_error(types, types.len()) is None,
        id < types.len(),
        types[id as int].kind.spec_has_payloads(),
        k < types[id as int].kind.spec_members().len(),
    ensures
        spec_payload_offset(
            types,
            spec_tag(types[id as int].kind.spec_members().len()),
            types[id as int].kind.spec_members(),
        ) + type_layout(types, types[id as int].kind.spec_members()[k as int], types.len()).0
            <= def_layout(types, id).0,
        def_layout(types, id).0 <= MAX_SIZE,
{
    lemma_no_layout_error(types, types.len(), id);
    let kind = types[id as int].kind;
    let members = kind.spec_members();
    assert(members_before(members, id));
    assert(kind.spec_case_count() == members.len());
    lemma_payload_layout_bound(types, members, id, types.len(), members.len());
    lemma_payload_layout_covers(types, members, types.len(), members.len(), k);
    lemma_payload_layout_aligned(types, members, types.len(), members.len());
    let payload = payload_layout(types, members, types.len(), members.len());
    let discriminant = spec_int_size_align(spec_tag(members.len()));
    let align = max(discriminant.1, payload.1);
    lemma_round_up(discriminant.0, payload.1);
    lemma_round_up(round_up(discriminant.0, payload.1) + payload.0, align);
}

} // verus!
