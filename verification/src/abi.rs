//! Flattening: which core wasm values carry a value of an interface type
//! across a call, and the core signature of a function.

use crate::types::{
    spec_flags_repr, spec_repr_count, spec_tag, Function, Int, Interface, Type, TypeDef,
    TypeDefKind,
};
use vstd::prelude::*;

verus! {

/// The kinds of core wasm value.
#[derive(Clone, Copy, Debug, PartialEq, Eq, Hash, Structural)]
pub enum WasmType {
    I32,
    I64,
    F32,
    F64,
}

/// Which side of the boundary a function is seen from.
#[derive(Clone, Copy, Debug, PartialEq, Eq, Hash, Structural)]
pub enum AbiVariant {
    /// The guest calls out to the host.
    GuestImport,
    /// The host calls into the guest.
    GuestExport,
}

/// The core signature of a function.
#[derive(Clone, Debug)]
pub struct WasmSignature {
    /// The core parameters.
    pub params: Vec<WasmType>,
    /// Whether the parameters are passed in memory, behind one pointer.
    pub indirect_params: bool,
    /// The core results.
    pub results: Vec<WasmType>,
    /// Whether the result is passed in memory, behind a pointer.
    pub retptr: bool,
}

/// The largest number of core values that parameters are passed as; more
/// than that go through memory.
pub const MAX_FLAT_PARAMS: usize = 16;

/// The largest number of core values that a result is returned as; more
/// than that go through memory.
pub const MAX_FLAT_RESULTS: usize = 1;

/// The core type that can carry a value of either `a` or `b`.
pub open spec fn spec_join(a: WasmType, b: WasmType) -> WasmType {
    if a == b {
        a
    } else if (a == WasmType::I32 && b == WasmType::F32) || (a == WasmType::F32 && b
        == WasmType::I32) {
        WasmType::I32
    } else {
        WasmType::I64
    }
}

pub fn join(a: WasmType, b: WasmType) -> (r: WasmType)
    ensures
        r == spec_join(a, b),
{
    match (a, b) {
        (WasmType::I32, WasmType::I32) => WasmType::I32,
        (WasmType::I64, WasmType::I64) => WasmType::I64,
        (WasmType::F32, WasmType::F32) => WasmType::F32,
        (WasmType::F64, WasmType::F64) => WasmType::F64,
        (WasmType::I32, WasmType::F32) => WasmType::I32,
        (WasmType::F32, WasmType::I32) => WasmType::I32,
        _ => WasmType::I64,
    }
}

/// The core type of an integer of the given width.
pub open spec fn spec_int_type(i: Int) -> WasmType {
    match i {
        Int::U64 => WasmType::I64,
        _ => WasmType::I32,
    }
}

pub fn int_type(i: Int) -> (r: WasmType)
    ensures
        r == spec_int_type(i),
{
    match i {
        Int::U64 => WasmType::I64,
        _ => WasmType::I32,
    }
}

/// Two flattenings laid over each other: each position carries the join of
/// what the two have there, and the longer one gives the length.
pub open spec fn join_flat(a: Seq<WasmType>, b: Seq<WasmType>) -> Seq<WasmType> {
    Seq::new(
        if a.len() >= b.len() {
            a.len()
        } else {
            b.len()
        },
        |i: int|
            if i < a.len() && i < b.len() {
                spec_join(a[i], b[i])
            } else if i < a.len() {
                a[i]
            } else {
                b[i]
            },
    )
}

/// The flattening of a type that is no reference to a definition.
pub open spec fn primitive_flat(ty: Type) -> Seq<WasmType> {
    match ty {
        Type::Unit => Seq::empty(),
        Type::U64 => seq![WasmType::I64],
        Type::S64 => seq![WasmType::I64],
        Type::Float32 => seq![WasmType::F32],
        Type::Float64 => seq![WasmType::F64],
        Type::String => seq![WasmType::I32, WasmType::I32],
        Type::Id(_) => Seq::empty(),
        _ => seq![WasmType::I32],
    }
}

/// The core values that carry a value of `ty`, where references are
/// followed to definitions before `bound` only; a reference to anything
/// else flattens to nothing.
pub open spec fn flat(types: Seq<TypeDef>, ty: Type, bound: nat) -> Seq<WasmType>
    decreases bound, 0nat, 0nat,
{
    match ty {
        Type::Id(id) => if id < bound && id < types.len() {
            def_flat(types, id as nat)
        } else {
            Seq::empty()
        },
        _ => primitive_flat(ty),
    }
}

/// The flattenings of the first `n` of `members`, one after another.
pub open spec fn concat_flat(types: Seq<TypeDef>, members: Seq<Type>, bound: nat, n: nat) -> Seq<
    WasmType,
>
    decreases bound, 1nat, n,
{
    if n == 0 || n > members.len() {
        Seq::empty()
    } else {
        concat_flat(types, members, bound, (n - 1) as nat) + flat(types, members[n - 1], bound)
    }
}

/// The flattenings of the first `n` of `members`, laid over each other.
pub open spec fn joined_flat(types: Seq<TypeDef>, members: Seq<Type>, bound: nat, n: nat) -> Seq<
    WasmType,
>
    decreases bound, 1nat, n,
{
    if n == 0 || n > members.len() {
        Seq::empty()
    } else {
        join_flat(
            joined_flat(types, members, bound, (n - 1) as nat),
            flat(types, members[n - 1], bound),
        )
    }
}

/// The core values that carry a value of the definition at `id`: those of a
/// record's fields one after another; one 32-bit integer per 32 flags; one
/// integer for an enum; pointer and length for a list; for the variant
/// family the discriminant, then as many values as the widest case has, each
/// of a type that every case's value at that place fits in.
pub open spec fn def_flat(types: Seq<TypeDef>, id: nat) -> Seq<WasmType>
    decreases id, 2nat, 0nat,
{
    if id >= types.len() {
        Seq::empty()
    } else {
        let kind = types[id as int].kind;
        let members = kind.spec_members();
        match kind {
            TypeDefKind::Type(t) => flat(types, t, id),
            TypeDefKind::List(_) => seq![WasmType::I32, WasmType::I32],
            TypeDefKind::Record(_) => concat_flat(types, members, id, members.len()),
            TypeDefKind::Tuple(_) => concat_flat(types, members, id, members.len()),
            TypeDefKind::Flags(f) => Seq::new(
                spec_repr_count(spec_flags_repr(f.flags@.len())),
                |i: int| WasmType::I32,
            ),
            TypeDefKind::Enum(_) => seq![spec_int_type(spec_tag(kind.spec_case_count()))],
            _ => seq![spec_int_type(spec_tag(kind.spec_case_count()))] + joined_flat(
                types,
                members,
                id,
                members.len(),
            ),
        }
    }
}

/// The flattenings of the types of the first `n` parameters, one after
/// another.
pub open spec fn params_flat(types: Seq<TypeDef>, params: Seq<(String, Type)>, n: nat) -> Seq<
    WasmType,
>
    decreases n,
{
    if n == 0 || n > params.len() {
        Seq::empty()
    } else {
        params_flat(types, params, (n - 1) as nat) + flat(types, params[n - 1].1, types.len())
    }
}

/// The core signature of a function as `variant` sees it.
pub struct SignatureView {
    pub params: Seq<WasmType>,
    pub indirect_params: bool,
    pub results: Seq<WasmType>,
    pub retptr: bool,
}

impl View for WasmSignature {
    type V = SignatureView;

    open spec fn view(&self) -> SignatureView {
        SignatureView {
            params: self.params@,
            indirect_params: self.indirect_params,
            results: self.results@,
            retptr: self.retptr,
        }
    }
}

/// The core signature of `func`. Parameters that flatten to more than
/// [`MAX_FLAT_PARAMS`] values are passed behind one pointer. A result that
/// flattens to more than [`MAX_FLAT_RESULTS`] values is passed in memory:
/// an import gets a pointer to write to as its last parameter, an export
/// returns a pointer to what it wrote.
pub open spec fn spec_signature(types: Seq<TypeDef>, variant: AbiVariant, func: Function) -> SignatureView {
    let flat_params = params_flat(types, func.params@, func.params@.len());
    let flat_results = flat(types, func.result, types.len());
    let indirect_params = flat_params.len() > MAX_FLAT_PARAMS;
    let params = if indirect_params {
        seq![WasmType::I32]
    } else {
        flat_params
    };
    let retptr = flat_results.len() > MAX_FLAT_RESULTS;
    SignatureView {
        params: if retptr && variant == AbiVariant::GuestImport {
            params.push(WasmType::I32)
        } else {
            params
        },
        indirect_params,
        results: if !retptr {
            flat_results
        } else if variant == AbiVariant::GuestExport {
            seq![WasmType::I32]
        } else {
            Seq::empty()
        },
        retptr,
    }
}

/// Lays `b` over `a`.
fn join_vecs(a: &Vec<WasmType>, b: &Vec<WasmType>) -> (r: Vec<WasmType>)
    ensures
        r@ == join_flat(a@, b@),
{
    let mut out: Vec<WasmType> = Vec::new();
    let mut i: usize = 0;
    while i < a.len() || i < b.len()
        invariant
            out@.len() == i,
            i <= a@.len() || i <= b@.len(),
            forall|k: int| 0 <= k < i ==> #[trigger] out@[k] == join_flat(a@, b@)[k],
        decreases
                (if a@.len() >= b@.len() {
                    a@.len()
                } else {
                    b@.len()
                }) - i,
    {
        let t = if i < a.len() && i < b.len() {
            join(a[i], b[i])
        } else if i < a.len() {
            a[i]
        } else {
            b[i]
        };
        out.push(t);
        i += 1;
    }
    assert(out@ =~= join_flat(a@, b@));
    out
}

impl Interface {
    pub open spec fn spec_flatten(&self, ty: Type) -> Seq<WasmType> {
        flat(self.types@, ty, self.types@.len())
    }

    /// The core values that carry a value of `ty` across a call.
    pub fn flatten(&self, ty: &Type) -> (r: Vec<WasmType>)
        ensures
            r@ == self.spec_flatten(*ty),
    {
        self.flat_below(*ty, self.types.len())
    }

    /// Appends the core values that carry a value of `ty` to `result`.
    pub fn push_wasm(&self, ty: &Type, result: &mut Vec<WasmType>)
        ensures
            final(result)@ == old(result)@ + self.spec_flatten(*ty),
    {
        let mut f = self.flatten(ty);
        result.append(&mut f);
    }

    pub fn flat_below(&self, ty: Type, bound: usize) -> (r: Vec<WasmType>)
        ensures
            r@ == flat(self.types@, ty, bound as nat),
        decreases bound,
    {
        let mut out: Vec<WasmType> = Vec::new();
        match ty {
            Type::Unit => {},
            Type::U64 | Type::S64 => {
                out.push(WasmType::I64);
            },
            Type::Float32 => {
                out.push(WasmType::F32);
            },
            Type::Float64 => {
                out.push(WasmType::F64);
            },
            Type::String => {
                out.push(WasmType::I32);
                out.push(WasmType::I32);
            },
            Type::Bool
            | Type::U8
            | Type::S8
            | Type::U16
            | Type::S16
            | Type::U32
            | Type::S32
            | Type::Char
            | Type::Handle(_) => {
                out.push(WasmType::I32);
            },
            Type::Id(id) => {
                if id < bound && id < self.types.len() {
                    let kind = &self.types[id].kind;
                    let members = kind.members();
                    match kind {
                        TypeDefKind::Type(t) => {
                            out = self.flat_below(*t, id);
                        },
                        TypeDefKind::List(_) => {
                            out.push(WasmType::I32);
                            out.push(WasmType::I32);
                        },
                        TypeDefKind::Record(_) | TypeDefKind::Tuple(_) => {
                            let mut k: usize = 0;
                            while k < members.len()
                                invariant
                                    k <= members@.len(),
                                    id < bound,
                                    out@ == concat_flat(self.types@, members@, id as nat, k as nat),
                                decreases members@.len() - k,
                            {
                                let mut f = self.flat_below(members[k], id);
                                out.append(&mut f);
                                k += 1;
                            }
                        },
                        TypeDefKind::Flags(f) => {
                            let n = f.repr().count();
                            let mut k: usize = 0;
                            while k < n
                                invariant
                                    k <= n,
                                    out@.len() == k,
                                    forall|j: int| 0 <= j < k ==> out@[j] == WasmType::I32,
                                decreases n - k,
                            {
                                out.push(WasmType::I32);
                                k += 1;
                            }
                        },
                        TypeDefKind::Enum(_) => {
                            out.push(int_type(kind.tag()));
                        },
                        _ => {
                            let mut joined: Vec<WasmType> = Vec::new();
                            let mut k: usize = 0;
                            while k < members.len()
                                invariant
                                    k <= members@.len(),
                                    id < bound,
                                    joined@ == joined_flat(
                                        self.types@,
                                        members@,
                                        id as nat,
                                        k as nat,
                                    ),
                                decreases members@.len() - k,
                            {
                                let f = self.flat_below(members[k], id);
                                joined = join_vecs(&joined, &f);
                                k += 1;
                            }
                            out.push(int_type(kind.tag()));
                            out.append(&mut joined);
                        },
                    }
                }
            },
        }
        assert(out@ =~= flat(self.types@, ty, bound as nat));
        out
    }

    /// The core signature of `func` as `variant` sees it.
    pub fn wasm_signature(&self, variant: AbiVariant, func: &Function) -> (r: WasmSignature)
        ensures
            r@ == spec_signature(self.types@, variant, *func),
    {
        let mut params: Vec<WasmType> = Vec::new();
        let mut k: usize = 0;
        while k < func.params.len()
            invariant
                k <= func.params@.len(),
                params@ == params_flat(self.types@, func.params@, k as nat),
            decreases func.params@.len() - k,
        {
            let mut f = self.flatten(&func.params[k].1);
            params.append(&mut f);
            k += 1;
        }
        let indirect_params = params.len() > MAX_FLAT_PARAMS;
        if indirect_params {
            params = Vec::new();
            params.push(WasmType::I32);
        }
        let mut results = self.flatten(&func.result);
        let retptr = results.len() > MAX_FLAT_RESULTS;
        if retptr {
            results = Vec::new();
            match variant {
                AbiVariant::GuestImport => {
                    params.push(WasmType::I32);
                },
                AbiVariant::GuestExport => {
                    results.push(WasmType::I32);
                },
            }
        }
        let sig = WasmSignature { params, indirect_params, results, retptr };
        assert(sig@.params =~= spec_signature(self.types@, variant, *func).params);
        assert(sig@.results =~= spec_signature(self.types@, variant, *func).results);
        sig
    }
}

/// The flattenings of more members, one after another, are no shorter.
pub proof fn lemma_concat_flat_len(
    types: Seq<TypeDef>,
    members: Seq<Type>,
    bound: nat,
    m: nat,
    n: nat,
)
    requires
        m <= n <= members.len(),
    ensures
        concat_flat(types, members, bound, m).len() <= concat_flat(types, members, bound, n).len(),
    decreases n,
{
    if m < n {
        lemma_concat_flat_len(types, members, bound, m, (n - 1) as nat);
    }
}

/// The flattenings of the cases of a variant, laid over each other, reach
/// as far as that of each case.
pub proof fn lemma_joined_flat_covers(
    types: Seq<TypeDef>,
    members: Seq<Type>,
    bound: nat,
    n: nat,
    k: nat,
)
    requires
        k < n <= members.len(),
    ensures
        flat(types, members[k as int], bound).len() <= joined_flat(types, members, bound, n).len(),
    decreases n,
{
    if k < n - 1 {
        lemma_joined_flat_covers(types, members, bound, (n - 1) as nat, k);
    }
}

} // verus!
