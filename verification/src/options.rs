//! What a generator of host bindings is told, and what it decides once per
//! function before it renders anything.

use crate::abi::AbiVariant;
use crate::encoding::same_str;
use crate::text::{chars_of, push_chars};
use crate::types::{Function, Interface, Type, TypeDefKind};
use vstd::prelude::*;
use vstd::string::StringExecFns;

verus! {

/// Which functions are to be asynchronous.
#[derive(Debug, Clone)]
pub enum Async {
    /// No function is asynchronous.
    Never,
    All,
    Only(Vec<String>),
}

/// Whether bindings are generated for what a module imports or for what it
/// exports.
#[derive(Clone, Copy, Debug, PartialEq, Eq, Structural)]
pub enum Direction {
    Import,
    Export,
}

/// The options of the generator.
#[derive(Debug, Clone)]
pub struct Opts {
    /// Whether or not `rustfmt` is executed to format generated code.
    pub rustfmt: bool,
    /// Whether or not to emit `tracing` macro calls on function entry/exit.
    pub tracing: bool,
    /// Indicates which functions should be `async`: `all`, `none`, or a
    /// comma-separated list.
    pub async_: Async,
    /// A flag to indicate that all trait methods in imports should return a
    /// custom trait-defined error. Applicable for import bindings.
    pub custom_error: bool,
}

/// The names of `v` as sequences of characters.
pub open spec fn names_of(v: Seq<String>) -> Seq<Seq<char>> {
    Seq::new(v.len(), |i: int| v[i]@)
}

/// Whether `c` is white space as Unicode has it: the characters with the
/// property `White_Space`, which are what `str::trim` takes away.
pub open spec fn is_space(c: char) -> bool {
    let v = c as u32;
    (0x09 <= v <= 0x0d) || v == 0x20 || v == 0x85 || v == 0xa0 || v == 0x1680 || (0x2000 <= v
        <= 0x200a) || v == 0x2028 || v == 0x2029 || v == 0x202f || v == 0x205f || v == 0x3000
}

/// The number of spaces that `s` starts with.
pub open spec fn leading_spaces(s: Seq<char>) -> nat
    decreases s.len(),
{
    if s.len() == 0 || !is_space(s[0]) {
        0
    } else {
        1 + leading_spaces(s.drop_first())
    }
}

/// The number of spaces that `s` ends with.
pub open spec fn trailing_spaces(s: Seq<char>) -> nat
    decreases s.len(),
{
    if s.len() == 0 || !is_space(s.last()) {
        0
    } else {
        1 + trailing_spaces(s.drop_last())
    }
}

/// `s` without the spaces at its start and its end.
pub open spec fn trimmed(s: Seq<char>) -> Seq<char> {
    if leading_spaces(s) >= s.len() {
        Seq::empty()
    } else {
        s.subrange(leading_spaces(s) as int, s.len() - trailing_spaces(s))
    }
}

/// The length of the first field of `s`: the position of its first comma, or
/// its length if it has none.
pub open spec fn field_end(s: Seq<char>) -> nat
    decreases s.len(),
{
    if s.len() == 0 || s[0] == ',' {
        0
    } else {
        1 + field_end(s.drop_first())
    }
}

/// The fields of `s`, which commas separate, each without the spaces around
/// it.
pub open spec fn fields(s: Seq<char>) -> Seq<Seq<char>>
    decreases s.len(),
{
    let end = field_end(s);
    if end >= s.len() {
        seq![trimmed(s)]
    } else {
        seq![trimmed(s.take(end as int))] + fields(s.skip(end as int + 1))
    }
}

/// `s` starts with exactly `k` spaces if its first `k` characters are spaces
/// and the next one is none.
pub proof fn lemma_leading_spaces_is(s: Seq<char>, k: nat)
    requires
        k <= s.len(),
        forall|j: int| 0 <= j < k ==> is_space(#[trigger] s[j]),
        k < s.len() ==> !is_space(s[k as int]),
    ensures
        leading_spaces(s) == k,
    decreases s.len(),
{
    if k > 0 {
        assert(is_space(s[0]));
        assert forall|j: int| 0 <= j < k - 1 implies is_space(#[trigger] s.drop_first()[j]) by {
            assert(s.drop_first()[j] == s[j + 1]);
        }
        lemma_leading_spaces_is(s.drop_first(), (k - 1) as nat);
    }
}

fn is_space_char(c: char) -> (r: bool)
    ensures
        r == is_space(c),
{
    let v = c as u32;
    (0x09 <= v && v <= 0x0d) || v == 0x20 || v == 0x85 || v == 0xa0 || v == 0x1680 || (0x2000 <= v
        && v <= 0x200a) || v == 0x2028 || v == 0x2029 || v == 0x202f || v == 0x205f || v == 0x3000
}

/// The field `chars[from..to]` without the spaces around it.
pub fn trimmed_field(chars: &Vec<char>, from: usize, to: usize) -> (r: String)
    requires
        from <= to <= chars@.len(),
    ensures
        r@ == trimmed(chars@.subrange(from as int, to as int)),
{
    let ghost field = chars@.subrange(from as int, to as int);
    let mut start: usize = from;
    while start < to && is_space_char(chars[start])
        invariant
            from <= start <= to <= chars@.len(),
            field == chars@.subrange(from as int, to as int),
            forall|j: int| 0 <= j < start - from ==> is_space(#[trigger] field[j]),
        decreases to - start,
    {
        start += 1;
    }
    proof {
        lemma_leading_spaces_is(field, (start - from) as nat);
    }
    let mut out = String::new();
    if start >= to {
        assert(out@ =~= trimmed(field));
        return out;
    }
    let mut end: usize = to;
    assert(field.subrange(0, (end - from) as int) =~= field);
    while end > start && is_space_char(chars[end - 1])
        invariant
            from <= start < to <= chars@.len(),
            start < end <= to,
            field == chars@.subrange(from as int, to as int),
            !is_space(chars@[start as int]),
            trailing_spaces(field) == (to - end) + trailing_spaces(
                field.subrange(0, (end - from) as int),
            ),
        decreases end,
    {
        let ghost part = field.subrange(0, (end - from) as int);
        assert(part.last() == chars@[end - 1]);
        assert(part.drop_last() =~= field.subrange(0, (end - 1 - from) as int));
        end -= 1;
    }
    proof {
        let part = field.subrange(0, (end - from) as int);
        assert(part.last() == chars@[end - 1]);
        assert(trailing_spaces(part) == 0);
    }
    push_chars(&mut out, chars, start, end);
    assert(out@ =~= trimmed(field));
    out
}

/// The position of the first comma of `chars` at or after `from`, or the
/// length of `chars`.
fn find_field_end(chars: &Vec<char>, from: usize) -> (end: usize)
    requires
        from <= chars@.len(),
    ensures
        from <= end <= chars@.len(),
        end - from == field_end(chars@.skip(from as int)),
{
    let mut i: usize = from;
    while i < chars.len() && chars[i] != ','
        invariant
            from <= i <= chars@.len(),
            field_end(chars@.skip(from as int)) == (i - from) + field_end(chars@.skip(i as int)),
        decreases chars@.len() - i,
    {
        assert(chars@.skip(i as int)[0] == chars@[i as int]);
        assert(chars@.skip(i as int).drop_first() =~= chars@.skip(i + 1));
        i += 1;
    }
    proof {
        if i < chars@.len() {
            assert(chars@.skip(i as int)[0] == chars@[i as int]);
        }
    }
    i
}

/// What `s` says of which functions are asynchronous.
pub open spec fn spec_async(s: Seq<char>) -> (bool, bool, Seq<Seq<char>>) {
    if s == "all"@ {
        (true, false, Seq::empty())
    } else if s == "none"@ {
        (false, true, Seq::empty())
    } else {
        (false, false, fields(s))
    }
}

impl Async {
    /// Whether every function is asynchronous.
    pub open spec fn spec_is_all(&self) -> bool {
        self is All
    }

    /// The names of the functions that are asynchronous, where only some
    /// are.
    pub open spec fn spec_names(&self) -> Seq<Seq<char>> {
        match self {
            Async::Only(list) => names_of(list@),
            _ => Seq::empty(),
        }
    }

    pub open spec fn spec_includes(&self, name: Seq<char>) -> bool {
        match self {
            Async::Never => false,
            Async::All => true,
            Async::Only(list) => names_of(list@).contains(name),
        }
    }

    /// Whether the function `name` is asynchronous.
    pub fn includes(&self, name: &str) -> (r: bool)
        ensures
            r == self.spec_includes(name@),
    {
        match self {
            Async::Never => false,
            Async::All => true,
            Async::Only(list) => {
                let mut i: usize = 0;
                while i < list.len()
                    invariant
                        i <= list@.len(),
                        self.spec_includes(name@) == names_of(list@).contains(name@),
                        forall|j: int| 0 <= j < i ==> names_of(list@)[j] != name@,
                    decreases list@.len() - i,
                {
                    if same_str(list[i].as_str(), name) {
                        assert(names_of(list@)[i as int] == name@);
                        return true;
                    }
                    i += 1;
                }
                false
            },
        }
    }

    /// Whether no function is asynchronous.
    pub fn is_none(&self) -> (r: bool)
        ensures
            r == (self is Never),
    {
        match self {
            Async::Never => true,
            _ => false,
        }
    }

    /// Reads which functions are asynchronous: `all`, `none`, or the names
    /// of the functions with commas between them.
    pub fn from_str(s: &str) -> (r: Result<Async, String>)
        ensures
            r matches Ok(a) && (a is All, a is Never, a.spec_names()) == spec_async(s@),
    {
        if same_str(s, "all") {
            return Ok(Async::All);
        }
        if same_str(s, "none") {
            return Ok(Async::Never);
        }
        let chars = chars_of(s);
        let n = chars.len();
        let mut list: Vec<String> = Vec::new();
        let mut pos: usize = 0;
        assert(chars@.skip(0) =~= chars@);
        loop
            invariant_except_break
                pos <= n,
                n == chars@.len(),
                names_of(list@) + fields(chars@.skip(pos as int)) == fields(chars@),
            ensures
                names_of(list@) == fields(chars@),
            decreases n - pos,
        {
            let end = find_field_end(&chars, pos);
            let ghost rest = chars@.skip(pos as int);
            let ghost before = names_of(list@);
            let name = trimmed_field(&chars, pos, end);
            assert(chars@.subrange(pos as int, end as int) =~= rest.take((end - pos) as int));
            list.push(name);
            assert(names_of(list@) =~= before.push(name@));
            if end >= n {
                assert(rest.take((end - pos) as int) =~= rest);
                assert(names_of(list@) =~= before + fields(rest));
                break ;
            }
            assert(rest.skip(end - pos + 1) =~= chars@.skip(end + 1));
            assert(names_of(list@) + fields(chars@.skip(end + 1)) =~= before + fields(rest));
            pos = end + 1;
        }
        Ok(Async::Only(list))
    }
}

impl std::str::FromStr for Async {
    type Err = String;

    fn from_str(s: &str) -> (r: Result<Async, String>) {
        Async::from_str(s)
    }
}

impl Default for Async {
    fn default() -> (r: Async)
        ensures
            r is Never,
    {
        Async::Never
    }
}

impl Default for Opts {
    fn default() -> (r: Opts)
        ensures
            !r.rustfmt,
            !r.tracing,
            r.async_ is Never,
            !r.custom_error,
    {
        Opts { rustfmt: false, tracing: false, async_: Async::Never, custom_error: false }
    }
}

/// The side of the boundary that host bindings are written against. The
/// host stands on the other side of what the guest does: where the guest
/// imports, the host implements the import, so bindings for an import of the
/// host are written against the guest's export, and the other way round.
pub fn abi_variant(dir: Direction) -> (r: AbiVariant)
    ensures
        r == match dir {
            Direction::Import => AbiVariant::GuestExport,
            Direction::Export => AbiVariant::GuestImport,
        },
{
    match dir {
        Direction::Import => AbiVariant::GuestExport,
        Direction::Export => AbiVariant::GuestImport,
    }
}

/// Whether a function of the interface is declared to be asynchronous.
pub open spec fn declares_async(iface: Interface) -> bool {
    exists|i: int| 0 <= i < iface.functions@.len() && iface.functions@[i].is_async
}

/// Whether any function of the interface may suspend. The host side of an
/// interface is built for suspension as a whole or not at all, so this is
/// decided before any function is compiled.
pub fn any_async(iface: &Interface) -> (r: bool)
    ensures
        r == declares_async(*iface),
{
    let mut i: usize = 0;
    while i < iface.functions.len()
        invariant
            i <= iface.functions@.len(),
            forall|j: int| 0 <= j < i ==> !iface.functions@[j].is_async,
        decreases iface.functions@.len() - i,
    {
        if iface.functions[i].is_async {
            return true;
        }
        i += 1;
    }
    false
}

/// How the result of a function that the host implements goes back to the
/// guest.
#[derive(Debug, Clone)]
pub enum FunctionRet {
    /// The result is lowered as it is.
    Normal,
    /// The host's function returns its result or an error of the host's
    /// own, and the error aborts the call.
    CustomToTrap,
    /// The function returns an expected whose error is a named type of the
    /// interface: an error of the host's own is turned into that type, and
    /// `ok` is the type of the success.
    CustomToError { ok: Type, err: String },
}

/// The name of the error type of `f`, if its result is an expected whose
/// error is a named definition of the interface, and the type of its
/// success.
pub open spec fn declared_error(iface: Interface, f: Function) -> Option<(Type, Seq<char>)> {
    match f.result {
        Type::Id(id) => if id < iface.types@.len() {
            match iface.types@[id as int].kind {
                TypeDefKind::Expected(e) => match e.err {
                    Type::Id(err) => if err < iface.types@.len() {
                        match iface.types@[err as int].name {
                            Some(name) => Some((e.ok, name@)),
                            None => None,
                        }
                    } else {
                        None
                    },
                    _ => None,
                },
                _ => None,
            }
        } else {
            None
        },
        _ => None,
    }
}

/// Decides, once for a function, where a failure of the host goes: into the
/// error that the function declares, where it declares one by name, and into
/// an abort of the call otherwise. Without the option of errors of the
/// host's own nothing is decided: the result is lowered as it is.
pub fn classify_fn_ret(custom_error: bool, iface: &Interface, f: &Function) -> (r: FunctionRet)
    ensures
        match r {
            FunctionRet::Normal => !custom_error,
            FunctionRet::CustomToTrap => custom_error && declared_error(*iface, *f) is None,
            FunctionRet::CustomToError { ok, err } => custom_error && declared_error(*iface, *f)
                == Some((ok, err@)),
        },
{
    if !custom_error {
        return FunctionRet::Normal;
    }
    if let Type::Id(id) = f.result {
        if id < iface.types.len() {
            if let TypeDefKind::Expected(e) = &iface.types[id].kind {
                if let Type::Id(err) = e.err {
                    if err < iface.types.len() {
                        if let Some(name) = &iface.types[err].name {
                            return FunctionRet::CustomToError { ok: e.ok, err: name.clone() };
                        }
                    }
                }
            }
        }
    }
    FunctionRet::CustomToTrap
}

/// A function of the guest that the host calls to manage the guest's
/// memory.
#[derive(Clone, Copy, Debug, PartialEq, Eq, Structural)]
pub enum NeededFunction {
    Realloc,
    Free,
}

impl NeededFunction {
    pub open spec fn spec_cvt(&self) -> Seq<char> {
        match self {
            NeededFunction::Realloc => "(i32, i32, i32, i32), i32"@,
            NeededFunction::Free => "(i32, i32, i32), ()"@,
        }
    }

    /// The core parameters and results of the function, as the text of Rust
    /// types.
    pub fn cvt(&self) -> (r: &'static str)
        ensures
            r@ == self.spec_cvt(),
    {
        match self {
            NeededFunction::Realloc => "(i32, i32, i32, i32), i32",
            NeededFunction::Free => "(i32, i32, i32), ()",
        }
    }

    /// The type of the function, as the text of a Rust type.
    pub fn ty(&self) -> (r: String)
        ensures
            r@ == "wasmer::TypedFunction<"@ + self.spec_cvt() + ">"@,
    {
        let mut out = String::from_str("wasmer::TypedFunction<");
        out.append(self.cvt());
        out.append(">");
        out
    }
}

} // verus!
