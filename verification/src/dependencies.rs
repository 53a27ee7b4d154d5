//! What the generated Python needs beside the bindings themselves: the
//! modules to import and the helper functions to define.

use crate::encoding::same_str;
use crate::source::{pushed_text, Source};
use crate::text::{chars_of, lemma_seq_lt_total, order_of, seq_lt, Order};
use vstd::prelude::*;

verus! {

/// Checks that an integer lies in a range.
pub const CLAMP: &'static str = "
                    def _clamp(i: int, min: int, max: int) -> int:
                        if i < min or i > max:
                            raise OverflowError(f'must be between {min} and {max}')
                        return i
                ";

/// Stores one value, after a check against the extent of the memory.
pub const STORE: &'static str = "
                    def _store(make_view: Callable[[], Any], mem: wasmer.Memory, base: int, offset: int, val: Any) -> None:
                        ptr = (base & 0xffffffff) + offset
                        view = make_view()
                        if ptr < 0 or ptr + view.bytes_per_element > mem.data_size:
                            raise IndexError('out-of-bounds store')
                        view_ptr = ptr // view.bytes_per_element
                        view[view_ptr] = val
                ";

/// Loads one value, after a check against the extent of the memory.
pub const LOAD: &'static str = "
                    def _load(make_view: Callable[[], Any], mem: wasmer.Memory, base: int, offset: int) -> Any:
                        ptr = (base & 0xffffffff) + offset
                        view = make_view()
                        if ptr < 0 or ptr + view.bytes_per_element > mem.data_size:
                            raise IndexError('out-of-bounds load')
                        view_ptr = ptr // view.bytes_per_element
                        return view[view_ptr]
                ";

/// Checks that an integer from the guest is a Unicode scalar value.
pub const VALIDATE_GUEST_CHAR: &'static str = "
                    def _validate_guest_char(i: int) -> str:
                        if i < 0 or i > 0x10ffff or (i >= 0xd800 and i <= 0xdfff):
                            raise TypeError('not a valid char');
                        return chr(i)
                ";

/// The two cases of an expected.
pub const EXPECTED: &'static str = "
                    @dataclass
                    class Ok(Generic[T]):
                        value: T
                    E = TypeVar('E')
                    @dataclass
                    class Err(Generic[E]):
                        value: E

                    Expected = Union[Ok[T], Err[E]]
                ";

/// The cell through which 32-bit integers and floats are reinterpreted, as an integer.
pub const I32_F32_INT: &'static str = "_i32_to_f32_i32 = ctypes.pointer(ctypes.c_int32(0))\n";

/// The same cell, as a float.
pub const I32_F32_FLOAT: &'static str = "_i32_to_f32_f32 = ctypes.cast(_i32_to_f32_i32, ctypes.POINTER(ctypes.c_float))\n";

/// Reinterprets a 32-bit integer as a float.
pub const I32_TO_F32: &'static str = "
                        def _i32_to_f32(i: int) -> float:
                            _i32_to_f32_i32[0] = i     # type: ignore
                            return _i32_to_f32_f32[0]  # type: ignore
                    ";

/// Reinterprets a 32-bit float as an integer.
pub const F32_TO_I32: &'static str = "
                        def _f32_to_i32(i: float) -> int:
                            _i32_to_f32_f32[0] = i    # type: ignore
                            return _i32_to_f32_i32[0] # type: ignore
                    ";

/// The cell through which 64-bit integers and floats are reinterpreted, as an integer.
pub const I64_F64_INT: &'static str = "_i64_to_f64_i64 = ctypes.pointer(ctypes.c_int64(0))\n";

/// The same cell, as a float.
pub const I64_F64_FLOAT: &'static str = "_i64_to_f64_f64 = ctypes.cast(_i64_to_f64_i64, ctypes.POINTER(ctypes.c_double))\n";

/// Reinterprets a 64-bit integer as a float.
pub const I64_TO_F64: &'static str = "
                        def _i64_to_f64(i: int) -> float:
                            _i64_to_f64_i64[0] = i    # type: ignore
                            return _i64_to_f64_f64[0] # type: ignore
                    ";

/// Reinterprets a 64-bit float as an integer.
pub const F64_TO_I64: &'static str = "
                        def _f64_to_i64(i: float) -> int:
                            _i64_to_f64_f64[0] = i    # type: ignore
                            return _i64_to_f64_i64[0] # type: ignore
                    ";

/// Lifts a string.
pub const DECODE_UTF8: &'static str = "
                    def _decode_utf8(mem: wasmer.Memory, ptr: int, len: int) -> str:
                        ptr = ptr & 0xffffffff
                        len = len & 0xffffffff
                        if ptr + len > mem.data_size:
                            raise IndexError('string out of bounds')
                        view = mem.uint8_view()
                        bytes = bytearray(view[ptr:ptr+len])
                        x = bytes.decode('utf8')
                        return x
                ";

/// Lowers a string.
pub const ENCODE_UTF8: &'static str = "
                    def _encode_utf8(val: str, realloc: wasmer.Function, mem: wasmer.Memory) -> Tuple[int, int]:
                        bytes = val.encode('utf8')
                        ptr = realloc(0, 0, 1, len(bytes))
                        assert(isinstance(ptr, int))
                        ptr = ptr & 0xffffffff
                        if ptr + len(bytes) > mem.data_size:
                            raise IndexError('string out of bounds')
                        view = mem.uint8_view()
                        view[ptr:ptr+len(bytes)] = bytes
                        return (ptr, len(bytes))
                ";

/// Lifts a list whose elements are valid in every bit pattern.
pub const LIST_CANON_LIFT: &'static str = "
                    def _list_canon_lift(ptr: int, len: int, size: int, make_view: Callable[[], Any], mem: wasmer.Memory) -> Any:
                        ptr = ptr & 0xffffffff
                        len = len & 0xffffffff
                        if ptr + len * size > mem.data_size:
                            raise IndexError('list out of bounds')
                        view = make_view()
                        assert(size == view.bytes_per_element)
                        view_ptr = ptr // view.bytes_per_element
                        if isinstance(view, wasmer.Uint8Array):
                            return bytearray(view[view_ptr:view_ptr+len])
                        return view[view_ptr:view_ptr + len]
                ";

/// Lowers a list whose elements are valid in every bit pattern.
pub const LIST_CANON_LOWER: &'static str = "
                    def _list_canon_lower(list: Any, make_view: Callable[[], Any], size: int, align: int, realloc: wasmer.Function, mem: wasmer.Memory) -> Tuple[int, int]:
                        total_size = size * len(list)
                        ptr = realloc(0, 0, align, total_size)
                        assert(isinstance(ptr, int))
                        ptr = ptr & 0xffffffff
                        if ptr + total_size > mem.data_size:
                            raise IndexError('list realloc return of bounds')
                        view = make_view()
                        assert(size == view.bytes_per_element)
                        view_ptr = ptr // view.bytes_per_element
                        view[view_ptr:view_ptr + len(list)] = list
                        return (ptr, len(list))
                ";

/// The table of handles.
pub const RESOURCES: &'static str = "
                    @dataclass
                    class SlabEntry(Generic[T]):
                        next: int
                        val: Optional[T]

                    class Slab(Generic[T]):
                        head: int
                        list: List[SlabEntry[T]]

                        def __init__(self) -> None:
                            self.list = []
                            self.head = 0

                        def insert(self, val: T) -> int:
                            if self.head >= len(self.list):
                                self.list.append(SlabEntry(next = len(self.list) + 1, val = None))
                            ret = self.head
                            slot = self.list[ret]
                            self.head = slot.next
                            slot.next = -1
                            slot.val = val
                            return ret

                        def get(self, idx: int) -> T:
                            if idx < 0 or idx >= len(self.list):
                                raise IndexError('handle index not valid')
                            slot = self.list[idx]
                            if slot.next == -1:
                                assert(slot.val is not None)
                                return slot.val
                            raise IndexError('handle index not valid')

                        def remove(self, idx: int) -> T:
                            ret = self.get(idx)
                            slot = self.list[idx]
                            slot.val = None
                            slot.next = self.head
                            self.head = idx
                            return ret
                ";

/// One imported module: the names taken from it, in order, or nothing where
/// the module is imported as a whole.
#[derive(Debug)]
pub struct PyImport {
    pub module: String,
    pub names: Option<Vec<String>>,
}

pub struct PyImportView {
    pub module: Seq<char>,
    pub names: Option<Seq<Seq<char>>>,
}

/// The strings of `v` as sequences of characters.
pub open spec fn names_view(v: Seq<String>) -> Seq<Seq<char>> {
    Seq::new(v.len(), |i: int| v[i]@)
}

impl View for PyImport {
    type V = PyImportView;

    open spec fn view(&self) -> PyImportView {
        PyImportView {
            module: self.module@,
            names: match self.names {
                Some(names) => Some(names_view(names@)),
                None => None,
            },
        }
    }
}

pub open spec fn imports_view(v: Seq<PyImport>) -> Seq<PyImportView> {
    Seq::new(v.len(), |i: int| v[i]@)
}

/// `s`, a list of strings in order, with `x` at its place; as it is where
/// it holds `x` already.
pub open spec fn sorted_insert(s: Seq<Seq<char>>, x: Seq<char>) -> Seq<Seq<char>>
    decreases s.len(),
{
    if s.len() == 0 {
        seq![x]
    } else if s[0] == x {
        s
    } else if seq_lt(x, s[0]) {
        seq![x] + s
    } else {
        seq![s[0]] + sorted_insert(s.drop_first(), x)
    }
}

/// The import of `module` when nothing of it was imported before.
pub open spec fn fresh_import(module: Seq<char>, name: Option<Seq<char>>) -> PyImportView {
    PyImportView {
        module,
        names: match name {
            Some(n) => Some(seq![n]),
            None => None,
        },
    }
}

/// The import `e` with one more name taken from its module.
pub open spec fn with_name(e: PyImportView, name: Option<Seq<char>>) -> PyImportView {
    PyImportView {
        module: e.module,
        names: match (e.names, name) {
            (Some(names), Some(n)) => Some(sorted_insert(names, n)),
            _ => e.names,
        },
    }
}

/// The imports `s`, in the order of their modules, after `name` of
/// `module`, or the module as a whole, was imported too.
pub open spec fn import_insert(s: Seq<PyImportView>, module: Seq<char>, name: Option<Seq<char>>) -> Seq<
    PyImportView,
>
    decreases s.len(),
{
    if s.len() == 0 {
        seq![fresh_import(module, name)]
    } else if s[0].module == module {
        seq![with_name(s[0], name)] + s.drop_first()
    } else if seq_lt(module, s[0].module) {
        seq![fresh_import(module, name)] + s
    } else {
        seq![s[0]] + import_insert(s.drop_first(), module, name)
    }
}

/// Whether `module` is imported in `s` in the other way: as a whole where
/// a name is to be taken from it (`named`), or by names where it is to be
/// imported as a whole.
pub open spec fn import_conflict(s: Seq<PyImportView>, module: Seq<char>, named: bool) -> bool
    decreases s.len(),
{
    if s.len() == 0 {
        false
    } else {
        (s[0].module == module && (s[0].names is Some) != named) || import_conflict(
            s.drop_first(),
            module,
            named,
        )
    }
}

/// Whether a list of strings is in order, without repetition.
pub open spec fn names_sorted(s: Seq<Seq<char>>) -> bool
    decreases s.len(),
{
    s.len() <= 1 || (seq_lt(s[0], s[1]) && names_sorted(s.drop_first()))
}

/// Whether the imports are in the order of their modules, no module twice,
/// and the names of each in order, no name twice.
pub open spec fn imports_sorted(s: Seq<PyImportView>) -> bool
    decreases s.len(),
{
    if s.len() == 0 {
        true
    } else {
        &&& s[0].names matches Some(names) ==> names_sorted(names)
        &&& s.len() > 1 ==> seq_lt(s[0].module, s[1].module)
        &&& imports_sorted(s.drop_first())
    }
}

/// A name put at its place leaves a list in order.
pub proof fn lemma_sorted_insert_sorted(s: Seq<Seq<char>>, x: Seq<char>)
    requires
        names_sorted(s),
    ensures
        names_sorted(sorted_insert(s, x)),
        sorted_insert(s, x).len() > 0,
        s.len() > 0 ==> sorted_insert(s, x)[0] == s[0] || sorted_insert(s, x)[0] == x,
        s.len() == 0 ==> sorted_insert(s, x)[0] == x,
    decreases s.len(),
{
    if s.len() == 0 {
    } else if s[0] == x {
    } else if seq_lt(x, s[0]) {
        let r = seq![x] + s;
        assert(r.drop_first() =~= s);
    } else {
        let rest = s.drop_first();
        lemma_sorted_insert_sorted(rest, x);
        lemma_seq_lt_total(s[0], x);
        let r = seq![s[0]] + sorted_insert(rest, x);
        assert(r.drop_first() =~= sorted_insert(rest, x));
        if rest.len() > 0 {
            assert(rest[0] == s[1]);
        }
    }
}

/// An import put at its place leaves the imports in order.
pub proof fn lemma_import_insert_sorted(s: Seq<PyImportView>, module: Seq<char>, name: Option<Seq<char>>)
    requires
        imports_sorted(s),
    ensures
        imports_sorted(import_insert(s, module, name)),
        import_insert(s, module, name).len() > 0,
        s.len() > 0 ==> import_insert(s, module, name)[0].module == s[0].module || import_insert(
            s,
            module,
            name,
        )[0].module == module,
        s.len() == 0 ==> import_insert(s, module, name)[0].module == module,
    decreases s.len(),
{
    let result = import_insert(s, module, name);
    if s.len() == 0 {
        let r = seq![fresh_import(module, name)];
        assert(r.drop_first() =~= Seq::<PyImportView>::empty());
        assert(imports_sorted(r.drop_first()));
        if name is Some {
            assert(names_sorted(seq![name->0]));
        }
        assert(imports_sorted(r));
    } else if s[0].module == module {
        let r = seq![with_name(s[0], name)] + s.drop_first();
        assert(r.drop_first() =~= s.drop_first());
        if s.len() > 1 {
            assert(r[1] == s[1]);
        }
        match (s[0].names, name) {
            (Some(names), Some(n)) => {
                lemma_sorted_insert_sorted(names, n);
            },
            _ => {},
        }
        assert(imports_sorted(r));
    } else if seq_lt(module, s[0].module) {
        let r = seq![fresh_import(module, name)] + s;
        assert(r.drop_first() =~= s);
        if name is Some {
            assert(names_sorted(seq![name->0]));
        }
        assert(r[1] == s[0]);
        assert(imports_sorted(r));
    } else {
        let rest = s.drop_first();
        lemma_import_insert_sorted(rest, module, name);
        lemma_seq_lt_total(s[0].module, module);
        let tail = import_insert(rest, module, name);
        let r = seq![s[0]] + tail;
        assert(r.drop_first() =~= tail);
        assert(r[1] == tail[0]);
        if rest.len() > 0 {
            assert(rest[0] == s[1]);
        }
        assert(imports_sorted(r));
    }
}

/// An import that fits what is there leaves every module imported in the
/// way it was: what fitted the imports before fits them after.
pub proof fn lemma_import_insert_fits(
    s: Seq<PyImportView>,
    module: Seq<char>,
    name: Option<Seq<char>>,
    other: Seq<char>,
    named: bool,
)
    requires
        !import_conflict(s, module, name is Some),
        !import_conflict(s, other, named),
        other == module ==> named == (name is Some),
    ensures
        !import_conflict(import_insert(s, module, name), other, named),
    decreases s.len(),
{
    if s.len() == 0 {
        let r = seq![fresh_import(module, name)];
        assert(r.drop_first() =~= Seq::<PyImportView>::empty());
        assert(!import_conflict(r.drop_first(), other, named));
        assert(!import_conflict(r, other, named));
    } else if s[0].module == module {
        let r = seq![with_name(s[0], name)] + s.drop_first();
        assert(r.drop_first() =~= s.drop_first());
        assert(!import_conflict(r, other, named));
    } else if seq_lt(module, s[0].module) {
        let r = seq![fresh_import(module, name)] + s;
        assert(r.drop_first() =~= s);
        assert(!import_conflict(r, other, named));
    } else {
        let rest = s.drop_first();
        lemma_import_insert_fits(rest, module, name, other, named);
        let r = seq![s[0]] + import_insert(rest, module, name);
        assert(r.drop_first() =~= import_insert(rest, module, name));
        assert(!import_conflict(r, other, named));
    }
}

/// Puts `name` at its place in `names`, unless it is there.
pub fn insert_name(names: &mut Vec<String>, name: &str)
    ensures
        names_view(final(names)@) == sorted_insert(names_view(old(names)@), name@),
{
    let key = chars_of(name);
    let ghost all = names_view(names@);
    let mut i: usize = 0;
    assert(all.skip(0) =~= all);
    assert(all.take(0) + sorted_insert(all, name@) =~= sorted_insert(all, name@));
    while i < names.len()
        invariant
            i <= names@.len(),
            names@ == old(names)@,
            all == names_view(names@),
            key@ == name@,
            sorted_insert(all, name@) == all.take(i as int) + sorted_insert(
                all.skip(i as int),
                name@,
            ),
        decreases names@.len() - i,
    {
        let here = chars_of(names[i].as_str());
        assert(all.skip(i as int)[0] == here@);
        match order_of(&key, &here) {
            Order::Same => {
                assert(all.take(i as int) + all.skip(i as int) =~= all);
                return ;
            },
            Order::Before => {
                names.insert(i, name.to_string());
                assert(names_view(names@) =~= all.take(i as int) + (seq![name@] + all.skip(
                    i as int,
                )));
                return ;
            },
            Order::After => {
                assert(all.skip(i as int).drop_first() =~= all.skip(i + 1));
                assert(all.take(i as int) + (seq![all[i as int]] + sorted_insert(
                    all.skip(i + 1),
                    name@,
                )) =~= all.take(i + 1) + sorted_insert(all.skip(i + 1), name@));
                i += 1;
            },
        }
    }
    names.push(name.to_string());
    assert(names_view(names@) =~= all.take(i as int) + seq![name@]);
}

/// Everything that the generated code needs from outside itself: which
/// helper functions it calls, and which modules it imports.
#[derive(Debug)]
pub struct Dependencies {
    pub needs_clamp: bool,
    pub needs_store: bool,
    pub needs_load: bool,
    pub needs_validate_guest_char: bool,
    pub needs_expected: bool,
    pub needs_i32_to_f32: bool,
    pub needs_f32_to_i32: bool,
    pub needs_i64_to_f64: bool,
    pub needs_f64_to_i64: bool,
    pub needs_decode_utf8: bool,
    pub needs_encode_utf8: bool,
    pub needs_list_canon_lift: bool,
    pub needs_list_canon_lower: bool,
    pub needs_t_typevar: bool,
    pub needs_resources: bool,
    /// The imports, in the order of their modules.
    pub pyimports: Vec<PyImport>,
}

impl Default for Dependencies {
    fn default() -> (r: Dependencies)
        ensures
            r.pyimports@.len() == 0,
            !r.needs_clamp && !r.needs_store && !r.needs_load && !r.needs_validate_guest_char
                && !r.needs_expected && !r.needs_i32_to_f32 && !r.needs_f32_to_i32
                && !r.needs_i64_to_f64 && !r.needs_f64_to_i64 && !r.needs_decode_utf8
                && !r.needs_encode_utf8 && !r.needs_list_canon_lift && !r.needs_list_canon_lower
                && !r.needs_t_typevar && !r.needs_resources,
    {
        Dependencies {
            needs_clamp: false,
            needs_store: false,
            needs_load: false,
            needs_validate_guest_char: false,
            needs_expected: false,
            needs_i32_to_f32: false,
            needs_f32_to_i32: false,
            needs_i64_to_f64: false,
            needs_f64_to_i64: false,
            needs_decode_utf8: false,
            needs_encode_utf8: false,
            needs_list_canon_lift: false,
            needs_list_canon_lower: false,
            needs_t_typevar: false,
            needs_resources: false,
            pyimports: Vec::new(),
        }
    }
}

/// The name as a sequence of characters.
pub open spec fn name_view(name: Option<&str>) -> Option<Seq<char>> {
    match name {
        Some(n) => Some(n@),
        None => None,
    }
}

impl Dependencies {
    /// The imports as plain values.
    pub open spec fn imports(&self) -> Seq<PyImportView> {
        imports_view(self.pyimports@)
    }

    /// Records that a Python import is needed: of `name` from `module`, or,
    /// without a name, of `module` as a whole. A module is imported in one
    /// of the two ways only.
    pub fn pyimport(&mut self, module: &str, name: Option<&str>)
        requires
            !import_conflict(old(self).imports(), module@, name is Some),
        ensures
            final(self).imports() == import_insert(old(self).imports(), module@, name_view(name)),
            *final(self) == (Dependencies { pyimports: final(self).pyimports, ..*old(self) }),
            imports_sorted(old(self).imports()) ==> imports_sorted(final(self).imports()),
    {
        proof {
            if imports_sorted(self.imports()) {
                lemma_import_insert_sorted(self.imports(), module@, name_view(name));
            }
        }
        record_import(&mut self.pyimports, module, name);
    }
}

/// Puts the import of `name` from `module`, or of `module` as a whole, at
/// its place among `imports`.
fn record_import(imports: &mut Vec<PyImport>, module: &str, name: Option<&str>)
    requires
        !import_conflict(imports_view(old(imports)@), module@, name is Some),
    ensures
        imports_view(final(imports)@) == import_insert(
            imports_view(old(imports)@),
            module@,
            name_view(name),
        ),
{
    let key = chars_of(module);
    let ghost all = imports_view(imports@);
    let ghost wanted = name_view(name);
    let mut i: usize = 0;
    assert(all.skip(0) =~= all);
    assert(all.take(0) + import_insert(all, module@, wanted) =~= import_insert(
        all,
        module@,
        wanted,
    ));
    while i < imports.len()
        invariant
            i <= imports@.len(),
            imports@ == old(imports)@,
            all == imports_view(imports@),
            wanted == name_view(name),
            key@ == module@,
            !import_conflict(all.skip(i as int), module@, name is Some),
            import_insert(all, module@, wanted) == all.take(i as int) + import_insert(
                all.skip(i as int),
                module@,
                wanted,
            ),
        decreases imports@.len() - i,
    {
        let here = chars_of(imports[i].module.as_str());
        assert(all.skip(i as int)[0] == imports@[i as int]@);
        assert(all.skip(i as int).drop_first() =~= all.skip(i + 1));
        match order_of(&key, &here) {
            Order::Same => {
                let entry = imports.remove(i);
                let ghost before = entry@;
                let updated = match (entry.names, name) {
                    (Some(names), Some(n)) => {
                        let mut names = names;
                        insert_name(&mut names, n);
                        PyImport { module: entry.module, names: Some(names) }
                    },
                    (names, _) => PyImport { module: entry.module, names },
                };
                assert(updated@ == with_name(before, wanted));
                imports.insert(i, updated);
                assert(imports_view(imports@) =~= all.take(i as int) + (seq![
                    with_name(before, wanted),
                ] + all.skip(i + 1)));
                return ;
            },
            Order::Before => {
                let fresh = PyImport {
                    module: module.to_string(),
                    names: match name {
                        Some(n) => {
                            let mut names: Vec<String> = Vec::new();
                            names.push(n.to_string());
                            assert(names_view(names@) =~= seq![n@]);
                            Some(names)
                        },
                        None => None,
                    },
                };
                assert(fresh@ == fresh_import(module@, wanted));
                imports.insert(i, fresh);
                assert(imports_view(imports@) =~= all.take(i as int) + (seq![
                    fresh_import(module@, wanted),
                ] + all.skip(i as int)));
                return ;
            },
            Order::After => {
                assert(all.take(i as int) + (seq![all[i as int]] + import_insert(
                    all.skip(i + 1),
                    module@,
                    wanted,
                )) =~= all.take(i + 1) + import_insert(all.skip(i + 1), module@, wanted));
                i += 1;
            },
        }
    }
    let fresh = PyImport {
        module: module.to_string(),
        names: match name {
            Some(n) => {
                let mut names: Vec<String> = Vec::new();
                names.push(n.to_string());
                assert(names_view(names@) =~= seq![n@]);
                Some(names)
            },
            None => None,
        },
    };
    assert(fresh@ == fresh_import(module@, wanted));
    imports.push(fresh);
    assert(imports_view(imports@) =~= all.take(i as int) + seq![fresh_import(module@, wanted)]);
}

/// Whether a helper function that `d` asks for takes a name from `typing`.
pub open spec fn uses_typing(d: Dependencies) -> bool {
    d.needs_store || d.needs_load || d.needs_expected || d.needs_encode_utf8
        || d.needs_list_canon_lift || d.needs_list_canon_lower || d.needs_resources
}

/// Whether a helper function that `d` asks for takes a name from
/// `dataclasses`.
pub open spec fn uses_dataclasses(d: Dependencies) -> bool {
    d.needs_expected || d.needs_resources
}

/// Whether a helper function that `d` asks for imports `ctypes`.
pub open spec fn uses_ctypes(d: Dependencies) -> bool {
    d.needs_i32_to_f32 || d.needs_f32_to_i32 || d.needs_i64_to_f64 || d.needs_f64_to_i64
        || d.needs_list_canon_lift
}

/// Whether those of the three modules that are asked for can be imported
/// into `s` in the way the helper functions do it: names from `typing` and
/// `dataclasses`, and `ctypes` as a whole.
#[verifier::opaque]
pub open spec fn modules_fit(s: Seq<PyImportView>, typing: bool, dataclasses: bool, ctypes: bool) -> bool {
    &&& typing ==> !import_conflict(s, "typing"@, true)
    &&& dataclasses ==> !import_conflict(s, "dataclasses"@, true)
    &&& ctypes ==> !import_conflict(s, "ctypes"@, false)
}

/// Whether every module that a helper function asked for by `d` imports can
/// be imported in the way the function does it. A module that no flag of
/// `d` asks for may be imported in either way.
pub open spec fn imports_fit(d: Dependencies) -> bool {
    modules_fit(d.imports(), uses_typing(d), uses_dataclasses(d), uses_ctypes(d))
}

/// The texts of the helper functions in their fixed order, each with
/// whether `d` asks for it.
pub open spec fn text_steps(d: Dependencies) -> Seq<(bool, Seq<char>)> {
    seq![
        (d.needs_clamp, CLAMP@),
        (d.needs_store, STORE@),
        (d.needs_load, LOAD@),
        (d.needs_validate_guest_char, VALIDATE_GUEST_CHAR@),
        (d.needs_expected, EXPECTED@),
        (d.needs_i32_to_f32 || d.needs_f32_to_i32, I32_F32_INT@),
        (d.needs_i32_to_f32 || d.needs_f32_to_i32, I32_F32_FLOAT@),
        (d.needs_i32_to_f32, I32_TO_F32@),
        (d.needs_f32_to_i32, F32_TO_I32@),
        (d.needs_i64_to_f64 || d.needs_f64_to_i64, I64_F64_INT@),
        (d.needs_i64_to_f64 || d.needs_f64_to_i64, I64_F64_FLOAT@),
        (d.needs_i64_to_f64, I64_TO_F64@),
        (d.needs_f64_to_i64, F64_TO_I64@),
        (d.needs_decode_utf8, DECODE_UTF8@),
        (d.needs_encode_utf8, ENCODE_UTF8@),
        (d.needs_list_canon_lift, LIST_CANON_LIFT@),
        (d.needs_list_canon_lower, LIST_CANON_LOWER@),
        (d.needs_resources, RESOURCES@),
    ]
}

/// What the first `n` of `steps` add to an empty source without
/// indentation: the texts that are asked for, in order.
pub open spec fn texts_pushed(steps: Seq<(bool, Seq<char>)>, n: nat) -> Seq<char>
    decreases n,
{
    if n == 0 || n > steps.len() {
        Seq::empty()
    } else if steps[n - 1].0 {
        texts_pushed(steps, (n - 1) as nat) + pushed_text(steps[n - 1].1, 0)
    } else {
        texts_pushed(steps, (n - 1) as nat)
    }
}

/// The text of the helper functions that `d` asks for, in their fixed
/// order.
pub open spec fn intrinsics_text(d: Dependencies) -> Seq<char> {
    texts_pushed(text_steps(d), text_steps(d).len())
}

/// The imports of the helper functions in their fixed order, each with
/// whether `d` asks for it.
pub open spec fn import_steps(d: Dependencies) -> Seq<(bool, Seq<char>, Option<Seq<char>>)> {
    seq![
        (d.needs_store, "typing"@, Some("Callable"@)),
        (d.needs_load, "typing"@, Some("Callable"@)),
        (d.needs_expected, "dataclasses"@, Some("dataclass"@)),
        (d.needs_expected, "typing"@, Some("TypeVar"@)),
        (d.needs_expected, "typing"@, Some("Generic"@)),
        (d.needs_expected, "typing"@, Some("Union"@)),
        (d.needs_i32_to_f32 || d.needs_f32_to_i32, "ctypes"@, None),
        (d.needs_i64_to_f64 || d.needs_f64_to_i64, "ctypes"@, None),
        (d.needs_encode_utf8, "typing"@, Some("Tuple"@)),
        (d.needs_list_canon_lift, "ctypes"@, None),
        (d.needs_list_canon_lift, "typing"@, Some("List"@)),
        (d.needs_list_canon_lift, "typing"@, Some("Callable"@)),
        (d.needs_list_canon_lower, "typing"@, Some("List"@)),
        (d.needs_list_canon_lower, "typing"@, Some("Tuple"@)),
        (d.needs_list_canon_lower, "typing"@, Some("Callable"@)),
        (d.needs_resources, "typing"@, Some("TypeVar"@)),
        (d.needs_resources, "typing"@, Some("Generic"@)),
        (d.needs_resources, "typing"@, Some("List"@)),
        (d.needs_resources, "typing"@, Some("Optional"@)),
        (d.needs_resources, "dataclasses"@, Some("dataclass"@)),
    ]
}

/// The imports `s` after those of the first `n` of `steps` that are asked
/// for were recorded, in order.
pub open spec fn imports_added(
    s: Seq<PyImportView>,
    steps: Seq<(bool, Seq<char>, Option<Seq<char>>)>,
    n: nat,
) -> Seq<PyImportView>
    decreases n,
{
    if n == 0 || n > steps.len() {
        s
    } else if steps[n - 1].0 {
        import_insert(imports_added(s, steps, (n - 1) as nat), steps[n - 1].1, steps[n - 1].2)
    } else {
        imports_added(s, steps, (n - 1) as nat)
    }
}

/// The imports of `d` together with those of the helper functions that `d`
/// asks for.
pub open spec fn intrinsics_imports(d: Dependencies) -> Seq<PyImportView> {
    imports_added(d.imports(), import_steps(d), import_steps(d).len())
}

/// The three modules that the helper functions import are three.
proof fn lemma_modules_differ()
    ensures
        "typing"@ != "dataclasses"@,
        "typing"@ != "ctypes"@,
        "dataclasses"@ != "ctypes"@,
{
    reveal_strlit("typing");
    reveal_strlit("dataclasses");
    reveal_strlit("ctypes");
    assert("typing"@[0] == 't');
    assert("ctypes"@[0] == 'c');
    assert("typing"@.len() == 6);
    assert("dataclasses"@.len() == 11);
    assert("ctypes"@.len() == 6);
}

/// Records the import of step `k`, where it is asked for. `typing`,
/// `dataclasses` and `ctypes` say which of the three modules the helper
/// functions that are asked for import.
fn import_step(
    imports: &mut Vec<PyImport>,
    wanted: bool,
    module: &str,
    name: Option<&str>,
    Ghost(base): Ghost<Seq<PyImportView>>,
    Ghost(steps): Ghost<Seq<(bool, Seq<char>, Option<Seq<char>>)>>,
    Ghost(k): Ghost<nat>,
    Ghost(typing): Ghost<bool>,
    Ghost(dataclasses): Ghost<bool>,
    Ghost(ctypes): Ghost<bool>,
)
    requires
        modules_fit(imports_view(old(imports)@), typing, dataclasses, ctypes),
        (module@ == "typing"@ && name is Some && (wanted ==> typing)) || (module@ == "dataclasses"@
            && name is Some && (wanted ==> dataclasses)) || (module@ == "ctypes"@ && name is None
            && (wanted ==> ctypes)),
        k < steps.len(),
        steps[k as int] == (wanted, module@, name_view(name)),
        imports_view(old(imports)@) == imports_added(base, steps, k),
    ensures
        modules_fit(imports_view(final(imports)@), typing, dataclasses, ctypes),
        imports_view(final(imports)@) == imports_added(base, steps, k + 1),
{
    reveal(modules_fit);
    if wanted {
        proof {
            lemma_modules_differ();
            let s = imports_view(imports@);
            let n = name_view(name);
            if typing {
                lemma_import_insert_fits(s, module@, n, "typing"@, true);
            }
            if dataclasses {
                lemma_import_insert_fits(s, module@, n, "dataclasses"@, true);
            }
            if ctypes {
                lemma_import_insert_fits(s, module@, n, "ctypes"@, false);
            }
        }
        record_import(imports, module, name);
    }
}

/// Adds the helper functions that check and access single values.
fn memory_helpers(
    imports: &mut Vec<PyImport>,
    src: &mut Source,
    needs_clamp: bool,
    needs_store: bool,
    needs_load: bool,
    needs_validate_guest_char: bool,
    Ghost(d): Ghost<Dependencies>,
)
    requires
        needs_clamp == d.needs_clamp,
        needs_store == d.needs_store,
        needs_load == d.needs_load,
        needs_validate_guest_char == d.needs_validate_guest_char,
        modules_fit(
            imports_view(old(imports)@),
            uses_typing(d),
            uses_dataclasses(d),
            uses_ctypes(d),
        ),
        imports_view(old(imports)@) == imports_added(d.imports(), import_steps(d), 0),
        old(src)@.indent == 0,
        old(src)@.text == texts_pushed(text_steps(d), 0),
    ensures
        modules_fit(
            imports_view(final(imports)@),
            uses_typing(d),
            uses_dataclasses(d),
            uses_ctypes(d),
        ),
        imports_view(final(imports)@) == imports_added(d.imports(), import_steps(d), 2),
        final(src)@.indent == 0,
        final(src)@.text == texts_pushed(text_steps(d), 4),
{
    push_step(needs_clamp, src, CLAMP, Ghost(text_steps(d)), Ghost(0));
    import_step(
        imports,
        needs_store,
        "typing",
        Some("Callable"),
        Ghost(d.imports()),
        Ghost(import_steps(d)),
        Ghost(0),
        Ghost(uses_typing(d)),
        Ghost(uses_dataclasses(d)),
        Ghost(uses_ctypes(d)),
    );
    push_step(needs_store, src, STORE, Ghost(text_steps(d)), Ghost(1));
    import_step(
        imports,
        needs_load,
        "typing",
        Some("Callable"),
        Ghost(d.imports()),
        Ghost(import_steps(d)),
        Ghost(1),
        Ghost(uses_typing(d)),
        Ghost(uses_dataclasses(d)),
        Ghost(uses_ctypes(d)),
    );
    push_step(needs_load, src, LOAD, Ghost(text_steps(d)), Ghost(2));
    push_step(needs_validate_guest_char, src, VALIDATE_GUEST_CHAR, Ghost(text_steps(d)), Ghost(3));
}

/// Adds the cases of an expected.
fn expected_helpers(
    imports: &mut Vec<PyImport>,
    src: &mut Source,
    needs_expected: bool,
    Ghost(d): Ghost<Dependencies>,
)
    requires
        needs_expected == d.needs_expected,
        modules_fit(
            imports_view(old(imports)@),
            uses_typing(d),
            uses_dataclasses(d),
            uses_ctypes(d),
        ),
        imports_view(old(imports)@) == imports_added(d.imports(), import_steps(d), 2),
        old(src)@.indent == 0,
        old(src)@.text == texts_pushed(text_steps(d), 4),
    ensures
        modules_fit(
            imports_view(final(imports)@),
            uses_typing(d),
            uses_dataclasses(d),
            uses_ctypes(d),
        ),
        imports_view(final(imports)@) == imports_added(d.imports(), import_steps(d), 6),
        final(src)@.indent == 0,
        final(src)@.text == texts_pushed(text_steps(d), 5),
{
    import_step(
        imports,
        needs_expected,
        "dataclasses",
        Some("dataclass"),
        Ghost(d.imports()),
        Ghost(import_steps(d)),
        Ghost(2),
        Ghost(uses_typing(d)),
        Ghost(uses_dataclasses(d)),
        Ghost(uses_ctypes(d)),
    );
    import_step(
        imports,
        needs_expected,
        "typing",
        Some("TypeVar"),
        Ghost(d.imports()),
        Ghost(import_steps(d)),
        Ghost(3),
        Ghost(uses_typing(d)),
        Ghost(uses_dataclasses(d)),
        Ghost(uses_ctypes(d)),
    );
    import_step(
        imports,
        needs_expected,
        "typing",
        Some("Generic"),
        Ghost(d.imports()),
        Ghost(import_steps(d)),
        Ghost(4),
        Ghost(uses_typing(d)),
        Ghost(uses_dataclasses(d)),
        Ghost(uses_ctypes(d)),
    );
    import_step(
        imports,
        needs_expected,
        "typing",
        Some("Union"),
        Ghost(d.imports()),
        Ghost(import_steps(d)),
        Ghost(5),
        Ghost(uses_typing(d)),
        Ghost(uses_dataclasses(d)),
        Ghost(uses_ctypes(d)),
    );
    push_step(needs_expected, src, EXPECTED, Ghost(text_steps(d)), Ghost(4));
}

/// Adds the helper functions that reinterpret 32-bit values.
fn single_float_helpers(
    imports: &mut Vec<PyImport>,
    src: &mut Source,
    needs_i32_to_f32: bool,
    needs_f32_to_i32: bool,
    Ghost(d): Ghost<Dependencies>,
)
    requires
        needs_i32_to_f32 == d.needs_i32_to_f32,
        needs_f32_to_i32 == d.needs_f32_to_i32,
        modules_fit(
            imports_view(old(imports)@),
            uses_typing(d),
            uses_dataclasses(d),
            uses_ctypes(d),
        ),
        imports_view(old(imports)@) == imports_added(d.imports(), import_steps(d), 6),
        old(src)@.indent == 0,
        old(src)@.text == texts_pushed(text_steps(d), 5),
    ensures
        modules_fit(
            imports_view(final(imports)@),
            uses_typing(d),
            uses_dataclasses(d),
            uses_ctypes(d),
        ),
        imports_view(final(imports)@) == imports_added(d.imports(), import_steps(d), 7),
        final(src)@.indent == 0,
        final(src)@.text == texts_pushed(text_steps(d), 9),
{
    let single = needs_i32_to_f32 || needs_f32_to_i32;
    import_step(
        imports,
        single,
        "ctypes",
        None,
        Ghost(d.imports()),
        Ghost(import_steps(d)),
        Ghost(6),
        Ghost(uses_typing(d)),
        Ghost(uses_dataclasses(d)),
        Ghost(uses_ctypes(d)),
    );
    push_step(single, src, I32_F32_INT, Ghost(text_steps(d)), Ghost(5));
    push_step(single, src, I32_F32_FLOAT, Ghost(text_steps(d)), Ghost(6));
    push_step(needs_i32_to_f32, src, I32_TO_F32, Ghost(text_steps(d)), Ghost(7));
    push_step(needs_f32_to_i32, src, F32_TO_I32, Ghost(text_steps(d)), Ghost(8));
}

/// Adds the helper functions that reinterpret 64-bit values.
fn double_float_helpers(
    imports: &mut Vec<PyImport>,
    src: &mut Source,
    needs_i64_to_f64: bool,
    needs_f64_to_i64: bool,
    Ghost(d): Ghost<Dependencies>,
)
    requires
        needs_i64_to_f64 == d.needs_i64_to_f64,
        needs_f64_to_i64 == d.needs_f64_to_i64,
        modules_fit(
            imports_view(old(imports)@),
            uses_typing(d),
            uses_dataclasses(d),
            uses_ctypes(d),
        ),
        imports_view(old(imports)@) == imports_added(d.imports(), import_steps(d), 7),
        old(src)@.indent == 0,
        old(src)@.text == texts_pushed(text_steps(d), 9),
    ensures
        modules_fit(
            imports_view(final(imports)@),
            uses_typing(d),
            uses_dataclasses(d),
            uses_ctypes(d),
        ),
        imports_view(final(imports)@) == imports_added(d.imports(), import_steps(d), 8),
        final(src)@.indent == 0,
        final(src)@.text == texts_pushed(text_steps(d), 13),
{
    let double = needs_i64_to_f64 || needs_f64_to_i64;
    import_step(
        imports,
        double,
        "ctypes",
        None,
        Ghost(d.imports()),
        Ghost(import_steps(d)),
        Ghost(7),
        Ghost(uses_typing(d)),
        Ghost(uses_dataclasses(d)),
        Ghost(uses_ctypes(d)),
    );
    push_step(double, src, I64_F64_INT, Ghost(text_steps(d)), Ghost(9));
    push_step(double, src, I64_F64_FLOAT, Ghost(text_steps(d)), Ghost(10));
    push_step(needs_i64_to_f64, src, I64_TO_F64, Ghost(text_steps(d)), Ghost(11));
    push_step(needs_f64_to_i64, src, F64_TO_I64, Ghost(text_steps(d)), Ghost(12));
}

/// Adds the helper functions of strings.
fn string_helpers(
    imports: &mut Vec<PyImport>,
    src: &mut Source,
    needs_decode_utf8: bool,
    needs_encode_utf8: bool,
    Ghost(d): Ghost<Dependencies>,
)
    requires
        needs_decode_utf8 == d.needs_decode_utf8,
        needs_encode_utf8 == d.needs_encode_utf8,
        modules_fit(
            imports_view(old(imports)@),
            uses_typing(d),
            uses_dataclasses(d),
            uses_ctypes(d),
        ),
        imports_view(old(imports)@) == imports_added(d.imports(), import_steps(d), 8),
        old(src)@.indent == 0,
        old(src)@.text == texts_pushed(text_steps(d), 13),
    ensures
        modules_fit(
            imports_view(final(imports)@),
            uses_typing(d),
            uses_dataclasses(d),
            uses_ctypes(d),
        ),
        imports_view(final(imports)@) == imports_added(d.imports(), import_steps(d), 9),
        final(src)@.indent == 0,
        final(src)@.text == texts_pushed(text_steps(d), 15),
{
    push_step(needs_decode_utf8, src, DECODE_UTF8, Ghost(text_steps(d)), Ghost(13));
    import_step(
        imports,
        needs_encode_utf8,
        "typing",
        Some("Tuple"),
        Ghost(d.imports()),
        Ghost(import_steps(d)),
        Ghost(8),
        Ghost(uses_typing(d)),
        Ghost(uses_dataclasses(d)),
        Ghost(uses_ctypes(d)),
    );
    push_step(needs_encode_utf8, src, ENCODE_UTF8, Ghost(text_steps(d)), Ghost(14));
}

/// Adds the helper functions of lists.
fn list_helpers(
    imports: &mut Vec<PyImport>,
    src: &mut Source,
    needs_list_canon_lift: bool,
    needs_list_canon_lower: bool,
    Ghost(d): Ghost<Dependencies>,
)
    requires
        needs_list_canon_lift == d.needs_list_canon_lift,
        needs_list_canon_lower == d.needs_list_canon_lower,
        modules_fit(
            imports_view(old(imports)@),
            uses_typing(d),
            uses_dataclasses(d),
            uses_ctypes(d),
        ),
        imports_view(old(imports)@) == imports_added(d.imports(), import_steps(d), 9),
        old(src)@.indent == 0,
        old(src)@.text == texts_pushed(text_steps(d), 15),
    ensures
        modules_fit(
            imports_view(final(imports)@),
            uses_typing(d),
            uses_dataclasses(d),
            uses_ctypes(d),
        ),
        imports_view(final(imports)@) == imports_added(d.imports(), import_steps(d), 15),
        final(src)@.indent == 0,
        final(src)@.text == texts_pushed(text_steps(d), 17),
{
    import_step(
        imports,
        needs_list_canon_lift,
        "ctypes",
        None,
        Ghost(d.imports()),
        Ghost(import_steps(d)),
        Ghost(9),
        Ghost(uses_typing(d)),
        Ghost(uses_dataclasses(d)),
        Ghost(uses_ctypes(d)),
    );
    import_step(
        imports,
        needs_list_canon_lift,
        "typing",
        Some("List"),
        Ghost(d.imports()),
        Ghost(import_steps(d)),
        Ghost(10),
        Ghost(uses_typing(d)),
        Ghost(uses_dataclasses(d)),
        Ghost(uses_ctypes(d)),
    );
    import_step(
        imports,
        needs_list_canon_lift,
        "typing",
        Some("Callable"),
        Ghost(d.imports()),
        Ghost(import_steps(d)),
        Ghost(11),
        Ghost(uses_typing(d)),
        Ghost(uses_dataclasses(d)),
        Ghost(uses_ctypes(d)),
    );
    push_step(needs_list_canon_lift, src, LIST_CANON_LIFT, Ghost(text_steps(d)), Ghost(15));
    import_step(
        imports,
        needs_list_canon_lower,
        "typing",
        Some("List"),
        Ghost(d.imports()),
        Ghost(import_steps(d)),
        Ghost(12),
        Ghost(uses_typing(d)),
        Ghost(uses_dataclasses(d)),
        Ghost(uses_ctypes(d)),
    );
    import_step(
        imports,
        needs_list_canon_lower,
        "typing",
        Some("Tuple"),
        Ghost(d.imports()),
        Ghost(import_steps(d)),
        Ghost(13),
        Ghost(uses_typing(d)),
        Ghost(uses_dataclasses(d)),
        Ghost(uses_ctypes(d)),
    );
    import_step(
        imports,
        needs_list_canon_lower,
        "typing",
        Some("Callable"),
        Ghost(d.imports()),
        Ghost(import_steps(d)),
        Ghost(14),
        Ghost(uses_typing(d)),
        Ghost(uses_dataclasses(d)),
        Ghost(uses_ctypes(d)),
    );
    push_step(needs_list_canon_lower, src, LIST_CANON_LOWER, Ghost(text_steps(d)), Ghost(16));
}

/// Adds the table of handles.
fn resource_helpers(
    imports: &mut Vec<PyImport>,
    src: &mut Source,
    needs_resources: bool,
    Ghost(d): Ghost<Dependencies>,
)
    requires
        needs_resources == d.needs_resources,
        modules_fit(
            imports_view(old(imports)@),
            uses_typing(d),
            uses_dataclasses(d),
            uses_ctypes(d),
        ),
        imports_view(old(imports)@) == imports_added(d.imports(), import_steps(d), 15),
        old(src)@.indent == 0,
        old(src)@.text == texts_pushed(text_steps(d), 17),
    ensures
        modules_fit(
            imports_view(final(imports)@),
            uses_typing(d),
            uses_dataclasses(d),
            uses_ctypes(d),
        ),
        imports_view(final(imports)@) == imports_added(d.imports(), import_steps(d), 20),
        final(src)@.indent == 0,
        final(src)@.text == texts_pushed(text_steps(d), 18),
{
    import_step(
        imports,
        needs_resources,
        "typing",
        Some("TypeVar"),
        Ghost(d.imports()),
        Ghost(import_steps(d)),
        Ghost(15),
        Ghost(uses_typing(d)),
        Ghost(uses_dataclasses(d)),
        Ghost(uses_ctypes(d)),
    );
    import_step(
        imports,
        needs_resources,
        "typing",
        Some("Generic"),
        Ghost(d.imports()),
        Ghost(import_steps(d)),
        Ghost(16),
        Ghost(uses_typing(d)),
        Ghost(uses_dataclasses(d)),
        Ghost(uses_ctypes(d)),
    );
    import_step(
        imports,
        needs_resources,
        "typing",
        Some("List"),
        Ghost(d.imports()),
        Ghost(import_steps(d)),
        Ghost(17),
        Ghost(uses_typing(d)),
        Ghost(uses_dataclasses(d)),
        Ghost(uses_ctypes(d)),
    );
    import_step(
        imports,
        needs_resources,
        "typing",
        Some("Optional"),
        Ghost(d.imports()),
        Ghost(import_steps(d)),
        Ghost(18),
        Ghost(uses_typing(d)),
        Ghost(uses_dataclasses(d)),
        Ghost(uses_ctypes(d)),
    );
    import_step(
        imports,
        needs_resources,
        "dataclasses",
        Some("dataclass"),
        Ghost(d.imports()),
        Ghost(import_steps(d)),
        Ghost(19),
        Ghost(uses_typing(d)),
        Ghost(uses_dataclasses(d)),
        Ghost(uses_ctypes(d)),
    );
    push_step(needs_resources, src, RESOURCES, Ghost(text_steps(d)), Ghost(17));
}

impl Dependencies {
    /// The source of all the helper functions that are needed, in a fixed
    /// order. The imports of those functions are recorded, and so is the
    /// need of the type variable `T` where one of them is generic.
    #[verifier::rlimit(50)]
    pub fn intrinsics(&mut self) -> (src: Source)
        requires
            imports_fit(*old(self)),
        ensures
            src@.text == intrinsics_text(*old(self)),
            src@.indent == 0,
            final(self).imports() == intrinsics_imports(*old(self)),
            imports_fit(*final(self)),
            *final(self) == (Dependencies {
                pyimports: final(self).pyimports,
                needs_t_typevar: old(self).needs_t_typevar || old(self).needs_expected || old(
                    self,
                ).needs_resources,
                ..*old(self)
            }),
    {
        let ghost d = *self;
        let needs_clamp = self.needs_clamp;
        let needs_store = self.needs_store;
        let needs_load = self.needs_load;
        let needs_validate_guest_char = self.needs_validate_guest_char;
        let needs_expected = self.needs_expected;
        let needs_i32_to_f32 = self.needs_i32_to_f32;
        let needs_f32_to_i32 = self.needs_f32_to_i32;
        let needs_i64_to_f64 = self.needs_i64_to_f64;
        let needs_f64_to_i64 = self.needs_f64_to_i64;
        let needs_decode_utf8 = self.needs_decode_utf8;
        let needs_encode_utf8 = self.needs_encode_utf8;
        let needs_list_canon_lift = self.needs_list_canon_lift;
        let needs_list_canon_lower = self.needs_list_canon_lower;
        let needs_resources = self.needs_resources;
        let mut imports: Vec<PyImport> = Vec::new();
        std::mem::swap(&mut imports, &mut self.pyimports);
        let mut src = Source::new();
        assert(src@.text =~= Seq::<char>::empty());
        memory_helpers(
            &mut imports,
            &mut src,
            needs_clamp,
            needs_store,
            needs_load,
            needs_validate_guest_char,
            Ghost(d),
        );
        expected_helpers(
            &mut imports,
            &mut src,
            needs_expected,
            Ghost(d),
        );
        single_float_helpers(
            &mut imports,
            &mut src,
            needs_i32_to_f32,
            needs_f32_to_i32,
            Ghost(d),
        );
        double_float_helpers(
            &mut imports,
            &mut src,
            needs_i64_to_f64,
            needs_f64_to_i64,
            Ghost(d),
        );
        string_helpers(
            &mut imports,
            &mut src,
            needs_decode_utf8,
            needs_encode_utf8,
            Ghost(d),
        );
        list_helpers(
            &mut imports,
            &mut src,
            needs_list_canon_lift,
            needs_list_canon_lower,
            Ghost(d),
        );
        resource_helpers(
            &mut imports,
            &mut src,
            needs_resources,
            Ghost(d),
        );
        self.pyimports = imports;
        if needs_expected || needs_resources {
            self.needs_t_typevar = true;
        }
        src
    }
}

/// Appends the text of step `k` to `src`, where it is asked for.
fn push_step(
    wanted: bool,
    src: &mut Source,
    text: &str,
    Ghost(steps): Ghost<Seq<(bool, Seq<char>)>>,
    Ghost(k): Ghost<nat>,
)
    requires
        old(src)@.indent == 0,
        k < steps.len(),
        steps[k as int] == (wanted, text@),
        old(src)@.text == texts_pushed(steps, k),
    ensures
        final(src)@.text == texts_pushed(steps, k + 1),
        final(src)@.indent == 0,
{
    if wanted {
        src.push_str(text);
    }
}

/// Where nothing is imported yet, the imports of every helper function
/// fit.
pub proof fn lemma_no_imports_fit(d: Dependencies)
    requires
        d.imports().len() == 0,
    ensures
        imports_fit(d),
{
    reveal(modules_fit);
}

/// Where none of the three modules is imported in the other way, the
/// imports of every helper function fit, whatever is asked for.
pub proof fn lemma_imports_fit(d: Dependencies)
    requires
        !import_conflict(d.imports(), "typing"@, true),
        !import_conflict(d.imports(), "dataclasses"@, true),
        !import_conflict(d.imports(), "ctypes"@, false),
    ensures
        imports_fit(d),
{
    reveal(modules_fit);
}

/// Whether `e` is the import of `module` and takes `name` from it.
pub open spec fn takes_name(e: PyImportView, module: Seq<char>, name: Seq<char>) -> bool {
    e.module == module && e.names is Some && e.names->0.contains(name)
}

/// Whether `name` is among the names that `s` takes from `module`.
pub open spec fn imports_name(s: Seq<PyImportView>, module: Seq<char>, name: Seq<char>) -> bool
    decreases s.len(),
{
    if s.len() == 0 {
        false
    } else {
        takes_name(s[0], module, name) || imports_name(s.drop_first(), module, name)
    }
}

/// A name put at its place is in the list, and so is every name that was.
pub proof fn lemma_sorted_insert_holds(s: Seq<Seq<char>>, x: Seq<char>, y: Seq<char>)
    ensures
        sorted_insert(s, x).contains(x),
        s.contains(y) ==> sorted_insert(s, x).contains(y),
    decreases s.len(),
{
    let r = sorted_insert(s, x);
    if s.len() == 0 {
        assert(r[0] == x);
    } else if s[0] == x {
        assert(s[0] == x);
    } else if seq_lt(x, s[0]) {
        assert(r[0] == x);
        if s.contains(y) {
            let i = choose|i: int| 0 <= i < s.len() && s[i] == y;
            assert(r[i + 1] == y);
        }
    } else {
        let rest = s.drop_first();
        lemma_sorted_insert_holds(rest, x, y);
        let inner = sorted_insert(rest, x);
        let i = choose|i: int| 0 <= i < inner.len() && inner[i] == x;
        assert(r[i + 1] == x);
        if s.contains(y) {
            let j = choose|j: int| 0 <= j < s.len() && s[j] == y;
            if j == 0 {
                assert(r[0] == y);
            } else {
                assert(rest[j - 1] == y);
                let k = choose|k: int| 0 <= k < inner.len() && inner[k] == y;
                assert(r[k + 1] == y);
            }
        }
    }
}

/// An import leaves every name that was imported before.
pub proof fn lemma_import_insert_keeps(
    s: Seq<PyImportView>,
    other: Seq<char>,
    taken: Option<Seq<char>>,
    module: Seq<char>,
    name: Seq<char>,
)
    requires
        imports_name(s, module, name),
    ensures
        imports_name(import_insert(s, other, taken), module, name),
    decreases s.len(),
{
    let r = import_insert(s, other, taken);
    if s.len() == 0 {
    } else if s[0].module == other {
        assert(r.drop_first() =~= s.drop_first());
        if takes_name(s[0], module, name) {
            if taken is Some {
                lemma_sorted_insert_holds(s[0].names->0, taken->0, name);
            }
        }
    } else if seq_lt(other, s[0].module) {
        assert(r.drop_first() =~= s);
    } else {
        assert(r.drop_first() =~= import_insert(s.drop_first(), other, taken));
        if !takes_name(s[0], module, name) {
            lemma_import_insert_keeps(s.drop_first(), other, taken, module, name);
        }
    }
}

/// A name that is taken from a module is imported, unless the module is
/// imported as a whole.
pub proof fn lemma_import_insert_takes(s: Seq<PyImportView>, module: Seq<char>, name: Seq<char>)
    requires
        !import_conflict(s, module, true),
    ensures
        imports_name(import_insert(s, module, Some(name)), module, name),
    decreases s.len(),
{
    let r = import_insert(s, module, Some(name));
    if s.len() == 0 {
        assert(r[0].names->0[0] == name);
    } else if s[0].module == module {
        lemma_sorted_insert_holds(s[0].names->0, name, name);
    } else if seq_lt(module, s[0].module) {
        assert(r[0].names->0[0] == name);
    } else {
        assert(r.drop_first() =~= import_insert(s.drop_first(), module, Some(name)));
        lemma_import_insert_takes(s.drop_first(), module, name);
    }
}

/// What is imported after some steps is imported after more of them.
pub proof fn lemma_imports_added_keep(
    s: Seq<PyImportView>,
    steps: Seq<(bool, Seq<char>, Option<Seq<char>>)>,
    n: nat,
    m: nat,
    module: Seq<char>,
    name: Seq<char>,
)
    requires
        n <= m <= steps.len(),
        imports_name(imports_added(s, steps, n), module, name),
    ensures
        imports_name(imports_added(s, steps, m), module, name),
    decreases m,
{
    if n < m {
        lemma_imports_added_keep(s, steps, n, (m - 1) as nat, module, name);
        if steps[m - 1].0 {
            lemma_import_insert_keeps(
                imports_added(s, steps, (m - 1) as nat),
                steps[m - 1].1,
                steps[m - 1].2,
                module,
                name,
            );
        }
    }
}

/// The helper functions that load and store with a check of the bounds
/// take `Callable` from `typing`: where one of the two is asked for and the
/// imports fit, it is among the imports afterwards.
pub proof fn lemma_access_imports_callable(d: Dependencies)
    requires
        d.needs_load || d.needs_store,
        imports_fit(d),
    ensures
        imports_name(intrinsics_imports(d), "typing"@, "Callable"@),
{
    reveal(modules_fit);
    let s = d.imports();
    let steps = import_steps(d);
    assert(steps.len() == 20);
    assert(steps[0] == (d.needs_store, "typing"@, Some("Callable"@)));
    assert(steps[1] == (d.needs_load, "typing"@, Some("Callable"@)));
    assert(imports_added(s, steps, 0) == s);
    lemma_import_insert_takes(s, "typing"@, "Callable"@);
    if d.needs_store {
        assert(imports_added(s, steps, 1) == import_insert(s, "typing"@, Some("Callable"@)));
        lemma_imports_added_keep(s, steps, 1, 20, "typing"@, "Callable"@);
    } else {
        assert(imports_added(s, steps, 1) == s);
        assert(imports_added(s, steps, 2) == import_insert(s, "typing"@, Some("Callable"@)));
        lemma_imports_added_keep(s, steps, 2, 20, "typing"@, "Callable"@);
    }
}

/// Whether `module` is imported among `imports` in the other way than
/// `named` says.
fn conflict_among(imports: &Vec<PyImport>, module: &str, named: bool) -> (r: bool)
    ensures
        r == import_conflict(imports_view(imports@), module@, named),
{
    let ghost all = imports_view(imports@);
    let mut i: usize = 0;
    assert(all.skip(0) =~= all);
    while i < imports.len()
        invariant
            i <= imports@.len(),
            all == imports_view(imports@),
            import_conflict(all, module@, named) == import_conflict(all.skip(i as int), module@, named),
        decreases imports@.len() - i,
    {
        let ghost rest = all.skip(i as int);
        assert(rest[0] == imports@[i as int]@);
        assert(rest.drop_first() =~= all.skip(i + 1));
        let by_names = match &imports[i].names {
            Some(_) => true,
            None => false,
        };
        if same_str(imports[i].module.as_str(), module) && by_names != named {
            return true;
        }
        i += 1;
    }
    false
}

impl Dependencies {
    /// Whether `module` is imported in the other way already: as a whole
    /// where a name is to be taken from it (`named`), or by names where it
    /// is to be imported as a whole. An import that conflicts is not to be
    /// recorded.
    pub fn conflicts(&self, module: &str, named: bool) -> (r: bool)
        ensures
            r == import_conflict(self.imports(), module@, named),
    {
        conflict_among(&self.pyimports, module, named)
    }

    /// Whether the helper functions that are asked for can record their
    /// imports: none of them imports a module in the other way than it is
    /// imported already.
    pub fn fits(&self) -> (r: bool)
        ensures
            r == imports_fit(*self),
    {
        reveal(modules_fit);
        let typing = self.needs_store || self.needs_load || self.needs_expected
            || self.needs_encode_utf8 || self.needs_list_canon_lift || self.needs_list_canon_lower
            || self.needs_resources;
        let dataclasses = self.needs_expected || self.needs_resources;
        let ctypes = self.needs_i32_to_f32 || self.needs_f32_to_i32 || self.needs_i64_to_f64
            || self.needs_f64_to_i64 || self.needs_list_canon_lift;
        if typing && conflict_among(&self.pyimports, "typing", true) {
            return false;
        }
        if dataclasses && conflict_among(&self.pyimports, "dataclasses", true) {
            return false;
        }
        if ctypes && conflict_among(&self.pyimports, "ctypes", false) {
            return false;
        }
        true
    }
}

} // verus!
