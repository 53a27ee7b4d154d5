//! The table that stands behind handles: an array of slots with a free
//! list threaded through the empty ones.

use vstd::prelude::*;

verus! {

/// A handle was used that names no occupied slot of its table.
#[derive(Clone, Copy, Debug, PartialEq, Eq, Structural)]
pub enum HandleError {
    Invalid,
}

/// One slot of a table: free, and linked to the next free slot, or holding
/// a value.
pub enum Entry<T> {
    Free { next: usize },
    Occupied { value: T },
}

/// What a table holds: per slot the value, if there is one, and the free
/// slots in the order in which they will be handed out again.
pub struct SlabView<T> {
    pub slots: Seq<Option<T>>,
    pub free: Seq<nat>,
}

/// Whether the slot at `idx` exists and holds a value.
pub open spec fn occupied<T>(v: SlabView<T>, idx: nat) -> bool {
    idx < v.slots.len() && v.slots[idx as int] is Some
}

/// The free list names empty slots of the table, each once.
pub open spec fn view_wf<T>(v: SlabView<T>) -> bool {
    &&& v.free.no_duplicates()
    &&& forall|i: int|
        0 <= i < v.free.len() ==> (#[trigger] v.free[i]) < v.slots.len() && v.slots[v.free[i] as int]
            is None
}

/// The table after `item` went in, and the slot it went to: the first of
/// the free list, or a new slot at the end when no slot is free.
pub open spec fn spec_insert<T>(v: SlabView<T>, item: T) -> (SlabView<T>, nat) {
    if v.free.len() == 0 {
        (SlabView { slots: v.slots.push(Some(item)), free: v.free }, v.slots.len())
    } else {
        (
            SlabView {
                slots: v.slots.update(v.free[0] as int, Some(item)),
                free: v.free.drop_first(),
            },
            v.free[0],
        )
    }
}

/// The table after the value at `idx` was taken out: the slot is empty and
/// first in the free list. A slot that holds nothing leaves the table as it
/// is.
pub open spec fn spec_remove<T>(v: SlabView<T>, idx: nat) -> SlabView<T> {
    if occupied(v, idx) {
        SlabView { slots: v.slots.update(idx as int, None), free: seq![idx] + v.free }
    } else {
        v
    }
}

/// The table after all of `items` went in, one after another, and the slots
/// they went to.
pub open spec fn insert_all<T>(v: SlabView<T>, items: Seq<T>) -> (SlabView<T>, Seq<nat>)
    decreases items.len(),
{
    if items.len() == 0 {
        (v, Seq::empty())
    } else {
        let first = spec_insert(v, items[0]);
        let rest = insert_all(first.0, items.drop_first());
        (rest.0, seq![first.1] + rest.1)
    }
}

/// The table after the values at `order` were taken out, one after another.
pub open spec fn remove_all<T>(v: SlabView<T>, order: Seq<nat>) -> SlabView<T>
    decreases order.len(),
{
    if order.len() == 0 {
        v
    } else {
        remove_all(spec_remove(v, order[0]), order.drop_first())
    }
}

/// A growable table of values, each known by the index of its slot. Freed
/// slots are reused, the last freed first. An index carries no generation:
/// one that was freed and handed out again names the new value.
pub struct Slab<T> {
    entries: Vec<Entry<T>>,
    head: usize,
    free: Ghost<Seq<nat>>,
}

impl<T> View for Slab<T> {
    type V = SlabView<T>;

    closed spec fn view(&self) -> SlabView<T> {
        SlabView {
            slots: Seq::new(
                self.entries@.len(),
                |i: int|
                    match self.entries@[i] {
                        Entry::Occupied { value } => Some(value),
                        Entry::Free { .. } => None,
                    },
            ),
            free: self.free@,
        }
    }
}

impl<T> Slab<T> {
    /// The links between the free slots are those of the free list: `head`
    /// is its first slot, each free slot points to the one after it, and the
    /// last points past the end of the table.
    pub closed spec fn linked(&self) -> bool {
        let f = self.free@;
        let n = self.entries@.len();
        &&& (f.len() == 0 ==> self.head == n)
        &&& (f.len() > 0 ==> self.head == f[0])
        &&& forall|i: int|
            0 <= i < f.len() ==> (#[trigger] f[i]) < n && self.entries@[f[i] as int]
                == Entry::<T>::Free {
                next: if i + 1 < f.len() {
                    f[i + 1] as usize
                } else {
                    n as usize
                },
            }
    }

    /// The table is sound: its free slots are linked as the free list says,
    /// and no slot has an index beyond 32 bits.
    pub open spec fn wf(&self) -> bool {
        &&& self.linked()
        &&& view_wf(self@)
        &&& self@.slots.len() <= u32::MAX
    }

    /// Whether the next value needs a slot that a 32-bit index cannot name.
    pub open spec fn spec_is_full(&self) -> bool {
        self@.free.len() == 0 && self@.slots.len() >= u32::MAX
    }

    pub fn is_full(&self) -> (r: bool)
        requires
            self.wf(),
        ensures
            r == self.spec_is_full(),
    {
        let n = self.entries.len();
        proof {
            if self.free@.len() > 0 {
                assert(self.free@[0] < n);
            }
        }
        self.head >= n && n >= u32::MAX as usize
    }

    /// A table without slots.
    pub fn new() -> (s: Slab<T>)
        ensures
            s.wf(),
            s@.slots.len() == 0,
            s@.free.len() == 0,
    {
        Slab { entries: Vec::new(), head: 0, free: Ghost(Seq::empty()) }
    }

    /// The number of slots, free or not.
    pub fn capacity(&self) -> (n: usize)
        ensures
            n == self@.slots.len(),
    {
        self.entries.len()
    }

    /// Puts `item` into the slot freed last, or into a new slot at the end
    /// when none is free, and returns the slot's index.
    pub fn insert(&mut self, item: T) -> (idx: u32)
        requires
            old(self).wf(),
            !old(self).spec_is_full(),
        ensures
            final(self).wf(),
            final(self)@ == spec_insert(old(self)@, item).0,
            idx == spec_insert(old(self)@, item).1,
    {
        let n = self.entries.len();
        if self.head >= n {
            self.entries.push(Entry::Occupied { value: item });
            self.head = n + 1;
            assert(self@.slots =~= old(self)@.slots.push(Some(item)));
            n as u32
        } else {
            let idx = self.head;
            let next = match &self.entries[idx] {
                Entry::Free { next } => *next,
                Entry::Occupied { .. } => idx,
            };
            assert(old(self).free@[0] == idx);
            self.entries.set(idx, Entry::Occupied { value: item });
            self.head = next;
            self.free = Ghost(self.free@.drop_first());
            assert(self@.slots =~= old(self)@.slots.update(idx as int, Some(item)));
            proof {
                let f = old(self).free@;
                let g = self.free@;
                assert forall|i: int| 0 <= i < g.len() implies (#[trigger] g[i])
                    < self.entries@.len() && self.entries@[g[i] as int] == Entry::<T>::Free {
                    next: if i + 1 < g.len() {
                        g[i + 1] as usize
                    } else {
                        self.entries@.len() as usize
                    },
                } by {
                    assert(g[i] == f[i + 1]);
                    assert(f[i + 1] != f[0]);
                }
                assert forall|i: int| 0 <= i < g.len() implies (#[trigger] g[i])
                    < self@.slots.len() && self@.slots[g[i] as int] is None by {
                    assert(g[i] == f[i + 1]);
                    assert(f[i + 1] != f[0]);
                }
                assert(g.no_duplicates()) by {
                    assert forall|i: int, j: int| 0 <= i < g.len() && 0 <= j < g.len() && i != j
                        implies g[i] != g[j] by {
                        assert(g[i] == f[i + 1]);
                        assert(g[j] == f[j + 1]);
                    }
                }
            }
            idx as u32
        }
    }

    /// The value in the slot at `idx`.
    pub fn get(&self, idx: u32) -> (r: Result<&T, HandleError>)
        ensures
            match r {
                Ok(value) => occupied(self@, idx as nat) && self@.slots[idx as int] == Some(*value),
                Err(e) => !occupied(self@, idx as nat) && e == HandleError::Invalid,
            },
    {
        let i = idx as usize;
        if i >= self.entries.len() {
            return Err(HandleError::Invalid);
        }
        match &self.entries[i] {
            Entry::Occupied { value } => Ok(value),
            Entry::Free { .. } => Err(HandleError::Invalid),
        }
    }

    /// Puts `value` in place of the value in the slot at `idx` and returns
    /// the value that was there. An index that names no value gets `value`
    /// back as the error.
    pub fn replace(&mut self, idx: u32, value: T) -> (r: Result<T, T>)
        requires
            old(self).wf(),
        ensures
            final(self).wf(),
            match r {
                Ok(before) => {
                    &&& occupied(old(self)@, idx as nat)
                    &&& old(self)@.slots[idx as int] == Some(before)
                    &&& final(self)@.slots == old(self)@.slots.update(idx as int, Some(value))
                    &&& final(self)@.free == old(self)@.free
                },
                Err(back) => {
                    &&& !occupied(old(self)@, idx as nat)
                    &&& back == value
                    &&& final(self)@ == old(self)@
                },
            },
    {
        let i = idx as usize;
        if i >= self.entries.len() {
            return Err(value);
        }
        let is_free = match &self.entries[i] {
            Entry::Free { .. } => true,
            Entry::Occupied { .. } => false,
        };
        if is_free {
            return Err(value);
        }
        let mut slot = Entry::Occupied { value };
        self.entries.set_and_swap(i, &mut slot);
        assert(self@.slots =~= old(self)@.slots.update(idx as int, Some(value)));
        proof {
            let f = self.free@;
            assert forall|k: int| 0 <= k < f.len() implies f[k] != i by {
                assert(old(self)@.slots[f[k] as int] is None);
            }
        }
        match slot {
            Entry::Occupied { value: before } => Ok(before),
            Entry::Free { .. } => vstd::pervasive::unreached(),
        }
    }

    /// Takes the value out of the slot at `idx`. The slot becomes the first
    /// to be reused.
    pub fn remove(&mut self, idx: u32) -> (r: Result<T, HandleError>)
        requires
            old(self).wf(),
        ensures
            final(self).wf(),
            final(self)@ == spec_remove(old(self)@, idx as nat),
            match r {
                Ok(value) => occupied(old(self)@, idx as nat) && old(self)@.slots[idx as int]
                    == Some(value),
                Err(e) => !occupied(old(self)@, idx as nat) && e == HandleError::Invalid,
            },
    {
        let i = idx as usize;
        if i >= self.entries.len() {
            return Err(HandleError::Invalid);
        }
        let mut slot = Entry::Free { next: self.head };
        self.entries.set_and_swap(i, &mut slot);
        match slot {
            Entry::Occupied { value } => {
                self.head = i;
                self.free = Ghost(seq![i as nat] + self.free@);
                assert(self@.slots =~= old(self)@.slots.update(i as int, None));
                proof {
                    let f = old(self).free@;
                    let g = self.free@;
                    assert forall|k: int| 0 <= k < f.len() implies f[k] != i by {
                        assert(old(self)@.slots[f[k] as int] is None);
                    }
                    assert forall|k: int| 0 <= k < g.len() implies (#[trigger] g[k])
                        < self.entries@.len() && self.entries@[g[k] as int] == Entry::<T>::Free {
                        next: if k + 1 < g.len() {
                            g[k + 1] as usize
                        } else {
                            self.entries@.len() as usize
                        },
                    } by {
                        if k > 0 {
                            assert(g[k] == f[k - 1]);
                        }
                    }
                    assert forall|k: int| 0 <= k < g.len() implies (#[trigger] g[k])
                        < self@.slots.len() && self@.slots[g[k] as int] is None by {
                        if k > 0 {
                            assert(g[k] == f[k - 1]);
                        }
                    }
                    assert(g.no_duplicates()) by {
                        assert forall|a: int, b: int|
                            0 <= a < g.len() && 0 <= b < g.len() && a != b implies g[a] != g[b] by {
                            if a > 0 {
                                assert(g[a] == f[a - 1]);
                            }
                            if b > 0 {
                                assert(g[b] == f[b - 1]);
                            }
                        }
                    }
                }
                Ok(value)
            },
            Entry::Free { next } => {
                self.entries.set(i, Entry::Free { next });
                assert(self.entries@ =~= old(self).entries@);
                assert(self@.slots =~= old(self)@.slots);
                Err(HandleError::Invalid)
            },
        }
    }
}

/// What goes wrong with a shared resource.
#[derive(Clone, Copy, Debug, PartialEq, Eq, Structural)]
pub enum ResourceError {
    /// The handle names nothing.
    Invalid,
    /// The resource has as many references as a 32-bit count holds.
    CountOverflow,
    /// The table has as many slots as a 32-bit index names.
    Full,
}

/// The index of a resource in a table of resources.
#[derive(Clone, Copy, Debug, PartialEq, Eq, Structural)]
pub struct ResourceIndex(pub u32);

/// A resource shared between handles: the value the guest knows it by, and
/// the number of references to it.
#[derive(Clone, Copy, Debug, PartialEq, Eq, Structural)]
pub struct Resource {
    pub wasm: i32,
    pub refcnt: u32,
}

/// The outer table of a shareable resource type: one slot per handle that is
/// visible outside, each naming a resource of the inner table.
pub struct IndexSlab {
    slab: Slab<ResourceIndex>,
}

impl View for IndexSlab {
    type V = SlabView<ResourceIndex>;

    closed spec fn view(&self) -> SlabView<ResourceIndex> {
        self.slab@
    }
}

impl IndexSlab {
    pub closed spec fn wf(&self) -> bool {
        self.slab.wf()
    }

    pub closed spec fn spec_is_full(&self) -> bool {
        self.slab.spec_is_full()
    }

    /// What a sound table says of its view: the free list names empty
    /// slots, each once, no slot has an index beyond 32 bits, and the table
    /// is full when no slot is free and none can be added.
    pub proof fn lemma_wf(&self)
        requires
            self.wf(),
        ensures
            view_wf(self@),
            self@.slots.len() <= u32::MAX,
            self.spec_is_full() == (self@.free.len() == 0 && self@.slots.len() >= u32::MAX),
    {
    }

    pub fn new() -> (s: IndexSlab)
        ensures
            s.wf(),
            s@.slots.len() == 0,
            s@.free.len() == 0,
    {
        IndexSlab { slab: Slab::new() }
    }

    pub fn is_full(&self) -> (r: bool)
        requires
            self.wf(),
        ensures
            r == self.spec_is_full(),
    {
        self.slab.is_full()
    }

    /// Makes a new handle for `resource`.
    pub fn insert(&mut self, resource: ResourceIndex) -> (idx: u32)
        requires
            old(self).wf(),
            !old(self).spec_is_full(),
        ensures
            final(self).wf(),
            final(self)@ == spec_insert(old(self)@, resource).0,
            idx == spec_insert(old(self)@, resource).1,
    {
        self.slab.insert(resource)
    }

    /// The resource that the handle `idx` names.
    pub fn get(&self, idx: u32) -> (r: Result<ResourceIndex, HandleError>)
        ensures
            match r {
                Ok(resource) => occupied(self@, idx as nat) && self@.slots[idx as int] == Some(
                    resource,
                ),
                Err(e) => !occupied(self@, idx as nat) && e == HandleError::Invalid,
            },
    {
        match self.slab.get(idx) {
            Ok(resource) => Ok(*resource),
            Err(e) => Err(e),
        }
    }

    /// Gives up the handle `idx` and returns the resource that it named.
    pub fn remove(&mut self, idx: u32) -> (r: Result<ResourceIndex, HandleError>)
        requires
            old(self).wf(),
        ensures
            final(self).wf(),
            final(self)@ == spec_remove(old(self)@, idx as nat),
            match r {
                Ok(resource) => occupied(old(self)@, idx as nat) && old(self)@.slots[idx as int]
                    == Some(resource),
                Err(e) => !occupied(old(self)@, idx as nat) && e == HandleError::Invalid,
            },
    {
        self.slab.remove(idx)
    }
}

/// The inner table of a shareable resource type: the resources themselves,
/// each with the number of references to it.
pub struct ResourceSlab {
    slab: Slab<Resource>,
}

impl View for ResourceSlab {
    type V = SlabView<Resource>;

    closed spec fn view(&self) -> SlabView<Resource> {
        self.slab@
    }
}

/// The table after one more reference to the resource at `idx` was
/// counted.
pub open spec fn spec_retain(v: SlabView<Resource>, idx: nat) -> SlabView<Resource> {
    SlabView {
        slots: v.slots.update(
            idx as int,
            Some(
                Resource {
                    wasm: v.slots[idx as int]->0.wasm,
                    refcnt: (v.slots[idx as int]->0.refcnt + 1) as u32,
                },
            ),
        ),
        free: v.free,
    }
}

/// The table after one reference to the resource at `idx` was given up: the
/// count is one less, and at zero the resource leaves the table.
pub open spec fn spec_release(v: SlabView<Resource>, idx: nat) -> SlabView<Resource> {
    if v.slots[idx as int]->0.refcnt > 1 {
        SlabView {
            slots: v.slots.update(
                idx as int,
                Some(
                    Resource {
                        wasm: v.slots[idx as int]->0.wasm,
                        refcnt: (v.slots[idx as int]->0.refcnt - 1) as u32,
                    },
                ),
            ),
            free: v.free,
        }
    } else {
        spec_remove(v, idx)
    }
}

impl ResourceSlab {
    pub closed spec fn wf(&self) -> bool {
        self.slab.wf()
    }

    pub closed spec fn spec_is_full(&self) -> bool {
        self.slab.spec_is_full()
    }

    /// What a sound table says of its view: the free list names empty
    /// slots, each once, no slot has an index beyond 32 bits, and the table
    /// is full when no slot is free and none can be added.
    pub proof fn lemma_wf(&self)
        requires
            self.wf(),
        ensures
            view_wf(self@),
            self@.slots.len() <= u32::MAX,
            self.spec_is_full() == (self@.free.len() == 0 && self@.slots.len() >= u32::MAX),
    {
    }

    pub fn new() -> (s: ResourceSlab)
        ensures
            s.wf(),
            s@.slots.len() == 0,
            s@.free.len() == 0,
    {
        ResourceSlab { slab: Slab::new() }
    }

    pub fn is_full(&self) -> (r: bool)
        requires
            self.wf(),
        ensures
            r == self.spec_is_full(),
    {
        self.slab.is_full()
    }

    /// Takes in a resource that the guest knows as `wasm`, with one
    /// reference to it.
    pub fn insert(&mut self, wasm: i32) -> (idx: ResourceIndex)
        requires
            old(self).wf(),
            !old(self).spec_is_full(),
        ensures
            final(self).wf(),
            final(self)@ == spec_insert(old(self)@, Resource { wasm, refcnt: 1 }).0,
            idx.0 == spec_insert(old(self)@, Resource { wasm, refcnt: 1 }).1,
    {
        ResourceIndex(self.slab.insert(Resource { wasm, refcnt: 1 }))
    }

    /// The value by which the guest knows the resource at `idx`.
    pub fn get(&self, idx: ResourceIndex) -> (r: Result<i32, HandleError>)
        ensures
            match r {
                Ok(wasm) => occupied(self@, idx.0 as nat) && self@.slots[idx.0 as int]->0.wasm
                    == wasm,
                Err(e) => !occupied(self@, idx.0 as nat) && e == HandleError::Invalid,
            },
    {
        match self.slab.get(idx.0) {
            Ok(resource) => Ok(resource.wasm),
            Err(e) => Err(e),
        }
    }

    /// Counts one more reference to the resource at `idx`. Nothing is
    /// allocated.
    pub fn clone(&mut self, idx: ResourceIndex) -> (r: Result<(), ResourceError>)
        requires
            old(self).wf(),
        ensures
            final(self).wf(),
            match r {
                Ok(()) => {
                    &&& occupied(old(self)@, idx.0 as nat)
                    &&& old(self)@.slots[idx.0 as int]->0.refcnt < u32::MAX
                    &&& final(self)@ == spec_retain(old(self)@, idx.0 as nat)
                },
                Err(ResourceError::Invalid) => !occupied(old(self)@, idx.0 as nat) && final(self)@
                    == old(self)@,
                Err(ResourceError::CountOverflow) => {
                    &&& occupied(old(self)@, idx.0 as nat)
                    &&& old(self)@.slots[idx.0 as int]->0.refcnt == u32::MAX
                    &&& final(self)@ == old(self)@
                },
                Err(ResourceError::Full) => false,
            },
    {
        let current = match self.slab.get(idx.0) {
            Ok(resource) => *resource,
            Err(_) => {
                return Err(ResourceError::Invalid);
            },
        };
        if current.refcnt == u32::MAX {
            return Err(ResourceError::CountOverflow);
        }
        let _ = self.slab.replace(
            idx.0,
            Resource { wasm: current.wasm, refcnt: current.refcnt + 1 },
        );
        Ok(())
    }

    /// Gives up one reference to the resource at `idx`. When it was the last
    /// one the resource leaves the table, and its value comes back so that
    /// the guest's destructor can run on it.
    pub fn drop(&mut self, idx: ResourceIndex) -> (r: Result<Option<i32>, HandleError>)
        requires
            old(self).wf(),
        ensures
            final(self).wf(),
            match r {
                Ok(last) => {
                    &&& occupied(old(self)@, idx.0 as nat)
                    &&& final(self)@ == spec_release(old(self)@, idx.0 as nat)
                    &&& last == if old(self)@.slots[idx.0 as int]->0.refcnt > 1 {
                        None
                    } else {
                        Some(old(self)@.slots[idx.0 as int]->0.wasm)
                    }
                },
                Err(e) => !occupied(old(self)@, idx.0 as nat) && e == HandleError::Invalid
                    && final(self)@ == old(self)@,
            },
    {
        let current = match self.slab.get(idx.0) {
            Ok(resource) => *resource,
            Err(e) => {
                return Err(e);
            },
        };
        if current.refcnt > 1 {
            let _ = self.slab.replace(
                idx.0,
                Resource { wasm: current.wasm, refcnt: current.refcnt - 1 },
            );
            Ok(None)
        } else {
            let _ = self.slab.remove(idx.0);
            Ok(Some(current.wasm))
        }
    }
}

/// The two tables of one shareable resource type. A handle that is visible
/// outside names a slot of `index`, which names a resource of `resources`;
/// many handles may name one resource, which lives until the last reference
/// to it is given up.
pub struct ResourceTable {
    pub index: IndexSlab,
    pub resources: ResourceSlab,
}

/// The resource that `handle` leads to, if it names a slot of `index` that
/// names a resource of `resources`.
pub open spec fn resolve(
    index: SlabView<ResourceIndex>,
    resources: SlabView<Resource>,
    handle: nat,
) -> Option<ResourceIndex> {
    if occupied(index, handle) {
        let inner = index.slots[handle as int]->0;
        if occupied(resources, inner.0 as nat) {
            Some(inner)
        } else {
            None
        }
    } else {
        None
    }
}

/// A resource that went into sound tables is found behind its handle,
/// whether its slots are new or were used before.
pub proof fn lemma_new_handle_resolves(
    index: SlabView<ResourceIndex>,
    resources: SlabView<Resource>,
    wasm: i32,
)
    requires
        view_wf(index),
        view_wf(resources),
        resources.slots.len() <= u32::MAX,
    ensures
        ({
            let inner = spec_insert(resources, Resource { wasm, refcnt: 1 });
            let outer = spec_insert(index, ResourceIndex(inner.1 as u32));
            &&& resolve(outer.0, inner.0, outer.1) matches Some(found) && found.0 == inner.1
                && inner.0.slots[found.0 as int] == Some(Resource { wasm, refcnt: 1 })
        }),
{
    let inner = spec_insert(resources, Resource { wasm, refcnt: 1 });
    if resources.free.len() > 0 {
        assert(resources.free[0] < resources.slots.len());
    }
    assert(inner.1 < inner.0.slots.len());
    assert(inner.1 <= u32::MAX);
    let outer = spec_insert(index, ResourceIndex(inner.1 as u32));
    if index.free.len() > 0 {
        assert(index.free[0] < index.slots.len());
    }
    assert(occupied(outer.0, outer.1));
}

impl ResourceTable {
    pub open spec fn wf(&self) -> bool {
        self.index.wf() && self.resources.wf()
    }

    pub fn new() -> (t: ResourceTable)
        ensures
            t.wf(),
            t.index@.slots.len() == 0,
            t.resources@.slots.len() == 0,
    {
        ResourceTable { index: IndexSlab::new(), resources: ResourceSlab::new() }
    }

    /// Takes in the resource that the guest knows as `wasm` and returns the
    /// first handle to it.
    pub fn resource_new(&mut self, wasm: i32) -> (r: Result<u32, ResourceError>)
        requires
            old(self).wf(),
        ensures
            final(self).wf(),
            match r {
                Ok(handle) => {
                    let inner = spec_insert(old(self).resources@, Resource { wasm, refcnt: 1 });
                    let outer = spec_insert(old(self).index@, ResourceIndex(inner.1 as u32));
                    &&& !old(self).resources.spec_is_full()
                    &&& !old(self).index.spec_is_full()
                    &&& final(self).resources@ == inner.0
                    &&& final(self).index@ == outer.0
                    &&& handle == outer.1
                    &&& resolve(final(self).index@, final(self).resources@, handle as nat)
                        matches Some(found) && final(self).resources@.slots[found.0 as int]
                        == Some(Resource { wasm, refcnt: 1 })
                },
                Err(e) => {
                    &&& e == ResourceError::Full
                    &&& old(self).resources.spec_is_full() || old(self).index.spec_is_full()
                    &&& final(self).resources@ == old(self).resources@
                    &&& final(self).index@ == old(self).index@
                },
            },
    {
        if self.resources.is_full() || self.index.is_full() {
            return Err(ResourceError::Full);
        }
        proof {
            self.index.lemma_wf();
            self.resources.lemma_wf();
            lemma_new_handle_resolves(self.index@, self.resources@, wasm);
        }
        let inner = self.resources.insert(wasm);
        Ok(self.index.insert(inner))
    }

    /// The value by which the guest knows the resource behind `handle`.
    pub fn resource_get(&self, handle: u32) -> (r: Result<i32, HandleError>)
        ensures
            match r {
                Ok(wasm) => resolve(self.index@, self.resources@, handle as nat) matches Some(inner)
                    && self.resources@.slots[inner.0 as int]->0.wasm == wasm,
                Err(e) => resolve(self.index@, self.resources@, handle as nat) is None && e
                    == HandleError::Invalid,
            },
    {
        match self.index.get(handle) {
            Ok(inner) => self.resources.get(inner),
            Err(e) => Err(e),
        }
    }

    /// Makes one more handle to the resource behind `handle`. The resource
    /// itself is not copied: its count of references goes up by one.
    pub fn resource_clone(&mut self, handle: u32) -> (r: Result<u32, ResourceError>)
        requires
            old(self).wf(),
        ensures
            final(self).wf(),
            match r {
                Ok(fresh) => {
                    &&& resolve(old(self).index@, old(self).resources@, handle as nat) matches Some(
                        inner,
                    ) && {
                        &&& final(self).resources@ == spec_retain(
                            old(self).resources@,
                            inner.0 as nat,
                        )
                        &&& final(self).index@ == spec_insert(old(self).index@, inner).0
                        &&& fresh == spec_insert(old(self).index@, inner).1
                        &&& resolve(final(self).index@, final(self).resources@, fresh as nat)
                            == Some(inner)
                        &&& resolve(final(self).index@, final(self).resources@, handle as nat)
                            == Some(inner)
                    }
                },
                Err(e) => {
                    &&& final(self).resources@ == old(self).resources@
                    &&& final(self).index@ == old(self).index@
                    &&& e == clone_error(
                        old(self).index@,
                        old(self).resources@,
                        old(self).index.spec_is_full(),
                        handle as nat,
                    )->0
                },
            },
            r is Err <==> clone_error(
                old(self).index@,
                old(self).resources@,
                old(self).index.spec_is_full(),
                handle as nat,
            ) is Some,
    {
        let inner = match self.index.get(handle) {
            Ok(inner) => inner,
            Err(_) => {
                return Err(ResourceError::Invalid);
            },
        };
        if self.resources.get(inner).is_err() {
            return Err(ResourceError::Invalid);
        }
        if self.index.is_full() {
            return Err(ResourceError::Full);
        }
        proof {
            self.index.lemma_wf();
            self.resources.lemma_wf();
            if self.index@.free.len() > 0 {
                assert(self.index@.free[0] < self.index@.slots.len());
                assert(self.index@.slots[self.index@.free[0] as int] is None);
            }
        }
        match self.resources.clone(inner) {
            Ok(()) => Ok(self.index.insert(inner)),
            Err(e) => Err(e),
        }
    }

    /// Gives up `handle`. When it was the last reference to its resource,
    /// the resource leaves the table and its value comes back, for the
    /// guest's destructor to run on.
    pub fn resource_drop(&mut self, handle: u32) -> (r: Result<Option<i32>, HandleError>)
        requires
            old(self).wf(),
        ensures
            final(self).wf(),
            match r {
                Ok(last) => {
                    &&& resolve(old(self).index@, old(self).resources@, handle as nat) matches Some(
                        inner,
                    ) && {
                        &&& final(self).index@ == spec_remove(old(self).index@, handle as nat)
                        &&& final(self).resources@ == spec_release(
                            old(self).resources@,
                            inner.0 as nat,
                        )
                        &&& last == if old(self).resources@.slots[inner.0 as int]->0.refcnt > 1 {
                            None
                        } else {
                            Some(old(self).resources@.slots[inner.0 as int]->0.wasm)
                        }
                    }
                },
                Err(e) => {
                    &&& resolve(old(self).index@, old(self).resources@, handle as nat) is None
                    &&& e == HandleError::Invalid
                    &&& final(self).resources@ == old(self).resources@
                    &&& final(self).index@ == old(self).index@
                },
            },
    {
        let inner = match self.index.get(handle) {
            Ok(inner) => inner,
            Err(e) => {
                return Err(e);
            },
        };
        if self.resources.get(inner).is_err() {
            return Err(HandleError::Invalid);
        }
        let _ = self.index.remove(handle);
        self.resources.drop(inner)
    }
}

/// Why a handle cannot be cloned, if it cannot: it leads to no resource, the
/// outer table is full, or the resource's count is at its limit.
pub open spec fn clone_error(
    index: SlabView<ResourceIndex>,
    resources: SlabView<Resource>,
    index_full: bool,
    handle: nat,
) -> Option<ResourceError> {
    match resolve(index, resources, handle) {
        None => Some(ResourceError::Invalid),
        Some(inner) => if index_full {
            Some(ResourceError::Full)
        } else if resources.slots[inner.0 as int]->0.refcnt == u32::MAX {
            Some(ResourceError::CountOverflow)
        } else {
            None
        },
    }
}

/// Taking values out of occupied slots, each slot once, leaves the slots at
/// the front of the free list, the last freed first.
pub proof fn lemma_remove_all_free<T>(v: SlabView<T>, order: Seq<nat>)
    requires
        view_wf(v),
        order.no_duplicates(),
        forall|i: int| 0 <= i < order.len() ==> occupied(v, #[trigger] order[i]),
    ensures
        remove_all(v, order).free == order.reverse() + v.free,
        view_wf(remove_all(v, order)),
    decreases order.len(),
{
    if order.len() == 0 {
        assert(order.reverse() + v.free =~= v.free);
    } else {
        let v1 = spec_remove(v, order[0]);
        let rest = order.drop_first();
        assert(view_wf(v1)) by {
            assert forall|i: int| 0 <= i < v.free.len() implies v.free[i] != order[0] by {
                assert(v.slots[v.free[i] as int] is None);
            }
            assert forall|a: int, b: int|
                0 <= a < v1.free.len() && 0 <= b < v1.free.len() && a != b implies v1.free[a]
                != v1.free[b] by {
                if a > 0 {
                    assert(v1.free[a] == v.free[a - 1]);
                }
                if b > 0 {
                    assert(v1.free[b] == v.free[b - 1]);
                }
            }
            assert forall|i: int| 0 <= i < v1.free.len() implies (#[trigger] v1.free[i])
                < v1.slots.len() && v1.slots[v1.free[i] as int] is None by {
                if i > 0 {
                    assert(v1.free[i] == v.free[i - 1]);
                }
            }
        }
        assert(rest.no_duplicates()) by {
            assert forall|a: int, b: int|
                0 <= a < rest.len() && 0 <= b < rest.len() && a != b implies rest[a] != rest[b] by {
                assert(rest[a] == order[a + 1]);
                assert(rest[b] == order[b + 1]);
            }
        }
        assert forall|i: int| 0 <= i < rest.len() implies occupied(v1, #[trigger] rest[i]) by {
            assert(rest[i] == order[i + 1]);
            assert(order[i + 1] != order[0]);
            assert(occupied(v, order[i + 1]));
        }
        lemma_remove_all_free(v1, rest);
        assert(order.reverse() + v.free =~= rest.reverse() + v1.free) by {
            let l = order.reverse() + v.free;
            let r = rest.reverse() + v1.free;
            assert(l.len() == r.len());
            assert forall|k: int| 0 <= k < l.len() implies l[k] == r[k] by {
                if k < rest.len() {
                    assert(order.reverse()[k] == order[order.len() - 1 - k]);
                    assert(rest.reverse()[k] == rest[rest.len() - 1 - k]);
                } else if k == rest.len() {
                    assert(order.reverse()[k] == order[0]);
                    assert(v1.free[0] == order[0]);
                } else {
                    assert(v1.free[k - rest.len()] == v.free[k - rest.len() - 1]);
                }
            }
        }
    }
}

/// As many values as the front part of the free list has slots go to those
/// slots, in the order of the list.
pub proof fn lemma_insert_all_takes_free<T>(v: SlabView<T>, front: Seq<nat>, items: Seq<T>)
    requires
        front.len() == items.len(),
        front.len() <= v.free.len(),
        v.free.subrange(0, front.len() as int) == front,
    ensures
        insert_all(v, items).1 == front,
    decreases items.len(),
{
    if items.len() == 0 {
        assert(insert_all(v, items).1 =~= front);
    } else {
        let first = spec_insert(v, items[0]);
        assert(front[0] == v.free.subrange(0, front.len() as int)[0]);
        assert(first.1 == front[0]);
        let rest = front.drop_first();
        assert(first.0.free.subrange(0, rest.len() as int) =~= rest) by {
            assert forall|k: int| 0 <= k < rest.len() implies first.0.free.subrange(
                0,
                rest.len() as int,
            )[k] == rest[k] by {
                assert(rest[k] == front[k + 1]);
                assert(front[k + 1] == v.free.subrange(0, front.len() as int)[k + 1]);
            }
        }
        lemma_insert_all_takes_free(first.0, rest, items.drop_first());
        assert(seq![first.1] + rest =~= front);
    }
}

/// Values that go into a table keep it well formed, and the slots they went
/// to hold a value afterwards.
pub proof fn lemma_insert_all_occupied<T>(v: SlabView<T>, items: Seq<T>)
    requires
        view_wf(v),
    ensures
        view_wf(insert_all(v, items).0),
        insert_all(v, items).1.len() == items.len(),
        forall|i: int|
            0 <= i < items.len() ==> occupied(insert_all(v, items).0, #[trigger] insert_all(v, items).1[i]),
        forall|idx: nat| occupied(v, idx) ==> occupied(insert_all(v, items).0, idx),
    decreases items.len(),
{
    if items.len() > 0 {
        let first = spec_insert(v, items[0]);
        assert(view_wf(first.0)) by {
            if v.free.len() > 0 {
                let g = first.0.free;
                assert forall|a: int, b: int|
                    0 <= a < g.len() && 0 <= b < g.len() && a != b implies g[a] != g[b] by {
                    assert(g[a] == v.free[a + 1]);
                    assert(g[b] == v.free[b + 1]);
                }
                assert forall|i: int| 0 <= i < g.len() implies (#[trigger] g[i])
                    < first.0.slots.len() && first.0.slots[g[i] as int] is None by {
                    assert(g[i] == v.free[i + 1]);
                    assert(v.free[i + 1] != v.free[0]);
                }
            }
        }
        assert(occupied(first.0, first.1));
        assert forall|idx: nat| occupied(v, idx) implies occupied(first.0, idx) by {}
        lemma_insert_all_occupied(first.0, items.drop_first());
        let all = insert_all(v, items);
        let rest = insert_all(first.0, items.drop_first());
        assert forall|i: int| 0 <= i < items.len() implies occupied(all.0, #[trigger] all.1[i]) by {
            if i > 0 {
                assert(all.1[i] == rest.1[i - 1]);
            }
        }
    }
}

/// Slab reuse. After a batch of values went in and all of them were taken
/// out again, in any order, a second batch of the same size goes to exactly
/// the slots of the first, the slot freed last being reused first.
pub proof fn lemma_slab_reuse<T>(v: SlabView<T>, first: Seq<T>, order: Seq<nat>, second: Seq<T>)
    requires
        view_wf(v),
        order.len() == second.len(),
        order.no_duplicates(),
        order.to_set() == insert_all(v, first).1.to_set(),
    ensures
        insert_all(remove_all(insert_all(v, first).0, order), second).1 == order.reverse(),
        insert_all(remove_all(insert_all(v, first).0, order), second).1.to_set() == insert_all(
            v,
            first,
        ).1.to_set(),
{
    let filled = insert_all(v, first);
    lemma_insert_all_occupied(v, first);
    assert forall|i: int| 0 <= i < order.len() implies occupied(filled.0, #[trigger] order[i]) by {
        assert(order.to_set().contains(order[i]));
        assert(filled.1.to_set().contains(order[i]));
        let k = choose|k: int| 0 <= k < filled.1.len() && filled.1[k] == order[i];
        assert(occupied(filled.0, filled.1[k]));
    }
    lemma_remove_all_free(filled.0, order);
    let emptied = remove_all(filled.0, order);
    assert(emptied.free.subrange(0, order.len() as int) =~= order.reverse());
    lemma_insert_all_takes_free(emptied, order.reverse(), second);
    assert(order.reverse().to_set() =~= order.to_set()) by {
        assert forall|x: nat| order.reverse().to_set().contains(x) implies order.to_set().contains(
            x,
        ) by {
            let k = choose|k: int| 0 <= k < order.reverse().len() && order.reverse()[k] == x;
            assert(order[order.len() - 1 - k] == x);
        }
        assert forall|x: nat| order.to_set().contains(x) implies order.reverse().to_set().contains(
            x,
        ) by {
            let k = choose|k: int| 0 <= k < order.len() && order[k] == x;
            assert(order.reverse()[order.len() - 1 - k] == x);
        }
    }
}

} // verus!
