//! Slab-style table mapping small integer identifiers to engine value tokens.
//!
//! An occupied slot's identifier stays valid and keeps referring to the same
//! token until that identifier is explicitly released or the session shuts
//! down. Freed slot indices go onto a free list and are reused before the
//! table grows, so identifiers are only unique among currently live handles.

use vstd::prelude::*;

use crate::handle::ObscuredGlobal;

verus! {

/// Mathematical state of a [`ValueArena`]: the slot table and the stack of
/// freed indices awaiting reuse.
pub ghost struct ArenaView {
    pub slots: Seq<Option<ObscuredGlobal>>,
    pub free: Seq<usize>,
}

impl ArenaView {
    /// `id` currently refers to a live handle.
    pub open spec fn occupied(self, id: usize) -> bool {
        id < self.slots.len() && self.slots[id as int] is Some
    }

    /// Number of live handles.
    pub open spec fn occupied_count(self) -> nat {
        occupied_seq_of(self.slots).len()
    }

    /// Well-formedness: the free list is a duplicate-free record of exactly
    /// the vacant in-range slots.
    pub open spec fn wf(self) -> bool {
        &&& self.slots.len() <= usize::MAX
        &&& forall|k: int|
            0 <= k < self.free.len() ==> (#[trigger] self.free[k]) < self.slots.len()
        &&& forall|k: int|
            0 <= k < self.free.len() ==> self.slots[(#[trigger] self.free[k]) as int] is None
        &&& forall|k1: int, k2: int|
            0 <= k1 < k2 < self.free.len() ==> (#[trigger] self.free[k1]) != (#[trigger] self.free[
                k2])
        &&& forall|i: int|
            0 <= i < self.slots.len() && (#[trigger] self.slots[i]) is None
                ==> self.free.contains(i as usize)
    }

    /// State and identifier produced by an allocation: the most recently
    /// freed slot is reused if one exists, else the table grows by one.
    pub open spec fn spec_alloc(self, g: ObscuredGlobal) -> (ArenaView, usize) {
        if self.free.len() > 0 {
            let id = self.free.last();
            (
                ArenaView {
                    slots: self.slots.update(id as int, Some(g)),
                    free: self.free.drop_last(),
                },
                id,
            )
        } else {
            (ArenaView { slots: self.slots.push(Some(g)), free: self.free }, self.slots.len() as usize)
        }
    }

    /// State and extracted token produced by a release: occupied slots are
    /// emptied and recorded on the free list, anything else is a no-op.
    pub open spec fn spec_dealloc(self, id: usize) -> (ArenaView, Option<ObscuredGlobal>) {
        if self.occupied(id) {
            (
                ArenaView { slots: self.slots.update(id as int, None), free: self.free.push(id) },
                self.slots[id as int],
            )
        } else {
            (self, None)
        }
    }

    /// The token readable through `id`, if any.
    pub open spec fn spec_with(self, id: usize) -> Option<u64> {
        if self.occupied(id) {
            Some(self.slots[id as int]->0@)
        } else {
            None
        }
    }
}

/// The live tokens of a slot table, in increasing slot order.
pub open spec fn occupied_seq_of(slots: Seq<Option<ObscuredGlobal>>) -> Seq<ObscuredGlobal>
    decreases slots.len(),
{
    if slots.len() == 0 {
        Seq::empty()
    } else {
        occupied_seq_of(slots.drop_last()) + match slots.last() {
            Some(g) => seq![g],
            None => Seq::empty(),
        }
    }
}

/// Arena uniqueness: allocation never hands out an identifier that is still
/// occupied, so no two simultaneously live handles ever share one. The fresh
/// identifier maps to exactly the allocated token, every other slot is
/// untouched, and well-formedness is preserved.
pub proof fn lemma_alloc_fresh(v: ArenaView, g: ObscuredGlobal)
    requires
        v.wf(),
        v.free.len() > 0 || v.slots.len() < usize::MAX,
    ensures
        ({
            let (v2, id) = v.spec_alloc(g);
            &&& !v.occupied(id)
            &&& v2.occupied(id)
            &&& v2.slots[id as int] == Some(g)
            &&& v2.wf()
            &&& v.slots.len() <= v2.slots.len() <= v.slots.len() + 1
            &&& forall|j: int|
                0 <= j < v.slots.len() && j != id ==> v2.slots[j] == #[trigger] v.slots[j]
        }),
{
    let (v2, id) = v.spec_alloc(g);
    if v.free.len() > 0 {
        assert(v.free[v.free.len() - 1] == v.free.last());
        assert(!v.occupied(id));
        assert forall|i: int|
            0 <= i < v2.slots.len() && (#[trigger] v2.slots[i]) is None implies v2.free.contains(
            i as usize,
        ) by {
            assert(v.slots[i] is None);
            let k = choose|k: int| 0 <= k < v.free.len() && v.free[k] == i as usize;
            assert(v.free[k] == i as usize);
            assert(k != v.free.len() - 1);
            assert(v2.free[k] == i as usize);
        }
    } else {
        assert(id == v.slots.len());
        assert forall|i: int|
            0 <= i < v2.slots.len() && (#[trigger] v2.slots[i]) is None implies v2.free.contains(
            i as usize,
        ) by {
            assert(i < v.slots.len() && v.slots[i] is None);
            let k = choose|k: int| 0 <= k < v.free.len() && v.free[k] == i as usize;
            assert(v2.free[k] == i as usize);
        }
    }
}

/// Release followed by allocation reuses the freed slot: the identifier
/// handed back is the one just released, and reading through it afterwards
/// yields exactly the newly allocated token, never the released one.
pub proof fn lemma_release_then_alloc_reuses(v: ArenaView, id: usize, g2: ObscuredGlobal)
    requires
        v.wf(),
        v.occupied(id),
    ensures
        ({
            let (v1, taken) = v.spec_dealloc(id);
            let (v2, id2) = v1.spec_alloc(g2);
            &&& taken == v.slots[id as int]
            &&& id2 == id
            &&& v2.slots[id as int] == Some(g2)
            &&& v2.spec_with(id) == Some(g2@)
            &&& v2.wf()
        }),
{
    lemma_dealloc_wf(v, id);
    let (v1, taken) = v.spec_dealloc(id);
    assert(v1.free.last() == id);
    lemma_alloc_fresh(v1, g2);
}

/// Idempotent release: releasing a vacant or out-of-range identifier is a
/// no-op that reports nothing taken; releasing an occupied one empties
/// exactly that slot, records it for reuse, and preserves well-formedness.
pub proof fn lemma_dealloc_wf(v: ArenaView, id: usize)
    requires
        v.wf(),
    ensures
        ({
            let (v1, taken) = v.spec_dealloc(id);
            &&& v1.wf()
            &&& v.occupied(id) ==> taken == v.slots[id as int] && !v1.occupied(id)
                && v1.free.last() == id
            &&& !v.occupied(id) ==> v1 == v && taken is None
            &&& forall|j: int|
                0 <= j < v.slots.len() && j != id ==> v1.slots[j] == #[trigger] v.slots[j]
        }),
{
    let (v1, taken) = v.spec_dealloc(id);
    if v.occupied(id) {
        assert(!v.free.contains(id)) by {
            if v.free.contains(id) {
                let k = choose|k: int| 0 <= k < v.free.len() && v.free[k] == id;
                assert(v.slots[v.free[k] as int] is None);
            }
        }
        assert forall|k1: int, k2: int| 0 <= k1 < k2 < v1.free.len() implies (v1.free[k1])
            != (v1.free[k2]) by {
            if k2 == v1.free.len() - 1 {
                assert(v1.free[k1] == v.free[k1]);
                assert(v.free.contains(v.free[k1]));
            }
        }
        assert forall|i: int|
            0 <= i < v1.slots.len() && (#[trigger] v1.slots[i]) is None implies v1.free.contains(
            i as usize,
        ) by {
            if i == id {
                assert(v1.free[v1.free.len() - 1] == id);
            } else {
                assert(v.slots[i] is None);
                let k = choose|k: int| 0 <= k < v.free.len() && v.free[k] == i as usize;
                assert(v1.free[k] == i as usize);
            }
        }
    }
}

/// A slab of engine value tokens with free-list reuse.
pub struct ValueArena {
    values: Vec<Option<ObscuredGlobal>>,
    vacancies: Vec<usize>,
}

impl View for ValueArena {
    type V = ArenaView;

    closed spec fn view(&self) -> ArenaView {
        ArenaView { slots: self.values@, free: self.vacancies@ }
    }
}

impl ValueArena {
    /// An empty arena with no slots and no recorded vacancies.
    pub fn new() -> (a: ValueArena)
        ensures
            a@.wf(),
            a@.slots.len() == 0,
            a@.free.len() == 0,
    {
        ValueArena { values: Vec::new(), vacancies: Vec::new() }
    }

    /// Place a token in the arena and return its identifier: the most
    /// recently freed slot if one exists, else a fresh highest index. The
    /// identifier returned is never one that is still occupied.
    pub fn allocate(&mut self, value: ObscuredGlobal) -> (id: usize)
        requires
            old(self)@.wf(),
        ensures
            final(self)@.wf(),
            (final(self)@, id) == old(self)@.spec_alloc(value),
            !old(self)@.occupied(id),
            final(self)@.occupied(id),
            final(self)@.slots[id as int] == Some(value),
            forall|j: int|
                0 <= j < old(self)@.slots.len() && j != id ==> final(self)@.slots[j]
                    == #[trigger] old(self)@.slots[j],
    {
        match self.vacancies.pop() {
            Some(vacancy) => {
                proof {
                    lemma_alloc_fresh(old(self)@, value);
                }
                assert(old(self)@.free[old(self)@.free.len() - 1] == vacancy);
                self.values[vacancy] = Some(value);
                vacancy
            },
            None => {
                let id = self.values.len();
                self.values.push(Some(value));
                let n = self.values.len();
                assert(n == id + 1);
                proof {
                    lemma_alloc_fresh(old(self)@, value);
                }
                id
            },
        }
    }

    /// Release an identifier. An occupied slot is emptied, its index is
    /// recorded for reuse and its token is handed back so the engine
    /// reference can be released exactly once; a vacant or out-of-range
    /// identifier is a no-op yielding `None` and leaves the arena unchanged.
    pub fn dealloc(&mut self, index: usize) -> (taken: Option<ObscuredGlobal>)
        requires
            old(self)@.wf(),
        ensures
            final(self)@.wf(),
            (final(self)@, taken) == old(self)@.spec_dealloc(index),
            old(self)@.occupied(index) ==> taken == old(self)@.slots[index as int]
                && !final(self)@.occupied(index),
            !old(self)@.occupied(index) ==> taken is None && final(self)@ == old(self)@,
            forall|j: int|
                0 <= j < old(self)@.slots.len() && j != index ==> final(self)@.slots[j]
                    == #[trigger] old(self)@.slots[j],
    {
        proof {
            lemma_dealloc_wf(self@, index);
        }
        if index < self.values.len() {
            let mut slot_value: Option<ObscuredGlobal> = None;
            core::mem::swap(&mut self.values[index], &mut slot_value);
            match slot_value {
                Some(g) => {
                    self.vacancies.push(index);
                    Some(g)
                },
                None => {
                    assert(final(self)@.slots =~= old(self)@.slots);
                    None
                },
            }
        } else {
            None
        }
    }

    /// Read the token at an identifier without disturbing the slot, for
    /// engine operations that only borrow the referenced value. Vacant and
    /// out-of-range identifiers yield `None`.
    pub fn with(&self, index: usize) -> (r: Option<u64>)
        ensures
            r == self@.spec_with(index),
    {
        if index < self.values.len() {
            match &self.values[index] {
                Some(g) => Some(g.with()),
                None => None,
            }
        } else {
            None
        }
    }

    /// Shutdown sweep: empty every slot, handing back each live token
    /// exactly once, in increasing slot order, and clear the free list. The
    /// arena is empty afterwards.
    pub fn close_all(&mut self) -> (drained: Vec<ObscuredGlobal>)
        ensures
            final(self)@.wf(),
            final(self)@.slots.len() == 0,
            final(self)@.free.len() == 0,
            drained@ == occupied_seq_of(old(self)@.slots),
            drained@.len() == old(self)@.occupied_count(),
    {
        let mut drained: Vec<ObscuredGlobal> = Vec::new();
        let mut i: usize = 0;
        let n = self.values.len();
        while i < n
            invariant
                n == self.values.len(),
                self.values@.len() == old(self)@.slots.len(),
                i <= n,
                forall|j: int| i <= j < n ==> self.values@[j] == #[trigger] old(self)@.slots[j],
                drained@ == occupied_seq_of(old(self)@.slots.subrange(0, i as int)),
            decreases n - i,
        {
            let ghost prefix = old(self)@.slots.subrange(0, i as int);
            let ghost prefix1 = old(self)@.slots.subrange(0, i + 1);
            let mut slot_value: Option<ObscuredGlobal> = None;
            core::mem::swap(&mut self.values[i], &mut slot_value);
            if let Some(g) = slot_value {
                drained.push(g);
            }
            proof {
                assert(prefix1.drop_last() =~= prefix);
                assert(prefix1.last() == old(self)@.slots[i as int]);
            }
            i = i + 1;
        }
        proof {
            assert(old(self)@.slots.subrange(0, n as int) =~= old(self)@.slots);
        }
        self.values.clear();
        self.vacancies.clear();
        drained
    }
}

} // verus!
