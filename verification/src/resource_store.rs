//! Type-keyed resource store. Each resource is a singleton addressed by a
//! small integer token standing for its type identity; the host hands out
//! one token per resource type. Every entry carries its own borrow
//! bookkeeping — any number of live shared handles, or exactly one live
//! exclusive handle — checked at the moment of acquisition, the runtime
//! analogue of the aliasing rules a typed container would get for free at
//! compile time.
//!
//! An exclusive handle is the value itself, checked out of the store and
//! checked back in when the holder is done; a shared handle is a counted
//! ticket that [`ResourceStore::read`] honours until it is released.

use vstd::prelude::*;

use std::collections::HashMap;

verus! {

broadcast use vstd::std_specs::hash::group_hash_axioms;

/// Model of one entry: the count of live shared handles, whether the one
/// exclusive handle is out, and the stored value (absent exactly while the
/// exclusive handle is out, because the holder has the value itself).
pub struct CellModel<V> {
    pub shared: nat,
    pub exclusive: bool,
    pub value: Option<V>,
}

/// What an entry's bookkeeping must always satisfy: the value is out exactly
/// while the exclusive handle is, no shared handle coexists with the
/// exclusive one, and the count of shared handles is a machine integer.
pub open spec fn cell_inv<V>(c: CellModel<V>) -> bool {
    &&& c.exclusive ==> c.value is None && c.shared == 0
    &&& !c.exclusive ==> c.value is Some
    &&& c.shared <= usize::MAX as nat
}

/// Whether two store states agree on every identity but `id`.
pub open spec fn unchanged_except<V>(
    pre: Map<u64, CellModel<V>>,
    post: Map<u64, CellModel<V>>,
    id: u64,
) -> bool {
    forall|j: u64|
        j != id ==> ((#[trigger] post.contains_key(j)) == pre.contains_key(j) && (
        pre.contains_key(j) ==> post[j] == pre[j]))
}

/// Outcome of an attempt to take a shared or an exclusive handle.
#[derive(Copy, Clone, PartialEq, Eq, Structural, Debug)]
pub enum Acquire {
    /// The handle was granted.
    Granted,
    /// No resource is stored under the identity.
    Missing,
    /// A conflicting handle is live; the attempt is refused.
    Conflict,
}

/// Outcome of an attempt to take the exclusive handle: when granted, the
/// handle is the checked-out value itself.
#[derive(Debug)]
pub enum AcquireMut<V> {
    /// The value, checked out until it is given back.
    Granted(V),
    /// No resource is stored under the identity.
    Missing,
    /// A shared or exclusive handle is live; the attempt is refused.
    Conflict,
}

/// What an attempt to take one more shared handle must report and do,
/// given the store it meets: granted exactly when the identity is present,
/// no exclusive handle is out, and the count of shared handles can still
/// grow.
pub open spec fn acquire_outcome<V>(m: Map<u64, CellModel<V>>, id: u64) -> Acquire {
    if !m.contains_key(id) {
        Acquire::Missing
    } else if m[id].exclusive || m[id].shared == usize::MAX as nat {
        Acquire::Conflict
    } else {
        Acquire::Granted
    }
}

/// What an attempt to take the exclusive handle must report, given the store
/// it meets: granted exactly when the identity is present and no handle of
/// either kind is live.
pub open spec fn acquire_mut_outcome<V>(m: Map<u64, CellModel<V>>, id: u64) -> Acquire {
    if !m.contains_key(id) {
        Acquire::Missing
    } else if m[id].exclusive || m[id].shared > 0 {
        Acquire::Conflict
    } else {
        Acquire::Granted
    }
}

/// The store: one borrow-checked cell per type identity.
pub struct ResourceStore<V> {
    cells: HashMap<u64, StoreCell<V>>,
}

struct StoreCell<V> {
    shared: usize,
    exclusive: bool,
    value: Option<V>,
}

impl<V> StoreCell<V> {
    spec fn model(self) -> CellModel<V> {
        CellModel { shared: self.shared as nat, exclusive: self.exclusive, value: self.value }
    }
}

impl<V> View for ResourceStore<V> {
    type V = Map<u64, CellModel<V>>;

    closed spec fn view(&self) -> Map<u64, CellModel<V>> {
        Map::new(
            |id: u64| self.cells@.dom().contains(id),
            |id: u64| self.cells@[id].model(),
        )
    }
}

impl<V> ResourceStore<V> {
    /// Every entry's bookkeeping is consistent.
    pub open spec fn wf(self) -> bool {
        forall|id: u64| self@.contains_key(id) ==> cell_inv(#[trigger] self@[id])
    }

    /// Whether a resource is stored under `id`.
    pub open spec fn spec_contains(self, id: u64) -> bool {
        self@.contains_key(id)
    }

    /// How many shared handles are live for `id`.
    pub open spec fn spec_shared(self, id: u64) -> nat {
        if self@.contains_key(id) {
            self@[id].shared
        } else {
            0
        }
    }

    /// Whether the exclusive handle for `id` is out.
    pub open spec fn spec_exclusive(self, id: u64) -> bool {
        self@.contains_key(id) && self@[id].exclusive
    }

    /// Whether any handle for `id` is live.
    pub open spec fn spec_borrowed(self, id: u64) -> bool {
        self.spec_exclusive(id) || self.spec_shared(id) > 0
    }

    /// An empty store.
    pub fn new() -> (r: Self)
        ensures
            r.wf(),
            r@ == Map::<u64, CellModel<V>>::empty(),
    {
        let r = ResourceStore { cells: HashMap::new() };
        proof {
            assert(r@ =~= Map::<u64, CellModel<V>>::empty());
        }
        r
    }

    /// Stores `value` under `id`, replacing whole any instance previously
    /// stored there; no other identity is touched. May not be called while a
    /// handle for `id` is live — a typed container rules that out at compile
    /// time, and this store states it as a precondition.
    pub fn insert(&mut self, id: u64, value: V)
        requires
            old(self).wf(),
            !old(self).spec_borrowed(id),
        ensures
            final(self).wf(),
            final(self)@ == old(self)@.insert(
                id,
                CellModel { shared: 0, exclusive: false, value: Some(value) },
            ),
    {
        let cell = StoreCell { shared: 0, exclusive: false, value: Some(value) };
        self.cells.insert(id, cell);
        proof {
            assert(self@ =~= old(self)@.insert(
                id,
                CellModel { shared: 0nat, exclusive: false, value: Some(value) },
            ));
        }
    }

    /// Whether a resource is stored under `id`.
    pub fn contains(&self, id: u64) -> (r: bool)
        ensures
            r == self.spec_contains(id),
    {
        self.cells.contains_key(&id)
    }

    /// How many shared handles are live for `id`.
    pub fn shared_count(&self, id: u64) -> (r: usize)
        ensures
            r as nat == self.spec_shared(id),
    {
        match self.cells.get(&id) {
            Some(cell) => cell.shared,
            None => 0,
        }
    }

    /// Whether the exclusive handle for `id` is out.
    pub fn is_exclusive(&self, id: u64) -> (r: bool)
        ensures
            r == self.spec_exclusive(id),
    {
        match self.cells.get(&id) {
            Some(cell) => cell.exclusive,
            None => false,
        }
    }

    /// Takes one more shared handle for `id` when no exclusive handle is
    /// out: the runtime check behind every shared acquisition.
    pub fn acquire(&mut self, id: u64) -> (r: Acquire)
        requires
            old(self).wf(),
        ensures
            final(self).wf(),
            r == acquire_outcome(old(self)@, id),
            r is Granted ==> final(self)@ == old(self)@.insert(
                id,
                CellModel { shared: old(self)@[id].shared + 1, ..old(self)@[id] },
            ),
            !(r is Granted) ==> final(self)@ == old(self)@,
    {
        match self.cells.remove(&id) {
            None => {
                proof {
                    assert(self@ =~= old(self)@);
                }
                Acquire::Missing
            },
            Some(cell) => {
                if cell.exclusive || cell.shared == usize::MAX {
                    self.cells.insert(id, cell);
                    proof {
                        assert(self@ =~= old(self)@);
                    }
                    Acquire::Conflict
                } else {
                    let updated = StoreCell {
                        shared: cell.shared + 1,
                        exclusive: cell.exclusive,
                        value: cell.value,
                    };
                    self.cells.insert(id, updated);
                    proof {
                        assert(self@ =~= old(self)@.insert(
                            id,
                            CellModel { shared: old(self)@[id].shared + 1, ..old(self)@[id] },
                        ));
                    }
                    Acquire::Granted
                }
            },
        }
    }

    /// Reads through a live shared handle: the value is present because no
    /// exclusive handle can be out while a shared one is.
    pub fn read(&self, id: u64) -> (r: &V)
        requires
            self.wf(),
            self.spec_shared(id) > 0,
        ensures
            self@[id].value == Some(*r),
    {
        match self.cells.get(&id) {
            Some(cell) => {
                match &cell.value {
                    Some(v) => v,
                    None => vstd::pervasive::unreached(),
                }
            },
            None => vstd::pervasive::unreached(),
        }
    }

    /// Gives one shared handle for `id` back.
    pub fn release(&mut self, id: u64)
        requires
            old(self).wf(),
            old(self).spec_shared(id) > 0,
        ensures
            final(self).wf(),
            final(self)@ == old(self)@.insert(
                id,
                CellModel { shared: (old(self)@[id].shared - 1) as nat, ..old(self)@[id] },
            ),
    {
        match self.cells.remove(&id) {
            None => {
                proof {
                    assert(false);
                }
            },
            Some(cell) => {
                let updated = StoreCell {
                    shared: cell.shared - 1,
                    exclusive: cell.exclusive,
                    value: cell.value,
                };
                self.cells.insert(id, updated);
                proof {
                    assert(self@ =~= old(self)@.insert(
                        id,
                        CellModel {
                            shared: (old(self)@[id].shared - 1) as nat,
                            ..old(self)@[id]
                        },
                    ));
                }
            },
        }
    }

    /// Takes the exclusive handle for `id` when no handle of either kind is
    /// live: the value itself checks out of the store and the entry is
    /// marked until it comes back.
    pub fn acquire_mut(&mut self, id: u64) -> (r: AcquireMut<V>)
        requires
            old(self).wf(),
        ensures
            final(self).wf(),
            (match r {
                AcquireMut::Granted(_) => Acquire::Granted,
                AcquireMut::Missing => Acquire::Missing,
                AcquireMut::Conflict => Acquire::Conflict,
            }) == acquire_mut_outcome(old(self)@, id),
            (match r {
                AcquireMut::Granted(v) => {
                    &&& old(self)@[id].value == Some(v)
                    &&& final(self)@ == old(self)@.insert(
                        id,
                        CellModel { shared: 0, exclusive: true, value: None },
                    )
                },
                _ => final(self)@ == old(self)@,
            }),
    {
        match self.cells.remove(&id) {
            None => {
                proof {
                    assert(self@ =~= old(self)@);
                }
                AcquireMut::Missing
            },
            Some(cell) => {
                if cell.exclusive || cell.shared > 0 {
                    self.cells.insert(id, cell);
                    proof {
                        assert(self@ =~= old(self)@);
                    }
                    AcquireMut::Conflict
                } else {
                    let StoreCell { shared: _, exclusive: _, value } = cell;
                    let taken = match value {
                        Some(v) => v,
                        None => vstd::pervasive::unreached(),
                    };
                    let marker = StoreCell { shared: 0, exclusive: true, value: None };
                    self.cells.insert(id, marker);
                    proof {
                        assert(self@ =~= old(self)@.insert(
                            id,
                            CellModel { shared: 0nat, exclusive: true, value: None },
                        ));
                    }
                    AcquireMut::Granted(taken)
                }
            },
        }
    }

    /// Gives the exclusive handle for `id` back: the value returns to the
    /// store and the entry is free again.
    pub fn release_mut(&mut self, id: u64, value: V)
        requires
            old(self).wf(),
            old(self).spec_exclusive(id),
        ensures
            final(self).wf(),
            final(self)@ == old(self)@.insert(
                id,
                CellModel { shared: 0, exclusive: false, value: Some(value) },
            ),
    {
        match self.cells.remove(&id) {
            None => {
                proof {
                    assert(false);
                }
            },
            Some(_) => {
                let updated = StoreCell { shared: 0, exclusive: false, value: Some(value) };
                self.cells.insert(id, updated);
                proof {
                    assert(self@ =~= old(self)@.insert(
                        id,
                        CellModel { shared: 0nat, exclusive: false, value: Some(value) },
                    ));
                }
            },
        }
    }

    /// Reads the stored value without taking a handle, the single-threaded
    /// owner's instantaneous look: refused only while the exclusive handle
    /// is out, which the caller rules out first.
    pub fn peek(&self, id: u64) -> (r: Option<&V>)
        requires
            self.wf(),
            !self.spec_exclusive(id),
        ensures
            (match r {
                Some(v) => self.spec_contains(id) && self@[id].value == Some(*v),
                None => !self.spec_contains(id),
            }),
    {
        match self.cells.get(&id) {
            Some(cell) => {
                match &cell.value {
                    Some(v) => Some(v),
                    None => vstd::pervasive::unreached(),
                }
            },
            None => None,
        }
    }
}

/// Borrow exclusivity, one direction: while the exclusive handle for an
/// identity is out, every further acquisition for that identity — shared or
/// exclusive — is refused.
pub proof fn lemma_borrow_exclusivity<V>(s: ResourceStore<V>, id: u64)
    requires
        s.wf(),
        s.spec_exclusive(id),
    ensures
        acquire_outcome(s@, id) is Conflict,
        acquire_mut_outcome(s@, id) is Conflict,
{
}

/// Shared handles block the exclusive one: while any shared handle is live,
/// an exclusive acquisition is refused, while further shared handles are
/// still granted.
pub proof fn lemma_shared_blocks_exclusive<V>(s: ResourceStore<V>, id: u64)
    requires
        s.wf(),
        s.spec_shared(id) > 0,
    ensures
        acquire_mut_outcome(s@, id) is Conflict,
        s.spec_shared(id) < usize::MAX as nat ==> acquire_outcome(s@, id) is Granted,
{
}

/// Borrow exclusivity, the other direction: once no handle is live for a
/// stored identity — in particular right after the exclusive handle is given
/// back — acquisitions of both kinds are granted again.
pub proof fn lemma_free_entry_grants<V>(s: ResourceStore<V>, id: u64)
    requires
        s.wf(),
        s.spec_contains(id),
        !s.spec_borrowed(id),
    ensures
        acquire_outcome(s@, id) is Granted,
        acquire_mut_outcome(s@, id) is Granted,
{
}

/// Type isolation: storing a resource under one identity leaves every other
/// identity exactly as it was, and what lands under the stored identity is
/// the fresh instance alone — nothing of a replaced instance remains.
pub proof fn lemma_type_isolation<V>(m: Map<u64, CellModel<V>>, id: u64, value: V, other: u64)
    requires
        other != id,
    ensures
        ({
            let updated = m.insert(
                id,
                CellModel { shared: 0, exclusive: false, value: Some(value) },
            );
            &&& updated.contains_key(other) == m.contains_key(other)
            &&& m.contains_key(other) ==> updated[other] == m[other]
            &&& updated[id] == (CellModel {
                shared: 0nat,
                exclusive: false,
                value: Some(value),
            })
        }),
{
}

} // verus!
