//! The items of a group: every item ever created, and the identifiers they go by.
use std::collections::HashMap;

use vstd::prelude::*;

use crate::item::ItemProgress;
use crate::model::{RegistryState, UniqueID};
use crate::report::ItemProgressReport;

verus! {

broadcast use vstd::std_specs::hash::group_hash_axioms;

/// Holds the items of a group.  An item stays in its slot for good, so that whoever tracks it can
/// go on doing so even after its identifier has been given to a newer item.
pub struct ItemRegistry {
    cells: Vec<ItemProgress>,
    slots: HashMap<UniqueID, usize>,
}

impl View for ItemRegistry {
    type V = RegistryState;

    closed spec fn view(&self) -> RegistryState {
        RegistryState {
            cells: Seq::new(self.cells@.len(), |i: int| self.cells@[i]@),
            slots: self.slots@.map_values(|slot: usize| slot as int),
        }
    }
}

impl ItemRegistry {
    pub fn new() -> (registry: Self)
        ensures
            registry@ == RegistryState::empty(),
            registry@.wf(),
    {
        ItemRegistry { cells: Vec::new(), slots: HashMap::new() }
    }

    /// The number of items ever created.
    pub fn len(&self) -> (len: usize)
        ensures
            len == self@.cells.len(),
    {
        self.cells.len()
    }

    /// Stores `item` in a new slot, under its identifier if `registered`, and returns the slot.
    pub(crate) fn insert(&mut self, item: ItemProgress, registered: bool) -> (slot: usize)
        requires
            old(self)@.wf(),
        ensures
            slot == old(self)@.cells.len(),
            final(self)@ == old(self)@.with_new(item@, registered),
            final(self)@.wf(),
    {
        let slot: usize = self.cells.len();
        if registered {
            self.slots.insert(item.id, slot);
        }
        self.cells.push(item);
        proof {
            assert(self@.cells =~= old(self)@.cells.push(item@));
            assert forall|id: UniqueID| #[trigger] self@.slots.contains_key(id) implies {
                &&& 0 <= self@.slots[id] < self@.cells.len()
                &&& self@.cells[self@.slots[id]].id == id
            } by {
                if !(registered && id == item.id) {
                    assert(old(self)@.slots.contains_key(id));
                }
            }
        }
        slot
    }

    /// The item in `slot`.
    pub fn cell(&self, slot: usize) -> (item: &ItemProgress)
        requires
            slot < self@.cells.len(),
        ensures
            item@ == self@.cells[slot as int],
    {
        &self.cells[slot]
    }

    /// The item in `slot`, for modification.
    pub(crate) fn cell_mut(&mut self, slot: usize) -> (item: &mut ItemProgress)
        requires
            slot < old(self)@.cells.len(),
        ensures
            item@ == old(self)@.cells[slot as int],
            final(self)@ == old(self)@.with_cell(slot as int, final(item)@),
    {
        &mut self.cells[slot]
    }

    /// The item that `id` currently stands for.
    pub fn get(&self, id: UniqueID) -> (item: Option<&ItemProgress>)
        requires
            self@.wf(),
        ensures
            item is Some <==> self@.slots.contains_key(id),
            item matches Some(item) ==> item@ == self@.lookup(id),
    {
        match self.slots.get(&id) {
            Some(slot) => {
                assert(self@.slots.contains_key(id));
                Some(&self.cells[*slot])
            },
            None => None,
        }
    }

    /// Snapshots of all registered items.
    pub fn reports(&self) -> (reports: HashMap<UniqueID, ItemProgressReport>)
        requires
            self@.wf(),
        ensures
            reports@.map_values(|report: ItemProgressReport| report@) == self@.reports(),
    {
        let mut reports: HashMap<UniqueID, ItemProgressReport> = HashMap::new();
        for entry in walk: self.slots.iter()
            invariant
                self@.wf(),
                walk.seq().len() == self.slots@.len(),
                forall|i: int|
                    #![trigger walk.seq()[i]]
                    0 <= i < walk.seq().len() ==> self.slots@.contains_key(*walk.seq()[i].0)
                        && self.slots@[*walk.seq()[i].0] == *walk.seq()[i].1,
                forall|id: UniqueID| #[trigger]
                    reports@.contains_key(id) <==> exists|i: int|
                        0 <= i < walk.index() && *(#[trigger] walk.seq()[i]).0 == id,
                forall|id: UniqueID| #[trigger]
                    reports@.contains_key(id) ==> self@.slots.contains_key(id) && reports@[id]@
                        == self@.lookup(id).report(),
        {
            let (id, slot) = entry;
            assert(self@.slots.contains_key(*id));
            reports.insert(*id, self.cells[*slot].report());
        }
        reports
    }

    /// Some registered item whose completed bytes differ from its total, if there is one.
    pub fn find_incomplete(&self) -> (found: Option<&ItemProgress>)
        requires
            self@.wf(),
        ensures
            found is None <==> self@.all_bytes_complete(),
            found matches Some(item) ==> {
                &&& self@.slots.contains_key(item.id)
                &&& item@ == self@.lookup(item.id)
                &&& item.bytes_completed != item.total_bytes
            },
    {
        for entry in walk: self.slots.iter()
            invariant
                self@.wf(),
                forall|i: int|
                    #![trigger walk.seq()[i]]
                    0 <= i < walk.seq().len() ==> self.slots@.contains_key(*walk.seq()[i].0)
                        && self.slots@[*walk.seq()[i].0] == *walk.seq()[i].1,
                forall|i: int|
                    #![trigger walk.seq()[i]]
                    0 <= i < walk.index() ==> self@.lookup(*walk.seq()[i].0).bytes_completed
                        == self@.lookup(*walk.seq()[i].0).total_bytes,
        {
            let (id, slot) = entry;
            assert(self@.slots.contains_key(*id));
            let item: &ItemProgress = &self.cells[*slot];
            if item.bytes_completed != item.total_bytes {
                return Some(item);
            }
        }
        None
    }
}

} // verus!
