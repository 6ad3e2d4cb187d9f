//! What is shown of items, groups and updaters for debugging: the counters that matter at a
//! glance.  Each type is named like the one that it shows, since `Debug` prints the name.
use vstd::prelude::*;

use crate::model::{GroupState, ItemState, UniqueID};

verus! {

/// What is shown of an item.
#[derive(Clone, Debug)]
pub struct ItemProgress {
    pub id: UniqueID,
    pub name: String,
    pub total_bytes: u64,
    pub bytes_completed: u64,
}

impl ItemProgress {
    /// This is what is shown of `item`.
    pub open spec fn shows(self, item: ItemState) -> bool {
        &&& self.id == item.id
        &&& self.name@ == item.name
        &&& self.total_bytes == item.total_bytes
        &&& self.bytes_completed == item.bytes_completed
    }
}

/// What is shown of a group.
#[derive(Clone, Debug)]
pub struct GroupProgress {
    pub total_bytes: u64,
    pub total_bytes_completed: u64,
    pub total_transfer_bytes: u64,
    pub total_transfer_bytes_completed: u64,
}

impl GroupProgress {
    /// This is what is shown of `group`.
    pub open spec fn shows(self, group: GroupState) -> bool {
        &&& self.total_bytes == group.total_bytes
        &&& self.total_bytes_completed == group.total_bytes_completed
        &&& self.total_transfer_bytes == group.total_transfer_bytes
        &&& self.total_transfer_bytes_completed == group.total_transfer_bytes_completed
    }
}

/// What is shown of an updater: its item.
#[derive(Clone, Debug)]
pub struct ItemProgressUpdater {
    pub item: ItemProgress,
}

} // verus!
