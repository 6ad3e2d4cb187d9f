//! The mathematical model of a progress group: what the counters are, and what each operation
//! does to them.
use std::time::Duration;

use vstd::prelude::*;

verus! {

/// Identifier of a tracked item.
pub type UniqueID = u64;

/// Parameters of the speed estimation of a group.
#[derive(Clone, Copy, Debug)]
pub struct SpeedConfig {
    /// Time after which an observation weighs half as much in the moving average.
    pub half_life: Duration,
    /// Number of observations that it takes for a rate to be shown.
    pub min_observations: u32,
}

/// What keeps an item or a group from being complete.
#[derive(Clone, Copy, Debug, PartialEq, Eq, Structural)]
pub enum Incomplete {
    /// Fewer, or more, bytes are completed than there are in total.
    Bytes { completed: u64, total: u64 },
    /// Fewer, or more, bytes are transferred than there are to transfer.
    TransferBytes { completed: u64, total: u64 },
    /// The aggregates match, but the bytes of this registered item do not.
    Item { id: UniqueID, completed: u64, total: u64 },
}

/// More bytes of an item have been reported than it has.
#[derive(Clone, Copy, Debug, PartialEq, Eq, Structural)]
pub struct Overrun {
    /// How many bytes were completed before the report.
    pub completed: u64,
    /// How many bytes have been reported.
    pub increment: u64,
    /// How many bytes there are.
    pub total: u64,
}

/// The counters of one item.
pub struct ItemState {
    pub id: UniqueID,
    pub name: Seq<char>,
    pub total_bytes: u64,
    pub bytes_completed: u64,
    pub transfer_bytes: u64,
    pub transfer_bytes_completed: u64,
    pub size_finalized: bool,
}

/// What a snapshot of one item shows.
pub struct ItemReportView {
    pub item_name: Seq<char>,
    pub total_bytes: u64,
    pub bytes_completed: u64,
    pub transfer_bytes: u64,
    pub transfer_bytes_completed: u64,
}

impl ItemState {
    /// A fresh item: all counters zero and the size open.
    pub open spec fn fresh(id: UniqueID, name: Seq<char>) -> ItemState {
        ItemState {
            id,
            name,
            total_bytes: 0,
            bytes_completed: 0,
            transfer_bytes: 0,
            transfer_bytes_completed: 0,
            size_finalized: false,
        }
    }

    /// The item after its size has been set: a finalized size stays, an open one never shrinks.
    pub open spec fn resized(self, total: u64, is_final: bool) -> ItemState {
        if self.size_finalized {
            self
        } else {
            ItemState {
                total_bytes: larger(total, self.total_bytes),
                size_finalized: is_final,
                ..self
            }
        }
    }

    /// A size update claims to be final although the size is finalized already, and differs from it.
    pub open spec fn contradicts_final_size(self, total: u64, is_final: bool) -> bool {
        self.size_finalized && is_final && self.total_bytes != total
    }

    /// The item after its transfer size has been set, which never shrinks.
    pub open spec fn transfer_resized(self, total: u64) -> ItemState {
        ItemState { transfer_bytes: larger(total, self.transfer_bytes), ..self }
    }

    /// The item after `increment` more bytes have been completed.
    pub open spec fn advanced(self, increment: u64) -> ItemState {
        ItemState { bytes_completed: self.bytes_completed.wrapping_add(increment), ..self }
    }

    /// The item after `increment` more bytes have been transferred.
    pub open spec fn transfer_advanced(self, increment: u64) -> ItemState {
        ItemState {
            transfer_bytes_completed: self.transfer_bytes_completed.wrapping_add(increment),
            ..self
        }
    }

    /// Whether `increment` more completed bytes are more than the item has.
    pub open spec fn overrun(self, increment: u64) -> Result<(), Overrun> {
        overrun_of(self.bytes_completed, increment, self.total_bytes)
    }

    /// Whether `increment` more transferred bytes are more than the item has to transfer.
    pub open spec fn transfer_overrun(self, increment: u64) -> Result<(), Overrun> {
        overrun_of(self.transfer_bytes_completed, increment, self.transfer_bytes)
    }

    /// No more is completed than there is, for both kinds of bytes.
    pub open spec fn within_totals(self) -> bool {
        &&& self.bytes_completed <= self.total_bytes
        &&& self.transfer_bytes_completed <= self.transfer_bytes
    }

    /// Everything is completed, for both kinds of bytes.
    pub open spec fn is_complete(self) -> bool {
        &&& self.bytes_completed == self.total_bytes
        &&& self.transfer_bytes_completed == self.transfer_bytes
    }

    /// `Ok` for a complete item, and otherwise the first kind of bytes that does not match.
    pub open spec fn completion(self) -> Result<(), Incomplete> {
        if self.bytes_completed != self.total_bytes {
            Err(Incomplete::Bytes { completed: self.bytes_completed, total: self.total_bytes })
        } else if self.transfer_bytes_completed != self.transfer_bytes {
            Err(
                Incomplete::TransferBytes {
                    completed: self.transfer_bytes_completed,
                    total: self.transfer_bytes,
                },
            )
        } else {
            Ok(())
        }
    }

    /// What a snapshot of the item shows.
    pub open spec fn report(self) -> ItemReportView {
        ItemReportView {
            item_name: self.name,
            total_bytes: self.total_bytes,
            bytes_completed: self.bytes_completed,
            transfer_bytes: self.transfer_bytes,
            transfer_bytes_completed: self.transfer_bytes_completed,
        }
    }
}

/// `Err` exactly if something is reported that exceeds the total.
pub open spec fn overrun_of(completed: u64, increment: u64, total: u64) -> Result<(), Overrun> {
    if increment > 0 && completed + increment > total {
        Err(Overrun { completed, increment, total })
    } else {
        Ok(())
    }
}

pub open spec fn larger(a: u64, b: u64) -> u64 {
    if a > b {
        a
    } else {
        b
    }
}

/// The items of a group.  `cells` holds every item ever created, in order of creation; `slots`
/// says which of them an identifier currently stands for.
#[verifier::ext_equal]
pub struct RegistryState {
    pub cells: Seq<ItemState>,
    pub slots: Map<UniqueID, int>,
}

impl RegistryState {
    pub open spec fn empty() -> RegistryState {
        RegistryState { cells: Seq::empty(), slots: Map::empty() }
    }

    /// Every registered identifier stands for an item that exists and bears that identifier.
    pub open spec fn wf(self) -> bool {
        forall|id: UniqueID| #[trigger]
            self.slots.contains_key(id) ==> 0 <= self.slots[id] < self.cells.len()
                && self.cells[self.slots[id]].id == id
    }

    /// The registry with `item` as its newest cell, and registered if `registered`.
    pub open spec fn with_new(self, item: ItemState, registered: bool) -> RegistryState {
        RegistryState {
            cells: self.cells.push(item),
            slots: if registered {
                self.slots.insert(item.id, self.cells.len() as int)
            } else {
                self.slots
            },
        }
    }

    pub open spec fn with_cell(self, slot: int, item: ItemState) -> RegistryState {
        RegistryState { cells: self.cells.update(slot, item), ..self }
    }

    /// The item that `id` currently stands for.
    pub open spec fn lookup(self, id: UniqueID) -> ItemState {
        self.cells[self.slots[id]]
    }

    /// Every registered item has completed all of its bytes.
    pub open spec fn all_bytes_complete(self) -> bool {
        forall|id: UniqueID| #[trigger]
            self.slots.contains_key(id) ==> self.lookup(id).bytes_completed == self.lookup(
                id,
            ).total_bytes
    }

    /// The snapshots of all registered items.
    pub open spec fn reports(self) -> Map<UniqueID, ItemReportView> {
        self.slots.map_entries(|id: UniqueID, slot: int| self.cells[slot].report())
    }
}

/// A group: the aggregate counters, the items, and the state of speed estimation.
#[verifier::ext_equal]
pub struct GroupState {
    pub total_bytes: u64,
    pub total_bytes_completed: u64,
    pub total_transfer_bytes: u64,
    pub total_transfer_bytes_completed: u64,
    pub items: RegistryState,
    pub speed_config: SpeedConfig,
    /// How many reports have been drawn so far.
    pub reports_drawn: u32,
}

impl GroupState {
    /// A group without items, all of whose counters are zero.
    pub open spec fn empty(speed_config: SpeedConfig) -> GroupState {
        GroupState {
            total_bytes: 0,
            total_bytes_completed: 0,
            total_transfer_bytes: 0,
            total_transfer_bytes_completed: 0,
            items: RegistryState::empty(),
            speed_config,
            reports_drawn: 0,
        }
    }

    pub open spec fn wf(self) -> bool {
        self.items.wf()
    }

    pub open spec fn has_slot(self, slot: int) -> bool {
        0 <= slot < self.items.cells.len()
    }

    pub open spec fn cell(self, slot: int) -> ItemState {
        self.items.cells[slot]
    }

    /// A fresh item joins the group, under its identifier if `registered`.
    pub open spec fn with_new_item(
        self,
        id: UniqueID,
        name: Seq<char>,
        registered: bool,
    ) -> GroupState {
        GroupState {
            items: self.items.with_new(ItemState::fresh(id, name), registered),
            ..self
        }
    }

    /// The size of an item is set; the group grows by as much as the item does.
    pub open spec fn item_resized(self, slot: int, total: u64, is_final: bool) -> GroupState {
        let item = self.cell(slot).resized(total, is_final);
        GroupState {
            total_bytes: self.total_bytes.wrapping_add(
                (item.total_bytes - self.cell(slot).total_bytes) as u64,
            ),
            items: self.items.with_cell(slot, item),
            ..self
        }
    }

    /// The transfer size of an item is set; the group grows by as much as the item does.
    pub open spec fn item_transfer_resized(self, slot: int, total: u64) -> GroupState {
        let item = self.cell(slot).transfer_resized(total);
        GroupState {
            total_transfer_bytes: self.total_transfer_bytes.wrapping_add(
                (item.transfer_bytes - self.cell(slot).transfer_bytes) as u64,
            ),
            items: self.items.with_cell(slot, item),
            ..self
        }
    }

    /// An item, and the group with it, completes `increment` more bytes.
    pub open spec fn item_advanced(self, slot: int, increment: u64) -> GroupState {
        GroupState {
            total_bytes_completed: self.total_bytes_completed.wrapping_add(increment),
            items: self.items.with_cell(slot, self.cell(slot).advanced(increment)),
            ..self
        }
    }

    /// An item, and the group with it, transfers `increment` more bytes.
    pub open spec fn item_transfer_advanced(self, slot: int, increment: u64) -> GroupState {
        GroupState {
            total_transfer_bytes_completed: self.total_transfer_bytes_completed.wrapping_add(
                increment,
            ),
            items: self.items.with_cell(slot, self.cell(slot).transfer_advanced(increment)),
            ..self
        }
    }

    /// One more report has been drawn.
    pub open spec fn report_drawn(self) -> GroupState {
        GroupState { reports_drawn: self.reports_drawn.saturating_add(1), ..self }
    }

    /// Enough reports have been drawn for as many observations to have been made as it takes for a
    /// rate to be shown.
    pub open spec fn may_show_rates(self) -> bool {
        self.reports_drawn >= self.speed_config.min_observations
    }

    /// No more is completed than there is, for both kinds of bytes.
    pub open spec fn within_totals(self) -> bool {
        &&& self.total_bytes_completed <= self.total_bytes
        &&& self.total_transfer_bytes_completed <= self.total_transfer_bytes
    }

    /// `outcome` says truthfully whether the group is complete, and if not, why.  An aggregate that
    /// does not match is named before any item.
    pub open spec fn completion_is(self, outcome: Result<(), Incomplete>) -> bool {
        match outcome {
            Ok(_) => self.totals_complete() && self.items.all_bytes_complete(),
            Err(Incomplete::Bytes { completed, total }) => {
                &&& completed == self.total_bytes_completed
                &&& total == self.total_bytes
                &&& completed != total
            },
            Err(Incomplete::TransferBytes { completed, total }) => {
                &&& self.total_bytes_completed == self.total_bytes
                &&& completed == self.total_transfer_bytes_completed
                &&& total == self.total_transfer_bytes
                &&& completed != total
            },
            Err(Incomplete::Item { id, completed, total }) => {
                &&& self.totals_complete()
                &&& self.items.slots.contains_key(id)
                &&& completed == self.items.lookup(id).bytes_completed
                &&& total == self.items.lookup(id).total_bytes
                &&& completed != total
            },
        }
    }

    /// Both aggregate completion counters have reached their totals.
    pub open spec fn totals_complete(self) -> bool {
        &&& self.total_bytes_completed == self.total_bytes
        &&& self.total_transfer_bytes_completed == self.total_transfer_bytes
    }
}

} // verus!
