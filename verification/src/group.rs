//! Aggregate progress over all items of a group.
use std::collections::HashMap;
use std::time::Duration;

use vstd::prelude::*;

use crate::item::ItemProgress;
use crate::model::{GroupState, Incomplete, SpeedConfig, UniqueID};
use crate::registry::ItemRegistry;
use crate::report::{GroupProgressReport, ItemProgressReport};
use crate::shown;
use crate::updater::{ItemHandle, ItemProgressUpdater};

verus! {

broadcast use vstd::std_specs::hash::group_hash_axioms;

/// Aggregate progress across all items, with an item registry.  Owns the group-level counters and
/// the per-item progress.
///
/// Counters are unsigned 64-bit numbers and wrap around when they overflow.
pub struct GroupProgress {
    pub total_bytes: u64,
    pub total_bytes_completed: u64,
    pub total_transfer_bytes: u64,
    pub total_transfer_bytes_completed: u64,
    pub(crate) items: ItemRegistry,
    /// Parameters of the speed estimation.
    pub speed_config: SpeedConfig,
    /// How many reports have been drawn so far.
    pub reports_drawn: u32,
}

impl View for GroupProgress {
    type V = GroupState;

    open(crate) spec fn view(&self) -> GroupState {
        GroupState {
            total_bytes: self.total_bytes,
            total_bytes_completed: self.total_bytes_completed,
            total_transfer_bytes: self.total_transfer_bytes,
            total_transfer_bytes_completed: self.total_transfer_bytes_completed,
            items: self.items@,
            speed_config: self.speed_config,
            reports_drawn: self.reports_drawn,
        }
    }
}

impl GroupProgress {
    /// Create a group progress tracker using default speed estimation parameters.  The defaults
    /// are those of the estimator in use, which hands them in.
    pub fn new(defaults: SpeedConfig) -> (group: Self)
        ensures
            group@ == GroupState::empty(defaults),
            group@.wf(),
    {
        GroupProgress::with_speed_config(defaults.half_life, defaults.min_observations)
    }

    /// Create a group progress tracker with explicit speed estimation parameters.
    pub fn with_speed_config(half_life: Duration, min_observations: u32) -> (group: Self)
        ensures
            group@ == GroupState::empty(SpeedConfig { half_life, min_observations }),
            group@.wf(),
    {
        GroupProgress {
            total_bytes: 0,
            total_bytes_completed: 0,
            total_transfer_bytes: 0,
            total_transfer_bytes_completed: 0,
            items: ItemRegistry::new(),
            speed_config: SpeedConfig { half_life, min_observations },
            reports_drawn: 0,
        }
    }

    /// Create a new tracked item and register it.  An item that was registered under the same
    /// identifier before is no longer found under it, but keeps counting towards the group.
    /// Returns an updater for the caller to report progress with.
    pub fn new_item(&mut self, id: UniqueID, name: &str) -> (updater: ItemProgressUpdater<'_>)
        requires
            old(self)@.wf(),
        ensures
            updater.wf(),
            updater.handle.slot() == old(self)@.items.cells.len(),
            updater.group@ == old(self)@.with_new_item(id, name@, true),
            *final(updater.group) == *final(self),
    {
        let slot: usize = self.items.insert(ItemProgress::new(id, name), true);
        ItemProgressUpdater { group: self, handle: ItemHandle { slot } }
    }

    /// The updater of the item in the slot that `handle` names, or `None` if this group has not
    /// created as many items.  A handle names an item only within the group that it comes from:
    /// another group gives whatever item it has in that slot.
    pub fn updater(&mut self, handle: ItemHandle) -> (updater: Option<ItemProgressUpdater<'_>>)
        requires
            old(self)@.wf(),
        ensures
            updater is Some <==> old(self)@.has_slot(handle.slot()),
            updater matches Some(updater) ==> {
                &&& updater.wf()
                &&& updater.handle == handle
                &&& *updater.group == *old(self)
                &&& *final(updater.group) == *final(self)
            },
            updater is None ==> *final(self) == *old(self),
    {
        if handle.slot < self.items.len() {
            Some(ItemProgressUpdater { group: self, handle })
        } else {
            None
        }
    }

    /// Snapshot of aggregate progress with the given estimated rates, which are withheld until
    /// enough reports have been drawn.
    pub fn snapshot<R>(&self, bytes_rate: Option<R>, transfer_rate: Option<R>) -> (report:
        GroupProgressReport<R>)
        ensures
            report == GroupProgressReport::of(self@, bytes_rate, transfer_rate),
    {
        let shown: bool = self.reports_drawn >= self.speed_config.min_observations;
        GroupProgressReport {
            total_bytes: self.total_bytes,
            total_bytes_completed: self.total_bytes_completed,
            total_bytes_completion_rate: if shown {
                bytes_rate
            } else {
                None
            },
            total_transfer_bytes: self.total_transfer_bytes,
            total_transfer_bytes_completed: self.total_transfer_bytes_completed,
            total_transfer_bytes_completion_rate: if shown {
                transfer_rate
            } else {
                None
            },
        }
    }

    /// Snapshot of aggregate progress.
    ///
    /// `estimate` is given the two completion counters, as a new observation of the speed, and
    /// returns the bytes and the transfer rate that it estimates.  Rate fields remain `None` until
    /// as many reports have been drawn as the speed parameters ask for observations; from then on
    /// it is up to `estimate` whether there is a rate.  Repeated calls are not idempotent.
    pub fn report<R, F: FnOnce(u64, u64) -> (Option<R>, Option<R>)>(
        &mut self,
        estimate: F,
    ) -> (report: GroupProgressReport<R>)
        requires
            call_requires(
                estimate,
                (old(self)@.total_bytes_completed, old(self)@.total_transfer_bytes_completed),
            ),
        ensures
            final(self)@ == old(self)@.report_drawn(),
            exists|bytes_rate: Option<R>, transfer_rate: Option<R>|
                {
                    &&& #[trigger] call_ensures(
                        estimate,
                        (old(self)@.total_bytes_completed, old(self)@.total_transfer_bytes_completed),
                        (bytes_rate, transfer_rate),
                    )
                    &&& report == GroupProgressReport::of(
                        old(self)@.report_drawn(),
                        bytes_rate,
                        transfer_rate,
                    )
                },
    {
        self.reports_drawn = self.reports_drawn.saturating_add(1);
        let (bytes_rate, transfer_rate) = estimate(
            self.total_bytes_completed,
            self.total_transfer_bytes_completed,
        );
        self.snapshot(bytes_rate, transfer_rate)
    }

    /// Whether no more is completed than there is, for both kinds of bytes.
    pub fn is_within_totals(&self) -> (within: bool)
        ensures
            within == self@.within_totals(),
    {
        self.total_bytes_completed <= self.total_bytes && self.total_transfer_bytes_completed
            <= self.total_transfer_bytes
    }

    /// What is shown of the group for debugging.
    pub fn shown(&self) -> (shown: shown::GroupProgress)
        ensures
            shown.shows(self@),
    {
        shown::GroupProgress {
            total_bytes: self.total_bytes,
            total_bytes_completed: self.total_bytes_completed,
            total_transfer_bytes: self.total_transfer_bytes,
            total_transfer_bytes_completed: self.total_transfer_bytes_completed,
        }
    }

    /// Snapshot of all per-item progress.
    pub fn item_reports(&self) -> (reports: HashMap<UniqueID, ItemProgressReport>)
        requires
            self@.wf(),
        ensures
            reports@.map_values(|report: ItemProgressReport| report@) == self@.items.reports(),
    {
        self.items.reports()
    }

    /// Snapshot of one item's progress.
    pub fn item_report(&self, id: UniqueID) -> (report: Option<ItemProgressReport>)
        requires
            self@.wf(),
        ensures
            report is Some <==> self@.items.reports().contains_key(id),
            report matches Some(report) ==> report@ == self@.items.reports()[id],
    {
        match self.items.get(id) {
            Some(item) => Some(item.report()),
            None => None,
        }
    }

    /// Verification that the group and all registered items are complete: `Ok` if they are, and
    /// otherwise what is in the way.  The transfer bytes of single items are not looked at.
    pub fn assert_complete(&self) -> (outcome: Result<(), Incomplete>)
        requires
            self@.wf(),
        ensures
            self@.completion_is(outcome),
    {
        if self.total_bytes_completed != self.total_bytes {
            return Err(
                Incomplete::Bytes {
                    completed: self.total_bytes_completed,
                    total: self.total_bytes,
                },
            );
        }
        if self.total_transfer_bytes_completed != self.total_transfer_bytes {
            return Err(
                Incomplete::TransferBytes {
                    completed: self.total_transfer_bytes_completed,
                    total: self.total_transfer_bytes,
                },
            );
        }
        match self.items.find_incomplete() {
            Some(item) => Err(
                Incomplete::Item {
                    id: item.id,
                    completed: item.bytes_completed,
                    total: item.total_bytes,
                },
            ),
            None => Ok(()),
        }
    }
}

} // verus!
