//! Reporting progress on a single item.
use vstd::prelude::*;

use crate::group::GroupProgress;
use crate::item::ItemProgress;
use crate::model::{GroupState, Incomplete, ItemState, Overrun, SpeedConfig, UniqueID};
use crate::report::ItemProgressReport;
use crate::shown;

verus! {

/// Names an item of a group, so that its updater can be taken up again later.
#[derive(Clone, Copy, Debug, PartialEq, Eq, Structural)]
pub struct ItemHandle {
    pub(crate) slot: usize,
}

impl ItemHandle {
    /// The number of items that were created in the group before this one.
    pub open(crate) spec fn slot(self) -> int {
        self.slot as int
    }
}

/// Reports progress on a single item.  All progress updates go through this type, which keeps the
/// counters of the item and those of its group in step.
#[non_exhaustive]
pub struct ItemProgressUpdater<'a> {
    pub group: &'a mut GroupProgress,
    pub handle: ItemHandle,
}

impl<'a> ItemProgressUpdater<'a> {
    /// The group is well-formed and the item exists.
    pub open spec fn wf(self) -> bool {
        &&& self.group@.wf()
        &&& self.group@.has_slot(self.handle.slot())
    }

    /// The counters of the item.
    pub open spec fn state(self) -> ItemState {
        self.group@.cell(self.handle.slot())
    }

    /// Create a standalone item for debug/testing purposes: a throwaway group, and the handle of
    /// its only item, which is not registered.  The group has the default speed estimation
    /// parameters, which are handed in.
    pub fn new_standalone(id: UniqueID, name: &str, defaults: SpeedConfig) -> (standalone: (
        GroupProgress,
        ItemHandle,
    ))
        ensures
            standalone.0@ == GroupState::empty(defaults).with_new_item(id, name@, false),
            standalone.0@.wf(),
            standalone.1.slot() == 0,
    {
        let mut group = GroupProgress::new(defaults);
        let slot: usize = group.items.insert(ItemProgress::new(id, name), false);
        (group, ItemHandle { slot })
    }

    /// The handle with which this updater can be taken up again.
    pub fn handle(&self) -> (handle: ItemHandle)
        ensures
            handle == self.handle,
    {
        self.handle
    }

    /// Update the total item size, which never shrinks.  When `is_final` is true, subsequent calls
    /// are ignored.
    pub fn update_item_size(&mut self, total: u64, is_final: bool)
        requires
            old(self).wf(),
        ensures
            final(self).wf(),
            final(self).handle == old(self).handle,
            final(self).group@ == old(self).group@.item_resized(
                old(self).handle.slot(),
                total,
                is_final,
            ),
            *final(final(self).group) == *final(old(self).group),
    {
        let growth: u64 = self.group.items.cell_mut(self.handle.slot).resize(total, is_final);
        self.group.total_bytes = self.group.total_bytes.wrapping_add(growth);
    }

    /// Update the total transfer (network) bytes for this item, which never shrink.
    pub fn update_transfer_size(&mut self, total: u64)
        requires
            old(self).wf(),
        ensures
            final(self).wf(),
            final(self).handle == old(self).handle,
            final(self).group@ == old(self).group@.item_transfer_resized(
                old(self).handle.slot(),
                total,
            ),
            *final(final(self).group) == *final(old(self).group),
    {
        let growth: u64 = self.group.items.cell_mut(self.handle.slot).resize_transfer(total);
        self.group.total_transfer_bytes = self.group.total_transfer_bytes.wrapping_add(growth);
    }

    /// Report decompressed/processed bytes completed for this item.  They are counted in any case;
    /// `Err` tells that they are more than the item has.
    pub fn report_bytes_completed(&mut self, increment: u64) -> (outcome: Result<(), Overrun>)
        requires
            old(self).wf(),
        ensures
            final(self).wf(),
            final(self).handle == old(self).handle,
            final(self).group@ == old(self).group@.item_advanced(old(self).handle.slot(), increment),
            outcome == old(self).state().overrun(increment),
            *final(final(self).group) == *final(old(self).group),
    {
        if increment == 0 {
            assert(self.group@ =~= self.group@.item_advanced(self.handle.slot(), 0));
            return Ok(());
        }
        self.group.total_bytes_completed = self.group.total_bytes_completed.wrapping_add(increment);
        self.group.items.cell_mut(self.handle.slot).advance(increment)
    }

    /// Report transfer (network) bytes completed.  They are counted in any case; `Err` tells that
    /// they are more than the item has to transfer.
    pub fn report_transfer_bytes_completed(&mut self, increment: u64) -> (outcome: Result<(), Overrun>)
        requires
            old(self).wf(),
        ensures
            final(self).wf(),
            final(self).handle == old(self).handle,
            final(self).group@ == old(self).group@.item_transfer_advanced(
                old(self).handle.slot(),
                increment,
            ),
            outcome == old(self).state().transfer_overrun(increment),
            *final(final(self).group) == *final(old(self).group),
    {
        if increment == 0 {
            assert(self.group@ =~= self.group@.item_transfer_advanced(self.handle.slot(), 0));
            return Ok(());
        }
        self.group.total_transfer_bytes_completed =
        self.group.total_transfer_bytes_completed.wrapping_add(increment);
        self.group.items.cell_mut(self.handle.slot).advance_transfer(increment)
    }

    /// Alias for `report_bytes_completed`, used where data is written out.
    pub fn report_bytes_written(&mut self, increment: u64) -> (outcome: Result<(), Overrun>)
        requires
            old(self).wf(),
        ensures
            final(self).wf(),
            final(self).handle == old(self).handle,
            final(self).group@ == old(self).group@.item_advanced(old(self).handle.slot(), increment),
            outcome == old(self).state().overrun(increment),
            *final(final(self).group) == *final(old(self).group),
    {
        self.report_bytes_completed(increment)
    }

    /// Alias for `report_transfer_bytes_completed`, used where blocks are downloaded.
    pub fn report_transfer_progress(&mut self, delta: u64) -> (outcome: Result<(), Overrun>)
        requires
            old(self).wf(),
        ensures
            final(self).wf(),
            final(self).handle == old(self).handle,
            final(self).group@ == old(self).group@.item_transfer_advanced(
                old(self).handle.slot(),
                delta,
            ),
            outcome == old(self).state().transfer_overrun(delta),
            *final(final(self).group) == *final(old(self).group),
    {
        self.report_transfer_bytes_completed(delta)
    }

    /// Read the current bytes completed for this item.
    pub fn total_bytes_completed(&self) -> (completed: u64)
        requires
            self.wf(),
        ensures
            completed == self.state().bytes_completed,
    {
        self.item().bytes_completed
    }

    /// Verification that this item is fully complete (completed == total for both bytes and
    /// transfer): `Ok` if it is, and otherwise what is in the way.
    pub fn assert_complete(&self) -> (outcome: Result<(), Incomplete>)
        requires
            self.wf(),
        ensures
            outcome == self.state().completion(),
    {
        let item: &ItemProgress = self.item();
        if item.bytes_completed != item.total_bytes {
            return Err(
                Incomplete::Bytes { completed: item.bytes_completed, total: item.total_bytes },
            );
        }
        if item.transfer_bytes_completed != item.transfer_bytes {
            return Err(
                Incomplete::TransferBytes {
                    completed: item.transfer_bytes_completed,
                    total: item.transfer_bytes,
                },
            );
        }
        Ok(())
    }

    /// The item.
    pub fn item(&self) -> (item: &ItemProgress)
        requires
            self.wf(),
        ensures
            item@ == self.state(),
    {
        self.group.items.cell(self.handle.slot)
    }

    /// Snapshot of the item's progress.
    pub fn report(&self) -> (report: ItemProgressReport)
        requires
            self.wf(),
        ensures
            report@ == self.state().report(),
    {
        self.item().report()
    }

    /// What is shown of the updater for debugging.
    pub fn shown(&self) -> (shown: shown::ItemProgressUpdater)
        requires
            self.wf(),
        ensures
            shown.item.shows(self.state()),
    {
        shown::ItemProgressUpdater { item: self.item().shown() }
    }

    /// The group that the item belongs to.
    pub fn group(&self) -> (group: &GroupProgress)
        ensures
            *group == *old(self.group),
    {
        &*self.group
    }
}

} // verus!
