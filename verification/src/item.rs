//! Per-item progress counters.
use vstd::prelude::*;

use crate::model::{larger, overrun_of, ItemState, Overrun, UniqueID};
use crate::report::ItemProgressReport;
use crate::shown;

verus! {

/// Progress counters of one item.  Items are created by `GroupProgress::new_item`.
pub struct ItemProgress {
    pub id: UniqueID,
    pub name: String,
    pub total_bytes: u64,
    pub bytes_completed: u64,
    pub transfer_bytes: u64,
    pub transfer_bytes_completed: u64,
    pub size_finalized: bool,
}

impl View for ItemProgress {
    type V = ItemState;

    open spec fn view(&self) -> ItemState {
        ItemState {
            id: self.id,
            name: self.name@,
            total_bytes: self.total_bytes,
            bytes_completed: self.bytes_completed,
            transfer_bytes: self.transfer_bytes,
            transfer_bytes_completed: self.transfer_bytes_completed,
            size_finalized: self.size_finalized,
        }
    }
}

/// Raises `counter` to `total` if that is more, and returns by how much it has grown.
fn raise(counter: &mut u64, total: u64) -> (growth: u64)
    ensures
        *final(counter) == larger(total, *old(counter)),
        growth == *final(counter) - *old(counter),
{
    if total > *counter {
        let growth: u64 = total - *counter;
        *counter = total;
        growth
    } else {
        0
    }
}

/// Tells whether `increment` exceeds what is left of `total` after `completed`.
fn check_overrun(completed: u64, increment: u64, total: u64) -> (outcome: Result<(), Overrun>)
    ensures
        outcome == overrun_of(completed, increment, total),
{
    if increment > total.saturating_sub(completed) {
        Err(Overrun { completed, increment, total })
    } else {
        Ok(())
    }
}

impl ItemProgress {
    pub fn new(id: UniqueID, name: &str) -> (item: Self)
        ensures
            item@ == ItemState::fresh(id, name@),
    {
        ItemProgress {
            id,
            name: name.to_owned(),
            total_bytes: 0,
            bytes_completed: 0,
            transfer_bytes: 0,
            transfer_bytes_completed: 0,
            size_finalized: false,
        }
    }

    /// Snapshot of this item's progress.
    pub fn report(&self) -> (report: ItemProgressReport)
        ensures
            report@ == self@.report(),
    {
        ItemProgressReport {
            item_name: self.name.clone(),
            total_bytes: self.total_bytes,
            bytes_completed: self.bytes_completed,
            transfer_bytes: self.transfer_bytes,
            transfer_bytes_completed: self.transfer_bytes_completed,
        }
    }

    /// Whether no more is completed than there is, for both kinds of bytes.
    pub fn is_within_totals(&self) -> (within: bool)
        ensures
            within == self@.within_totals(),
    {
        self.bytes_completed <= self.total_bytes && self.transfer_bytes_completed
            <= self.transfer_bytes
    }

    /// What is shown of the item for debugging.
    pub fn shown(&self) -> (shown: shown::ItemProgress)
        ensures
            shown.shows(self@),
    {
        shown::ItemProgress {
            id: self.id,
            name: self.name.clone(),
            total_bytes: self.total_bytes,
            bytes_completed: self.bytes_completed,
        }
    }

    /// Whether a size update contradicts the size that the item has been given for good: it claims
    /// to be final too, and differs.  Such an update is ignored like any other after the final one.
    pub fn contradicts_final_size(&self, total: u64, is_final: bool) -> (contradicts: bool)
        ensures
            contradicts == self@.contradicts_final_size(total, is_final),
    {
        self.size_finalized && is_final && self.total_bytes != total
    }

    /// Sets the size of the item and returns by how much it has grown.  A finalized size is left
    /// alone, and no size is ever lowered.
    pub(crate) fn resize(&mut self, total: u64, is_final: bool) -> (growth: u64)
        ensures
            final(self)@ == old(self)@.resized(total, is_final),
            growth == final(self)@.total_bytes - old(self)@.total_bytes,
    {
        if self.size_finalized {
            return 0;
        }
        if is_final {
            self.size_finalized = true;
        }
        raise(&mut self.total_bytes, total)
    }

    /// Sets the transfer size of the item and returns by how much it has grown.
    pub(crate) fn resize_transfer(&mut self, total: u64) -> (growth: u64)
        ensures
            final(self)@ == old(self)@.transfer_resized(total),
            growth == final(self)@.transfer_bytes - old(self)@.transfer_bytes,
    {
        raise(&mut self.transfer_bytes, total)
    }

    /// Counts `increment` more completed bytes, and says whether they are more than the item has.
    pub(crate) fn advance(&mut self, increment: u64) -> (outcome: Result<(), Overrun>)
        ensures
            final(self)@ == old(self)@.advanced(increment),
            outcome == old(self)@.overrun(increment),
    {
        let completed: u64 = self.bytes_completed;
        self.bytes_completed = completed.wrapping_add(increment);
        check_overrun(completed, increment, self.total_bytes)
    }

    /// Counts `increment` more transferred bytes, and says whether they are more than the item has
    /// to transfer.
    pub(crate) fn advance_transfer(&mut self, increment: u64) -> (outcome: Result<(), Overrun>)
        ensures
            final(self)@ == old(self)@.transfer_advanced(increment),
            outcome == old(self)@.transfer_overrun(increment),
    {
        let completed: u64 = self.transfer_bytes_completed;
        self.transfer_bytes_completed = completed.wrapping_add(increment);
        check_overrun(completed, increment, self.transfer_bytes)
    }
}

} // verus!
