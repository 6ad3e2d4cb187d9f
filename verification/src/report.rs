//! Snapshots of a group and of single items.
use vstd::prelude::*;

use crate::model::{GroupState, ItemReportView};

verus! {

/// Snapshot of one item's progress.
#[derive(Clone, Debug)]
pub struct ItemProgressReport {
    pub item_name: String,
    pub total_bytes: u64,
    pub bytes_completed: u64,
    pub transfer_bytes: u64,
    pub transfer_bytes_completed: u64,
}

impl View for ItemProgressReport {
    type V = ItemReportView;

    open spec fn view(&self) -> ItemReportView {
        ItemReportView {
            item_name: self.item_name@,
            total_bytes: self.total_bytes,
            bytes_completed: self.bytes_completed,
            transfer_bytes: self.transfer_bytes,
            transfer_bytes_completed: self.transfer_bytes_completed,
        }
    }
}

impl ItemReportView {
    /// No more is completed than there is, for both kinds of bytes.
    pub open spec fn within_totals(self) -> bool {
        &&& self.bytes_completed <= self.total_bytes
        &&& self.transfer_bytes_completed <= self.transfer_bytes
    }
}

impl ItemProgressReport {
    /// Whether no more is completed than there is, for both kinds of bytes.
    pub fn is_within_totals(&self) -> (within: bool)
        ensures
            within == self@.within_totals(),
    {
        self.bytes_completed <= self.total_bytes && self.transfer_bytes_completed
            <= self.transfer_bytes
    }
}

/// Snapshot of a group's aggregate progress.  `R` is the type in which rates are expressed;
/// rates are carried along and never computed with.
#[derive(Clone, Debug)]
pub struct GroupProgressReport<R> {
    pub total_bytes: u64,
    pub total_bytes_completed: u64,
    pub total_bytes_completion_rate: Option<R>,
    pub total_transfer_bytes: u64,
    pub total_transfer_bytes_completed: u64,
    pub total_transfer_bytes_completion_rate: Option<R>,
}

impl<R> GroupProgressReport<R> {
    /// The report that shows nothing yet.
    pub open spec fn zero() -> GroupProgressReport<R> {
        GroupProgressReport {
            total_bytes: 0,
            total_bytes_completed: 0,
            total_bytes_completion_rate: None,
            total_transfer_bytes: 0,
            total_transfer_bytes_completed: 0,
            total_transfer_bytes_completion_rate: None,
        }
    }

    /// The report of `state`, given the two estimated rates.  Rates are withheld until enough
    /// reports have been drawn.
    pub open spec fn of(
        state: GroupState,
        bytes_rate: Option<R>,
        transfer_rate: Option<R>,
    ) -> GroupProgressReport<R> {
        GroupProgressReport {
            total_bytes: state.total_bytes,
            total_bytes_completed: state.total_bytes_completed,
            total_bytes_completion_rate: if state.may_show_rates() {
                bytes_rate
            } else {
                None
            },
            total_transfer_bytes: state.total_transfer_bytes,
            total_transfer_bytes_completed: state.total_transfer_bytes_completed,
            total_transfer_bytes_completion_rate: if state.may_show_rates() {
                transfer_rate
            } else {
                None
            },
        }
    }
}

impl<R> Default for GroupProgressReport<R> {
    fn default() -> (report: Self)
        ensures
            report == GroupProgressReport::<R>::zero(),
    {
        GroupProgressReport {
            total_bytes: 0,
            total_bytes_completed: 0,
            total_bytes_completion_rate: None,
            total_transfer_bytes: 0,
            total_transfer_bytes_completed: 0,
            total_transfer_bytes_completion_rate: None,
        }
    }
}

} // verus!
