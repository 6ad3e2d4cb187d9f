//! Incremental updates, as callback-style consumers receive them.
use vstd::prelude::*;

use crate::model::UniqueID;

verus! {

/// Progress of one item since the previous update.
#[derive(Clone, Debug)]
pub struct ItemProgressUpdate {
    pub tracking_id: UniqueID,
    pub item_name: String,
    pub total_bytes: u64,
    pub bytes_completed: u64,
    pub bytes_completion_increment: u64,
}

/// What an [`ItemProgressUpdate`] says.
pub struct ItemUpdateView {
    pub tracking_id: UniqueID,
    pub item_name: Seq<char>,
    pub total_bytes: u64,
    pub bytes_completed: u64,
    pub bytes_completion_increment: u64,
}

impl View for ItemProgressUpdate {
    type V = ItemUpdateView;

    open spec fn view(&self) -> ItemUpdateView {
        ItemUpdateView {
            tracking_id: self.tracking_id,
            item_name: self.item_name@,
            total_bytes: self.total_bytes,
            bytes_completed: self.bytes_completed,
            bytes_completion_increment: self.bytes_completion_increment,
        }
    }
}

/// Progress of a whole group, or of a single item standing for one, since the previous update.
/// Rates of type `R` are carried along.
#[derive(Clone, Debug)]
pub struct ProgressUpdate<R> {
    pub item_updates: Vec<ItemProgressUpdate>,
    pub total_bytes: u64,
    pub total_bytes_increment: u64,
    pub total_bytes_completed: u64,
    pub total_bytes_completion_increment: u64,
    pub total_bytes_completion_rate: Option<R>,
    pub total_transfer_bytes: u64,
    pub total_transfer_bytes_increment: u64,
    pub total_transfer_bytes_completed: u64,
    pub total_transfer_bytes_completion_increment: u64,
    pub total_transfer_bytes_completion_rate: Option<R>,
}

/// What a [`ProgressUpdate`] says.
#[verifier::ext_equal]
pub struct ProgressUpdateView<R> {
    pub item_updates: Seq<ItemUpdateView>,
    pub total_bytes: u64,
    pub total_bytes_increment: u64,
    pub total_bytes_completed: u64,
    pub total_bytes_completion_increment: u64,
    pub total_bytes_completion_rate: Option<R>,
    pub total_transfer_bytes: u64,
    pub total_transfer_bytes_increment: u64,
    pub total_transfer_bytes_completed: u64,
    pub total_transfer_bytes_completion_increment: u64,
    pub total_transfer_bytes_completion_rate: Option<R>,
}

impl<R> View for ProgressUpdate<R> {
    type V = ProgressUpdateView<R>;

    open spec fn view(&self) -> ProgressUpdateView<R> {
        ProgressUpdateView {
            item_updates: self.item_updates@.map_values(|update: ItemProgressUpdate| update@),
            total_bytes: self.total_bytes,
            total_bytes_increment: self.total_bytes_increment,
            total_bytes_completed: self.total_bytes_completed,
            total_bytes_completion_increment: self.total_bytes_completion_increment,
            total_bytes_completion_rate: self.total_bytes_completion_rate,
            total_transfer_bytes: self.total_transfer_bytes,
            total_transfer_bytes_increment: self.total_transfer_bytes_increment,
            total_transfer_bytes_completed: self.total_transfer_bytes_completed,
            total_transfer_bytes_completion_increment:
                self.total_transfer_bytes_completion_increment,
            total_transfer_bytes_completion_rate: self.total_transfer_bytes_completion_rate,
        }
    }
}

impl<R> ProgressUpdateView<R> {
    /// The update carries no news: no item is listed and nothing has grown.
    pub open spec fn carries_nothing(self) -> bool {
        &&& self.item_updates.len() == 0
        &&& self.total_bytes_increment == 0
        &&& self.total_bytes_completion_increment == 0
        &&& self.total_transfer_bytes_increment == 0
        &&& self.total_transfer_bytes_completion_increment == 0
    }
}

impl<R> ProgressUpdate<R> {
    /// Whether the update carries no news: no item is listed and nothing has grown.
    pub fn is_empty(&self) -> (empty: bool)
        ensures
            empty == self@.carries_nothing(),
    {
        self.item_updates.len() == 0 && self.total_bytes_increment == 0
            && self.total_bytes_completion_increment == 0 && self.total_transfer_bytes_increment
            == 0 && self.total_transfer_bytes_completion_increment == 0
    }
}

} // verus!
