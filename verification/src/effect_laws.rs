//! What each operation does to the counters, and what each snapshot shows of them, said of the
//! counters themselves: every field that changes, by how much, and that no other field does.
use vstd::prelude::*;

use crate::group::GroupProgress;
use crate::group_laws::Operation;
use crate::item::ItemProgress;
use crate::model::{
    GroupState, Incomplete, ItemState, RegistryState, SpeedConfig, UniqueID,
};
use crate::report::{GroupProgressReport, ItemProgressReport};
use crate::shown;
use crate::update::{ItemProgressUpdate, ProgressUpdate};
use crate::updater::{ItemHandle, ItemProgressUpdater};

verus! {

/// A group begins with all counters at zero, without items and without a report drawn.
pub proof fn law_group_starts_from_zero(config: SpeedConfig)
    ensures
        ({
            let group = GroupState::empty(config);
            &&& group.total_bytes == 0
            &&& group.total_bytes_completed == 0
            &&& group.total_transfer_bytes == 0
            &&& group.total_transfer_bytes_completed == 0
            &&& group.items.cells.len() == 0
            &&& forall|id: UniqueID| !#[trigger] group.items.slots.contains_key(id)
            &&& group.speed_config == config
            &&& group.reports_drawn == 0
        }),
{
}

/// A new item has the identifier and the name that it is given, all of its counters at zero and
/// its size open.  If registered, it is the one found under its identifier from then on.  Nothing
/// else changes: neither the counters of the group, nor any other item, nor what any other
/// identifier stands for.
pub proof fn law_new_item_starts_from_zero(
    group: GroupState,
    id: UniqueID,
    name: Seq<char>,
    registered: bool,
)
    ensures
        ({
            let after = group.with_new_item(id, name, registered);
            let item = after.items.cells.last();
            &&& item.id == id
            &&& item.name == name
            &&& item.total_bytes == 0
            &&& item.bytes_completed == 0
            &&& item.transfer_bytes == 0
            &&& item.transfer_bytes_completed == 0
            &&& !item.size_finalized
            &&& after.items.cells.len() == group.items.cells.len() + 1
            &&& after.items.cells.drop_last() == group.items.cells
            &&& forall|other: UniqueID| #[trigger]
                after.items.slots.contains_key(other) <==> group.items.slots.contains_key(other)
                    || (registered && other == id)
            &&& registered ==> after.items.slots[id] == group.items.cells.len()
            &&& forall|other: UniqueID|
                group.items.slots.contains_key(other) && !(registered && other == id)
                    ==> #[trigger] after.items.slots[other] == group.items.slots[other]
            &&& after == (GroupState { items: after.items, ..group })
        }),
{
    let after = group.with_new_item(id, name, registered);
    assert(after.items.cells.drop_last() =~= group.items.cells);
}

/// An item size update that is not preceded by a final one leaves the item with the larger of the
/// size that it had and the size that it is given, and finalized exactly if the update is final.
/// The group gains what the item gains.  Nothing else changes; and nothing at all changes if the
/// size was finalized before.
pub proof fn law_item_size_becomes_the_larger(
    group: GroupState,
    slot: int,
    total: u64,
    is_final: bool,
)
    requires
        0 <= slot < group.items.cells.len(),
    ensures
        ({
            let after = group.item_resized(slot, total, is_final);
            let before_item = group.items.cells[slot];
            let after_item = after.items.cells[slot];
            &&& before_item.size_finalized ==> after == group
            &&& !before_item.size_finalized ==> {
                &&& after_item.total_bytes >= total
                &&& after_item.total_bytes >= before_item.total_bytes
                &&& after_item.total_bytes == total || after_item.total_bytes
                    == before_item.total_bytes
                &&& after_item.size_finalized == is_final
            }
            &&& after.total_bytes == (group.total_bytes + after_item.total_bytes
                - before_item.total_bytes) % 0x1_0000_0000_0000_0000
            &&& after_item == (ItemState {
                total_bytes: after_item.total_bytes,
                size_finalized: after_item.size_finalized,
                ..before_item
            })
            &&& after.items.cells == group.items.cells.update(slot, after_item)
            &&& after.items.slots == group.items.slots
            &&& after == (GroupState {
                total_bytes: after.total_bytes,
                items: after.items,
                ..group
            })
        }),
{
    let after = group.item_resized(slot, total, is_final);
    if group.items.cells[slot].size_finalized {
        assert(after =~= group);
    }
}

/// A transfer size update leaves the item with the larger of the transfer size that it had and the
/// one that it is given.  The group gains what the item gains.  Nothing else changes.
pub proof fn law_transfer_size_becomes_the_larger(group: GroupState, slot: int, total: u64)
    requires
        0 <= slot < group.items.cells.len(),
    ensures
        ({
            let after = group.item_transfer_resized(slot, total);
            let before_item = group.items.cells[slot];
            let after_item = after.items.cells[slot];
            &&& after_item.transfer_bytes >= total
            &&& after_item.transfer_bytes >= before_item.transfer_bytes
            &&& after_item.transfer_bytes == total || after_item.transfer_bytes
                == before_item.transfer_bytes
            &&& after.total_transfer_bytes == (group.total_transfer_bytes
                + after_item.transfer_bytes - before_item.transfer_bytes)
                % 0x1_0000_0000_0000_0000
            &&& after_item == (ItemState {
                transfer_bytes: after_item.transfer_bytes,
                ..before_item
            })
            &&& after.items.cells == group.items.cells.update(slot, after_item)
            &&& after.items.slots == group.items.slots
            &&& after == (GroupState {
                total_transfer_bytes: after.total_transfer_bytes,
                items: after.items,
                ..group
            })
        }),
{
}

/// Completed bytes that are reported are added to those of the item and to those of the group,
/// modulo the range of the counters.  Nothing else changes.
pub proof fn law_reported_bytes_are_added(group: GroupState, slot: int, increment: u64)
    requires
        0 <= slot < group.items.cells.len(),
    ensures
        ({
            let after = group.item_advanced(slot, increment);
            let before_item = group.items.cells[slot];
            let after_item = after.items.cells[slot];
            &&& after_item.bytes_completed == (before_item.bytes_completed + increment)
                % 0x1_0000_0000_0000_0000
            &&& after.total_bytes_completed == (group.total_bytes_completed + increment)
                % 0x1_0000_0000_0000_0000
            &&& after_item == (ItemState {
                bytes_completed: after_item.bytes_completed,
                ..before_item
            })
            &&& after.items.cells == group.items.cells.update(slot, after_item)
            &&& after.items.slots == group.items.slots
            &&& after == (GroupState {
                total_bytes_completed: after.total_bytes_completed,
                items: after.items,
                ..group
            })
        }),
{
}

/// Transferred bytes that are reported are added to those of the item and to those of the group,
/// modulo the range of the counters.  Nothing else changes.
pub proof fn law_reported_transfer_bytes_are_added(group: GroupState, slot: int, increment: u64)
    requires
        0 <= slot < group.items.cells.len(),
    ensures
        ({
            let after = group.item_transfer_advanced(slot, increment);
            let before_item = group.items.cells[slot];
            let after_item = after.items.cells[slot];
            &&& after_item.transfer_bytes_completed == (before_item.transfer_bytes_completed
                + increment) % 0x1_0000_0000_0000_0000
            &&& after.total_transfer_bytes_completed == (group.total_transfer_bytes_completed
                + increment) % 0x1_0000_0000_0000_0000
            &&& after_item == (ItemState {
                transfer_bytes_completed: after_item.transfer_bytes_completed,
                ..before_item
            })
            &&& after.items.cells == group.items.cells.update(slot, after_item)
            &&& after.items.slots == group.items.slots
            &&& after == (GroupState {
                total_transfer_bytes_completed: after.total_transfer_bytes_completed,
                items: after.items,
                ..group
            })
        }),
{
}

/// Drawing a report changes nothing but the number of reports drawn, which grows by one until it
/// can grow no more.
pub proof fn law_report_only_counts_itself(group: GroupState)
    ensures
        ({
            let after = group.report_drawn();
            &&& after.reports_drawn == group.reports_drawn + 1 || (after.reports_drawn == u32::MAX
                && group.reports_drawn == u32::MAX)
            &&& after == (GroupState { reports_drawn: after.reports_drawn, ..group })
        }),
{
}

/// A slot is there exactly if as many items have been created, and it holds the item that was
/// created in it.  An identifier stands for the item in the slot that it is registered for.
pub proof fn law_slots_hold_the_items(group: GroupState, slot: int, id: UniqueID)
    ensures
        group.has_slot(slot) <==> 0 <= slot < group.items.cells.len(),
        group.cell(slot) == group.items.cells[slot],
        group.items.lookup(id) == group.items.cells[group.items.slots[id]],
{
}

/// A group is well-formed exactly if every registered identifier leads to an item that bears it.
pub proof fn law_well_formed_group_finds_its_items(group: GroupState)
    ensures
        group.wf() <==> forall|id: UniqueID| #[trigger]
            group.items.slots.contains_key(id) ==> 0 <= group.items.slots[id]
                < group.items.cells.len() && group.items.cells[group.items.slots[id]].id == id,
{
}

/// The snapshot of an item shows its name and each of its four counters, whatever state the item
/// is in.
pub proof fn law_item_snapshot_shows_the_item(item: ItemState)
    ensures
        item.report().item_name == item.name,
        item.report().total_bytes == item.total_bytes,
        item.report().bytes_completed == item.bytes_completed,
        item.report().transfer_bytes == item.transfer_bytes,
        item.report().transfer_bytes_completed == item.transfer_bytes_completed,
{
}

/// There is a snapshot under every registered identifier and under no other.  It shows the name
/// and each of the four counters of the item that is registered, whatever state the item is in.
pub proof fn law_snapshots_show_the_registered_items(items: RegistryState, id: UniqueID)
    ensures
        items.reports().contains_key(id) <==> items.slots.contains_key(id),
        items.slots.contains_key(id) ==> {
            let shown = items.reports()[id];
            let item = items.cells[items.slots[id]];
            &&& shown.item_name == item.name
            &&& shown.total_bytes == item.total_bytes
            &&& shown.bytes_completed == item.bytes_completed
            &&& shown.transfer_bytes == item.transfer_bytes
            &&& shown.transfer_bytes_completed == item.transfer_bytes_completed
        },
{
}

/// The snapshot of a group shows each of its four counters, whatever the rates.  It shows both
/// rates as they are estimated once enough reports have been drawn, and neither of them before.
pub proof fn law_group_snapshot_shows_the_group<R>(
    group: GroupState,
    bytes_rate: Option<R>,
    transfer_rate: Option<R>,
)
    ensures
        ({
            let report = GroupProgressReport::of(group, bytes_rate, transfer_rate);
            &&& report.total_bytes == group.total_bytes
            &&& report.total_bytes_completed == group.total_bytes_completed
            &&& report.total_transfer_bytes == group.total_transfer_bytes
            &&& report.total_transfer_bytes_completed == group.total_transfer_bytes_completed
            &&& group.reports_drawn >= group.speed_config.min_observations ==> {
                &&& report.total_bytes_completion_rate == bytes_rate
                &&& report.total_transfer_bytes_completion_rate == transfer_rate
            }
            &&& group.reports_drawn < group.speed_config.min_observations ==> {
                &&& report.total_bytes_completion_rate is None
                &&& report.total_transfer_bytes_completion_rate is None
            }
        }),
{
}

/// The report that shows nothing yet has all counters at zero and no rate.
pub proof fn law_zero_report_shows_nothing<R>()
    ensures
        GroupProgressReport::<R>::zero().total_bytes == 0,
        GroupProgressReport::<R>::zero().total_bytes_completed == 0,
        GroupProgressReport::<R>::zero().total_bytes_completion_rate is None,
        GroupProgressReport::<R>::zero().total_transfer_bytes == 0,
        GroupProgressReport::<R>::zero().total_transfer_bytes_completed == 0,
        GroupProgressReport::<R>::zero().total_transfer_bytes_completion_rate is None,
{
}

/// A report of completed bytes fails exactly if something is reported that, together with what was
/// completed before, exceeds the size; the failure names the three numbers.
pub proof fn law_overrun_is_told_exactly(item: ItemState, increment: u64)
    ensures
        item.overrun(increment) is Ok <==> increment == 0 || item.bytes_completed + increment
            <= item.total_bytes,
        item.overrun(increment) matches Err(overrun) ==> {
            &&& overrun.completed == item.bytes_completed
            &&& overrun.increment == increment
            &&& overrun.total == item.total_bytes
        },
{
}

/// A report of transferred bytes fails exactly if something is reported that, together with what
/// was transferred before, exceeds the transfer size; the failure names the three numbers.
pub proof fn law_transfer_overrun_is_told_exactly(item: ItemState, increment: u64)
    ensures
        item.transfer_overrun(increment) is Ok <==> increment == 0
            || item.transfer_bytes_completed + increment <= item.transfer_bytes,
        item.transfer_overrun(increment) matches Err(overrun) ==> {
            &&& overrun.completed == item.transfer_bytes_completed
            &&& overrun.increment == increment
            &&& overrun.total == item.transfer_bytes
        },
{
}

/// An item is reported complete exactly if both of its completion counters equal their totals.
/// Otherwise the counter that does not is named with its total, completed bytes first.
pub proof fn law_item_completion_is_told_exactly(item: ItemState)
    ensures
        item.completion() is Ok <==> item.bytes_completed == item.total_bytes
            && item.transfer_bytes_completed == item.transfer_bytes,
        item.bytes_completed != item.total_bytes ==> item.completion() == Err::<(), Incomplete>(
            Incomplete::Bytes { completed: item.bytes_completed, total: item.total_bytes },
        ),
        item.bytes_completed == item.total_bytes && item.transfer_bytes_completed
            != item.transfer_bytes ==> item.completion() == Err::<(), Incomplete>(
            Incomplete::TransferBytes {
                completed: item.transfer_bytes_completed,
                total: item.transfer_bytes,
            },
        ),
        item.is_complete() <==> item.completion() is Ok,
{
}

/// A group is reported complete exactly if both of its completion counters equal their totals and
/// every registered item has completed all of its bytes.  Otherwise what is named does not match:
/// the completed bytes of the group first, then its transferred bytes, then some registered item.
pub proof fn law_group_completion_is_told_exactly(
    group: GroupState,
    outcome: Result<(), Incomplete>,
)
    requires
        group.completion_is(outcome),
    ensures
        outcome is Ok <==> {
            &&& group.total_bytes_completed == group.total_bytes
            &&& group.total_transfer_bytes_completed == group.total_transfer_bytes
            &&& forall|id: UniqueID| #[trigger]
                group.items.slots.contains_key(id)
                    ==> group.items.cells[group.items.slots[id]].bytes_completed
                    == group.items.cells[group.items.slots[id]].total_bytes
        },
        group.total_bytes_completed != group.total_bytes ==> outcome == Err::<(), Incomplete>(
            Incomplete::Bytes {
                completed: group.total_bytes_completed,
                total: group.total_bytes,
            },
        ),
        group.total_bytes_completed == group.total_bytes && group.total_transfer_bytes_completed
            != group.total_transfer_bytes ==> outcome == Err::<(), Incomplete>(
            Incomplete::TransferBytes {
                completed: group.total_transfer_bytes_completed,
                total: group.total_transfer_bytes,
            },
        ),
        group.total_bytes_completed == group.total_bytes && group.total_transfer_bytes_completed
            == group.total_transfer_bytes && outcome is Err ==> {
            &&& outcome->Err_0 matches Incomplete::Item { id, completed, total }
            &&& group.items.slots.contains_key(id)
            &&& completed == group.items.cells[group.items.slots[id]].bytes_completed
            &&& total == group.items.cells[group.items.slots[id]].total_bytes
            &&& completed != total
        },
{
    if outcome is Ok {
        assert forall|id: UniqueID| #[trigger]
            group.items.slots.contains_key(id) implies group.items.cells[group.items.slots[id]].bytes_completed
            == group.items.cells[group.items.slots[id]].total_bytes by {}
    }
}

/// An item, a group or a snapshot is within its totals exactly if neither completion counter
/// exceeds its total.
pub proof fn law_within_totals_compares_both_counters(item: ItemState, group: GroupState)
    ensures
        item.within_totals() <==> item.bytes_completed <= item.total_bytes
            && item.transfer_bytes_completed <= item.transfer_bytes,
        item.report().within_totals() <==> item.bytes_completed <= item.total_bytes
            && item.transfer_bytes_completed <= item.transfer_bytes,
        group.within_totals() <==> group.total_bytes_completed <= group.total_bytes
            && group.total_transfer_bytes_completed <= group.total_transfer_bytes,
{
}

/// A size update contradicts the final size exactly if the size is finalized, the update claims to
/// be final as well, and the two sizes differ.
pub proof fn law_only_another_final_size_contradicts(item: ItemState, total: u64, is_final: bool)
    ensures
        item.contradicts_final_size(total, is_final) <==> item.size_finalized && is_final && total
            != item.total_bytes,
{
}

/// All registered items have completed their bytes exactly if each of them has.
pub proof fn law_bytes_are_complete_item_by_item(items: RegistryState)
    ensures
        items.all_bytes_complete() <==> forall|id: UniqueID| #[trigger]
            items.slots.contains_key(id) ==> items.cells[items.slots[id]].bytes_completed
                == items.cells[items.slots[id]].total_bytes,
{
    if items.all_bytes_complete() {
        assert forall|id: UniqueID| #[trigger]
            items.slots.contains_key(id) implies items.cells[items.slots[id]].bytes_completed
            == items.cells[items.slots[id]].total_bytes by {}
    }
}

/// A fresh item has the identifier and the name that it is given, all counters at zero and its
/// size open.
pub proof fn law_fresh_item_has_done_nothing(id: UniqueID, name: Seq<char>)
    ensures
        ItemState::fresh(id, name).id == id,
        ItemState::fresh(id, name).name == name,
        ItemState::fresh(id, name).total_bytes == 0,
        ItemState::fresh(id, name).bytes_completed == 0,
        ItemState::fresh(id, name).transfer_bytes == 0,
        ItemState::fresh(id, name).transfer_bytes_completed == 0,
        !ItemState::fresh(id, name).size_finalized,
{
}

/// An open size becomes the larger of what it was and what it is given, and is finalized exactly
/// if the update is final; a finalized one stays.  Nothing else of the item changes.
pub proof fn law_item_takes_the_larger_size(item: ItemState, total: u64, is_final: bool)
    ensures
        ({
            let after = item.resized(total, is_final);
            &&& item.size_finalized ==> after == item
            &&& !item.size_finalized ==> {
                &&& after.total_bytes >= total
                &&& after.total_bytes >= item.total_bytes
                &&& after.total_bytes == total || after.total_bytes == item.total_bytes
                &&& after.size_finalized == is_final
            }
            &&& after == (ItemState {
                total_bytes: after.total_bytes,
                size_finalized: after.size_finalized,
                ..item
            })
        }),
{
}

/// The transfer size becomes the larger of what it was and what it is given, whatever state the
/// item is in.  Nothing else of the item changes.
pub proof fn law_item_takes_the_larger_transfer_size(item: ItemState, total: u64)
    ensures
        ({
            let after = item.transfer_resized(total);
            &&& after.transfer_bytes >= total
            &&& after.transfer_bytes >= item.transfer_bytes
            &&& after.transfer_bytes == total || after.transfer_bytes == item.transfer_bytes
            &&& after == (ItemState { transfer_bytes: after.transfer_bytes, ..item })
        }),
{
}

/// Reports of completed and of transferred bytes each add to their own counter, modulo its range,
/// whatever state the item is in.  Nothing else of the item changes.
pub proof fn law_item_adds_what_is_reported(item: ItemState, increment: u64)
    ensures
        item.advanced(increment) == (ItemState {
            bytes_completed: ((item.bytes_completed + increment)
                % 0x1_0000_0000_0000_0000) as u64,
            ..item
        }),
        item.transfer_advanced(increment) == (ItemState {
            transfer_bytes_completed: ((item.transfer_bytes_completed + increment)
                % 0x1_0000_0000_0000_0000) as u64,
            ..item
        }),
{
}

/// The completed bytes that a history reports of the item in `slot`.
pub open spec fn bytes_reported(history: Seq<Operation>, slot: int) -> int
    decreases history.len(),
{
    if history.len() == 0 {
        0
    } else {
        bytes_reported(history.drop_last(), slot) + match history.last() {
            Operation::ReportBytesCompleted { slot: reported, increment } => if reported == slot {
                increment as int
            } else {
                0
            },
            _ => 0,
        }
    }
}

/// The transferred bytes that a history reports of the item in `slot`.
pub open spec fn transfer_bytes_reported(history: Seq<Operation>, slot: int) -> int
    decreases history.len(),
{
    if history.len() == 0 {
        0
    } else {
        transfer_bytes_reported(history.drop_last(), slot) + match history.last() {
            Operation::ReportTransferBytesCompleted { slot: reported, increment } => if reported
                == slot {
                increment as int
            } else {
                0
            },
            _ => 0,
        }
    }
}

proof fn lemma_only_existing_items_are_reported_on(
    config: SpeedConfig,
    history: Seq<Operation>,
    slot: int,
)
    requires
        GroupState::empty(config).allows_all(history),
        GroupState::empty(config).after_all(history).items.cells.len() <= slot,
    ensures
        bytes_reported(history, slot) == 0,
        transfer_bytes_reported(history, slot) == 0,
    decreases history.len(),
{
    if history.len() > 0 {
        lemma_only_existing_items_are_reported_on(config, history.drop_last(), slot);
    }
}

/// At any time in the history of a group, each item has completed and transferred exactly what has
/// been reported of it, modulo the range of the counters.
pub proof fn law_items_hold_what_was_reported(
    config: SpeedConfig,
    history: Seq<Operation>,
    slot: int,
)
    requires
        GroupState::empty(config).allows_all(history),
        0 <= slot < GroupState::empty(config).after_all(history).items.cells.len(),
    ensures
        ({
            let item = GroupState::empty(config).after_all(history).items.cells[slot];
            &&& item.bytes_completed == bytes_reported(history, slot) % 0x1_0000_0000_0000_0000
            &&& item.transfer_bytes_completed == transfer_bytes_reported(history, slot)
                % 0x1_0000_0000_0000_0000
        }),
    decreases history.len(),
{
    if history.len() > 0 {
        let before = GroupState::empty(config).after_all(history.drop_last());
        if slot < before.items.cells.len() {
            law_items_hold_what_was_reported(config, history.drop_last(), slot);
        } else {
            lemma_only_existing_items_are_reported_on(config, history.drop_last(), slot);
        }
    }
}

/// `total` is a transfer size that a history gives to the item in `slot`.
pub open spec fn gives_transfer_size(history: Seq<Operation>, slot: int, total: u64) -> bool {
    exists|i: int|
        0 <= i < history.len() && #[trigger] history[i] == (Operation::UpdateTransferSize {
            slot,
            total,
        })
}

proof fn lemma_transfer_sizes_given(history: Seq<Operation>, slot: int, total: u64)
    requires
        history.len() > 0,
    ensures
        gives_transfer_size(history, slot, total) <==> gives_transfer_size(
            history.drop_last(),
            slot,
            total,
        ) || history.last() == (Operation::UpdateTransferSize { slot, total }),
{
    let before = history.drop_last();
    if gives_transfer_size(before, slot, total) {
        let i = choose|i: int|
            0 <= i < before.len() && #[trigger] before[i] == (Operation::UpdateTransferSize {
                slot,
                total,
            });
        assert(history[i] == before[i]);
    }
    if gives_transfer_size(history, slot, total) {
        let i = choose|i: int|
            0 <= i < history.len() && #[trigger] history[i] == (Operation::UpdateTransferSize {
                slot,
                total,
            });
        if i < before.len() {
            assert(history[i] == before[i]);
        }
    }
    assert(history.last() == history[history.len() - 1]);
}

/// At any time in the history of a group, the transfer size of an item is the largest that it has
/// been given, or what it was at the start if that is larger.
pub proof fn law_transfer_size_is_the_largest_given(
    group: GroupState,
    history: Seq<Operation>,
    slot: int,
)
    requires
        group.allows_all(history),
        0 <= slot < group.items.cells.len(),
    ensures
        ({
            let start = group.items.cells[slot].transfer_bytes;
            let size = group.after_all(history).items.cells[slot].transfer_bytes;
            &&& size >= start
            &&& forall|total: u64| #[trigger]
                gives_transfer_size(history, slot, total) ==> size >= total
            &&& size == start || gives_transfer_size(history, slot, size)
        }),
        group.after_all(history).items.cells.len() >= group.items.cells.len(),
    decreases history.len(),
{
    if history.len() > 0 {
        law_transfer_size_is_the_largest_given(group, history.drop_last(), slot);
        let size = group.after_all(history).items.cells[slot].transfer_bytes;
        assert forall|total: u64| #[trigger]
            gives_transfer_size(history, slot, total) implies size >= total by {
            lemma_transfer_sizes_given(history, slot, total);
        }
        lemma_transfer_sizes_given(history, slot, size);
    }
}

/// What contracts say of an item, of a snapshot and of an update is what the fields hold.
pub proof fn law_views_show_every_field<R>(
    item: ItemProgress,
    report: ItemProgressReport,
    item_update: ItemProgressUpdate,
    update: ProgressUpdate<R>,
)
    ensures
        item@ == (ItemState {
            id: item.id,
            name: item.name@,
            total_bytes: item.total_bytes,
            bytes_completed: item.bytes_completed,
            transfer_bytes: item.transfer_bytes,
            transfer_bytes_completed: item.transfer_bytes_completed,
            size_finalized: item.size_finalized,
        }),
        report@.item_name == report.item_name@,
        report@.total_bytes == report.total_bytes,
        report@.bytes_completed == report.bytes_completed,
        report@.transfer_bytes == report.transfer_bytes,
        report@.transfer_bytes_completed == report.transfer_bytes_completed,
        item_update@.tracking_id == item_update.tracking_id,
        item_update@.item_name == item_update.item_name@,
        item_update@.total_bytes == item_update.total_bytes,
        item_update@.bytes_completed == item_update.bytes_completed,
        item_update@.bytes_completion_increment == item_update.bytes_completion_increment,
        update@.item_updates.len() == update.item_updates@.len(),
        forall|i: int|
            0 <= i < update.item_updates@.len() ==> #[trigger] update@.item_updates[i]
                == update.item_updates@[i]@,
        update@.total_bytes == update.total_bytes,
        update@.total_bytes_increment == update.total_bytes_increment,
        update@.total_bytes_completed == update.total_bytes_completed,
        update@.total_bytes_completion_increment == update.total_bytes_completion_increment,
        update@.total_bytes_completion_rate == update.total_bytes_completion_rate,
        update@.total_transfer_bytes == update.total_transfer_bytes,
        update@.total_transfer_bytes_increment == update.total_transfer_bytes_increment,
        update@.total_transfer_bytes_completed == update.total_transfer_bytes_completed,
        update@.total_transfer_bytes_completion_increment
            == update.total_transfer_bytes_completion_increment,
        update@.total_transfer_bytes_completion_rate
            == update.total_transfer_bytes_completion_rate,
{
}

/// What contracts say of a group is what its fields hold.
pub(crate) proof fn law_group_view_shows_every_field(group: GroupProgress)
    ensures
        group@.total_bytes == group.total_bytes,
        group@.total_bytes_completed == group.total_bytes_completed,
        group@.total_transfer_bytes == group.total_transfer_bytes,
        group@.total_transfer_bytes_completed == group.total_transfer_bytes_completed,
        group@.items == group.items@,
        group@.speed_config == group.speed_config,
        group@.reports_drawn == group.reports_drawn,
{
}

/// A handle names the slot that it holds.
pub(crate) proof fn law_handle_names_its_slot(handle: ItemHandle)
    ensures
        handle.slot() == handle.slot,
{
}

/// An updater is about the item in the slot that its handle names.
pub proof fn law_updater_is_about_its_item(updater: ItemProgressUpdater<'_>)
    ensures
        updater.wf() <==> old(updater.group)@.wf() && 0 <= updater.handle.slot() < old(
            updater.group,
        )@.items.cells.len(),
        updater.state() == old(updater.group)@.items.cells[updater.handle.slot()],
{
}

/// What is shown for debugging are the identifier, the name and the two byte counters of an item,
/// and the four counters of a group.
pub proof fn law_shown_is_what_is_there(
    shown_item: shown::ItemProgress,
    item: ItemState,
    shown_group: shown::GroupProgress,
    group: GroupState,
)
    requires
        shown_item.shows(item),
        shown_group.shows(group),
    ensures
        shown_item.id == item.id,
        shown_item.name@ == item.name,
        shown_item.total_bytes == item.total_bytes,
        shown_item.bytes_completed == item.bytes_completed,
        shown_group.total_bytes == group.total_bytes,
        shown_group.total_bytes_completed == group.total_bytes_completed,
        shown_group.total_transfer_bytes == group.total_transfer_bytes,
        shown_group.total_transfer_bytes_completed == group.total_transfer_bytes_completed,
{
}

} // verus!
