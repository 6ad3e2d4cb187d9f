//! What holds of a group whatever is done to it.
//!
//! A history of a group is a sequence of [`Operation`]s.  Each of them is what one of the public
//! methods of `GroupProgress` and `ItemProgressUpdater` does to the state of the group.
use vstd::prelude::*;

use crate::model::{
    larger, GroupState, Incomplete, ItemReportView, ItemState, SpeedConfig, UniqueID,
};
use crate::report::GroupProgressReport;

verus! {

/// One step in the history of a group.
pub enum Operation {
    NewItem { id: UniqueID, name: Seq<char>, registered: bool },
    UpdateItemSize { slot: int, total: u64, is_final: bool },
    UpdateTransferSize { slot: int, total: u64 },
    ReportBytesCompleted { slot: int, increment: u64 },
    ReportTransferBytesCompleted { slot: int, increment: u64 },
    Report,
}

/// The item of an operation that concerns a single existing item.
pub open spec fn target(operation: Operation) -> Option<int> {
    match operation {
        Operation::UpdateItemSize { slot, .. } => Some(slot),
        Operation::UpdateTransferSize { slot, .. } => Some(slot),
        Operation::ReportBytesCompleted { slot, .. } => Some(slot),
        Operation::ReportTransferBytesCompleted { slot, .. } => Some(slot),
        _ => None,
    }
}

/// The four kinds of byte counters that items and groups have.
pub enum Counter {
    Total,
    Completed,
    TransferTotal,
    TransferCompleted,
}

impl ItemState {
    pub open spec fn counter(self, counter: Counter) -> u64 {
        match counter {
            Counter::Total => self.total_bytes,
            Counter::Completed => self.bytes_completed,
            Counter::TransferTotal => self.transfer_bytes,
            Counter::TransferCompleted => self.transfer_bytes_completed,
        }
    }
}

/// The sum of one counter over all items.
pub open spec fn sum_over(cells: Seq<ItemState>, counter: Counter) -> int
    decreases cells.len(),
{
    if cells.len() == 0 {
        0
    } else {
        sum_over(cells.drop_last(), counter) + cells.last().counter(counter)
    }
}

impl GroupState {
    pub open spec fn counter(self, counter: Counter) -> u64 {
        match counter {
            Counter::Total => self.total_bytes,
            Counter::Completed => self.total_bytes_completed,
            Counter::TransferTotal => self.total_transfer_bytes,
            Counter::TransferCompleted => self.total_transfer_bytes_completed,
        }
    }

    /// The sum of one counter over all items ever created in the group.
    pub open spec fn sum(self, counter: Counter) -> int {
        sum_over(self.items.cells, counter)
    }

    /// Every counter of the group is the sum of the items' counters, as far as 64 bits go.
    pub open spec fn balanced(self) -> bool {
        forall|counter: Counter| #[trigger]
            self.counter(counter) == self.sum(counter) % 0x1_0000_0000_0000_0000
    }

    /// Every counter of the group is exactly the sum of the items' counters, if the sum fits.
    pub open spec fn exact_where_sums_fit(self) -> bool {
        forall|counter: Counter|
            self.sum(counter) <= u64::MAX ==> #[trigger] self.counter(counter) == self.sum(counter)
    }

    /// The operation concerns an item that exists.
    pub open spec fn allows(self, operation: Operation) -> bool {
        match target(operation) {
            Some(slot) => self.has_slot(slot),
            None => true,
        }
    }

    /// The group after one operation.
    pub open spec fn after(self, operation: Operation) -> GroupState {
        match operation {
            Operation::NewItem { id, name, registered } => self.with_new_item(id, name, registered),
            Operation::UpdateItemSize { slot, total, is_final } => self.item_resized(
                slot,
                total,
                is_final,
            ),
            Operation::UpdateTransferSize { slot, total } => self.item_transfer_resized(
                slot,
                total,
            ),
            Operation::ReportBytesCompleted { slot, increment } => self.item_advanced(
                slot,
                increment,
            ),
            Operation::ReportTransferBytesCompleted { slot, increment } =>
                self.item_transfer_advanced(slot, increment),
            Operation::Report => self.report_drawn(),
        }
    }

    /// Each operation of the history concerns an item that exists by then.
    pub open spec fn allows_all(self, history: Seq<Operation>) -> bool
        decreases history.len(),
    {
        history.len() == 0 || {
            &&& self.allows_all(history.drop_last())
            &&& self.after_all(history.drop_last()).allows(history.last())
        }
    }

    /// The group after a whole history.
    pub open spec fn after_all(self, history: Seq<Operation>) -> GroupState
        decreases history.len(),
    {
        if history.len() == 0 {
            self
        } else {
            self.after_all(history.drop_last()).after(history.last())
        }
    }

    /// Neither the group nor the item overflows a counter in the operation.
    pub open spec fn holds_without_overflow(self, operation: Operation) -> bool {
        match operation {
            Operation::UpdateItemSize { slot, total, is_final } => self.total_bytes + (self.cell(
                slot,
            ).resized(total, is_final).total_bytes - self.cell(slot).total_bytes) <= u64::MAX,
            Operation::UpdateTransferSize { slot, total } => self.total_transfer_bytes + (
            self.cell(slot).transfer_resized(total).transfer_bytes - self.cell(slot).transfer_bytes)
                <= u64::MAX,
            Operation::ReportBytesCompleted { slot, increment } => {
                &&& self.total_bytes_completed + increment <= u64::MAX
                &&& self.cell(slot).bytes_completed + increment <= u64::MAX
            },
            Operation::ReportTransferBytesCompleted { slot, increment } => {
                &&& self.total_transfer_bytes_completed + increment <= u64::MAX
                &&& self.cell(slot).transfer_bytes_completed + increment <= u64::MAX
            },
            _ => true,
        }
    }

    /// No operation of the history overflows a counter.
    pub open spec fn holds_all_without_overflow(self, history: Seq<Operation>) -> bool
        decreases history.len(),
    {
        history.len() == 0 || {
            &&& self.holds_all_without_overflow(history.drop_last())
            &&& self.after_all(history.drop_last()).holds_without_overflow(history.last())
        }
    }

    /// All items have completed and transferred at most what there is.
    pub open spec fn items_within_totals(self) -> bool {
        forall|i: int|
            0 <= i < self.items.cells.len() ==> (#[trigger] self.items.cells[i]).within_totals()
    }

    /// Every item ever created is found under its identifier.
    pub open spec fn all_registered(self) -> bool {
        forall|slot: int|
            0 <= slot < self.items.cells.len() ==> {
                &&& self.items.slots.contains_key((#[trigger] self.items.cells[slot]).id)
                &&& self.items.slots[self.items.cells[slot].id] == slot
            }
    }

    /// All items have completed and transferred everything.
    pub open spec fn items_complete(self) -> bool {
        forall|i: int|
            0 <= i < self.items.cells.len() ==> (#[trigger] self.items.cells[i]).is_complete()
    }
}

proof fn lemma_sum_after_update(cells: Seq<ItemState>, slot: int, item: ItemState, counter: Counter)
    requires
        0 <= slot < cells.len(),
    ensures
        sum_over(cells.update(slot, item), counter) == sum_over(cells, counter)
            - cells[slot].counter(counter) + item.counter(counter),
    decreases cells.len(),
{
    let updated = cells.update(slot, item);
    if slot == cells.len() - 1 {
        assert(updated.drop_last() =~= cells.drop_last());
    } else {
        assert(updated.drop_last() =~= cells.drop_last().update(slot, item));
        lemma_sum_after_update(cells.drop_last(), slot, item, counter);
    }
}

/// A group stays balanced whatever is done to it: what an item gains, its group gains too.
pub proof fn law_operation_keeps_balance(group: GroupState, operation: Operation)
    requires
        group.wf(),
        group.balanced(),
        group.allows(operation),
    ensures
        group.after(operation).wf(),
        group.after(operation).balanced(),
{
    let after = group.after(operation);
    assert forall|counter: Counter| #[trigger]
        after.counter(counter) == after.sum(counter) % 0x1_0000_0000_0000_0000 by {
        assert(group.counter(counter) == group.sum(counter) % 0x1_0000_0000_0000_0000);
        match operation {
            Operation::NewItem { id, name, registered } => {
                assert(after.items.cells.drop_last() =~= group.items.cells);
            },
            Operation::UpdateItemSize { slot, total, is_final } => {
                lemma_sum_after_update(group.items.cells, slot, after.cell(slot), counter);
            },
            Operation::UpdateTransferSize { slot, total } => {
                lemma_sum_after_update(group.items.cells, slot, after.cell(slot), counter);
            },
            Operation::ReportBytesCompleted { slot, increment } => {
                lemma_sum_after_update(group.items.cells, slot, after.cell(slot), counter);
            },
            Operation::ReportTransferBytesCompleted { slot, increment } => {
                lemma_sum_after_update(group.items.cells, slot, after.cell(slot), counter);
            },
            Operation::Report => {},
        }
    }
    assert forall|id: UniqueID| #[trigger] after.items.slots.contains_key(id) implies {
        &&& 0 <= after.items.slots[id] < after.items.cells.len()
        &&& after.items.cells[after.items.slots[id]].id == id
    } by {
        assert(group.items.slots.contains_key(id) || operation is NewItem);
    }
}

/// At any time in the history of a group, each of its counters is the sum of the counters of all
/// items ever created in it, modulo the range of the counter; it is exactly the sum if that fits.
pub proof fn law_group_counters_are_sums(
    speed_config: SpeedConfig,
    history: Seq<Operation>,
)
    requires
        GroupState::empty(speed_config).allows_all(history),
    ensures
        GroupState::empty(speed_config).after_all(history).wf(),
        GroupState::empty(speed_config).after_all(history).balanced(),
        GroupState::empty(speed_config).after_all(history).exact_where_sums_fit(),
    decreases history.len(),
{
    let start = GroupState::empty(speed_config);
    let group = start.after_all(history);
    if history.len() > 0 {
        law_group_counters_are_sums(speed_config, history.drop_last());
        law_operation_keeps_balance(start.after_all(history.drop_last()), history.last());
    }
    assert forall|counter: Counter| group.sum(counter) <= u64::MAX implies #[trigger] group.counter(
        counter,
    ) == group.sum(counter) by {
        lemma_sum_is_nonnegative(group.items.cells, counter);
    }
}

proof fn lemma_sum_is_nonnegative(cells: Seq<ItemState>, counter: Counter)
    ensures
        sum_over(cells, counter) >= 0,
    decreases cells.len(),
{
    if cells.len() > 0 {
        lemma_sum_is_nonnegative(cells.drop_last(), counter);
    }
}

/// An operation on one item leaves all others as they are.
pub proof fn law_operation_concerns_one_item(group: GroupState, operation: Operation, other: int)
    requires
        group.allows(operation),
        group.has_slot(other),
        target(operation) != Some(other),
    ensures
        group.after(operation).cell(other) == group.cell(other),
{
}

/// Both operations set the size of the same item, and at least one of them for good.
pub open spec fn compete_for_final_size(first: Operation, second: Operation) -> bool {
    match (first, second) {
        (
            Operation::UpdateItemSize { slot, is_final, .. },
            Operation::UpdateItemSize { slot: other_slot, is_final: other_is_final, .. },
        ) => slot == other_slot && (is_final || other_is_final),
        _ => false,
    }
}

/// What an update does to its item.
spec fn item_after(item: ItemState, operation: Operation) -> ItemState {
    match operation {
        Operation::UpdateItemSize { total, is_final, .. } => item.resized(total, is_final),
        Operation::UpdateTransferSize { total, .. } => item.transfer_resized(total),
        Operation::ReportBytesCompleted { increment, .. } => item.advanced(increment),
        Operation::ReportTransferBytesCompleted { increment, .. } => item.transfer_advanced(
            increment,
        ),
        _ => item,
    }
}

/// What an update of `item` adds to a counter of the group.
spec fn growth(item: ItemState, operation: Operation, counter: Counter) -> u64 {
    match (operation, counter) {
        (Operation::UpdateItemSize { .. }, Counter::Total) => (item_after(
            item,
            operation,
        ).total_bytes - item.total_bytes) as u64,
        (Operation::UpdateTransferSize { .. }, Counter::TransferTotal) => (item_after(
            item,
            operation,
        ).transfer_bytes - item.transfer_bytes) as u64,
        (Operation::ReportBytesCompleted { increment, .. }, Counter::Completed) => increment,
        (
            Operation::ReportTransferBytesCompleted { increment, .. },
            Counter::TransferCompleted,
        ) => increment,
        _ => 0,
    }
}

proof fn lemma_update_is_local(group: GroupState, operation: Operation)
    requires
        group.allows(operation),
        target(operation) is Some,
    ensures
        ({
            let slot = target(operation).unwrap();
            let item = group.cell(slot);
            group.after(operation) == (GroupState {
                total_bytes: group.total_bytes.wrapping_add(
                    growth(item, operation, Counter::Total),
                ),
                total_bytes_completed: group.total_bytes_completed.wrapping_add(
                    growth(item, operation, Counter::Completed),
                ),
                total_transfer_bytes: group.total_transfer_bytes.wrapping_add(
                    growth(item, operation, Counter::TransferTotal),
                ),
                total_transfer_bytes_completed: group.total_transfer_bytes_completed.wrapping_add(
                    growth(item, operation, Counter::TransferCompleted),
                ),
                items: group.items.with_cell(slot, item_after(item, operation)),
                ..group
            })
        }),
{
}

proof fn lemma_item_updates_commute(item: ItemState, first: Operation, second: Operation)
    requires
        target(first) is Some,
        target(first) == target(second),
        !compete_for_final_size(first, second),
    ensures
        item_after(item_after(item, first), second) == item_after(item_after(item, second), first),
        forall|counter: Counter|
            growth(item, first, counter) + #[trigger] growth(
                item_after(item, first),
                second,
                counter,
            ) == growth(item, second, counter) + growth(item_after(item, second), first, counter),
{
}

proof fn lemma_wrapping_add_commutes(start: u64, a: u64, b: u64, c: u64, d: u64)
    requires
        a + b == c + d,
    ensures
        start.wrapping_add(a).wrapping_add(b) == start.wrapping_add(c).wrapping_add(d),
{
}

/// It does not matter in which order two updates come in, be they of different items or of the
/// same, unless they compete for the final size of an item.
pub proof fn law_updates_commute(group: GroupState, first: Operation, second: Operation)
    requires
        group.allows(first),
        group.allows(second),
        target(first) is Some,
        target(second) is Some,
        !compete_for_final_size(first, second),
    ensures
        group.after(first).after(second) == group.after(second).after(first),
{
    lemma_update_is_local(group, first);
    lemma_update_is_local(group, second);
    lemma_update_is_local(group.after(first), second);
    lemma_update_is_local(group.after(second), first);
    let slot = target(first).unwrap();
    let other = target(second).unwrap();
    let one = group.after(first).after(second);
    let two = group.after(second).after(first);
    if slot == other {
        lemma_item_updates_commute(group.cell(slot), first, second);
    }
    assert(one.items.cells =~= two.items.cells);
    lemma_wrapping_add_commutes(
        group.total_bytes,
        growth(group.cell(slot), first, Counter::Total),
        growth(group.after(first).cell(other), second, Counter::Total),
        growth(group.cell(other), second, Counter::Total),
        growth(group.after(second).cell(slot), first, Counter::Total),
    );
    lemma_wrapping_add_commutes(
        group.total_bytes_completed,
        growth(group.cell(slot), first, Counter::Completed),
        growth(group.after(first).cell(other), second, Counter::Completed),
        growth(group.cell(other), second, Counter::Completed),
        growth(group.after(second).cell(slot), first, Counter::Completed),
    );
    lemma_wrapping_add_commutes(
        group.total_transfer_bytes,
        growth(group.cell(slot), first, Counter::TransferTotal),
        growth(group.after(first).cell(other), second, Counter::TransferTotal),
        growth(group.cell(other), second, Counter::TransferTotal),
        growth(group.after(second).cell(slot), first, Counter::TransferTotal),
    );
    lemma_wrapping_add_commutes(
        group.total_transfer_bytes_completed,
        growth(group.cell(slot), first, Counter::TransferCompleted),
        growth(group.after(first).cell(other), second, Counter::TransferCompleted),
        growth(group.cell(other), second, Counter::TransferCompleted),
        growth(group.after(second).cell(slot), first, Counter::TransferCompleted),
    );
}

/// The size and the transfer size of an item never shrink, a finalized size never changes, and an
/// item keeps its identity, whatever happens to its group.
pub proof fn law_items_never_shrink(group: GroupState, history: Seq<Operation>, slot: int)
    requires
        group.allows_all(history),
        group.has_slot(slot),
    ensures
        group.after_all(history).has_slot(slot),
        group.after_all(history).cell(slot).id == group.cell(slot).id,
        group.after_all(history).cell(slot).name == group.cell(slot).name,
        group.after_all(history).cell(slot).total_bytes >= group.cell(slot).total_bytes,
        group.after_all(history).cell(slot).transfer_bytes >= group.cell(slot).transfer_bytes,
        group.cell(slot).size_finalized ==> {
            &&& group.after_all(history).cell(slot).size_finalized
            &&& group.after_all(history).cell(slot).total_bytes == group.cell(slot).total_bytes
        },
    decreases history.len(),
{
    if history.len() > 0 {
        law_items_never_shrink(group, history.drop_last(), slot);
    }
}

/// After a final size update, the size of the item is the larger of the given one and the one it
/// had, and stays so for good.
pub proof fn law_final_size_is_kept(
    group: GroupState,
    slot: int,
    total: u64,
    history: Seq<Operation>,
)
    requires
        group.has_slot(slot),
        !group.cell(slot).size_finalized,
        group.item_resized(slot, total, true).allows_all(history),
    ensures
        group.item_resized(slot, total, true).after_all(history).cell(slot).total_bytes == larger(
            total,
            group.cell(slot).total_bytes,
        ),
{
    law_items_never_shrink(group.item_resized(slot, total, true), history, slot);
}

/// Giving a size again, or a smaller one, changes nothing, and neither does reporting zero bytes.
pub proof fn law_updates_without_growth_change_nothing(group: GroupState, slot: int, total: u64)
    requires
        group.has_slot(slot),
    ensures
        total <= group.cell(slot).total_bytes ==> group.item_resized(slot, total, false) == group,
        total <= group.cell(slot).transfer_bytes ==> group.item_transfer_resized(slot, total)
            == group,
        group.item_advanced(slot, 0) == group,
        group.item_transfer_advanced(slot, 0) == group,
{
    let cells = group.items.cells;
    assert(cells.update(slot, cells[slot]) =~= cells);
}

/// Updating the size of an item a second time in the same way changes nothing.
pub proof fn law_size_updates_are_idempotent(
    group: GroupState,
    slot: int,
    total: u64,
    is_final: bool,
)
    requires
        group.has_slot(slot),
    ensures
        ({
            let once = group.item_resized(slot, total, is_final);
            once.item_resized(slot, total, is_final) == once
        }),
        ({
            let once = group.item_transfer_resized(slot, total);
            once.item_transfer_resized(slot, total) == once
        }),
{
    let resized = group.item_resized(slot, total, is_final);
    assert(resized.items.cells.update(slot, resized.cell(slot)) =~= resized.items.cells);
    let transfer_resized = group.item_transfer_resized(slot, total);
    assert(transfer_resized.items.cells.update(slot, transfer_resized.cell(slot))
        =~= transfer_resized.items.cells);
}

/// Bytes may be reported piecemeal: two reports count as much as one of their sum.
pub proof fn law_reported_bytes_add_up(group: GroupState, slot: int, first: u64, second: u64)
    requires
        group.has_slot(slot),
    ensures
        group.item_advanced(slot, first).item_advanced(slot, second) == group.item_advanced(
            slot,
            first.wrapping_add(second),
        ),
        group.item_transfer_advanced(slot, first).item_transfer_advanced(slot, second)
            == group.item_transfer_advanced(slot, first.wrapping_add(second)),
{
    assert(group.item_advanced(slot, first).item_advanced(slot, second).items.cells
        =~= group.item_advanced(slot, first.wrapping_add(second)).items.cells);
    assert(group.item_transfer_advanced(slot, first).item_transfer_advanced(
        slot,
        second,
    ).items.cells =~= group.item_transfer_advanced(
        slot,
        first.wrapping_add(second),
    ).items.cells);
}

/// As long as no report overruns, no item is ever more than complete.
pub proof fn law_items_stay_within_totals(group: GroupState, operation: Operation)
    requires
        group.allows(operation),
        group.items_within_totals(),
        match operation {
            Operation::ReportBytesCompleted { slot, increment } => group.cell(slot).overrun(
                increment,
            ) is Ok,
            Operation::ReportTransferBytesCompleted { slot, increment } => group.cell(
                slot,
            ).transfer_overrun(increment) is Ok,
            _ => true,
        },
    ensures
        group.after(operation).items_within_totals(),
{
}

/// A report overruns exactly if it leaves more completed than there is: short of overflow, the
/// item is then beyond its total, and otherwise it is not.  The bytes are counted either way.
pub proof fn law_overrun_leaves_item_beyond_total(group: GroupState, slot: int, increment: u64)
    requires
        group.has_slot(slot),
        increment > 0,
    ensures
        group.cell(slot).bytes_completed + increment <= u64::MAX ==> {
            let item = group.item_advanced(slot, increment).cell(slot);
            &&& item.bytes_completed == group.cell(slot).bytes_completed + increment
            &&& group.cell(slot).overrun(increment) is Err <==> item.bytes_completed
                > item.total_bytes
        },
        group.cell(slot).bytes_completed + increment > u64::MAX ==> group.cell(slot).overrun(
            increment,
        ) is Err,
        group.cell(slot).transfer_bytes_completed + increment <= u64::MAX ==> {
            let item = group.item_transfer_advanced(slot, increment).cell(slot);
            &&& item.transfer_bytes_completed == group.cell(slot).transfer_bytes_completed
                + increment
            &&& group.cell(slot).transfer_overrun(increment) is Err
                <==> item.transfer_bytes_completed > item.transfer_bytes
        },
        group.cell(slot).transfer_bytes_completed + increment > u64::MAX ==> group.cell(
            slot,
        ).transfer_overrun(increment) is Err,
{
}

proof fn lemma_sums_are_ordered(cells: Seq<ItemState>, lower: Counter, upper: Counter)
    requires
        forall|i: int|
            0 <= i < cells.len() ==> (#[trigger] cells[i]).counter(lower) <= cells[i].counter(
                upper,
            ),
    ensures
        sum_over(cells, lower) <= sum_over(cells, upper),
        sum_over(cells, lower) == sum_over(cells, upper) ==> forall|i: int|
            0 <= i < cells.len() ==> (#[trigger] cells[i]).counter(lower) == cells[i].counter(
                upper,
            ),
    decreases cells.len(),
{
    if cells.len() > 0 {
        assert(cells.last() == cells[cells.len() - 1]);
        lemma_sums_are_ordered(cells.drop_last(), lower, upper);
        if sum_over(cells, lower) == sum_over(cells, upper) {
            assert forall|i: int| 0 <= i < cells.len() implies (#[trigger] cells[i]).counter(lower)
                == cells[i].counter(upper) by {
                if i < cells.len() - 1 {
                    assert(cells.drop_last()[i] == cells[i]);
                }
            }
        }
    }
}

proof fn lemma_balanced_counters(group: GroupState)
    requires
        group.balanced(),
    ensures
        group.total_bytes == group.sum(Counter::Total) % 0x1_0000_0000_0000_0000,
        group.total_bytes_completed == group.sum(Counter::Completed) % 0x1_0000_0000_0000_0000,
        group.total_transfer_bytes == group.sum(Counter::TransferTotal) % 0x1_0000_0000_0000_0000,
        group.total_transfer_bytes_completed == group.sum(Counter::TransferCompleted)
            % 0x1_0000_0000_0000_0000,
        group.sum(Counter::Completed) >= 0,
        group.sum(Counter::TransferCompleted) >= 0,
{
    assert(group.counter(Counter::Total) == group.total_bytes);
    assert(group.counter(Counter::Completed) == group.total_bytes_completed);
    assert(group.counter(Counter::TransferTotal) == group.total_transfer_bytes);
    assert(group.counter(Counter::TransferCompleted) == group.total_transfer_bytes_completed);
    lemma_sum_is_nonnegative(group.items.cells, Counter::Completed);
    lemma_sum_is_nonnegative(group.items.cells, Counter::TransferCompleted);
}

proof fn lemma_sums_are_within_totals(group: GroupState)
    requires
        group.items_within_totals(),
    ensures
        group.sum(Counter::Completed) <= group.sum(Counter::Total),
        group.sum(Counter::TransferCompleted) <= group.sum(Counter::TransferTotal),
        group.sum(Counter::Completed) == group.sum(Counter::Total) ==> forall|i: int|
            0 <= i < group.items.cells.len() ==> (#[trigger] group.items.cells[i]).bytes_completed
                == group.items.cells[i].total_bytes,
        group.sum(Counter::TransferCompleted) == group.sum(Counter::TransferTotal) ==> forall|
            i: int,
        |
            0 <= i < group.items.cells.len() ==> (
            #[trigger] group.items.cells[i]).transfer_bytes_completed
                == group.items.cells[i].transfer_bytes,
{
    let cells = group.items.cells;
    assert forall|i: int| 0 <= i < cells.len() implies (#[trigger] cells[i]).counter(
        Counter::Completed,
    ) <= cells[i].counter(Counter::Total) && cells[i].counter(Counter::TransferCompleted)
        <= cells[i].counter(Counter::TransferTotal) by {
        assert(cells[i].within_totals());
    }
    lemma_sums_are_ordered(cells, Counter::Completed, Counter::Total);
    lemma_sums_are_ordered(cells, Counter::TransferCompleted, Counter::TransferTotal);
    if group.sum(Counter::Completed) == group.sum(Counter::Total) {
        assert forall|i: int| 0 <= i < cells.len() implies (#[trigger] cells[i]).bytes_completed
            == cells[i].total_bytes by {
            assert(cells[i].counter(Counter::Completed) == cells[i].counter(Counter::Total));
        }
    }
    if group.sum(Counter::TransferCompleted) == group.sum(Counter::TransferTotal) {
        assert forall|i: int| 0 <= i < cells.len() implies (
        #[trigger] cells[i]).transfer_bytes_completed == cells[i].transfer_bytes by {
            assert(cells[i].counter(Counter::TransferCompleted) == cells[i].counter(
                Counter::TransferTotal,
            ));
        }
    }
}

/// If no item is more than complete, and the totals fit their counters, then the group is not more
/// than complete either.
pub proof fn law_group_stays_within_totals(group: GroupState)
    requires
        group.balanced(),
        group.items_within_totals(),
        group.sum(Counter::Total) <= u64::MAX,
        group.sum(Counter::TransferTotal) <= u64::MAX,
    ensures
        group.within_totals(),
{
    lemma_balanced_counters(group);
    lemma_sums_are_within_totals(group);
}

/// Once all items are complete, the group is: verifying it succeeds.
pub proof fn law_complete_items_complete_the_group(
    group: GroupState,
    outcome: Result<(), Incomplete>,
)
    requires
        group.wf(),
        group.balanced(),
        group.items_complete(),
        group.completion_is(outcome),
    ensures
        group.totals_complete(),
        outcome is Ok,
{
    let cells = group.items.cells;
    lemma_balanced_counters(group);
    assert forall|i: int| 0 <= i < cells.len() implies (#[trigger] cells[i]).counter(
        Counter::Completed,
    ) == cells[i].counter(Counter::Total) && cells[i].counter(Counter::TransferCompleted)
        == cells[i].counter(Counter::TransferTotal) by {
        assert(cells[i].is_complete());
    }
    lemma_sums_are_ordered(cells, Counter::Completed, Counter::Total);
    lemma_sums_are_ordered(cells, Counter::Total, Counter::Completed);
    lemma_sums_are_ordered(cells, Counter::TransferCompleted, Counter::TransferTotal);
    lemma_sums_are_ordered(cells, Counter::TransferTotal, Counter::TransferCompleted);
    match outcome {
        Err(Incomplete::Item { id, .. }) => {
            assert(group.items.slots.contains_key(id));
            assert(group.items.lookup(id).is_complete());
        },
        _ => {},
    }
}

/// A fresh group shows no items, and verifying it succeeds, as there is nothing to complete.
pub proof fn law_fresh_group_is_complete(config: SpeedConfig, outcome: Result<(), Incomplete>)
    requires
        GroupState::empty(config).completion_is(outcome),
    ensures
        GroupState::empty(config).items.reports() == Map::<UniqueID, ItemReportView>::empty(),
        outcome is Ok,
{
    assert(GroupState::empty(config).items.reports() =~= Map::<UniqueID, ItemReportView>::empty());
}

/// If the aggregates of a group are complete, no item is more than complete, and the totals fit
/// their counters, then every single item is complete.
pub proof fn law_complete_group_has_complete_items(group: GroupState)
    requires
        group.balanced(),
        group.items_within_totals(),
        group.sum(Counter::Total) <= u64::MAX,
        group.sum(Counter::TransferTotal) <= u64::MAX,
        group.totals_complete(),
    ensures
        group.items_complete(),
{
    lemma_balanced_counters(group);
    lemma_sums_are_within_totals(group);
}

/// As long as nothing overflows, no counter of the group or of any item ever goes back.
pub proof fn law_counters_never_go_back(group: GroupState, history: Seq<Operation>)
    requires
        group.allows_all(history),
        group.holds_all_without_overflow(history),
    ensures
        forall|counter: Counter| #[trigger]
            group.counter(counter) <= group.after_all(history).counter(counter),
        forall|counter: Counter, slot: int|
            group.has_slot(slot) ==> #[trigger] group.cell(slot).counter(counter)
                <= group.after_all(history).cell(slot).counter(counter),
        group.after_all(history).items.cells.len() >= group.items.cells.len(),
    decreases history.len(),
{
    if history.len() > 0 {
        law_counters_never_go_back(group, history.drop_last());
        let before = group.after_all(history.drop_last());
        let after = group.after_all(history);
        assert forall|counter: Counter| #[trigger]
            group.counter(counter) <= after.counter(counter) by {
            assert(group.counter(counter) <= before.counter(counter));
        }
        assert forall|counter: Counter, slot: int| group.has_slot(slot) implies
            #[trigger] group.cell(slot).counter(counter) <= after.cell(slot).counter(counter) by {
            assert(group.cell(slot).counter(counter) <= before.cell(slot).counter(counter));
        }
    }
}

/// A snapshot of a group may read its completion counters first and its totals only later, after
/// more has happened: it never shows more completed than there is, provided that it would not
/// have shown so when it began and that nothing overflows meanwhile.
pub proof fn law_staggered_group_snapshot_is_sound(group: GroupState, history: Seq<Operation>)
    requires
        group.allows_all(history),
        group.holds_all_without_overflow(history),
        group.within_totals(),
    ensures
        group.total_bytes_completed <= group.after_all(history).total_bytes,
        group.total_transfer_bytes_completed <= group.after_all(history).total_transfer_bytes,
{
    law_counters_never_go_back(group, history);
    assert(group.counter(Counter::Total) <= group.after_all(history).counter(Counter::Total));
    assert(group.counter(Counter::TransferTotal) <= group.after_all(history).counter(
        Counter::TransferTotal,
    ));
}

/// The same of a snapshot of a single item, for which overflow plays no role.
pub proof fn law_staggered_item_snapshot_is_sound(
    group: GroupState,
    history: Seq<Operation>,
    slot: int,
)
    requires
        group.allows_all(history),
        group.has_slot(slot),
        group.cell(slot).within_totals(),
    ensures
        group.cell(slot).bytes_completed <= group.after_all(history).cell(slot).total_bytes,
        group.cell(slot).transfer_bytes_completed <= group.after_all(history).cell(
            slot,
        ).transfer_bytes,
{
    law_items_never_shrink(group, history, slot);
}

/// A new item is found under its identifier from the start, with nothing in it; all other
/// identifiers stand for what they stood for.  An unregistered item is found nowhere.
pub proof fn law_new_item_is_found(
    group: GroupState,
    id: UniqueID,
    name: Seq<char>,
    other: UniqueID,
)
    requires
        group.wf(),
        other != id,
    ensures
        ({
            let reports = group.with_new_item(id, name, true).items.reports();
            &&& reports.contains_key(id)
            &&& reports[id] == ItemState::fresh(id, name).report()
            &&& reports.contains_key(other) == group.items.reports().contains_key(other)
            &&& reports.contains_key(other) ==> reports[other] == group.items.reports()[other]
        }),
        group.with_new_item(id, name, false).items.reports() == group.items.reports(),
{
    let before = group.items;
    if before.slots.contains_key(other) {
        assert(0 <= before.slots[other] < before.cells.len());
    }
    let unregistered = group.with_new_item(id, name, false).items;
    assert forall|known: UniqueID| #[trigger] before.slots.contains_key(known) implies
        unregistered.reports()[known] == before.reports()[known] by {
        assert(0 <= before.slots[known] < before.cells.len());
    }
    assert(unregistered.reports() =~= before.reports());
}

/// As long as every new item is registered under an identifier of its own, every item ever created
/// is found under its identifier.
pub proof fn law_items_with_unique_ids_stay_registered(group: GroupState, operation: Operation)
    requires
        group.wf(),
        group.all_registered(),
        group.allows(operation),
        operation matches Operation::NewItem { id, registered, .. } ==> registered
            && !group.items.slots.contains_key(id),
    ensures
        group.after(operation).all_registered(),
{
    let before = group.items;
    let after = group.after(operation).items;
    assert forall|slot: int| 0 <= slot < after.cells.len() implies {
        &&& after.slots.contains_key((#[trigger] after.cells[slot]).id)
        &&& after.slots[after.cells[slot].id] == slot
    } by {
        if slot < before.cells.len() {
            assert(before.slots.contains_key(before.cells[slot].id));
        }
    }
}

/// How many reports have been drawn in a history.
pub open spec fn reports_in(history: Seq<Operation>) -> nat
    decreases history.len(),
{
    if history.len() == 0 {
        0
    } else {
        reports_in(history.drop_last()) + (if history.last() is Report {
            1nat
        } else {
            0nat
        })
    }
}

proof fn lemma_reports_are_counted(group: GroupState, history: Seq<Operation>)
    ensures
        ({
            let drawn = group.reports_drawn + reports_in(history);
            group.after_all(history).reports_drawn == if drawn <= u32::MAX {
                drawn
            } else {
                u32::MAX as int
            }
        }),
        group.after_all(history).speed_config == group.speed_config,
    decreases history.len(),
{
    if history.len() > 0 {
        lemma_reports_are_counted(group, history.drop_last());
    }
}

/// A report of a group shows no rate, whatever is estimated, until as many reports have been drawn
/// as the speed parameters ask for observations, that report included.
pub proof fn law_rates_await_enough_observations<R>(
    config: SpeedConfig,
    history: Seq<Operation>,
    bytes_rate: Option<R>,
    transfer_rate: Option<R>,
)
    requires
        GroupState::empty(config).allows_all(history),
        reports_in(history) + 1 < config.min_observations,
    ensures
        ({
            let group = GroupState::empty(config).after_all(history).report_drawn();
            let report = GroupProgressReport::of(group, bytes_rate, transfer_rate);
            &&& report.total_bytes_completion_rate is None
            &&& report.total_transfer_bytes_completion_rate is None
        }),
{
    lemma_reports_are_counted(GroupState::empty(config), history);
}

/// Once as many reports have been drawn as the speed parameters ask for observations, that report
/// included, every report of a group shows both rates as they are estimated, however many reports
/// follow and whatever else happens in between.
pub proof fn law_rates_stay_shown<R>(
    config: SpeedConfig,
    history: Seq<Operation>,
    bytes_rate: Option<R>,
    transfer_rate: Option<R>,
)
    requires
        GroupState::empty(config).allows_all(history),
        reports_in(history) + 1 >= config.min_observations,
    ensures
        ({
            let group = GroupState::empty(config).after_all(history).report_drawn();
            let report = GroupProgressReport::of(group, bytes_rate, transfer_rate);
            &&& report.total_bytes_completion_rate == bytes_rate
            &&& report.total_transfer_bytes_completion_rate == transfer_rate
        }),
{
    lemma_reports_are_counted(GroupState::empty(config), history);
}

} // verus!
