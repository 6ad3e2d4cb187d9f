//! What a consumer of incremental updates can rely on.
use vstd::prelude::*;

use crate::bridge::{
    completed_in, counters_of, is_group_diff, is_group_news, is_news, item_diff,
    law_update_is_empty_iff_no_news, ItemBridgeState, ItemReports,
};
use crate::group_laws::{law_counters_never_go_back, Counter, Operation};
use crate::model::{GroupState, ItemReportView, UniqueID};
use crate::report::GroupProgressReport;
use crate::update::ProgressUpdateView;

verus! {

impl<R> GroupProgressReport<R> {
    pub open spec fn counter(self, counter: Counter) -> u64 {
        match counter {
            Counter::Total => self.total_bytes,
            Counter::Completed => self.total_bytes_completed,
            Counter::TransferTotal => self.total_transfer_bytes,
            Counter::TransferCompleted => self.total_transfer_bytes_completed,
        }
    }
}

impl ItemReportView {
    pub open spec fn counter(self, counter: Counter) -> u64 {
        match counter {
            Counter::Total => self.total_bytes,
            Counter::Completed => self.bytes_completed,
            Counter::TransferTotal => self.transfer_bytes,
            Counter::TransferCompleted => self.transfer_bytes_completed,
        }
    }
}

impl<R> ProgressUpdateView<R> {
    /// By how much the update says that a counter has grown.
    pub open spec fn increment(self, counter: Counter) -> u64 {
        match counter {
            Counter::Total => self.total_bytes_increment,
            Counter::Completed => self.total_bytes_completion_increment,
            Counter::TransferTotal => self.total_transfer_bytes_increment,
            Counter::TransferCompleted => self.total_transfer_bytes_completion_increment,
        }
    }

    /// By how much the update says that the completed bytes of item `id` have grown; zero if it
    /// does not list the item.
    pub open spec fn item_increment(self, id: UniqueID) -> u64 {
        if exists|i: int|
            0 <= i < self.item_updates.len() && (#[trigger] self.item_updates[i]).tracking_id
                == id {
            let i = choose|i: int|
                0 <= i < self.item_updates.len() && (#[trigger] self.item_updates[i]).tracking_id
                    == id;
            self.item_updates[i].bytes_completion_increment
        } else {
            0
        }
    }
}

/// What a consumer that adds up increments arrives at.
pub open spec fn accumulated(increments: Seq<u64>) -> int
    decreases increments.len(),
{
    if increments.len() == 0 {
        0
    } else {
        accumulated(increments.drop_last()) + increments.last()
    }
}

/// `values` never go back.
pub open spec fn nondecreasing(values: Seq<u64>) -> bool {
    forall|i: int, j: int| 0 <= i <= j < values.len() ==> values[i] <= values[j]
}

/// `increments[i]` is by how much `values[i]` exceeds the value before it, or zero at the start.
pub open spec fn are_increments(values: Seq<u64>, increments: Seq<u64>) -> bool {
    &&& values.len() == increments.len()
    &&& forall|i: int|
        0 <= i < values.len() ==> #[trigger] increments[i] == values[i].saturating_sub(
            if i == 0 {
                0
            } else {
                values[i - 1]
            },
        )
}

proof fn lemma_increments_add_up(values: Seq<u64>, increments: Seq<u64>)
    requires
        are_increments(values, increments),
        values.len() > 0,
    ensures
        accumulated(increments) >= values.last(),
        nondecreasing(values) ==> accumulated(increments) == values.last(),
    decreases values.len(),
{
    reveal_with_fuel(accumulated, 2);
    assert(increments.last() == increments[increments.len() - 1]);
    if values.len() > 1 {
        lemma_increments_add_up(values.drop_last(), increments.drop_last());
        assert(values.drop_last().last() == values[values.len() - 2]);
        if nondecreasing(values) {
            assert(nondecreasing(values.drop_last()));
            assert(values[values.len() - 2] <= values[values.len() - 1]);
        }
    }
}

/// One poll of a group.
pub struct Poll<R> {
    pub group: GroupProgressReport<R>,
    pub items: ItemReports,
}

/// The poll against which poll number `i` is compared.
pub open spec fn poll_before<R>(polls: Seq<Poll<R>>, i: int) -> Poll<R> {
    if i == 0 {
        Poll { group: GroupProgressReport::zero(), items: ItemReports::empty() }
    } else {
        polls[i - 1]
    }
}

/// `updates` are what successive polls of a group yield, beginning with a fresh bridge.
pub open spec fn are_group_diffs<R>(
    polls: Seq<Poll<R>>,
    updates: Seq<ProgressUpdateView<R>>,
) -> bool {
    &&& polls.len() == updates.len()
    &&& forall|i: int|
        #![trigger updates[i]]
        0 <= i < polls.len() ==> is_group_diff(
            poll_before(polls, i).group,
            poll_before(polls, i).items,
            polls[i].group,
            polls[i].items,
            updates[i],
        )
}

/// The values that a counter takes in successive polls.
pub open spec fn polled<R>(polls: Seq<Poll<R>>, counter: Counter) -> Seq<u64> {
    polls.map_values(|poll: Poll<R>| poll.group.counter(counter))
}

/// The completed bytes of item `id` in successive polls; zero where it does not occur.
pub open spec fn polled_item<R>(polls: Seq<Poll<R>>, id: UniqueID) -> Seq<u64> {
    polls.map_values(|poll: Poll<R>| completed_in(poll.items, id))
}

pub open spec fn increments_of<R>(updates: Seq<ProgressUpdateView<R>>, counter: Counter) -> Seq<
    u64,
> {
    updates.map_values(|update: ProgressUpdateView<R>| update.increment(counter))
}

pub open spec fn item_increments_of<R>(updates: Seq<ProgressUpdateView<R>>, id: UniqueID) -> Seq<
    u64,
> {
    updates.map_values(|update: ProgressUpdateView<R>| update.item_increment(id))
}

/// A consumer that adds up the increments of a counter arrives at its current value, as long as
/// the counter never goes back; if it does go back, the consumer arrives at no less.
pub proof fn law_group_increments_add_up<R>(
    polls: Seq<Poll<R>>,
    updates: Seq<ProgressUpdateView<R>>,
    counter: Counter,
)
    requires
        are_group_diffs(polls, updates),
        polls.len() > 0,
    ensures
        accumulated(increments_of(updates, counter)) >= polls.last().group.counter(counter),
        nondecreasing(polled(polls, counter)) ==> accumulated(increments_of(updates, counter))
            == polls.last().group.counter(counter),
{
    let values = polled(polls, counter);
    let increments = increments_of(updates, counter);
    assert forall|i: int| 0 <= i < values.len() implies #[trigger] increments[i]
        == values[i].saturating_sub(
        if i == 0 {
            0
        } else {
            values[i - 1]
        },
    ) by {
        assert(is_group_diff(
            poll_before(polls, i).group,
            poll_before(polls, i).items,
            polls[i].group,
            polls[i].items,
            updates[i],
        ));
    }
    lemma_increments_add_up(values, increments);
}

/// `states` are those in which a group is when it is polled: between two of them, what `histories`
/// say happens, without overflow.
pub open spec fn are_polled_states(
    states: Seq<GroupState>,
    histories: Seq<Seq<Operation>>,
) -> bool {
    &&& states.len() == histories.len() + 1
    &&& forall|i: int|
        #![trigger histories[i]]
        0 <= i < histories.len() ==> {
            &&& states[i].allows_all(histories[i])
            &&& states[i].holds_all_without_overflow(histories[i])
            &&& states[i + 1] == states[i].after_all(histories[i])
        }
}

proof fn lemma_polled_states_never_go_back(
    states: Seq<GroupState>,
    histories: Seq<Seq<Operation>>,
    counter: Counter,
    i: int,
    j: int,
)
    requires
        are_polled_states(states, histories),
        0 <= i <= j < states.len(),
    ensures
        states[i].counter(counter) <= states[j].counter(counter),
    decreases j - i,
{
    if i < j {
        lemma_polled_states_never_go_back(states, histories, counter, i, j - 1);
        law_counters_never_go_back(states[j - 1], histories[j - 1]);
        assert(states[j - 1].counter(counter) <= states[j - 1].after_all(
            histories[j - 1],
        ).counter(counter));
    }
}

/// A consumer that adds up the increments it is sent for a counter of a group always arrives at
/// what the group has counted by the last poll, whatever happens between polls, as long as nothing
/// overflows.
pub proof fn law_consumer_keeps_up_with_group<R>(
    states: Seq<GroupState>,
    histories: Seq<Seq<Operation>>,
    polls: Seq<Poll<R>>,
    updates: Seq<ProgressUpdateView<R>>,
    counter: Counter,
)
    requires
        are_polled_states(states, histories),
        polls.len() == states.len(),
        forall|i: int|
            0 <= i < polls.len() ==> (#[trigger] polls[i]).group == GroupProgressReport::of(
                states[i],
                polls[i].group.total_bytes_completion_rate,
                polls[i].group.total_transfer_bytes_completion_rate,
            ),
        are_group_diffs(polls, updates),
    ensures
        accumulated(increments_of(sent(updates), counter)) == states.last().counter(counter),
{
    let values = polled(polls, counter);
    assert forall|i: int, j: int| 0 <= i <= j < values.len() implies values[i] <= values[j] by {
        assert(values[i] == polls[i].group.counter(counter));
        assert(values[j] == polls[j].group.counter(counter));
        lemma_polled_states_never_go_back(states, histories, counter, i, j);
    }
    assert(nondecreasing(values));
    assert(polls.last() == polls[polls.len() - 1]);
    law_group_increments_add_up(polls, updates, counter);
    law_skipped_updates_lose_nothing(updates, counter);
}

proof fn lemma_item_increment<R>(
    prev: Poll<R>,
    now: Poll<R>,
    update: ProgressUpdateView<R>,
    id: UniqueID,
)
    requires
        is_group_diff(prev.group, prev.items, now.group, now.items, update),
    ensures
        update.item_increment(id) == completed_in(now.items, id).saturating_sub(
            completed_in(prev.items, id),
        ),
{
    if exists|i: int|
        0 <= i < update.item_updates.len() && (#[trigger] update.item_updates[i]).tracking_id
            == id {
    } else {
        assert(!is_news(prev.items, now.items, id));
    }
}

/// A consumer that adds up the increments listed for an item arrives at the bytes completed of
/// it, as long as these never go back; if they do go back, the consumer arrives at no less.
pub proof fn law_listed_item_increments_add_up<R>(
    polls: Seq<Poll<R>>,
    updates: Seq<ProgressUpdateView<R>>,
    id: UniqueID,
)
    requires
        are_group_diffs(polls, updates),
        polls.len() > 0,
    ensures
        accumulated(item_increments_of(updates, id)) >= completed_in(polls.last().items, id),
        nondecreasing(polled_item(polls, id)) ==> accumulated(item_increments_of(updates, id))
            == completed_in(polls.last().items, id),
{
    let values = polled_item(polls, id);
    let increments = item_increments_of(updates, id);
    assert forall|i: int| 0 <= i < values.len() implies #[trigger] increments[i]
        == values[i].saturating_sub(
        if i == 0 {
            0
        } else {
            values[i - 1]
        },
    ) by {
        assert(increments[i] == updates[i].item_increment(id));
        lemma_item_increment(poll_before(polls, i), polls[i], updates[i], id);
    }
    lemma_increments_add_up(values, increments);
}

/// `updates` are what successive polls of item `id` yield, beginning with a fresh bridge.
pub open spec fn are_item_diffs<R>(
    id: UniqueID,
    reports: Seq<ItemReportView>,
    updates: Seq<ProgressUpdateView<R>>,
) -> bool {
    &&& reports.len() == updates.len()
    &&& forall|i: int|
        #![trigger updates[i]]
        0 <= i < reports.len() ==> updates[i] == item_diff::<R>(
            if i == 0 {
                None
            } else {
                Some(reports[i - 1])
            },
            id,
            reports[i],
        )
}

/// The values that a counter of an item takes in successive polls.
pub open spec fn reported(reports: Seq<ItemReportView>, counter: Counter) -> Seq<u64> {
    reports.map_values(|report: ItemReportView| report.counter(counter))
}

/// A consumer that follows a single item and adds up the increments of a counter arrives at its
/// current value, as long as the counter never goes back; if it does, at no less.
pub proof fn law_item_increments_add_up<R>(
    id: UniqueID,
    reports: Seq<ItemReportView>,
    updates: Seq<ProgressUpdateView<R>>,
    counter: Counter,
)
    requires
        are_item_diffs(id, reports, updates),
        reports.len() > 0,
    ensures
        accumulated(increments_of(updates, counter)) >= reports.last().counter(counter),
        nondecreasing(reported(reports, counter)) ==> accumulated(increments_of(updates, counter))
            == reports.last().counter(counter),
{
    let values = reported(reports, counter);
    let increments = increments_of(updates, counter);
    assert forall|i: int| 0 <= i < values.len() implies #[trigger] increments[i]
        == values[i].saturating_sub(
        if i == 0 {
            0
        } else {
            values[i - 1]
        },
    ) by {
        assert(increments[i] == updates[i].increment(counter));
    }
    lemma_increments_add_up(values, increments);
}

/// The updates that are sent: those that carry something.
pub open spec fn sent<R>(updates: Seq<ProgressUpdateView<R>>) -> Seq<ProgressUpdateView<R>> {
    updates.filter(|update: ProgressUpdateView<R>| !update.carries_nothing())
}

proof fn lemma_sent_of_last<R>(updates: Seq<ProgressUpdateView<R>>)
    requires
        updates.len() > 0,
    ensures
        sent(updates) == (if updates.last().carries_nothing() {
            sent(updates.drop_last())
        } else {
            sent(updates.drop_last()).push(updates.last())
        }),
{
    reveal(Seq::filter);
}

/// A consumer misses nothing by not being sent the updates that carry nothing: the increments of
/// every counter add up to the same without them.
pub proof fn law_skipped_updates_lose_nothing<R>(
    updates: Seq<ProgressUpdateView<R>>,
    counter: Counter,
)
    ensures
        accumulated(increments_of(sent(updates), counter)) == accumulated(
            increments_of(updates, counter),
        ),
    decreases updates.len(),
{
    reveal(Seq::filter);
    if updates.len() > 0 {
        let before = updates.drop_last();
        law_skipped_updates_lose_nothing(before, counter);
        lemma_sent_of_last(updates);
        assert(increments_of(updates, counter).drop_last() =~= increments_of(before, counter));
        if !updates.last().carries_nothing() {
            assert(increments_of(sent(updates), counter).drop_last() =~= increments_of(
                sent(before),
                counter,
            ));
        }
    } else {
        assert(sent(updates) =~= updates);
    }
}

/// Nor does a consumer that follows the items listed: the increments of every item add up to the
/// same without the updates that carry nothing.
pub proof fn law_skipped_updates_lose_no_item_increment<R>(
    updates: Seq<ProgressUpdateView<R>>,
    id: UniqueID,
)
    ensures
        accumulated(item_increments_of(sent(updates), id)) == accumulated(
            item_increments_of(updates, id),
        ),
    decreases updates.len(),
{
    reveal(Seq::filter);
    if updates.len() > 0 {
        let before = updates.drop_last();
        law_skipped_updates_lose_no_item_increment(before, id);
        lemma_sent_of_last(updates);
        assert(item_increments_of(updates, id).drop_last() =~= item_increments_of(before, id));
        if !updates.last().carries_nothing() {
            assert(item_increments_of(sent(updates), id).drop_last() =~= item_increments_of(
                sent(before),
                id,
            ));
        }
    } else {
        assert(sent(updates) =~= updates);
    }
}

/// Polling a group twice without anything having grown, or any item having appeared, in between
/// yields an empty update.
pub proof fn law_unchanged_group_yields_empty_update<R>(
    group: GroupProgressReport<R>,
    items: ItemReports,
    update: ProgressUpdateView<R>,
)
    requires
        is_group_diff(group, items, group, items, update),
    ensures
        update.carries_nothing(),
{
    law_update_is_empty_iff_no_news(group, items, group, items, update);
}

/// The update about a single item is empty exactly if the item was polled before and none of its
/// counters has grown since.
pub proof fn law_item_update_is_empty_iff_nothing_grew<R>(
    prev: Option<ItemReportView>,
    id: UniqueID,
    report: ItemReportView,
)
    ensures
        item_diff::<R>(prev, id, report).carries_nothing() <==> {
            &&& prev is Some
            &&& forall|counter: Counter| #[trigger]
                report.counter(counter) <= counters_of(prev).counter(counter)
        },
{
    let before = counters_of(prev);
    if item_diff::<R>(prev, id, report).carries_nothing() {
        assert forall|counter: Counter| #[trigger]
            report.counter(counter) <= before.counter(counter) by {}
    } else if prev is Some && forall|counter: Counter| #[trigger]
        report.counter(counter) <= before.counter(counter) {
        assert(report.counter(Counter::Total) <= before.counter(Counter::Total));
        assert(report.counter(Counter::Completed) <= before.counter(Counter::Completed));
        assert(report.counter(Counter::TransferTotal) <= before.counter(Counter::TransferTotal));
        assert(report.counter(Counter::TransferCompleted) <= before.counter(
            Counter::TransferCompleted,
        ));
    }
}

/// The first update about a group tells everything: all counters in full, and every item.
pub proof fn law_first_group_update_tells_everything<R>(
    group: GroupProgressReport<R>,
    items: ItemReports,
    update: ProgressUpdateView<R>,
)
    requires
        is_group_diff(GroupProgressReport::zero(), ItemReports::empty(), group, items, update),
    ensures
        forall|counter: Counter| #[trigger] update.increment(counter) == group.counter(counter),
        forall|id: UniqueID| #[trigger]
            items.contains_key(id) ==> exists|i: int|
                0 <= i < update.item_updates.len() && (#[trigger] update.item_updates[i]).tracking_id
                    == id,
        forall|i: int|
            0 <= i < update.item_updates.len() ==> (
            #[trigger] update.item_updates[i]).bytes_completion_increment
                == items[update.item_updates[i].tracking_id].bytes_completed,
{
    assert forall|id: UniqueID| #[trigger] items.contains_key(id) implies exists|i: int|
        0 <= i < update.item_updates.len() && (#[trigger] update.item_updates[i]).tracking_id
            == id by {
        assert(is_news(ItemReports::empty(), items, id));
    }
}

/// The update about a group shows each counter of the latest report in full, whatever was polled
/// before, and the rates of that report.  Each increment is by how much the counter exceeds what
/// was polled before, or zero if it does not.
pub proof fn law_group_update_shows_the_latest_report<R>(
    prev_group: GroupProgressReport<R>,
    prev_items: ItemReports,
    group: GroupProgressReport<R>,
    items: ItemReports,
    update: ProgressUpdateView<R>,
)
    requires
        is_group_diff(prev_group, prev_items, group, items, update),
    ensures
        update.total_bytes == group.total_bytes,
        update.total_bytes_completed == group.total_bytes_completed,
        update.total_bytes_completion_rate == group.total_bytes_completion_rate,
        update.total_transfer_bytes == group.total_transfer_bytes,
        update.total_transfer_bytes_completed == group.total_transfer_bytes_completed,
        update.total_transfer_bytes_completion_rate == group.total_transfer_bytes_completion_rate,
        update.total_bytes_increment == if group.total_bytes > prev_group.total_bytes {
            group.total_bytes - prev_group.total_bytes
        } else {
            0
        },
        update.total_bytes_completion_increment == if group.total_bytes_completed > prev_group.total_bytes_completed {
            group.total_bytes_completed - prev_group.total_bytes_completed
        } else {
            0
        },
        update.total_transfer_bytes_increment == if group.total_transfer_bytes > prev_group.total_transfer_bytes {
            group.total_transfer_bytes - prev_group.total_transfer_bytes
        } else {
            0
        },
        update.total_transfer_bytes_completion_increment == if group.total_transfer_bytes_completed > prev_group.total_transfer_bytes_completed {
            group.total_transfer_bytes_completed - prev_group.total_transfer_bytes_completed
        } else {
            0
        },
{
}

/// An item is listed exactly if it was not polled before or has completed more since, and it is
/// listed once.  Its entry shows the name, the size and the completed bytes of its latest snapshot,
/// whatever was polled before, and by how much the completed bytes exceed those polled before.
pub proof fn law_group_update_lists_what_moved<R>(
    prev_group: GroupProgressReport<R>,
    prev_items: ItemReports,
    group: GroupProgressReport<R>,
    items: ItemReports,
    update: ProgressUpdateView<R>,
)
    requires
        is_group_diff(prev_group, prev_items, group, items, update),
    ensures
        forall|id: UniqueID|
            (#[trigger] items.contains_key(id) && (!prev_items.contains_key(id)
                || items[id].bytes_completed > prev_items[id].bytes_completed)) ==> exists|i: int|
                0 <= i < update.item_updates.len() && (
                #[trigger] update.item_updates[i]).tracking_id == id,
        forall|i: int, j: int|
            0 <= i < j < update.item_updates.len() ==> (
            #[trigger] update.item_updates[i]).tracking_id != (
            #[trigger] update.item_updates[j]).tracking_id,
        forall|i: int|
            #![trigger update.item_updates[i]]
            0 <= i < update.item_updates.len() ==> {
                let entry = update.item_updates[i];
                let id = entry.tracking_id;
                &&& items.contains_key(id)
                &&& entry.item_name == items[id].item_name@
                &&& entry.total_bytes == items[id].total_bytes
                &&& entry.bytes_completed == items[id].bytes_completed
                &&& !prev_items.contains_key(id) ==> entry.bytes_completion_increment
                    == items[id].bytes_completed
                &&& prev_items.contains_key(id) ==> {
                    &&& items[id].bytes_completed > prev_items[id].bytes_completed
                    &&& entry.bytes_completion_increment == items[id].bytes_completed
                        - prev_items[id].bytes_completed
                }
            },
{
    assert forall|id: UniqueID|
        (#[trigger] items.contains_key(id) && (!prev_items.contains_key(id)
            || items[id].bytes_completed > prev_items[id].bytes_completed)) implies exists|i: int|
        0 <= i < update.item_updates.len() && (#[trigger] update.item_updates[i]).tracking_id
            == id by {
        assert(is_news(prev_items, items, id));
    }
}

/// A poll of a group brings news exactly if one of the four counters exceeds what was polled
/// before, or some item was not polled before or has completed more since.
pub proof fn law_news_is_growth_or_a_new_item<R>(
    prev_group: GroupProgressReport<R>,
    prev_items: ItemReports,
    group: GroupProgressReport<R>,
    items: ItemReports,
)
    ensures
        !is_group_news(prev_group, prev_items, group, items) <==> {
            &&& group.total_bytes <= prev_group.total_bytes
            &&& group.total_bytes_completed <= prev_group.total_bytes_completed
            &&& group.total_transfer_bytes <= prev_group.total_transfer_bytes
            &&& group.total_transfer_bytes_completed <= prev_group.total_transfer_bytes_completed
            &&& forall|id: UniqueID| #[trigger]
                items.contains_key(id) ==> prev_items.contains_key(id)
                    && items[id].bytes_completed <= prev_items[id].bytes_completed
        },
{
    if !is_group_news(prev_group, prev_items, group, items) {
        assert forall|id: UniqueID| #[trigger]
            items.contains_key(id) implies prev_items.contains_key(id)
            && items[id].bytes_completed <= prev_items[id].bytes_completed by {
            assert(!is_news(prev_items, items, id));
        }
    }
}

/// An update carries nothing exactly if it lists no item and each of its four increments is zero.
pub proof fn law_empty_update_has_no_increment<R>(update: ProgressUpdateView<R>)
    ensures
        update.carries_nothing() <==> {
            &&& update.item_updates.len() == 0
            &&& update.total_bytes_increment == 0
            &&& update.total_bytes_completion_increment == 0
            &&& update.total_transfer_bytes_increment == 0
            &&& update.total_transfer_bytes_completion_increment == 0
        },
{
}

/// The update about a single item shows each counter of the latest snapshot in full, whatever was
/// polled before, and no rate.  The item is listed exactly if it is polled for the first time or
/// has completed or transferred more since, with the name, the size and the completed bytes of the
/// latest snapshot.
pub proof fn law_item_update_shows_the_latest_report<R>(
    prev: Option<ItemReportView>,
    id: UniqueID,
    report: ItemReportView,
)
    ensures
        ({
            let update = item_diff::<R>(prev, id, report);
            &&& update.total_bytes == report.total_bytes
            &&& update.total_bytes_completed == report.bytes_completed
            &&& update.total_bytes_completion_rate is None
            &&& update.total_transfer_bytes == report.transfer_bytes
            &&& update.total_transfer_bytes_completed == report.transfer_bytes_completed
            &&& update.total_transfer_bytes_completion_rate is None
            &&& update.item_updates.len() <= 1
            &&& update.item_updates.len() == 0 <==> {
                &&& prev matches Some(before)
                &&& report.bytes_completed <= before.bytes_completed
                &&& report.transfer_bytes_completed <= before.transfer_bytes_completed
            }
            &&& update.item_updates.len() == 1 ==> {
                let entry = update.item_updates[0];
                &&& entry.tracking_id == id
                &&& entry.item_name == report.item_name
                &&& entry.total_bytes == report.total_bytes
                &&& entry.bytes_completed == report.bytes_completed
                &&& entry.bytes_completion_increment == update.total_bytes_completion_increment
            }
        }),
{
}

/// The increments of the first update about a single item are its counters in full.
pub proof fn law_first_item_update_tells_everything<R>(id: UniqueID, report: ItemReportView)
    ensures
        ({
            let update = item_diff::<R>(None, id, report);
            &&& update.total_bytes_increment == report.total_bytes
            &&& update.total_bytes_completion_increment == report.bytes_completed
            &&& update.total_transfer_bytes_increment == report.transfer_bytes
            &&& update.total_transfer_bytes_completion_increment
                == report.transfer_bytes_completed
            &&& update.item_updates.len() == 1
        }),
{
}

/// Each increment of a later update about a single item is by how much the counter exceeds what
/// was polled before, or zero if it does not.
pub proof fn law_item_update_tells_the_growth<R>(
    before: ItemReportView,
    id: UniqueID,
    report: ItemReportView,
    update: ProgressUpdateView<R>,
)
    requires
        update == item_diff::<R>(Some(before), id, report),
    ensures
        update.total_bytes_increment == if report.total_bytes > before.total_bytes {
            report.total_bytes - before.total_bytes
        } else {
            0
        },
        update.total_bytes_completion_increment == if report.bytes_completed > before.bytes_completed {
            report.bytes_completed - before.bytes_completed
        } else {
            0
        },
        update.total_transfer_bytes_increment == if report.transfer_bytes > before.transfer_bytes {
            report.transfer_bytes - before.transfer_bytes
        } else {
            0
        },
        update.total_transfer_bytes_completion_increment == if report.transfer_bytes_completed > before.transfer_bytes_completed {
            report.transfer_bytes_completed - before.transfer_bytes_completed
        } else {
            0
        },
{
}

/// The state of a single item's bridge compares with the snapshot that it holds, if it holds one.
pub proof fn law_item_bridge_compares_with_what_it_holds(state: ItemBridgeState)
    ensures
        state.prev is None ==> state.prev_view() is None,
        state.prev matches Some(held) ==> {
            &&& state.prev_view() matches Some(before)
            &&& before.item_name == held.item_name@
            &&& before.total_bytes == held.total_bytes
            &&& before.bytes_completed == held.bytes_completed
            &&& before.transfer_bytes == held.transfer_bytes
            &&& before.transfer_bytes_completed == held.transfer_bytes_completed
        },
{
}

/// As long as no counter of a group goes back, the increments sent so far add up, for each of the
/// four counters, to the full value that the last update shows.
pub proof fn law_group_increments_reach_the_shown_value<R>(
    polls: Seq<Poll<R>>,
    updates: Seq<ProgressUpdateView<R>>,
)
    requires
        are_group_diffs(polls, updates),
        polls.len() > 0,
        forall|counter: Counter| nondecreasing(#[trigger] polled(polls, counter)),
    ensures
        accumulated(increments_of(sent(updates), Counter::Total)) == updates.last().total_bytes,
        accumulated(increments_of(sent(updates), Counter::Completed))
            == updates.last().total_bytes_completed,
        accumulated(increments_of(sent(updates), Counter::TransferTotal))
            == updates.last().total_transfer_bytes,
        accumulated(increments_of(sent(updates), Counter::TransferCompleted))
            == updates.last().total_transfer_bytes_completed,
{
    assert forall|counter: Counter| #[trigger]
        accumulated(increments_of(sent(updates), counter)) == polls.last().group.counter(
        counter,
    ) by {
        assert(nondecreasing(polled(polls, counter)));
        law_group_increments_add_up(polls, updates, counter);
        law_skipped_updates_lose_nothing(updates, counter);
    }
    assert(updates.last() == updates[polls.len() - 1]);
}

/// As long as the completed bytes of an item do not go back, the increments listed for it add up
/// to the completed bytes that its entry in the last update shows, if it has one there.
pub proof fn law_listed_increments_reach_the_shown_value<R>(
    polls: Seq<Poll<R>>,
    updates: Seq<ProgressUpdateView<R>>,
    entry: int,
)
    requires
        are_group_diffs(polls, updates),
        polls.len() > 0,
        0 <= entry < updates.last().item_updates.len(),
        nondecreasing(polled_item(polls, updates.last().item_updates[entry].tracking_id)),
    ensures
        accumulated(
            item_increments_of(sent(updates), updates.last().item_updates[entry].tracking_id),
        ) == updates.last().item_updates[entry].bytes_completed,
{
    let id = updates.last().item_updates[entry].tracking_id;
    law_listed_item_increments_add_up(polls, updates, id);
    law_skipped_updates_lose_no_item_increment(updates, id);
    assert(updates.last() == updates[polls.len() - 1]);
}

/// As long as no counter of an item goes back, the increments sent so far to a consumer that
/// follows the item add up, for each of the four counters, to the full value that the last update
/// shows.
pub proof fn law_item_increments_reach_the_shown_value<R>(
    id: UniqueID,
    reports: Seq<ItemReportView>,
    updates: Seq<ProgressUpdateView<R>>,
)
    requires
        are_item_diffs(id, reports, updates),
        reports.len() > 0,
        forall|counter: Counter| nondecreasing(#[trigger] reported(reports, counter)),
    ensures
        accumulated(increments_of(sent(updates), Counter::Total)) == updates.last().total_bytes,
        accumulated(increments_of(sent(updates), Counter::Completed))
            == updates.last().total_bytes_completed,
        accumulated(increments_of(sent(updates), Counter::TransferTotal))
            == updates.last().total_transfer_bytes,
        accumulated(increments_of(sent(updates), Counter::TransferCompleted))
            == updates.last().total_transfer_bytes_completed,
{
    assert forall|counter: Counter| #[trigger]
        accumulated(increments_of(sent(updates), counter)) == reports.last().counter(counter) by {
        assert(nondecreasing(reported(reports, counter)));
        law_item_increments_add_up(id, reports, updates, counter);
        law_skipped_updates_lose_nothing(updates, counter);
    }
    assert(updates.last() == updates[reports.len() - 1]);
}

} // verus!
