//! From polled snapshots to incremental updates.
//!
//! A consumer that wants to be called back with increments is served by polling: every snapshot is
//! compared with the previous one, and the difference is sent if it carries any news.
use std::collections::HashMap;

use vstd::prelude::*;

use crate::model::{ItemReportView, UniqueID};
use crate::report::{GroupProgressReport, ItemProgressReport};
use crate::update::{ItemProgressUpdate, ItemUpdateView, ProgressUpdate, ProgressUpdateView};

verus! {

broadcast use vstd::std_specs::hash::group_hash_axioms;

/// How long to wait between two polls, in milliseconds.
pub const POLL_INTERVAL_MILLIS: u64 = 250;

/// Trait for types that can produce progress reports via polling.
pub trait ProgressReporter<R>: Send + Sync {
    fn report(&self) -> GroupProgressReport<R>;

    fn item_reports(&self) -> HashMap<UniqueID, ItemProgressReport>;

    /// The report of one item; unless overridden, it is looked up among those of all items.
    fn item_report(&self, id: UniqueID) -> (report: Option<ItemProgressReport>)
        default_ensures
            exists|reports: HashMap<UniqueID, ItemProgressReport>|
                {
                    &&& #[trigger] call_ensures(Self::item_reports, (self,), reports)
                    &&& report == reports@.get(id)
                },
    {
        pick_report(self.item_reports(), id)
    }
}

/// The report of item `id` out of those of all items.
pub fn pick_report(reports: HashMap<UniqueID, ItemProgressReport>, id: UniqueID) -> (report: Option<
    ItemProgressReport,
>)
    ensures
        report is Some <==> reports@.contains_key(id),
        report matches Some(report) ==> report == reports@[id],
{
    let mut reports = reports;
    reports.remove(&id)
}

/// The snapshots of items as they were polled together.
pub type ItemReports = Map<UniqueID, ItemProgressReport>;

/// How many bytes of item `id` were completed at the time of `reports`.
pub open spec fn completed_in(reports: ItemReports, id: UniqueID) -> u64 {
    if reports.contains_key(id) {
        reports[id].bytes_completed
    } else {
        0
    }
}

/// Item `id` is worth listing: it is new, or more of it is completed than before.
pub open spec fn is_news(prev: ItemReports, now: ItemReports, id: UniqueID) -> bool {
    &&& now.contains_key(id)
    &&& !prev.contains_key(id) || now[id].bytes_completed > prev[id].bytes_completed
}

/// The update about an item that now shows `report`, `prev_completed` bytes of which were
/// completed before.
pub open spec fn item_update(
    id: UniqueID,
    report: ItemReportView,
    prev_completed: u64,
) -> ItemUpdateView {
    ItemUpdateView {
        tracking_id: id,
        item_name: report.item_name,
        total_bytes: report.total_bytes,
        bytes_completed: report.bytes_completed,
        bytes_completion_increment: report.bytes_completed.saturating_sub(prev_completed),
    }
}

/// `updates` lists exactly the items that are worth listing, each of them once.  The order is
/// left open.
pub open spec fn lists_news(
    updates: Seq<ItemUpdateView>,
    prev: ItemReports,
    now: ItemReports,
) -> bool {
    &&& forall|i: int|
        #![trigger updates[i]]
        0 <= i < updates.len() ==> {
            let id = updates[i].tracking_id;
            &&& is_news(prev, now, id)
            &&& updates[i] == item_update(id, now[id]@, completed_in(prev, id))
        }
    &&& forall|i: int, j: int|
        0 <= i < j < updates.len() ==> (#[trigger] updates[i]).tracking_id != (
        #[trigger] updates[j]).tracking_id
    &&& forall|id: UniqueID| #[trigger]
        is_news(prev, now, id) ==> exists|i: int|
            0 <= i < updates.len() && (#[trigger] updates[i]).tracking_id == id
}

/// `update` is the difference between the polls `(prev_group, prev_items)` and `(group, items)`.
pub open spec fn is_group_diff<R>(
    prev_group: GroupProgressReport<R>,
    prev_items: ItemReports,
    group: GroupProgressReport<R>,
    items: ItemReports,
    update: ProgressUpdateView<R>,
) -> bool {
    &&& lists_news(update.item_updates, prev_items, items)
    &&& update == ProgressUpdateView {
        item_updates: update.item_updates,
        total_bytes: group.total_bytes,
        total_bytes_increment: group.total_bytes.saturating_sub(prev_group.total_bytes),
        total_bytes_completed: group.total_bytes_completed,
        total_bytes_completion_increment: group.total_bytes_completed.saturating_sub(
            prev_group.total_bytes_completed,
        ),
        total_bytes_completion_rate: group.total_bytes_completion_rate,
        total_transfer_bytes: group.total_transfer_bytes,
        total_transfer_bytes_increment: group.total_transfer_bytes.saturating_sub(
            prev_group.total_transfer_bytes,
        ),
        total_transfer_bytes_completed: group.total_transfer_bytes_completed,
        total_transfer_bytes_completion_increment:
            group.total_transfer_bytes_completed.saturating_sub(
            prev_group.total_transfer_bytes_completed,
        ),
        total_transfer_bytes_completion_rate: group.total_transfer_bytes_completion_rate,
    }
}

/// The poll `(group, items)` brings news: some counter has grown, or some item is worth listing.
pub open spec fn is_group_news<R>(
    prev_group: GroupProgressReport<R>,
    prev_items: ItemReports,
    group: GroupProgressReport<R>,
    items: ItemReports,
) -> bool {
    ||| group.total_bytes > prev_group.total_bytes
    ||| group.total_bytes_completed > prev_group.total_bytes_completed
    ||| group.total_transfer_bytes > prev_group.total_transfer_bytes
    ||| group.total_transfer_bytes_completed > prev_group.total_transfer_bytes_completed
    ||| exists|id: UniqueID| is_news(prev_items, items, id)
}

/// The difference between two polls is empty exactly if the second one brings no news.
pub proof fn law_update_is_empty_iff_no_news<R>(
    prev_group: GroupProgressReport<R>,
    prev_items: ItemReports,
    group: GroupProgressReport<R>,
    items: ItemReports,
    update: ProgressUpdateView<R>,
)
    requires
        is_group_diff(prev_group, prev_items, group, items, update),
    ensures
        update.carries_nothing() <==> !is_group_news(prev_group, prev_items, group, items),
{
    if update.item_updates.len() > 0 {
        let first = update.item_updates[0];
        assert(is_news(prev_items, items, first.tracking_id));
    }
}

/// What to do after a poll: first send the update, if there is one, and then, if `finish`, flush
/// the consumer and stop polling.
#[derive(Debug)]
pub struct BridgeAction<R> {
    pub send: Option<ProgressUpdate<R>>,
    pub finish: bool,
}

/// One of `updates` is about item `id`.
spec fn lists_id(updates: Seq<ItemProgressUpdate>, id: UniqueID) -> bool {
    exists|i: int| 0 <= i < updates.len() && (#[trigger] updates[i]).tracking_id == id
}

/// `update` if it carries news.
fn unless_empty<R>(update: ProgressUpdate<R>) -> (send: Option<ProgressUpdate<R>>)
    ensures
        send == (if update@.carries_nothing() {
            None
        } else {
            Some(update)
        }),
{
    if update.is_empty() {
        None
    } else {
        Some(update)
    }
}

/// The updates about the items that are worth listing.
fn list_news(
    prev_items: &HashMap<UniqueID, ItemProgressReport>,
    items: &HashMap<UniqueID, ItemProgressReport>,
) -> (item_updates: Vec<ItemProgressUpdate>)
    ensures
        lists_news(
            item_updates@.map_values(|update: ItemProgressUpdate| update@),
            prev_items@,
            items@,
        ),
{
    let ghost prev = prev_items@;
    let ghost now = items@;
    let mut item_updates: Vec<ItemProgressUpdate> = Vec::new();
    for entry in walk: items.iter()
        invariant
            prev == prev_items@,
            now == items@,
            walk.seq().no_duplicates(),
            forall|i: int|
                #![trigger walk.seq()[i]]
                0 <= i < walk.seq().len() ==> now.contains_key(*walk.seq()[i].0)
                    && now[*walk.seq()[i].0] == *walk.seq()[i].1,
            forall|i: int|
                #![trigger item_updates@[i]]
                0 <= i < item_updates@.len() ==> {
                    let id = item_updates@[i].tracking_id;
                    &&& is_news(prev, now, id)
                    &&& item_updates@[i]@ == item_update(id, now[id]@, completed_in(prev, id))
                    &&& exists|k: int|
                        0 <= k < walk.index() && *(#[trigger] walk.seq()[k]).0 == id
                },
            forall|i: int, j: int|
                0 <= i < j < item_updates@.len() ==> (#[trigger] item_updates@[i]).tracking_id != (
                #[trigger] item_updates@[j]).tracking_id,
            forall|k: int|
                #![trigger walk.seq()[k]]
                0 <= k < walk.index() && is_news(prev, now, *walk.seq()[k].0) ==> lists_id(
                    item_updates@,
                    *walk.seq()[k].0,
                ),
    {
        let (id, report) = entry;
        let (prev_completed, is_new): (u64, bool) = match prev_items.get(id) {
            Some(prev_report) => (prev_report.bytes_completed, false),
            None => (0, true),
        };
        let increment: u64 = report.bytes_completed.saturating_sub(prev_completed);
        let ghost before = item_updates@;
        if increment > 0 || is_new {
            item_updates.push(
                ItemProgressUpdate {
                    tracking_id: *id,
                    item_name: report.item_name.clone(),
                    total_bytes: report.total_bytes,
                    bytes_completed: report.bytes_completed,
                    bytes_completion_increment: increment,
                },
            );
            proof {
                assert(item_updates@.last().tracking_id == *id);
                assert forall|other: UniqueID| #[trigger] lists_id(before, other) implies lists_id(
                    item_updates@,
                    other,
                ) by {
                    let i = choose|i: int|
                        0 <= i < before.len() && (#[trigger] before[i]).tracking_id == other;
                    assert(item_updates@[i].tracking_id == other);
                }
            }
        }
    }
    proof {
        let views = item_updates@.map_values(|update: ItemProgressUpdate| update@);
        assert forall|id: UniqueID| #[trigger] is_news(prev, now, id) implies exists|i: int|
            0 <= i < views.len() && (#[trigger] views[i]).tracking_id == id by {
            assert(lists_id(item_updates@, id));
            let i = choose|i: int|
                0 <= i < item_updates@.len() && (#[trigger] item_updates@[i]).tracking_id == id;
            assert(views[i].tracking_id == id);
        }
    }
    item_updates
}

/// The most recent poll of a group, against which the next one is compared.
pub struct GroupBridgeState<R> {
    pub prev_group: GroupProgressReport<R>,
    pub prev_items: HashMap<UniqueID, ItemProgressReport>,
}

impl<R: Copy> GroupBridgeState<R> {
    /// The state before the first poll.
    pub fn new() -> (state: Self)
        ensures
            state.prev_group == GroupProgressReport::<R>::zero(),
            state.prev_items@ == ItemReports::empty(),
    {
        GroupBridgeState { prev_group: GroupProgressReport::default(), prev_items: HashMap::new() }
    }

    /// Compares a poll with the previous one, and keeps it for the next comparison.
    pub fn compute_diff(
        &mut self,
        group: GroupProgressReport<R>,
        items: HashMap<UniqueID, ItemProgressReport>,
    ) -> (update: ProgressUpdate<R>)
        ensures
            is_group_diff(old(self).prev_group, old(self).prev_items@, group, items@, update@),
            final(self).prev_group == group,
            final(self).prev_items == items,
    {
        let total_bytes_increment: u64 = group.total_bytes.saturating_sub(
            self.prev_group.total_bytes,
        );
        let total_bytes_completion_increment: u64 = group.total_bytes_completed.saturating_sub(
            self.prev_group.total_bytes_completed,
        );
        let total_transfer_bytes_increment: u64 = group.total_transfer_bytes.saturating_sub(
            self.prev_group.total_transfer_bytes,
        );
        let total_transfer_bytes_completion_increment: u64 =
            group.total_transfer_bytes_completed.saturating_sub(
            self.prev_group.total_transfer_bytes_completed,
        );

        let item_updates: Vec<ItemProgressUpdate> = list_news(&self.prev_items, &items);

        let update = ProgressUpdate {
            item_updates,
            total_bytes: group.total_bytes,
            total_bytes_increment,
            total_bytes_completed: group.total_bytes_completed,
            total_bytes_completion_increment,
            total_bytes_completion_rate: group.total_bytes_completion_rate,
            total_transfer_bytes: group.total_transfer_bytes,
            total_transfer_bytes_increment,
            total_transfer_bytes_completed: group.total_transfer_bytes_completed,
            total_transfer_bytes_completion_increment,
            total_transfer_bytes_completion_rate: group.total_transfer_bytes_completion_rate,
        };

        self.prev_group = group;
        self.prev_items = items;

        update
    }

    /// Handles one poll, the last one if `stopping`.  Nothing is sent if the poll brings no news.
    pub fn poll(
        &mut self,
        group: GroupProgressReport<R>,
        items: HashMap<UniqueID, ItemProgressReport>,
        stopping: bool,
    ) -> (action: BridgeAction<R>)
        ensures
            action.send is Some <==> is_group_news(
                old(self).prev_group,
                old(self).prev_items@,
                group,
                items@,
            ),
            action.send matches Some(update) ==> is_group_diff(
                old(self).prev_group,
                old(self).prev_items@,
                group,
                items@,
                update@,
            ),
            action.finish == stopping,
            final(self).prev_group == group,
            final(self).prev_items == items,
    {
        let update = self.compute_diff(group, items);
        proof {
            law_update_is_empty_iff_no_news(
                old(self).prev_group,
                old(self).prev_items@,
                group,
                items@,
                update@,
            );
        }
        BridgeAction { send: unless_empty(update), finish: stopping }
    }

    /// Polls `reporter`, for the last time if `stopping`.
    pub fn poll_reporter<T: ProgressReporter<R> + ?Sized>(
        &mut self,
        reporter: &T,
        stopping: bool,
    ) -> (action: BridgeAction<R>)
        ensures
            exists|
                group: GroupProgressReport<R>,
                items: HashMap<UniqueID, ItemProgressReport>,
            |
                {
                    &&& #[trigger] call_ensures(T::report, (reporter,), group)
                    &&& #[trigger] call_ensures(T::item_reports, (reporter,), items)
                    &&& action.send is Some <==> is_group_news(
                        old(self).prev_group,
                        old(self).prev_items@,
                        group,
                        items@,
                    )
                    &&& action.send matches Some(update) ==> is_group_diff(
                        old(self).prev_group,
                        old(self).prev_items@,
                        group,
                        items@,
                        update@,
                    )
                    &&& final(self).prev_group == group
                    &&& final(self).prev_items == items
                },
            action.finish == stopping,
    {
        let group = reporter.report();
        let items = reporter.item_reports();
        self.poll(group, items, stopping)
    }
}

/// The counters of a report that may not exist; zero where there is none.
pub open spec fn counters_of(report: Option<ItemReportView>) -> ItemReportView {
    match report {
        Some(report) => report,
        None => ItemReportView {
            item_name: Seq::empty(),
            total_bytes: 0,
            bytes_completed: 0,
            transfer_bytes: 0,
            transfer_bytes_completed: 0,
        },
    }
}

/// The item is worth listing: it is polled for the first time, or more of it is completed or
/// transferred than before.
pub open spec fn is_item_news(prev: Option<ItemReportView>, report: ItemReportView) -> bool {
    ||| prev is None
    ||| report.bytes_completed > counters_of(prev).bytes_completed
    ||| report.transfer_bytes_completed > counters_of(prev).transfer_bytes_completed
}

/// The difference between two polls of the single item `id`.
pub open spec fn item_diff<R>(
    prev: Option<ItemReportView>,
    id: UniqueID,
    report: ItemReportView,
) -> ProgressUpdateView<R> {
    let before = counters_of(prev);
    ProgressUpdateView {
        item_updates: if is_item_news(prev, report) {
            seq![item_update(id, report, before.bytes_completed)]
        } else {
            Seq::empty()
        },
        total_bytes: report.total_bytes,
        total_bytes_increment: report.total_bytes.saturating_sub(before.total_bytes),
        total_bytes_completed: report.bytes_completed,
        total_bytes_completion_increment: report.bytes_completed.saturating_sub(
            before.bytes_completed,
        ),
        total_bytes_completion_rate: None,
        total_transfer_bytes: report.transfer_bytes,
        total_transfer_bytes_increment: report.transfer_bytes.saturating_sub(
            before.transfer_bytes,
        ),
        total_transfer_bytes_completed: report.transfer_bytes_completed,
        total_transfer_bytes_completion_increment: report.transfer_bytes_completed.saturating_sub(
            before.transfer_bytes_completed,
        ),
        total_transfer_bytes_completion_rate: None,
    }
}

/// The most recent poll of a single item, against which the next one is compared.
pub struct ItemBridgeState {
    pub prev: Option<ItemProgressReport>,
}

impl ItemBridgeState {
    /// What the previous poll showed.
    pub open spec fn prev_view(self) -> Option<ItemReportView> {
        match self.prev {
            Some(report) => Some(report@),
            None => None,
        }
    }

    /// The state before the first poll.
    pub fn new() -> (state: Self)
        ensures
            state.prev is None,
    {
        ItemBridgeState { prev: None }
    }

    /// Compares a poll with the previous one, and keeps it for the next comparison.
    pub fn compute_diff<R>(&mut self, item_id: UniqueID, report: ItemProgressReport) -> (update:
        ProgressUpdate<R>)
        ensures
            update@ == item_diff::<R>(old(self).prev_view(), item_id, report@),
            final(self).prev == Some(report),
    {
        let (prev_completed, prev_total, prev_transfer_bytes, prev_transfer_completed): (
            u64,
            u64,
            u64,
            u64,
        ) = match &self.prev {
            Some(prev) => (
                prev.bytes_completed,
                prev.total_bytes,
                prev.transfer_bytes,
                prev.transfer_bytes_completed,
            ),
            None => (0, 0, 0, 0),
        };

        let bytes_increment: u64 = report.bytes_completed.saturating_sub(prev_completed);
        let total_increment: u64 = report.total_bytes.saturating_sub(prev_total);
        let transfer_bytes_increment: u64 = report.transfer_bytes.saturating_sub(
            prev_transfer_bytes,
        );
        let transfer_completion_increment: u64 = report.transfer_bytes_completed.saturating_sub(
            prev_transfer_completed,
        );

        let has_progress: bool = bytes_increment > 0 || transfer_completion_increment > 0
            || self.prev.is_none();

        let mut item_updates: Vec<ItemProgressUpdate> = Vec::new();
        if has_progress {
            item_updates.push(
                ItemProgressUpdate {
                    tracking_id: item_id,
                    item_name: report.item_name.clone(),
                    total_bytes: report.total_bytes,
                    bytes_completed: report.bytes_completed,
                    bytes_completion_increment: bytes_increment,
                },
            );
        }
        let update = ProgressUpdate {
            item_updates,
            total_bytes: report.total_bytes,
            total_bytes_increment: total_increment,
            total_bytes_completed: report.bytes_completed,
            total_bytes_completion_increment: bytes_increment,
            total_bytes_completion_rate: None,
            total_transfer_bytes: report.transfer_bytes,
            total_transfer_bytes_increment: transfer_bytes_increment,
            total_transfer_bytes_completed: report.transfer_bytes_completed,
            total_transfer_bytes_completion_increment: transfer_completion_increment,
            total_transfer_bytes_completion_rate: None,
        };

        self.prev = Some(report);
        update
    }

    /// Handles one poll, the last one if `stopping`.  Nothing is sent if the item is not known, or
    /// if the poll brings no news.
    pub fn poll<R>(
        &mut self,
        item_id: UniqueID,
        report: Option<ItemProgressReport>,
        stopping: bool,
    ) -> (action: BridgeAction<R>)
        ensures
            report is None ==> {
                &&& action.send is None
                &&& final(self).prev == old(self).prev
            },
            report matches Some(report) ==> {
                let diff = item_diff::<R>(old(self).prev_view(), item_id, report@);
                &&& action.send is None <==> diff.carries_nothing()
                &&& action.send matches Some(update) ==> update@ == diff
                &&& final(self).prev == Some(report)
            },
            action.finish == stopping,
    {
        match report {
            Some(report) => {
                let update = self.compute_diff(item_id, report);
                BridgeAction { send: unless_empty(update), finish: stopping }
            },
            None => BridgeAction { send: None, finish: stopping },
        }
    }

    /// Polls `reporter` for the item, for the last time if `stopping`.
    pub fn poll_reporter<R, T: ProgressReporter<R> + ?Sized>(
        &mut self,
        reporter: &T,
        item_id: UniqueID,
        stopping: bool,
    ) -> (action: BridgeAction<R>)
        ensures
            exists|report: Option<ItemProgressReport>|
                {
                    &&& #[trigger] call_ensures(T::item_report, (reporter, item_id), report)
                    &&& report is None ==> {
                        &&& action.send is None
                        &&& final(self).prev == old(self).prev
                    }
                    &&& report matches Some(report) ==> {
                        let diff = item_diff::<R>(old(self).prev_view(), item_id, report@);
                        &&& action.send is None <==> diff.carries_nothing()
                        &&& action.send matches Some(update) ==> update@ == diff
                        &&& final(self).prev == Some(report)
                    }
                },
            action.finish == stopping,
    {
        let report = reporter.item_report(item_id);
        self.poll(item_id, report, stopping)
    }
}

} // verus!
