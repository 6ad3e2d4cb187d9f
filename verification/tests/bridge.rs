use std::collections::HashMap;

use xet_progress::bridge::{
    pick_report, GroupBridgeState, ItemBridgeState, ProgressReporter, POLL_INTERVAL_MILLIS,
};
use xet_progress::model::UniqueID;
use xet_progress::report::{GroupProgressReport, ItemProgressReport};
use xet_progress::update::ProgressUpdate;

const ID: UniqueID = 1;

fn make_group_report(
    total_bytes: u64,
    total_bytes_completed: u64,
    total_transfer_bytes: u64,
    total_transfer_bytes_completed: u64,
) -> GroupProgressReport<f64> {
    GroupProgressReport {
        total_bytes,
        total_bytes_completed,
        total_bytes_completion_rate: None,
        total_transfer_bytes,
        total_transfer_bytes_completed,
        total_transfer_bytes_completion_rate: None,
    }
}

fn make_item_report(name: &str, total_bytes: u64, bytes_completed: u64) -> ItemProgressReport {
    ItemProgressReport {
        item_name: name.to_string(),
        total_bytes,
        bytes_completed,
        transfer_bytes: 0,
        transfer_bytes_completed: 0,
    }
}

fn make_item_report_with_transfer(
    name: &str,
    total_bytes: u64,
    bytes_completed: u64,
    transfer_bytes: u64,
    transfer_bytes_completed: u64,
) -> ItemProgressReport {
    ItemProgressReport {
        item_name: name.to_string(),
        total_bytes,
        bytes_completed,
        transfer_bytes,
        transfer_bytes_completed,
    }
}

#[test]
fn test_group_bridge_first_diff() {
    let mut state = GroupBridgeState::new();

    let group = make_group_report(1000, 200, 800, 100);
    let items = HashMap::from([(ID, make_item_report("a.bin", 1000, 200))]);

    let update = state.compute_diff(group, items);

    assert_eq!(update.total_bytes, 1000);
    assert_eq!(update.total_bytes_increment, 1000);
    assert_eq!(update.total_bytes_completed, 200);
    assert_eq!(update.total_bytes_completion_increment, 200);
    assert_eq!(update.total_transfer_bytes, 800);
    assert_eq!(update.total_transfer_bytes_increment, 800);
    assert_eq!(update.total_transfer_bytes_completed, 100);
    assert_eq!(update.total_transfer_bytes_completion_increment, 100);
    assert_eq!(update.item_updates.len(), 1);
    assert_eq!(update.item_updates[0].total_bytes, 1000);
    assert_eq!(update.item_updates[0].bytes_completed, 200);
    assert_eq!(update.item_updates[0].bytes_completion_increment, 200);
}

#[test]
fn test_group_bridge_incremental_diff() {
    let mut state = GroupBridgeState::new();

    let group1 = make_group_report(1000, 200, 800, 100);
    let items1 = HashMap::from([(ID, make_item_report("a.bin", 1000, 200))]);
    state.compute_diff(group1, items1);

    let group2 = make_group_report(1000, 600, 800, 400);
    let items2 = HashMap::from([(ID, make_item_report("a.bin", 1000, 600))]);
    let update = state.compute_diff(group2, items2);

    assert_eq!(update.total_bytes_increment, 0);
    assert_eq!(update.total_bytes_completion_increment, 400);
    assert_eq!(update.total_transfer_bytes_increment, 0);
    assert_eq!(update.total_transfer_bytes_completion_increment, 300);
    assert_eq!(update.item_updates.len(), 1);
    assert_eq!(update.item_updates[0].bytes_completion_increment, 400);
}

#[test]
fn test_group_bridge_no_change_is_empty() {
    let mut state = GroupBridgeState::new();

    let group = make_group_report(1000, 500, 800, 300);
    let items = HashMap::from([(ID, make_item_report("a.bin", 1000, 500))]);
    state.compute_diff(group.clone(), items.clone());

    let update = state.compute_diff(group, items);

    assert!(update.is_empty());
}

#[test]
fn test_group_bridge_new_item_appears() {
    let mut state = GroupBridgeState::new();
    let id1: UniqueID = 11;
    let id2: UniqueID = 12;

    let group1 = make_group_report(100, 50, 0, 0);
    let items1 = HashMap::from([(id1, make_item_report("a.bin", 100, 50))]);
    state.compute_diff(group1, items1);

    let group2 = make_group_report(300, 50, 0, 0);
    let items2 = HashMap::from([
        (id1, make_item_report("a.bin", 100, 50)),
        (id2, make_item_report("b.bin", 200, 0)),
    ]);
    let update = state.compute_diff(group2, items2);

    assert_eq!(update.total_bytes_increment, 200);
    assert_eq!(update.item_updates.len(), 1);
    assert_eq!(update.item_updates[0].tracking_id, id2);
    assert_eq!(update.item_updates[0].bytes_completion_increment, 0);
}

#[test]
fn test_item_bridge_first_diff() {
    let mut state = ItemBridgeState::new();
    let report = make_item_report("file.bin", 500, 100);

    let update: ProgressUpdate<f64> = state.compute_diff(ID, report);

    assert_eq!(update.total_bytes, 500);
    assert_eq!(update.total_bytes_increment, 500);
    assert_eq!(update.total_bytes_completed, 100);
    assert_eq!(update.total_bytes_completion_increment, 100);
    assert_eq!(update.item_updates.len(), 1);
    assert_eq!(update.item_updates[0].bytes_completion_increment, 100);
}

#[test]
fn test_item_bridge_incremental_diff() {
    let mut state = ItemBridgeState::new();

    state.compute_diff::<f64>(ID, make_item_report("file.bin", 500, 100));

    let update: ProgressUpdate<f64> = state.compute_diff(ID, make_item_report("file.bin", 500, 350));

    assert_eq!(update.total_bytes_increment, 0);
    assert_eq!(update.total_bytes_completion_increment, 250);
    assert_eq!(update.item_updates[0].bytes_completion_increment, 250);
}

#[test]
fn test_item_bridge_no_change_is_empty() {
    let mut state = ItemBridgeState::new();

    state.compute_diff::<f64>(ID, make_item_report("file.bin", 500, 200));
    let update: ProgressUpdate<f64> = state.compute_diff(ID, make_item_report("file.bin", 500, 200));

    assert!(update.is_empty());
}

#[test]
fn test_item_bridge_total_grows() {
    let mut state = ItemBridgeState::new();

    state.compute_diff::<f64>(ID, make_item_report("file.bin", 500, 100));
    let update: ProgressUpdate<f64> = state.compute_diff(ID, make_item_report("file.bin", 800, 100));

    assert_eq!(update.total_bytes, 800);
    assert_eq!(update.total_bytes_increment, 300);
    assert_eq!(update.total_bytes_completion_increment, 0);
    assert!(update.item_updates.is_empty());
}

#[test]
fn test_item_bridge_transfer_bytes_reported() {
    let mut state = ItemBridgeState::new();

    let report = make_item_report_with_transfer("file.bin", 1000, 0, 800, 200);
    let update: ProgressUpdate<f64> = state.compute_diff(ID, report);

    assert_eq!(update.total_transfer_bytes, 800);
    assert_eq!(update.total_transfer_bytes_completed, 200);
    assert_eq!(update.total_transfer_bytes_completion_increment, 200);
}

#[test]
fn test_item_bridge_transfer_bytes_incremental() {
    let mut state = ItemBridgeState::new();

    state.compute_diff::<f64>(ID, make_item_report_with_transfer("file.bin", 1000, 0, 800, 200));

    let update: ProgressUpdate<f64> =
        state.compute_diff(ID, make_item_report_with_transfer("file.bin", 1000, 0, 800, 500));

    assert_eq!(update.total_transfer_bytes_increment, 0);
    assert_eq!(update.total_transfer_bytes_completion_increment, 300);
}

#[test]
fn test_item_bridge_transfer_progress_triggers_callback() {
    let mut state = ItemBridgeState::new();

    // Initial state: no bytes completed, no transfer
    state.compute_diff::<f64>(ID, make_item_report_with_transfer("file.bin", 1000, 0, 800, 0));

    // Transfer progress without bytes_completed change should still produce an update
    let update: ProgressUpdate<f64> =
        state.compute_diff(ID, make_item_report_with_transfer("file.bin", 1000, 0, 800, 100));

    assert!(!update.is_empty());
    assert_eq!(update.total_transfer_bytes_completion_increment, 100);
    assert_eq!(update.total_bytes_completion_increment, 0);
}

#[test]
fn test_item_bridge_no_transfer_no_bytes_is_empty() {
    let mut state = ItemBridgeState::new();

    state.compute_diff::<f64>(ID, make_item_report_with_transfer("file.bin", 1000, 100, 800, 200));

    // Same values again: should be empty
    let update: ProgressUpdate<f64> =
        state.compute_diff(ID, make_item_report_with_transfer("file.bin", 1000, 100, 800, 200));

    assert!(update.is_empty());
}

#[test]
fn item_update_names_the_item() {
    let mut state = ItemBridgeState::new();
    let update: ProgressUpdate<f64> = state.compute_diff(77, make_item_report("n.bin", 5, 2));
    assert_eq!(update.item_updates[0].tracking_id, 77);
    assert_eq!(update.item_updates[0].item_name, "n.bin");
    assert_eq!(update.item_updates[0].total_bytes, 5);
    assert_eq!(update.item_updates[0].bytes_completed, 2);
    assert_eq!(update.total_bytes_completion_rate, None);
}

#[test]
fn group_rates_are_carried_along() {
    let mut state = GroupBridgeState::new();
    let mut group = make_group_report(10, 5, 0, 0);
    group.total_bytes_completion_rate = Some(2.5);
    group.total_transfer_bytes_completion_rate = Some(0.25);
    let update = state.compute_diff(group, HashMap::new());
    assert_eq!(update.total_bytes_completion_rate, Some(2.5));
    assert_eq!(update.total_transfer_bytes_completion_rate, Some(0.25));
}

#[test]
fn counters_that_go_back_yield_no_increment() {
    let mut state = GroupBridgeState::new();
    state.compute_diff(
        make_group_report(10, 9, 8, 7),
        HashMap::from([(ID, make_item_report("a", 10, 9))]),
    );
    let update = state.compute_diff(
        make_group_report(6, 5, 4, 3),
        HashMap::from([(ID, make_item_report("a", 6, 5))]),
    );
    assert!(update.is_empty());
    assert_eq!(update.total_bytes, 6);
    assert_eq!(update.total_transfer_bytes_completed, 3);
}

#[test]
fn item_that_reappears_is_new_again() {
    let mut state = GroupBridgeState::new();
    let group = make_group_report(10, 4, 0, 0);
    let items = HashMap::from([(ID, make_item_report("a", 10, 4))]);
    state.compute_diff(group.clone(), items.clone());
    assert!(state.compute_diff(group.clone(), HashMap::new()).is_empty());
    let update = state.compute_diff(group, items);
    assert_eq!(update.item_updates.len(), 1);
    assert_eq!(update.item_updates[0].bytes_completion_increment, 4);
}

#[test]
fn group_bridge_ignores_transfer_progress_of_items() {
    let mut state = GroupBridgeState::new();
    let group = make_group_report(10, 4, 8, 1);
    state.compute_diff(
        group.clone(),
        HashMap::from([(ID, make_item_report_with_transfer("a", 10, 4, 8, 1))]),
    );
    let update = state.compute_diff(
        group,
        HashMap::from([(ID, make_item_report_with_transfer("a", 10, 4, 8, 6))]),
    );
    assert!(update.is_empty());
}

#[test]
fn each_item_with_news_is_listed_once() {
    let mut state = GroupBridgeState::new();
    let first: HashMap<UniqueID, ItemProgressReport> =
        (0..10).map(|id| (id, make_item_report("x", 100, 10))).collect();
    state.compute_diff(make_group_report(1000, 100, 0, 0), first);
    let second: HashMap<UniqueID, ItemProgressReport> =
        (0..12).map(|id| (id, make_item_report("x", 100, 10 + id % 2 * id))).collect();
    let update = state.compute_diff(make_group_report(1200, 150, 0, 0), second);
    let mut listed: Vec<(UniqueID, u64)> = update
        .item_updates
        .iter()
        .map(|item| (item.tracking_id, item.bytes_completion_increment))
        .collect();
    listed.sort();
    assert_eq!(listed, vec![(1, 1), (3, 3), (5, 5), (7, 7), (9, 9), (10, 10), (11, 21)]);
}

#[test]
fn increments_add_up_to_the_current_values() {
    // The third poll brings nothing and is not sent.
    let polls = [(10, 1, 20, 2), (10, 4, 20, 2), (10, 4, 20, 2), (30, 9, 21, 21)];
    let mut state = GroupBridgeState::new();
    let mut sums = (0, 0, 0, 0, 0);
    for (total, completed, transfer, transferred) in polls {
        let items = HashMap::from([(ID, make_item_report("a", total, completed))]);
        let action =
            state.poll(make_group_report(total, completed, transfer, transferred), items, false);
        if let Some(update) = action.send {
            sums.0 += update.total_bytes_increment;
            sums.1 += update.total_bytes_completion_increment;
            sums.2 += update.total_transfer_bytes_increment;
            sums.3 += update.total_transfer_bytes_completion_increment;
            sums.4 +=
                update.item_updates.iter().map(|i| i.bytes_completion_increment).sum::<u64>();
        }
    }
    assert_eq!(sums, (30, 9, 21, 21, 9));

    let mut item_state = ItemBridgeState::new();
    let mut completed_sum: u64 = 0;
    for (total, completed, transfer, transferred) in polls {
        let report = make_item_report_with_transfer("a", total, completed, transfer, transferred);
        let update: ProgressUpdate<f64> = item_state.compute_diff(ID, report);
        completed_sum += update.total_bytes_completion_increment;
    }
    assert_eq!(completed_sum, 9);
}

#[test]
fn group_poll_sends_news_only_and_finishes_when_stopping() {
    let mut state = GroupBridgeState::new();
    let group = make_group_report(10, 4, 0, 0);
    let items = HashMap::from([(ID, make_item_report("a", 10, 4))]);

    let action = state.poll(group.clone(), items.clone(), false);
    assert_eq!(action.send.unwrap().total_bytes_increment, 10);
    assert!(!action.finish);

    let action = state.poll(group.clone(), items.clone(), false);
    assert!(action.send.is_none());
    assert!(!action.finish);

    let action = state.poll(group, items, true);
    assert!(action.send.is_none());
    assert!(action.finish);
}

#[test]
fn last_group_poll_still_sends_news() {
    let mut state = GroupBridgeState::new();
    let action = state.poll(make_group_report(1, 0, 0, 0), HashMap::new(), true);
    assert_eq!(action.send.unwrap().total_bytes, 1);
    assert!(action.finish);
}

#[test]
fn item_poll_of_an_unknown_item_does_nothing() {
    let mut state = ItemBridgeState::new();
    let action = state.poll::<f64>(ID, None, false);
    assert!(action.send.is_none());
    assert!(!action.finish);
    assert!(state.prev.is_none());

    let action = state.poll::<f64>(ID, Some(make_item_report("a", 10, 4)), false);
    assert_eq!(action.send.unwrap().item_updates.len(), 1);

    let action = state.poll::<f64>(ID, None, true);
    assert!(action.send.is_none());
    assert!(action.finish);
    assert_eq!(state.prev.as_ref().unwrap().bytes_completed, 4);

    let action = state.poll::<f64>(ID, Some(make_item_report("a", 10, 4)), false);
    assert!(action.send.is_none());
}

struct FixedReporter;

impl ProgressReporter<f64> for FixedReporter {
    fn report(&self) -> GroupProgressReport<f64> {
        make_group_report(10, 4, 0, 0)
    }

    fn item_reports(&self) -> HashMap<UniqueID, ItemProgressReport> {
        HashMap::from([(5, make_item_report("five", 50, 5)), (6, make_item_report("six", 60, 6))])
    }
}

#[test]
fn reporter_finds_single_items_among_all() {
    let reporter: &dyn ProgressReporter<f64> = &FixedReporter;
    assert_eq!(reporter.item_report(6).unwrap().item_name, "six");
    assert!(reporter.item_report(7).is_none());
    assert_eq!(pick_report(reporter.item_reports(), 5).unwrap().total_bytes, 50);
    assert!(pick_report(reporter.item_reports(), 4).is_none());
    assert_eq!(reporter.report().total_bytes, 10);
}

#[test]
fn bridges_poll_reporters() {
    let reporter: &dyn ProgressReporter<f64> = &FixedReporter;
    let mut state = GroupBridgeState::new();
    let action = state.poll_reporter(reporter, false);
    let update = action.send.unwrap();
    assert_eq!(update.total_bytes_increment, 10);
    assert_eq!(update.item_updates.len(), 2);
    let action = state.poll_reporter(reporter, true);
    assert!(action.send.is_none());
    assert!(action.finish);

    let mut item_state = ItemBridgeState::new();
    let action = item_state.poll_reporter(reporter, 6, false);
    let update = action.send.unwrap();
    assert_eq!(update.total_bytes, 60);
    assert_eq!(update.item_updates[0].item_name, "six");
    let action = item_state.poll_reporter(reporter, 7, true);
    assert!(action.send.is_none());
    assert!(action.finish);
}

#[test]
fn report_defaults_to_zero() {
    let report: GroupProgressReport<f64> = GroupProgressReport::default();
    assert_eq!(report.total_bytes, 0);
    assert_eq!(report.total_bytes_completed, 0);
    assert_eq!(report.total_transfer_bytes, 0);
    assert_eq!(report.total_transfer_bytes_completed, 0);
    assert!(report.total_bytes_completion_rate.is_none());
    assert!(report.total_transfer_bytes_completion_rate.is_none());
}

#[test]
fn polls_are_a_quarter_of_a_second_apart() {
    assert_eq!(POLL_INTERVAL_MILLIS, 250);
}
