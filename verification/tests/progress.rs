use std::time::Duration;

use xet_progress::group::GroupProgress;
use xet_progress::model::{Incomplete, Overrun, SpeedConfig, UniqueID};
use xet_progress::report::GroupProgressReport;
use xet_progress::updater::ItemProgressUpdater;

const ID: UniqueID = 1;

/// The parameters that the estimator of these tests has by default.
fn defaults() -> SpeedConfig {
    SpeedConfig { half_life: Duration::from_secs(10), min_observations: 2 }
}

fn no_rates(_bytes: u64, _transfer_bytes: u64) -> (Option<f64>, Option<f64>) {
    (None, None)
}

#[test]
fn test_group_progress_new_item() {
    let mut group = GroupProgress::new(defaults());
    let mut updater = group.new_item(ID, "test.bin");
    updater.update_item_size(100, true);

    assert_eq!(group.total_bytes, 100);
}

#[test]
fn test_item_progress_updater_bytes() {
    let mut group = GroupProgress::new(defaults());
    let mut updater = group.new_item(ID, "test.bin");
    updater.update_item_size(100, true);
    updater.report_bytes_completed(50).unwrap();

    assert_eq!(updater.total_bytes_completed(), 50);
    assert_eq!(group.total_bytes_completed, 50);
}

#[test]
fn test_item_progress_updater_transfer() {
    let mut group = GroupProgress::new(defaults());
    let mut updater = group.new_item(ID, "test.bin");
    updater.update_item_size(100, true);
    updater.update_transfer_size(80);
    updater.report_transfer_bytes_completed(30).unwrap();

    assert_eq!(group.total_transfer_bytes, 80);
    assert_eq!(group.total_transfer_bytes_completed, 30);
}

#[test]
fn test_update_item_size_finalized() {
    let mut group = GroupProgress::new(defaults());
    let mut updater = group.new_item(ID, "test.bin");
    updater.update_item_size(100, true);
    updater.update_item_size(200, false);

    assert_eq!(updater.item().total_bytes, 100);
    assert_eq!(group.total_bytes, 100);
}

#[test]
fn test_update_item_size_monotonic_increase() {
    let mut group = GroupProgress::new(defaults());
    let mut updater = group.new_item(ID, "test.bin");
    updater.update_item_size(100, false);
    updater.update_item_size(300, false);

    assert_eq!(updater.item().total_bytes, 300);
    assert_eq!(group.total_bytes, 300);
}

#[test]
fn test_update_item_size_same_value_noop() {
    let mut group = GroupProgress::new(defaults());
    let mut updater = group.new_item(ID, "test.bin");
    updater.update_item_size(100, false);
    updater.update_item_size(100, false);

    assert_eq!(group.total_bytes, 100);
}

#[test]
fn test_report_snapshot() {
    let mut group = GroupProgress::new(defaults());
    let mut updater = group.new_item(ID, "file.bin");
    updater.update_item_size(1000, true);
    updater.update_transfer_size(800);
    updater.report_bytes_completed(500).unwrap();
    updater.report_transfer_bytes_completed(300).unwrap();

    let report = group.report(no_rates);
    assert_eq!(report.total_bytes, 1000);
    assert_eq!(report.total_bytes_completed, 500);
    assert_eq!(report.total_transfer_bytes, 800);
    assert_eq!(report.total_transfer_bytes_completed, 300);
}

#[test]
fn test_item_reports() {
    let mut group = GroupProgress::new(defaults());
    let id1: UniqueID = 11;
    let id2: UniqueID = 12;

    let h1 = group.new_item(id1, "a.bin").handle();
    let h2 = group.new_item(id2, "b.bin").handle();

    let mut u1 = group.updater(h1).unwrap();
    u1.update_item_size(100, true);
    u1.report_bytes_completed(60).unwrap();
    let mut u2 = group.updater(h2).unwrap();
    u2.update_item_size(200, true);
    u2.report_bytes_completed(200).unwrap();

    let reports = group.item_reports();
    assert_eq!(reports.len(), 2);
    assert_eq!(reports[&id1].bytes_completed, 60);
    assert_eq!(reports[&id2].bytes_completed, 200);
}

#[test]
fn test_multiple_items_group_totals() {
    let mut group = GroupProgress::new(defaults());
    let h1 = group.new_item(11, "a.bin").handle();
    let h2 = group.new_item(12, "b.bin").handle();

    group.updater(h1).unwrap().update_item_size(100, true);
    group.updater(h2).unwrap().update_item_size(200, true);
    group.updater(h1).unwrap().report_bytes_completed(50).unwrap();
    group.updater(h2).unwrap().report_bytes_completed(100).unwrap();

    assert_eq!(group.total_bytes, 300);
    assert_eq!(group.total_bytes_completed, 150);
}

#[test]
fn test_assert_complete() {
    let mut group = GroupProgress::new(defaults());
    let mut updater = group.new_item(ID, "test.bin");
    updater.update_item_size(100, true);
    updater.update_transfer_size(80);
    updater.report_bytes_completed(100).unwrap();
    updater.report_transfer_bytes_completed(80).unwrap();

    assert_eq!(updater.assert_complete(), Ok(()));
    assert_eq!(group.assert_complete(), Ok(()));
}

#[test]
fn test_zero_increment_noop() {
    let mut group = GroupProgress::new(defaults());
    let mut updater = group.new_item(ID, "test.bin");
    updater.update_item_size(100, true);
    updater.report_bytes_completed(0).unwrap();

    assert_eq!(updater.total_bytes_completed(), 0);
    assert_eq!(group.total_bytes_completed, 0);
}

#[test]
fn test_report_bytes_written_alias() {
    let mut group = GroupProgress::new(defaults());
    let mut updater = group.new_item(ID, "test.bin");
    updater.update_item_size(100, true);
    updater.report_bytes_written(50).unwrap();

    assert_eq!(updater.total_bytes_completed(), 50);
}

#[test]
fn test_report_transfer_progress_alias() {
    let mut group = GroupProgress::new(defaults());
    let mut updater = group.new_item(ID, "test.bin");
    updater.update_item_size(100, true);
    updater.update_transfer_size(90);
    updater.report_transfer_progress(40).unwrap();

    assert_eq!(updater.item().transfer_bytes_completed, 40);
    assert_eq!(group.total_transfer_bytes_completed, 40);
}

#[test]
fn test_report_rates_none_until_min_observations_then_some() {
    let mut group = GroupProgress::with_speed_config(Duration::from_secs(10), 3);
    let mut updater = group.new_item(ID, "test.bin");
    updater.update_item_size(10_000, true);
    updater.update_transfer_size(10_000);
    let handle = updater.handle();

    // An eager estimator: bytes per second, as if 200 ms had passed since the previous report.
    let mut seen: (u64, u64) = (0, 0);
    let mut estimate = |bytes: u64, transfer: u64| {
        let rates = ((bytes - seen.0) as f64 / 0.2, (transfer - seen.1) as f64 / 0.2);
        seen = (bytes, transfer);
        (Some(rates.0), Some(rates.1))
    };
    let mut advance = |group: &mut GroupProgress| -> GroupProgressReport<f64> {
        let mut updater = group.updater(handle).unwrap();
        updater.report_bytes_completed(1_000).unwrap();
        updater.report_transfer_progress(800).unwrap();
        group.report(&mut estimate)
    };

    let report = advance(&mut group);
    assert!(report.total_bytes_completion_rate.is_none());
    assert!(report.total_transfer_bytes_completion_rate.is_none());

    let report = advance(&mut group);
    assert!(report.total_bytes_completion_rate.is_none());
    assert!(report.total_transfer_bytes_completion_rate.is_none());

    let report = advance(&mut group);
    assert!(report.total_bytes_completion_rate.is_some());
    assert!(report.total_transfer_bytes_completion_rate.is_some());
    assert_eq!(report.total_bytes_completed, 3_000);
    assert_eq!(report.total_bytes_completion_rate, Some(5_000.0));
    assert_eq!(report.total_transfer_bytes_completion_rate, Some(4_000.0));
}

#[test]
fn new_group_is_one_with_the_default_speed_config() {
    let explicit =
        GroupProgress::with_speed_config(defaults().half_life, defaults().min_observations);
    for mut group in [GroupProgress::new(defaults()), explicit] {
        assert_eq!(group.speed_config.half_life, Duration::from_secs(10));
        assert_eq!(group.speed_config.min_observations, 2);
        assert_eq!((group.total_bytes, group.total_bytes_completed), (0, 0));
        assert_eq!((group.total_transfer_bytes, group.total_transfer_bytes_completed), (0, 0));
        assert_eq!(group.item_reports().len(), 0);
        assert_eq!(group.assert_complete(), Ok(()));

        let rates = |bytes: u64, transfer: u64| (Some(bytes + 1), Some(transfer + 2));
        let report = group.report(rates);
        assert_eq!(report.total_bytes_completion_rate, None);
        assert_eq!(report.total_transfer_bytes_completion_rate, None);
        let report = group.report(rates);
        assert_eq!(report.total_bytes_completion_rate, Some(1));
        assert_eq!(report.total_transfer_bytes_completion_rate, Some(2));
        assert_eq!(group.reports_drawn, 2);
    }
}

#[test]
fn more_bytes_than_there_are_overrun_but_count() {
    let mut group = GroupProgress::new(defaults());
    let mut updater = group.new_item(ID, "a");
    updater.update_item_size(10, true);
    updater.update_transfer_size(4);
    assert_eq!(updater.report_bytes_completed(7), Ok(()));
    assert_eq!(updater.report_bytes_completed(3), Ok(()));
    assert!(updater.item().is_within_totals());
    assert_eq!(
        updater.report_bytes_completed(1),
        Err(Overrun { completed: 10, increment: 1, total: 10 })
    );
    assert_eq!(updater.total_bytes_completed(), 11);
    assert!(!updater.item().is_within_totals());
    assert!(!updater.report().is_within_totals());
    assert!(!updater.group().is_within_totals());
    // Reporting nothing is never an overrun.
    assert_eq!(updater.report_bytes_written(0), Ok(()));
    assert_eq!(
        updater.report_bytes_written(2),
        Err(Overrun { completed: 11, increment: 2, total: 10 })
    );
    assert_eq!(
        updater.report_transfer_bytes_completed(5),
        Err(Overrun { completed: 0, increment: 5, total: 4 })
    );
    assert_eq!(
        updater.report_transfer_progress(1),
        Err(Overrun { completed: 5, increment: 1, total: 4 })
    );
    assert_eq!(group.total_bytes_completed, 13);
    assert_eq!(group.total_transfer_bytes_completed, 6);
}

#[test]
fn untouched_group_is_within_totals() {
    let mut group = GroupProgress::new(defaults());
    assert!(group.is_within_totals());
    let mut updater = group.new_item(ID, "a");
    updater.update_transfer_size(2);
    updater.report_transfer_bytes_completed(2).unwrap();
    assert!(updater.report().is_within_totals());
    assert!(group.is_within_totals());
}

#[test]
fn speed_config_is_kept() {
    let group = GroupProgress::with_speed_config(Duration::from_millis(1500), 7);
    let config = group.speed_config;
    assert_eq!(config.half_life, Duration::from_millis(1500));
    assert_eq!(config.min_observations, 7);
    assert_eq!(group.total_bytes, 0);
    assert_eq!(group.item_reports().len(), 0);
}

#[test]
fn estimator_is_given_the_completion_counters() {
    let mut group = GroupProgress::with_speed_config(Duration::from_secs(1), 0);
    let mut updater = group.new_item(ID, "a");
    updater.update_item_size(10, false);
    updater.update_transfer_size(10);
    updater.report_bytes_completed(4).unwrap();
    updater.report_transfer_bytes_completed(3).unwrap();
    let mut given: Option<(u64, u64)> = None;
    let report = group.report(|bytes: u64, transfer: u64| {
        given = Some((bytes, transfer));
        (None::<f64>, Some(0.5))
    });
    assert_eq!(given, Some((4, 3)));
    assert_eq!(report.total_bytes_completion_rate, None);
    assert_eq!(report.total_transfer_bytes_completion_rate, Some(0.5));
}

#[test]
fn final_size_below_the_known_one_is_not_lowered() {
    let mut group = GroupProgress::new(defaults());
    let mut updater = group.new_item(ID, "a");
    updater.update_item_size(300, false);
    updater.update_item_size(200, true);
    assert!(updater.item().size_finalized);
    assert_eq!(updater.item().total_bytes, 300);
    updater.update_item_size(400, true);
    assert_eq!(updater.item().total_bytes, 300);
    assert_eq!(updater.group().total_bytes, 300);
}

#[test]
fn transfer_size_never_shrinks() {
    let mut group = GroupProgress::new(defaults());
    let mut updater = group.new_item(ID, "a");
    updater.update_transfer_size(50);
    updater.update_transfer_size(20);
    updater.update_transfer_size(60);
    assert_eq!(updater.item().transfer_bytes, 60);
    assert_eq!(group.total_transfer_bytes, 60);
}

#[test]
fn item_report_shows_all_counters() {
    let mut group = GroupProgress::new(defaults());
    let mut updater = group.new_item(ID, "name.bin");
    updater.update_item_size(10, false);
    updater.update_transfer_size(8);
    updater.report_bytes_completed(6).unwrap();
    updater.report_transfer_bytes_completed(5).unwrap();
    let own = updater.report();
    assert_eq!(own.item_name, "name.bin");
    assert_eq!((own.total_bytes, own.bytes_completed), (10, 6));
    assert_eq!((own.transfer_bytes, own.transfer_bytes_completed), (8, 5));

    let found = group.item_report(ID).unwrap();
    assert_eq!(found.item_name, "name.bin");
    assert_eq!((found.total_bytes, found.bytes_completed), (10, 6));
    assert!(group.item_report(ID + 1).is_none());
}

#[test]
fn reused_id_stands_for_the_newer_item_and_the_older_one_keeps_counting() {
    let mut group = GroupProgress::new(defaults());
    let older = group.new_item(ID, "older").handle();
    let newer = group.new_item(ID, "newer").handle();
    assert_ne!(older, newer);
    group.updater(older).unwrap().update_item_size(5, false);
    group.updater(newer).unwrap().update_item_size(7, false);

    let reports = group.item_reports();
    assert_eq!(reports.len(), 1);
    assert_eq!(reports[&ID].item_name, "newer");
    assert_eq!(reports[&ID].total_bytes, 7);
    assert_eq!(group.total_bytes, 12);
}

#[test]
fn unknown_handle_has_no_updater() {
    let mut group = GroupProgress::new(defaults());
    let mut larger_group = GroupProgress::new(defaults());
    larger_group.new_item(ID, "a");
    let second = larger_group.new_item(2, "b").handle();
    group.new_item(ID, "a");
    assert!(group.updater(second).is_none());
    assert!(larger_group.updater(second).is_some());
}

#[test]
fn standalone_item_is_tracked_but_not_registered() {
    let (mut group, handle) = ItemProgressUpdater::new_standalone(ID, "alone", defaults());
    let mut updater = group.updater(handle).unwrap();
    updater.update_item_size(9, true);
    updater.report_bytes_completed(9).unwrap();
    assert_eq!(updater.item().name, "alone");
    assert_eq!(updater.item().id, ID);
    assert_eq!(updater.assert_complete(), Ok(()));
    assert_eq!(group.total_bytes, 9);
    assert!(group.item_report(ID).is_none());
    assert_eq!(group.item_reports().len(), 0);
}

#[test]
fn incomplete_item_is_told_by_kind_of_bytes() {
    let mut group = GroupProgress::new(defaults());
    let mut updater = group.new_item(ID, "a");
    updater.update_item_size(10, true);
    updater.report_bytes_completed(9).unwrap();
    assert_eq!(updater.assert_complete(), Err(Incomplete::Bytes { completed: 9, total: 10 }));
    updater.report_bytes_completed(1).unwrap();
    updater.update_transfer_size(4);
    assert_eq!(
        updater.assert_complete(),
        Err(Incomplete::TransferBytes { completed: 0, total: 4 })
    );
}

#[test]
fn incomplete_group_is_told_by_aggregate_or_item() {
    let mut group = GroupProgress::new(defaults());
    let a = group.new_item(21, "a").handle();
    let b = group.new_item(22, "b").handle();
    group.updater(a).unwrap().update_item_size(10, true);
    group.updater(b).unwrap().update_transfer_size(3);
    assert_eq!(group.assert_complete(), Err(Incomplete::Bytes { completed: 0, total: 10 }));

    // Item `b` reports bytes that only item `a` has, so that the aggregates match.
    assert!(group.updater(b).unwrap().report_bytes_completed(10).is_err());
    assert_eq!(group.assert_complete(), Err(Incomplete::TransferBytes { completed: 0, total: 3 }));
    group.updater(b).unwrap().report_transfer_bytes_completed(3).unwrap();
    let outcome = group.assert_complete();
    assert!(
        outcome == Err(Incomplete::Item { id: 21, completed: 0, total: 10 })
            || outcome == Err(Incomplete::Item { id: 22, completed: 10, total: 0 })
    );
}

#[test]
fn group_does_not_look_at_transfer_bytes_of_items() {
    let mut group = GroupProgress::new(defaults());
    let a = group.new_item(21, "a").handle();
    let b = group.new_item(22, "b").handle();
    group.updater(a).unwrap().update_transfer_size(5);
    assert!(group.updater(b).unwrap().report_transfer_bytes_completed(5).is_err());
    assert_eq!(group.assert_complete(), Ok(()));
}

#[test]
fn counters_wrap_around() {
    let mut group = GroupProgress::new(defaults());
    let a = group.new_item(21, "a").handle();
    let b = group.new_item(22, "b").handle();
    group.updater(a).unwrap().update_item_size(u64::MAX, false);
    group.updater(b).unwrap().update_item_size(3, false);
    assert_eq!(group.total_bytes, 2);
    group.updater(a).unwrap().report_bytes_completed(u64::MAX).unwrap();
    assert_eq!(
        group.updater(a).unwrap().report_bytes_completed(2),
        Err(Overrun { completed: u64::MAX, increment: 2, total: u64::MAX })
    );
    assert_eq!(group.updater(a).unwrap().total_bytes_completed(), 1);
    assert_eq!(group.total_bytes_completed, 1);
}

#[test]
fn group_counters_are_sums_and_order_does_not_matter() {
    let run = |swapped: bool| {
        let mut group = GroupProgress::new(defaults());
        let a = group.new_item(21, "a").handle();
        let b = group.new_item(22, "b").handle();
        let order = if swapped { [b, a] } else { [a, b] };
        for handle in order {
            let mut updater = group.updater(handle).unwrap();
            let size = if handle == a { 30 } else { 12 };
            updater.update_item_size(size, true);
            updater.update_transfer_size(size / 2);
            updater.report_bytes_completed(size - 5).unwrap();
            updater.report_transfer_bytes_completed(1).unwrap();
            updater.report_transfer_bytes_completed(2).unwrap();
        }
        let reports = group.item_reports();
        assert_eq!(group.total_bytes, reports.values().map(|r| r.total_bytes).sum::<u64>());
        assert_eq!(
            group.total_bytes_completed,
            reports.values().map(|r| r.bytes_completed).sum::<u64>()
        );
        group.report(no_rates)
    };
    for report in [run(false), run(true)] {
        assert_eq!(report.total_bytes, 42);
        assert_eq!(report.total_bytes_completed, 32);
        assert_eq!(report.total_transfer_bytes, 21);
        assert_eq!(report.total_transfer_bytes_completed, 6);
    }
}

#[test]
fn completions_read_early_stay_below_totals_read_late() {
    let mut group = GroupProgress::new(defaults());
    let handle = group.new_item(ID, "a").handle();
    let mut updater = group.updater(handle).unwrap();
    updater.update_item_size(10, false);
    updater.report_bytes_completed(10).unwrap();
    let completed = group.total_bytes_completed;
    let mut updater = group.updater(handle).unwrap();
    updater.update_item_size(25, false);
    updater.report_bytes_completed(7).unwrap();
    assert!(completed <= group.total_bytes);
    assert_eq!(group.total_bytes_completed, 17);
}

#[test]
fn debug_output_shows_the_main_counters() {
    let mut group = GroupProgress::new(defaults());
    let mut updater = group.new_item(7, "a.bin");
    updater.update_item_size(10, true);
    updater.update_transfer_size(8);
    updater.report_bytes_completed(4).unwrap();
    updater.report_transfer_bytes_completed(3).unwrap();
    assert_eq!(
        format!("{:?}", updater.item().shown()),
        "ItemProgress { id: 7, name: \"a.bin\", total_bytes: 10, bytes_completed: 4 }"
    );
    assert_eq!(
        format!("{:?}", updater.shown()),
        "ItemProgressUpdater { item: ItemProgress { id: 7, name: \"a.bin\", total_bytes: 10, \
         bytes_completed: 4 } }"
    );
    assert_eq!(
        format!("{:?}", group.shown()),
        "GroupProgress { total_bytes: 10, total_bytes_completed: 4, total_transfer_bytes: 8, \
         total_transfer_bytes_completed: 3 }"
    );
}

#[test]
fn second_final_size_contradicts_unless_equal() {
    let mut group = GroupProgress::new(defaults());
    let mut updater = group.new_item(ID, "a");
    assert!(!updater.item().contradicts_final_size(5, true));
    updater.update_item_size(10, true);
    assert!(updater.item().contradicts_final_size(5, true));
    assert!(!updater.item().contradicts_final_size(10, true));
    assert!(!updater.item().contradicts_final_size(5, false));
}
