use ad_monitor::decision::{AdMetricsThresholds, AdWorker};
use ad_monitor::facebook::{AdData, AdInsights, CostPerAction, TargetStatus};

fn ad(name: &str, status: &str, effective: &str, cost: &str) -> AdData {
    AdData {
        id: format!("id-{}", name),
        name: name.to_string(),
        status: status.to_string(),
        effective_status: effective.to_string(),
        insights: Some(AdInsights { impressions: 0, reach: 0, clicks: 0, spend: 0 }),
        cost_per_action_type: vec![CostPerAction {
            action_type: "offsite_conversion.fb_pixel_custom".to_string(),
            value: cost.to_string(),
        }],
    }
}

fn worker(threshold_micros: u64) -> AdWorker {
    AdWorker::new(AdMetricsThresholds { max_cost_per_action: threshold_micros })
}

#[test]
fn active_ad_above_threshold_is_paused() {
    let w = worker(5_000_000);
    let ev = w.process_ad(&ad("A", "ACTIVE", "ACTIVE", "7.2"), true);
    assert_eq!(ev.change, Some(TargetStatus::Paused));
}

#[test]
fn paused_ad_below_threshold_is_activated() {
    let w = worker(5_000_000);
    let ev = w.process_ad(&ad("B", "PAUSED", "PAUSED", "3.0"), true);
    assert_eq!(ev.change, Some(TargetStatus::Active));
}

#[test]
fn active_ad_below_threshold_is_untouched() {
    let w = worker(5_000_000);
    let ev = w.process_ad(&ad("C", "ACTIVE", "ACTIVE", "4.0"), true);
    assert_eq!(ev.change, None);
}

#[test]
fn paused_ad_above_threshold_is_untouched() {
    let w = worker(5_000_000);
    let ev = w.process_ad(&ad("D", "PAUSED", "PAUSED", "9.9"), true);
    assert_eq!(ev.change, None);
}

#[test]
fn cost_exactly_at_threshold_changes_nothing() {
    let w = worker(5_000_000);
    assert_eq!(w.process_ad(&ad("E", "ACTIVE", "ACTIVE", "5.0"), true).change, None);
    assert_eq!(w.process_ad(&ad("F", "PAUSED", "PAUSED", "5"), true).change, None);
}

#[test]
fn disapproved_ad_is_never_touched_and_keeps_flag() {
    let w = worker(5_000_000);
    let record = ad("G", "ACTIVE", "DISAPPROVED", "9.0");
    let ev = w.process_ad(&record, true);
    assert_eq!(ev.change, None);
    assert!(ev.all_paused);
    let ev2 = w.process_ad(&record, false);
    assert_eq!(ev2.change, None);
    assert!(!ev2.all_paused);
    assert_eq!(ev.lines, vec!["\u{274c} Ad disapproved: G waiting for deletion".to_string()]);
}

#[test]
fn reevaluation_is_idempotent() {
    let w = worker(5_000_000);
    let record = ad("H", "ACTIVE", "ACTIVE", "7.2");
    let first = w.process_ad(&record, true);
    let second = w.process_ad(&record, true);
    assert_eq!(first.change, second.change);
    assert_eq!(first.lines, second.lines);
    assert_eq!(first.all_paused, second.all_paused);
}

#[test]
fn missing_cost_entry_counts_as_zero() {
    let w = worker(5_000_000);
    let mut record = ad("I", "PAUSED", "PAUSED", "0");
    record.cost_per_action_type = vec![];
    assert_eq!(w.get_cost_per_action(&record), 0);
    // Zero is below the threshold, so the paused ad is reopened.
    assert_eq!(w.process_ad(&record, true).change, Some(TargetStatus::Active));
}

#[test]
fn unparsable_cost_counts_as_zero() {
    let w = worker(5_000_000);
    let record = ad("J", "ACTIVE", "ACTIVE", "not-a-number");
    assert_eq!(w.get_cost_per_action(&record), 0);
    assert_eq!(w.process_ad(&record, true).change, None);
}

#[test]
fn campaign_paused_ad_keeps_flag_and_gets_paused_line() {
    let w = worker(5_000_000);
    let ev = w.process_ad(&ad("K", "ACTIVE", "CAMPAIGN_PAUSED", "2.5"), true);
    assert_eq!(ev.change, None);
    assert!(ev.all_paused);
    assert_eq!(ev.lines, vec!["\u{274c} Ad paused: K:\u{1f4b0}2.5".to_string()]);
}

#[test]
fn active_ad_clears_flag_and_gets_active_line() {
    let w = worker(5_000_000);
    let ev = w.process_ad(&ad("L", "ACTIVE", "ACTIVE", "4.0"), true);
    assert!(!ev.all_paused);
    assert_eq!(ev.lines, vec!["\u{1f7e2} Ad active: L:\u{1f4b0}4".to_string()]);
}

#[test]
fn update_line_precedes_status_line() {
    let w = worker(5_000_000);
    let ev = w.process_ad(&ad("M", "ACTIVE", "ACTIVE", "7.2"), true);
    assert_eq!(
        ev.lines,
        vec![
            "\u{1f9e0} Updated ad status: M to PAUSED".to_string(),
            "\u{1f7e2} Ad active: M:\u{1f4b0}7.2".to_string(),
        ]
    );
}

#[test]
fn should_close_and_open_are_mutually_exclusive() {
    let w = worker(5_000_000);
    let a = ad("N", "ACTIVE", "ACTIVE", "7.2");
    let cost = w.get_cost_per_action(&a);
    assert!(w.should_close_ad(&a, cost));
    assert!(!w.should_open_ad(&a, cost));
    let b = ad("O", "PAUSED", "PAUSED", "3.0");
    let cost_b = w.get_cost_per_action(&b);
    assert!(!w.should_close_ad(&b, cost_b));
    assert!(w.should_open_ad(&b, cost_b));
}
