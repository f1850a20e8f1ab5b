use ad_monitor::decision::AdMetricsThresholds;
use ad_monitor::facebook::{AdData, AdInsights, CostPerAction, TargetStatus};
use ad_monitor::models::AdAccountMetrics;
use ad_monitor::worker::{
    build_plan, metrics_alert_text, AccountCycle, CycleAction, CycleEvent, WORKER_INTERVAL_SECS,
};

fn thresholds() -> AdMetricsThresholds {
    AdMetricsThresholds { max_cost_per_action: 5_000_000 }
}

fn ad(name: &str, status: &str, effective: &str, cost: &str) -> AdData {
    AdData {
        id: format!("id-{}", name),
        name: name.to_string(),
        status: status.to_string(),
        effective_status: effective.to_string(),
        insights: Some(AdInsights { impressions: 100, reach: 50, clicks: 10, spend: 1_500_000 }),
        cost_per_action_type: vec![CostPerAction {
            action_type: "offsite_conversion.fb_pixel_custom".to_string(),
            value: cost.to_string(),
        }],
    }
}

fn expect_message(action: CycleAction) -> String {
    match action {
        CycleAction::SendMessage { text } => text,
        other => panic!("expected SendMessage, got {:?}", other),
    }
}

#[test]
fn empty_account_sends_one_notice_and_no_updates() {
    let (cycle, action) = AccountCycle::new("ACC1".to_string(), thresholds());
    assert!(matches!(action, CycleAction::FetchAds));
    let (cycle, action) = cycle.step(CycleEvent::AdsFetched { ads: vec![] });
    assert_eq!(expect_message(action), "\u{1f50d} Account ACC1 has no active ads");
    let (_cycle, action) = cycle.step(CycleEvent::MessageSent);
    assert!(matches!(action, CycleAction::Finish { failed: false }));
}

#[test]
fn fetch_error_sends_one_error_notice_then_finishes() {
    let (cycle, _action) = AccountCycle::new("ACC-X".to_string(), thresholds());
    let (cycle, action) =
        cycle.step(CycleEvent::AdsFetchFailed { error: "transport error".to_string() });
    assert_eq!(expect_message(action), "\u{1f6a8} Error in account ACC-X: transport error");
    let (_cycle, action) = cycle.step(CycleEvent::MessageSent);
    assert!(matches!(action, CycleAction::Finish { failed: true }));
}

#[test]
fn full_cycle_orders_balance_updates_summary_snapshot() {
    let ads = vec![
        ad("A", "ACTIVE", "ACTIVE", "7.2"),
        ad("B", "PAUSED", "PAUSED", "3.0"),
        ad("C", "ACTIVE", "ACTIVE", "4.0"),
    ];
    let (cycle, action) = AccountCycle::new("ACC2".to_string(), thresholds());
    assert!(matches!(action, CycleAction::FetchAds));
    let (cycle, action) = cycle.step(CycleEvent::AdsFetched { ads });
    assert!(matches!(action, CycleAction::FetchBalance));
    let (cycle, action) =
        cycle.step(CycleEvent::BalanceFetched { funds: "\u{0e3f}1500.00".to_string() });
    assert_eq!(expect_message(action), "\u{1f4b0} Account balance ACC2: \u{0e3f}1500.00");
    // Ad A crosses the ceiling and is paused; ad B is under it and reopens.
    let (cycle, action) = cycle.step(CycleEvent::MessageSent);
    match &action {
        CycleAction::UpdateAdStatus { ad_name, target } => {
            assert_eq!(ad_name, "A");
            assert_eq!(*target, TargetStatus::Paused);
        }
        other => panic!("expected UpdateAdStatus, got {:?}", other),
    }
    let (cycle, action) = cycle.step(CycleEvent::AdUpdated);
    match &action {
        CycleAction::UpdateAdStatus { ad_name, target } => {
            assert_eq!(ad_name, "B");
            assert_eq!(*target, TargetStatus::Active);
        }
        other => panic!("expected UpdateAdStatus, got {:?}", other),
    }
    let (cycle, action) = cycle.step(CycleEvent::AdUpdated);
    let summary = expect_message(action);
    let expected = [
        "\u{1f9e0} Updated ad status: A to PAUSED",
        "\u{1f7e2} Ad active: A:\u{1f4b0}7.2",
        "\u{1f9e0} Updated ad status: B to ACTIVE",
        "\u{274c} Ad paused: B:\u{1f4b0}3",
        "\u{1f7e2} Ad active: C:\u{1f4b0}4",
    ]
    .join("\n");
    assert_eq!(summary, expected);
    assert!(summary.contains("A:\u{1f4b0}7.2"));
    assert!(!summary.contains("all ads are paused"));
    let (cycle, action) = cycle.step(CycleEvent::MessageSent);
    match action {
        CycleAction::RecordSnapshot { snapshot } => {
            assert_eq!(snapshot.account_id, "ACC2");
            assert_eq!(snapshot.spend, 4_500_000);
            assert_eq!(snapshot.impressions, 300);
            assert_eq!(snapshot.clicks, 30);
            assert_eq!(snapshot.conversions, 0);
        }
        other => panic!("expected RecordSnapshot, got {:?}", other),
    }
    let (_cycle, action) = cycle.step(CycleEvent::SnapshotRecorded);
    assert!(matches!(action, CycleAction::Finish { failed: false }));
}

#[test]
fn update_failure_aborts_remaining_updates_with_one_error_notice() {
    let ads = vec![ad("A", "ACTIVE", "ACTIVE", "7.2"), ad("B", "PAUSED", "PAUSED", "3.0")];
    let (cycle, _action) = AccountCycle::new("ACC3".to_string(), thresholds());
    let (cycle, _action) = cycle.step(CycleEvent::AdsFetched { ads });
    let (cycle, _action) = cycle.step(CycleEvent::BalanceFetched { funds: "\u{0e3f}1.00".to_string() });
    let (cycle, action) = cycle.step(CycleEvent::MessageSent);
    assert!(matches!(action, CycleAction::UpdateAdStatus { .. }));
    let (cycle, action) = cycle.step(CycleEvent::AdUpdateFailed { error: "boom".to_string() });
    assert_eq!(expect_message(action), "\u{1f6a8} Error in account ACC3: boom");
    let (_cycle, action) = cycle.step(CycleEvent::MessageSent);
    assert!(matches!(action, CycleAction::Finish { failed: true }));
}

#[test]
fn balance_fetch_failure_ends_cycle_with_error_notice() {
    let ads = vec![ad("A", "ACTIVE", "ACTIVE", "1.0")];
    let (cycle, _action) = AccountCycle::new("ACC4".to_string(), thresholds());
    let (cycle, _action) = cycle.step(CycleEvent::AdsFetched { ads });
    let (cycle, action) =
        cycle.step(CycleEvent::BalanceFetchFailed { error: "no funds api".to_string() });
    assert_eq!(expect_message(action), "\u{1f6a8} Error in account ACC4: no funds api");
    let (_cycle, action) = cycle.step(CycleEvent::MessageSent);
    assert!(matches!(action, CycleAction::Finish { failed: true }));
}

#[test]
fn all_paused_account_gets_warning_line() {
    let ads = vec![
        ad("A", "ACTIVE", "CAMPAIGN_PAUSED", "1.0"),
        ad("B", "ACTIVE", "DISAPPROVED", "1.0"),
    ];
    let (updates, summary, _snapshot) = build_plan(&"ACC5".to_string(), &thresholds(), &ads);
    assert!(updates.is_empty());
    let lines: Vec<&str> = summary.split('\n').collect();
    assert_eq!(*lines.last().unwrap(), "\u{1f6a8} Account ACC5 all ads are paused");
}

#[test]
fn one_running_ad_suppresses_warning_line() {
    let ads = vec![
        ad("A", "ACTIVE", "CAMPAIGN_PAUSED", "1.0"),
        ad("B", "ACTIVE", "ACTIVE", "1.0"),
    ];
    let (_updates, summary, _snapshot) = build_plan(&"ACC6".to_string(), &thresholds(), &ads);
    assert!(!summary.contains("all ads are paused"));
}

#[test]
fn plan_for_no_decisions_has_no_updates() {
    let ads = vec![ad("C", "ACTIVE", "ACTIVE", "4.0")];
    let (updates, summary, snapshot) = build_plan(&"ACC7".to_string(), &thresholds(), &ads);
    assert!(updates.is_empty());
    assert_eq!(summary, "\u{1f7e2} Ad active: C:\u{1f4b0}4");
    assert_eq!(snapshot.spend, 1_500_000);
}

#[test]
fn metrics_alert_renders_all_figures() {
    let m = AdAccountMetrics {
        account_id: "ACC8".to_string(),
        spend: 12_345_678,
        impressions: 300,
        clicks: -2,
        conversions: 0,
    };
    let text = metrics_alert_text(&m);
    let expected = "\u{1f4ca} Ad Account Update: ACC8\n\u{1f4b0} Spend: $12.34\n\u{1f441} Impressions: 300\n\u{1f5b1} Clicks: -2\n\u{2705} Conversions: 0\n";
    assert_eq!(text, expected);
}

#[test]
fn worker_interval_is_thirty_minutes() {
    assert_eq!(WORKER_INTERVAL_SECS, 1800);
}
