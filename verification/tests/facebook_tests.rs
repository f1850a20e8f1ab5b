use ad_monitor::facebook::{
    make_account_balance, normalize_ad, normalize_status, select_ads_to_update, AdData,
    FacebookApiError, RawAd, RawBalance, RawCostEntry, TargetStatus,
};

fn empty_raw() -> RawAd {
    RawAd {
        id: None,
        name: None,
        status: None,
        effective_status: None,
        impressions: None,
        reach: None,
        clicks: None,
        spend: None,
        cost_entries: None,
    }
}

#[test]
fn missing_leaves_get_safe_defaults() {
    let ad = normalize_ad(&empty_raw());
    assert_eq!(ad.id, "");
    assert_eq!(ad.name, "");
    assert_eq!(ad.status, "");
    assert_eq!(ad.effective_status, "");
    let ins = ad.insights.unwrap();
    assert_eq!(ins.impressions, 0);
    assert_eq!(ins.reach, 0);
    assert_eq!(ins.clicks, 0);
    assert_eq!(ins.spend, 0);
    assert_eq!(ad.cost_per_action_type.len(), 1);
    assert_eq!(ad.cost_per_action_type[0].action_type, "offsite_conversion.fb_pixel_custom");
    assert_eq!(ad.cost_per_action_type[0].value, "0");
}

#[test]
fn tracked_cost_entry_is_found_among_others() {
    let mut raw = empty_raw();
    raw.name = Some("Ad1".to_string());
    raw.spend = Some("10.5".to_string());
    raw.cost_entries = Some(vec![
        RawCostEntry { action_type: Some("link_click".to_string()), value: Some("9".to_string()) },
        RawCostEntry {
            action_type: Some("offsite_conversion.fb_pixel_custom".to_string()),
            value: Some("2.5".to_string()),
        },
        RawCostEntry {
            action_type: Some("offsite_conversion.fb_pixel_custom".to_string()),
            value: Some("8.8".to_string()),
        },
    ]);
    let ad = normalize_ad(&raw);
    assert_eq!(ad.name, "Ad1");
    assert_eq!(ad.insights.unwrap().spend, 10_500_000);
    assert_eq!(ad.cost_per_action_type[0].value, "2.5");
}

#[test]
fn tracked_entry_without_value_defaults_to_zero_text() {
    let mut raw = empty_raw();
    raw.cost_entries = Some(vec![RawCostEntry {
        action_type: Some("offsite_conversion.fb_pixel_custom".to_string()),
        value: None,
    }]);
    let ad = normalize_ad(&raw);
    assert_eq!(ad.cost_per_action_type[0].value, "0");
}

#[test]
fn status_synonyms_are_case_normalized() {
    assert_eq!(normalize_status("a").unwrap(), TargetStatus::Active);
    assert_eq!(normalize_status("A").unwrap(), TargetStatus::Active);
    assert_eq!(normalize_status("active").unwrap(), TargetStatus::Active);
    assert_eq!(normalize_status("ACTIVE").unwrap(), TargetStatus::Active);
    assert_eq!(normalize_status("p").unwrap(), TargetStatus::Paused);
    assert_eq!(normalize_status("Paused").unwrap(), TargetStatus::Paused);
}

#[test]
fn other_status_text_is_an_invalid_argument() {
    for bad in ["", "x", "activ", "pause", "ACTIVATED", "aa"] {
        match normalize_status(bad) {
            Err(FacebookApiError::InvalidArgument(m)) => {
                assert_eq!(m, "Invalid status value");
            }
            other => panic!("expected InvalidArgument, got {:?}", other),
        }
    }
}

fn summary_ad(name: &str, effective: &str) -> AdData {
    AdData {
        id: format!("id-{}", name),
        name: name.to_string(),
        status: "ACTIVE".to_string(),
        effective_status: effective.to_string(),
        insights: None,
        cost_per_action_type: vec![],
    }
}

#[test]
fn only_ads_off_target_are_selected() {
    let ads = vec![
        summary_ad("X", "ACTIVE"),
        summary_ad("Y", "PAUSED"),
        summary_ad("Z", "CAMPAIGN_PAUSED"),
    ];
    let out = select_ads_to_update(&ads, TargetStatus::Paused);
    assert_eq!(out.len(), 2);
    assert_eq!(out[0].name, "X");
    assert_eq!(out[0].status, "PAUSED");
    assert_eq!(out[0].effective_status, "PAUSED");
    assert!(out[0].insights.is_none());
    assert!(out[0].cost_per_action_type.is_empty());
    assert_eq!(out[1].name, "Z");
}

#[test]
fn selection_keeps_platform_order_and_identity() {
    let ads = vec![summary_ad("P1", "PAUSED"), summary_ad("P2", "PAUSED")];
    let out = select_ads_to_update(&ads, TargetStatus::Active);
    assert_eq!(out.len(), 2);
    assert_eq!(out[0].id, "id-P1");
    assert_eq!(out[1].id, "id-P2");
    assert_eq!(out[0].status, "ACTIVE");
    let none = select_ads_to_update(&vec![summary_ad("P3", "ACTIVE")], TargetStatus::Active);
    assert!(none.is_empty());
}

#[test]
fn balance_defaults_and_display() {
    let b = make_account_balance(&RawBalance {
        name: None,
        id: None,
        account_status: Some(1),
        currency: None,
        balance_minor: Some(150_000),
    });
    assert_eq!(b.name, "Unknown");
    assert_eq!(b.id, "Unknown");
    assert_eq!(b.status, "Active");
    assert_eq!(b.currency, "THB");
    assert_eq!(b.available_funds, "\u{0e3f}1500.00");
}

#[test]
fn non_unit_account_status_is_inactive() {
    let b = make_account_balance(&RawBalance {
        name: Some("Shop".to_string()),
        id: Some("act_1".to_string()),
        account_status: None,
        currency: Some("USD".to_string()),
        balance_minor: None,
    });
    assert_eq!(b.name, "Shop");
    assert_eq!(b.id, "act_1");
    assert_eq!(b.status, "Inactive");
    assert_eq!(b.currency, "USD");
    assert_eq!(b.available_funds, "\u{0e3f}0.00");
}
