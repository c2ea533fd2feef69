use liment::model::{
    into_usage_data, ApiUsage, ExtraUsage, ProfileOrganization, ProfileResponse, RefreshOutcome,
    SubscriptionTier, UsageBucket, UsageData, UsageResponse, UsageWindow,
};
use liment::model::format_tier;
use liment::render::{
    display_percent, format_money, format_spent, render, utilization_severity, ActionKind,
    DateTimeFormat, DisplayConfig, DisplayMode, MenuRow, TraySlot, UsageSeverity,
};

fn window(title: &str, short: Option<&str>, utilization: u32, resets_at: Option<i64>) -> UsageWindow {
    UsageWindow {
        title: title.to_string(),
        short_title: short.map(|s| s.to_string()),
        utilization,
        resets_at,
        period_seconds: Some(18_000),
    }
}

fn snapshot(windows: Vec<UsageWindow>) -> UsageData {
    UsageData { account_tier: None, api_usage: None, windows }
}

fn config() -> DisplayConfig {
    DisplayConfig {
        display_mode: DisplayMode::Usage,
        show_period_percentage: false,
        reset_time_format: DateTimeFormat::Relative,
        monochrome_icon: false,
        refetch_interval_seconds: 60,
    }
}

#[test]
fn render_is_deterministic() {
    let outcome = RefreshOutcome::Success(snapshot(vec![
        window("5h Limit", Some("5h"), 42, Some(2_000)),
        window("7d Limit", Some("7d"), 13, None),
    ]));
    let cfg = config();
    let a = render(Some(&outcome), &cfg, 1_000, 0);
    let b = render(Some(&outcome), &cfg, 1_000, 0);
    assert_eq!(a, b);
}

#[test]
fn display_mode_inversion() {
    for u in 0..=100 {
        assert_eq!(display_percent(DisplayMode::Usage, u), u);
        assert_eq!(display_percent(DisplayMode::Remaining, u), 100 - u);
        let equal = display_percent(DisplayMode::Usage, u) == display_percent(DisplayMode::Remaining, u);
        assert_eq!(equal, u == 50);
    }
}

#[test]
fn failure_tray_is_never_numeric() {
    let cfg = config();
    let failed = render(
        Some(&RefreshOutcome::Failure(liment::model::FailureReason::TransportError)),
        &cfg,
        0,
        0,
    );
    assert_eq!(failed.tray, vec![TraySlot::Unavailable, TraySlot::Unavailable]);

    // A genuine 0% success renders a labeled numeric cell, distinguishable
    // from the failure placeholder.
    let zero = RefreshOutcome::Success(snapshot(vec![window("5h Limit", Some("5h"), 0, None)]));
    let ok = render(Some(&zero), &cfg, 0, 0);
    assert_eq!(ok.tray, vec![TraySlot::Shown { label: "5h".to_string(), percent: 0 }]);
}

#[test]
fn tray_takes_first_two_labeled_windows() {
    let cfg = config();
    let outcome = RefreshOutcome::Success(snapshot(vec![
        window("7d Sonnet", None, 11, None),
        window("5h Limit", Some("5h"), 20, None),
        window("7d Limit", Some("7d"), 30, None),
        window("Extra", Some("ex"), 40, None),
    ]));
    let vm = render(Some(&outcome), &cfg, 0, 0);
    assert_eq!(
        vm.tray,
        vec![
            TraySlot::Shown { label: "5h".to_string(), percent: 20 },
            TraySlot::Shown { label: "7d".to_string(), percent: 30 },
        ]
    );
}

#[test]
fn loading_view_before_first_outcome() {
    let cfg = config();
    let vm = render(None, &cfg, 0, 0);
    assert_eq!(vm.tray, vec![TraySlot::Loading, TraySlot::Loading]);
    assert_eq!(
        vm.menu,
        vec![
            MenuRow::Loading,
            MenuRow::Separator,
            MenuRow::Action { kind: ActionKind::Refresh },
            MenuRow::Action { kind: ActionKind::OpenConfig },
            MenuRow::Action { kind: ActionKind::Quit },
        ]
    );
}

#[test]
fn failure_menu_keeps_actions() {
    let cfg = config();
    let vm = render(
        Some(&RefreshOutcome::Failure(liment::model::FailureReason::ServerError)),
        &cfg,
        0,
        0,
    );
    assert_eq!(
        vm.menu,
        vec![
            MenuRow::Header { title: "Usage".to_string(), tier: None },
            MenuRow::Unavailable,
            MenuRow::Separator,
            MenuRow::Action { kind: ActionKind::Refresh },
            MenuRow::Action { kind: ActionKind::OpenConfig },
            MenuRow::Action { kind: ActionKind::Quit },
        ]
    );
}

#[test]
fn success_menu_rows() {
    let mut cfg = config();
    cfg.show_period_percentage = true;
    let now = 1_000_000;
    // Reset in 4500 s of an 18000 s bucket: 75% of the period has elapsed.
    let data = UsageData {
        account_tier: Some(SubscriptionTier::Pro.tier_info()),
        api_usage: Some(ApiUsage { usage_cents: 420, limit_cents: Some(1_000) }),
        windows: vec![window("5h Limit", Some("5h"), 42, Some(now + 4_500))],
    };
    let vm = render(Some(&RefreshOutcome::Success(data)), &cfg, now, 0);
    assert_eq!(vm.menu.len(), 9);
    assert_eq!(
        vm.menu[0],
        MenuRow::Header { title: "Usage".to_string(), tier: Some(SubscriptionTier::Pro.tier_info()) }
    );
    assert_eq!(
        vm.menu[1],
        MenuRow::Window {
            title: "5h Limit".to_string(),
            percent: 42,
            reset_text: Some("resets in 1h 15m".to_string()),
            period_percent: Some(75),
        }
    );
    assert_eq!(vm.menu[2], MenuRow::Separator);
    assert_eq!(vm.menu[3], MenuRow::SectionLabel { text: "Extra Usage".to_string() });
    assert_eq!(
        vm.menu[4],
        MenuRow::KeyValue { key: "Spent".to_string(), value: "$4.20 / $10.00".to_string() }
    );
    assert_eq!(vm.menu[5], MenuRow::Separator);
}

#[test]
fn remaining_mode_flips_window_and_period_percent() {
    let mut cfg = config();
    cfg.display_mode = DisplayMode::Remaining;
    cfg.show_period_percentage = true;
    let now = 0;
    let data = snapshot(vec![window("5h Limit", Some("5h"), 42, Some(now + 4_500))]);
    let vm = render(Some(&RefreshOutcome::Success(data)), &cfg, now, 0);
    assert_eq!(
        vm.menu[1],
        MenuRow::Window {
            title: "5h Limit".to_string(),
            percent: 58,
            reset_text: Some("resets in 1h 15m".to_string()),
            period_percent: Some(25),
        }
    );
}

#[test]
fn absolute_reset_format() {
    let mut cfg = config();
    cfg.reset_time_format = DateTimeFormat::Absolute;
    let data = snapshot(vec![window("5h Limit", Some("5h"), 10, Some(1_705_321_800))]);
    let vm = render(Some(&RefreshOutcome::Success(data)), &cfg, 0, 0);
    match &vm.menu[1] {
        MenuRow::Window { reset_text, .. } => {
            assert_eq!(reset_text.as_deref(), Some("reset: 15.01, 12:30"));
        }
        other => panic!("expected a window row, got {:?}", other),
    }
}

#[test]
fn money_formatting() {
    assert_eq!(format_money(0), "$0.00");
    assert_eq!(format_money(5), "$0.05");
    assert_eq!(format_money(420), "$4.20");
    assert_eq!(format_money(123_456), "$1234.56");
    assert_eq!(
        format_spent(&ApiUsage { usage_cents: 420, limit_cents: None }),
        "$4.20"
    );
    assert_eq!(
        format_spent(&ApiUsage { usage_cents: 420, limit_cents: Some(1_000) }),
        "$4.20 / $10.00"
    );
}

#[test]
fn severity_thresholds() {
    assert_eq!(utilization_severity(0), UsageSeverity::Normal);
    assert_eq!(utilization_severity(49), UsageSeverity::Normal);
    assert_eq!(utilization_severity(50), UsageSeverity::Elevated);
    assert_eq!(utilization_severity(74), UsageSeverity::Elevated);
    assert_eq!(utilization_severity(75), UsageSeverity::High);
    assert_eq!(utilization_severity(89), UsageSeverity::High);
    assert_eq!(utilization_severity(90), UsageSeverity::Critical);
    assert_eq!(utilization_severity(100), UsageSeverity::Critical);
}

#[test]
fn normalization_clamps_and_orders() {
    let usage = UsageResponse {
        five_hour: Some(UsageBucket { utilization: -5, resets_at: Some(100) }),
        seven_day: Some(UsageBucket { utilization: 150, resets_at: None }),
        seven_day_sonnet: None,
        seven_day_opus: Some(UsageBucket { utilization: 40, resets_at: Some(200) }),
        extra_usage: Some(ExtraUsage { is_enabled: true, monthly_limit: 1_000, used_credits: 420 }),
    };
    let profile = Some(ProfileResponse {
        organization: ProfileOrganization { rate_limit_tier: SubscriptionTier::Pro },
    });
    let data = into_usage_data(usage, profile);
    assert_eq!(data.account_tier, Some(SubscriptionTier::Pro.tier_info()));
    assert_eq!(data.api_usage, Some(ApiUsage { usage_cents: 420, limit_cents: Some(1_000) }));
    assert_eq!(data.windows.len(), 3);
    assert_eq!(data.windows[0].title, "5h Limit");
    assert_eq!(data.windows[0].short_title.as_deref(), Some("5h"));
    assert_eq!(data.windows[0].utilization, 0);
    assert_eq!(data.windows[0].resets_at, Some(100));
    assert_eq!(data.windows[0].period_seconds, Some(18_000));
    assert_eq!(data.windows[1].title, "7d Limit");
    assert_eq!(data.windows[1].utilization, 100);
    assert_eq!(data.windows[1].resets_at, None);
    assert_eq!(data.windows[1].period_seconds, Some(604_800));
    assert_eq!(data.windows[2].title, "7d Opus");
    assert_eq!(data.windows[2].short_title, None);
    assert_eq!(data.windows[2].utilization, 40);
}

#[test]
fn normalization_drops_disabled_extra_usage() {
    let usage = UsageResponse {
        five_hour: None,
        seven_day: None,
        seven_day_sonnet: None,
        seven_day_opus: None,
        extra_usage: Some(ExtraUsage { is_enabled: false, monthly_limit: 1_000, used_credits: 420 }),
    };
    let data = into_usage_data(usage, None);
    assert_eq!(data.api_usage, None);
    assert_eq!(data.account_tier, None);
    assert!(data.windows.is_empty());
}

#[test]
fn tier_labels_and_colors() {
    let info = SubscriptionTier::Max5x.tier_info();
    assert_eq!(info.name, "Max 5x");
    assert_eq!((info.color.r, info.color.g, info.color.b), (145, 110, 200));
    assert_eq!(SubscriptionTier::Free.name(), "Free");
    assert_eq!(SubscriptionTier::Max20x.name(), "Max 20x");
}

#[test]
fn raw_tier_identifiers_format() {
    assert_eq!(format_tier("default_claude_free"), "Free");
    assert_eq!(format_tier("default_claude_pro"), "Pro");
    assert_eq!(format_tier("default_claude_max_5x"), "Max 5x");
    assert_eq!(format_tier("default_claude_max_20x"), "Max 20x");
    assert_eq!(format_tier("mystery_tier"), "mystery_tier");
}

#[test]
fn percent_clamping() {
    assert_eq!(liment::clamp_percent(-1), 0);
    assert_eq!(liment::clamp_percent(0), 0);
    assert_eq!(liment::clamp_percent(55), 55);
    assert_eq!(liment::clamp_percent(100), 100);
    assert_eq!(liment::clamp_percent(101), 100);
}
