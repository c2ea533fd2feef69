use liment::coordinator::RenderCoordinator;
use liment::model::{FailureReason, RefreshOutcome, UsageData, UsageWindow};
use liment::render::{DateTimeFormat, DisplayConfig, DisplayMode, TraySlot};
use liment::scheduler::{FetchCommand, FetchState, Scheduler};

fn config() -> DisplayConfig {
    DisplayConfig {
        display_mode: DisplayMode::Usage,
        show_period_percentage: false,
        reset_time_format: DateTimeFormat::Relative,
        monochrome_icon: false,
        refetch_interval_seconds: 60,
    }
}

fn snapshot(percent: u32) -> UsageData {
    UsageData {
        account_tier: None,
        api_usage: None,
        windows: vec![UsageWindow {
            title: "5h Limit".to_string(),
            short_title: Some("5h".to_string()),
            utilization: percent,
            resets_at: None,
            period_seconds: Some(18_000),
        }],
    }
}

#[test]
fn triggers_during_fetch_coalesce_to_one_extra() {
    let mut s = Scheduler::new();
    // Startup trigger: a fetch starts.
    assert_eq!(s.request_refresh(), Some(FetchCommand { generation: 0 }));
    // Five rapid manual refreshes while the fetch is in flight: none
    // starts a fetch.
    for _ in 0..5 {
        assert_eq!(s.request_refresh(), None);
    }
    assert_eq!(s.state, FetchState::Fetching { pending_extra: true });
    // The in-flight fetch completes: exactly one follow-up runs.
    assert_eq!(s.complete_fetch(), Some(FetchCommand { generation: 0 }));
    // That follow-up completes with nothing pending: back to idle.
    assert_eq!(s.complete_fetch(), None);
    assert_eq!(s.state, FetchState::Idle);
}

#[test]
fn completion_without_pending_extra_goes_idle() {
    let mut s = Scheduler::new();
    assert_eq!(s.request_refresh(), Some(FetchCommand { generation: 0 }));
    assert_eq!(s.complete_fetch(), None);
    assert_eq!(s.state, FetchState::Idle);
}

#[test]
fn provider_change_advances_generation_and_refetches() {
    let mut s = Scheduler::new();
    assert_eq!(s.config_changed(false), None);
    assert_eq!(s.generation, 0);
    let cmd = s.config_changed(true);
    assert_eq!(s.generation, 1);
    assert_eq!(cmd, Some(FetchCommand { generation: 1 }));
}

#[test]
fn stale_generation_outcome_is_dropped() {
    let cfg = config();
    let mut c = RenderCoordinator::new(cfg, 0, 0);
    assert_eq!(c.generation, 0);

    // A fetch issued under generation 0 delivers.
    assert!(c.deliver(0, RefreshOutcome::Success(snapshot(10)), 0, 0));

    // Config reload changes the provider: generation advances to 1.
    c.apply_reload(None, true, 0, 0);
    assert_eq!(c.generation, 1);

    // A generation-1 fetch completes and renders.
    assert!(c.deliver(1, RefreshOutcome::Success(snapshot(77)), 0, 0));
    let rendered = c.view.clone();
    assert_eq!(rendered.tray, vec![TraySlot::Shown { label: "5h".to_string(), percent: 77 }]);

    // The slow generation-0 fetch completes late: dropped whole.
    assert!(!c.deliver(0, RefreshOutcome::Success(snapshot(1)), 99, 0));
    assert_eq!(c.view, rendered);
    assert!(!c.deliver(0, RefreshOutcome::Failure(FailureReason::TransportError), 99, 0));
    assert_eq!(c.view, rendered);
}

#[test]
fn reload_swaps_config_wholesale() {
    let cfg = config();
    let mut c = RenderCoordinator::new(cfg, 0, 0);
    let new_cfg = DisplayConfig {
        display_mode: DisplayMode::Remaining,
        show_period_percentage: true,
        reset_time_format: DateTimeFormat::Absolute,
        monochrome_icon: true,
        refetch_interval_seconds: 120,
    };
    c.apply_reload(Some(new_cfg), false, 0, 0);
    // The active config is exactly the parsed one — every field.
    assert_eq!(c.config, new_cfg);

    // A failed parse keeps the previous config exactly.
    c.apply_reload(None, false, 0, 0);
    assert_eq!(c.config, new_cfg);
}

#[test]
fn reload_rerenders_last_good_snapshot() {
    let cfg = config();
    let mut c = RenderCoordinator::new(cfg, 0, 0);
    assert!(c.deliver(0, RefreshOutcome::Success(snapshot(40)), 0, 0));
    let mut flipped = cfg;
    flipped.display_mode = DisplayMode::Remaining;
    c.apply_reload(Some(flipped), false, 0, 0);
    // The retained snapshot is redisplayed under the new mode.
    assert_eq!(c.view.tray, vec![TraySlot::Shown { label: "5h".to_string(), percent: 60 }]);
}

#[test]
fn failure_keeps_last_good_snapshot() {
    let cfg = config();
    let mut c = RenderCoordinator::new(cfg, 0, 0);
    assert!(c.deliver(0, RefreshOutcome::Success(snapshot(40)), 0, 0));
    assert!(c.deliver(0, RefreshOutcome::Failure(FailureReason::ServerError), 0, 0));
    // The failure renders placeholders...
    assert_eq!(c.view.tray, vec![TraySlot::Unavailable, TraySlot::Unavailable]);
    // ...but the snapshot is still there for redisplay.
    c.apply_reload(None, false, 0, 0);
    assert_eq!(c.view.tray, vec![TraySlot::Shown { label: "5h".to_string(), percent: 40 }]);
}
