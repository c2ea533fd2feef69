//! Render coordinator: turns a refresh outcome and a display config into
//! a view-model — tray summary slots and a menu row list — as a pure
//! function of its inputs. Toolkit adapters only paint what is built here.

use vstd::prelude::*;
use vstd::seq_lib::*;

use crate::calendar::absolute_text;
use crate::model::OutcomeView;
use crate::model::RefreshOutcome;
use crate::model::TierInfo;
use crate::model::UsageDataView;
use crate::model::WindowView;
use crate::model::Rgb;
use crate::model::ApiUsage;
use crate::time::dec_digits;
use crate::time::format_reset_time;
use crate::time::reset_time_text;
use crate::time::two_digit_string;
use crate::time::two_digits;
use crate::time::u64_string;

verus! {

/// Whether a window shows percent consumed or percent remaining.
#[derive(Clone, Copy, PartialEq, Eq, Structural, Debug)]
pub enum DisplayMode {
    Usage,
    Remaining,
}

/// How a reset instant is rendered.
#[derive(Clone, Copy, PartialEq, Eq, Structural, Debug)]
pub enum DateTimeFormat {
    Relative,
    Absolute,
}

/// Immutable display settings consumed per render pass; replaced
/// wholesale on a config reload, never mutated field by field.
#[derive(Clone, Copy, PartialEq, Eq, Structural, Debug)]
pub struct DisplayConfig {
    pub display_mode: DisplayMode,
    pub show_period_percentage: bool,
    pub reset_time_format: DateTimeFormat,
    pub monochrome_icon: bool,
    pub refetch_interval_seconds: u64,
}

impl Default for DisplayConfig {
    /// Defaults: usage mode, relative reset times, colored icon, no period
    /// percentage, one-minute refetch interval.
    fn default() -> (c: Self)
        ensures
            c == (DisplayConfig {
                display_mode: DisplayMode::Usage,
                show_period_percentage: false,
                reset_time_format: DateTimeFormat::Relative,
                monochrome_icon: false,
                refetch_interval_seconds: 60u64,
            }),
    {
        DisplayConfig {
            display_mode: DisplayMode::Usage,
            show_period_percentage: false,
            reset_time_format: DateTimeFormat::Relative,
            monochrome_icon: false,
            refetch_interval_seconds: 60,
        }
    }
}

/// The percentage a window shows under a display mode: the stored
/// utilization as is, or its complement. The stored value is never changed.
pub open spec fn spec_display_percent(mode: DisplayMode, u: int) -> int {
    match mode {
        DisplayMode::Usage => u,
        DisplayMode::Remaining => 100 - u,
    }
}

/// Display transform of a clamped utilization reading.
pub fn display_percent(mode: DisplayMode, u: u32) -> (p: u32)
    requires
        u <= 100,
    ensures
        p == spec_display_percent(mode, u as int),
{
    match mode {
        DisplayMode::Usage => u,
        DisplayMode::Remaining => 100 - u,
    }
}

/// Law: for any utilization in `0..=100`, usage mode shows the value
/// itself, remaining mode shows the complement, and the two renderings
/// agree exactly when the value is 50.
pub proof fn lemma_display_mode_inversion(u: int)
    requires
        0 <= u <= 100,
    ensures
        spec_display_percent(DisplayMode::Usage, u) == u,
        spec_display_percent(DisplayMode::Remaining, u) == 100 - u,
        (spec_display_percent(DisplayMode::Usage, u) == spec_display_percent(
            DisplayMode::Remaining,
            u,
        )) <==> u == 50,
{
}

/// Urgency bands for coloring a utilization reading.
#[derive(Clone, Copy, PartialEq, Eq, Structural, Debug)]
pub enum UsageSeverity {
    Normal,
    Elevated,
    High,
    Critical,
}

pub open spec fn spec_severity(pct: int) -> UsageSeverity {
    if pct < 50 {
        UsageSeverity::Normal
    } else if pct < 75 {
        UsageSeverity::Elevated
    } else if pct < 90 {
        UsageSeverity::High
    } else {
        UsageSeverity::Critical
    }
}

/// Severity band of a percentage: below 50 normal, below 75 elevated,
/// below 90 high, from 90 critical.
pub fn utilization_severity(pct: u32) -> (s: UsageSeverity)
    ensures
        s == spec_severity(pct as int),
{
    if pct < 50 {
        UsageSeverity::Normal
    } else if pct < 75 {
        UsageSeverity::Elevated
    } else if pct < 90 {
        UsageSeverity::High
    } else {
        UsageSeverity::Critical
    }
}

/// "$d.cc" rendering of an amount of cents.
pub open spec fn money_text(cents: int) -> Seq<char> {
    "$"@ + dec_digits(cents / 100) + "."@ + two_digits(cents % 100)
}

/// "Spent" value: the used amount, then the limit after a slash when
/// one is set.
pub open spec fn spent_text(a: ApiUsage) -> Seq<char> {
    match a.limit_cents {
        Option::Some(l) => money_text(a.usage_cents as int) + " / "@ + money_text(l as int),
        Option::None => money_text(a.usage_cents as int),
    }
}

/// Renders an amount of cents as dollars with two decimals.
pub fn format_money(cents: u64) -> (s: String)
    ensures
        s@ == money_text(cents as int),
{
    let mut s = String::from_str("$");
    s.append(u64_string(cents / 100).as_str());
    s.append(".");
    s.append(two_digit_string(cents % 100).as_str());
    proof {
        assert(s@ =~= money_text(cents as int));
    }
    s
}

/// Renders the "Spent" value of the extra-usage block.
pub fn format_spent(a: &ApiUsage) -> (s: String)
    ensures
        s@ == spent_text(*a),
{
    let mut s = format_money(a.usage_cents);
    if let Option::Some(l) = a.limit_cents {
        s.append(" / ");
        s.append(format_money(l).as_str());
        proof {
            assert(s@ =~= spent_text(*a));
        }
    }
    s
}

/// One cell of the compact tray summary.
#[derive(Clone, PartialEq, Eq, Debug)]
pub enum TraySlot {
    /// No outcome yet (startup).
    Loading,
    /// The last refresh failed; deliberately not a number.
    Unavailable,
    /// A short-labeled window with its display percentage.
    Shown { label: String, percent: u32 },
}

/// Abstract value of a `TraySlot`.
pub enum TraySlotView {
    Loading,
    Unavailable,
    Shown { label: Seq<char>, percent: int },
}

impl View for TraySlot {
    type V = TraySlotView;

    open spec fn view(&self) -> TraySlotView {
        match self {
            TraySlot::Loading => TraySlotView::Loading,
            TraySlot::Unavailable => TraySlotView::Unavailable,
            TraySlot::Shown { label, percent } => TraySlotView::Shown {
                label: label@,
                percent: *percent as int,
            },
        }
    }
}

/// Tray cell of one short-labeled window.
pub open spec fn spec_shown(mode: DisplayMode, w: WindowView) -> TraySlotView {
    TraySlotView::Shown {
        label: w.short_title->Some_0,
        percent: spec_display_percent(mode, w.utilization),
    }
}

/// The first `k` short-labeled windows, in snapshot order, as tray cells.
pub open spec fn spec_tray_slots(ws: Seq<WindowView>, mode: DisplayMode, k: int) -> Seq<
    TraySlotView,
>
    decreases ws.len(),
{
    if k <= 0 || ws.len() == 0 {
        Seq::empty()
    } else if ws[0].short_title.is_some() {
        seq![spec_shown(mode, ws[0])] + spec_tray_slots(ws.drop_first(), mode, k - 1)
    } else {
        spec_tray_slots(ws.drop_first(), mode, k)
    }
}

/// The whole tray summary: up to two labeled windows on success, two
/// explicit placeholders on failure, two loading marks before the first
/// outcome.
pub open spec fn spec_tray(outcome: Option<OutcomeView>, mode: DisplayMode) -> Seq<TraySlotView> {
    match outcome {
        Option::None => seq![TraySlotView::Loading, TraySlotView::Loading],
        Option::Some(OutcomeView::Failure(_)) => seq![
            TraySlotView::Unavailable,
            TraySlotView::Unavailable,
        ],
        Option::Some(OutcomeView::Success(s)) => spec_tray_slots(s.windows, mode, 2),
    }
}

/// Law: a failed refresh never puts a number in the tray. Every cell of a
/// failure render is the `Unavailable` placeholder, while a successful
/// render — a real 0% included — only ever shows `Shown` cells; so the two
/// can never be confused.
pub proof fn lemma_failure_distinguishable(
    reason: crate::model::FailureReason,
    s: UsageDataView,
    mode: DisplayMode,
)
    ensures
        forall|i: int|
            0 <= i < spec_tray(Option::Some(OutcomeView::Failure(reason)), mode).len()
                ==> spec_tray(Option::Some(OutcomeView::Failure(reason)), mode)[i]
                == TraySlotView::Unavailable,
        forall|i: int|
            0 <= i < spec_tray(Option::Some(OutcomeView::Success(s)), mode).len() ==> (
            #[trigger] spec_tray(Option::Some(OutcomeView::Success(s)), mode)[i]) matches TraySlotView::Shown { .. },
{
    lemma_tray_slots_shown(s.windows, mode, 2);
}

/// Every cell built from a snapshot is a `Shown` cell.
proof fn lemma_tray_slots_shown(ws: Seq<WindowView>, mode: DisplayMode, k: int)
    ensures
        forall|i: int|
            0 <= i < spec_tray_slots(ws, mode, k).len() ==> (#[trigger] spec_tray_slots(
                ws,
                mode,
                k,
            )[i]) matches TraySlotView::Shown { .. },
        spec_tray_slots(ws, mode, k).len() <= (if k >= 0 {
            k
        } else {
            0
        }),
    decreases ws.len(),
{
    if k <= 0 || ws.len() == 0 {
    } else {
        lemma_tray_slots_shown(ws.drop_first(), mode, k - 1);
        lemma_tray_slots_shown(ws.drop_first(), mode, k);
    }
}

/// An action always offered by the menu.
#[derive(Clone, Copy, PartialEq, Eq, Structural, Debug)]
pub enum ActionKind {
    Refresh,
    OpenConfig,
    Quit,
}

/// One row of the popup/menu content model.
#[derive(Clone, PartialEq, Eq, Debug)]
pub enum MenuRow {
    /// Title row with an optional tier badge.
    Header { title: String, tier: Option<TierInfo> },
    /// Shown before the first outcome arrives.
    Loading,
    /// Shown in place of data when the last refresh failed.
    Unavailable,
    /// One usage window: label, display percentage, optional reset text,
    /// optional elapsed-period percentage.
    Window { title: String, percent: u32, reset_text: Option<String>, period_percent: Option<u32> },
    Separator,
    /// Bold section label.
    SectionLabel { text: String },
    /// Key/value row, e.g. the extra-usage amount.
    KeyValue { key: String, value: String },
    /// Always-present action row.
    Action { kind: ActionKind },
}

/// Abstract value of a `MenuRow`.
pub enum MenuRowView {
    Header { title: Seq<char>, tier: Option<(Seq<char>, Rgb)> },
    Loading,
    Unavailable,
    Window {
        title: Seq<char>,
        percent: int,
        reset_text: Option<Seq<char>>,
        period_percent: Option<int>,
    },
    Separator,
    SectionLabel { text: Seq<char> },
    KeyValue { key: Seq<char>, value: Seq<char> },
    Action { kind: ActionKind },
}

impl View for MenuRow {
    type V = MenuRowView;

    open spec fn view(&self) -> MenuRowView {
        match self {
            MenuRow::Header { title, tier } => MenuRowView::Header {
                title: title@,
                tier: match tier {
                    Option::Some(t) => Option::Some(t@),
                    Option::None => Option::None,
                },
            },
            MenuRow::Loading => MenuRowView::Loading,
            MenuRow::Unavailable => MenuRowView::Unavailable,
            MenuRow::Window { title, percent, reset_text, period_percent } => MenuRowView::Window {
                title: title@,
                percent: *percent as int,
                reset_text: match reset_text {
                    Option::Some(s) => Option::Some(s@),
                    Option::None => Option::None,
                },
                period_percent: match period_percent {
                    Option::Some(p) => Option::Some(*p as int),
                    Option::None => Option::None,
                },
            },
            MenuRow::Separator => MenuRowView::Separator,
            MenuRow::SectionLabel { text } => MenuRowView::SectionLabel { text: text@ },
            MenuRow::KeyValue { key, value } => MenuRowView::KeyValue {
                key: key@,
                value: value@,
            },
            MenuRow::Action { kind } => MenuRowView::Action { kind: *kind },
        }
    }
}

/// Elapsed share of a bucket, as the display mode shows it: only when the
/// reset is in the future and a period is known; clamped to `0..=100`.
pub open spec fn spec_period_percent(w: WindowView, mode: DisplayMode, now: int) -> Option<int> {
    match (w.resets_at, w.period_seconds) {
        (Option::Some(t), Option::Some(p)) => if t - now > 0 && p > 0 {
            Option::Some(
                spec_display_percent(mode, crate::model::spec_clamp((p - (t - now)) * 100 / p)),
            )
        } else {
            Option::None
        },
        _ => Option::None,
    }
}

/// The reset column of a window row under a reset-time format.
pub open spec fn spec_reset_text(
    t: int,
    fmt: DateTimeFormat,
    now: int,
    offset: int,
) -> Seq<char> {
    match fmt {
        DateTimeFormat::Relative => "resets in "@ + reset_time_text(t, now),
        DateTimeFormat::Absolute => "reset: "@ + absolute_text(t + offset),
    }
}

/// The menu row of one usage window.
pub open spec fn spec_window_row(
    w: WindowView,
    cfg: DisplayConfig,
    now: int,
    offset: int,
) -> MenuRowView {
    MenuRowView::Window {
        title: w.title,
        percent: spec_display_percent(cfg.display_mode, w.utilization),
        reset_text: match w.resets_at {
            Option::Some(t) => Option::Some(
                spec_reset_text(t, cfg.reset_time_format, now, offset),
            ),
            Option::None => Option::None,
        },
        period_percent: if cfg.show_period_percentage {
            spec_period_percent(w, cfg.display_mode, now)
        } else {
            Option::None
        },
    }
}

/// The three action rows that close every menu.
pub open spec fn spec_action_rows() -> Seq<MenuRowView> {
    seq![
        MenuRowView::Separator,
        MenuRowView::Action { kind: ActionKind::Refresh },
        MenuRowView::Action { kind: ActionKind::OpenConfig },
        MenuRowView::Action { kind: ActionKind::Quit },
    ]
}

/// Separator, section label and amount when the snapshot carries
/// extra-credit info.
pub open spec fn spec_extra_rows(api: Option<ApiUsage>) -> Seq<MenuRowView> {
    match api {
        Option::Some(a) => seq![
            MenuRowView::Separator,
            MenuRowView::SectionLabel { text: "Extra Usage"@ },
            MenuRowView::KeyValue { key: "Spent"@, value: spent_text(a) },
        ],
        Option::None => Seq::empty(),
    }
}

/// The whole menu content for an outcome: loading, failure placeholder,
/// or header, window rows, optional extra block — always closed by the
/// action rows.
pub open spec fn spec_menu(
    outcome: Option<OutcomeView>,
    cfg: DisplayConfig,
    now: int,
    offset: int,
) -> Seq<MenuRowView> {
    match outcome {
        Option::None => seq![MenuRowView::Loading] + spec_action_rows(),
        Option::Some(OutcomeView::Failure(_)) => seq![
            MenuRowView::Header { title: "Usage"@, tier: Option::None },
            MenuRowView::Unavailable,
        ] + spec_action_rows(),
        Option::Some(OutcomeView::Success(s)) => seq![
            MenuRowView::Header { title: "Usage"@, tier: s.account_tier },
        ] + s.windows.map_values(|w: WindowView| spec_window_row(w, cfg, now, offset))
            + spec_extra_rows(s.api_usage) + spec_action_rows(),
    }
}

/// What the toolkit adapter paints: the tray summary and the menu rows.
#[derive(Clone, PartialEq, Eq, Debug)]
pub struct ViewModel {
    pub tray: Vec<TraySlot>,
    pub menu: Vec<MenuRow>,
    /// Carried through from the config for the adapter's icon handling.
    pub monochrome_icon: bool,
}

/// Abstract value of a `ViewModel`.
pub struct ViewModelView {
    pub tray: Seq<TraySlotView>,
    pub menu: Seq<MenuRowView>,
    pub monochrome_icon: bool,
}

impl View for ViewModel {
    type V = ViewModelView;

    open spec fn view(&self) -> ViewModelView {
        ViewModelView {
            tray: self.tray@.map_values(|s: TraySlot| s@),
            menu: self.menu@.map_values(|r: MenuRow| r@),
            monochrome_icon: self.monochrome_icon,
        }
    }
}

/// The one view-model an outcome and a config determine.
pub open spec fn spec_render(
    outcome: Option<OutcomeView>,
    cfg: DisplayConfig,
    now: int,
    offset: int,
) -> ViewModelView {
    ViewModelView {
        tray: spec_tray(outcome, cfg.display_mode),
        menu: spec_menu(outcome, cfg, now, offset),
        monochrome_icon: cfg.monochrome_icon,
    }
}

/// Builds the tray cells of a snapshot: the first two short-labeled
/// windows in order.
#[verifier::loop_isolation(false)]
fn tray_slots(windows: &Vec<crate::model::UsageWindow>, mode: DisplayMode) -> (v: Vec<TraySlot>)
    requires
        forall|i: int|
            0 <= i < windows@.len() ==> (#[trigger] windows@[i])@.wf(),
    ensures
        v@.map_values(|s: TraySlot| s@) == spec_tray_slots(
            windows@.map_values(|w: crate::model::UsageWindow| w@),
            mode,
            2,
        ),
{
    let ghost ws = windows@.map_values(|w: crate::model::UsageWindow| w@);
    let ghost f = |s: TraySlot| s@;
    let mut v: Vec<TraySlot> = Vec::new();
    let mut i: usize = 0;
    let mut count: u64 = 0;
    proof {
        assert(ws.skip(0) =~= ws);
        assert(v@.map_values(f) + spec_tray_slots(ws, mode, 2) =~= spec_tray_slots(ws, mode, 2));
    }
    while i < windows.len() && count < 2
        invariant
            0 <= i <= windows@.len(),
            count == v@.len(),
            count <= 2,
            ws.len() == windows@.len(),
            forall|j: int| 0 <= j < windows@.len() ==> (#[trigger] windows@[j])@.wf(),
            forall|j: int| 0 <= j < ws.len() ==> ws[j] == windows@[j]@,
            v@.map_values(f) + spec_tray_slots(ws.skip(i as int), mode, 2 - count)
                == spec_tray_slots(ws, mode, 2),
        decreases windows@.len() - i,
    {
        let ghost pre = v@.map_values(f);
        let w = &windows[i];
        proof {
            assert(ws.skip(i as int).len() == ws.len() - i);
            assert(ws.skip(i as int)[0] == ws[i as int]);
            assert(ws.skip(i as int).drop_first() =~= ws.skip(i as int + 1));
        }
        match &w.short_title {
            Option::Some(label) => {
                let percent = display_percent(mode, w.utilization);
                let slot = TraySlot::Shown { label: label.clone(), percent };
                proof {
                    assert(windows@[i as int]@.wf());
                    assert(slot@ == spec_shown(mode, ws[i as int]));
                }
                let ghost prev = v@;
                v.push(slot);
                count = count + 1;
                proof {
                    prev.lemma_push_map_commute(f, slot);
                    assert(v@.map_values(f) =~= pre.push(spec_shown(mode, ws[i as int])));
                    assert(pre.push(spec_shown(mode, ws[i as int])) + spec_tray_slots(
                        ws.skip(i as int + 1),
                        mode,
                        2 - count,
                    ) =~= pre + (seq![spec_shown(mode, ws[i as int])] + spec_tray_slots(
                        ws.skip(i as int + 1),
                        mode,
                        2 - count,
                    )));
                }
            },
            Option::None => {
            },
        }
        i = i + 1;
    }
    proof {
        if count < 2 {
            assert(ws.skip(i as int).len() == 0);
        }
        assert(spec_tray_slots(ws.skip(i as int), mode, 2 - count) =~= Seq::<
            TraySlotView,
        >::empty());
        assert(v@.map_values(f) + Seq::<TraySlotView>::empty() =~= v@.map_values(f));
    }
    v
}

/// Renders the reset column text for a reset instant.
fn reset_text_of(t: i64, fmt: DateTimeFormat, now: i64, offset: i32) -> (s: String)
    requires
        crate::model::TIMESTAMP_MIN <= t <= crate::model::TIMESTAMP_MAX,
        -93599 <= offset <= 93599,
    ensures
        s@ == spec_reset_text(t as int, fmt, now as int, offset as int),
{
    match fmt {
        DateTimeFormat::Relative => {
            let mut s = String::from_str("resets in ");
            s.append(format_reset_time(t, now).as_str());
            proof {
                assert(s@ =~= spec_reset_text(t as int, fmt, now as int, offset as int));
            }
            s
        },
        DateTimeFormat::Absolute => {
            let mut s = String::from_str("reset: ");
            s.append(crate::calendar::format_absolute_time(t, offset).as_str());
            proof {
                assert(s@ =~= spec_reset_text(t as int, fmt, now as int, offset as int));
            }
            s
        },
    }
}

/// Elapsed-period percentage of a window under a display mode, when the
/// reset is in the future and the bucket length is known.
fn period_percent_of(w: &crate::model::UsageWindow, mode: DisplayMode, now: i64) -> (r: Option<
    u32,
>)
    requires
        w@.wf(),
    ensures
        ({
            let sp = spec_period_percent(w@, mode, now as int);
            match r {
                Option::Some(v) => sp == Option::Some(v as int),
                Option::None => sp is None,
            }
        }),
{
    let (t, p) = match (w.resets_at, w.period_seconds) {
        (Option::Some(t), Option::Some(p)) => (t, p),
        _ => {
            return Option::None;
        },
    };
    let rem: i128 = t as i128 - now as i128;
    if rem <= 0 {
        return Option::None;
    }
    let elapsed: u32;
    if rem as u128 >= p as u128 {
        elapsed = 0;
        proof {
            assert((p - (t - now)) * 100 <= 0);
            vstd::arithmetic::div_mod::lemma_div_is_ordered((p - (t - now)) * 100, 0, p as int);
            assert(crate::model::spec_clamp((p - (t - now)) * 100 / (p as int)) == 0);
        }
    } else {
        let x: u128 = (p as u128 - rem as u128) * 100;
        let q: u128 = x / (p as u128);
        proof {
            assert(x == (p - (t - now)) * 100);
            assert(x < 100 * (p as int)) by {
                assert((p - (t - now)) <= p - 1);
                assert((p - (t - now)) * 100 <= (p - 1) * 100) by (nonlinear_arith)
                    requires
                        (p - (t - now)) <= p - 1,
                ;
            }
            assert(q < 100) by (nonlinear_arith)
                requires
                    q == x / (p as u128),
                    x < 100 * (p as int),
                    p > 0,
            ;
            assert(crate::model::spec_clamp((p - (t - now)) * 100 / (p as int)) == q);
        }
        elapsed = q as u32;
    }
    Option::Some(display_percent(mode, elapsed))
}

/// The menu row of one usage window.
fn window_row(w: &crate::model::UsageWindow, cfg: &DisplayConfig, now: i64, offset: i32) -> (r:
    MenuRow)
    requires
        w@.wf(),
        -93599 <= offset <= 93599,
    ensures
        r@ == spec_window_row(w@, *cfg, now as int, offset as int),
{
    let percent = display_percent(cfg.display_mode, w.utilization);
    let reset_text = match w.resets_at {
        Option::Some(t) => Option::Some(reset_text_of(t, cfg.reset_time_format, now, offset)),
        Option::None => Option::None,
    };
    let period_percent = if cfg.show_period_percentage {
        period_percent_of(w, cfg.display_mode, now)
    } else {
        Option::None
    };
    MenuRow::Window { title: w.title.clone(), percent, reset_text, period_percent }
}

/// Appends the separator and the three action rows.
fn push_action_rows(menu: &mut Vec<MenuRow>)
    ensures
        final(menu)@.map_values(|r: MenuRow| r@) =~= old(menu)@.map_values(|r: MenuRow| r@)
            + spec_action_rows(),
{
    let ghost f = |r: MenuRow| r@;
    let ghost pre = menu@.map_values(f);
    menu.push(MenuRow::Separator);
    menu.push(MenuRow::Action { kind: ActionKind::Refresh });
    menu.push(MenuRow::Action { kind: ActionKind::OpenConfig });
    menu.push(MenuRow::Action { kind: ActionKind::Quit });
    proof {
        assert(menu@.map_values(f) =~= pre + spec_action_rows());
    }
}

/// Builds the view-model for an outcome under a display config.
///
/// Pure in its inputs: the result is fully determined by the outcome, the
/// config, the current time and the zone offset, so two renders of the
/// same inputs are identical.
#[verifier::loop_isolation(false)]
pub fn render(
    outcome: Option<&RefreshOutcome>,
    cfg: &DisplayConfig,
    now: i64,
    utc_offset_seconds: i32,
) -> (vm: ViewModel)
    requires
        -93599 <= utc_offset_seconds <= 93599,
        match outcome {
            Option::Some(o) => match o@ {
                OutcomeView::Success(s) => s.wf(),
                OutcomeView::Failure(_) => true,
            },
            Option::None => true,
        },
    ensures
        vm@ == spec_render(
            match outcome {
                Option::Some(o) => Option::Some(o@),
                Option::None => Option::None,
            },
            *cfg,
            now as int,
            utc_offset_seconds as int,
        ),
{
    let ghost ov: Option<OutcomeView> = match outcome {
        Option::Some(o) => Option::Some(o@),
        Option::None => Option::None,
    };
    let ghost f = |r: MenuRow| r@;
    let ghost g = |s: TraySlot| s@;
    let mut tray: Vec<TraySlot> = Vec::new();
    let mut menu: Vec<MenuRow> = Vec::new();
    match outcome {
        Option::None => {
            tray.push(TraySlot::Loading);
            tray.push(TraySlot::Loading);
            menu.push(MenuRow::Loading);
            push_action_rows(&mut menu);
            proof {
                assert(tray@.map_values(g) =~= spec_tray(ov, cfg.display_mode));
                assert(menu@.map_values(f) =~= spec_menu(
                    ov,
                    *cfg,
                    now as int,
                    utc_offset_seconds as int,
                ));
            }
        },
        Option::Some(RefreshOutcome::Failure(_)) => {
            tray.push(TraySlot::Unavailable);
            tray.push(TraySlot::Unavailable);
            menu.push(MenuRow::Header { title: String::from_str("Usage"), tier: Option::None });
            menu.push(MenuRow::Unavailable);
            push_action_rows(&mut menu);
            proof {
                assert(tray@.map_values(g) =~= spec_tray(ov, cfg.display_mode));
                assert(menu@.map_values(f) =~= spec_menu(
                    ov,
                    *cfg,
                    now as int,
                    utc_offset_seconds as int,
                ));
            }
        },
        Option::Some(RefreshOutcome::Success(data)) => {
            let ghost s = data@;
            let ghost cfg0 = *cfg;
            let ghost now0 = now as int;
            let ghost off0 = utc_offset_seconds as int;
            let ghost rowf = |w: WindowView| spec_window_row(w, cfg0, now0, off0);
            proof {
                assert forall|j: int| 0 <= j < data.windows@.len() implies (
                #[trigger] data.windows@[j])@.wf() by {
                    assert(s.windows[j] == data.windows@[j]@);
                    assert(s.windows[j].wf());
                }
            }
            tray = tray_slots(&data.windows, cfg.display_mode);
            let tier = match &data.account_tier {
                Option::Some(t) => Option::Some(
                    TierInfo { name: t.name.clone(), color: t.color },
                ),
                Option::None => Option::None,
            };
            menu.push(MenuRow::Header { title: String::from_str("Usage"), tier });
            let ghost header = menu@.map_values(f);
            let mut i: usize = 0;
            while i < data.windows.len()
                invariant
                    0 <= i <= data.windows@.len(),
                    s == data@,
                    s.wf(),
                    -93599 <= utc_offset_seconds <= 93599,
                    s.windows.len() == data.windows@.len(),
                    forall|j: int|
                        0 <= j < s.windows.len() ==> s.windows[j] == (
                        #[trigger] data.windows@[j])@,
                    menu@.map_values(f) =~= header + s.windows.take(i as int).map_values(rowf),
                decreases data.windows@.len() - i,
            {
                let ghost pre = menu@.map_values(f);
                assert(s.windows[i as int].wf());
                let row = window_row(&data.windows[i], cfg, now, utc_offset_seconds);
                proof {
                    assert(data.windows@[i as int]@ == s.windows[i as int]);
                    assert(row@ == spec_window_row(
                        s.windows[i as int],
                        *cfg,
                        now as int,
                        utc_offset_seconds as int,
                    ));
                    assert(rowf(s.windows[i as int]) == spec_window_row(
                        s.windows[i as int],
                        *cfg,
                        now as int,
                        utc_offset_seconds as int,
                    ));
                }
                let ghost prevm = menu@;
                menu.push(row);
                proof {
                    prevm.lemma_push_map_commute(f, row);
                    assert(menu@.map_values(f) =~= pre.push(rowf(s.windows[i as int])));
                    assert(s.windows.take(i as int + 1) =~= s.windows.take(i as int).push(
                        s.windows[i as int],
                    ));
                    assert(s.windows.take(i as int + 1).map_values(rowf) =~= s.windows.take(
                        i as int,
                    ).map_values(rowf).push(rowf(s.windows[i as int])));
                    assert(pre.push(rowf(s.windows[i as int])) =~= header + s.windows.take(
                        i as int,
                    ).map_values(rowf).push(rowf(s.windows[i as int])));
                    assert(menu@.map_values(f) =~= header + s.windows.take(i as int + 1).map_values(
                        rowf,
                    ));
                }
                i = i + 1;
            }
            proof {
                assert(s.windows.take(s.windows.len() as int) =~= s.windows);
            }
            let ghost after_rows = menu@.map_values(f);
            if let Option::Some(api) = &data.api_usage {
                menu.push(MenuRow::Separator);
                menu.push(MenuRow::SectionLabel { text: String::from_str("Extra Usage") });
                let value = format_spent(api);
                menu.push(MenuRow::KeyValue { key: String::from_str("Spent"), value });
                proof {
                    assert(menu@.map_values(f) =~= after_rows + spec_extra_rows(s.api_usage));
                }
            }
            push_action_rows(&mut menu);
            proof {
                assert(menu@.map_values(f) =~= spec_menu(
                    ov,
                    *cfg,
                    now as int,
                    utc_offset_seconds as int,
                ));
            }
        },
    }
    let vm = ViewModel { tray, menu, monochrome_icon: cfg.monochrome_icon };
    proof {
        assert(vm@.tray =~= spec_render(ov, *cfg, now as int, utc_offset_seconds as int).tray);
        assert(vm@.menu =~= spec_render(ov, *cfg, now as int, utc_offset_seconds as int).menu);
        assert(vm@ == spec_render(ov, *cfg, now as int, utc_offset_seconds as int));
    }
    vm
}

} // verus!
