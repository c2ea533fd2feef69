//! Provider-independent usage model: subscription tiers, quota windows,
//! and the snapshot handed from a provider to the render coordinator.

use vstd::prelude::*;
use vstd::seq_lib::*;

verus! {

/// An RGB color for a tier badge.
#[derive(Clone, Copy, PartialEq, Eq, Structural, Debug)]
pub struct Rgb {
    pub r: u8,
    pub g: u8,
    pub b: u8,
}

/// Subscription plan level reported by the profile endpoint.
#[derive(Clone, Copy, PartialEq, Eq, Structural, Debug)]
pub enum SubscriptionTier {
    Free,
    Pro,
    Max5x,
    Max20x,
}

/// Tier label plus its stable badge color.
#[derive(Clone, PartialEq, Eq, Debug)]
pub struct TierInfo {
    pub name: String,
    pub color: Rgb,
}

impl TierInfo {
    pub open spec fn view(&self) -> (Seq<char>, Rgb) {
        (self.name@, self.color)
    }
}

pub open spec fn spec_tier_name(t: SubscriptionTier) -> Seq<char> {
    match t {
        SubscriptionTier::Free => "Free"@,
        SubscriptionTier::Pro => "Pro"@,
        SubscriptionTier::Max5x => "Max 5x"@,
        SubscriptionTier::Max20x => "Max 20x"@,
    }
}

pub open spec fn spec_tier_color(t: SubscriptionTier) -> Rgb {
    match t {
        SubscriptionTier::Free => Rgb { r: 140, g: 140, b: 155 },
        SubscriptionTier::Pro => Rgb { r: 90, g: 145, b: 210 },
        SubscriptionTier::Max5x => Rgb { r: 145, g: 110, b: 200 },
        SubscriptionTier::Max20x => Rgb { r: 205, g: 130, b: 95 },
    }
}

impl SubscriptionTier {
    /// Display name of the tier.
    pub fn name(&self) -> (s: String)
        ensures
            s@ == spec_tier_name(*self),
    {
        match self {
            SubscriptionTier::Free => String::from_str("Free"),
            SubscriptionTier::Pro => String::from_str("Pro"),
            SubscriptionTier::Max5x => String::from_str("Max 5x"),
            SubscriptionTier::Max20x => String::from_str("Max 20x"),
        }
    }

    /// Label and badge color for this tier.
    pub fn tier_info(&self) -> (t: TierInfo)
        ensures
            t@ == (spec_tier_name(*self), spec_tier_color(*self)),
    {
        TierInfo { name: self.name(), color: self.tier_color() }
    }

    /// Badge color for this tier.
    pub fn tier_color(&self) -> (c: Rgb)
        ensures
            c == spec_tier_color(*self),
    {
        match self {
            SubscriptionTier::Free => Rgb { r: 140, g: 140, b: 155 },
            SubscriptionTier::Pro => Rgb { r: 90, g: 145, b: 210 },
            SubscriptionTier::Max5x => Rgb { r: 145, g: 110, b: 200 },
            SubscriptionTier::Max20x => Rgb { r: 205, g: 130, b: 95 },
        }
    }
}

/// The display name a raw API tier identifier maps to; unknown
/// identifiers pass through unchanged.
pub open spec fn spec_format_tier(s: Seq<char>) -> Seq<char> {
    if s == "default_claude_free"@ {
        "Free"@
    } else if s == "default_claude_pro"@ {
        "Pro"@
    } else if s == "default_claude_max_5x"@ {
        "Max 5x"@
    } else if s == "default_claude_max_20x"@ {
        "Max 20x"@
    } else {
        s
    }
}

/// Maps a raw API tier identifier to its display name; an unknown
/// identifier is shown as it is.
pub fn format_tier(tier: &str) -> (r: &str)
    ensures
        r@ == spec_format_tier(tier@),
{
    if crate::text::str_eq(tier, "default_claude_free") {
        "Free"
    } else if crate::text::str_eq(tier, "default_claude_pro") {
        "Pro"
    } else if crate::text::str_eq(tier, "default_claude_max_5x") {
        "Max 5x"
    } else if crate::text::str_eq(tier, "default_claude_max_20x") {
        "Max 20x"
    } else {
        tier
    }
}

/// Lowest Unix second a provider timestamp can carry (jiff's own range).
pub const TIMESTAMP_MIN: i64 = -377705023201;

/// Highest Unix second a provider timestamp can carry (jiff's own range).
pub const TIMESTAMP_MAX: i64 = 253402207200;

/// Timestamp clamped into the representable range.
pub open spec fn spec_clamp_ts(t: int) -> int {
    if t < TIMESTAMP_MIN as int {
        TIMESTAMP_MIN as int
    } else if t > TIMESTAMP_MAX as int {
        TIMESTAMP_MAX as int
    } else {
        t
    }
}

/// Clamps a timestamp into the representable range.
pub fn clamp_timestamp(t: i64) -> (r: i64)
    ensures
        r == spec_clamp_ts(t as int),
{
    if t < TIMESTAMP_MIN {
        TIMESTAMP_MIN
    } else if t > TIMESTAMP_MAX {
        TIMESTAMP_MAX
    } else {
        t
    }
}

/// One raw usage bucket as the usage endpoint reports it: an unclamped
/// percentage reading and an optional reset instant (Unix seconds).
#[derive(Clone, Copy, PartialEq, Eq, Structural, Debug)]
pub struct UsageBucket {
    pub utilization: i64,
    pub resets_at: Option<i64>,
}

/// Extra-credit block of the usage endpoint; amounts are cents.
#[derive(Clone, Copy, PartialEq, Eq, Structural, Debug)]
pub struct ExtraUsage {
    pub is_enabled: bool,
    pub monthly_limit: u64,
    pub used_credits: u64,
}

/// Body of the usage endpoint, reduced to plain values.
#[derive(Clone, Copy, PartialEq, Eq, Structural, Debug)]
pub struct UsageResponse {
    pub five_hour: Option<UsageBucket>,
    pub seven_day: Option<UsageBucket>,
    pub seven_day_sonnet: Option<UsageBucket>,
    pub seven_day_opus: Option<UsageBucket>,
    pub extra_usage: Option<ExtraUsage>,
}

/// Organization part of the profile endpoint.
#[derive(Clone, Copy, PartialEq, Eq, Structural, Debug)]
pub struct ProfileOrganization {
    pub rate_limit_tier: SubscriptionTier,
}

/// Body of the profile endpoint.
#[derive(Clone, Copy, PartialEq, Eq, Structural, Debug)]
pub struct ProfileResponse {
    pub organization: ProfileOrganization,
}

/// Pay-as-you-go credit info of a snapshot; amounts are cents.
#[derive(Clone, Copy, PartialEq, Eq, Structural, Debug)]
pub struct ApiUsage {
    pub usage_cents: u64,
    pub limit_cents: Option<u64>,
}

/// One rolling quota window of a snapshot.
#[derive(Clone, PartialEq, Eq, Debug)]
pub struct UsageWindow {
    /// Display name, e.g. "5h Limit".
    pub title: String,
    /// Tray abbreviation; absence keeps the window out of the tray summary.
    pub short_title: Option<String>,
    /// Percent consumed, clamped to `0..=100`.
    pub utilization: u32,
    /// Reset instant in Unix seconds, when known.
    pub resets_at: Option<i64>,
    /// Bucket length in seconds; always positive when present.
    pub period_seconds: Option<u64>,
}

/// Abstract value of a `UsageWindow`.
pub struct WindowView {
    pub title: Seq<char>,
    pub short_title: Option<Seq<char>>,
    pub utilization: int,
    pub resets_at: Option<int>,
    pub period_seconds: Option<int>,
}

impl View for UsageWindow {
    type V = WindowView;

    open spec fn view(&self) -> WindowView {
        WindowView {
            title: self.title@,
            short_title: match self.short_title {
                Option::Some(ref s) => Option::Some(s@),
                Option::None => Option::None,
            },
            utilization: self.utilization as int,
            resets_at: match self.resets_at {
                Option::Some(t) => Option::Some(t as int),
                Option::None => Option::None,
            },
            period_seconds: match self.period_seconds {
                Option::Some(p) => Option::Some(p as int),
                Option::None => Option::None,
            },
        }
    }
}

impl WindowView {
    /// Model invariant: utilization is a clamped percentage and a bucket
    /// length is positive.
    pub open spec fn wf(&self) -> bool {
        &&& 0 <= self.utilization <= 100
        &&& match self.period_seconds {
            Option::Some(p) => p > 0,
            Option::None => true,
        }
        &&& match self.resets_at {
            Option::Some(t) => TIMESTAMP_MIN as int <= t <= TIMESTAMP_MAX as int,
            Option::None => true,
        }
    }
}

/// The normalized, provider-independent snapshot handed to the render
/// coordinator: tier, credit info, and the ordered quota windows.
#[derive(Clone, PartialEq, Eq, Debug)]
pub struct UsageData {
    pub account_tier: Option<TierInfo>,
    pub api_usage: Option<ApiUsage>,
    pub windows: Vec<UsageWindow>,
}

/// Abstract value of a `UsageData` snapshot.
pub struct UsageDataView {
    pub account_tier: Option<(Seq<char>, Rgb)>,
    pub api_usage: Option<ApiUsage>,
    pub windows: Seq<WindowView>,
}

impl View for UsageData {
    type V = UsageDataView;

    open spec fn view(&self) -> UsageDataView {
        UsageDataView {
            account_tier: match self.account_tier {
                Option::Some(ref t) => Option::Some(t@),
                Option::None => Option::None,
            },
            api_usage: self.api_usage,
            windows: self.windows@.map_values(|w: UsageWindow| w@),
        }
    }
}

impl UsageDataView {
    pub open spec fn wf(&self) -> bool {
        forall|i: int| 0 <= i < self.windows.len() ==> (#[trigger] self.windows[i]).wf()
    }
}

impl UsageWindow {
    /// A copy with the same abstract value.
    pub fn duplicate(&self) -> (w: UsageWindow)
        ensures
            w@ == self@,
    {
        UsageWindow {
            title: self.title.clone(),
            short_title: match &self.short_title {
                Option::Some(s) => Option::Some(s.clone()),
                Option::None => Option::None,
            },
            utilization: self.utilization,
            resets_at: self.resets_at,
            period_seconds: self.period_seconds,
        }
    }
}

impl UsageData {
    /// A copy with the same abstract value.
    #[verifier::loop_isolation(false)]
    pub fn duplicate(&self) -> (d: UsageData)
        ensures
            d@ == self@,
    {
        let mut windows: Vec<UsageWindow> = Vec::new();
        let mut i: usize = 0;
        while i < self.windows.len()
            invariant
                0 <= i <= self.windows@.len(),
                windows@.map_values(|w: UsageWindow| w@) =~= self.windows@.take(
                    i as int,
                ).map_values(|w: UsageWindow| w@),
            decreases self.windows@.len() - i,
        {
            let ghost pre = windows@;
            let w = self.windows[i].duplicate();
            windows.push(w);
            proof {
                pre.lemma_push_map_commute(|w: UsageWindow| w@, w);
                assert(self.windows@.take(i as int + 1) =~= self.windows@.take(i as int).push(
                    self.windows@[i as int],
                ));
                assert(self.windows@.take(i as int + 1).map_values(|w: UsageWindow| w@)
                    =~= self.windows@.take(i as int).map_values(|w: UsageWindow| w@).push(
                    self.windows@[i as int]@,
                ));
            }
            i = i + 1;
        }
        proof {
            assert(self.windows@.take(self.windows@.len() as int) =~= self.windows@);
        }
        let account_tier = match &self.account_tier {
            Option::Some(t) => Option::Some(TierInfo { name: t.name.clone(), color: t.color }),
            Option::None => Option::None,
        };
        let d = UsageData { account_tier, api_usage: self.api_usage, windows };
        proof {
            assert(d@.windows =~= self@.windows);
            assert(d@ == self@);
        }
        d
    }
}

/// Why a refresh cycle produced no snapshot.
#[derive(Clone, Copy, PartialEq, Eq, Structural, Debug)]
pub enum FailureReason {
    /// No credential could be obtained at all.
    AuthUnavailable,
    /// The credential was rejected even after one refresh-and-retry.
    AuthExpired,
    /// Network, DNS, TLS, or timeout failure.
    TransportError,
    /// A non-2xx response outside the auth-retry path.
    ServerError,
    /// The body failed to parse into the expected shape.
    MalformedResponse,
}

/// Result of one refresh cycle.
#[derive(Clone, PartialEq, Eq, Debug)]
pub enum RefreshOutcome {
    Success(UsageData),
    Failure(FailureReason),
}

/// Abstract value of a `RefreshOutcome`.
pub enum OutcomeView {
    Success(UsageDataView),
    Failure(FailureReason),
}

impl View for RefreshOutcome {
    type V = OutcomeView;

    open spec fn view(&self) -> OutcomeView {
        match self {
            RefreshOutcome::Success(d) => OutcomeView::Success(d@),
            RefreshOutcome::Failure(r) => OutcomeView::Failure(*r),
        }
    }
}

/// Percent reading clamped to `0..=100`.
pub open spec fn spec_clamp(u: int) -> int {
    if u < 0 {
        0
    } else if u > 100 {
        100
    } else {
        u
    }
}

/// Window built from one bucket of the usage response.
pub open spec fn spec_window(
    title: Seq<char>,
    short: Option<Seq<char>>,
    b: UsageBucket,
    period: int,
) -> WindowView {
    WindowView {
        title: title,
        short_title: short,
        utilization: spec_clamp(b.utilization as int),
        resets_at: match b.resets_at {
            Option::Some(t) => Option::Some(spec_clamp_ts(t as int)),
            Option::None => Option::None,
        },
        period_seconds: Option::Some(period),
    }
}

/// Zero or one window for an optional bucket.
pub open spec fn spec_opt_window(
    title: Seq<char>,
    short: Option<Seq<char>>,
    b: Option<UsageBucket>,
    period: int,
) -> Seq<WindowView> {
    match b {
        Option::Some(b) => seq![spec_window(title, short, b, period)],
        Option::None => Seq::empty(),
    }
}

/// The snapshot a usage and optional profile response normalize to:
/// windows in fixed provider order, credit info only when enabled.
pub open spec fn spec_usage_data(u: UsageResponse, p: Option<ProfileResponse>) -> UsageDataView {
    UsageDataView {
        account_tier: match p {
            Option::Some(p) => Option::Some(
                (
                    spec_tier_name(p.organization.rate_limit_tier),
                    spec_tier_color(p.organization.rate_limit_tier),
                ),
            ),
            Option::None => Option::None,
        },
        api_usage: match u.extra_usage {
            Option::Some(e) => if e.is_enabled {
                Option::Some(
                    ApiUsage {
                        usage_cents: e.used_credits,
                        limit_cents: Option::Some(e.monthly_limit),
                    },
                )
            } else {
                Option::None
            },
            Option::None => Option::None,
        },
        windows: spec_opt_window("5h Limit"@, Option::Some("5h"@), u.five_hour, 18000)
            + spec_opt_window("7d Limit"@, Option::Some("7d"@), u.seven_day, 604800)
            + spec_opt_window("7d Sonnet"@, Option::None, u.seven_day_sonnet, 604800)
            + spec_opt_window("7d Opus"@, Option::None, u.seven_day_opus, 604800),
    }
}

/// Normalizes the raw endpoint bodies into the provider-independent
/// snapshot. Profile absence only omits the tier; readings outside
/// `0..=100` are clamped; the extra-credit block is kept only when enabled.
pub fn into_usage_data(usage: UsageResponse, profile: Option<ProfileResponse>) -> (r: UsageData)
    ensures
        r@ == spec_usage_data(usage, profile),
        r@.wf(),
{
    let account_tier = match profile {
        Option::Some(p) => Option::Some(p.organization.rate_limit_tier.tier_info()),
        Option::None => Option::None,
    };
    let api_usage = match usage.extra_usage {
        Option::Some(e) => if e.is_enabled {
            Option::Some(ApiUsage { usage_cents: e.used_credits, limit_cents: Option::Some(e.monthly_limit) })
        } else {
            Option::None
        },
        Option::None => Option::None,
    };
    let mut windows: Vec<UsageWindow> = Vec::new();
    if let Option::Some(b) = usage.five_hour {
        windows.push(bucket_window(String::from_str("5h Limit"), Option::Some(String::from_str("5h")), b, 18000));
    }
    if let Option::Some(b) = usage.seven_day {
        windows.push(bucket_window(String::from_str("7d Limit"), Option::Some(String::from_str("7d")), b, 604800));
    }
    if let Option::Some(b) = usage.seven_day_sonnet {
        windows.push(bucket_window(String::from_str("7d Sonnet"), Option::None, b, 604800));
    }
    if let Option::Some(b) = usage.seven_day_opus {
        windows.push(bucket_window(String::from_str("7d Opus"), Option::None, b, 604800));
    }
    let r = UsageData { account_tier, api_usage, windows };
    proof {
        assert(r@.windows =~= spec_usage_data(usage, profile).windows);
        assert(r@ == spec_usage_data(usage, profile));
    }
    r
}

/// One normalized window from a raw bucket.
fn bucket_window(title: String, short_title: Option<String>, b: UsageBucket, period: u64) -> (w: UsageWindow)
    requires
        period > 0,
    ensures
        w@ == spec_window(
            title@,
            match short_title {
                Option::Some(ref s) => Option::Some(s@),
                Option::None => Option::None::<Seq<char>>,
            },
            b,
            period as int,
        ),
        w@.wf(),
{
    UsageWindow {
        title,
        short_title,
        utilization: crate::clamp_percent(b.utilization),
        resets_at: match b.resets_at {
            Option::Some(t) => Option::Some(clamp_timestamp(t)),
            Option::None => Option::None,
        },
        period_seconds: Option::Some(period),
    }
}

} // verus!
