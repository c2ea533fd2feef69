//! Usage provider logic: credential selection, the one-retry auth policy
//! for rejected tokens, proxy request shaping, normalization of raw
//! endpoint replies into a refresh outcome, and the synthetic provider
//! used for UI testing. The HTTP and credential-store calls themselves
//! run outside the crate and hand their plain results in.

use vstd::prelude::*;
use vstd::seq_lib::*;

use crate::model::spec_usage_data;
use crate::model::into_usage_data;
use crate::model::FailureReason;
use crate::model::OutcomeView;
use crate::model::ProfileResponse;
use crate::model::RefreshOutcome;
use crate::model::SubscriptionTier;
use crate::model::TierInfo;
use crate::model::ApiUsage;
use crate::model::Rgb;
use crate::model::UsageData;
use crate::model::UsageDataView;
use crate::model::UsageResponse;
use crate::model::UsageWindow;
use crate::model::WindowView;
use crate::model::spec_tier_name;
use crate::model::spec_tier_color;
use crate::text::spec_trim_trailing_slashes;
use crate::text::trim_trailing_slashes;

verus! {

/// Settings of the direct provider: an optional token override; without
/// it the credential store is consulted.
#[derive(Clone, PartialEq, Eq, Debug)]
pub struct ClaudeCodeSettings {
    pub token: Option<String>,
}

impl Default for ClaudeCodeSettings {
    /// No override: the token comes from the credential store.
    fn default() -> (s: Self)
        ensures
            s.token is None,
    {
        ClaudeCodeSettings { token: Option::None }
    }
}

/// Settings of the proxied provider.
#[derive(Clone, PartialEq, Eq, Debug)]
pub struct CliproxyClaudeSettings {
    /// Relay base URL, e.g. "http://localhost:8317".
    pub base_url: String,
    /// Relay management API secret.
    pub management_token: String,
    /// Which relay account to use.
    pub auth_index: String,
}

/// Picks the credential to use, trying the credential store first, then
/// an environment override, then the statically configured token.
pub fn select_token(
    keychain: Option<String>,
    env_override: Option<String>,
    configured: Option<String>,
) -> (r: Result<String, FailureReason>)
    ensures
        match keychain {
            Option::Some(t) => r == Ok::<String, FailureReason>(t),
            Option::None => match env_override {
                Option::Some(t) => r == Ok::<String, FailureReason>(t),
                Option::None => match configured {
                    Option::Some(t) => r == Ok::<String, FailureReason>(t),
                    Option::None => r == Err::<String, FailureReason>(
                        FailureReason::AuthUnavailable,
                    ),
                },
            },
        },
{
    match keychain {
        Option::Some(t) => Ok(t),
        Option::None => match env_override {
            Option::Some(t) => Ok(t),
            Option::None => match configured {
                Option::Some(t) => Ok(t),
                Option::None => Err(FailureReason::AuthUnavailable),
            },
        },
    }
}

/// What the transport handed back for one request: a status and body, or
/// no response at all.
#[derive(Clone, PartialEq, Eq, Debug)]
pub enum HttpReply {
    Response { status: u16, body: String },
    TransportFailed,
}

/// Abstract value of an `HttpReply`.
pub enum HttpReplyView {
    Response { status: int, body: Seq<char> },
    TransportFailed,
}

impl View for HttpReply {
    type V = HttpReplyView;

    open spec fn view(&self) -> HttpReplyView {
        match self {
            HttpReply::Response { status, body } => HttpReplyView::Response {
                status: *status as int,
                body: body@,
            },
            HttpReply::TransportFailed => HttpReplyView::TransportFailed,
        }
    }
}

/// What the caller must do next with a request.
#[derive(Clone, PartialEq, Eq, Debug)]
pub enum CallStep {
    /// 2xx: use this body.
    Succeeded { body: String },
    /// First 401: re-acquire the token from its source of truth and send
    /// the request once more.
    RetryWithFreshToken,
    /// Terminal failure, classified.
    Failed { reason: FailureReason },
}

/// Abstract value of a `CallStep`.
pub enum CallStepView {
    Succeeded { body: Seq<char> },
    RetryWithFreshToken,
    Failed { reason: FailureReason },
}

impl View for CallStep {
    type V = CallStepView;

    open spec fn view(&self) -> CallStepView {
        match self {
            CallStep::Succeeded { body } => CallStepView::Succeeded { body: body@ },
            CallStep::RetryWithFreshToken => CallStepView::RetryWithFreshToken,
            CallStep::Failed { reason } => CallStepView::Failed { reason: *reason },
        }
    }
}

/// State of one authenticated request: whether its one allowed retry has
/// been spent.
#[derive(Clone, Copy, PartialEq, Eq, Structural, Debug)]
pub struct FetchCall {
    pub retried: bool,
}

/// The retry policy: a 2xx reply succeeds; the first 401 asks for exactly
/// one retry with a re-acquired token; a 401 after the retry is
/// `AuthExpired`; any other status is `ServerError`; no reply at all is
/// `TransportError`.
pub open spec fn spec_on_reply(c: FetchCall, r: HttpReplyView) -> (FetchCall, CallStepView) {
    match r {
        HttpReplyView::Response { status, body } => {
            if 200 <= status && status < 300 {
                (c, CallStepView::Succeeded { body })
            } else if status == 401 && !c.retried {
                (FetchCall { retried: true }, CallStepView::RetryWithFreshToken)
            } else if status == 401 {
                (c, CallStepView::Failed { reason: FailureReason::AuthExpired })
            } else {
                (c, CallStepView::Failed { reason: FailureReason::ServerError })
            }
        },
        HttpReplyView::TransportFailed => (
            c,
            CallStepView::Failed { reason: FailureReason::TransportError },
        ),
    }
}

impl FetchCall {
    /// A fresh request, its retry not yet spent.
    pub fn begin() -> (c: FetchCall)
        ensures
            !c.retried,
    {
        FetchCall { retried: false }
    }

    /// Classifies a transport reply and decides the next step.
    pub fn on_reply(&mut self, reply: HttpReply) -> (step: CallStep)
        ensures
            *final(self) == spec_on_reply(*old(self), reply@).0,
            step@ == spec_on_reply(*old(self), reply@).1,
    {
        match reply {
            HttpReply::Response { status, body } => {
                if 200 <= status && status < 300 {
                    CallStep::Succeeded { body }
                } else if status == 401 && !self.retried {
                    self.retried = true;
                    CallStep::RetryWithFreshToken
                } else if status == 401 {
                    CallStep::Failed { reason: FailureReason::AuthExpired }
                } else {
                    CallStep::Failed { reason: FailureReason::ServerError }
                }
            },
            HttpReply::TransportFailed => CallStep::Failed {
                reason: FailureReason::TransportError,
            },
        }
    }
}

/// Law: a credential that is rejected every time costs exactly two
/// underlying requests per fetch. The first 401 asks for one retry, the
/// 401 answering the retry is final and classified as expired
/// credentials — and once the retry is spent, a retry is never asked for
/// again, whatever comes back.
pub proof fn lemma_auth_retry_bound(body1: Seq<char>, body2: Seq<char>)
    ensures
        ({
            let c0 = FetchCall { retried: false };
            let first = spec_on_reply(c0, HttpReplyView::Response { status: 401, body: body1 });
            let second = spec_on_reply(
                first.0,
                HttpReplyView::Response { status: 401, body: body2 },
            );
            &&& first.1 == CallStepView::RetryWithFreshToken
            &&& second.1 == (CallStepView::Failed { reason: FailureReason::AuthExpired })
        }),
        forall|c: FetchCall, r: HttpReplyView|
            c.retried ==> (#[trigger] spec_on_reply(c, r)).1 != CallStepView::RetryWithFreshToken,
{
}

/// Combines the parsed endpoint bodies into the cycle's outcome: no
/// usage body means the fetch failed to produce a snapshot; profile
/// absence only omits the tier.
pub fn finish_fetch(usage: Option<UsageResponse>, profile: Option<ProfileResponse>) -> (o:
    RefreshOutcome)
    ensures
        match usage {
            Option::Some(u) => o@ == OutcomeView::Success(spec_usage_data(u, profile)) && (match o@ {
                OutcomeView::Success(s) => s.wf(),
                OutcomeView::Failure(_) => false,
            }),
            Option::None => o@ == OutcomeView::Failure(FailureReason::MalformedResponse),
        },
{
    match usage {
        Option::Some(u) => RefreshOutcome::Success(into_usage_data(u, profile)),
        Option::None => RefreshOutcome::Failure(FailureReason::MalformedResponse),
    }
}

/// The management endpoint of a relay, with trailing slashes of the
/// configured base removed.
pub fn cliproxy_endpoint(base_url: &str) -> (r: String)
    ensures
        r@ == spec_trim_trailing_slashes(base_url@) + "/v0/management/api-call"@,
{
    let mut r = trim_trailing_slashes(base_url);
    r.append("/v0/management/api-call");
    r
}

/// What the relay reported for a proxied request: the upstream status and
/// the upstream body.
#[derive(Clone, PartialEq, Eq, Debug)]
pub struct ApiCallReply {
    pub status_code: u16,
    pub body: String,
}

/// Accepts a proxied reply only when the upstream call came back 200.
pub fn proxy_reply_body(reply: ApiCallReply) -> (b: Option<String>)
    ensures
        reply.status_code == 200 ==> b == Option::Some(reply.body),
        reply.status_code != 200 ==> b is None,
{
    if reply.status_code == 200 {
        Option::Some(reply.body)
    } else {
        Option::None
    }
}

/// A source of usage snapshots. Real implementations fetch over the
/// network outside this crate; the synthetic one below computes its data.
pub trait DataProvider {
    /// One refresh cycle's result.
    fn fetch_data(&self) -> RefreshOutcome;

    /// Every tier this provider can report.
    fn all_tiers(&self) -> Vec<TierInfo>;
}

/// The four subscription tiers with their labels and badge colors.
pub fn all_subscription_tiers() -> (v: Vec<TierInfo>)
    ensures
        v@.map_values(|t: TierInfo| t@) =~= seq![
            (spec_tier_name(SubscriptionTier::Free), spec_tier_color(SubscriptionTier::Free)),
            (spec_tier_name(SubscriptionTier::Pro), spec_tier_color(SubscriptionTier::Pro)),
            (spec_tier_name(SubscriptionTier::Max5x), spec_tier_color(SubscriptionTier::Max5x)),
            (spec_tier_name(SubscriptionTier::Max20x), spec_tier_color(SubscriptionTier::Max20x)),
        ],
{
    let mut v: Vec<TierInfo> = Vec::new();
    v.push(SubscriptionTier::Free.tier_info());
    v.push(SubscriptionTier::Pro.tier_info());
    v.push(SubscriptionTier::Max5x.tier_info());
    v.push(SubscriptionTier::Max20x.tier_info());
    proof {
        assert(v@.map_values(|t: TierInfo| t@) =~= seq![
            (spec_tier_name(SubscriptionTier::Free), spec_tier_color(SubscriptionTier::Free)),
            (spec_tier_name(SubscriptionTier::Pro), spec_tier_color(SubscriptionTier::Pro)),
            (spec_tier_name(SubscriptionTier::Max5x), spec_tier_color(SubscriptionTier::Max5x)),
            (spec_tier_name(SubscriptionTier::Max20x), spec_tier_color(SubscriptionTier::Max20x)),
        ]);
    }
    v
}

/// Synthetic provider for UI testing: no network, never fails. The
/// utilization sweeps from 0 to 100 over ten seconds and the tier badge
/// rotates every three seconds of wall-clock time.
pub struct DebugProvider {
    pub tiers: Vec<TierInfo>,
}

/// The snapshot the synthetic provider shows at a clock reading: two
/// windows whose utilization steps through 0,10,…,90 with the seconds,
/// a rotating tier badge, and a fixed extra-usage block. Clock readings
/// before the epoch count as the epoch.
pub open spec fn spec_debug_data(tiers: Seq<(Seq<char>, Rgb)>, now: int) -> UsageDataView {
    let t = if now >= 0 {
        now
    } else {
        0
    };
    UsageDataView {
        account_tier: if tiers.len() > 0 {
            Option::Some(tiers[(t / 3) % (tiers.len() as int)])
        } else {
            Option::None
        },
        api_usage: Option::Some(
            ApiUsage { usage_cents: 420u64, limit_cents: Option::Some(1000u64) },
        ),
        windows: seq![
            WindowView {
                title: "5h Limit"@,
                short_title: Option::Some("5h"@),
                utilization: (t % 10) * 10,
                resets_at: Option::Some(now),
                period_seconds: Option::Some(18000),
            },
            WindowView {
                title: "7d Limit"@,
                short_title: Option::Some("7d"@),
                utilization: (t % 10) * 10,
                resets_at: Option::Some(now),
                period_seconds: Option::Some(604800),
            },
        ],
    }
}

impl DebugProvider {
    /// A synthetic provider rotating through the given tiers.
    pub fn new(tiers: Vec<TierInfo>) -> (p: DebugProvider)
        ensures
            p.tiers == tiers,
    {
        DebugProvider { tiers }
    }

    /// The synthetic snapshot at a given clock reading.
    pub fn data_at(&self, now_unix: i64) -> (o: RefreshOutcome)
        requires
            crate::model::TIMESTAMP_MIN <= now_unix <= crate::model::TIMESTAMP_MAX,
        ensures
            o@ == OutcomeView::Success(
                spec_debug_data(self.tiers@.map_values(|t: TierInfo| t@), now_unix as int),
            ),
            match o@ {
                OutcomeView::Success(s) => s.wf(),
                OutcomeView::Failure(_) => false,
            },
    {
        let t: u64 = if now_unix >= 0 {
            now_unix as u64
        } else {
            0
        };
        let pct: u32 = ((t % 10) * 10) as u32;
        let account_tier = if self.tiers.len() > 0 {
            let idx: usize = ((t / 3) % (self.tiers.len() as u64)) as usize;
            let tier = &self.tiers[idx];
            Option::Some(TierInfo { name: tier.name.clone(), color: tier.color })
        } else {
            Option::None
        };
        let windows = vec![
            UsageWindow {
                title: String::from_str("5h Limit"),
                short_title: Option::Some(String::from_str("5h")),
                utilization: pct,
                resets_at: Option::Some(now_unix),
                period_seconds: Option::Some(18000),
            },
            UsageWindow {
                title: String::from_str("7d Limit"),
                short_title: Option::Some(String::from_str("7d")),
                utilization: pct,
                resets_at: Option::Some(now_unix),
                period_seconds: Option::Some(604800),
            },
        ];
        let data = UsageData {
            account_tier,
            api_usage: Option::Some(ApiUsage { usage_cents: 420, limit_cents: Option::Some(1000) }),
            windows,
        };
        proof {
            assert(data@.windows =~= spec_debug_data(
                self.tiers@.map_values(|t: TierInfo| t@),
                now_unix as int,
            ).windows);
            assert(data@ == spec_debug_data(
                self.tiers@.map_values(|t: TierInfo| t@),
                now_unix as int,
            ));
        }
        RefreshOutcome::Success(data)
    }
}

/// Whether `o` is the snapshot the synthetic provider shows at the
/// clock reading `now`.
pub open spec fn debug_snapshot_at(p: &DebugProvider, o: OutcomeView, now: int) -> bool {
    o == OutcomeView::Success(spec_debug_data(p.tiers@.map_values(|t: TierInfo| t@), now))
}

impl DataProvider for DebugProvider {
    /// Reads the clock and builds the synthetic snapshot: whatever the
    /// clock said, the outcome is the filled success snapshot for that
    /// reading — never a failure.
    fn fetch_data(&self) -> (o: RefreshOutcome)
        ensures
            exists|now: int|
                crate::model::TIMESTAMP_MIN <= now <= crate::model::TIMESTAMP_MAX
                    && #[trigger] debug_snapshot_at(self, o@, now),
    {
        let now = crate::clock::now_unix_seconds();
        let o = self.data_at(now);
        proof {
            assert(debug_snapshot_at(self, o@, now as int));
        }
        o
    }

    /// The stored tiers, labels and colors in order.
    #[verifier::loop_isolation(false)]
    fn all_tiers(&self) -> (v: Vec<TierInfo>)
        ensures
            v@.map_values(|t: TierInfo| t@) == self.tiers@.map_values(|t: TierInfo| t@),
    {
        let ghost f = |t: TierInfo| t@;
        let mut v: Vec<TierInfo> = Vec::new();
        let mut i: usize = 0;
        while i < self.tiers.len()
            invariant
                0 <= i <= self.tiers@.len(),
                v@.map_values(f) =~= self.tiers@.take(i as int).map_values(f),
            decreases self.tiers@.len() - i,
        {
            let ghost pre = v@;
            let t = &self.tiers[i];
            let copy = TierInfo { name: t.name.clone(), color: t.color };
            proof {
                assert(copy@ == self.tiers@[i as int]@);
            }
            v.push(copy);
            proof {
                pre.lemma_push_map_commute(f, copy);
                assert(self.tiers@.take(i as int + 1) =~= self.tiers@.take(i as int).push(
                    self.tiers@[i as int],
                ));
                assert(self.tiers@.take(i as int + 1).map_values(f) =~= self.tiers@.take(
                    i as int,
                ).map_values(f).push(f(self.tiers@[i as int])));
            }
            i = i + 1;
        }
        proof {
            assert(self.tiers@.take(self.tiers@.len() as int) =~= self.tiers@);
        }
        v
    }
}

} // verus!
