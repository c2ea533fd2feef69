use liment::model::{FailureReason, ProfileOrganization, ProfileResponse, RefreshOutcome, SubscriptionTier, UsageResponse};
use liment::provider::{
    all_subscription_tiers, cliproxy_endpoint, finish_fetch, proxy_reply_body, select_token,
    ApiCallReply, CallStep, DataProvider, DebugProvider, FetchCall, HttpReply,
};

#[test]
fn auth_retry_bound_is_exactly_two_calls() {
    // A provider whose credential is always rejected: count the
    // underlying requests one fetch makes.
    let mut call = FetchCall::begin();
    let mut requests = 1; // the first request
    let step = call.on_reply(HttpReply::Response { status: 401, body: String::new() });
    // First 401: re-acquire the token and retry once.
    assert_eq!(step, CallStep::RetryWithFreshToken);
    requests += 1; // the one retry
    let step = call.on_reply(HttpReply::Response { status: 401, body: String::new() });
    // Second 401 is final: expired credentials, no further request.
    assert_eq!(step, CallStep::Failed { reason: FailureReason::AuthExpired });
    assert_eq!(requests, 2);
}

#[test]
fn success_reply_passes_body_through() {
    let mut call = FetchCall::begin();
    let step = call.on_reply(HttpReply::Response { status: 200, body: "{}".to_string() });
    assert_eq!(step, CallStep::Succeeded { body: "{}".to_string() });
    let mut call = FetchCall::begin();
    let step = call.on_reply(HttpReply::Response { status: 299, body: "x".to_string() });
    assert_eq!(step, CallStep::Succeeded { body: "x".to_string() });
}

#[test]
fn non_auth_statuses_classify_as_server_error() {
    let mut call = FetchCall::begin();
    let step = call.on_reply(HttpReply::Response { status: 500, body: String::new() });
    assert_eq!(step, CallStep::Failed { reason: FailureReason::ServerError });
    let mut call = FetchCall::begin();
    let step = call.on_reply(HttpReply::Response { status: 404, body: String::new() });
    assert_eq!(step, CallStep::Failed { reason: FailureReason::ServerError });
}

#[test]
fn transport_failure_classifies() {
    let mut call = FetchCall::begin();
    let step = call.on_reply(HttpReply::TransportFailed);
    assert_eq!(step, CallStep::Failed { reason: FailureReason::TransportError });
}

#[test]
fn token_source_priority() {
    let kc = || Some("from-keychain".to_string());
    let env = || Some("from-env".to_string());
    let cfg = || Some("from-config".to_string());
    assert_eq!(select_token(kc(), env(), cfg()), Ok("from-keychain".to_string()));
    assert_eq!(select_token(None, env(), cfg()), Ok("from-env".to_string()));
    assert_eq!(select_token(None, None, cfg()), Ok("from-config".to_string()));
    assert_eq!(select_token(None, None, None), Err(FailureReason::AuthUnavailable));
}

#[test]
fn missing_usage_body_is_malformed() {
    let outcome = finish_fetch(None, None);
    assert_eq!(outcome, RefreshOutcome::Failure(FailureReason::MalformedResponse));
}

#[test]
fn present_usage_body_normalizes() {
    let usage = UsageResponse {
        five_hour: None,
        seven_day: None,
        seven_day_sonnet: None,
        seven_day_opus: None,
        extra_usage: None,
    };
    let profile = Some(ProfileResponse {
        organization: ProfileOrganization { rate_limit_tier: SubscriptionTier::Free },
    });
    match finish_fetch(Some(usage), profile) {
        RefreshOutcome::Success(d) => {
            assert_eq!(d.account_tier, Some(SubscriptionTier::Free.tier_info()));
            assert!(d.windows.is_empty());
        }
        other => panic!("expected success, got {:?}", other),
    }
}

#[test]
fn cliproxy_endpoint_trims_trailing_slashes() {
    assert_eq!(
        cliproxy_endpoint("http://localhost:8317"),
        "http://localhost:8317/v0/management/api-call"
    );
    assert_eq!(
        cliproxy_endpoint("http://localhost:8317///"),
        "http://localhost:8317/v0/management/api-call"
    );
}

#[test]
fn proxy_reply_requires_upstream_ok() {
    let ok = ApiCallReply { status_code: 200, body: "payload".to_string() };
    assert_eq!(proxy_reply_body(ok), Some("payload".to_string()));
    let bad = ApiCallReply { status_code: 502, body: "payload".to_string() };
    assert_eq!(proxy_reply_body(bad), None);
}

#[test]
fn tier_list_is_complete_and_ordered() {
    let tiers = all_subscription_tiers();
    let names: Vec<String> = tiers.iter().map(|t| t.name.clone()).collect();
    assert_eq!(names, vec!["Free", "Pro", "Max 5x", "Max 20x"]);
}

#[test]
fn debug_provider_cycles() {
    let p = DebugProvider::new(all_subscription_tiers());
    match p.data_at(7) {
        RefreshOutcome::Success(d) => {
            // Second 7 of the ten-second sweep: 70%.
            assert_eq!(d.windows.len(), 2);
            assert_eq!(d.windows[0].utilization, 70);
            assert_eq!(d.windows[0].title, "5h Limit");
            assert_eq!(d.windows[0].resets_at, Some(7));
            assert_eq!(d.windows[1].title, "7d Limit");
            // Seconds 6..9 show the third tier.
            assert_eq!(d.account_tier.unwrap().name, "Max 5x");
            assert!(d.api_usage.is_some());
        }
        other => panic!("expected success, got {:?}", other),
    }
    match p.data_at(12) {
        RefreshOutcome::Success(d) => {
            assert_eq!(d.windows[0].utilization, 20);
            assert_eq!(d.account_tier.unwrap().name, "Free");
        }
        other => panic!("expected success, got {:?}", other),
    }
}

#[test]
fn debug_provider_preserves_tier_list() {
    let tiers = all_subscription_tiers();
    let p = DebugProvider::new(tiers.clone());
    // The synthetic provider hands back the wrapped tier enumeration
    // unchanged: same labels and colors, same order.
    assert_eq!(p.all_tiers(), tiers);
}

#[test]
fn debug_provider_always_succeeds() {
    let p = DebugProvider::new(all_subscription_tiers());
    // `fetch_data` reads the real clock; it must still be a success.
    match p.fetch_data() {
        RefreshOutcome::Success(d) => assert_eq!(d.windows.len(), 2),
        other => panic!("expected success, got {:?}", other),
    }
    assert_eq!(p.all_tiers().len(), 4);
}
