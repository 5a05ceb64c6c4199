use std::time::Duration;

use fccli::error::{
    ErrorContext, ErrorOperation, PayloadError, ProviderError, SanitizedCause, TimeoutKind,
};
use fccli::model::{MonoInstant, ProcessBlocker, RateGateState};
use fccli::provider::runtime::http::{
    cancelled, check_gate, classify_status, explanation, handle_rate_limit, is_cancelled,
    map_transport, payload, plan_response, rate_limit_error, requested_gate, retry_after_deadline,
    validate_limits, validate_rest_terms, CappedBody, GateStep, RateLimitDecision, ResponsePlan,
    StatusDisposition,
};
use fccli::provider::RateGateClosed;

fn context() -> ErrorContext {
    ErrorContext::operation(ErrorOperation::History)
}

#[test]
fn a_status_tells_what_to_do_with_an_answer() {
    assert_eq!(classify_status(200), StatusDisposition::Success);
    assert_eq!(classify_status(302), StatusDisposition::Redirection);
    assert_eq!(classify_status(404), StatusDisposition::ClientError);
    assert_eq!(classify_status(503), StatusDisposition::ServerError);
    assert_eq!(plan_response(200, &context()), ResponsePlan::Read);
    assert_eq!(plan_response(400, &context()), ResponsePlan::Explain);
    assert_eq!(
        plan_response(503, &context()),
        ResponsePlan::Fail(ProviderError::ServerStatus { context: context(), status: 503 })
    );
    assert_eq!(
        plan_response(301, &context()),
        ResponsePlan::Fail(ProviderError::ClientStatus {
            context: context(),
            status: 301,
            code: None,
            message: None,
        })
    );
}

#[test]
fn terms_of_a_client_must_be_positive() {
    let second = Duration::from_secs(1);
    assert_eq!(validate_limits(second, 1), Ok(()));
    assert_eq!(
        validate_limits(Duration::ZERO, 1),
        Err(ProviderError::Configuration("REST timeout and body limit must be positive"))
    );
    assert_eq!(validate_rest_terms(second, 1, second), Ok(()));
    for terms in [(Duration::ZERO, 1, second), (second, 0, second), (second, 1, Duration::ZERO)] {
        assert_eq!(
            validate_rest_terms(terms.0, terms.1, terms.2),
            Err(ProviderError::Configuration(
                "REST timeout, body limit, and fallback must be positive"
            ))
        );
    }
}

#[test]
fn a_body_stops_at_its_limit() {
    let over = payload(&context(), PayloadError::OverBudget { limit_bytes: 4 });
    assert_eq!(CappedBody::begin(Some(5), 4, &context()).err(), Some(over.clone()));
    let mut body = CappedBody::begin(Some(4), 4, &context()).ok().unwrap();
    assert_eq!(body.push(b"abc", &context()), Ok(()));
    assert_eq!(body.push(b"de", &context()), Err(over));
    assert_eq!(body.push(b"d", &context()), Ok(()));
    assert_eq!(body.into_bytes(), b"abcd");
}

#[test]
fn only_cancellation_hides_a_refusal() {
    assert_eq!(explanation(Ok(vec![1])), Ok(vec![1]));
    assert_eq!(
        explanation(Err(cancelled(context()))),
        Err(cancelled(context()))
    );
    assert_eq!(
        explanation(Err(map_transport(true, &context()))),
        Ok(vec![])
    );
    assert!(is_cancelled(&cancelled(context())));
    assert!(!is_cancelled(&map_transport(false, &context())));
    assert_eq!(
        map_transport(false, &context()),
        ProviderError::Transport { context: context(), cause: SanitizedCause::Connection }
    );
    assert_eq!(
        map_transport(true, &context()),
        ProviderError::Timeout { context: context(), kind: TimeoutKind::Request }
    );
}

#[test]
fn a_gate_lets_pass_once_its_time_has_come() {
    let timed = Ok(RateGateState::TimedUntil(MonoInstant(10)));
    assert_eq!(check_gate(Ok(RateGateState::Open), MonoInstant(0)), GateStep::Pass);
    assert_eq!(check_gate(timed, MonoInstant(9)), GateStep::WaitUntil(MonoInstant(10)));
    assert_eq!(check_gate(timed, MonoInstant(10)), GateStep::Pass);
    assert_eq!(check_gate(timed, MonoInstant(11)), GateStep::Pass);
    assert_eq!(
        check_gate(
            Ok(RateGateState::ProcessBlocked(ProcessBlocker::InvalidBanExpiry)),
            MonoInstant(0)
        ),
        GateStep::Blocked(ProcessBlocker::InvalidBanExpiry)
    );
    assert_eq!(
        check_gate(Err(RateGateClosed), MonoInstant(0)),
        GateStep::Closed(ProviderError::Invariant("rate gate closed"))
    );
}

#[test]
fn a_rate_limit_lasts_as_long_as_the_provider_says() {
    let fallback = Duration::from_secs(30);
    let now = MonoInstant(5);
    assert_eq!(retry_after_deadline(Some("2"), now), Some(MonoInstant(2_000_000_005)));
    for header in [None, Some(""), Some("soon"), Some("-1"), Some("18446744073709551615")] {
        assert_eq!(retry_after_deadline(header, now), None);
        assert_eq!(
            handle_rate_limit(header, fallback, now),
            Ok(RateLimitDecision::TimedUntil(MonoInstant(30_000_000_005)))
        );
    }
    assert_eq!(
        handle_rate_limit(Some("2"), fallback, now),
        Ok(RateLimitDecision::TimedUntil(MonoInstant(2_000_000_005)))
    );
    assert_eq!(
        handle_rate_limit(None, fallback, MonoInstant(u64::MAX)),
        Err(ProviderError::Invariant("rate-limit deadline overflow"))
    );
}

#[test]
fn a_rate_limited_caller_is_told_how_the_gate_stands() {
    let timed = RateLimitDecision::TimedUntil(MonoInstant(1));
    let blocked = RateLimitDecision::ProcessBlocked(ProcessBlocker::InvalidBanExpiry);
    assert_eq!(requested_gate(timed), RateGateState::TimedUntil(MonoInstant(1)));
    assert_eq!(
        rate_limit_error(Ok(requested_gate(timed)), context(), 429),
        ProviderError::RateLimited { context: context(), status: 429 }
    );
    assert_eq!(
        rate_limit_error(Ok(requested_gate(blocked)), context(), 418),
        ProviderError::InvalidBanExpiry
    );
    assert_eq!(
        rate_limit_error(Err(RateGateClosed), context(), 429),
        ProviderError::Invariant("rate gate closed")
    );
}
