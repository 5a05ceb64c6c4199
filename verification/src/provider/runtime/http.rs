//! What a provider makes of HTTP answers and of its rate gate.
use std::time::Duration;

use vstd::prelude::*;

use crate::clock::{checked_deadline, is_zero};
use crate::error::{ErrorContext, PayloadError, ProviderError, SanitizedCause, TimeoutKind};
use crate::model::{MonoInstant, ProcessBlocker, RateGateState};
use crate::provider::RateGateClosed;
use crate::text::parse_u64;

verus! {

pub const REST_REQUEST_TIMEOUT_MILLIS: u64 = 10_000;

pub const REST_BODY_LIMIT: usize = 2_097_152;

pub const RATE_LIMIT_FALLBACK_MILLIS: u64 = 30_000;

pub const TOO_MANY_REQUESTS: u16 = 429;

pub const IM_A_TEAPOT: u16 = 418;

pub const BAD_REQUEST: u16 = 400;

#[derive(Clone, Copy, Debug, PartialEq, Eq, Structural)]
pub enum RateLimitDecision {
    TimedUntil(MonoInstant),
    ProcessBlocked(ProcessBlocker),
}

#[derive(Clone, Copy, Debug, PartialEq, Eq, Structural)]
pub enum StatusDisposition {
    Success,
    Redirection,
    ClientError,
    ServerError,
}

/// What kind of answer a status code stands for.
pub open spec fn disposition(status: u16) -> StatusDisposition {
    if 500 <= status < 600 {
        StatusDisposition::ServerError
    } else if 300 <= status < 400 {
        StatusDisposition::Redirection
    } else if 400 <= status < 500 {
        StatusDisposition::ClientError
    } else {
        StatusDisposition::Success
    }
}

pub fn classify_status(status: u16) -> (kind: StatusDisposition)
    ensures
        kind == disposition(status),
{
    if 500 <= status && status < 600 {
        StatusDisposition::ServerError
    } else if 300 <= status && status < 400 {
        StatusDisposition::Redirection
    } else if 400 <= status && status < 500 {
        StatusDisposition::ClientError
    } else {
        StatusDisposition::Success
    }
}

/// A field of a query string.
#[derive(Debug, PartialEq, Eq)]
pub struct QueryField {
    pub name: &'static str,
    pub value: String,
}

pub open spec fn field_is(field: QueryField, name: &'static str, value: Seq<char>) -> bool {
    field.name == name && field.value@ == value
}

/// Checks the limits of a REST client.
pub fn validate_limits(request_timeout: Duration, body_limit: usize) -> (validated: Result<
    (),
    ProviderError,
>)
    ensures
        validated == (if crate::clock::duration_nanos(request_timeout) == 0 || body_limit == 0 {
            Err::<(), ProviderError>(
                ProviderError::Configuration("REST timeout and body limit must be positive"),
            )
        } else {
            Ok(())
        }),
{
    if is_zero(request_timeout) || body_limit == 0 {
        return Err(ProviderError::Configuration("REST timeout and body limit must be positive"));
    }
    Ok(())
}

/// Checks the limits of a REST client and the time to wait where a provider names none.
pub fn validate_rest_terms(
    request_timeout: Duration,
    body_limit: usize,
    rate_limit_fallback: Duration,
) -> (validated: Result<(), ProviderError>)
    ensures
        validated == (if crate::clock::duration_nanos(request_timeout) == 0 || body_limit == 0
            || crate::clock::duration_nanos(rate_limit_fallback) == 0 {
            Err::<(), ProviderError>(
                ProviderError::Configuration(
                    "REST timeout, body limit, and fallback must be positive",
                ),
            )
        } else {
            Ok(())
        }),
{
    if is_zero(request_timeout) || body_limit == 0 || is_zero(rate_limit_fallback) {
        return Err(
            ProviderError::Configuration("REST timeout, body limit, and fallback must be positive"),
        );
    }
    Ok(())
}

pub open spec fn payload_error(context: ErrorContext, source: PayloadError) -> ProviderError {
    ProviderError::Payload { context, source }
}

pub fn payload(context: &ErrorContext, source: PayloadError) -> (error: ProviderError)
    ensures
        error == payload_error(*context, source),
{
    ProviderError::Payload { context: context.clone(), source }
}

pub open spec fn cancelled_error(context: ErrorContext) -> ProviderError {
    ProviderError::Transport { context, cause: SanitizedCause::Cancelled }
}

pub fn cancelled(context: ErrorContext) -> (error: ProviderError)
    ensures
        error == cancelled_error(context),
{
    ProviderError::Transport { context, cause: SanitizedCause::Cancelled }
}

/// Whether an error says that a request was cancelled.
pub open spec fn says_cancelled(error: ProviderError) -> bool {
    error matches ProviderError::Transport { context, cause } && cause == SanitizedCause::Cancelled
}

pub fn is_cancelled(error: &ProviderError) -> (cancelled: bool)
    ensures
        cancelled == says_cancelled(*error),
{
    match error {
        ProviderError::Transport { cause, .. } => *cause == SanitizedCause::Cancelled,
        _ => false,
    }
}

/// A request that was not answered: in time, or at all.
pub fn map_transport(timed_out: bool, context: &ErrorContext) -> (error: ProviderError)
    ensures
        error == (if timed_out {
            ProviderError::Timeout { context: *context, kind: TimeoutKind::Request }
        } else {
            ProviderError::Transport { context: *context, cause: SanitizedCause::Connection }
        }),
{
    if timed_out {
        ProviderError::Timeout { context: context.clone(), kind: TimeoutKind::Request }
    } else {
        ProviderError::Transport { context: context.clone(), cause: SanitizedCause::Connection }
    }
}

/// A body that is read piece by piece and may not grow beyond a limit.
pub struct CappedBody {
    bytes: Vec<u8>,
    limit: usize,
}

impl View for CappedBody {
    type V = Seq<u8>;

    closed spec fn view(&self) -> Seq<u8> {
        self.bytes@
    }
}

impl CappedBody {
    pub closed spec fn cap(self) -> usize {
        self.limit
    }

    pub open spec fn well_formed(self) -> bool {
        self@.len() <= self.cap()
    }

    pub open spec fn over_budget(limit: usize, context: ErrorContext) -> ProviderError {
        payload_error(context, PayloadError::OverBudget { limit_bytes: limit })
    }

    /// Begins to read a body, unless its announced length is beyond the limit already.
    pub fn begin(announced: Option<u64>, limit: usize, context: &ErrorContext) -> (body: Result<
        CappedBody,
        ProviderError,
    >)
        ensures
            match body {
                Ok(body) => (announced matches Some(length) ==> length <= limit)
                    && body.well_formed() && body@ == Seq::<u8>::empty() && body.cap() == limit,
                Err(error) => announced matches Some(length) && length > limit && error
                    == CappedBody::over_budget(limit, *context),
            },
    {
        if let Some(length) = announced {
            if length as u128 > limit as u128 {
                return Err(payload(context, PayloadError::OverBudget { limit_bytes: limit }));
            }
        }
        Ok(CappedBody { bytes: Vec::new(), limit })
    }

    /// Adds a piece, unless the whole would be beyond the limit.
    pub fn push(&mut self, chunk: &[u8], context: &ErrorContext) -> (pushed: Result<
        (),
        ProviderError,
    >)
        requires
            old(self).well_formed(),
        ensures
            final(self).well_formed(),
            final(self).cap() == old(self).cap(),
            if old(self)@.len() + chunk@.len() > old(self).cap() {
                pushed == Err::<(), ProviderError>(
                    CappedBody::over_budget(old(self).cap(), *context),
                ) && final(self)@ == old(self)@
            } else {
                pushed == Ok::<(), ProviderError>(()) && final(self)@ == old(self)@ + chunk@
            },
    {
        let room: usize = self.limit - self.bytes.len();
        if chunk.len() > room {
            return Err(payload(context, PayloadError::OverBudget { limit_bytes: self.limit }));
        }
        self.bytes.extend_from_slice(chunk);
        Ok(())
    }

    pub fn into_bytes(self) -> (bytes: Vec<u8>)
        ensures
            bytes@ == self@,
    {
        self.bytes
    }
}

/// How to treat an answer, by its status alone.
#[derive(Debug, PartialEq)]
pub enum ResponsePlan {
    /// Read the body: it is what was asked for.
    Read,
    /// Read the body: it says what was wrong with the request.
    Explain,
    /// Do not read the body.
    Fail(ProviderError),
}

pub open spec fn response_plan(status: u16, context: ErrorContext) -> ResponsePlan {
    match disposition(status) {
        StatusDisposition::ServerError => ResponsePlan::Fail(
            ProviderError::ServerStatus { context, status },
        ),
        StatusDisposition::Redirection => ResponsePlan::Fail(
            ProviderError::ClientStatus { context, status, code: None, message: None },
        ),
        StatusDisposition::ClientError => ResponsePlan::Explain,
        StatusDisposition::Success => ResponsePlan::Read,
    }
}

pub fn plan_response(status: u16, context: &ErrorContext) -> (plan: ResponsePlan)
    ensures
        plan == response_plan(status, *context),
{
    match classify_status(status) {
        StatusDisposition::ServerError => ResponsePlan::Fail(
            ProviderError::ServerStatus { context: context.clone(), status },
        ),
        StatusDisposition::Redirection => ResponsePlan::Fail(
            ProviderError::ClientStatus {
                context: context.clone(),
                status,
                code: None,
                message: None,
            },
        ),
        StatusDisposition::ClientError => ResponsePlan::Explain,
        StatusDisposition::Success => ResponsePlan::Read,
    }
}

/// The words of a refusal: a body that could not be read says nothing, unless the reading was
/// cancelled.
pub fn explanation(body: Result<Vec<u8>, ProviderError>) -> (words: Result<Vec<u8>, ProviderError>)
    ensures
        match body {
            Ok(bytes) => words matches Ok(read) && read@ == bytes@,
            Err(error) => if says_cancelled(error) {
                words == Err::<Vec<u8>, ProviderError>(error)
            } else {
                words matches Ok(read) && read@ == Seq::<u8>::empty()
            },
        },
{
    match body {
        Ok(bytes) => Ok(bytes),
        Err(error) => {
            if is_cancelled(&error) {
                return Err(error);
            }
            Ok(Vec::new())
        },
    }
}

/// What to do at a rate gate.
#[derive(Debug, PartialEq)]
pub enum GateStep {
    Pass,
    Blocked(ProcessBlocker),
    Closed(ProviderError),
    WaitUntil(MonoInstant),
}

pub open spec fn gate_step(gate: Result<RateGateState, RateGateClosed>, now: MonoInstant) -> GateStep {
    match gate {
        Err(_) => GateStep::Closed(ProviderError::Invariant("rate gate closed")),
        Ok(RateGateState::Open) => GateStep::Pass,
        Ok(RateGateState::ProcessBlocked(blocker)) => GateStep::Blocked(blocker),
        Ok(RateGateState::TimedUntil(deadline)) => if deadline.0 <= now.0 {
            GateStep::Pass
        } else {
            GateStep::WaitUntil(deadline)
        },
    }
}

pub fn check_gate(gate: Result<RateGateState, RateGateClosed>, now: MonoInstant) -> (step: GateStep)
    ensures
        step == gate_step(gate, now),
{
    match gate {
        Err(_) => GateStep::Closed(ProviderError::Invariant("rate gate closed")),
        Ok(RateGateState::Open) => GateStep::Pass,
        Ok(RateGateState::ProcessBlocked(blocker)) => GateStep::Blocked(blocker),
        Ok(RateGateState::TimedUntil(deadline)) => if deadline.0 <= now.0 {
            GateStep::Pass
        } else {
            GateStep::WaitUntil(deadline)
        },
    }
}

/// What a rate gate is asked to become.
pub fn requested_gate(decision: RateLimitDecision) -> (state: RateGateState)
    ensures
        state == (match decision {
            RateLimitDecision::TimedUntil(deadline) => RateGateState::TimedUntil(deadline),
            RateLimitDecision::ProcessBlocked(blocker) => RateGateState::ProcessBlocked(blocker),
        }),
{
    match decision {
        RateLimitDecision::TimedUntil(deadline) => RateGateState::TimedUntil(deadline),
        RateLimitDecision::ProcessBlocked(blocker) => RateGateState::ProcessBlocked(blocker),
    }
}

/// What a caller is told after a limit was noted: the state that came of it decides.
pub fn rate_limit_error(
    effective: Result<RateGateState, RateGateClosed>,
    context: ErrorContext,
    status: u16,
) -> (error: ProviderError)
    ensures
        error == (match effective {
            Err(_) => ProviderError::Invariant("rate gate closed"),
            Ok(RateGateState::ProcessBlocked(ProcessBlocker::InvalidBanExpiry)) =>
                ProviderError::InvalidBanExpiry,
            Ok(_) => ProviderError::RateLimited { context, status },
        }),
{
    match effective {
        Err(_) => ProviderError::Invariant("rate gate closed"),
        Ok(RateGateState::ProcessBlocked(ProcessBlocker::InvalidBanExpiry)) =>
            ProviderError::InvalidBanExpiry,
        Ok(_) => ProviderError::RateLimited { context, status },
    }
}

/// The instant that a `Retry-After` header names: so many whole seconds from now, where the header
/// is a numeral and the clock reaches that far.
pub open spec fn named_deadline(header: Option<Seq<char>>, now: MonoInstant) -> Option<
    MonoInstant,
> {
    match header {
        None => None,
        Some(text) => match crate::text::numeral_up_to(text, u64::MAX as int) {
            None => None,
            Some(seconds) => crate::clock::deadline_after(
                now,
                (seconds * 1_000_000_000) as nat,
            ),
        },
    }
}

pub open spec fn header_view(header: Option<&str>) -> Option<Seq<char>> {
    match header {
        Some(text) => Some(text@),
        None => None,
    }
}

pub fn retry_after_deadline(header: Option<&str>, now: MonoInstant) -> (deadline: Option<
    MonoInstant,
>)
    ensures
        deadline == named_deadline(header_view(header), now),
{
    match header {
        None => None,
        Some(text) => match parse_u64(text) {
            None => None,
            Some(seconds) => {
                proof {
                    assert(seconds as int == crate::text::numeral_value(text@)) by {
                        crate::text::lemma_numeral_is_nonnegative(text@);
                    }
                }
                let room: u64 = u64::MAX - now.0;
                if seconds > room / 1_000_000_000 {
                    assert(now.0 + seconds * 1_000_000_000 > u64::MAX);
                    return None;
                }
                Some(MonoInstant(now.0 + seconds * 1_000_000_000))
            },
        },
    }
}

/// Until when a provider is left alone that has had enough: as long as it says, or as long as is
/// usual where it says nothing of use.
pub open spec fn limited_until(
    header: Option<Seq<char>>,
    fallback: Duration,
    now: MonoInstant,
) -> Option<MonoInstant> {
    match named_deadline(header, now) {
        Some(deadline) => Some(deadline),
        None => crate::clock::deadline_after(now, crate::clock::duration_nanos(fallback)),
    }
}

pub fn handle_rate_limit(header: Option<&str>, fallback: Duration, now: MonoInstant) -> (
decision: Result<RateLimitDecision, ProviderError>)
    ensures
        decision == (match limited_until(header_view(header), fallback, now) {
            Some(deadline) => Ok::<RateLimitDecision, ProviderError>(
                RateLimitDecision::TimedUntil(deadline),
            ),
            None => Err(ProviderError::Invariant("rate-limit deadline overflow")),
        }),
{
    match retry_after_deadline(header, now) {
        Some(deadline) => Ok(RateLimitDecision::TimedUntil(deadline)),
        None => match checked_deadline(now, fallback) {
            Ok(deadline) => Ok(RateLimitDecision::TimedUntil(deadline)),
            Err(_) => Err(ProviderError::Invariant("rate-limit deadline overflow")),
        },
    }
}

/// A rate gate lets a request pass exactly where it is open or its time has come, and it does so at
/// every later instant too.
pub proof fn law_gate_opens_for_good(deadline: MonoInstant, now: MonoInstant, later: MonoInstant)
    requires
        now.0 <= later.0,
        gate_step(Ok(RateGateState::TimedUntil(deadline)), now) == GateStep::Pass,
    ensures
        gate_step(Ok(RateGateState::TimedUntil(deadline)), later) == GateStep::Pass,
        deadline.0 <= now.0,
{
}

/// What a status is treated as: an answer in the two hundreds, and any that is none of the others,
/// is read; one in the four hundreds is read for what was wrong; a redirection is a refusal and an
/// answer in the five hundreds the server's failure, and neither is read.
pub proof fn law_statuses_are_treated_by_class(status: u16, context: ErrorContext)
    ensures
        status < 300 ==> response_plan(status, context) is Read,
        600 <= status ==> response_plan(status, context) is Read,
        400 <= status < 500 ==> response_plan(status, context) is Explain,
        300 <= status < 400 ==> response_plan(status, context) == ResponsePlan::Fail(
            ProviderError::ClientStatus { context, status, code: None, message: None },
        ),
        500 <= status < 600 ==> response_plan(status, context) == ResponsePlan::Fail(
            ProviderError::ServerStatus { context, status },
        ),
{
}

/// A gate lets a request pass where it is open or its time has come; it is waited for up to its time
/// and no longer; and one that is blocked or gone lets nothing pass.
pub proof fn law_gates(deadline: MonoInstant, blocker: ProcessBlocker, now: MonoInstant)
    ensures
        gate_step(Ok(RateGateState::Open), now) is Pass,
        gate_step(Ok(RateGateState::TimedUntil(deadline)), now) is Pass <==> now.0 >= deadline.0,
        now.0 < deadline.0 ==> gate_step(Ok(RateGateState::TimedUntil(deadline)), now)
            == GateStep::WaitUntil(deadline),
        gate_step(Ok(RateGateState::ProcessBlocked(blocker)), now) == GateStep::Blocked(blocker),
        gate_step(Err(RateGateClosed), now) is Closed,
{
}

/// A time to wait is named in whole seconds, by digits alone; it counts from now, and does not count
/// where the clock does not reach it.
pub proof fn law_named_times_are_seconds(header: Seq<char>, now: MonoInstant, seconds: u64)
    ensures
        named_deadline(None, now) is None,
        now.0 + seconds * 1_000_000_000 <= u64::MAX ==> (named_deadline(
            Some(crate::text::numeral(seconds as int)),
            now,
        ) matches Some(deadline) && deadline.0 == now.0 + seconds * 1_000_000_000),
        now.0 + seconds * 1_000_000_000 > u64::MAX ==> named_deadline(
            Some(crate::text::numeral(seconds as int)),
            now,
        ) is None,
        header.len() == 0 || !crate::text::all_digits(header) ==> named_deadline(
            Some(header),
            now,
        ) is None,
{
    crate::text::law_numeral_reads_back(seconds);
}

/// Where a time is named that counts, it is waited for; otherwise the usual time is.
pub proof fn law_limits_last_as_named(
    header: Option<Seq<char>>,
    fallback: Duration,
    now: MonoInstant,
)
    ensures
        named_deadline(header, now) is Some ==> limited_until(header, fallback, now)
            == named_deadline(header, now),
        named_deadline(header, now) is None && now.0 + crate::clock::duration_nanos(fallback)
            <= u64::MAX ==> (limited_until(header, fallback, now) matches Some(deadline)
            && deadline.0 == now.0 + crate::clock::duration_nanos(fallback)),
        named_deadline(header, now) is None && now.0 + crate::clock::duration_nanos(fallback)
            > u64::MAX ==> limited_until(header, fallback, now) is None,
{
}

/// What is said of a request that was cancelled is known again, and nothing else is taken for it.
pub proof fn law_cancellation_is_known_again(context: ErrorContext, error: ProviderError)
    ensures
        says_cancelled(cancelled_error(context)),
        cancelled_error(context) is Transport,
        !(error is Transport) ==> !says_cancelled(error),
        error matches ProviderError::Transport { cause, .. } ==> (says_cancelled(error) <==> cause
            == SanitizedCause::Cancelled),
{
}

} // verus!
