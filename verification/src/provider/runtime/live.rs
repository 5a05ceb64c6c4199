//! What a live feed makes of events and errors.
use vstd::prelude::*;

use crate::candle::Candle;
use crate::clock::checked_deadline;
use crate::error::{ErrorContext, ErrorOperation, ProviderError};
use crate::model::{Instrument, MonoInstant, Timeframe};
use crate::text::same_text;

pub use crate::provider::runtime::config::{
    validate_runtime_contract, ConnectionRotation, LiveConfig, LiveSupervisorConfig,
    ProcessBlockPolicy, ReconciliationLimits, ReconciliationPolicy, CONTROL_CAPACITY,
    EMERGENCY_CONTROL_CAPACITY, KEYED_CANDLE_CAPACITY, MARKET_EVENT_CHANNEL_CAPACITY,
};
pub use crate::provider::runtime::reconcile::{
    gap_target_within_generation_span_for_test, reconciliation_distinct_key_allowed_for_test,
    reconciliation_page_guard_for_test,
};

verus! {

/// What a provider's socket hands to the feed.
#[derive(Debug, PartialEq)]
pub enum LiveSocketEvent {
    Candle(Candle),
    Ignored,
    DecodedError(ProviderError),
    ReconnectRequested,
    ProtocolViolation(&'static str),
}

#[derive(Clone, Copy, Debug, PartialEq, Eq, Structural)]
pub enum LiveErrorDisposition {
    Recoverable,
    Terminal,
}

#[derive(Clone, Copy, Debug, PartialEq, Eq, Structural)]
pub enum LiveInBandEventDisposition {
    RecoverableInBand,
    TerminalInBand,
}

#[derive(Clone, Copy, Debug, PartialEq, Eq, Structural)]
pub enum LiveCompletionDisposition {
    Running,
    FinishedErr,
}

#[derive(Clone, Copy, Debug, PartialEq, Eq, Structural)]
pub struct LiveErrorClassification {
    pub disposition: LiveErrorDisposition,
    pub event: LiveInBandEventDisposition,
    pub completion: LiveCompletionDisposition,
    pub retries: bool,
}

#[derive(Debug, PartialEq)]
pub enum LiveInputClassification {
    Continue,
    Error { error: ProviderError, policy: LiveErrorClassification },
}

/// Whether no further attempt can mend an error.
pub open spec fn terminal(error: ProviderError) -> bool {
    error is Configuration || error is WebSocketConfiguration || error is Invariant
        || error is ClientStatus || error is InvalidSymbol || error is ChannelClosed
}

pub fn is_terminal_live_error(error: &ProviderError) -> (ends: bool)
    ensures
        ends == terminal(*error),
{
    match error {
        ProviderError::Configuration(_) => true,
        ProviderError::WebSocketConfiguration { .. } => true,
        ProviderError::Invariant(_) => true,
        ProviderError::ClientStatus { .. } => true,
        ProviderError::InvalidSymbol { .. } => true,
        ProviderError::ChannelClosed { .. } => true,
        _ => false,
    }
}

pub open spec fn classification(error: ProviderError) -> LiveErrorClassification {
    if terminal(error) {
        LiveErrorClassification {
            disposition: LiveErrorDisposition::Terminal,
            event: LiveInBandEventDisposition::TerminalInBand,
            completion: LiveCompletionDisposition::FinishedErr,
            retries: false,
        }
    } else {
        LiveErrorClassification {
            disposition: LiveErrorDisposition::Recoverable,
            event: LiveInBandEventDisposition::RecoverableInBand,
            completion: LiveCompletionDisposition::Running,
            retries: true,
        }
    }
}

/// What an error means for a feed: a terminal one ends it, any other is retried.
pub fn classify_live_error_for_test(error: &ProviderError) -> (classified: LiveErrorClassification)
    ensures
        classified == classification(*error),
{
    if is_terminal_live_error(error) {
        LiveErrorClassification {
            disposition: LiveErrorDisposition::Terminal,
            event: LiveInBandEventDisposition::TerminalInBand,
            completion: LiveCompletionDisposition::FinishedErr,
            retries: false,
        }
    } else {
        LiveErrorClassification {
            disposition: LiveErrorDisposition::Recoverable,
            event: LiveInBandEventDisposition::RecoverableInBand,
            completion: LiveCompletionDisposition::Running,
            retries: true,
        }
    }
}

/// The market that a feed is about.
#[derive(Debug, PartialEq, Eq)]
pub struct LiveMarket {
    pub instrument: Instrument,
    pub timeframe: Timeframe,
}

impl LiveMarket {
    pub open spec fn protocol_error(self, detail: &'static str) -> ProviderError {
        ProviderError::Protocol {
            context: ErrorContext::of_market(
                ErrorOperation::WebSocket,
                self.instrument,
                self.timeframe,
            ),
            detail,
        }
    }

    /// What is said when a peer asks to be connected to anew.
    pub open spec fn reconnect_error(self) -> ProviderError {
        self.protocol_error("WebSocket peer requested reconnect")
    }

    pub open spec fn closed_error(self) -> ProviderError {
        ProviderError::ChannelClosed {
            context: ErrorContext::of_market(
                ErrorOperation::Reconciliation,
                self.instrument,
                self.timeframe,
            ),
        }
    }

    pub fn live_protocol_error(&self, detail: &'static str) -> (error: ProviderError)
        ensures
            error == self.protocol_error(detail),
    {
        ProviderError::Protocol {
            context: ErrorContext::market(
                ErrorOperation::WebSocket,
                &self.instrument,
                self.timeframe,
            ),
            detail,
        }
    }

    pub fn control_channel_closed(&self) -> (error: ProviderError)
        ensures
            error == self.closed_error(),
    {
        ProviderError::ChannelClosed {
            context: ErrorContext::market(
                ErrorOperation::Reconciliation,
                &self.instrument,
                self.timeframe,
            ),
        }
    }
}

/// What a socket's word amounts to.
pub open spec fn input_error(
    input: Result<LiveSocketEvent, ProviderError>,
    instrument: Instrument,
    timeframe: Timeframe,
) -> Option<ProviderError> {
    match input {
        Ok(LiveSocketEvent::Candle(_)) => None,
        Ok(LiveSocketEvent::Ignored) => None,
        Ok(LiveSocketEvent::ReconnectRequested) => Some(
            LiveMarket { instrument, timeframe }.reconnect_error(),
        ),
        Ok(LiveSocketEvent::ProtocolViolation(detail)) => Some(
            LiveMarket { instrument, timeframe }.protocol_error(detail),
        ),
        Ok(LiveSocketEvent::DecodedError(error)) => Some(error),
        Err(error) => Some(error),
    }
}

pub fn classify_live_input_for_test(
    input: Result<LiveSocketEvent, ProviderError>,
    instrument: &Instrument,
    timeframe: Timeframe,
) -> (classified: LiveInputClassification)
    ensures
        classified == (match input_error(input, *instrument, timeframe) {
            None => LiveInputClassification::Continue,
            Some(error) => LiveInputClassification::Error {
                error,
                policy: classification(error),
            },
        }),
{
    let context = ErrorContext::market(ErrorOperation::WebSocket, instrument, timeframe);
    let error = match input {
        Ok(LiveSocketEvent::Candle(_)) => {
            return LiveInputClassification::Continue;
        },
        Ok(LiveSocketEvent::Ignored) => {
            return LiveInputClassification::Continue;
        },
        Ok(LiveSocketEvent::ReconnectRequested) => ProviderError::Protocol {
            context,
            detail: "WebSocket peer requested reconnect",
        },
        Ok(LiveSocketEvent::ProtocolViolation(detail)) => ProviderError::Protocol {
            context,
            detail,
        },
        Ok(LiveSocketEvent::DecodedError(error)) => error,
        Err(error) => error,
    };
    let policy = classify_live_error_for_test(&error);
    LiveInputClassification::Error { error, policy }
}

pub open spec fn block_error(policy: ProcessBlockPolicy) -> ProviderError {
    match policy {
        ProcessBlockPolicy::InvalidBanExpiry => ProviderError::InvalidBanExpiry,
        ProcessBlockPolicy::Forbidden(detail) => ProviderError::Invariant(detail),
    }
}

pub fn process_block_error(policy: ProcessBlockPolicy) -> (error: ProviderError)
    ensures
        error == block_error(policy),
{
    match policy {
        ProcessBlockPolicy::InvalidBanExpiry => ProviderError::InvalidBanExpiry,
        ProcessBlockPolicy::Forbidden(detail) => ProviderError::Invariant(detail),
    }
}

/// Whether an error is the one that a blocked process is given, word for word.
pub open spec fn says_blocked(error: ProviderError, policy: ProcessBlockPolicy) -> bool {
    match policy {
        ProcessBlockPolicy::InvalidBanExpiry => error is InvalidBanExpiry,
        ProcessBlockPolicy::Forbidden(detail) => error matches ProviderError::Invariant(words)
            && words@ == detail@,
    }
}

pub fn is_process_block_error(error: &ProviderError, policy: ProcessBlockPolicy) -> (blocked: bool)
    ensures
        blocked == says_blocked(*error, policy),
{
    match (policy, error) {
        (ProcessBlockPolicy::InvalidBanExpiry, ProviderError::InvalidBanExpiry) => true,
        (ProcessBlockPolicy::Forbidden(detail), ProviderError::Invariant(words)) => same_text(
            words,
            detail,
        ),
        _ => false,
    }
}

/// When the connection at hand is too old, and what is then said of it.
#[derive(Clone, Copy, Debug, PartialEq, Eq)]
pub struct ActiveRotation {
    pub due: Option<(MonoInstant, &'static str)>,
}

impl ActiveRotation {
    pub open spec fn elapsed(self, now: MonoInstant) -> bool {
        self.due matches Some((deadline, _)) && now.0 >= deadline.0
    }

    /// What is said of a connection that is too old.
    pub open spec fn words(self) -> &'static str
        recommends
            self.due is Some,
    {
        match self.due {
            Some((_, detail)) => detail,
            None => "",
        }
    }

    /// The rotation of a connection that is made now.
    pub open spec fn starting(policy: ConnectionRotation, now: MonoInstant) -> Result<
        ActiveRotation,
        ProviderError,
    > {
        match policy {
            ConnectionRotation::Never => Ok(ActiveRotation { due: None }),
            ConnectionRotation::After { max_age, detail } => match crate::clock::deadline_after(
                now,
                crate::clock::duration_nanos(max_age),
            ) {
                Some(deadline) => Ok(ActiveRotation { due: Some((deadline, detail)) }),
                None => Err(ProviderError::Invariant("live connection age deadline overflow")),
            },
        }
    }

    pub fn new(policy: ConnectionRotation, now: MonoInstant) -> (rotation: Result<
        ActiveRotation,
        ProviderError,
    >)
        ensures
            rotation == ActiveRotation::starting(policy, now),
    {
        match policy {
            ConnectionRotation::Never => Ok(ActiveRotation { due: None }),
            ConnectionRotation::After { max_age, detail } => match checked_deadline(now, max_age) {
                Ok(deadline) => Ok(ActiveRotation { due: Some((deadline, detail)) }),
                Err(_) => Err(ProviderError::Invariant("live connection age deadline overflow")),
            },
        }
    }

    pub fn is_elapsed(self, now: MonoInstant) -> (due: bool)
        ensures
            due == self.elapsed(now),
    {
        match self.due {
            Some((deadline, _)) => now.0 >= deadline.0,
            None => false,
        }
    }
}

/// An error is retried exactly where it does not end the feed.
pub proof fn law_terminal_errors_are_not_retried(error: ProviderError)
    ensures
        classification(error).retries == !terminal(error),
        classification(error).completion == LiveCompletionDisposition::FinishedErr <==> terminal(
            error,
        ),
{
}

/// Which errors end a feed: what is wrong with its own terms or its own workings, what the provider
/// refuses, and a consumer that is gone. What the network, the provider's servers, their words or
/// the clock bring about, another attempt may mend.
pub proof fn law_which_errors_end_a_feed(error: ProviderError)
    ensures
        error is Configuration || error is WebSocketConfiguration ==> terminal(error),
        error is Invariant || error is ChannelClosed ==> terminal(error),
        error is ClientStatus || error is InvalidSymbol ==> terminal(error),
        error is Transport || error is Timeout || error is ServerStatus || error is RateLimited
            ==> !terminal(error),
        error is Protocol || error is Payload || error is Domain ==> !terminal(error),
        error is GapSyncNoProgress || error is ReconcileAckTimeout || error is QueueSaturated
            || error is InvalidBanExpiry ==> !terminal(error),
        classification(error).disposition == LiveErrorDisposition::Terminal <==> terminal(error),
        classification(error).event == LiveInBandEventDisposition::TerminalInBand <==> terminal(
            error,
        ),
{
}

/// What a socket's word amounts to: a candle or a frame without meaning is no error; an error is the
/// one that was reported; to be connected to anew, or a violation, is one of the protocol, in the
/// words of the violation.
pub proof fn law_inputs_become_errors(
    instrument: Instrument,
    timeframe: Timeframe,
    candle: Candle,
    error: ProviderError,
    words: &'static str,
)
    ensures
        input_error(Ok(LiveSocketEvent::Candle(candle)), instrument, timeframe) is None,
        input_error(Ok(LiveSocketEvent::Ignored), instrument, timeframe) is None,
        input_error(Ok(LiveSocketEvent::DecodedError(error)), instrument, timeframe) == Some(error),
        input_error(Err(error), instrument, timeframe) == Some(error),
        input_error(
            Ok(LiveSocketEvent::ReconnectRequested),
            instrument,
            timeframe,
        ) matches Some(ProviderError::Protocol { context, detail }) && context.operation
            == ErrorOperation::WebSocket && context.instrument == Some(instrument)
            && context.timeframe == Some(timeframe) && detail@
            == "WebSocket peer requested reconnect"@,
        input_error(
            Ok(LiveSocketEvent::ProtocolViolation(words)),
            instrument,
            timeframe,
        ) matches Some(ProviderError::Protocol { context, detail }) && context.instrument == Some(
            instrument,
        ) && detail == words,
{
}

/// A process that is blocked is told as its provider has it: as a ban without an end, or as what the
/// provider holds impossible, in its words; and what it is told with is known again.
pub proof fn law_blocks_are_told_as_agreed(policy: ProcessBlockPolicy)
    ensures
        policy is InvalidBanExpiry ==> block_error(policy) is InvalidBanExpiry,
        policy matches ProcessBlockPolicy::Forbidden(words) ==> block_error(policy)
            == ProviderError::Invariant(words),
        says_blocked(block_error(policy), policy),
{
}

/// A connection that may grow old falls due its whole age after it was made, and not before; one that
/// may not never does.
pub proof fn law_connections_fall_due(
    policy: ConnectionRotation,
    made: MonoInstant,
    now: MonoInstant,
)
    ensures
        policy is Never ==> (ActiveRotation::starting(policy, made) matches Ok(rotation)
            && !rotation.elapsed(now)),
        policy matches ConnectionRotation::After { max_age, detail } ==> {
            let age = crate::clock::duration_nanos(max_age);
            &&& made.0 + age <= u64::MAX ==> (ActiveRotation::starting(
                policy,
                made,
            ) matches Ok(rotation) && rotation.words() == detail && (rotation.elapsed(now) <==> now.0
                >= made.0 + age))
            &&& made.0 + age > u64::MAX ==> ActiveRotation::starting(policy, made) is Err
        },
{
}

} // verus!
