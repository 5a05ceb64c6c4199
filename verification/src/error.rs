//! Failures, as values that carry no outside detail.
use vstd::prelude::*;

use crate::candle::DomainError;
use crate::model::{
    GapGeneration, Instrument, InvalidHistoryRequest, ReplayRevision, Timeframe,
};

verus! {

/// What was being done when a failure came up.
#[derive(Clone, Copy, Debug, PartialEq, Eq, Structural)]
pub enum ErrorOperation {
    History,
    WebSocket,
    Reconciliation,
    LiveFeed,
}

/// What was being done, and for which market where one was known.
#[derive(Debug, PartialEq, Eq)]
pub struct ErrorContext {
    pub operation: ErrorOperation,
    pub instrument: Option<Instrument>,
    pub timeframe: Option<Timeframe>,
}

impl Clone for ErrorContext {
    fn clone(&self) -> (copy: Self)
        ensures
            copy == *self,
    {
        let instrument = match &self.instrument {
            Some(instrument) => Some(instrument.clone()),
            None => None,
        };
        ErrorContext { operation: self.operation, instrument, timeframe: self.timeframe }
    }
}

impl ErrorContext {
    pub open spec fn of(operation: ErrorOperation) -> ErrorContext {
        ErrorContext { operation, instrument: None, timeframe: None }
    }

    pub open spec fn of_market(
        operation: ErrorOperation,
        instrument: Instrument,
        timeframe: Timeframe,
    ) -> ErrorContext {
        ErrorContext { operation, instrument: Some(instrument), timeframe: Some(timeframe) }
    }

    pub fn operation(operation: ErrorOperation) -> (context: ErrorContext)
        ensures
            context == ErrorContext::of(operation),
    {
        ErrorContext { operation, instrument: None, timeframe: None }
    }

    pub fn with_market(self, instrument: &Instrument, timeframe: Timeframe) -> (context:
        ErrorContext)
        ensures
            context == ErrorContext::of_market(self.operation, *instrument, timeframe),
    {
        ErrorContext {
            operation: self.operation,
            instrument: Some(instrument.clone()),
            timeframe: Some(timeframe),
        }
    }

    /// The context of an operation on a market.
    pub fn market(
        operation: ErrorOperation,
        instrument: &Instrument,
        timeframe: Timeframe,
    ) -> (context: ErrorContext)
        ensures
            context == ErrorContext::of_market(operation, *instrument, timeframe),
    {
        ErrorContext::operation(operation).with_market(instrument, timeframe)
    }
}

/// What is wrong with bytes that a provider sent.
#[derive(Clone, Copy, Debug, PartialEq, Eq)]
pub enum PayloadError {
    OverBudget { limit_bytes: usize },
    MalformedJson,
    MalformedProtocol,
    ExpectedArray,
    WrongArity { expected: usize, actual: usize },
    InvalidField { field: &'static str },
}

#[derive(Clone, Copy, Debug, PartialEq, Eq, Structural)]
pub enum SanitizedCause {
    Io,
    Connection,
    Tls,
    Closed,
    Cancelled,
    Other,
}

impl SanitizedCause {
    pub open spec fn phrase(self) -> &'static str {
        match self {
            SanitizedCause::Io => "I/O failure",
            SanitizedCause::Connection => "connection failure",
            SanitizedCause::Tls => "TLS failure",
            SanitizedCause::Closed => "closed",
            SanitizedCause::Cancelled => "cancelled",
            SanitizedCause::Other => "other failure",
        }
    }

    pub fn as_str(self) -> (text: &'static str)
        ensures
            text == self.phrase(),
    {
        match self {
            SanitizedCause::Io => "I/O failure",
            SanitizedCause::Connection => "connection failure",
            SanitizedCause::Tls => "TLS failure",
            SanitizedCause::Closed => "closed",
            SanitizedCause::Cancelled => "cancelled",
            SanitizedCause::Other => "other failure",
        }
    }
}

#[derive(Clone, Copy, Debug, PartialEq, Eq, Structural)]
pub enum TimeoutKind {
    Request,
    FirstKline,
    SubscribeAck,
    WebSocketInactivity,
    StalledWrite,
}

/// A provider's own words on a failure, or the stock phrase where it gave none.
#[derive(Debug, PartialEq, Eq)]
pub enum SanitizedMessage {
    InvalidSymbol,
    Provided(String),
}

impl Clone for SanitizedMessage {
    fn clone(&self) -> (copy: Self)
        ensures
            copy == *self,
    {
        match self {
            SanitizedMessage::InvalidSymbol => SanitizedMessage::InvalidSymbol,
            SanitizedMessage::Provided(text) => SanitizedMessage::Provided(text.clone()),
        }
    }
}

impl SanitizedMessage {
    /// The words of a message, where it has any of its own.
    pub open spec fn words(self) -> Option<Seq<char>> {
        match self {
            SanitizedMessage::InvalidSymbol => None,
            SanitizedMessage::Provided(text) => Some(text@),
        }
    }

    /// A message in a provider's words. They are kept as they came: whoever shows them decides what
    /// of them is fit to be shown.
    pub fn new(text: &str) -> (message: SanitizedMessage)
        ensures
            message.words() == Some(text@),
    {
        SanitizedMessage::Provided(text.to_owned())
    }
}

/// A failure of a market-data provider.
#[allow(inconsistent_fields)]
#[derive(Debug, PartialEq, Eq)]
pub enum ProviderError {
    Configuration(&'static str),
    WebSocketConfiguration { context: ErrorContext, detail: &'static str },
    Invariant(&'static str),
    Protocol { context: ErrorContext, detail: &'static str },
    InvalidBanExpiry,
    Transport { context: ErrorContext, cause: SanitizedCause },
    Timeout { context: ErrorContext, kind: TimeoutKind },
    GapSyncNoProgress { target_open_time: i64, last_open_time: Option<i64> },
    ClientStatus {
        context: ErrorContext,
        status: u16,
        code: Option<i64>,
        message: Option<SanitizedMessage>,
    },
    ServerStatus { context: ErrorContext, status: u16 },
    RateLimited { context: ErrorContext, status: u16 },
    Payload { context: ErrorContext, source: PayloadError },
    ChannelClosed { context: ErrorContext },
    ReconcileAckTimeout {
        generation: GapGeneration,
        revision: ReplayRevision,
        target_open_time: i64,
    },
    QueueSaturated,
    InvalidSymbol { context: ErrorContext, code: i64, message: SanitizedMessage },
    Domain { context: ErrorContext, source: DomainError },
}

impl Clone for ProviderError {
    fn clone(&self) -> (copy: Self)
        ensures
            copy == *self,
    {
        match self {
            ProviderError::Configuration(detail) => ProviderError::Configuration(*detail),
            ProviderError::WebSocketConfiguration {
                context,
                detail,
            } => ProviderError::WebSocketConfiguration { context: context.clone(), detail: *detail },
            ProviderError::Invariant(detail) => ProviderError::Invariant(*detail),
            ProviderError::Protocol { context, detail } => ProviderError::Protocol {
                context: context.clone(),
                detail: *detail,
            },
            ProviderError::InvalidBanExpiry => ProviderError::InvalidBanExpiry,
            ProviderError::Transport { context, cause } => ProviderError::Transport {
                context: context.clone(),
                cause: *cause,
            },
            ProviderError::Timeout { context, kind } => ProviderError::Timeout {
                context: context.clone(),
                kind: *kind,
            },
            ProviderError::GapSyncNoProgress {
                target_open_time,
                last_open_time,
            } => ProviderError::GapSyncNoProgress {
                target_open_time: *target_open_time,
                last_open_time: *last_open_time,
            },
            ProviderError::ClientStatus {
                context,
                status,
                code,
                message,
            } => ProviderError::ClientStatus {
                context: context.clone(),
                status: *status,
                code: *code,
                message: match message {
                    Some(message) => Some(message.clone()),
                    None => None,
                },
            },
            ProviderError::ServerStatus { context, status } => ProviderError::ServerStatus {
                context: context.clone(),
                status: *status,
            },
            ProviderError::RateLimited { context, status } => ProviderError::RateLimited {
                context: context.clone(),
                status: *status,
            },
            ProviderError::Payload { context, source } => ProviderError::Payload {
                context: context.clone(),
                source: *source,
            },
            ProviderError::ChannelClosed { context } => ProviderError::ChannelClosed {
                context: context.clone(),
            },
            ProviderError::ReconcileAckTimeout {
                generation,
                revision,
                target_open_time,
            } => ProviderError::ReconcileAckTimeout {
                generation: *generation,
                revision: *revision,
                target_open_time: *target_open_time,
            },
            ProviderError::QueueSaturated => ProviderError::QueueSaturated,
            ProviderError::InvalidSymbol { context, code, message } => ProviderError::InvalidSymbol {
                context: context.clone(),
                code: *code,
                message: message.clone(),
            },
            ProviderError::Domain { context, source } => ProviderError::Domain {
                context: context.clone(),
                source: *source,
            },
        }
    }
}

/// A terminal that cannot be used.
#[derive(Clone, Copy, Debug, PartialEq, Eq)]
pub enum TerminalError {
    TtyRequired,
    Setup { operation: &'static str, cause: SanitizedCause },
}

/// A frame that cannot be drawn or written.
#[derive(Clone, Copy, Debug, PartialEq, Eq)]
pub enum RenderError {
    Invariant(&'static str),
    InsufficientSpace,
    Output(SanitizedCause),
}

/// A failure of the program as a whole.
#[derive(Debug, PartialEq, Eq)]
pub enum AppError {
    Provider(ProviderError),
    Terminal(TerminalError),
    Render(RenderError),
    Request(InvalidHistoryRequest),
    Invariant(&'static str),
}

/// A context is of its operation; of the market too, and of its period, where they are named.
pub proof fn law_contexts_name_what_they_are_given(
    operation: ErrorOperation,
    instrument: Instrument,
    timeframe: Timeframe,
)
    ensures
        ErrorContext::of(operation).operation == operation,
        ErrorContext::of(operation).instrument is None,
        ErrorContext::of(operation).timeframe is None,
        ErrorContext::of_market(operation, instrument, timeframe).operation == operation,
        ErrorContext::of_market(operation, instrument, timeframe).instrument == Some(instrument),
        ErrorContext::of_market(operation, instrument, timeframe).timeframe == Some(timeframe),
{
}

/// No two causes are told in the same words.
pub proof fn law_causes_are_told_apart(left: SanitizedCause, right: SanitizedCause)
    ensures
        left.phrase()@ == right.phrase()@ ==> left == right,
        SanitizedCause::Io.phrase()@ == "I/O failure"@,
        SanitizedCause::Connection.phrase()@ == "connection failure"@,
        SanitizedCause::Tls.phrase()@ == "TLS failure"@,
        SanitizedCause::Closed.phrase()@ == "closed"@,
        SanitizedCause::Cancelled.phrase()@ == "cancelled"@,
        SanitizedCause::Other.phrase()@ == "other failure"@,
{
    reveal_strlit("I/O failure");
    reveal_strlit("connection failure");
    reveal_strlit("TLS failure");
    reveal_strlit("closed");
    reveal_strlit("cancelled");
    reveal_strlit("other failure");
    assert("I/O failure"@[0] == 'I' && "I/O failure"@.len() == 11);
    assert("connection failure"@.len() == 18);
    assert("TLS failure"@[0] == 'T' && "TLS failure"@.len() == 11);
    assert("closed"@.len() == 6);
    assert("cancelled"@.len() == 9);
    assert("other failure"@.len() == 13);
}

} // verus!
