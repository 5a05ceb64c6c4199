//! A provider's socket: what it has read, what it has yet to write, and how it fails.
use std::collections::VecDeque;
use std::time::Duration;

use vstd::prelude::*;

use crate::clock::checked_deadline;
use crate::error::{
    ErrorContext, ErrorOperation, PayloadError, ProviderError, SanitizedCause, TimeoutKind,
};
use crate::model::{Instrument, MonoInstant, Timeframe};

pub use crate::provider::runtime::config::{
    WsConfig, WS_FRAME_SIZE, WS_MAX_WRITE_BUFFER_SIZE, WS_MESSAGE_SIZE, WS_READ_BUFFER_SIZE,
    WS_WRITE_BUFFER_SIZE,
};
pub use crate::provider::runtime::frame::{
    coalesce_readiness_outcomes, contains_close, has_actionable_readiness, readiness_priority,
    take_prioritized_readiness, DecodedFrame, ReadinessInput, WsMessage, WsOutcome,
};

verus! {

/// How many frames in a row a socket that is not yet subscribed reads before it lets others run.
pub const READINESS_DRAIN_POLL_BUDGET: usize = 256;

/// How many unread frames a subscribed socket holds before it reads no further.
pub const DECODED_BACKLOG_MAX: usize = 62;

/// Why a WebSocket failed, as the transport tells it.
#[derive(Clone, Copy, Debug, PartialEq, Eq, Structural)]
pub enum WebSocketFault {
    MessageTooLong { max_size: usize },
    Protocol,
    Utf8,
    AttackAttempt,
    Closed,
    Tls,
    Io,
    Connection,
    Capacity,
}

pub open spec fn fault_error(fault: WebSocketFault, context: ErrorContext) -> ProviderError {
    match fault {
        WebSocketFault::MessageTooLong { max_size } => ProviderError::Payload {
            context,
            source: PayloadError::OverBudget { limit_bytes: max_size },
        },
        WebSocketFault::Protocol => ProviderError::Protocol {
            context,
            detail: "invalid WebSocket framing",
        },
        WebSocketFault::Utf8 => ProviderError::Protocol {
            context,
            detail: "invalid WebSocket UTF-8",
        },
        WebSocketFault::AttackAttempt => ProviderError::Protocol {
            context,
            detail: "WebSocket attack attempt rejected",
        },
        WebSocketFault::Closed => ProviderError::Transport {
            context,
            cause: SanitizedCause::Closed,
        },
        WebSocketFault::Tls => ProviderError::Transport { context, cause: SanitizedCause::Tls },
        WebSocketFault::Io => ProviderError::Transport { context, cause: SanitizedCause::Io },
        WebSocketFault::Connection => ProviderError::Transport {
            context,
            cause: SanitizedCause::Connection,
        },
        WebSocketFault::Capacity => ProviderError::Protocol {
            context,
            detail: "WebSocket capacity invariant failed",
        },
    }
}

pub fn map_websocket_error(fault: WebSocketFault, context: &ErrorContext) -> (error: ProviderError)
    ensures
        error == fault_error(fault, *context),
{
    let context = context.clone();
    match fault {
        WebSocketFault::MessageTooLong { max_size } => ProviderError::Payload {
            context,
            source: PayloadError::OverBudget { limit_bytes: max_size },
        },
        WebSocketFault::Protocol => ProviderError::Protocol {
            context,
            detail: "invalid WebSocket framing",
        },
        WebSocketFault::Utf8 => ProviderError::Protocol {
            context,
            detail: "invalid WebSocket UTF-8",
        },
        WebSocketFault::AttackAttempt => ProviderError::Protocol {
            context,
            detail: "WebSocket attack attempt rejected",
        },
        WebSocketFault::Closed => ProviderError::Transport {
            context,
            cause: SanitizedCause::Closed,
        },
        WebSocketFault::Tls => ProviderError::Transport { context, cause: SanitizedCause::Tls },
        WebSocketFault::Io => ProviderError::Transport { context, cause: SanitizedCause::Io },
        WebSocketFault::Connection => ProviderError::Transport {
            context,
            cause: SanitizedCause::Connection,
        },
        WebSocketFault::Capacity => ProviderError::Protocol {
            context,
            detail: "WebSocket capacity invariant failed",
        },
    }
}

/// A faulty configuration, told with the market that it was for; any other error stays as it is.
pub fn contextualize_websocket_configuration(
    error: ProviderError,
    instrument: &Instrument,
    timeframe: Timeframe,
) -> (contextualized: ProviderError)
    ensures
        contextualized == (match error {
            ProviderError::Configuration(detail) => ProviderError::WebSocketConfiguration {
                context: ErrorContext::of_market(
                    ErrorOperation::WebSocket,
                    *instrument,
                    timeframe,
                ),
                detail,
            },
            other => other,
        }),
{
    match error {
        ProviderError::Configuration(detail) => ProviderError::WebSocketConfiguration {
            context: ErrorContext::market(ErrorOperation::WebSocket, instrument, timeframe),
            detail,
        },
        other => other,
    }
}

/// Whether a socket still waits to be subscribed.
#[derive(Clone, Copy, Debug, PartialEq, Eq, Structural)]
pub enum ReadinessMode {
    Ordinary,
    PreSubscription,
}

impl ReadinessMode {
    pub open spec fn drains(self) -> bool {
        self == ReadinessMode::PreSubscription
    }

    pub fn drains_readiness_frames(self) -> (drains: bool)
        ensures
            drains == self.drains(),
    {
        match self {
            ReadinessMode::PreSubscription => true,
            ReadinessMode::Ordinary => false,
        }
    }
}

/// What a socket has to write.
#[derive(Debug, PartialEq, Eq)]
pub enum OutboundMessage {
    Text(String),
    /// So many zero bytes.
    Zeros(usize),
}

impl Clone for OutboundMessage {
    fn clone(&self) -> (copy: Self)
        ensures
            copy == *self,
    {
        match self {
            OutboundMessage::Text(text) => OutboundMessage::Text(text.clone()),
            OutboundMessage::Zeros(count) => OutboundMessage::Zeros(*count),
        }
    }
}

/// The books of a socket.
pub struct SocketState<T> {
    pub config: WsConfig,
    pub context: ErrorContext,
    pub decoded: VecDeque<DecodedFrame<T>>,
    pub outbound: VecDeque<OutboundMessage>,
    pub flush_pending: bool,
    pub write_stall_deadline: Option<MonoInstant>,
    pub last_data_message: MonoInstant,
    pub terminal_io: bool,
    pub application_heartbeat_interval: Duration,
    pub application_heartbeat_message: Option<OutboundMessage>,
    pub pending_terminal_error: Option<ProviderError>,
    pub stalled_write_error: Option<ProviderError>,
    pub next_application_ping: Option<MonoInstant>,
    pub peer_close_received: bool,
    pub readiness_drain_yielded: bool,
}

#[verifier::ext_equal]
#[verifier::reject_recursive_types(T)]
pub struct SocketView<T> {
    pub config: WsConfig,
    pub context: ErrorContext,
    pub decoded: Seq<DecodedFrame<T>>,
    pub outbound: Seq<OutboundMessage>,
    pub flush_pending: bool,
    pub stall: Option<MonoInstant>,
    pub last_data: MonoInstant,
    pub terminal_io: bool,
    pub heartbeat_interval: Duration,
    pub heartbeat_message: Option<OutboundMessage>,
    pub terminal_error: Option<ProviderError>,
    pub stalled_error: Option<ProviderError>,
    pub next_ping: Option<MonoInstant>,
    pub peer_close: bool,
    pub yielded: bool,
}

impl<T> View for SocketState<T> {
    type V = SocketView<T>;

    open spec fn view(&self) -> SocketView<T> {
        SocketView {
            config: self.config,
            context: self.context,
            decoded: self.decoded@,
            outbound: self.outbound@,
            flush_pending: self.flush_pending,
            stall: self.write_stall_deadline,
            last_data: self.last_data_message,
            terminal_io: self.terminal_io,
            heartbeat_interval: self.application_heartbeat_interval,
            heartbeat_message: self.application_heartbeat_message,
            terminal_error: self.pending_terminal_error,
            stalled_error: self.stalled_write_error,
            next_ping: self.next_application_ping,
            peer_close: self.peer_close_received,
            yielded: self.readiness_drain_yielded,
        }
    }
}

/// The instant so long after another, or the last instant of the clock where it does not reach so
/// far.
pub open spec fn instant_after(now: MonoInstant, duration: Duration) -> MonoInstant {
    match crate::clock::deadline_after(now, crate::clock::duration_nanos(duration)) {
        Some(deadline) => deadline,
        None => MonoInstant(u64::MAX),
    }
}

fn after(now: MonoInstant, duration: Duration) -> (deadline: MonoInstant)
    ensures
        deadline == instant_after(now, duration),
{
    match checked_deadline(now, duration) {
        Ok(deadline) => deadline,
        Err(_) => MonoInstant(u64::MAX),
    }
}

pub open spec fn elapsed(deadline: Option<MonoInstant>, now: MonoInstant) -> bool {
    deadline matches Some(instant) && now.0 >= instant.0
}

fn is_elapsed(deadline: Option<MonoInstant>, now: MonoInstant) -> (due: bool)
    ensures
        due == elapsed(deadline, now),
{
    match deadline {
        Some(instant) => now.0 >= instant.0,
        None => false,
    }
}

impl<T> SocketView<T> {
    pub open spec fn closed_error(self) -> ProviderError {
        ProviderError::Transport { context: self.context, cause: SanitizedCause::Closed }
    }

    pub open spec fn timeout(self, kind: TimeoutKind) -> ProviderError {
        ProviderError::Timeout { context: self.context, kind }
    }

    /// When a socket that hears nothing is given up.
    pub open spec fn inactivity(self) -> MonoInstant {
        instant_after(self.last_data, self.config.message_inactivity_timeout)
    }

    /// Sets the deadline of a write, where none is set.
    pub open spec fn timed(self, now: MonoInstant) -> SocketView<T> {
        if self.stall is Some {
            self
        } else {
            SocketView {
                stall: Some(
                    match crate::clock::deadline_after(
                        now,
                        crate::clock::duration_nanos(self.config.stalled_write_timeout),
                    ) {
                        Some(deadline) => deadline,
                        None => now,
                    },
                ),
                ..self
            }
        }
    }

    /// Gives up writing, for the first reason that there was; what was read can still be delivered.
    pub open spec fn stalled(self, error: ProviderError) -> SocketView<T> {
        SocketView {
            outbound: Seq::empty(),
            flush_pending: false,
            stall: None,
            stalled_error: if self.stalled_error is Some {
                self.stalled_error
            } else {
                Some(error)
            },
            ..self
        }
    }

    /// Ends reading and writing.
    pub open spec fn finished(self) -> SocketView<T> {
        SocketView {
            terminal_io: true,
            outbound: Seq::empty(),
            flush_pending: false,
            stall: None,
            ..self
        }
    }

    /// The error that a failure is told by: a stalled write comes before what follows from it.
    pub open spec fn cause(self, error: ProviderError) -> ProviderError {
        match self.stalled_error {
            Some(stalled) => stalled,
            None => error,
        }
    }

    /// What a failure leaves: where frames are unread, the error waits behind them.
    pub open spec fn failing(self, error: ProviderError) -> SocketView<T> {
        let ended = SocketView { peer_close: false, ..self }.finished();
        if self.decoded.len() > 0 && self.terminal_error is None {
            SocketView { terminal_error: Some(self.cause(error)), ..ended }
        } else {
            ended
        }
    }

    /// Whether a failure is told at once: to a reader only where nothing is unread, to a writer
    /// always.
    pub open spec fn failure(self, error: ProviderError, report_to_writer: bool) -> Result<
        (),
        ProviderError,
    > {
        if self.decoded.len() == 0 || report_to_writer {
            Err(self.cause(error))
        } else {
            Ok(())
        }
    }

    /// What a socket that can no longer be written to says.
    pub open spec fn write_refusal(self) -> Option<ProviderError> {
        match self.stalled_error {
            Some(error) => Some(error),
            None => if !self.terminal_io {
                None
            } else {
                match self.terminal_error {
                    Some(error) => Some(error),
                    None => Some(self.closed_error()),
                }
            },
        }
    }

    /// Whether a frame may be delivered while a write is stalled: not a close frame whose answer is
    /// still to be sent.
    pub open spec fn deliverable(self, frame: DecodedFrame<T>) -> bool {
        !(frame is Close) || (!self.peer_close && !self.flush_pending)
    }

    pub open spec fn writing(self) -> bool {
        self.outbound.len() > 0 || self.flush_pending
    }
}

/// What a reader is to do.
#[derive(Debug, PartialEq)]
pub enum ReadStep<T> {
    Deliver(DecodedFrame<T>),
    Fail(ProviderError),
    Pump,
}

/// What one round of waiting on a socket is about.
#[derive(Debug, PartialEq)]
pub enum PumpStep {
    Done(Result<(), ProviderError>),
    Wait {
        inactivity_deadline: MonoInstant,
        write_stall_deadline: Option<MonoInstant>,
        heartbeat_deadline: Option<MonoInstant>,
    },
}

/// What a socket waits on besides its transport.
#[derive(Clone, Copy, Debug, PartialEq, Eq, Structural)]
pub enum PumpEvent {
    InactivityElapsed,
    StallElapsed,
    HeartbeatDue,
}

/// One round of reading and writing.
#[derive(Debug, PartialEq)]
pub struct IoRun {
    pub writing: bool,
    pub mode: ReadinessMode,
    pub inactivity_deadline: MonoInstant,
    pub made_progress: bool,
    pub readiness_frames: usize,
    /// The message that is being handed to the transport.
    pub message: Option<OutboundMessage>,
}

/// What the transport answered.
pub enum IoEvent<T> {
    /// A message, and what the codec made of it.
    Received { is_data: bool, frames: VecDeque<DecodedFrame<T>> },
    ReceiveFault(WebSocketFault),
    ReceiveEnded,
    ReceivePending,
    SinkReady,
    SinkPending,
    Sent,
    SendFault(WebSocketFault),
    Flushed,
    FlushPending,
    FlushFault(WebSocketFault),
}

/// What to ask of the transport next, or how the round ends.
#[derive(Debug, PartialEq)]
pub enum IoRequest {
    Receive,
    Ready,
    Send(OutboundMessage),
    Flush,
    /// Let others run, and come back.
    Yield,
    Pending,
    Done(Result<(), ProviderError>),
}

impl<T> SocketState<T> {
    pub fn new(
        config: WsConfig,
        context: ErrorContext,
        application_heartbeat_message: Option<OutboundMessage>,
        now: MonoInstant,
    ) -> (state: SocketState<T>)
        ensures
            state@.config == config,
            state@.context == context,
            state@.heartbeat_message == application_heartbeat_message,
            crate::clock::duration_nanos(state@.heartbeat_interval) == 0,
            state@.last_data == now,
            state@.decoded == Seq::<DecodedFrame<T>>::empty(),
            state@.outbound == Seq::<OutboundMessage>::empty(),
            !state@.flush_pending && !state@.terminal_io && !state@.peer_close && !state@.yielded,
            state@.stall is None && state@.next_ping is None,
            state@.terminal_error is None && state@.stalled_error is None,
    {
        SocketState {
            config,
            context,
            decoded: VecDeque::new(),
            outbound: VecDeque::new(),
            flush_pending: false,
            write_stall_deadline: None,
            last_data_message: now,
            terminal_io: false,
            application_heartbeat_interval: Duration::from_millis(0),
            application_heartbeat_message,
            pending_terminal_error: None,
            stalled_write_error: None,
            next_application_ping: None,
            peer_close_received: false,
            readiness_drain_yielded: false,
        }
    }

    /// Begins to say something every so often, so that the peer keeps the connection.
    pub fn start_application_heartbeat(&mut self, interval: Duration, now: MonoInstant)
        ensures
            final(self)@ == (SocketView {
                heartbeat_interval: interval,
                next_ping: crate::clock::deadline_after(
                    now,
                    crate::clock::duration_nanos(interval),
                ),
                ..old(self)@
            }),
    {
        self.application_heartbeat_interval = interval;
        self.next_application_ping = match checked_deadline(now, interval) {
            Ok(deadline) => Some(deadline),
            Err(_) => None,
        };
        assert(self@ =~= (SocketView {
            heartbeat_interval: interval,
            next_ping: crate::clock::deadline_after(now, crate::clock::duration_nanos(interval)),
            ..old(self)@
        }));
    }

    pub fn application_heartbeat_started(&self) -> (started: bool)
        ensures
            started == (self@.next_ping is Some),
    {
        self.next_application_ping.is_some()
    }

    pub fn inactivity_deadline(&self) -> (deadline: MonoInstant)
        ensures
            deadline == self@.inactivity(),
    {
        after(self.last_data_message, self.config.message_inactivity_timeout)
    }

    fn ensure_write_stall_deadline(&mut self, now: MonoInstant)
        ensures
            final(self)@ == old(self)@.timed(now),
    {
        if self.write_stall_deadline.is_none() {
            self.write_stall_deadline = match checked_deadline(
                now,
                self.config.stalled_write_timeout,
            ) {
                Ok(deadline) => Some(deadline),
                Err(_) => Some(now),
            };
        }
        assert(self@ =~= old(self)@.timed(now));
    }

    pub fn enter_stalled_write_drain(&mut self, error: ProviderError)
        ensures
            final(self)@ == old(self)@.stalled(error),
    {
        self.outbound.clear();
        self.flush_pending = false;
        self.write_stall_deadline = None;
        if self.stalled_write_error.is_none() {
            self.stalled_write_error = Some(error);
        }
        assert(self@ =~= old(self)@.stalled(error));
    }

    fn finish_terminal_io(&mut self)
        ensures
            final(self)@ == old(self)@.finished(),
    {
        self.terminal_io = true;
        self.outbound.clear();
        self.flush_pending = false;
        self.write_stall_deadline = None;
        assert(self@ =~= old(self)@.finished());
    }

    fn stalled_copy(&self) -> (error: Option<ProviderError>)
        ensures
            error == self@.stalled_error,
    {
        match &self.stalled_write_error {
            Some(error) => Some(error.clone()),
            None => None,
        }
    }

    pub fn finish_or_defer_terminal_error(&mut self, error: ProviderError, report_to_writer: bool) -> (
    result: Result<(), ProviderError>)
        ensures
            final(self)@ == old(self)@.failing(error),
            result == old(self)@.failure(error, report_to_writer),
    {
        let ghost before = self@;
        let cause = match self.stalled_copy() {
            Some(stalled) => stalled,
            None => error,
        };
        assert(cause == before.cause(error));
        self.peer_close_received = false;
        self.finish_terminal_io();
        if self.decoded.len() > 0 {
            if self.pending_terminal_error.is_none() {
                self.pending_terminal_error = Some(cause.clone());
            }
            assert(self@ =~= before.failing(error));
            if report_to_writer {
                return Err(cause);
            }
            return Ok(());
        }
        assert(self@ =~= before.failing(error));
        Err(cause)
    }

    fn fail_write_and_drain(&mut self) -> (result: Result<(), ProviderError>)
        ensures
            final(self)@ == old(self)@.stalled(old(self)@.timeout(TimeoutKind::StalledWrite)),
            result == Err::<(), ProviderError>(old(self)@.timeout(TimeoutKind::StalledWrite)),
    {
        let error = ProviderError::Timeout {
            context: self.context.clone(),
            kind: TimeoutKind::StalledWrite,
        };
        self.enter_stalled_write_drain(error.clone());
        Err(error)
    }

    pub fn reject_terminal_write(&self) -> (result: Result<(), ProviderError>)
        ensures
            result == (match self@.write_refusal() {
                Some(error) => Err::<(), ProviderError>(error),
                None => Ok(()),
            }),
    {
        if let Some(error) = &self.stalled_write_error {
            return Err(error.clone());
        }
        if !self.terminal_io {
            return Ok(());
        }
        match &self.pending_terminal_error {
            Some(error) => Err(error.clone()),
            None => Err(self.closed()),
        }
    }

    fn closed(&self) -> (error: ProviderError)
        ensures
            error == self@.closed_error(),
    {
        ProviderError::Transport { context: self.context.clone(), cause: SanitizedCause::Closed }
    }

    /// Whether anything is yet to be written.
    pub fn has_pending_write(&self) -> (pending: bool)
        ensures
            pending == self@.writing(),
    {
        self.outbound.len() > 0 || self.flush_pending
    }

    /// Queues a message.
    pub fn begin_send(&mut self, message: OutboundMessage, now: MonoInstant) -> (begun: Result<
        (),
        ProviderError,
    >)
        ensures
            match old(self)@.write_refusal() {
                Some(error) => begun == Err::<(), ProviderError>(error) && final(self)@ == old(self)@,
                None => begun == Ok::<(), ProviderError>(()) && final(self)@ == (SocketView {
                    outbound: old(self)@.outbound.push(message),
                    ..old(self)@
                }).timed(now),
            },
    {
        match self.reject_terminal_write() {
            Ok(()) => {},
            Err(error) => {
                return Err(error);
            },
        }
        let ghost before = self@;
        self.outbound.push_back(message);
        assert(self@ =~= (SocketView { outbound: before.outbound.push(message), ..before }));
        self.ensure_write_stall_deadline(now);
        Ok(())
    }

    /// Begins to write out what is queued.
    pub fn begin_flush(&mut self, now: MonoInstant) -> (begun: Result<(), ProviderError>)
        ensures
            match old(self)@.write_refusal() {
                Some(error) => begun == Err::<(), ProviderError>(error) && final(self)@ == old(self)@,
                None => begun == Ok::<(), ProviderError>(()) && final(self)@ == (if old(self)@.writing() {
                    old(self)@.timed(now)
                } else {
                    old(self)@
                }),
            },
    {
        match self.reject_terminal_write() {
            Ok(()) => {},
            Err(error) => {
                return Err(error);
            },
        }
        if self.has_pending_write() {
            self.ensure_write_stall_deadline(now);
        }
        Ok(())
    }

    /// The next frame for a reader, where one may be delivered; the failure that ends the socket,
    /// where it waits; otherwise more is to be read.
    pub fn read_step(&mut self) -> (step: ReadStep<T>)
        ensures
            ({
                let before = old(self)@;
                let ready = before.decoded.len() > 0 && ((before.stalled_error is Some
                    && before.deliverable(before.decoded[0])) || !before.writing());
                if ready {
                    step == ReadStep::Deliver(before.decoded[0]) && final(self)@ == (SocketView {
                        decoded: before.decoded.skip(1),
                        ..before
                    })
                } else {
                    match before.terminal_error {
                        Some(error) => step == ReadStep::<T>::Fail(error) && final(self)@
                            == (SocketView { terminal_error: None, ..before }),
                        None => step == ReadStep::<T>::Pump && final(self)@ == before,
                    }
                }
            }),
    {
        let ghost before = self@;
        let ready = if self.decoded.len() == 0 {
            false
        } else {
            let deliverable = match &self.decoded[0] {
                DecodedFrame::Close(_) => !self.peer_close_received && !self.flush_pending,
                _ => true,
            };
            (self.stalled_write_error.is_some() && deliverable) || !self.has_pending_write()
        };
        if ready {
            if let Some(frame) = self.decoded.pop_front() {
                assert(self@.decoded =~= before.decoded.skip(1));
                assert(self@ =~= (SocketView { decoded: before.decoded.skip(1), ..before }));
                return ReadStep::Deliver(frame);
            }
        }
        match self.pending_terminal_error.take() {
            Some(error) => {
                assert(self@ =~= (SocketView { terminal_error: None, ..before }));
                ReadStep::Fail(error)
            },
            None => {
                assert(self@ =~= before);
                ReadStep::Pump
            },
        }
    }

    /// Before a round of waiting: a socket that has ended says so, a write that takes too long is
    /// given up, and otherwise the deadlines of the round are known.
    pub fn begin_pump(&mut self, writing: bool, now: MonoInstant) -> (step: PumpStep)
        ensures
            ({
                let before = old(self)@;
                if before.terminal_io {
                    if writing {
                        final(self)@ == before && step == PumpStep::Done(
                            match before.write_refusal() {
                                Some(error) => Err(error),
                                None => Ok(()),
                            },
                        )
                    } else if before.decoded.len() > 0 {
                        final(self)@ == before && step == PumpStep::Done(Ok(()))
                    } else {
                        final(self)@ == (SocketView { terminal_error: None, ..before }) && step
                            == PumpStep::Done(
                            Err(
                                match before.terminal_error {
                                    Some(error) => error,
                                    None => before.closed_error(),
                                },
                            ),
                        )
                    }
                } else {
                    let timed = if before.stalled_error is None && (writing || before.writing()) {
                        before.timed(now)
                    } else {
                        before
                    };
                    if elapsed(timed.stall, now) {
                        final(self)@ == timed.stalled(timed.timeout(TimeoutKind::StalledWrite))
                            && step == PumpStep::Done(
                            Err(timed.timeout(TimeoutKind::StalledWrite)),
                        )
                    } else {
                        final(self)@ == timed && step == (PumpStep::Wait {
                            inactivity_deadline: before.inactivity(),
                            write_stall_deadline: timed.stall,
                            heartbeat_deadline: before.next_ping,
                        })
                    }
                }
            }),
    {
        let ghost before = self@;
        if self.terminal_io {
            if writing {
                return PumpStep::Done(self.reject_terminal_write());
            }
            if self.decoded.len() > 0 {
                return PumpStep::Done(Ok(()));
            }
            let pending = self.pending_terminal_error.take();
            assert(self@ =~= (SocketView { terminal_error: None, ..before }));
            return match pending {
                Some(error) => PumpStep::Done(Err(error)),
                None => PumpStep::Done(Err(self.closed())),
            };
        }
        if self.stalled_write_error.is_none() && (writing || self.has_pending_write()) {
            self.ensure_write_stall_deadline(now);
        }
        if is_elapsed(self.write_stall_deadline, now) {
            return PumpStep::Done(self.fail_write_and_drain());
        }
        PumpStep::Wait {
            inactivity_deadline: self.inactivity_deadline(),
            write_stall_deadline: self.write_stall_deadline,
            heartbeat_deadline: self.next_application_ping,
        }
    }

    /// What a deadline of a round leads to. A heartbeat needs something to say.
    pub fn on_pump(&mut self, event: PumpEvent, writing: bool, now: MonoInstant) -> (result: Result<
        (),
        ProviderError,
    >)
        requires
            event == PumpEvent::HeartbeatDue ==> old(self)@.heartbeat_message is Some,
        ensures
            ({
                let before = old(self)@;
                match event {
                    PumpEvent::InactivityElapsed => final(self)@ == before.failing(
                        before.timeout(TimeoutKind::WebSocketInactivity),
                    ) && result == before.failure(
                        before.timeout(TimeoutKind::WebSocketInactivity),
                        writing,
                    ),
                    PumpEvent::StallElapsed => final(self)@ == before.stalled(
                        before.timeout(TimeoutKind::StalledWrite),
                    ) && result == Err::<(), ProviderError>(
                        before.timeout(TimeoutKind::StalledWrite),
                    ),
                    PumpEvent::HeartbeatDue => result == Ok::<(), ProviderError>(()) && final(self)@
                        == (SocketView {
                        outbound: before.outbound.push(before.heartbeat_message->0),
                        next_ping: crate::clock::deadline_after(
                            now,
                            crate::clock::duration_nanos(before.heartbeat_interval),
                        ),
                        ..before
                    }).timed(now),
                }
            }),
    {
        let ghost before = self@;
        match event {
            PumpEvent::InactivityElapsed => {
                let error = ProviderError::Timeout {
                    context: self.context.clone(),
                    kind: TimeoutKind::WebSocketInactivity,
                };
                self.finish_or_defer_terminal_error(error, writing)
            },
            PumpEvent::StallElapsed => self.fail_write_and_drain(),
            PumpEvent::HeartbeatDue => {
                let message = match &self.application_heartbeat_message {
                    Some(message) => message.clone(),
                    None => {
                        return Ok(());
                    },
                };
                self.outbound.push_back(message);
                self.next_application_ping = match checked_deadline(
                    now,
                    self.application_heartbeat_interval,
                ) {
                    Ok(deadline) => Some(deadline),
                    Err(_) => None,
                };
                assert(self@ =~= (SocketView {
                    outbound: before.outbound.push(message),
                    next_ping: crate::clock::deadline_after(
                        now,
                        crate::clock::duration_nanos(before.heartbeat_interval),
                    ),
                    ..before
                }));
                self.ensure_write_stall_deadline(now);
                Ok(())
            },
        }
    }
}

/// What is kept of frames that a socket reads before it is subscribed: the foremost alone.
pub open spec fn kept<T: WsOutcome>(frames: Seq<DecodedFrame<T>>) -> Seq<DecodedFrame<T>> {
    if frames.len() == 0 {
        frames
    } else {
        seq![
            frames[choose|place: int|
                #[trigger] crate::provider::runtime::frame::foremost(frames, place)],
        ]
    }
}

impl<T: WsOutcome> SocketView<T> {
    /// A round that ends in a failure.
    pub open spec fn broken(self, run: IoRun, error: ProviderError) -> (
        SocketView<T>,
        IoRun,
        IoRequest,
    ) {
        (self.failing(error), run, IoRequest::Done(self.failure(error, run.writing)))
    }

    /// Reads on, as far as a round may.
    pub open spec fn reading(self, run: IoRun, now: MonoInstant) -> (
        SocketView<T>,
        IoRun,
        IoRequest,
    ) {
        if run.mode.drains() {
            if run.readiness_frames == READINESS_DRAIN_POLL_BUDGET {
                (SocketView { yielded: true, ..self }, run, IoRequest::Yield)
            } else {
                (self, run, IoRequest::Receive)
            }
        } else if self.decoded.len() > DECODED_BACKLOG_MAX {
            self.read_out(run, now)
        } else {
            (self, run, IoRequest::Receive)
        }
    }

    /// Nothing more is read in a round: a silent socket is given up, and what is queued is written.
    pub open spec fn read_out(self, run: IoRun, now: MonoInstant) -> (
        SocketView<T>,
        IoRun,
        IoRequest,
    ) {
        if self.decoded.len() == 0 && now.0 >= run.inactivity_deadline.0 {
            self.broken(run, self.timeout(TimeoutKind::WebSocketInactivity))
        } else if self.stalled_error is None && !self.peer_close && self.outbound.len() > 0 {
            (
                SocketView { outbound: self.outbound.skip(1), ..self },
                IoRun { message: Some(self.outbound[0]), ..run },
                IoRequest::Ready,
            )
        } else {
            (self, run, IoRequest::Flush)
        }
    }

    /// A message has come in time.
    pub open spec fn received(
        self,
        run: IoRun,
        is_data: bool,
        frames: Seq<DecodedFrame<T>>,
        now: MonoInstant,
    ) -> SocketView<T> {
        let noted = SocketView {
            last_data: if is_data {
                now
            } else {
                self.last_data
            },
            flush_pending: true,
            ..self
        };
        let timed = if self.stalled_error is None {
            noted.timed(now)
        } else {
            noted
        };
        let decoded = self.decoded + frames;
        let closes = crate::provider::runtime::frame::has_close(decoded);
        SocketView {
            decoded: if run.mode.drains() {
                kept(decoded)
            } else {
                decoded
            },
            outbound: if closes {
                Seq::empty()
            } else {
                self.outbound
            },
            peer_close: self.peer_close || closes,
            ..timed
        }
    }

    /// What an answer of the transport makes of a socket and a round, and what to ask next.
    pub open spec fn polled(self, run: IoRun, event: IoEvent<T>, now: MonoInstant) -> (
        SocketView<T>,
        IoRun,
        IoRequest,
    ) {
        match event {
            IoEvent::Received { is_data, frames } => if !is_data && now.0
                >= run.inactivity_deadline.0 {
                self.broken(run, self.timeout(TimeoutKind::WebSocketInactivity))
            } else {
                self.received(run, is_data, frames@, now).reading(
                    IoRun {
                        made_progress: true,
                        readiness_frames: if run.mode.drains() && run.readiness_frames
                            < READINESS_DRAIN_POLL_BUDGET {
                            (run.readiness_frames + 1) as usize
                        } else {
                            run.readiness_frames
                        },
                        ..run
                    },
                    now,
                )
            },
            IoEvent::ReceiveFault(fault) => self.broken(run, fault_error(fault, self.context)),
            IoEvent::ReceiveEnded => self.broken(run, self.closed_error()),
            IoEvent::ReceivePending => self.read_out(run, now),
            IoEvent::SinkReady => match run.message {
                Some(message) => (
                    self,
                    IoRun { message: None, ..run },
                    IoRequest::Send(message),
                ),
                None => (self, run, IoRequest::Flush),
            },
            IoEvent::SinkPending => match run.message {
                Some(message) => (
                    SocketView { outbound: seq![message] + self.outbound, ..self },
                    IoRun { message: None, ..run },
                    IoRequest::Flush,
                ),
                None => (self, run, IoRequest::Flush),
            },
            IoEvent::Sent => (
                if self.stalled_error is None {
                    SocketView { flush_pending: true, ..self }.timed(now)
                } else {
                    SocketView { flush_pending: true, ..self }
                },
                IoRun { made_progress: true, ..run },
                IoRequest::Flush,
            ),
            IoEvent::SendFault(fault) => self.broken(run, fault_error(fault, self.context)),
            IoEvent::Flushed => {
                let flushed = SocketView { flush_pending: false, ..self };
                if self.peer_close {
                    flushed.broken(run, self.closed_error())
                } else {
                    (
                        SocketView {
                            stall: if self.outbound.len() == 0 {
                                None
                            } else {
                                self.stall
                            },
                            ..flushed
                        },
                        run,
                        if run.made_progress || self.decoded.len() > 0 {
                            IoRequest::Done(Ok(()))
                        } else {
                            IoRequest::Pending
                        },
                    )
                }
            },
            IoEvent::FlushPending => (
                self,
                run,
                if run.made_progress {
                    IoRequest::Done(Ok(()))
                } else {
                    IoRequest::Pending
                },
            ),
            IoEvent::FlushFault(fault) => self.broken(run, fault_error(fault, self.context)),
        }
    }
}

impl<T: WsOutcome> SocketState<T> {
    fn break_round(&mut self, run: &IoRun, error: ProviderError) -> (request: IoRequest)
        ensures
            final(self)@ == old(self)@.failing(error),
            request == IoRequest::Done(old(self)@.failure(error, run.writing)),
    {
        IoRequest::Done(self.finish_or_defer_terminal_error(error, run.writing))
    }

    fn inactivity_error(&self) -> (error: ProviderError)
        ensures
            error == self@.timeout(TimeoutKind::WebSocketInactivity),
    {
        ProviderError::Timeout {
            context: self.context.clone(),
            kind: TimeoutKind::WebSocketInactivity,
        }
    }

    fn read_on(&mut self, run: &mut IoRun, now: MonoInstant) -> (request: IoRequest)
        ensures
            (final(self)@, *final(run), request) == old(self)@.reading(*old(run), now),
    {
        let ghost before = self@;
        if run.mode.drains_readiness_frames() {
            if run.readiness_frames == READINESS_DRAIN_POLL_BUDGET {
                self.readiness_drain_yielded = true;
                assert(self@ =~= (SocketView { yielded: true, ..before }));
                return IoRequest::Yield;
            }
            return IoRequest::Receive;
        }
        if self.decoded.len() > DECODED_BACKLOG_MAX {
            return self.finish_reading(run, now);
        }
        IoRequest::Receive
    }

    fn finish_reading(&mut self, run: &mut IoRun, now: MonoInstant) -> (request: IoRequest)
        ensures
            (final(self)@, *final(run), request) == old(self)@.read_out(*old(run), now),
    {
        let ghost before = self@;
        if self.decoded.len() == 0 && now.0 >= run.inactivity_deadline.0 {
            let error = self.inactivity_error();
            return self.break_round(run, error);
        }
        if self.stalled_write_error.is_none() && !self.peer_close_received {
            if let Some(message) = self.outbound.pop_front() {
                run.message = Some(message);
                assert(self@.outbound =~= before.outbound.skip(1));
                assert(self@ =~= (SocketView { outbound: before.outbound.skip(1), ..before }));
                return IoRequest::Ready;
            }
        }
        assert(self@ =~= before);
        IoRequest::Flush
    }

    /// Begins a round of reading and writing. A write that takes too long is given up.
    pub fn begin_io(
        &mut self,
        writing: bool,
        mode: ReadinessMode,
        inactivity_deadline: MonoInstant,
        now: MonoInstant,
    ) -> (step: (IoRun, IoRequest))
        ensures
            ({
                let run = IoRun {
                    writing,
                    mode,
                    inactivity_deadline,
                    made_progress: false,
                    readiness_frames: 0,
                    message: None,
                };
                if elapsed(old(self)@.stall, now) {
                    final(self)@ == old(self)@.stalled(
                        old(self)@.timeout(TimeoutKind::StalledWrite),
                    ) && step == (
                        run,
                        IoRequest::Done(Err(old(self)@.timeout(TimeoutKind::StalledWrite))),
                    )
                } else {
                    (final(self)@, step.0, step.1) == old(self)@.reading(run, now)
                }
            }),
    {
        let mut run = IoRun {
            writing,
            mode,
            inactivity_deadline,
            made_progress: false,
            readiness_frames: 0,
            message: None,
        };
        if is_elapsed(self.write_stall_deadline, now) {
            let result = self.fail_write_and_drain();
            return (run, IoRequest::Done(result));
        }
        let request = self.read_on(&mut run, now);
        (run, request)
    }

    fn receive(
        &mut self,
        run: &IoRun,
        is_data: bool,
        frames: VecDeque<DecodedFrame<T>>,
        now: MonoInstant,
    )
        ensures
            final(self)@ == old(self)@.received(*run, is_data, frames@, now),
    {
        let ghost before = self@;
        let mut frames = frames;
        if is_data {
            self.last_data_message = now;
        }
        self.flush_pending = true;
        let ghost noted = SocketView {
            last_data: if is_data {
                now
            } else {
                before.last_data
            },
            flush_pending: true,
            ..before
        };
        assert(self@ =~= noted);
        if self.stalled_write_error.is_none() {
            self.ensure_write_stall_deadline(now);
        }
        let ghost added = frames@;
        self.decoded.append(&mut frames);
        assert(self.decoded@ == before.decoded + added);
        if contains_close(&self.decoded) {
            self.outbound.clear();
            self.peer_close_received = true;
        }
        if run.mode.drains_readiness_frames() {
            let ghost all = self.decoded@;
            coalesce_readiness_outcomes(&mut self.decoded);
            proof {
                if all.len() > 0 {
                    let place = choose|place: int| #[trigger]
                        crate::provider::runtime::frame::foremost(all, place) && self.decoded@
                            == seq![all[place]];
                    let other = choose|other: int| #[trigger]
                        crate::provider::runtime::frame::foremost(all, other);
                    crate::provider::runtime::frame::law_foremost_is_single(all, place, other);
                } else {
                    assert(self.decoded@ =~= kept(all));
                }
                assert(self.decoded@ == kept(all));
            }
        }
        assert(self@ =~= before.received(*run, is_data, added, now));
    }

    /// Takes an answer of the transport, and says what to ask next.
    pub fn on_io(&mut self, run: &mut IoRun, event: IoEvent<T>, now: MonoInstant) -> (request:
        IoRequest)
        ensures
            (final(self)@, *final(run), request) == old(self)@.polled(*old(run), event, now),
    {
        let ghost before = self@;
        match event {
            IoEvent::Received { is_data, frames } => {
                if !is_data && now.0 >= run.inactivity_deadline.0 {
                    let error = self.inactivity_error();
                    return self.break_round(run, error);
                }
                self.receive(run, is_data, frames, now);
                run.made_progress = true;
                if run.mode.drains_readiness_frames() && run.readiness_frames
                    < READINESS_DRAIN_POLL_BUDGET {
                    run.readiness_frames = run.readiness_frames + 1;
                }
                self.read_on(run, now)
            },
            IoEvent::ReceiveFault(fault) => {
                let error = map_websocket_error(fault, &self.context);
                self.break_round(run, error)
            },
            IoEvent::ReceiveEnded => {
                let error = self.closed();
                self.break_round(run, error)
            },
            IoEvent::ReceivePending => self.finish_reading(run, now),
            IoEvent::SinkReady => match run.message.take() {
                Some(message) => IoRequest::Send(message),
                None => IoRequest::Flush,
            },
            IoEvent::SinkPending => match run.message.take() {
                Some(message) => {
                    self.outbound.push_front(message);
                    assert(self@.outbound =~= seq![message] + before.outbound);
                    assert(self@ =~= (SocketView {
                        outbound: seq![message] + before.outbound,
                        ..before
                    }));
                    IoRequest::Flush
                },
                None => IoRequest::Flush,
            },
            IoEvent::Sent => {
                self.flush_pending = true;
                assert(self@ =~= (SocketView { flush_pending: true, ..before }));
                if self.stalled_write_error.is_none() {
                    self.ensure_write_stall_deadline(now);
                }
                run.made_progress = true;
                IoRequest::Flush
            },
            IoEvent::SendFault(fault) => {
                let error = map_websocket_error(fault, &self.context);
                self.break_round(run, error)
            },
            IoEvent::Flushed => {
                self.flush_pending = false;
                assert(self@ =~= (SocketView { flush_pending: false, ..before }));
                if self.peer_close_received {
                    let error = self.closed();
                    return self.break_round(run, error);
                }
                if self.outbound.len() == 0 {
                    self.write_stall_deadline = None;
                }
                assert(self@ =~= (SocketView {
                    flush_pending: false,
                    stall: if before.outbound.len() == 0 {
                        None
                    } else {
                        before.stall
                    },
                    ..before
                }));
                if run.made_progress || self.decoded.len() > 0 {
                    IoRequest::Done(Ok(()))
                } else {
                    IoRequest::Pending
                }
            },
            IoEvent::FlushPending => if run.made_progress {
                IoRequest::Done(Ok(()))
            } else {
                IoRequest::Pending
            },
            IoEvent::FlushFault(fault) => {
                let error = map_websocket_error(fault, &self.context);
                self.break_round(run, error)
            },
        }
    }

    /// What a socket that is not yet subscribed has for its reader after a round: what is to be
    /// heeded first, unless the round was cut short and has nothing to act on.
    pub fn readiness_step(&mut self) -> (input: Option<ReadinessInput<T>>)
        ensures
            ({
                let before = old(self)@;
                let heeds = !before.yielded || crate::provider::runtime::frame::actionable(
                    before.decoded,
                    before.terminal_error is Some,
                    before.stalled_error is Some,
                );
                if heeds {
                    &&& crate::provider::runtime::frame::prioritized(
                        before.decoded,
                        before.terminal_error,
                        before.stalled_error,
                        final(self)@.decoded,
                        input,
                    )
                    &&& final(self)@ == (SocketView {
                        decoded: final(self)@.decoded,
                        terminal_error: None,
                        ..before
                    })
                } else {
                    input is None && final(self)@ == before
                }
            }),
    {
        let ghost before = self@;
        let heeds = !self.readiness_drain_yielded || has_actionable_readiness(
            &self.decoded,
            self.pending_terminal_error.is_some(),
            self.stalled_write_error.is_some(),
        );
        if !heeds {
            return None;
        }
        let terminal = self.pending_terminal_error.take();
        let stalled = self.stalled_copy();
        let input = take_prioritized_readiness(&mut self.decoded, terminal, stalled);
        assert(self@ =~= (SocketView {
            decoded: self@.decoded,
            terminal_error: None,
            ..before
        }));
        input
    }

    /// What a round that gave its reader nothing to heed amounts to: a failure of the round itself,
    /// unless it was cut short.
    pub fn readiness_end(&self, io: Option<Result<(), ProviderError>>) -> (input: Option<
        ReadinessInput<T>,
    >)
        ensures
            input == (match io {
                Some(Err(error)) => if self@.yielded {
                    None
                } else {
                    Some(ReadinessInput::<T>::Error(error))
                },
                _ => None,
            }),
    {
        if self.readiness_drain_yielded {
            return None;
        }
        match io {
            Some(Err(error)) => Some(ReadinessInput::Error(error)),
            _ => None,
        }
    }

    /// Begins a round on a socket that is not yet subscribed.
    pub fn begin_readiness(&mut self)
        ensures
            final(self)@ == (SocketView { yielded: false, ..old(self)@ }),
    {
        self.readiness_drain_yielded = false;
        assert(self@ =~= (SocketView { yielded: false, ..old(self)@ }));
    }
}

/// A socket that has ended is never written to again, and says why.
pub proof fn law_ended_socket_refuses_writes<T>(state: SocketView<T>)
    requires
        state.terminal_io,
    ensures
        state.write_refusal() is Some,
{
}

/// A failure loses no frame that was read: they are all still there, and the error waits behind
/// them.
pub proof fn law_failure_keeps_what_was_read<T>(state: SocketView<T>, error: ProviderError)
    ensures
        state.failing(error).decoded == state.decoded,
        state.decoded.len() > 0 ==> state.failing(error).terminal_error is Some,
        state.failing(error).terminal_io,
        !state.failing(error).writing(),
{
}

/// Whatever the transport answers, the first stalled write stays the reason that a socket gives.
pub proof fn law_stalled_write_is_remembered<T: WsOutcome>(
    state: SocketView<T>,
    run: IoRun,
    event: IoEvent<T>,
    now: MonoInstant,
)
    ensures
        state.polled(run, event, now).0.stalled_error == state.stalled_error,
        state.stalled_error is Some ==> state.polled(run, event, now).0.write_refusal()
            == state.stalled_error,
{
}

/// A message that the transport did not take stands at the head of the queue again.
pub proof fn law_untaken_message_is_not_lost<T: WsOutcome>(
    state: SocketView<T>,
    run: IoRun,
    now: MonoInstant,
    later: MonoInstant,
)
    requires
        state.read_out(run, now).2 == IoRequest::Ready,
    ensures
        state.read_out(run, now).0.polled(
            state.read_out(run, now).1,
            IoEvent::SinkPending,
            later,
        ).0 == state,
{
    let (taken, next, _) = state.read_out(run, now);
    let back = taken.polled(next, IoEvent::SinkPending, later).0;
    assert(back.outbound =~= state.outbound);
    assert(back =~= state);
}

/// What a fault of the transport is told as: a message that is too long as over its budget, with the
/// size that was allowed; what breaks the protocol as that; and the rest by its cause.
pub proof fn law_faults_are_told(context: ErrorContext, max_size: usize)
    ensures
        fault_error(WebSocketFault::MessageTooLong { max_size }, context) == (
        ProviderError::Payload {
            context,
            source: PayloadError::OverBudget { limit_bytes: max_size },
        }),
        fault_error(WebSocketFault::Protocol, context) is Protocol,
        fault_error(WebSocketFault::Utf8, context) is Protocol,
        fault_error(WebSocketFault::AttackAttempt, context) is Protocol,
        fault_error(WebSocketFault::Capacity, context) is Protocol,
        fault_error(WebSocketFault::Closed, context) == (ProviderError::Transport {
            context,
            cause: SanitizedCause::Closed,
        }),
        fault_error(WebSocketFault::Tls, context) == (ProviderError::Transport {
            context,
            cause: SanitizedCause::Tls,
        }),
        fault_error(WebSocketFault::Io, context) == (ProviderError::Transport {
            context,
            cause: SanitizedCause::Io,
        }),
        fault_error(WebSocketFault::Connection, context) == (ProviderError::Transport {
            context,
            cause: SanitizedCause::Connection,
        }),
{
}

/// A deadline is met once the clock has reached it, and none is never met. A socket is silent for too
/// long once its whole patience has passed since the last thing of the provider's came.
pub proof fn law_silence_is_measured<T>(state: SocketView<T>, deadline: MonoInstant, now: MonoInstant)
    ensures
        elapsed(Some(deadline), now) <==> deadline.0 <= now.0,
        !elapsed(None, now),
        state.last_data.0 + crate::clock::duration_nanos(state.config.message_inactivity_timeout)
            <= u64::MAX ==> state.inactivity().0 == state.last_data.0
            + crate::clock::duration_nanos(state.config.message_inactivity_timeout),
{
}

/// A write is given its time from when it began, and no more however often it is tried: a deadline
/// that is set stays.
pub proof fn law_writes_have_their_time<T>(state: SocketView<T>, now: MonoInstant, later: MonoInstant)
    ensures
        state.stall is Some ==> state.timed(now) == state,
        state.stall is None && now.0 + crate::clock::duration_nanos(
            state.config.stalled_write_timeout,
        ) <= u64::MAX ==> (state.timed(now).stall matches Some(deadline) && deadline.0 == now.0
            + crate::clock::duration_nanos(state.config.stalled_write_timeout)),
        state.timed(now).timed(later) == state.timed(now),
        state.timed(now).decoded == state.decoded && state.timed(now).outbound == state.outbound
            && state.timed(now).flush_pending == state.flush_pending,
{
}

/// A stalled write is given up with all that was yet to be written; what was read stays, and so does
/// the first reason.
pub proof fn law_stalled_writes_are_given_up<T>(state: SocketView<T>, error: ProviderError)
    ensures
        !state.stalled(error).writing(),
        state.stalled(error).stall is None,
        state.stalled(error).decoded == state.decoded,
        state.stalled(error).terminal_io == state.terminal_io,
        state.stalled_error is None ==> state.stalled(error).stalled_error == Some(error),
        state.stalled_error is Some ==> state.stalled(error).stalled_error == state.stalled_error,
{
}

/// A failure is told to whoever writes at once, and to whoever reads once nothing is left to read; a
/// stalled write is told in place of what follows from it; and the first failure that waits is the
/// one that is told.
pub proof fn law_failures_are_told<T>(state: SocketView<T>, error: ProviderError)
    ensures
        ({
            let told = match state.stalled_error {
                Some(stalled) => stalled,
                None => error,
            };
            &&& state.failure(error, true) == Err::<(), ProviderError>(told)
            &&& state.decoded.len() == 0 ==> state.failure(error, false) == Err::<
                (),
                ProviderError,
            >(told)
            &&& state.decoded.len() > 0 ==> state.failure(error, false) == Ok::<(), ProviderError>(
                (),
            )
            &&& state.decoded.len() > 0 && state.terminal_error is None ==> state.failing(
                error,
            ).terminal_error == Some(told)
            &&& state.terminal_error is Some ==> state.failing(error).terminal_error
                == state.terminal_error
            &&& !state.failing(error).peer_close
        }),
{
    assert(state.failure(error, false) is Ok ==> state.failure(error, false)->Ok_0 == ());
}

/// A socket takes what is to be written exactly as long as no write has stalled and it has not ended;
/// a stalled write is the reason that is given before any other.
pub proof fn law_writes_are_refused<T>(state: SocketView<T>)
    ensures
        state.write_refusal() is None <==> state.stalled_error is None && !state.terminal_io,
        state.stalled_error is Some ==> state.write_refusal() == state.stalled_error,
        state.stalled_error is None && state.terminal_io && state.terminal_error is Some
            ==> state.write_refusal() == state.terminal_error,
        state.stalled_error is None && state.terminal_io && state.terminal_error is None ==> (
        state.write_refusal() matches Some(ProviderError::Transport { cause, .. }) && cause
            == SanitizedCause::Closed),
        state.writing() <==> state.outbound.len() > 0 || state.flush_pending,
{
}

/// What a message that comes in does to a subscribed socket: its frames are put behind those that are
/// unread, in order, and none is lost; only something of the provider's counts as a sign of life; an
/// answer may have to be written out; and a close leaves nothing else to be written.
pub proof fn law_messages_are_taken_in<T: WsOutcome>(
    state: SocketView<T>,
    run: IoRun,
    is_data: bool,
    frames: Seq<DecodedFrame<T>>,
    now: MonoInstant,
)
    ensures
        ({
            let after = state.received(run, is_data, frames, now);
            let closes = exists|i: int|
                0 <= i < (state.decoded + frames).len() && (#[trigger] (state.decoded
                    + frames)[i]) is Close;
            &&& run.mode == ReadinessMode::Ordinary ==> after.decoded == state.decoded + frames
            &&& is_data ==> after.last_data == now
            &&& !is_data ==> after.last_data == state.last_data
            &&& after.flush_pending
            &&& closes ==> after.outbound.len() == 0 && after.peer_close
            &&& !closes ==> after.outbound == state.outbound && after.peer_close == state.peer_close
            &&& after.terminal_io == state.terminal_io && after.terminal_error
                == state.terminal_error
        }),
{
}

/// Before it is subscribed a socket keeps one frame of all that it reads: the one that is to be
/// heeded first.
pub proof fn law_unsubscribed_sockets_keep_one_frame<T: WsOutcome>(
    state: SocketView<T>,
    run: IoRun,
    is_data: bool,
    frames: Seq<DecodedFrame<T>>,
    now: MonoInstant,
    place: int,
)
    requires
        run.mode == ReadinessMode::PreSubscription,
        crate::provider::runtime::frame::foremost(state.decoded + frames, place),
    ensures
        state.received(run, is_data, frames, now).decoded == seq![(state.decoded + frames)[place]],
{
    let all = state.decoded + frames;
    let other = choose|other: int| #[trigger] crate::provider::runtime::frame::foremost(all, other);
    crate::provider::runtime::frame::law_foremost_is_single(all, place, other);
}

/// How far a round reads: a socket that is not subscribed reads two hundred and fifty-six frames
/// before it lets others run; one that is, until it holds more than sixty-two that are unread.
pub proof fn law_rounds_are_bounded<T: WsOutcome>(state: SocketView<T>, run: IoRun, now: MonoInstant)
    ensures
        run.mode == ReadinessMode::PreSubscription && run.readiness_frames == 256 ==> state.reading(
            run,
            now,
        ).2 is Yield && state.reading(run, now).0.yielded,
        run.mode == ReadinessMode::PreSubscription && run.readiness_frames < 256 ==> state.reading(
            run,
            now,
        ) == (state, run, IoRequest::Receive),
        run.mode == ReadinessMode::Ordinary && state.decoded.len() <= 62 ==> state.reading(run, now)
            == (state, run, IoRequest::Receive),
        run.mode == ReadinessMode::Ordinary && state.decoded.len() > 62 ==> !(state.reading(
            run,
            now,
        ).2 is Receive),
{
}

/// What follows once nothing more is read: a socket that was silent for too long and has nothing
/// unread is given up; otherwise the first message that is queued is offered to the transport, unless
/// a write has stalled or the peer has closed; and what was written is written out.
pub proof fn law_writing_follows_reading<T: WsOutcome>(
    state: SocketView<T>,
    run: IoRun,
    now: MonoInstant,
)
    ensures
        ({
            let (after, next, request) = state.polled(run, IoEvent::ReceivePending, now);
            let silent = state.decoded.len() == 0 && run.inactivity_deadline.0 <= now.0;
            let writes = state.stalled_error is None && !state.peer_close && state.outbound.len()
                > 0;
            &&& silent ==> request is Done && after.terminal_io
            &&& silent && state.stalled_error is None ==> (request matches IoRequest::Done(
                Err(ProviderError::Timeout { kind, .. }),
            ) && kind == TimeoutKind::WebSocketInactivity)
            &&& !silent && writes ==> request is Ready && next.message == Some(state.outbound[0])
                && after.outbound == state.outbound.skip(1)
            &&& !silent && !writes ==> request is Flush && after == state && next == run
        }),
{
}

/// How a message goes out: a transport that is ready is handed it, and what was handed over is
/// written out; a round ends once that is done and something came of it, or something is unread. The
/// deadline of a write stands until nothing is queued.
pub proof fn law_messages_go_out<T: WsOutcome>(
    state: SocketView<T>,
    run: IoRun,
    message: OutboundMessage,
    now: MonoInstant,
)
    ensures
        run.message == Some(message) ==> state.polled(run, IoEvent::SinkReady, now).2
            == IoRequest::Send(message) && state.polled(run, IoEvent::SinkReady, now).0 == state,
        state.polled(run, IoEvent::Sent, now).2 is Flush,
        state.polled(run, IoEvent::Sent, now).0.flush_pending,
        state.polled(run, IoEvent::Sent, now).1.made_progress,
        state.polled(run, IoEvent::Sent, now).0.outbound == state.outbound,
        !state.peer_close ==> {
            let (after, next, request) = state.polled(run, IoEvent::Flushed, now);
            &&& !after.flush_pending
            &&& after.outbound == state.outbound && after.decoded == state.decoded
            &&& state.outbound.len() == 0 ==> after.stall is None
            &&& state.outbound.len() > 0 ==> after.stall == state.stall
            &&& request == (if run.made_progress || state.decoded.len() > 0 {
                IoRequest::Done(Ok(()))
            } else {
                IoRequest::Pending
            })
        },
        state.polled(run, IoEvent::FlushPending, now).0 == state,
        run.made_progress ==> state.polled(run, IoEvent::FlushPending, now).2 == IoRequest::Done(
            Ok(()),
        ),
        !run.made_progress ==> state.polled(run, IoEvent::FlushPending, now).2 is Pending,
{
    if !state.peer_close {
        let after = state.polled(run, IoEvent::Flushed, now).0;
        assert(after.outbound == state.outbound);
    }
}

/// A connection that the peer has closed ends once the answer is written out, as closed; one that
/// ends by itself, or by a fault of the transport in reading, sending or writing out, ends with it.
pub proof fn law_rounds_break<T: WsOutcome>(
    state: SocketView<T>,
    run: IoRun,
    fault: WebSocketFault,
    now: MonoInstant,
)
    requires
        state.stalled_error is None,
        state.decoded.len() == 0,
    ensures
        state.peer_close ==> (state.polled(run, IoEvent::Flushed, now).2 matches IoRequest::Done(
            Err(ProviderError::Transport { cause, .. }),
        ) && cause == SanitizedCause::Closed),
        state.polled(run, IoEvent::ReceiveEnded, now).2 matches IoRequest::Done(
            Err(ProviderError::Transport { cause, .. }),
        ) && cause == SanitizedCause::Closed,
        state.polled(run, IoEvent::ReceiveFault(fault), now).2 == IoRequest::Done(
            Err(fault_error(fault, state.context)),
        ),
        state.polled(run, IoEvent::SendFault(fault), now).2 == IoRequest::Done(
            Err(fault_error(fault, state.context)),
        ),
        state.polled(run, IoEvent::FlushFault(fault), now).2 == IoRequest::Done(
            Err(fault_error(fault, state.context)),
        ),
        state.polled(run, IoEvent::ReceiveFault(fault), now).0.terminal_io,
{
}

/// What is no data does not keep a silent socket alive; whatever else comes in is taken, and the
/// round goes on.
pub proof fn law_late_control_frames_do_not_help<T: WsOutcome>(
    state: SocketView<T>,
    run: IoRun,
    is_data: bool,
    frames: VecDeque<DecodedFrame<T>>,
    now: MonoInstant,
)
    ensures
        ({
            let (after, next, request) = state.polled(
                run,
                IoEvent::Received { is_data, frames },
                now,
            );
            let late = !is_data && run.inactivity_deadline.0 <= now.0;
            &&& late ==> request is Done && after.terminal_io && after.decoded == state.decoded
            &&& !late ==> next.made_progress
            &&& !late && run.mode == ReadinessMode::Ordinary && state.decoded.len() + frames@.len()
                <= 62 ==> request is Receive && after.decoded == state.decoded + frames@
            &&& !late && run.mode == ReadinessMode::PreSubscription && run.readiness_frames < 256
                ==> next.readiness_frames == run.readiness_frames + 1
        }),
{
}

/// A close waits to be delivered until the peer's has been answered and all is flushed; any other
/// frame does not wait. A socket that has ended writes nothing any more, but what was read stays.
pub proof fn law_closes_wait_for_their_answer<T>(state: SocketView<T>, frame: DecodedFrame<T>)
    ensures
        !(frame is Close) ==> state.deliverable(frame),
        frame is Close ==> (state.deliverable(frame) <==> !state.peer_close && !state.flush_pending),
        state.finished().terminal_io,
        !state.finished().writing(),
        state.finished().stall is None,
        state.finished().decoded == state.decoded,
        state.finished().terminal_error == state.terminal_error,
        state.writing() <==> state.outbound.len() > 0 || state.flush_pending,
{
}

/// A message that comes in starts the clock of the answer that it may take to write, unless one runs
/// already or a write has stalled before; in neither case is the clock put back.
pub proof fn law_incoming_messages_start_the_write_clock<T: WsOutcome>(
    state: SocketView<T>,
    run: IoRun,
    is_data: bool,
    frames: Seq<DecodedFrame<T>>,
    now: MonoInstant,
)
    ensures
        ({
            let after = state.received(run, is_data, frames, now);
            &&& state.stall is Some || state.stalled_error is Some ==> after.stall == state.stall
            &&& state.stall is None && state.stalled_error is None ==> (after.stall matches Some(
                deadline,
            ) && deadline.0 >= now.0)
            &&& after.stalled_error == state.stalled_error
        }),
{
}

/// Of the frames before a subscription none is kept where there is none, and else exactly one.
pub proof fn law_kept_frames<T: WsOutcome>(frames: Seq<DecodedFrame<T>>)
    ensures
        frames.len() == 0 ==> kept(frames).len() == 0,
        frames.len() > 0 ==> kept(frames).len() == 1,
        frames.len() == 1 ==> kept(frames) == frames,
{
    if frames.len() == 1 {
        assert(crate::provider::runtime::frame::foremost(frames, 0));
        let place = choose|place: int|
            #[trigger] crate::provider::runtime::frame::foremost(frames, place);
        assert(crate::provider::runtime::frame::foremost(frames, place));
        assert(place == 0);
    }
}

} // verus!
