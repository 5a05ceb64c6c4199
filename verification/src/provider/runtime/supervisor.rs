//! A live feed over all its connections: when to connect, when to wait, when to stop.
use std::time::Duration;

use vstd::prelude::*;

use crate::clock::checked_deadline;
use crate::error::ProviderError;
use crate::event::MarketEvent;
use crate::model::{ConnectionStatus, GapGeneration, MonoInstant, RateGateState};
use crate::provider::runtime::config::{ConnectionRotation, ProcessBlockPolicy};
use crate::provider::runtime::emitter::live_channel_closed;
use crate::provider::runtime::generation::GenerationOutcome;
use crate::provider::runtime::live::{
    is_process_block_error, is_terminal_live_error, process_block_error, ActiveRotation, LiveMarket,
};
use crate::provider::{AcceptedWatermarkClosed, RateGateClosed, ReconcileAck, ReconcileAckClosed};

verus! {

/// What a feed does that is about to stop or to go on.
#[derive(Debug, PartialEq)]
pub enum Course {
    /// Close the queue, and end well.
    Shutdown,
    /// Tell the consumer that the process is blocked, and end with the error.
    Block(ProviderError),
    /// Tell the consumer of the error, and end with it.
    Announce(ProviderError),
    /// End with the error.
    Fail(ProviderError),
    /// Tell the consumer that a connection is being made, and make it.
    Connect(GapGeneration),
    /// Run the generation on the connection that was made.
    Run(ActiveRotation),
    /// Tell the consumer of the error, and try again after a while.
    Recover(ProviderError),
    /// Go on waiting.
    Wait,
    /// The wait is over.
    Resume,
}

/// What happens while a connection is being made.
#[derive(Debug, PartialEq)]
pub enum ConnectEvent {
    Cancelled,
    Watermark(Result<Option<i64>, AcceptedWatermarkClosed>),
    Ack(Result<ReconcileAck, ReconcileAckClosed>),
    Gate(Result<RateGateState, RateGateClosed>),
    Connected(Result<(), ProviderError>),
}

/// What happens while a feed waits to try again.
#[derive(Debug, PartialEq)]
pub enum BackoffEvent {
    Cancelled,
    Watermark(Result<Option<i64>, AcceptedWatermarkClosed>),
    Ack(Result<ReconcileAck, ReconcileAckClosed>),
    QueueClosed,
    Gate(Result<RateGateState, RateGateClosed>),
    /// The wait is over; the limits as they now are.
    DeadlineElapsed(Result<RateGateState, RateGateClosed>),
    ReserveCleared,
}

/// How many seconds a feed waits after so many failures in a row.
pub open spec fn backoff_seconds(failures: int) -> int {
    if failures == 0 {
        1
    } else if failures == 1 {
        2
    } else if failures == 2 {
        4
    } else if failures == 3 {
        8
    } else if failures == 4 {
        16
    } else {
        30
    }
}

fn backoff_delay(failures: usize) -> (delay: Duration)
    ensures
        crate::clock::duration_nanos(delay) == backoff_seconds(failures as int) * 1_000_000_000,
{
    let millis: u64 = match failures {
        0 => 1_000,
        1 => 2_000,
        2 => 4_000,
        3 => 8_000,
        4 => 16_000,
        _ => 30_000,
    };
    Duration::from_millis(millis)
}

/// A wait before the next attempt.
#[derive(Clone, Copy, Debug, PartialEq, Eq, Structural)]
pub struct Backoff {
    pub deadline: MonoInstant,
    pub deadline_elapsed: bool,
}

/// What a feed listens to while it waits.
#[derive(Clone, Copy, Debug, PartialEq, Eq, Structural)]
pub struct BackoffListening {
    /// The end of the wait.
    pub deadline: bool,
    /// That the queue's reserve is free.
    pub reserve: bool,
}

/// What the consumer is told before a wait, and how.
#[derive(Debug, PartialEq)]
pub struct Recovery {
    pub backoff: Backoff,
    /// What went wrong.
    pub recoverable: MarketEvent,
    /// That the feed waits.
    pub status: MarketEvent,
    /// Whether the two go into the queue's reserve, because the queue could not take more.
    pub emergency: bool,
}

/// The terms of a feed, and how far it has come.
pub struct Supervisor {
    pub market: LiveMarket,
    pub process_block: ProcessBlockPolicy,
    pub rotation: ConnectionRotation,
    pub generation_number: u64,
    pub backoff_index: usize,
}

pub open spec fn gate_blocks(gate: Result<RateGateState, RateGateClosed>) -> bool {
    gate matches Ok(state) && state.blocked()
}

fn is_gate_blocking(gate: &Result<RateGateState, RateGateClosed>) -> (blocks: bool)
    ensures
        blocks == gate_blocks(*gate),
{
    match gate {
        Ok(state) => state.is_process_blocked(),
        Err(_) => false,
    }
}

impl Supervisor {
    pub fn new(
        market: LiveMarket,
        process_block: ProcessBlockPolicy,
        rotation: ConnectionRotation,
    ) -> (supervisor: Supervisor)
        ensures
            supervisor.market == market,
            supervisor.process_block == process_block,
            supervisor.rotation == rotation,
            supervisor.generation_number == 0,
            supervisor.backoff_index == 0,
    {
        Supervisor { market, process_block, rotation, generation_number: 0, backoff_index: 0 }
    }

    /// What an attempt begins with, and the feed from then on.
    pub open spec fn begun(self, cancelled: bool, gate: Result<RateGateState, RateGateClosed>) -> (
        Supervisor,
        Course,
    ) {
        if cancelled {
            (self, Course::Shutdown)
        } else if gate_blocks(gate) {
            (self, Course::Block(crate::provider::runtime::live::block_error(self.process_block)))
        } else if self.generation_number == u64::MAX {
            (self, Course::Fail(ProviderError::Invariant("gap generation overflow")))
        } else {
            let number = (self.generation_number + 1) as u64;
            (
                Supervisor { generation_number: number, ..self },
                Course::Connect(GapGeneration(number)),
            )
        }
    }

    /// Before each attempt: a cancelled feed closes, a blocked one stops, any other connects under
    /// the next number.
    pub fn begin(&mut self, cancelled: bool, gate: Result<RateGateState, RateGateClosed>) -> (
    course: Course)
        ensures
            (*final(self), course) == old(self).begun(cancelled, gate),
    {
        if cancelled {
            return Course::Shutdown;
        }
        if is_gate_blocking(&gate) {
            return Course::Block(process_block_error(self.process_block));
        }
        match self.generation_number.checked_add(1) {
            None => Course::Fail(ProviderError::Invariant("gap generation overflow")),
            Some(number) => {
                self.generation_number = number;
                Course::Connect(GapGeneration(number))
            },
        }
    }

    /// What a failed attempt to connect leads to.
    pub open spec fn connect_failed(error: ProviderError) -> Course {
        if crate::provider::runtime::live::terminal(error) {
            Course::Announce(error)
        } else {
            Course::Recover(error)
        }
    }

    /// What an event leads to while a connection is being made.
    pub open spec fn connecting(self, event: ConnectEvent, now: MonoInstant) -> Course {
        match event {
            ConnectEvent::Cancelled => Course::Shutdown,
            ConnectEvent::Watermark(Err(_)) => Supervisor::connect_failed(
                self.market.closed_error(),
            ),
            ConnectEvent::Watermark(Ok(_)) => Course::Wait,
            ConnectEvent::Ack(Err(_)) => Supervisor::connect_failed(self.market.closed_error()),
            ConnectEvent::Ack(Ok(_)) => Course::Wait,
            ConnectEvent::Gate(Err(_)) => Supervisor::connect_failed(
                ProviderError::Invariant("rate gate closed"),
            ),
            ConnectEvent::Gate(Ok(state)) => if state.blocked() {
                Course::Block(crate::provider::runtime::live::block_error(self.process_block))
            } else {
                Course::Wait
            },
            ConnectEvent::Connected(Err(error)) => Supervisor::connect_failed(error),
            ConnectEvent::Connected(Ok(())) => match ActiveRotation::starting(
                self.rotation,
                now,
            ) {
                Ok(rotation) => Course::Run(rotation),
                Err(error) => Course::Fail(error),
            },
        }
    }

    fn after_failed_connect(error: ProviderError) -> (course: Course)
        ensures
            course == Supervisor::connect_failed(error),
    {
        if is_terminal_live_error(&error) {
            Course::Announce(error)
        } else {
            Course::Recover(error)
        }
    }

    pub fn on_connecting(&self, event: ConnectEvent, now: MonoInstant) -> (course: Course)
        ensures
            course == self.connecting(event, now),
    {
        match event {
            ConnectEvent::Cancelled => Course::Shutdown,
            ConnectEvent::Watermark(Err(_)) => Supervisor::after_failed_connect(
                self.market.control_channel_closed(),
            ),
            ConnectEvent::Watermark(Ok(_)) => Course::Wait,
            ConnectEvent::Ack(Err(_)) => Supervisor::after_failed_connect(
                self.market.control_channel_closed(),
            ),
            ConnectEvent::Ack(Ok(_)) => Course::Wait,
            ConnectEvent::Gate(Err(_)) => Supervisor::after_failed_connect(
                ProviderError::Invariant("rate gate closed"),
            ),
            ConnectEvent::Gate(Ok(state)) => if state.is_process_blocked() {
                Course::Block(process_block_error(self.process_block))
            } else {
                Course::Wait
            },
            ConnectEvent::Connected(Err(error)) => Supervisor::after_failed_connect(error),
            ConnectEvent::Connected(Ok(())) => match ActiveRotation::new(self.rotation, now) {
                Ok(rotation) => Course::Run(rotation),
                Err(error) => Course::Fail(error),
            },
        }
    }

    /// What a generation's end leads to.
    pub open spec fn concluded(self, outcome: Result<GenerationOutcome, ProviderError>) -> Course {
        match outcome {
            Ok(GenerationOutcome::Cancelled) => Course::Shutdown,
            Ok(GenerationOutcome::AcknowledgedReconnect(error)) => Course::Recover(error),
            Ok(GenerationOutcome::Reconnect(error)) => Course::Recover(error),
            Err(error) => if crate::provider::runtime::live::says_blocked(
                error,
                self.process_block,
            ) {
                Course::Block(error)
            } else if crate::provider::runtime::live::terminal(error) {
                Course::Announce(error)
            } else {
                Course::Recover(error)
            },
        }
    }

    /// The feed after a generation's end.
    pub open spec fn settled(
        self,
        outcome: Result<GenerationOutcome, ProviderError>,
        connected_delivered: bool,
    ) -> Supervisor {
        if connected_delivered && outcome matches Ok(GenerationOutcome::AcknowledgedReconnect(_)) {
            Supervisor { backoff_index: 0, ..self }
        } else {
            self
        }
    }

    /// After a generation: one of whose connection the consumer was told starts the waits anew.
    pub fn conclude(
        &mut self,
        outcome: Result<GenerationOutcome, ProviderError>,
        connected_delivered: bool,
    ) -> (course: Course)
        ensures
            course == old(self).concluded(outcome),
            *final(self) == old(self).settled(outcome, connected_delivered),
    {
        match outcome {
            Ok(GenerationOutcome::Cancelled) => Course::Shutdown,
            Ok(GenerationOutcome::AcknowledgedReconnect(error)) => {
                if connected_delivered {
                    self.backoff_index = 0;
                }
                Course::Recover(error)
            },
            Ok(GenerationOutcome::Reconnect(error)) => Course::Recover(error),
            Err(error) => {
                if is_process_block_error(&error, self.process_block) {
                    return Course::Block(error);
                }
                if is_terminal_live_error(&error) {
                    return Course::Announce(error);
                }
                Course::Recover(error)
            },
        }
    }

    /// Whether a generation's events are void once it is over.
    pub fn invalidates(outcome: &Result<GenerationOutcome, ProviderError>) -> (void: bool)
        ensures
            void == !(*outcome matches Ok(GenerationOutcome::Cancelled)),
    {
        match outcome {
            Ok(GenerationOutcome::Cancelled) => false,
            _ => true,
        }
    }

    /// The instant until which a gate is closed.
    pub open spec fn gate_deadline(state: RateGateState) -> Option<MonoInstant> {
        match state {
            RateGateState::TimedUntil(deadline) => Some(deadline),
            _ => None,
        }
    }

    /// When a wait that begins now is over: after the next delay, and not before a limit in `state`.
    pub open spec fn wait_until(self, now: MonoInstant, state: RateGateState) -> Option<
        MonoInstant,
    > {
        match crate::clock::deadline_after(
            now,
            (backoff_seconds(self.backoff_index as int) * 1_000_000_000) as nat,
        ) {
            None => None,
            Some(backoff) => match Supervisor::gate_deadline(state) {
                Some(deadline) => Some(deadline.latest(backoff)),
                None => Some(backoff),
            },
        }
    }

    pub open spec fn recovery(
        self,
        now: MonoInstant,
        state: RateGateState,
        generation: Option<GapGeneration>,
        error: ProviderError,
        deadline: MonoInstant,
    ) -> Recovery {
        let saturated = error is QueueSaturated;
        let named = if saturated {
            None
        } else {
            generation
        };
        Recovery {
            backoff: Backoff { deadline, deadline_elapsed: false },
            recoverable: MarketEvent::RecoverableError {
                generation: named,
                error,
                rate_gate_deadline: Supervisor::gate_deadline(state),
            },
            status: MarketEvent::Status { generation: named, status: ConnectionStatus::Backoff },
            emergency: saturated,
        }
    }

    /// The wait that begins after an error, or what comes in its place, and the feed from then on.
    pub open spec fn recovered(
        self,
        now: MonoInstant,
        gate: Result<RateGateState, RateGateClosed>,
        generation: Option<GapGeneration>,
        error: ProviderError,
    ) -> (Supervisor, Result<Recovery, Course>) {
        match gate {
            Err(_) => (
                self,
                Err(Course::Announce(ProviderError::Invariant("rate gate closed"))),
            ),
            Ok(state) => if state.blocked() {
                (
                    self,
                    Err(
                        Course::Block(
                            crate::provider::runtime::live::block_error(self.process_block),
                        ),
                    ),
                )
            } else {
                let failures = if self.backoff_index == usize::MAX {
                    usize::MAX
                } else {
                    (self.backoff_index + 1) as usize
                };
                (
                    Supervisor { backoff_index: failures, ..self },
                    match self.wait_until(now, state) {
                        Some(deadline) => Ok(
                            self.recovery(now, state, generation, error, deadline),
                        ),
                        None => Err(
                            Course::Fail(ProviderError::Invariant("backoff deadline overflow")),
                        ),
                    },
                )
            },
        }
    }

    /// Begins to wait after an error.
    pub fn recover(
        &mut self,
        now: MonoInstant,
        gate: Result<RateGateState, RateGateClosed>,
        generation: Option<GapGeneration>,
        error: ProviderError,
    ) -> (recovery: Result<Recovery, Course>)
        ensures
            (*final(self), recovery) == old(self).recovered(now, gate, generation, error),
    {
        let state = match gate {
            Ok(state) => state,
            Err(_) => {
                return Err(Course::Announce(ProviderError::Invariant("rate gate closed")));
            },
        };
        if state.is_process_blocked() {
            return Err(Course::Block(process_block_error(self.process_block)));
        }
        let gate_deadline = match state {
            RateGateState::TimedUntil(deadline) => Some(deadline),
            _ => None,
        };
        let delay = backoff_delay(self.backoff_index);
        self.backoff_index = self.backoff_index.saturating_add(1);
        let backoff = match checked_deadline(now, delay) {
            Ok(backoff) => backoff,
            Err(_) => {
                return Err(Course::Fail(ProviderError::Invariant("backoff deadline overflow")));
            },
        };
        let deadline = match gate_deadline {
            Some(value) => value.max_of(backoff),
            None => backoff,
        };
        let emergency = match &error {
            ProviderError::QueueSaturated => true,
            _ => false,
        };
        let named = if emergency {
            None
        } else {
            generation
        };
        Ok(
            Recovery {
                backoff: Backoff { deadline, deadline_elapsed: false },
                recoverable: MarketEvent::RecoverableError {
                    generation: named,
                    error,
                    rate_gate_deadline: gate_deadline,
                },
                status: MarketEvent::Status { generation: named, status: ConnectionStatus::Backoff },
                emergency,
            },
        )
    }

    /// What an event makes of a wait, and what it leads to.
    pub open spec fn waited(self, backoff: Backoff, event: BackoffEvent, now: MonoInstant) -> (
        Backoff,
        Course,
    ) {
        let closed = ProviderError::Invariant("rate gate closed");
        let blocked = Course::Block(
            crate::provider::runtime::live::block_error(self.process_block),
        );
        match event {
            BackoffEvent::Cancelled => (backoff, Course::Shutdown),
            BackoffEvent::Watermark(Err(_)) => (
                backoff,
                Course::Announce(self.market.closed_error()),
            ),
            BackoffEvent::Ack(Err(_)) => (backoff, Course::Announce(self.market.closed_error())),
            BackoffEvent::Watermark(Ok(_)) => (backoff, Course::Wait),
            BackoffEvent::Ack(Ok(_)) => (backoff, Course::Wait),
            BackoffEvent::QueueClosed => (
                backoff,
                Course::Fail(crate::provider::runtime::emitter::channel_closed()),
            ),
            BackoffEvent::Gate(Err(_)) => (backoff, Course::Announce(closed)),
            BackoffEvent::Gate(Ok(state)) => match state {
                RateGateState::ProcessBlocked(_) => (backoff, blocked),
                RateGateState::TimedUntil(value) => {
                    let deadline = backoff.deadline.latest(value);
                    (Backoff { deadline, deadline_elapsed: now.0 >= deadline.0 }, Course::Wait)
                },
                RateGateState::Open => (backoff, Course::Wait),
            },
            BackoffEvent::DeadlineElapsed(Err(_)) => (backoff, Course::Announce(closed)),
            BackoffEvent::DeadlineElapsed(Ok(state)) => match state {
                RateGateState::ProcessBlocked(_) => (backoff, blocked),
                RateGateState::TimedUntil(value) => if value.0 > backoff.deadline.0 {
                    (Backoff { deadline: value, ..backoff }, Course::Wait)
                } else {
                    (Backoff { deadline_elapsed: true, ..backoff }, Course::Wait)
                },
                RateGateState::Open => (
                    Backoff { deadline_elapsed: true, ..backoff },
                    Course::Wait,
                ),
            },
            BackoffEvent::ReserveCleared => (backoff, Course::Wait),
        }
    }

    pub fn on_backoff(&self, backoff: Backoff, event: BackoffEvent, now: MonoInstant) -> (step: (
        Backoff,
        Course,
    ))
        ensures
            step == self.waited(backoff, event, now),
    {
        match event {
            BackoffEvent::Cancelled => (backoff, Course::Shutdown),
            BackoffEvent::Watermark(Err(_)) => (
                backoff,
                Course::Announce(self.market.control_channel_closed()),
            ),
            BackoffEvent::Ack(Err(_)) => (
                backoff,
                Course::Announce(self.market.control_channel_closed()),
            ),
            BackoffEvent::Watermark(Ok(_)) => (backoff, Course::Wait),
            BackoffEvent::Ack(Ok(_)) => (backoff, Course::Wait),
            BackoffEvent::QueueClosed => (backoff, Course::Fail(live_channel_closed())),
            BackoffEvent::Gate(Err(_)) => (
                backoff,
                Course::Announce(ProviderError::Invariant("rate gate closed")),
            ),
            BackoffEvent::Gate(Ok(state)) => match state {
                RateGateState::ProcessBlocked(_) => (
                    backoff,
                    Course::Block(process_block_error(self.process_block)),
                ),
                RateGateState::TimedUntil(value) => {
                    let deadline = backoff.deadline.max_of(value);
                    (Backoff { deadline, deadline_elapsed: now.0 >= deadline.0 }, Course::Wait)
                },
                RateGateState::Open => (backoff, Course::Wait),
            },
            BackoffEvent::DeadlineElapsed(Err(_)) => (
                backoff,
                Course::Announce(ProviderError::Invariant("rate gate closed")),
            ),
            BackoffEvent::DeadlineElapsed(Ok(state)) => match state {
                RateGateState::ProcessBlocked(_) => (
                    backoff,
                    Course::Block(process_block_error(self.process_block)),
                ),
                RateGateState::TimedUntil(value) => if value.0 > backoff.deadline.0 {
                    (
                        Backoff {
                            deadline: value,
                            deadline_elapsed: backoff.deadline_elapsed,
                        },
                        Course::Wait,
                    )
                } else {
                    (
                        Backoff { deadline: backoff.deadline, deadline_elapsed: true },
                        Course::Wait,
                    )
                },
                RateGateState::Open => (
                    Backoff { deadline: backoff.deadline, deadline_elapsed: true },
                    Course::Wait,
                ),
            },
            BackoffEvent::ReserveCleared => (backoff, Course::Wait),
        }
    }

    /// Before a feed waits on: the wait is over once the deadline has passed and, where the queue's
    /// reserve was used, once it is free again.
    pub fn before_wait(backoff: Backoff, emergency: bool, reserve_is_empty: bool) -> (course: Course)
        ensures
            course == (if backoff.deadline_elapsed && (emergency ==> reserve_is_empty) {
                Course::Resume
            } else {
                Course::Wait
            }),
    {
        if backoff.deadline_elapsed && (!emergency || reserve_is_empty) {
            Course::Resume
        } else {
            Course::Wait
        }
    }

    /// What a feed listens to while it waits, besides what it always does.
    pub fn listens(backoff: Backoff, emergency: bool, reserve_is_empty: bool) -> (listens:
        BackoffListening)
        ensures
            listens.deadline == !backoff.deadline_elapsed,
            listens.reserve == (emergency && !reserve_is_empty),
    {
        BackoffListening {
            deadline: !backoff.deadline_elapsed,
            reserve: emergency && !reserve_is_empty,
        }
    }

    /// Whether an attempt that ends so before it had a connection makes its generation void.
    pub fn voids_attempt(course: &Course) -> (void: bool)
        ensures
            void == (*course is Announce || *course is Recover),
    {
        match course {
            Course::Announce(_) => true,
            Course::Recover(_) => true,
            _ => false,
        }
    }

    /// What the consumer is told before a connection is made.
    pub fn connecting_status(generation: GapGeneration) -> (event: MarketEvent)
        ensures
            event == (MarketEvent::Status {
                generation: Some(generation),
                status: ConnectionStatus::Connecting,
            }),
    {
        MarketEvent::Status { generation: Some(generation), status: ConnectionStatus::Connecting }
    }

    /// The pair that a blocked process is told of.
    pub fn block_pair(&self) -> (pair: (MarketEvent, MarketEvent))
        ensures
            pair.0 == (MarketEvent::RecoverableError {
                generation: None,
                error: crate::provider::runtime::live::block_error(self.process_block),
                rate_gate_deadline: None,
            }),
            pair.1 == (MarketEvent::Status {
                generation: None,
                status: ConnectionStatus::Stopped,
            }),
    {
        (
            MarketEvent::RecoverableError {
                generation: None,
                error: process_block_error(self.process_block),
                rate_gate_deadline: None,
            },
            MarketEvent::Status { generation: None, status: ConnectionStatus::Stopped },
        )
    }
}

/// The waits of a feed grow from one second to thirty, and no further.
pub proof fn law_backoff_grows_to_its_cap(failures: int)
    requires
        failures >= 0,
    ensures
        1 <= backoff_seconds(failures) <= backoff_seconds(failures + 1) <= 30,
        failures >= 5 ==> backoff_seconds(failures) == 30,
{
}

/// No wait ends before the rate gate opens, nor before its own delay has passed.
pub proof fn law_wait_outlasts_the_gate(
    supervisor: Supervisor,
    now: MonoInstant,
    state: RateGateState,
    deadline: MonoInstant,
)
    requires
        supervisor.wait_until(now, state) == Some(deadline),
    ensures
        deadline.0 >= now.0 + backoff_seconds(supervisor.backoff_index as int) * 1_000_000_000,
        state matches RateGateState::TimedUntil(gate) ==> deadline.0 >= gate.0,
{
}

/// While a feed waits, its deadline never moves back, and where the wait is found to be over, the
/// gate is open.
pub proof fn law_waiting_never_shortens(
    supervisor: Supervisor,
    backoff: Backoff,
    event: BackoffEvent,
    now: MonoInstant,
)
    ensures
        supervisor.waited(backoff, event, now).0.deadline.0 >= backoff.deadline.0,
        event matches BackoffEvent::DeadlineElapsed(Ok(RateGateState::TimedUntil(gate))) ==> (
        !backoff.deadline_elapsed && supervisor.waited(backoff, event, now).0.deadline_elapsed
            ==> gate.0 <= backoff.deadline.0),
{
}

/// An error that ends the feed is never waited out.
pub proof fn law_terminal_errors_end_the_feed(
    supervisor: Supervisor,
    error: ProviderError,
)
    requires
        crate::provider::runtime::live::terminal(error),
    ensures
        !(Supervisor::connect_failed(error) is Recover),
        !(supervisor.concluded(Err(error)) is Recover),
{
}

/// One attempt of a feed: what stood before it, how the connection went, how the generation on it
/// ended, and what became of the wait after it.
pub struct Attempt {
    pub cancelled: bool,
    pub gate: Result<RateGateState, RateGateClosed>,
    pub connection: ConnectEvent,
    pub connected_at: MonoInstant,
    pub outcome: Result<GenerationOutcome, ProviderError>,
    pub delivered: bool,
    pub failed_at: MonoInstant,
    pub failed_gate: Result<RateGateState, RateGateClosed>,
    pub waited_out: bool,
}

impl Supervisor {
    /// Whether an attempt gets as far as a generation of its own.
    pub open spec fn runs(self, attempt: Attempt) -> bool {
        let (feed, course) = self.begun(attempt.cancelled, attempt.gate);
        course is Connect && feed.connecting(attempt.connection, attempt.connected_at) is Run
    }

    /// What an attempt leads to.
    pub open spec fn attempted(self, attempt: Attempt) -> Course {
        let (feed, course) = self.begun(attempt.cancelled, attempt.gate);
        if !(course is Connect) {
            course
        } else if self.runs(attempt) {
            feed.concluded(attempt.outcome)
        } else {
            feed.connecting(attempt.connection, attempt.connected_at)
        }
    }

    /// The feed after an attempt, where it goes on to another.
    pub open spec fn after(self, attempt: Attempt) -> Option<Supervisor> {
        let (feed, course) = self.begun(attempt.cancelled, attempt.gate);
        let settled = if self.runs(attempt) {
            feed.settled(attempt.outcome, attempt.delivered)
        } else {
            feed
        };
        match self.attempted(attempt) {
            Course::Recover(error) => {
                let (next, recovery) = settled.recovered(
                    attempt.failed_at,
                    attempt.failed_gate,
                    Some(course->Connect_0),
                    error,
                );
                if recovery is Ok && attempt.waited_out {
                    Some(next)
                } else {
                    None
                }
            },
            _ => None,
        }
    }

    /// The feed after attempts, where it goes on.
    pub open spec fn after_all(self, attempts: Seq<Attempt>) -> Option<Supervisor>
        decreases attempts.len(),
    {
        if attempts.len() == 0 {
            Some(self)
        } else {
            match self.after_all(attempts.drop_last()) {
                Some(feed) => feed.after(attempts.last()),
                None => None,
            }
        }
    }
}

proof fn lemma_attempts_count(first: Supervisor, attempts: Seq<Attempt>)
    ensures
        first.after_all(attempts) matches Some(feed) ==> feed.generation_number
            == first.generation_number + attempts.len(),
    decreases attempts.len(),
{
    if attempts.len() > 0 {
        lemma_attempts_count(first, attempts.drop_last());
    }
}

/// The attempts of a feed are numbered from one, without a gap: the one after so many others carries
/// the next number.
pub proof fn law_attempts_are_numbered(first: Supervisor, attempts: Seq<Attempt>, next: Attempt)
    requires
        first.generation_number == 0,
    ensures
        first.after_all(attempts) matches Some(feed) ==> (feed.begun(
            next.cancelled,
            next.gate,
        ).1 matches Course::Connect(generation) ==> generation.0 == attempts.len() + 1),
{
    lemma_attempts_count(first, attempts);
}

/// Whether an attempt ends with an error of its connection or of its generation.
pub open spec fn ends_with(feed: Supervisor, attempt: Attempt, error: ProviderError) -> bool {
    attempt.connection == ConnectEvent::Connected(Err(error)) || (feed.runs(attempt)
        && attempt.outcome == Err::<GenerationOutcome, ProviderError>(error))
}

/// Once an attempt has ended with an error that ends the feed, there is no further attempt.
pub proof fn law_no_attempt_follows_a_terminal_error(
    first: Supervisor,
    attempts: Seq<Attempt>,
    place: int,
    error: ProviderError,
)
    requires
        0 <= place < attempts.len(),
        crate::provider::runtime::live::terminal(error),
        first.after_all(attempts.take(place)) matches Some(feed) ==> ends_with(
            feed,
            attempts[place],
            error,
        ),
    ensures
        first.after_all(attempts) is None,
    decreases attempts.len(),
{
    if place < attempts.len() - 1 {
        assert(attempts.drop_last().take(place) =~= attempts.take(place));
        law_no_attempt_follows_a_terminal_error(first, attempts.drop_last(), place, error);
    } else {
        assert(attempts.drop_last() =~= attempts.take(place));
    }
}

/// A feed waits a second after a first failure and twice as long after each further one, up to
/// sixteen seconds, and thirty seconds after every one that follows.
pub proof fn law_waits_double(failures: int)
    requires
        failures >= 0,
    ensures
        backoff_seconds(0) == 1,
        failures < 4 ==> backoff_seconds(failures + 1) == 2 * backoff_seconds(failures),
        failures >= 5 ==> backoff_seconds(failures) == 30,
{
}

/// Whether a rate gate is blocked for good.
pub open spec fn is_blocked(gate: Result<RateGateState, RateGateClosed>) -> bool {
    gate matches Ok(RateGateState::ProcessBlocked(_))
}

/// An attempt is made under the next number unless the feed was cancelled, which shuts it down, or
/// the process is blocked, which stops it; it changes nothing else of the feed.
pub proof fn law_attempts_begin(
    feed: Supervisor,
    cancelled: bool,
    gate: Result<RateGateState, RateGateClosed>,
)
    ensures
        ({
            let (after, course) = feed.begun(cancelled, gate);
            &&& cancelled ==> course is Shutdown && after == feed
            &&& !cancelled && is_blocked(gate) ==> course is Block && after == feed
            &&& !cancelled && !is_blocked(gate) && feed.generation_number < u64::MAX ==> (
            course matches Course::Connect(generation) && generation.0 == feed.generation_number
                + 1) && after.generation_number == feed.generation_number + 1
                && after.backoff_index == feed.backoff_index && after.market == feed.market
                && after.rotation == feed.rotation && after.process_block == feed.process_block
        }),
{
}

/// While a connection is being made: one that is made is run on, and one that fails is tried again
/// unless its error ends the feed; a consumer that is gone ends it; a block stops it; and nothing
/// else changes anything.
pub proof fn law_connecting(
    feed: Supervisor,
    error: ProviderError,
    watermark: Option<i64>,
    ack: ReconcileAck,
    state: RateGateState,
    now: MonoInstant,
)
    ensures
        feed.connecting(ConnectEvent::Cancelled, now) is Shutdown,
        feed.connecting(ConnectEvent::Watermark(Ok(watermark)), now) is Wait,
        feed.connecting(ConnectEvent::Ack(Ok(ack)), now) is Wait,
        feed.connecting(
            ConnectEvent::Watermark(Err(AcceptedWatermarkClosed)),
            now,
        ) matches Course::Announce(ProviderError::ChannelClosed { .. }),
        feed.connecting(
            ConnectEvent::Ack(Err(ReconcileAckClosed)),
            now,
        ) matches Course::Announce(ProviderError::ChannelClosed { .. }),
        feed.connecting(ConnectEvent::Gate(Err(RateGateClosed)), now) matches Course::Announce(
            ProviderError::Invariant(_),
        ),
        state is ProcessBlocked ==> feed.connecting(ConnectEvent::Gate(Ok(state)), now) is Block,
        !(state is ProcessBlocked) ==> feed.connecting(ConnectEvent::Gate(Ok(state)), now) is Wait,
        crate::provider::runtime::live::terminal(error) ==> feed.connecting(
            ConnectEvent::Connected(Err(error)),
            now,
        ) == Course::Announce(error),
        !crate::provider::runtime::live::terminal(error) ==> feed.connecting(
            ConnectEvent::Connected(Err(error)),
            now,
        ) == Course::Recover(error),
        feed.rotation is Never ==> (feed.connecting(
            ConnectEvent::Connected(Ok(())),
            now,
        ) matches Course::Run(rotation) && rotation.due is None),
        feed.rotation matches ConnectionRotation::After { max_age, detail } ==> (now.0
            + crate::clock::duration_nanos(max_age) <= u64::MAX ==> (feed.connecting(
            ConnectEvent::Connected(Ok(())),
            now,
        ) matches Course::Run(rotation) && rotation.due is Some && (rotation.due->0).0.0 == now.0
            + crate::clock::duration_nanos(max_age) && (rotation.due->0).1 == detail)),
{
}

/// After a generation: one that was cancelled shuts the feed down; one that asks to be connected anew
/// is tried again; an error ends the feed where it is terminal, stops it where it says that the
/// process is blocked, and is tried again otherwise. The waits start anew exactly where the consumer
/// had been told of the connection that was lost.
pub proof fn law_generations_conclude(
    feed: Supervisor,
    outcome: Result<GenerationOutcome, ProviderError>,
    delivered: bool,
    error: ProviderError,
)
    ensures
        feed.concluded(Ok(GenerationOutcome::Cancelled)) is Shutdown,
        feed.concluded(Ok(GenerationOutcome::Reconnect(error))) == Course::Recover(error),
        feed.concluded(Ok(GenerationOutcome::AcknowledgedReconnect(error))) == Course::Recover(
            error,
        ),
        crate::provider::runtime::live::says_blocked(error, feed.process_block) ==> feed.concluded(
            Err(error),
        ) == Course::Block(error),
        !crate::provider::runtime::live::says_blocked(error, feed.process_block)
            && crate::provider::runtime::live::terminal(error) ==> feed.concluded(Err(error))
            == Course::Announce(error),
        !crate::provider::runtime::live::says_blocked(error, feed.process_block)
            && !crate::provider::runtime::live::terminal(error) ==> feed.concluded(Err(error))
            == Course::Recover(error),
        feed.settled(outcome, delivered).backoff_index == (if delivered && outcome is Ok
            && outcome->Ok_0 is AcknowledgedReconnect {
            0
        } else {
            feed.backoff_index
        }),
        feed.settled(outcome, delivered).generation_number == feed.generation_number,
{
}

/// What a feed does to recover: it counts one failure more and waits, for its own delay and until a
/// gate opens that is closed for a time. The consumer is told of the error and of the wait, under the
/// generation that failed; where its queue was full, under none, and through the reserve.
pub proof fn law_recoveries(
    feed: Supervisor,
    now: MonoInstant,
    state: RateGateState,
    generation: Option<GapGeneration>,
    error: ProviderError,
)
    requires
        !(state is ProcessBlocked),
        now.0 + 30_000_000_000 <= u64::MAX,
    ensures
        ({
            let (after, recovery) = feed.recovered(now, Ok(state), generation, error);
            let delay = backoff_seconds(feed.backoff_index as int) * 1_000_000_000;
            let full = error is QueueSaturated;
            &&& feed.backoff_index < usize::MAX ==> after.backoff_index == feed.backoff_index + 1
            &&& after.generation_number == feed.generation_number
            &&& recovery matches Ok(told) && {
                &&& told.backoff.deadline.0 >= now.0 + delay
                &&& state is Open ==> told.backoff.deadline.0 == now.0 + delay
                &&& state matches RateGateState::TimedUntil(gate) ==> told.backoff.deadline.0
                    >= gate.0 && (told.backoff.deadline.0 == gate.0 || told.backoff.deadline.0
                    == now.0 + delay)
                &&& !told.backoff.deadline_elapsed
                &&& told.emergency == full
                &&& told.recoverable matches MarketEvent::RecoverableError {
                    generation: named,
                    error: same,
                    rate_gate_deadline,
                } && same == error && named == (if full {
                    None
                } else {
                    generation
                }) && (state matches RateGateState::TimedUntil(gate) ==> rate_gate_deadline == Some(
                    gate,
                )) && (state is Open ==> rate_gate_deadline is None)
                &&& told.status matches MarketEvent::Status { generation: named, status } && status
                    == ConnectionStatus::Backoff && named == (if full {
                    None
                } else {
                    generation
                })
            }
        }),
{
}

/// A feed whose gate is gone or blocked does not recover: it ends, and counts no failure more.
pub proof fn law_no_recovery_without_a_gate(
    feed: Supervisor,
    now: MonoInstant,
    blocker: crate::model::ProcessBlocker,
    generation: Option<GapGeneration>,
    error: ProviderError,
)
    ensures
        feed.recovered(now, Err(RateGateClosed), generation, error).0 == feed,
        feed.recovered(now, Err(RateGateClosed), generation, error).1 matches Err(
            Course::Announce(ProviderError::Invariant(_)),
        ),
        feed.recovered(now, Ok(RateGateState::ProcessBlocked(blocker)), generation, error).0
            == feed,
        feed.recovered(
            now,
            Ok(RateGateState::ProcessBlocked(blocker)),
            generation,
            error,
        ).1 matches Err(Course::Block(_)),
{
}

/// While a feed waits: it is over once its deadline passes and no gate is closed for longer; a gate
/// that closes for longer prolongs it; a cancelled feed shuts down, a blocked one stops, and one
/// whose consumer, queue or gate is gone ends. Whatever else comes is no reason to stop waiting.
pub proof fn law_waits(
    feed: Supervisor,
    backoff: Backoff,
    gate: MonoInstant,
    blocker: crate::model::ProcessBlocker,
    watermark: Option<i64>,
    ack: ReconcileAck,
    now: MonoInstant,
)
    ensures
        feed.waited(backoff, BackoffEvent::Cancelled, now).1 is Shutdown,
        feed.waited(backoff, BackoffEvent::QueueClosed, now).1 is Fail,
        feed.waited(
            backoff,
            BackoffEvent::Watermark(Err(AcceptedWatermarkClosed)),
            now,
        ).1 is Announce,
        feed.waited(backoff, BackoffEvent::Ack(Err(ReconcileAckClosed)), now).1 is Announce,
        feed.waited(backoff, BackoffEvent::Gate(Err(RateGateClosed)), now).1 is Announce,
        feed.waited(
            backoff,
            BackoffEvent::DeadlineElapsed(Err(RateGateClosed)),
            now,
        ).1 is Announce,
        feed.waited(
            backoff,
            BackoffEvent::Gate(Ok(RateGateState::ProcessBlocked(blocker))),
            now,
        ).1 is Block,
        feed.waited(
            backoff,
            BackoffEvent::DeadlineElapsed(Ok(RateGateState::ProcessBlocked(blocker))),
            now,
        ).1 is Block,
        feed.waited(backoff, BackoffEvent::Watermark(Ok(watermark)), now) == (backoff, Course::Wait),
        feed.waited(backoff, BackoffEvent::Ack(Ok(ack)), now) == (backoff, Course::Wait),
        feed.waited(backoff, BackoffEvent::ReserveCleared, now) == (backoff, Course::Wait),
        feed.waited(backoff, BackoffEvent::Gate(Ok(RateGateState::Open)), now) == (
            backoff,
            Course::Wait,
        ),
        feed.waited(
            backoff,
            BackoffEvent::DeadlineElapsed(Ok(RateGateState::Open)),
            now,
        ).0.deadline_elapsed,
        ({
            let next = feed.waited(
                backoff,
                BackoffEvent::Gate(Ok(RateGateState::TimedUntil(gate))),
                now,
            );
            &&& next.1 is Wait
            &&& next.0.deadline.0 >= gate.0 && next.0.deadline.0 >= backoff.deadline.0
            &&& next.0.deadline == gate || next.0.deadline == backoff.deadline
            &&& next.0.deadline_elapsed <==> now.0 >= next.0.deadline.0
        }),
        ({
            let next = feed.waited(
                backoff,
                BackoffEvent::DeadlineElapsed(Ok(RateGateState::TimedUntil(gate))),
                now,
            );
            &&& next.1 is Wait
            &&& gate.0 <= backoff.deadline.0 ==> next.0.deadline_elapsed
            &&& gate.0 > backoff.deadline.0 ==> next.0.deadline == gate && next.0.deadline_elapsed
                == backoff.deadline_elapsed
        }),
{
}

} // verus!
