//! One connection of a live feed, from its first candle to its end.
//!
//! A generation first waits for a candle. It then fills the gap between what the consumer has and
//! what the stream sends: it asks for history page by page while the stream goes on, offers the
//! consumer a replay, and waits for the consumer's word. Only then does it pass candles on as they
//! come. Each step takes the phase and what happened, and gives the next phase and what to do.
use std::time::Duration;

use vstd::prelude::*;

use crate::candle::Candle;
use crate::clock::checked_deadline;
use crate::error::{ErrorContext, ErrorOperation, ProviderError, TimeoutKind};
use crate::event::MarketEvent;
use crate::model::{
    max_watermark, ConnectionStatus, GapGeneration, HistoryRequest, MonoInstant, RateGateState, ReplayRevision,
};
use crate::provider::runtime::buffer::KeyedCandleBuffer;
use crate::provider::runtime::config::{ProcessBlockPolicy, ReconciliationPolicy};
use crate::provider::runtime::live::{
    is_terminal_live_error, process_block_error, ActiveRotation, LiveMarket, LiveSocketEvent,
};
use crate::provider::runtime::reconcile::{
    advance_reconciliation_page, advance_reconciliation_target, apply_reconciliation_candle,
    buffer_reconciliation_candle, next_gap_cursor,
};
use crate::provider::{
    AcceptedWatermarkClosed, ExpectationUpdate, RateGateClosed, ReconcileAck, ReconcileAckClosed,
    ReconcileExpectation, ReconcileExpectationError,
};

verus! {

/// How a generation comes to an end that is no failure of the feed.
#[derive(Debug, PartialEq)]
pub enum GenerationOutcome {
    Cancelled,
    AcknowledgedReconnect(ProviderError),
    Reconnect(ProviderError),
}

/// What happened.
#[derive(Debug, PartialEq)]
pub enum LiveEvent {
    /// The consumer has had enough.
    Cancelled,
    /// The consumer's watermark has moved, or can no more.
    Watermark(Result<Option<i64>, AcceptedWatermarkClosed>),
    /// The consumer has acknowledged a replay, or can no more.
    Ack(Result<ReconcileAck, ReconcileAckClosed>),
    /// The rate gate has changed, or can no more.
    Gate(Result<RateGateState, RateGateClosed>),
    /// The socket has been read.
    Socket(Result<LiveSocketEvent, ProviderError>),
    /// The connection is too old.
    RotationElapsed,
    /// The deadline of the phase has passed.
    DeadlineElapsed,
    /// The page of history that was asked for has come.
    Page(Result<Vec<Candle>, ProviderError>),
    /// A look at what is ready found nothing.
    NothingReady,
    /// The expectation has been registered, or refused.
    Registered(Result<ExpectationUpdate, ReconcileExpectationError>),
    /// An event has been handed to the consumer's queue, or could not be.
    Sent(Result<(), ProviderError>),
    /// The consumer's queue has room for a candle, or never will again.
    Room(Result<(), ProviderError>),
}

/// What stood when an event was handled.
#[derive(Clone, Copy, Debug, PartialEq, Eq)]
pub struct Observed {
    pub now: MonoInstant,
    pub cancelled: bool,
    /// The acknowledgement that stands.
    pub acknowledged: Result<Option<ReconcileAck>, ReconcileAckClosed>,
    /// The watermark that stands.
    pub accepted: Result<Option<i64>, AcceptedWatermarkClosed>,
}

/// What to do next.
#[derive(Debug, PartialEq)]
pub enum Action {
    /// Wait for whatever the phase waits for.
    Wait,
    /// Ask for a page of history, and wait.
    Fetch(HistoryRequest),
    /// Look once at what is ready: watermark, acknowledgement, age, gate, socket, in this order.
    Drain,
    /// Look once at what is ready: socket, age, gate, acknowledgement, in this order.
    FollowUp,
    /// Register an expectation.
    Register(ReconcileExpectation),
    /// Send an event.
    Send(MarketEvent),
    /// Send a candle into the room that there is.
    Emit(Candle),
    /// The generation is over.
    Finish(Result<GenerationOutcome, ProviderError>),
}

/// What a generation listens to.
#[derive(Clone, Copy, Debug, PartialEq, Eq, Structural)]
pub struct Listening {
    /// The socket.
    pub socket: bool,
    /// That the consumer's queue has taken the news of the connection, which is being sent.
    pub announcement: bool,
    /// That the consumer's queue has room for a candle.
    pub room: bool,
}

/// A gap that is being filled.
pub struct GapSync {
    pub confirmed: Option<i64>,
    pub start: i64,
    pub target_open_time: i64,
    pub revision: ReplayRevision,
    pub buffered: KeyedCandleBuffer,
    pub rest_synced_through: Option<i64>,
    pub pages: usize,
}

#[verifier::ext_equal]
pub struct GapView {
    pub confirmed: Option<i64>,
    pub start: i64,
    pub target: i64,
    pub revision: ReplayRevision,
    pub held: Map<i64, Candle>,
    pub synced: Option<i64>,
    pub pages: usize,
}

impl View for GapSync {
    type V = GapView;

    open spec fn view(&self) -> GapView {
        GapView {
            confirmed: self.confirmed,
            start: self.start,
            target: self.target_open_time,
            revision: self.revision,
            held: self.buffered@,
            synced: self.rest_synced_through,
            pages: self.pages,
        }
    }
}

impl GapSync {
    pub open spec fn well_formed(self) -> bool {
        self.buffered.well_formed() && self.buffered.limit() is None
    }
}

pub type PageResult = Result<Vec<Candle>, ProviderError>;

pub open spec fn page_view(page: PageResult) -> Result<Seq<Candle>, ProviderError> {
    match page {
        Ok(candles) => Ok(candles@),
        Err(error) => Err(error),
    }
}

pub enum Phase {
    AwaitFirst { deadline: MonoInstant },
    Fetching { sync: GapSync, cursor: i64, request_target: i64 },
    Draining { sync: GapSync, cursor: i64, request_target: i64, page: PageResult },
    FollowingUp { sync: GapSync, cursor: i64, request_target: i64, page: PageResult },
    Registering { sync: GapSync },
    Publishing { sync: GapSync },
    AwaitAck { sync: GapSync, deadline: MonoInstant, deferred: Option<ProviderError> },
    Connected { queued: bool, pending: KeyedCandleBuffer },
    Ended,
}

#[verifier::ext_equal]
#[allow(inconsistent_fields)]
pub enum PhaseView {
    AwaitFirst { deadline: MonoInstant },
    Fetching { sync: GapView, cursor: i64, request_target: i64 },
    Draining {
        sync: GapView,
        cursor: i64,
        request_target: i64,
        page: Result<Seq<Candle>, ProviderError>,
    },
    FollowingUp {
        sync: GapView,
        cursor: i64,
        request_target: i64,
        page: Result<Seq<Candle>, ProviderError>,
    },
    Registering { sync: GapView },
    Publishing { sync: GapView },
    AwaitAck { sync: GapView, deadline: MonoInstant, deferred: Option<ProviderError> },
    Connected { queued: bool, held: Map<i64, Candle> },
    Ended,
}

impl View for Phase {
    type V = PhaseView;

    open spec fn view(&self) -> PhaseView {
        match self {
            Phase::AwaitFirst { deadline } => PhaseView::AwaitFirst { deadline: *deadline },
            Phase::Fetching { sync, cursor, request_target } => PhaseView::Fetching {
                sync: sync@,
                cursor: *cursor,
                request_target: *request_target,
            },
            Phase::Draining { sync, cursor, request_target, page } => PhaseView::Draining {
                sync: sync@,
                cursor: *cursor,
                request_target: *request_target,
                page: page_view(*page),
            },
            Phase::FollowingUp { sync, cursor, request_target, page } => PhaseView::FollowingUp {
                sync: sync@,
                cursor: *cursor,
                request_target: *request_target,
                page: page_view(*page),
            },
            Phase::Registering { sync } => PhaseView::Registering { sync: sync@ },
            Phase::Publishing { sync } => PhaseView::Publishing { sync: sync@ },
            Phase::AwaitAck { sync, deadline, deferred } => PhaseView::AwaitAck {
                sync: sync@,
                deadline: *deadline,
                deferred: *deferred,
            },
            Phase::Connected { queued, pending } => PhaseView::Connected {
                queued: *queued,
                held: pending@,
            },
            Phase::Ended => PhaseView::Ended,
        }
    }
}

#[verifier::ext_equal]
#[allow(inconsistent_fields)]
pub enum ActionView {
    Wait,
    Fetch(HistoryRequest),
    Drain,
    FollowUp,
    Register(ReconcileExpectation),
    SendBatch {
        generation: GapGeneration,
        revision: ReplayRevision,
        target_open_time: i64,
        candles: Seq<Candle>,
    },
    SendOther(MarketEvent),
    Emit(Candle),
    Finish(Result<GenerationOutcome, ProviderError>),
}

impl View for Action {
    type V = ActionView;

    open spec fn view(&self) -> ActionView {
        match self {
            Action::Wait => ActionView::Wait,
            Action::Fetch(request) => ActionView::Fetch(*request),
            Action::Drain => ActionView::Drain,
            Action::FollowUp => ActionView::FollowUp,
            Action::Register(expectation) => ActionView::Register(*expectation),
            Action::Send(event) => match event {
                MarketEvent::ReconcileBatch {
                    generation,
                    revision,
                    target_open_time,
                    candles,
                } => ActionView::SendBatch {
                    generation: *generation,
                    revision: *revision,
                    target_open_time: *target_open_time,
                    candles: candles@,
                },
                _ => ActionView::SendOther(*event),
            },
            Action::Emit(candle) => ActionView::Emit(*candle),
            Action::Finish(result) => ActionView::Finish(*result),
        }
    }
}

/// The terms of one generation.
#[derive(Debug, PartialEq, Eq)]
pub struct Generation {
    pub market: LiveMarket,
    pub generation: GapGeneration,
    pub reconciliation: ReconciliationPolicy,
    pub process_block: ProcessBlockPolicy,
    pub rotation: ActiveRotation,
    pub gap_page_limit: u16,
    pub keyed_candle_capacity: usize,
    pub reconcile_ack_timeout: Duration,
}

pub open spec fn ended(result: Result<GenerationOutcome, ProviderError>) -> (PhaseView, ActionView) {
    (PhaseView::Ended, ActionView::Finish(result))
}

pub open spec fn failed(error: ProviderError) -> (PhaseView, ActionView) {
    ended(Err(error))
}

pub open spec fn reconnects(error: ProviderError) -> (PhaseView, ActionView) {
    ended(Ok(GenerationOutcome::Reconnect(error)))
}

/// An error of the socket ends a feed where it is terminal, and the connection where it is not.
pub open spec fn socket_fails(error: ProviderError) -> (PhaseView, ActionView) {
    if crate::provider::runtime::live::terminal(error) {
        failed(error)
    } else {
        reconnects(error)
    }
}

/// What a page of history leads to.
#[allow(inconsistent_fields)]
pub enum PageStep {
    /// The page brought nothing new.
    Stuck(ProviderError),
    /// The gap is filled as far as it goes.
    Filled(GapView),
    /// The next page is wanted, from a cursor on.
    More(GapView, i64),
}

impl Generation {
    pub open spec fn valid(self) -> bool {
        self.gap_page_limit > 0
    }

    pub open spec fn first_timeout(self) -> ProviderError {
        ProviderError::Timeout {
            context: ErrorContext::of_market(
                ErrorOperation::WebSocket,
                self.market.instrument,
                self.market.timeframe,
            ),
            kind: TimeoutKind::FirstKline,
        }
    }

    pub open spec fn ack_timeout(self, sync: GapView) -> ProviderError {
        ProviderError::ReconcileAckTimeout {
            generation: self.generation,
            revision: sync.revision,
            target_open_time: sync.target,
        }
    }

    /// Whether an acknowledgement is of the replay that stands, and reaches its target.
    pub open spec fn acknowledges(self, ack: ReconcileAck, sync: GapView) -> bool {
        ack.generation == self.generation && ack.revision == sync.revision && ack.through
            >= sync.target
    }

    pub open spec fn aged(self) -> (PhaseView, ActionView)
        recommends
            self.rotation.due is Some,
    {
        reconnects(self.market.protocol_error(self.rotation.words()))
    }

    /// The gap that a first candle opens.
    pub open spec fn opened(self, first: Candle, confirmed: Option<i64>) -> Result<
        GapView,
        ProviderError,
    > {
        let start = match confirmed {
            Some(watermark) => watermark,
            None => first.opens_at(),
        };
        let target = crate::provider::runtime::reconcile::later(start, first.opens_at());
        let empty = GapView {
            confirmed,
            start,
            target,
            revision: ReplayRevision(1),
            held: Map::empty(),
            synced: None,
            pages: 0,
        };
        if !crate::provider::runtime::reconcile::target_allowed(
            self.reconciliation,
            self.market.timeframe,
            start,
            target,
        ) {
            Err(crate::provider::runtime::reconcile::span_error(self.reconciliation->Bounded_0))
        } else if first.opens_at() < start {
            Ok(empty)
        } else {
            match crate::provider::runtime::reconcile::refusal(
                self.reconciliation,
                self.market.timeframe,
                start,
                Map::empty(),
                target,
                first,
            ) {
                Some(error) => Err(error),
                None => Ok(
                    GapView { held: Map::empty().insert(first.opens_at(), first), ..empty },
                ),
            }
        }
    }

    /// What a streamed candle makes of a gap.
    pub open spec fn extended(self, sync: GapView, candle: Candle) -> Result<GapView, ProviderError> {
        match crate::provider::runtime::reconcile::refusal(
            self.reconciliation,
            self.market.timeframe,
            sync.start,
            sync.held,
            sync.target,
            candle,
        ) {
            Some(error) => Err(error),
            None => if sync.revision.0 == u64::MAX {
                Err(ProviderError::Invariant("replay revision overflow"))
            } else {
                Ok(
                    GapView {
                        target: crate::provider::runtime::reconcile::later(
                            sync.target,
                            candle.opens_at(),
                        ),
                        held: crate::provider::runtime::buffer::coalesce(sync.held, candle),
                        revision: ReplayRevision((sync.revision.0 + 1) as u64),
                        ..sync
                    },
                )
            },
        }
    }

    /// What a watermark of the consumer makes of a gap.
    pub open spec fn raised(self, sync: GapView, watermark: Option<i64>) -> Result<
        GapView,
        ProviderError,
    > {
        match watermark {
            None => Ok(sync),
            Some(time) => {
                let target = crate::provider::runtime::reconcile::later(sync.target, time);
                if crate::provider::runtime::reconcile::target_allowed(
                    self.reconciliation,
                    self.market.timeframe,
                    sync.start,
                    target,
                ) {
                    Ok(GapView { target, ..sync })
                } else {
                    Err(
                        crate::provider::runtime::reconcile::span_error(
                            self.reconciliation->Bounded_0,
                        ),
                    )
                }
            },
        }
    }

    pub open spec fn expectation(self, sync: GapView) -> ReconcileExpectation {
        ReconcileExpectation {
            generation: self.generation,
            revision: sync.revision,
            target_open_time: sync.target,
        }
    }

    /// Asks for the next page where the target is not reached, and offers the replay where it is.
    pub open spec fn planned(self, sync: GapView, cursor: i64) -> (PhaseView, ActionView) {
        if cursor > sync.target {
            (PhaseView::Registering { sync }, ActionView::Register(self.expectation(sync)))
        } else if sync.pages == usize::MAX {
            failed(ProviderError::Invariant("reconciliation page count overflow"))
        } else if !crate::provider::runtime::reconcile::page_allowed(
            self.reconciliation,
            sync.pages + 1,
        ) {
            failed(
                ProviderError::Protocol {
                    context: ErrorContext::of_market(
                        ErrorOperation::Reconciliation,
                        self.market.instrument,
                        self.market.timeframe,
                    ),
                    detail: self.reconciliation->Bounded_0.page_exceeded,
                },
            )
        } else {
            (
                PhaseView::Fetching {
                    sync: GapView { pages: (sync.pages + 1) as usize, ..sync },
                    cursor,
                    request_target: sync.target,
                },
                ActionView::Fetch(
                    HistoryRequest::gap_request(cursor, sync.target, self.gap_page_limit),
                ),
            )
        }
    }

    /// Takes the fetching up where it stopped.
    pub open spec fn resumed(self, sync: GapView) -> (PhaseView, ActionView) {
        match sync.synced {
            None => self.planned(sync, sync.start),
            Some(last) => if last == i64::MAX {
                failed(ProviderError::Invariant("gap cursor overflow"))
            } else {
                self.planned(sync, (last + 1) as i64)
            },
        }
    }

    /// What a page makes of a gap.
    pub open spec fn paged(
        self,
        sync: GapView,
        cursor: i64,
        request_target: i64,
        page: Seq<Candle>,
    ) -> PageStep {
        if page.len() == 0 {
            if sync.confirmed is None && cursor == sync.start {
                PageStep::Filled(sync)
            } else {
                PageStep::Stuck(
                    ProviderError::GapSyncNoProgress {
                        target_open_time: request_target,
                        last_open_time: None,
                    },
                )
            }
        } else {
            let last = page.last().opens_at();
            let next = GapView {
                held: crate::provider::runtime::buffer::coalesce_all(sync.held, page),
                synced: Some(last),
                ..sync
            };
            let stuck = PageStep::Stuck(
                ProviderError::GapSyncNoProgress {
                    target_open_time: request_target,
                    last_open_time: Some(last),
                },
            );
            if last < cursor {
                stuck
            } else if last >= sync.target {
                PageStep::Filled(next)
            } else if last < request_target && (page.len() < self.gap_page_limit
                || !crate::provider::runtime::buffer::accepts_any(sync.held, page)) {
                stuck
            } else {
                PageStep::More(next, (last + 1) as i64)
            }
        }
    }

    /// What the outcome of asking for a page leads to.
    pub open spec fn turned(
        self,
        sync: GapView,
        cursor: i64,
        request_target: i64,
        page: Result<Seq<Candle>, ProviderError>,
    ) -> (PhaseView, ActionView) {
        match page {
            Err(error) => failed(error),
            Ok(candles) => match self.paged(sync, cursor, request_target, candles) {
                PageStep::Stuck(error) => reconnects(error),
                PageStep::Filled(next) => (
                    PhaseView::Registering { sync: next },
                    ActionView::Register(self.expectation(next)),
                ),
                PageStep::More(next, from) => self.planned(next, from),
            },
        }
    }

    /// What a replay that was acknowledged leads to.
    pub open spec fn confirmed(self, deferred: Option<ProviderError>) -> (PhaseView, ActionView) {
        match deferred {
            Some(error) => reconnects(error),
            None => (PhaseView::Connected { queued: false, held: Map::empty() }, ActionView::Wait),
        }
    }

    /// The first candle has come.
    pub open spec fn first_seen(self, first: Candle, startup: Option<i64>, seen: Observed) -> (
        PhaseView,
        ActionView,
    ) {
        match seen.accepted {
            Err(_) => failed(self.market.closed_error()),
            Ok(accepted) => match self.opened(
                first,
                crate::model::later_watermark(accepted, startup),
            ) {
                Err(error) => failed(error),
                Ok(sync) => self.resumed(sync),
            },
        }
    }

    pub open spec fn step_first(
        self,
        deadline: MonoInstant,
        startup: Option<i64>,
        event: LiveEvent,
        seen: Observed,
    ) -> (PhaseView, ActionView) {
        let stay = (PhaseView::AwaitFirst { deadline }, ActionView::Wait);
        match event {
            LiveEvent::Socket(Err(error)) => failed(error),
            LiveEvent::Socket(Ok(LiveSocketEvent::Candle(candle))) => self.first_seen(
                candle,
                startup,
                seen,
            ),
            LiveEvent::Socket(Ok(LiveSocketEvent::Ignored)) => if seen.now.0 >= deadline.0 {
                reconnects(self.first_timeout())
            } else if self.rotation.elapsed(seen.now) {
                self.aged()
            } else {
                stay
            },
            LiveEvent::Socket(Ok(LiveSocketEvent::ReconnectRequested)) => reconnects(
                self.market.reconnect_error(),
            ),
            LiveEvent::Socket(Ok(LiveSocketEvent::ProtocolViolation(detail))) => reconnects(
                self.market.protocol_error(detail),
            ),
            LiveEvent::Socket(Ok(LiveSocketEvent::DecodedError(error))) => socket_fails(error),
            LiveEvent::DeadlineElapsed => reconnects(self.first_timeout()),
            _ => self.common(stay, event),
        }
    }

    /// What the sources that every phase listens to lead to; `stay` is how to go on.
    pub open spec fn common(self, stay: (PhaseView, ActionView), event: LiveEvent) -> (
        PhaseView,
        ActionView,
    ) {
        match event {
            LiveEvent::Cancelled => ended(Ok(GenerationOutcome::Cancelled)),
            LiveEvent::Watermark(Err(_)) => failed(self.market.closed_error()),
            LiveEvent::Ack(Err(_)) => failed(self.market.closed_error()),
            LiveEvent::Gate(Err(_)) => failed(ProviderError::Invariant("rate gate closed")),
            LiveEvent::Gate(Ok(state)) => if state.blocked() {
                failed(crate::provider::runtime::live::block_error(self.process_block))
            } else {
                stay
            },
            LiveEvent::RotationElapsed => if self.rotation.due is Some {
                self.aged()
            } else {
                stay
            },
            _ => stay,
        }
    }

    /// What a socket's word makes of a gap, or what it leads to.
    pub open spec fn streamed(
        self,
        sync: GapView,
        input: Result<LiveSocketEvent, ProviderError>,
    ) -> Result<GapView, (PhaseView, ActionView)> {
        match input {
            Ok(LiveSocketEvent::Candle(candle)) => match self.extended(sync, candle) {
                Ok(next) => Ok(next),
                Err(error) => Err(failed(error)),
            },
            Ok(LiveSocketEvent::Ignored) => Ok(sync),
            Ok(LiveSocketEvent::ProtocolViolation(detail)) => Err(
                reconnects(self.market.protocol_error(detail)),
            ),
            Ok(LiveSocketEvent::ReconnectRequested) => Err(
                reconnects(self.market.reconnect_error()),
            ),
            Ok(LiveSocketEvent::DecodedError(error)) => Err(socket_fails(error)),
            Err(error) => Err(socket_fails(error)),
        }
    }

    pub open spec fn step_fetching(
        self,
        sync: GapView,
        cursor: i64,
        request_target: i64,
        event: LiveEvent,
        seen: Observed,
    ) -> (PhaseView, ActionView) {
        if seen.cancelled {
            ended(Ok(GenerationOutcome::Cancelled))
        } else {
            match event {
                LiveEvent::Watermark(Ok(watermark)) => match self.raised(sync, watermark) {
                    Ok(next) => (
                        PhaseView::Fetching { sync: next, cursor, request_target },
                        ActionView::Wait,
                    ),
                    Err(error) => failed(error),
                },
                LiveEvent::Socket(input) => match self.streamed(sync, input) {
                    Ok(next) => (
                        PhaseView::Fetching { sync: next, cursor, request_target },
                        ActionView::Wait,
                    ),
                    Err(end) => end,
                },
                LiveEvent::Page(page) => (
                    PhaseView::Draining { sync, cursor, request_target, page: page_view(page) },
                    ActionView::Drain,
                ),
                _ => self.common(
                    (PhaseView::Fetching { sync, cursor, request_target }, ActionView::Wait),
                    event,
                ),
            }
        }
    }

    /// Cancellation stops whatever is no failure.
    pub open spec fn unless_cancelled(seen: Observed, step: (PhaseView, ActionView)) -> (
        PhaseView,
        ActionView,
    ) {
        if seen.cancelled && !(step.1 matches ActionView::Finish(Err(_))) {
            ended(Ok(GenerationOutcome::Cancelled))
        } else {
            step
        }
    }

    pub open spec fn step_draining(
        self,
        sync: GapView,
        cursor: i64,
        request_target: i64,
        page: Result<Seq<Candle>, ProviderError>,
        event: LiveEvent,
        seen: Observed,
    ) -> (PhaseView, ActionView) {
        match event {
            LiveEvent::Watermark(Ok(watermark)) => match self.raised(sync, watermark) {
                Err(error) => failed(error),
                Ok(next) => if seen.cancelled {
                    ended(Ok(GenerationOutcome::Cancelled))
                } else {
                    (
                        PhaseView::FollowingUp { sync: next, cursor, request_target, page },
                        ActionView::FollowUp,
                    )
                },
            },
            _ => self.step_following(sync, cursor, request_target, page, event, seen),
        }
    }

    pub open spec fn step_following(
        self,
        sync: GapView,
        cursor: i64,
        request_target: i64,
        page: Result<Seq<Candle>, ProviderError>,
        event: LiveEvent,
        seen: Observed,
    ) -> (PhaseView, ActionView) {
        let first = match event {
            LiveEvent::Socket(input) => self.streamed(sync, input),
            _ => {
                let marker = (PhaseView::Ended, ActionView::Wait);
                let step = self.common(marker, event);
                if step == marker {
                    Ok(sync)
                } else {
                    Err(step)
                }
            },
        };
        match first {
            Err(end) => Generation::unless_cancelled(seen, end),
            Ok(next) => if seen.cancelled {
                ended(Ok(GenerationOutcome::Cancelled))
            } else {
                self.turned(next, cursor, request_target, page)
            },
        }
    }

    pub open spec fn step_ack(
        self,
        sync: GapView,
        deadline: MonoInstant,
        deferred: Option<ProviderError>,
        event: LiveEvent,
        seen: Observed,
    ) -> (PhaseView, ActionView) {
        let stay = (PhaseView::AwaitAck { sync, deadline, deferred }, ActionView::Wait);
        match event {
            LiveEvent::Socket(Err(error)) => failed(error),
            LiveEvent::Socket(Ok(LiveSocketEvent::Candle(candle))) => match self.extended(
                sync,
                candle,
            ) {
                Err(error) => failed(error),
                Ok(next) => self.resumed(next),
            },
            LiveEvent::Socket(Ok(LiveSocketEvent::Ignored)) => match seen.acknowledged {
                Err(_) => failed(self.market.closed_error()),
                Ok(standing) => if standing matches Some(ack) && self.acknowledges(ack, sync) {
                    self.confirmed(deferred)
                } else if seen.now.0 >= deadline.0 {
                    reconnects(self.ack_timeout(sync))
                } else {
                    stay
                },
            },
            LiveEvent::Socket(Ok(LiveSocketEvent::ReconnectRequested)) => reconnects(
                self.market.reconnect_error(),
            ),
            LiveEvent::Socket(Ok(LiveSocketEvent::ProtocolViolation(detail))) => reconnects(
                self.market.protocol_error(detail),
            ),
            LiveEvent::Socket(Ok(LiveSocketEvent::DecodedError(error))) => if crate::provider::runtime::live::terminal(
            error) {
                failed(error)
            } else {
                (
                    PhaseView::AwaitAck { sync, deadline, deferred: Some(error) },
                    ActionView::Wait,
                )
            },
            LiveEvent::Ack(Ok(ack)) => if self.acknowledges(ack, sync) {
                self.confirmed(deferred)
            } else {
                stay
            },
            LiveEvent::DeadlineElapsed => if seen.acknowledged matches Ok(Some(ack))
                && self.acknowledges(ack, sync) {
                self.confirmed(deferred)
            } else {
                reconnects(self.ack_timeout(sync))
            },
            _ => self.common(stay, event),
        }
    }

    /// A connection that is lost once the consumer was told of it counts as one that had worked.
    pub open spec fn drops(queued: bool, error: ProviderError) -> (PhaseView, ActionView) {
        if queued {
            ended(Ok(GenerationOutcome::AcknowledgedReconnect(error)))
        } else {
            reconnects(error)
        }
    }

    pub open spec fn least(held: Map<i64, Candle>) -> Candle {
        choose|candle: Candle|
            held.contains_key(candle.opens_at()) && held[candle.opens_at()] == candle && forall|
                key: i64,
            | #[trigger]
                held.contains_key(key) ==> candle.opens_at() <= key
    }

    pub open spec fn step_connected(
        self,
        queued: bool,
        held: Map<i64, Candle>,
        event: LiveEvent,
        seen: Observed,
    ) -> (PhaseView, ActionView) {
        let stay = (PhaseView::Connected { queued, held }, ActionView::Wait);
        match event {
            LiveEvent::Sent(Err(error)) => failed(error),
            LiveEvent::Sent(Ok(())) => (
                PhaseView::Connected { queued: true, held },
                ActionView::Wait,
            ),
            LiveEvent::Room(Err(error)) => failed(error),
            LiveEvent::Room(Ok(())) => if queued && held.dom() != Set::<i64>::empty() {
                (
                    PhaseView::Connected {
                        queued,
                        held: held.remove(Generation::least(held).opens_at()),
                    },
                    ActionView::Emit(Generation::least(held)),
                )
            } else {
                stay
            },
            LiveEvent::Socket(input) => if self.rotation.elapsed(seen.now) {
                Generation::drops(
                    queued,
                    self.market.protocol_error(self.rotation.words()),
                )
            } else {
                match input {
                    Ok(LiveSocketEvent::Candle(candle)) => if !held.contains_key(candle.opens_at())
                        && held.dom().len() == self.keyed_candle_capacity {
                        Generation::drops(queued, ProviderError::QueueSaturated)
                    } else {
                        (
                            PhaseView::Connected {
                                queued,
                                held: crate::provider::runtime::buffer::coalesce(held, candle),
                            },
                            ActionView::Wait,
                        )
                    },
                    Ok(LiveSocketEvent::Ignored) => stay,
                    Ok(LiveSocketEvent::ProtocolViolation(detail)) => Generation::drops(
                        queued,
                        self.market.protocol_error(detail),
                    ),
                    Ok(LiveSocketEvent::ReconnectRequested) => Generation::drops(
                        queued,
                        self.market.reconnect_error(),
                    ),
                    Ok(LiveSocketEvent::DecodedError(error)) => if crate::provider::runtime::live::terminal(
                    error) {
                        failed(error)
                    } else {
                        Generation::drops(queued, error)
                    },
                    Err(error) => if crate::provider::runtime::live::terminal(error) {
                        failed(error)
                    } else {
                        Generation::drops(queued, error)
                    },
                }
            },
            LiveEvent::RotationElapsed => if self.rotation.due is Some {
                Generation::drops(queued, self.market.protocol_error(self.rotation.words()))
            } else {
                stay
            },
            _ => self.common(stay, event),
        }
    }

    /// The next phase of a generation, and what to do, for each phase and each thing that happens.
    pub open spec fn next(
        self,
        phase: PhaseView,
        startup: Option<i64>,
        event: LiveEvent,
        seen: Observed,
    ) -> (PhaseView, ActionView) {
        match phase {
            PhaseView::AwaitFirst { deadline } => self.step_first(deadline, startup, event, seen),
            PhaseView::Fetching { sync, cursor, request_target } => self.step_fetching(
                sync,
                cursor,
                request_target,
                event,
                seen,
            ),
            PhaseView::Draining { sync, cursor, request_target, page } => self.step_draining(
                sync,
                cursor,
                request_target,
                page,
                event,
                seen,
            ),
            PhaseView::FollowingUp { sync, cursor, request_target, page } => self.step_following(
                sync,
                cursor,
                request_target,
                page,
                event,
                seen,
            ),
            PhaseView::Registering { sync } => match event {
                LiveEvent::Registered(Ok(_)) => (
                    PhaseView::Publishing { sync },
                    ActionView::SendBatch {
                        generation: self.generation,
                        revision: sync.revision,
                        target_open_time: sync.target,
                        candles: crate::provider::runtime::buffer::listing(sync.held),
                    },
                ),
                LiveEvent::Registered(Err(ReconcileExpectationError::Closed)) => failed(
                    self.market.closed_error(),
                ),
                LiveEvent::Registered(Err(_)) => failed(
                    ProviderError::Invariant("reconciliation expectation invariant violated"),
                ),
                _ => self.common((phase, ActionView::Wait), event),
            },
            PhaseView::Publishing { sync } => match event {
                LiveEvent::Sent(Err(error)) => failed(error),
                LiveEvent::Sent(Ok(())) => match crate::clock::deadline_after(
                    seen.now,
                    crate::clock::duration_nanos(self.reconcile_ack_timeout),
                ) {
                    None => failed(ProviderError::Invariant("ack deadline overflow")),
                    Some(deadline) => (
                        PhaseView::AwaitAck { sync, deadline, deferred: None },
                        ActionView::Wait,
                    ),
                },
                _ => self.common((phase, ActionView::Wait), event),
            },
            PhaseView::AwaitAck { sync, deadline, deferred } => self.step_ack(
                sync,
                deadline,
                deferred,
                event,
                seen,
            ),
            PhaseView::Connected { queued, held } => self.step_connected(queued, held, event, seen),
            PhaseView::Ended => (PhaseView::Ended, ActionView::Wait),
        }
    }
}

/// Whether a step is the one that a specification says.
pub open spec fn is_step(step: (Phase, Action), expected: (PhaseView, ActionView)) -> bool {
    step.0@ == expected.0 && step.1@ == expected.1
}

fn finish(result: Result<GenerationOutcome, ProviderError>) -> (step: (Phase, Action))
    ensures
        is_step(step, ended(result)),
        step.0 is Ended,
{
    (Phase::Ended, Action::Finish(result))
}

fn fail(error: ProviderError) -> (step: (Phase, Action))
    ensures
        is_step(step, failed(error)),
        step.0 is Ended,
{
    finish(Err(error))
}

fn reconnect(error: ProviderError) -> (step: (Phase, Action))
    ensures
        is_step(step, reconnects(error)),
        step.0 is Ended,
{
    finish(Ok(GenerationOutcome::Reconnect(error)))
}

fn fail_socket(error: ProviderError) -> (step: (Phase, Action))
    ensures
        is_step(step, socket_fails(error)),
        step.0 is Ended,
{
    if is_terminal_live_error(&error) {
        fail(error)
    } else {
        reconnect(error)
    }
}

proof fn lemma_least(held: Map<i64, Candle>, first: Candle)
    requires
        held.contains_key(first.opens_at()),
        held[first.opens_at()] == first,
        forall|key: i64| #[trigger] held.contains_key(key) ==> first.opens_at() <= key,
    ensures
        Generation::least(held) == first,
{
    let other = Generation::least(held);
    assert(held.contains_key(other.opens_at()));
}

impl Generation {
    /// Whether a phase can be one of this generation.
    pub open spec fn holds(self, phase: Phase) -> bool {
        match phase {
            Phase::AwaitFirst { .. } => true,
            Phase::Fetching { sync, .. } => sync.well_formed(),
            Phase::Draining { sync, .. } => sync.well_formed(),
            Phase::FollowingUp { sync, .. } => sync.well_formed(),
            Phase::Registering { sync } => sync.well_formed(),
            Phase::Publishing { sync } => sync.well_formed(),
            Phase::AwaitAck { sync, .. } => sync.well_formed(),
            Phase::Connected { pending, .. } => pending.well_formed() && pending.limit() == Some(
                self.keyed_candle_capacity,
            ),
            Phase::Ended => true,
        }
    }

    /// What a generation listens to in a phase, besides what it always does.
    pub fn listens(phase: &Phase) -> (listens: Listening)
        ensures
            listens.socket == !(phase@ matches PhaseView::AwaitAck { deferred: Some(_), .. }),
            listens.announcement == (phase@ matches PhaseView::Connected { queued: false, .. }),
            listens.room == (phase@ matches PhaseView::Connected { queued: true, held }
                && held.dom() != Set::<i64>::empty()),
    {
        match phase {
            Phase::AwaitAck { deferred, .. } => Listening {
                socket: deferred.is_none(),
                announcement: false,
                room: false,
            },
            Phase::Connected { queued, pending } => {
                Listening {
                    socket: true,
                    announcement: !*queued,
                    room: *queued && !pending.is_empty(),
                }
            },
            _ => Listening { socket: true, announcement: false, room: false },
        }
    }

    /// What the consumer is told of a generation.
    pub fn status(&self, status: ConnectionStatus) -> (event: MarketEvent)
        ensures
            event == (MarketEvent::Status { generation: Some(self.generation), status }),
    {
        MarketEvent::Status { generation: Some(self.generation), status }
    }

    /// A candle as the consumer is handed it.
    pub fn candle_event(&self, candle: Candle) -> (event: MarketEvent)
        ensures
            event == (MarketEvent::Candle { generation: self.generation, candle }),
    {
        MarketEvent::Candle { generation: self.generation, candle }
    }

    /// Begins to wait for the first candle.
    pub fn begin(&self, now: MonoInstant, first_kline_timeout: Duration) -> (step: (Phase, Action))
        ensures
            self.holds(step.0),
            is_step(
                step,
                match crate::clock::deadline_after(
                    now,
                    crate::clock::duration_nanos(first_kline_timeout),
                ) {
                    Some(deadline) => (PhaseView::AwaitFirst { deadline }, ActionView::Wait),
                    None => failed(ProviderError::Invariant("first-kline deadline overflow")),
                },
            ),
    {
        match checked_deadline(now, first_kline_timeout) {
            Ok(deadline) => (Phase::AwaitFirst { deadline }, Action::Wait),
            Err(_) => fail(ProviderError::Invariant("first-kline deadline overflow")),
        }
    }

    fn open_gap(&self, first: Candle, confirmed: Option<i64>) -> (opened: Result<
        GapSync,
        ProviderError,
    >)
        ensures
            match opened {
                Ok(sync) => sync.well_formed() && self.opened(first, confirmed) == Ok::<
                    GapView,
                    ProviderError,
                >(sync@),
                Err(error) => self.opened(first, confirmed) == Err::<GapView, ProviderError>(error),
            },
    {
        let start: i64 = match confirmed {
            Some(watermark) => watermark,
            None => first.open_time(),
        };
        let mut target_open_time: i64 = start;
        match advance_reconciliation_target(
            &mut target_open_time,
            first.open_time(),
            start,
            self.market.timeframe,
            self.reconciliation,
        ) {
            Ok(()) => {},
            Err(error) => {
                return Err(error);
            },
        }
        let mut buffered = KeyedCandleBuffer::unbounded();
        if first.open_time() >= start {
            match apply_reconciliation_candle(
                &mut buffered,
                first,
                &mut target_open_time,
                start,
                self.market.timeframe,
                self.reconciliation,
            ) {
                Ok(_) => {},
                Err(error) => {
                    return Err(error);
                },
            }
        }
        let sync = GapSync {
            confirmed,
            start,
            target_open_time,
            revision: ReplayRevision(1),
            buffered,
            rest_synced_through: None,
            pages: 0,
        };
        assert(self.opened(first, confirmed) matches Ok(view) && view =~= sync@);
        Ok(sync)
    }

    fn extend(&self, sync: GapSync, candle: Candle) -> (extended: Result<GapSync, ProviderError>)
        requires
            sync.well_formed(),
        ensures
            match extended {
                Ok(next) => next.well_formed() && self.extended(sync@, candle) == Ok::<
                    GapView,
                    ProviderError,
                >(next@),
                Err(error) => self.extended(sync@, candle) == Err::<GapView, ProviderError>(error),
            },
    {
        let mut buffered = sync.buffered;
        let mut revision = sync.revision;
        let mut target_open_time: i64 = sync.target_open_time;
        match buffer_reconciliation_candle(
            &mut buffered,
            candle,
            &mut revision,
            &mut target_open_time,
            sync.start,
            self.market.timeframe,
            self.reconciliation,
        ) {
            Ok(()) => {},
            Err(error) => {
                return Err(error);
            },
        }
        let next = GapSync {
            confirmed: sync.confirmed,
            start: sync.start,
            target_open_time,
            revision,
            buffered,
            rest_synced_through: sync.rest_synced_through,
            pages: sync.pages,
        };
        assert(self.extended(sync@, candle) matches Ok(view) && view =~= next@);
        Ok(next)
    }

    fn raise(&self, sync: GapSync, watermark: Option<i64>) -> (raised: Result<
        GapSync,
        ProviderError,
    >)
        requires
            sync.well_formed(),
        ensures
            match raised {
                Ok(next) => next.well_formed() && self.raised(sync@, watermark) == Ok::<
                    GapView,
                    ProviderError,
                >(next@),
                Err(error) => self.raised(sync@, watermark) == Err::<GapView, ProviderError>(error),
            },
    {
        match watermark {
            None => Ok(sync),
            Some(time) => {
                let mut target_open_time: i64 = sync.target_open_time;
                match advance_reconciliation_target(
                    &mut target_open_time,
                    time,
                    sync.start,
                    self.market.timeframe,
                    self.reconciliation,
                ) {
                    Ok(()) => {},
                    Err(error) => {
                        return Err(error);
                    },
                }
                let next = GapSync { target_open_time, ..sync };
                assert(self.raised(sync@, watermark) matches Ok(view) && view =~= next@);
                Ok(next)
            },
        }
    }

    fn offer(&self, sync: GapSync) -> (step: (Phase, Action))
        requires
            sync.well_formed(),
        ensures
            self.holds(step.0),
            is_step(
                step,
                (
                    PhaseView::Registering { sync: sync@ },
                    ActionView::Register(self.expectation(sync@)),
                ),
            ),
    {
        let expected = ReconcileExpectation {
            generation: self.generation,
            revision: sync.revision,
            target_open_time: sync.target_open_time,
        };
        (Phase::Registering { sync }, Action::Register(expected))
    }

    fn plan(&self, sync: GapSync, cursor: i64) -> (step: (Phase, Action))
        requires
            self.valid(),
            sync.well_formed(),
        ensures
            self.holds(step.0),
            is_step(step, self.planned(sync@, cursor)),
    {
        if cursor > sync.target_open_time {
            return self.offer(sync);
        }
        let mut pages: usize = sync.pages;
        match advance_reconciliation_page(
            &mut pages,
            self.reconciliation,
            ErrorContext::market(
                ErrorOperation::Reconciliation,
                &self.market.instrument,
                self.market.timeframe,
            ),
        ) {
            Ok(()) => {},
            Err(error) => {
                return fail(error);
            },
        }
        let request_target: i64 = sync.target_open_time;
        match HistoryRequest::gap(cursor, request_target, self.gap_page_limit) {
            Err(_) => fail(ProviderError::Invariant("invalid gap history request")),
            Ok(request) => {
                let next = GapSync { pages, ..sync };
                assert(next@ =~= (GapView { pages, ..sync@ }));
                (
                    Phase::Fetching { sync: next, cursor, request_target },
                    Action::Fetch(request),
                )
            },
        }
    }

    fn resume(&self, sync: GapSync) -> (step: (Phase, Action))
        requires
            self.valid(),
            sync.well_formed(),
        ensures
            self.holds(step.0),
            is_step(step, self.resumed(sync@)),
    {
        let cursor: i64 = match sync.rest_synced_through {
            Some(last) => match next_gap_cursor(last) {
                Ok(cursor) => cursor,
                Err(error) => {
                    return fail(error);
                },
            },
            None => sync.start,
        };
        self.plan(sync, cursor)
    }

    /// Takes a page of history in.
    fn turn(
        &self,
        sync: GapSync,
        cursor: i64,
        request_target: i64,
        page: PageResult,
    ) -> (step: (Phase, Action))
        requires
            self.valid(),
            sync.well_formed(),
        ensures
            self.holds(step.0),
            is_step(step, self.turned(sync@, cursor, request_target, page_view(page))),
    {
        let candles = match page {
            Ok(candles) => candles,
            Err(error) => {
                return fail(error);
            },
        };
        if candles.len() == 0 {
            if sync.confirmed.is_none() && cursor == sync.start {
                return self.offer(sync);
            }
            return reconnect(
                ProviderError::GapSyncNoProgress {
                    target_open_time: request_target,
                    last_open_time: None,
                },
            );
        }
        let page_len: usize = candles.len();
        let last: i64 = candles[page_len - 1].open_time();
        let stuck = ProviderError::GapSyncNoProgress {
            target_open_time: request_target,
            last_open_time: Some(last),
        };
        if last < cursor {
            return reconnect(stuck);
        }
        let mut buffered = sync.buffered;
        let mut accepted_any: bool = false;
        let mut index: usize = 0;
        assert(candles@.take(0) =~= Seq::<Candle>::empty());
        while index < page_len
            invariant
                index <= page_len,
                page_len == candles.len(),
                buffered.well_formed(),
                buffered.limit() is None,
                buffered@ == crate::provider::runtime::buffer::coalesce_all(
                    sync@.held,
                    candles@.take(index as int),
                ),
                accepted_any == crate::provider::runtime::buffer::accepts_any(
                    sync@.held,
                    candles@.take(index as int),
                ),
            decreases page_len - index,
        {
            let ghost shorter = candles@.take(index as int);
            let ghost longer = candles@.take(index + 1);
            assert(longer.drop_last() =~= shorter);
            assert(longer.last() == candles@[index as int]);
            match buffered.push(candles[index]) {
                Ok(accepted) => {
                    accepted_any = accepted_any || accepted;
                },
                Err(error) => {
                    return fail(error);
                },
            }
            index += 1;
        }
        assert(candles@.take(page_len as int) =~= candles@);
        let next = GapSync {
            confirmed: sync.confirmed,
            start: sync.start,
            target_open_time: sync.target_open_time,
            revision: sync.revision,
            buffered,
            rest_synced_through: Some(last),
            pages: sync.pages,
        };
        let ghost view = GapView {
            held: crate::provider::runtime::buffer::coalesce_all(sync@.held, candles@),
            synced: Some(last),
            ..sync@
        };
        assert(next@ =~= view);
        if last >= next.target_open_time {
            return self.offer(next);
        }
        if last < request_target && (page_len < self.gap_page_limit as usize || !accepted_any) {
            return reconnect(stuck);
        }
        match next_gap_cursor(last) {
            Ok(cursor) => self.plan(next, cursor),
            Err(error) => fail(error),
        }
    }

    fn confirm(&self, deferred: Option<ProviderError>) -> (step: (Phase, Action))
        ensures
            self.holds(step.0),
            is_step(step, self.confirmed(deferred)),
    {
        match deferred {
            Some(error) => reconnect(error),
            None => (
                Phase::Connected {
                    queued: false,
                    pending: KeyedCandleBuffer::bounded(self.keyed_candle_capacity),
                },
                Action::Wait,
            ),
        }
    }

    /// What the sources that every phase listens to lead to, where they end the generation.
    fn check_common(&self, event: &LiveEvent) -> (end: Option<(Phase, Action)>)
        ensures
            end matches Some(step) ==> step.0 is Ended && step.1 is Finish,
            forall|stay: (PhaseView, ActionView)|
                match end {
                    Some(step) => is_step(step, #[trigger] self.common(stay, *event)),
                    None => self.common(stay, *event) == stay,
                },
    {
        match event {
            LiveEvent::Cancelled => Some(finish(Ok(GenerationOutcome::Cancelled))),
            LiveEvent::Watermark(Err(_)) => Some(fail(self.market.control_channel_closed())),
            LiveEvent::Ack(Err(_)) => Some(fail(self.market.control_channel_closed())),
            LiveEvent::Gate(Err(_)) => Some(fail(ProviderError::Invariant("rate gate closed"))),
            LiveEvent::Gate(Ok(state)) => if state.is_process_blocked() {
                Some(fail(process_block_error(self.process_block)))
            } else {
                None
            },
            LiveEvent::RotationElapsed => match self.rotation.due {
                Some((_, detail)) => Some(reconnect(self.market.live_protocol_error(detail))),
                None => None,
            },
            _ => None,
        }
    }

    fn timeout_first(&self) -> (error: ProviderError)
        ensures
            error == self.first_timeout(),
    {
        ProviderError::Timeout {
            context: ErrorContext::market(
                ErrorOperation::WebSocket,
                &self.market.instrument,
                self.market.timeframe,
            ),
            kind: TimeoutKind::FirstKline,
        }
    }

    fn on_first(
        &self,
        deadline: MonoInstant,
        startup: Option<i64>,
        event: LiveEvent,
        seen: &Observed,
    ) -> (step: (Phase, Action))
        requires
            self.valid(),
        ensures
            self.holds(step.0),
            is_step(step, self.step_first(deadline, startup, event, *seen)),
    {
        match event {
            LiveEvent::Socket(input) => match input {
                Err(error) => fail(error),
                Ok(LiveSocketEvent::Candle(candle)) => match seen.accepted {
                    Err(_) => fail(self.market.control_channel_closed()),
                    Ok(accepted) => match self.open_gap(candle, max_watermark(accepted, startup)) {
                        Err(error) => fail(error),
                        Ok(sync) => self.resume(sync),
                    },
                },
                Ok(LiveSocketEvent::Ignored) => {
                    if seen.now.0 >= deadline.0 {
                        return reconnect(self.timeout_first());
                    }
                    if self.rotation.is_elapsed(seen.now) {
                        if let Some((_, detail)) = self.rotation.due {
                            return reconnect(self.market.live_protocol_error(detail));
                        }
                    }
                    (Phase::AwaitFirst { deadline }, Action::Wait)
                },
                Ok(LiveSocketEvent::ReconnectRequested) => reconnect(
                    self.market.live_protocol_error("WebSocket peer requested reconnect"),
                ),
                Ok(LiveSocketEvent::ProtocolViolation(detail)) => reconnect(
                    self.market.live_protocol_error(detail),
                ),
                Ok(LiveSocketEvent::DecodedError(error)) => fail_socket(error),
            },
            LiveEvent::DeadlineElapsed => reconnect(self.timeout_first()),
            other => match self.check_common(&other) {
                Some(step) => step,
                None => (Phase::AwaitFirst { deadline }, Action::Wait),
            },
        }
    }

    /// What a socket's word makes of a gap, or the end that it leads to.
    fn stream(&self, sync: GapSync, input: Result<LiveSocketEvent, ProviderError>) -> (
    streamed: Result<GapSync, (Phase, Action)>)
        requires
            sync.well_formed(),
        ensures
            match (streamed, self.streamed(sync@, input)) {
                (Ok(next), Ok(view)) => next.well_formed() && next@ == view,
                (Err(step), Err(expected)) => step.0 is Ended && step.1 is Finish && is_step(
                    step,
                    expected,
                ),
                _ => false,
            },
    {
        match input {
            Ok(LiveSocketEvent::Candle(candle)) => match self.extend(sync, candle) {
                Ok(next) => Ok(next),
                Err(error) => Err(fail(error)),
            },
            Ok(LiveSocketEvent::Ignored) => Ok(sync),
            Ok(LiveSocketEvent::ProtocolViolation(detail)) => Err(
                reconnect(self.market.live_protocol_error(detail)),
            ),
            Ok(LiveSocketEvent::ReconnectRequested) => Err(
                reconnect(self.market.live_protocol_error("WebSocket peer requested reconnect")),
            ),
            Ok(LiveSocketEvent::DecodedError(error)) => Err(fail_socket(error)),
            Err(error) => Err(fail_socket(error)),
        }
    }

    fn on_fetching(
        &self,
        sync: GapSync,
        cursor: i64,
        request_target: i64,
        event: LiveEvent,
        seen: &Observed,
    ) -> (step: (Phase, Action))
        requires
            self.valid(),
            sync.well_formed(),
        ensures
            self.holds(step.0),
            is_step(step, self.step_fetching(sync@, cursor, request_target, event, *seen)),
    {
        if seen.cancelled {
            return finish(Ok(GenerationOutcome::Cancelled));
        }
        match event {
            LiveEvent::Watermark(Ok(watermark)) => match self.raise(sync, watermark) {
                Ok(next) => (Phase::Fetching { sync: next, cursor, request_target }, Action::Wait),
                Err(error) => fail(error),
            },
            LiveEvent::Socket(input) => match self.stream(sync, input) {
                Ok(next) => (Phase::Fetching { sync: next, cursor, request_target }, Action::Wait),
                Err(step) => step,
            },
            LiveEvent::Page(page) => (
                Phase::Draining { sync, cursor, request_target, page },
                Action::Drain,
            ),
            other => match self.check_common(&other) {
                Some(step) => step,
                None => (Phase::Fetching { sync, cursor, request_target }, Action::Wait),
            },
        }
    }

    fn on_draining(
        &self,
        sync: GapSync,
        cursor: i64,
        request_target: i64,
        page: PageResult,
        event: LiveEvent,
        seen: &Observed,
    ) -> (step: (Phase, Action))
        requires
            self.valid(),
            sync.well_formed(),
        ensures
            self.holds(step.0),
            is_step(
                step,
                self.step_draining(sync@, cursor, request_target, page_view(page), event, *seen),
            ),
    {
        match event {
            LiveEvent::Watermark(Ok(watermark)) => match self.raise(sync, watermark) {
                Err(error) => fail(error),
                Ok(next) => {
                    if seen.cancelled {
                        return finish(Ok(GenerationOutcome::Cancelled));
                    }
                    (
                        Phase::FollowingUp { sync: next, cursor, request_target, page },
                        Action::FollowUp,
                    )
                },
            },
            other => self.on_following(sync, cursor, request_target, page, other, seen),
        }
    }

    fn on_following(
        &self,
        sync: GapSync,
        cursor: i64,
        request_target: i64,
        page: PageResult,
        event: LiveEvent,
        seen: &Observed,
    ) -> (step: (Phase, Action))
        requires
            self.valid(),
            sync.well_formed(),
        ensures
            self.holds(step.0),
            is_step(
                step,
                self.step_following(sync@, cursor, request_target, page_view(page), event, *seen),
            ),
    {
        let ghost marker = (PhaseView::Ended, ActionView::Wait);
        let streamed = match event {
            LiveEvent::Socket(input) => self.stream(sync, input),
            other => {
                let end = self.check_common(&other);
                proof {
                    let step = self.common(marker, other);
                    assert(match end {
                        Some(found) => is_step(found, step) && step != marker,
                        None => step == marker,
                    });
                }
                match end {
                    Some(step) => Err(step),
                    None => Ok(sync),
                }
            },
        };
        match streamed {
            Err(step) => {
                if seen.cancelled {
                    if let Action::Finish(Ok(_)) = &step.1 {
                        return finish(Ok(GenerationOutcome::Cancelled));
                    }
                }
                step
            },
            Ok(next) => {
                if seen.cancelled {
                    return finish(Ok(GenerationOutcome::Cancelled));
                }
                self.turn(next, cursor, request_target, page)
            },
        }
    }

    fn is_acknowledged(&self, ack: ReconcileAck, sync: &GapSync) -> (acknowledged: bool)
        ensures
            acknowledged == self.acknowledges(ack, sync@),
    {
        ack.generation == self.generation && ack.revision == sync.revision && ack.through
            >= sync.target_open_time
    }

    fn timeout_ack(&self, sync: &GapSync) -> (error: ProviderError)
        ensures
            error == self.ack_timeout(sync@),
    {
        ProviderError::ReconcileAckTimeout {
            generation: self.generation,
            revision: sync.revision,
            target_open_time: sync.target_open_time,
        }
    }

    fn on_ack(
        &self,
        sync: GapSync,
        deadline: MonoInstant,
        deferred: Option<ProviderError>,
        event: LiveEvent,
        seen: &Observed,
    ) -> (step: (Phase, Action))
        requires
            self.valid(),
            sync.well_formed(),
        ensures
            self.holds(step.0),
            is_step(step, self.step_ack(sync@, deadline, deferred, event, *seen)),
    {
        match event {
            LiveEvent::Socket(input) => match input {
                Err(error) => fail(error),
                Ok(LiveSocketEvent::Candle(candle)) => match self.extend(sync, candle) {
                    Err(error) => fail(error),
                    Ok(next) => self.resume(next),
                },
                Ok(LiveSocketEvent::Ignored) => match seen.acknowledged {
                    Err(_) => fail(self.market.control_channel_closed()),
                    Ok(standing) => {
                        if let Some(ack) = standing {
                            if self.is_acknowledged(ack, &sync) {
                                return self.confirm(deferred);
                            }
                        }
                        if seen.now.0 >= deadline.0 {
                            return reconnect(self.timeout_ack(&sync));
                        }
                        (Phase::AwaitAck { sync, deadline, deferred }, Action::Wait)
                    },
                },
                Ok(LiveSocketEvent::ReconnectRequested) => reconnect(
                    self.market.live_protocol_error("WebSocket peer requested reconnect"),
                ),
                Ok(LiveSocketEvent::ProtocolViolation(detail)) => reconnect(
                    self.market.live_protocol_error(detail),
                ),
                Ok(LiveSocketEvent::DecodedError(error)) => {
                    if is_terminal_live_error(&error) {
                        return fail(error);
                    }
                    (Phase::AwaitAck { sync, deadline, deferred: Some(error) }, Action::Wait)
                },
            },
            LiveEvent::Ack(Ok(ack)) => {
                if self.is_acknowledged(ack, &sync) {
                    return self.confirm(deferred);
                }
                (Phase::AwaitAck { sync, deadline, deferred }, Action::Wait)
            },
            LiveEvent::DeadlineElapsed => {
                if let Ok(Some(ack)) = seen.acknowledged {
                    if self.is_acknowledged(ack, &sync) {
                        return self.confirm(deferred);
                    }
                }
                reconnect(self.timeout_ack(&sync))
            },
            other => match self.check_common(&other) {
                Some(step) => step,
                None => (Phase::AwaitAck { sync, deadline, deferred }, Action::Wait),
            },
        }
    }

    fn drop_connection(queued: bool, error: ProviderError) -> (step: (Phase, Action))
        ensures
            step.0 is Ended,
            is_step(step, Generation::drops(queued, error)),
    {
        if queued {
            finish(Ok(GenerationOutcome::AcknowledgedReconnect(error)))
        } else {
            reconnect(error)
        }
    }

    fn on_connected_input(
        &self,
        queued: bool,
        pending: KeyedCandleBuffer,
        input: Result<LiveSocketEvent, ProviderError>,
        seen: &Observed,
    ) -> (step: (Phase, Action))
        requires
            pending.well_formed(),
            pending.limit() == Some(self.keyed_candle_capacity),
        ensures
            self.holds(step.0),
            is_step(step, self.step_connected(queued, pending@, LiveEvent::Socket(input), *seen)),
    {
        if self.rotation.is_elapsed(seen.now) {
            if let Some((_, detail)) = self.rotation.due {
                return Generation::drop_connection(queued, self.market.live_protocol_error(detail));
            }
        }
        match input {
            Ok(LiveSocketEvent::Candle(candle)) => {
                let mut pending = pending;
                match pending.push(candle) {
                    Err(error) => Generation::drop_connection(queued, error),
                    Ok(_) => (Phase::Connected { queued, pending }, Action::Wait),
                }
            },
            Ok(LiveSocketEvent::Ignored) => (Phase::Connected { queued, pending }, Action::Wait),
            Ok(LiveSocketEvent::ProtocolViolation(detail)) => Generation::drop_connection(
                queued,
                self.market.live_protocol_error(detail),
            ),
            Ok(LiveSocketEvent::ReconnectRequested) => Generation::drop_connection(
                queued,
                self.market.live_protocol_error("WebSocket peer requested reconnect"),
            ),
            Ok(LiveSocketEvent::DecodedError(error)) => {
                if is_terminal_live_error(&error) {
                    return fail(error);
                }
                Generation::drop_connection(queued, error)
            },
            Err(error) => {
                if is_terminal_live_error(&error) {
                    return fail(error);
                }
                Generation::drop_connection(queued, error)
            },
        }
    }

    fn on_connected(
        &self,
        queued: bool,
        pending: KeyedCandleBuffer,
        event: LiveEvent,
        seen: &Observed,
    ) -> (step: (Phase, Action))
        requires
            pending.well_formed(),
            pending.limit() == Some(self.keyed_candle_capacity),
        ensures
            self.holds(step.0),
            is_step(step, self.step_connected(queued, pending@, event, *seen)),
    {
        match event {
            LiveEvent::Sent(Err(error)) => fail(error),
            LiveEvent::Sent(Ok(())) => (Phase::Connected { queued: true, pending }, Action::Wait),
            LiveEvent::Room(Err(error)) => fail(error),
            LiveEvent::Room(Ok(())) => {
                if !queued {
                    return (Phase::Connected { queued, pending }, Action::Wait);
                }
                let ghost held = pending@;
                let mut pending = pending;
                match pending.pop_first() {
                    Some(candle) => {
                        proof {
                            lemma_least(held, candle);
                            assert(held.contains_key(candle.opens_at()));
                            assert(held.dom() != Set::<i64>::empty());
                        }
                        (Phase::Connected { queued, pending }, Action::Emit(candle))
                    },
                    None => (Phase::Connected { queued, pending }, Action::Wait),
                }
            },
            LiveEvent::Socket(input) => self.on_connected_input(queued, pending, input, seen),
            LiveEvent::RotationElapsed => match self.rotation.due {
                Some((_, detail)) => Generation::drop_connection(
                    queued,
                    self.market.live_protocol_error(detail),
                ),
                None => (Phase::Connected { queued, pending }, Action::Wait),
            },
            other => match self.check_common(&other) {
                Some(step) => step,
                None => (Phase::Connected { queued, pending }, Action::Wait),
            },
        }
    }

    fn on_registering(&self, sync: GapSync, event: LiveEvent) -> (step: (Phase, Action))
        requires
            sync.well_formed(),
        ensures
            self.holds(step.0),
            forall|startup: Option<i64>, seen: Observed|
                is_step(
                    step,
                    #[trigger] self.next(
                        PhaseView::Registering { sync: sync@ },
                        startup,
                        event,
                        seen,
                    ),
                ),
    {
        match event {
            LiveEvent::Registered(Ok(_)) => {
                let candles = sync.buffered.values();
                proof {
                    crate::provider::runtime::buffer::law_listing_is_single(
                        sync@.held,
                        candles@,
                        crate::provider::runtime::buffer::listing(sync@.held),
                    );
                }
                let batch = MarketEvent::ReconcileBatch {
                    generation: self.generation,
                    revision: sync.revision,
                    target_open_time: sync.target_open_time,
                    candles,
                };
                (Phase::Publishing { sync }, Action::Send(batch))
            },
            LiveEvent::Registered(Err(ReconcileExpectationError::Closed)) => fail(
                self.market.control_channel_closed(),
            ),
            LiveEvent::Registered(Err(_)) => fail(
                ProviderError::Invariant("reconciliation expectation invariant violated"),
            ),
            other => match self.check_common(&other) {
                Some(step) => step,
                None => (Phase::Registering { sync }, Action::Wait),
            },
        }
    }

    fn on_publishing(&self, sync: GapSync, event: LiveEvent, seen: &Observed) -> (step: (
        Phase,
        Action,
    ))
        requires
            sync.well_formed(),
        ensures
            self.holds(step.0),
            forall|startup: Option<i64>|
                is_step(
                    step,
                    #[trigger] self.next(
                        PhaseView::Publishing { sync: sync@ },
                        startup,
                        event,
                        *seen,
                    ),
                ),
    {
        match event {
            LiveEvent::Sent(Err(error)) => fail(error),
            LiveEvent::Sent(Ok(())) => match checked_deadline(
                seen.now,
                self.reconcile_ack_timeout,
            ) {
                Err(_) => fail(ProviderError::Invariant("ack deadline overflow")),
                Ok(deadline) => (
                    Phase::AwaitAck { sync, deadline, deferred: None },
                    Action::Wait,
                ),
            },
            other => match self.check_common(&other) {
                Some(step) => step,
                None => (Phase::Publishing { sync }, Action::Wait),
            },
        }
    }

    /// Takes what happened, and gives the next phase and what to do.
    pub fn step(
        &self,
        phase: Phase,
        startup_watermark: Option<i64>,
        event: LiveEvent,
        seen: &Observed,
    ) -> (step: (Phase, Action))
        requires
            self.valid(),
            self.holds(phase),
        ensures
            self.holds(step.0),
            is_step(step, self.next(phase@, startup_watermark, event, *seen)),
    {
        match phase {
            Phase::AwaitFirst { deadline } => self.on_first(
                deadline,
                startup_watermark,
                event,
                seen,
            ),
            Phase::Fetching { sync, cursor, request_target } => self.on_fetching(
                sync,
                cursor,
                request_target,
                event,
                seen,
            ),
            Phase::Draining { sync, cursor, request_target, page } => self.on_draining(
                sync,
                cursor,
                request_target,
                page,
                event,
                seen,
            ),
            Phase::FollowingUp { sync, cursor, request_target, page } => self.on_following(
                sync,
                cursor,
                request_target,
                page,
                event,
                seen,
            ),
            Phase::Registering { sync } => self.on_registering(sync, event),
            Phase::Publishing { sync } => self.on_publishing(sync, event, seen),
            Phase::AwaitAck { sync, deadline, deferred } => self.on_ack(
                sync,
                deadline,
                deferred,
                event,
                seen,
            ),
            Phase::Connected { queued, pending } => self.on_connected(
                queued,
                pending,
                event,
                seen,
            ),
            Phase::Ended => (Phase::Ended, Action::Wait),
        }
    }

    /// Before a connected generation waits, it looks at the rate gate.
    pub fn before_wait(&self, phase: &Phase, gate: Result<RateGateState, RateGateClosed>) -> (
    blocked: Option<ProviderError>)
        ensures
            blocked == (if phase is Connected && (gate matches Ok(state) && state.blocked()) {
                Some(crate::provider::runtime::live::block_error(self.process_block))
            } else {
                None
            }),
    {
        match (phase, gate) {
            (Phase::Connected { .. }, Ok(state)) => if state.is_process_blocked() {
                Some(process_block_error(self.process_block))
            } else {
                None
            },
            _ => None,
        }
    }
}

} // verus!
