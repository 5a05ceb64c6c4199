use std::time::Duration;

use fccli::candle::{Candle, CandleValues, Decimal, FinalityAuthority};
use fccli::error::{ErrorContext, ErrorOperation, ProviderError, SanitizedCause, TimeoutKind};
use fccli::event::MarketEvent;
use fccli::model::{
    ConnectionStatus, GapGeneration, HistoryRequest, Instrument, Market, MonoInstant, ProcessBlocker, RateGateState,
    ReplayRevision, Timeframe,
};
use fccli::provider::runtime::generation::{
    Action, Generation, GenerationOutcome, Listening, LiveEvent, Observed, Phase,
};
use fccli::provider::runtime::live::{
    ActiveRotation, LiveMarket, LiveSocketEvent, ProcessBlockPolicy, ReconciliationLimits,
    ReconciliationPolicy,
};
use fccli::provider::{
    AcceptedWatermarkClosed, ExpectationUpdate, RateGateClosed, ReconcileAck, ReconcileAckClosed,
    ReconcileExpectation, ReconcileExpectationError,
};

const MINUTE: i64 = 60_000;
const SECOND: u64 = 1_000_000_000;

fn market() -> LiveMarket {
    LiveMarket {
        instrument: Instrument {
            provider: "binance".to_owned(),
            market: Market::Spot,
            base: "BTC".to_owned(),
            quote: "USDT".to_owned(),
            provider_symbol: "BTCUSDT".to_owned(),
        },
        timeframe: Timeframe::Minute1,
    }
}

fn context(operation: ErrorOperation) -> ErrorContext {
    let market = market();
    ErrorContext::market(operation, &market.instrument, market.timeframe)
}

fn generation(reconciliation: ReconciliationPolicy, due: Option<(MonoInstant, &'static str)>) -> Generation {
    Generation {
        market: market(),
        generation: GapGeneration(1),
        reconciliation,
        process_block: ProcessBlockPolicy::InvalidBanExpiry,
        rotation: ActiveRotation { due },
        gap_page_limit: 3,
        keyed_candle_capacity: 2,
        reconcile_ack_timeout: Duration::from_secs(10),
    }
}

fn plain() -> Generation {
    generation(ReconciliationPolicy::Unbounded, None)
}

fn candle(open_time: i64, authority: FinalityAuthority) -> Candle {
    let one = Decimal::from_bits(1.0_f64.to_bits()).unwrap();
    Candle {
        values: CandleValues {
            open_time,
            close_time: open_time + MINUTE - 1,
            open: one,
            high: one,
            low: one,
            close: one,
            base_volume: one,
        },
        authority,
    }
}

fn streamed(open_time: i64) -> Candle {
    candle(open_time, FinalityAuthority::WsAuthoritativeOpen)
}

fn recorded(open_time: i64) -> Candle {
    candle(open_time, FinalityAuthority::RestProvisionalOpen)
}

fn socket(event: LiveSocketEvent) -> LiveEvent {
    LiveEvent::Socket(Ok(event))
}

fn at(now: u64) -> Observed {
    Observed {
        now: MonoInstant(now),
        cancelled: false,
        acknowledged: Ok(None),
        accepted: Ok(None),
    }
}

fn begun(terms: &Generation) -> Phase {
    let (phase, action) = terms.begin(MonoInstant(0), Duration::from_secs(10));
    assert_eq!(action, Action::Wait);
    phase
}

fn ack(revision: u64, through: i64) -> ReconcileAck {
    ReconcileAck {
        generation: GapGeneration(1),
        revision: ReplayRevision(revision),
        through,
    }
}

fn reconnect(error: ProviderError) -> Action {
    Action::Finish(Ok(GenerationOutcome::Reconnect(error)))
}

fn protocol(detail: &'static str) -> ProviderError {
    ProviderError::Protocol {
        context: context(ErrorOperation::WebSocket),
        detail,
    }
}

/// Brings a generation to where its replay, of one candle, waits for its acknowledgement.
fn awaiting(terms: &Generation) -> Phase {
    let (phase, action) =
        terms.step(begun(terms), None, socket(LiveSocketEvent::Candle(streamed(0))), &at(0));
    assert_eq!(action, Action::Fetch(HistoryRequest::gap(0, 0, 3).unwrap()));
    let (phase, action) = terms.step(phase, None, LiveEvent::Page(Ok(vec![])), &at(0));
    assert_eq!(action, Action::Drain);
    let (phase, _) = terms.step(phase, None, LiveEvent::NothingReady, &at(0));
    let (phase, _) = terms.step(
        phase,
        None,
        LiveEvent::Registered(Ok(ExpectationUpdate::Registered)),
        &at(0),
    );
    let (phase, action) = terms.step(phase, None, LiveEvent::Sent(Ok(())), &at(0));
    assert_eq!(action, Action::Wait);
    phase
}

/// Brings a generation to where it is connected, and the consumer knows.
fn connected(terms: &Generation) -> Phase {
    let (phase, action) = terms.step(awaiting(terms), None, LiveEvent::Ack(Ok(ack(1, 0))), &at(0));
    assert_eq!(action, Action::Wait);
    let (phase, action) = terms.step(phase, None, LiveEvent::Sent(Ok(())), &at(0));
    assert_eq!(action, Action::Wait);
    phase
}

#[test]
fn a_generation_fills_its_gap_and_streams() {
    let terms = plain();
    let seen = Observed { accepted: Ok(Some(0)), ..at(1) };
    let (phase, action) = terms.step(
        begun(&terms),
        None,
        socket(LiveSocketEvent::Candle(streamed(4 * MINUTE))),
        &seen,
    );
    assert_eq!(action, Action::Fetch(HistoryRequest::gap(0, 4 * MINUTE, 3).unwrap()));
    let (phase, action) = terms.step(
        phase,
        None,
        LiveEvent::Page(Ok(vec![recorded(0), recorded(MINUTE), recorded(2 * MINUTE)])),
        &seen,
    );
    assert_eq!(action, Action::Drain);
    let (phase, action) = terms.step(phase, None, LiveEvent::NothingReady, &seen);
    assert_eq!(
        action,
        Action::Fetch(HistoryRequest::gap(2 * MINUTE + 1, 4 * MINUTE, 3).unwrap())
    );
    let (phase, _) = terms.step(
        phase,
        None,
        LiveEvent::Page(Ok(vec![recorded(3 * MINUTE), recorded(4 * MINUTE)])),
        &seen,
    );
    let (phase, action) = terms.step(phase, None, LiveEvent::NothingReady, &seen);
    assert_eq!(
        action,
        Action::Register(ReconcileExpectation {
            generation: GapGeneration(1),
            revision: ReplayRevision(1),
            target_open_time: 4 * MINUTE,
        })
    );
    let (phase, action) = terms.step(
        phase,
        None,
        LiveEvent::Registered(Ok(ExpectationUpdate::Registered)),
        &seen,
    );
    assert_eq!(
        action,
        Action::Send(MarketEvent::ReconcileBatch {
            generation: GapGeneration(1),
            revision: ReplayRevision(1),
            target_open_time: 4 * MINUTE,
            candles: vec![
                recorded(0),
                recorded(MINUTE),
                recorded(2 * MINUTE),
                recorded(3 * MINUTE),
                streamed(4 * MINUTE),
            ],
        })
    );
    let (phase, _) = terms.step(phase, None, LiveEvent::Sent(Ok(())), &seen);
    let (phase, action) =
        terms.step(phase, None, LiveEvent::Ack(Ok(ack(1, 3 * MINUTE))), &seen);
    assert_eq!(action, Action::Wait);
    let (phase, _) = terms.step(phase, None, LiveEvent::Ack(Ok(ack(1, 4 * MINUTE))), &seen);
    let (phase, _) = terms.step(phase, None, LiveEvent::Sent(Ok(())), &seen);
    let (phase, _) = terms.step(
        phase,
        None,
        socket(LiveSocketEvent::Candle(streamed(6 * MINUTE))),
        &seen,
    );
    let (phase, _) = terms.step(
        phase,
        None,
        socket(LiveSocketEvent::Candle(streamed(5 * MINUTE))),
        &seen,
    );
    let (phase, action) = terms.step(phase, None, LiveEvent::Room(Ok(())), &seen);
    assert_eq!(action, Action::Emit(streamed(5 * MINUTE)));
    let (phase, action) = terms.step(phase, None, LiveEvent::Room(Ok(())), &seen);
    assert_eq!(action, Action::Emit(streamed(6 * MINUTE)));
    let (phase, action) = terms.step(phase, None, LiveEvent::Room(Ok(())), &seen);
    assert_eq!(action, Action::Wait);
    let (phase, action) = terms.step(phase, None, LiveEvent::Cancelled, &seen);
    assert_eq!(action, Action::Finish(Ok(GenerationOutcome::Cancelled)));
    assert!(matches!(phase, Phase::Ended));
}

#[test]
fn the_later_watermark_opens_the_gap() {
    let terms = plain();
    let seen = Observed { accepted: Ok(Some(MINUTE)), ..at(1) };
    let (_, action) = terms.step(
        begun(&terms),
        Some(2 * MINUTE),
        socket(LiveSocketEvent::Candle(streamed(3 * MINUTE))),
        &seen,
    );
    assert_eq!(
        action,
        Action::Fetch(HistoryRequest::gap(2 * MINUTE, 3 * MINUTE, 3).unwrap())
    );
}

#[test]
fn the_first_candle_must_come_in_time() {
    let terms = generation(ReconciliationPolicy::Unbounded, Some((MonoInstant(5 * SECOND), "old")));
    let late = ProviderError::Timeout {
        context: context(ErrorOperation::WebSocket),
        kind: TimeoutKind::FirstKline,
    };
    let (_, action) = terms.step(begun(&terms), None, LiveEvent::DeadlineElapsed, &at(0));
    assert_eq!(action, reconnect(late.clone()));
    let (_, action) =
        terms.step(begun(&terms), None, socket(LiveSocketEvent::Ignored), &at(10 * SECOND));
    assert_eq!(action, reconnect(late));
    let (_, action) =
        terms.step(begun(&terms), None, socket(LiveSocketEvent::Ignored), &at(5 * SECOND));
    assert_eq!(action, reconnect(protocol("old")));
    let (_, action) =
        terms.step(begun(&terms), None, socket(LiveSocketEvent::Ignored), &at(SECOND));
    assert_eq!(action, Action::Wait);
    let (_, action) = terms.step(begun(&terms), None, LiveEvent::RotationElapsed, &at(0));
    assert_eq!(action, reconnect(protocol("old")));
    let (phase, action) = terms.begin(MonoInstant(u64::MAX), Duration::from_secs(10));
    assert_eq!(
        action,
        Action::Finish(Err(ProviderError::Invariant("first-kline deadline overflow")))
    );
    assert!(matches!(phase, Phase::Ended));
}

#[test]
fn every_phase_ends_with_its_channels() {
    let terms = plain();
    let closed = ProviderError::ChannelClosed {
        context: context(ErrorOperation::Reconciliation),
    };
    for (event, error) in [
        (LiveEvent::Watermark(Err(AcceptedWatermarkClosed)), closed.clone()),
        (LiveEvent::Ack(Err(ReconcileAckClosed)), closed),
        (
            LiveEvent::Gate(Err(RateGateClosed)),
            ProviderError::Invariant("rate gate closed"),
        ),
        (
            LiveEvent::Gate(Ok(RateGateState::ProcessBlocked(ProcessBlocker::InvalidBanExpiry))),
            ProviderError::InvalidBanExpiry,
        ),
    ] {
        let (_, action) = terms.step(begun(&terms), None, event, &at(0));
        assert_eq!(action, Action::Finish(Err(error)));
    }
    let (_, action) =
        terms.step(begun(&terms), None, LiveEvent::Gate(Ok(RateGateState::Open)), &at(0));
    assert_eq!(action, Action::Wait);
    let (_, action) = terms.step(begun(&terms), None, LiveEvent::Cancelled, &at(0));
    assert_eq!(action, Action::Finish(Ok(GenerationOutcome::Cancelled)));
}

#[test]
fn a_socket_error_ends_the_feed_only_where_it_is_terminal() {
    let terms = plain();
    let (_, action) = terms.step(
        begun(&terms),
        None,
        socket(LiveSocketEvent::DecodedError(ProviderError::Invariant("x"))),
        &at(0),
    );
    assert_eq!(action, Action::Finish(Err(ProviderError::Invariant("x"))));
    let io = ProviderError::Transport {
        context: context(ErrorOperation::WebSocket),
        cause: SanitizedCause::Io,
    };
    let (_, action) = terms.step(
        begun(&terms),
        None,
        socket(LiveSocketEvent::DecodedError(io.clone())),
        &at(0),
    );
    assert_eq!(action, reconnect(io));
    let (_, action) =
        terms.step(begun(&terms), None, socket(LiveSocketEvent::ReconnectRequested), &at(0));
    assert_eq!(action, reconnect(protocol("WebSocket peer requested reconnect")));
}

#[test]
fn a_page_without_progress_gives_the_connection_up() {
    let terms = plain();
    let seen = Observed { accepted: Ok(Some(0)), ..at(1) };
    let fetching = |terms: &Generation| {
        terms
            .step(
                begun(terms),
                None,
                socket(LiveSocketEvent::Candle(streamed(4 * MINUTE))),
                &seen,
            )
            .0
    };
    let stuck = |last_open_time: Option<i64>| {
        reconnect(ProviderError::GapSyncNoProgress {
            target_open_time: 4 * MINUTE,
            last_open_time,
        })
    };
    for (page, last) in [
        (vec![], None),
        (vec![recorded(-MINUTE)], Some(-MINUTE)),
        (vec![recorded(0), recorded(MINUTE)], Some(MINUTE)),
    ] {
        let (phase, _) = terms.step(fetching(&terms), None, LiveEvent::Page(Ok(page)), &seen);
        let (_, action) = terms.step(phase, None, LiveEvent::NothingReady, &seen);
        assert_eq!(action, stuck(last));
    }
    let (phase, _) = terms.step(
        fetching(&terms),
        None,
        LiveEvent::Page(Err(ProviderError::QueueSaturated)),
        &seen,
    );
    let (_, action) = terms.step(phase, None, LiveEvent::NothingReady, &seen);
    assert_eq!(action, Action::Finish(Err(ProviderError::QueueSaturated)));
}

#[test]
fn what_streams_in_while_a_page_is_fetched_moves_the_target() {
    let terms = plain();
    let seen = Observed { accepted: Ok(Some(0)), ..at(1) };
    let (phase, _) =
        terms.step(begun(&terms), None, socket(LiveSocketEvent::Candle(streamed(0))), &seen);
    let (phase, action) =
        terms.step(phase, None, socket(LiveSocketEvent::Candle(streamed(MINUTE))), &seen);
    assert_eq!(action, Action::Wait);
    let (phase, action) =
        terms.step(phase, None, LiveEvent::Watermark(Ok(Some(2 * MINUTE))), &seen);
    assert_eq!(action, Action::Wait);
    let (phase, _) = terms.step(phase, None, LiveEvent::Page(Ok(vec![recorded(0)])), &seen);
    let (phase, action) =
        terms.step(phase, None, LiveEvent::Watermark(Ok(Some(3 * MINUTE))), &seen);
    assert_eq!(action, Action::FollowUp);
    let (_, action) = terms.step(phase, None, LiveEvent::NothingReady, &seen);
    assert_eq!(action, Action::Fetch(HistoryRequest::gap(1, 3 * MINUTE, 3).unwrap()));
}

#[test]
fn cancellation_stops_a_fetch() {
    let terms = plain();
    let (phase, _) =
        terms.step(begun(&terms), None, socket(LiveSocketEvent::Candle(streamed(0))), &at(0));
    let cancelled = Observed { cancelled: true, ..at(0) };
    let (_, action) = terms.step(
        phase,
        None,
        LiveEvent::Page(Err(ProviderError::Invariant("late"))),
        &cancelled,
    );
    assert_eq!(action, Action::Finish(Ok(GenerationOutcome::Cancelled)));
}

#[test]
fn a_gap_beyond_its_limits_fails_the_feed() {
    let limits = ReconciliationLimits {
        max_successors: 2,
        max_pages: 1,
        span_exceeded: "span",
        page_exceeded: "page",
        distinct_exceeded: "distinct",
    };
    let terms = generation(ReconciliationPolicy::Bounded(limits), None);
    let seen = Observed { accepted: Ok(Some(0)), ..at(1) };
    let (_, action) = terms.step(
        begun(&terms),
        None,
        socket(LiveSocketEvent::Candle(streamed(3 * MINUTE))),
        &seen,
    );
    assert!(matches!(action, Action::Finish(Err(_))));
    let (phase, _) = terms.step(
        begun(&terms),
        None,
        socket(LiveSocketEvent::Candle(streamed(2 * MINUTE))),
        &seen,
    );
    let page = vec![recorded(0), recorded(1), recorded(MINUTE)];
    let (phase, _) = terms.step(phase, None, LiveEvent::Page(Ok(page)), &seen);
    let (_, action) = terms.step(phase, None, LiveEvent::NothingReady, &seen);
    assert_eq!(
        action,
        Action::Finish(Err(ProviderError::Protocol {
            context: context(ErrorOperation::Reconciliation),
            detail: "page",
        }))
    );
}

#[test]
fn a_refused_expectation_fails_the_feed() {
    let terms = plain();
    let registering = |terms: &Generation| {
        let (phase, _) =
            terms.step(begun(terms), None, socket(LiveSocketEvent::Candle(streamed(0))), &at(0));
        let (phase, _) = terms.step(phase, None, LiveEvent::Page(Ok(vec![])), &at(0));
        terms.step(phase, None, LiveEvent::NothingReady, &at(0)).0
    };
    let (_, action) = terms.step(
        registering(&terms),
        None,
        LiveEvent::Registered(Err(ReconcileExpectationError::Closed)),
        &at(0),
    );
    assert_eq!(
        action,
        Action::Finish(Err(ProviderError::ChannelClosed {
            context: context(ErrorOperation::Reconciliation)
        }))
    );
    let (_, action) = terms.step(
        registering(&terms),
        None,
        LiveEvent::Registered(Err(ReconcileExpectationError::Conflict)),
        &at(0),
    );
    assert_eq!(
        action,
        Action::Finish(Err(ProviderError::Invariant(
            "reconciliation expectation invariant violated"
        )))
    );
}

#[test]
fn an_acknowledgement_must_come_in_time() {
    let terms = plain();
    let late = reconnect(ProviderError::ReconcileAckTimeout {
        generation: GapGeneration(1),
        revision: ReplayRevision(1),
        target_open_time: 0,
    });
    let (_, action) = terms.step(awaiting(&terms), None, LiveEvent::DeadlineElapsed, &at(0));
    assert_eq!(action, late);
    let (_, action) = terms.step(
        awaiting(&terms),
        None,
        socket(LiveSocketEvent::Ignored),
        &at(10 * SECOND),
    );
    assert_eq!(action, late);
    let acknowledged = Observed { acknowledged: Ok(Some(ack(1, 0))), ..at(10 * SECOND) };
    for event in [LiveEvent::DeadlineElapsed, socket(LiveSocketEvent::Ignored)] {
        let (phase, action) = terms.step(awaiting(&terms), None, event, &acknowledged);
        assert_eq!(action, Action::Wait);
        assert!(matches!(phase, Phase::Connected { queued: false, .. }));
    }
}

#[test]
fn a_candle_before_the_acknowledgement_makes_a_new_replay() {
    let terms = plain();
    let (phase, action) = terms.step(
        awaiting(&terms),
        None,
        socket(LiveSocketEvent::Candle(streamed(MINUTE))),
        &at(0),
    );
    // Nothing was synced, so the fetching starts over.
    assert_eq!(action, Action::Fetch(HistoryRequest::gap(0, MINUTE, 3).unwrap()));
    assert!(matches!(phase, Phase::Fetching { .. }));
}

#[test]
fn an_error_before_the_acknowledgement_waits_for_it() {
    let terms = plain();
    let error = || protocol("odd");
    let (phase, action) = terms.step(
        awaiting(&terms),
        None,
        socket(LiveSocketEvent::DecodedError(error())),
        &at(0),
    );
    assert_eq!(action, Action::Wait);
    let (_, action) = terms.step(phase, None, LiveEvent::Ack(Ok(ack(1, 0))), &at(0));
    assert_eq!(action, reconnect(error()));
}

#[test]
fn a_phase_says_what_it_listens_to() {
    let terms = plain();
    let quiet = Listening { socket: true, announcement: false, room: false };
    assert_eq!(Generation::listens(&begun(&terms)), quiet);
    let waiting = awaiting(&terms);
    assert_eq!(Generation::listens(&waiting), quiet);
    let (deferred, _) = terms.step(
        waiting,
        None,
        socket(LiveSocketEvent::DecodedError(protocol("odd"))),
        &at(0),
    );
    assert_eq!(
        Generation::listens(&deferred),
        Listening { socket: false, ..quiet }
    );
    let (fresh, _) = terms.step(awaiting(&terms), None, LiveEvent::Ack(Ok(ack(1, 0))), &at(0));
    assert_eq!(
        Generation::listens(&fresh),
        Listening { announcement: true, ..quiet }
    );
    let told = connected(&terms);
    assert_eq!(Generation::listens(&told), quiet);
    let (holding, _) =
        terms.step(told, None, socket(LiveSocketEvent::Candle(streamed(MINUTE))), &at(0));
    assert_eq!(
        Generation::listens(&holding),
        Listening { room: true, ..quiet }
    );
}

#[test]
fn events_carry_their_generation() {
    let terms = plain();
    assert_eq!(
        terms.status(ConnectionStatus::GapSync),
        MarketEvent::Status {
            generation: Some(terms.generation),
            status: ConnectionStatus::GapSync,
        }
    );
    assert_eq!(
        terms.candle_event(streamed(MINUTE)),
        MarketEvent::Candle {
            generation: terms.generation,
            candle: streamed(MINUTE),
        }
    );
}

#[test]
fn a_lost_connection_counts_once_the_consumer_knew_of_it() {
    let terms = plain();
    let lost = || ProviderError::QueueSaturated;
    let (phase, _) = terms.step(awaiting(&terms), None, LiveEvent::Ack(Ok(ack(1, 0))), &at(0));
    let (_, action) = terms.step(phase, None, LiveEvent::Socket(Err(lost())), &at(0));
    assert_eq!(action, reconnect(lost()));
    let (_, action) = terms.step(connected(&terms), None, LiveEvent::Socket(Err(lost())), &at(0));
    assert_eq!(
        action,
        Action::Finish(Ok(GenerationOutcome::AcknowledgedReconnect(lost())))
    );
}

#[test]
fn a_full_buffer_gives_the_connection_up() {
    let terms = plain();
    let mut phase = connected(&terms);
    for time in [MINUTE, 2 * MINUTE, MINUTE] {
        let (next, action) =
            terms.step(phase, None, socket(LiveSocketEvent::Candle(streamed(time))), &at(0));
        assert_eq!(action, Action::Wait);
        phase = next;
    }
    let (_, action) =
        terms.step(phase, None, socket(LiveSocketEvent::Candle(streamed(3 * MINUTE))), &at(0));
    assert_eq!(
        action,
        Action::Finish(Ok(GenerationOutcome::AcknowledgedReconnect(
            ProviderError::QueueSaturated
        )))
    );
}

#[test]
fn an_old_connection_is_given_up_at_the_next_word() {
    let terms = generation(ReconciliationPolicy::Unbounded, Some((MonoInstant(5), "old")));
    let (_, action) = terms.step(
        connected(&terms),
        None,
        socket(LiveSocketEvent::Candle(streamed(MINUTE))),
        &at(5),
    );
    assert_eq!(
        action,
        Action::Finish(Ok(GenerationOutcome::AcknowledgedReconnect(protocol("old"))))
    );
}

#[test]
fn a_blocked_gate_fails_a_connected_feed_before_it_waits() {
    let terms = plain();
    let blocked = Ok(RateGateState::ProcessBlocked(ProcessBlocker::InvalidBanExpiry));
    assert_eq!(
        terms.before_wait(&connected(&terms), blocked),
        Some(ProviderError::InvalidBanExpiry)
    );
    assert_eq!(terms.before_wait(&connected(&terms), Ok(RateGateState::Open)), None);
    assert_eq!(terms.before_wait(&begun(&terms), blocked), None);
}

#[test]
fn an_ended_generation_stays_ended() {
    let terms = plain();
    let (phase, action) = terms.step(Phase::Ended, None, LiveEvent::NothingReady, &at(0));
    assert!(matches!(phase, Phase::Ended));
    assert!(!matches!(action, Action::Send(_) | Action::Emit(_) | Action::Fetch(_)));
}
