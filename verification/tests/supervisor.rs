use std::time::Duration;

use fccli::error::{ErrorContext, ErrorOperation, ProviderError, SanitizedCause};
use fccli::event::MarketEvent;
use fccli::model::{
    ConnectionStatus, GapGeneration, Instrument, Market, MonoInstant, ProcessBlocker,
    RateGateState, Timeframe,
};
use fccli::provider::runtime::generation::GenerationOutcome;
use fccli::provider::runtime::live::{
    ActiveRotation, ConnectionRotation, LiveMarket, ProcessBlockPolicy,
};
use fccli::provider::runtime::supervisor::{
    Backoff, BackoffEvent, BackoffListening, ConnectEvent, Course, Supervisor,
};
use fccli::provider::{AcceptedWatermarkClosed, RateGateClosed, ReconcileAckClosed};

const SECOND: u64 = 1_000_000_000;

fn market() -> LiveMarket {
    LiveMarket {
        instrument: Instrument {
            provider: "okx".to_owned(),
            market: Market::Spot,
            base: "BTC".to_owned(),
            quote: "USDT".to_owned(),
            provider_symbol: "BTC-USDT".to_owned(),
        },
        timeframe: Timeframe::Minute1,
    }
}

fn supervisor() -> Supervisor {
    Supervisor::new(
        market(),
        ProcessBlockPolicy::Forbidden("cannot be"),
        ConnectionRotation::After {
            max_age: Duration::from_secs(9),
            detail: "old",
        },
    )
}

fn closed() -> ProviderError {
    let market = market();
    ProviderError::ChannelClosed {
        context: ErrorContext::market(
            ErrorOperation::Reconciliation,
            &market.instrument,
            market.timeframe,
        ),
    }
}

fn io() -> ProviderError {
    ProviderError::Transport {
        context: ErrorContext::operation(ErrorOperation::WebSocket),
        cause: SanitizedCause::Io,
    }
}

fn blocked() -> Result<RateGateState, RateGateClosed> {
    Ok(RateGateState::ProcessBlocked(ProcessBlocker::InvalidBanExpiry))
}

#[test]
fn each_attempt_has_the_next_number() {
    let mut supervisor = supervisor();
    assert_eq!(supervisor.begin(true, blocked()), Course::Shutdown);
    assert_eq!(
        supervisor.begin(false, blocked()),
        Course::Block(ProviderError::Invariant("cannot be"))
    );
    assert_eq!(
        supervisor.begin(false, Ok(RateGateState::Open)),
        Course::Connect(GapGeneration(1))
    );
    assert_eq!(
        supervisor.begin(false, Err(RateGateClosed)),
        Course::Connect(GapGeneration(2))
    );
    supervisor.generation_number = u64::MAX;
    assert_eq!(
        supervisor.begin(false, Ok(RateGateState::Open)),
        Course::Fail(ProviderError::Invariant("gap generation overflow"))
    );
}

#[test]
fn connecting_listens_to_everything() {
    let supervisor = supervisor();
    let now = MonoInstant(0);
    for (event, course) in [
        (ConnectEvent::Cancelled, Course::Shutdown),
        (
            ConnectEvent::Watermark(Err(AcceptedWatermarkClosed)),
            Course::Announce(closed()),
        ),
        (ConnectEvent::Watermark(Ok(None)), Course::Wait),
        (ConnectEvent::Ack(Err(ReconcileAckClosed)), Course::Announce(closed())),
        (
            ConnectEvent::Gate(Err(RateGateClosed)),
            Course::Announce(ProviderError::Invariant("rate gate closed")),
        ),
        (
            ConnectEvent::Gate(blocked()),
            Course::Block(ProviderError::Invariant("cannot be")),
        ),
        (ConnectEvent::Gate(Ok(RateGateState::Open)), Course::Wait),
        (ConnectEvent::Connected(Err(io())), Course::Recover(io())),
        (
            ConnectEvent::Connected(Err(ProviderError::Configuration("x"))),
            Course::Announce(ProviderError::Configuration("x")),
        ),
        (
            ConnectEvent::Connected(Ok(())),
            Course::Run(ActiveRotation {
                due: Some((MonoInstant(9 * SECOND), "old")),
            }),
        ),
    ] {
        assert_eq!(supervisor.on_connecting(event, now), course);
    }
    assert_eq!(
        supervisor.on_connecting(ConnectEvent::Connected(Ok(())), MonoInstant(u64::MAX)),
        Course::Fail(ProviderError::Invariant("live connection age deadline overflow"))
    );
}

#[test]
fn a_generation_that_was_delivered_starts_the_waits_anew() {
    let mut supervisor = supervisor();
    supervisor.backoff_index = 4;
    let outcome = || Ok(GenerationOutcome::AcknowledgedReconnect(io()));
    assert_eq!(supervisor.conclude(outcome(), false), Course::Recover(io()));
    assert_eq!(supervisor.backoff_index, 4);
    assert_eq!(supervisor.conclude(outcome(), true), Course::Recover(io()));
    assert_eq!(supervisor.backoff_index, 0);
    supervisor.backoff_index = 4;
    assert_eq!(
        supervisor.conclude(Ok(GenerationOutcome::Reconnect(io())), true),
        Course::Recover(io())
    );
    assert_eq!(supervisor.backoff_index, 4);
    assert_eq!(
        supervisor.conclude(Ok(GenerationOutcome::Cancelled), true),
        Course::Shutdown
    );
    assert_eq!(
        supervisor.conclude(Err(ProviderError::Invariant("cannot be")), true),
        Course::Block(ProviderError::Invariant("cannot be"))
    );
    assert_eq!(
        supervisor.conclude(Err(closed()), true),
        Course::Announce(closed())
    );
    assert_eq!(supervisor.conclude(Err(io()), true), Course::Recover(io()));
    assert!(!Supervisor::invalidates(&Ok(GenerationOutcome::Cancelled)));
    assert!(Supervisor::invalidates(&Err(io())));
}

#[test]
fn waits_grow_to_half_a_minute() {
    let mut supervisor = supervisor();
    for seconds in [1, 2, 4, 8, 16, 30, 30, 30] {
        let recovery = supervisor
            .recover(MonoInstant(7), Ok(RateGateState::Open), Some(GapGeneration(3)), io())
            .unwrap();
        assert_eq!(
            recovery.backoff,
            Backoff {
                deadline: MonoInstant(seconds * SECOND + 7),
                deadline_elapsed: false
            }
        );
        assert!(!recovery.emergency);
        assert_eq!(
            recovery.recoverable,
            MarketEvent::RecoverableError {
                generation: Some(GapGeneration(3)),
                error: io(),
                rate_gate_deadline: None,
            }
        );
        assert_eq!(
            recovery.status,
            MarketEvent::Status {
                generation: Some(GapGeneration(3)),
                status: ConnectionStatus::Backoff,
            }
        );
    }
}

#[test]
fn a_wait_outlasts_the_gate() {
    let mut supervisor = supervisor();
    let gate = Ok(RateGateState::TimedUntil(MonoInstant(99 * SECOND)));
    let recovery = supervisor.recover(MonoInstant(0), gate, None, io()).unwrap();
    assert_eq!(recovery.backoff.deadline, MonoInstant(99 * SECOND));
    assert_eq!(
        supervisor.recover(MonoInstant(0), blocked(), None, io()),
        Err(Course::Block(ProviderError::Invariant("cannot be")))
    );
    assert_eq!(
        supervisor.recover(MonoInstant(0), Err(RateGateClosed), None, io()),
        Err(Course::Announce(ProviderError::Invariant("rate gate closed")))
    );
    assert_eq!(
        supervisor.recover(MonoInstant(u64::MAX), Ok(RateGateState::Open), None, io()),
        Err(Course::Fail(ProviderError::Invariant("backoff deadline overflow")))
    );
}

#[test]
fn a_saturated_queue_is_told_from_the_reserve() {
    let mut supervisor = supervisor();
    let recovery = supervisor
        .recover(
            MonoInstant(0),
            Ok(RateGateState::Open),
            Some(GapGeneration(3)),
            ProviderError::QueueSaturated,
        )
        .unwrap();
    assert!(recovery.emergency);
    assert_eq!(
        recovery.status,
        MarketEvent::Status {
            generation: None,
            status: ConnectionStatus::Backoff,
        }
    );
    assert_eq!(
        Supervisor::before_wait(
            Backoff { deadline: MonoInstant(0), deadline_elapsed: true },
            true,
            false
        ),
        Course::Wait
    );
    assert_eq!(
        Supervisor::before_wait(
            Backoff { deadline: MonoInstant(0), deadline_elapsed: true },
            true,
            true
        ),
        Course::Resume
    );
    assert_eq!(
        Supervisor::before_wait(
            Backoff { deadline: MonoInstant(0), deadline_elapsed: false },
            false,
            false
        ),
        Course::Wait
    );
}

#[test]
fn a_wait_is_never_shortened() {
    let supervisor = supervisor();
    let backoff = Backoff { deadline: MonoInstant(10), deadline_elapsed: false };
    let timed = |at: u64| Ok(RateGateState::TimedUntil(MonoInstant(at)));
    for (event, now, next, course) in [
        (
            BackoffEvent::Gate(timed(20)),
            15,
            Backoff { deadline: MonoInstant(20), deadline_elapsed: false },
            Course::Wait,
        ),
        (
            BackoffEvent::Gate(timed(5)),
            15,
            Backoff { deadline: MonoInstant(10), deadline_elapsed: true },
            Course::Wait,
        ),
        (
            BackoffEvent::DeadlineElapsed(timed(20)),
            10,
            Backoff { deadline: MonoInstant(20), deadline_elapsed: false },
            Course::Wait,
        ),
        (
            BackoffEvent::DeadlineElapsed(Ok(RateGateState::Open)),
            10,
            Backoff { deadline: MonoInstant(10), deadline_elapsed: true },
            Course::Wait,
        ),
        (BackoffEvent::ReserveCleared, 0, backoff, Course::Wait),
        (BackoffEvent::Cancelled, 0, backoff, Course::Shutdown),
        (
            BackoffEvent::Watermark(Err(AcceptedWatermarkClosed)),
            0,
            backoff,
            Course::Announce(closed()),
        ),
        (
            BackoffEvent::QueueClosed,
            0,
            backoff,
            Course::Fail(ProviderError::ChannelClosed {
                context: ErrorContext::operation(ErrorOperation::LiveFeed),
            }),
        ),
        (
            BackoffEvent::Gate(blocked()),
            0,
            backoff,
            Course::Block(ProviderError::Invariant("cannot be")),
        ),
        (
            BackoffEvent::DeadlineElapsed(Err(RateGateClosed)),
            0,
            backoff,
            Course::Announce(ProviderError::Invariant("rate gate closed")),
        ),
    ] {
        assert_eq!(
            supervisor.on_backoff(backoff, event, MonoInstant(now)),
            (next, course)
        );
    }
}

#[test]
fn a_waiting_feed_listens_to_what_it_waits_for() {
    let waiting = Backoff {
        deadline: MonoInstant(5),
        deadline_elapsed: false,
    };
    let elapsed = Backoff {
        deadline_elapsed: true,
        ..waiting
    };
    assert_eq!(
        Supervisor::listens(waiting, false, false),
        BackoffListening { deadline: true, reserve: false }
    );
    assert_eq!(
        Supervisor::listens(elapsed, true, false),
        BackoffListening { deadline: false, reserve: true }
    );
    assert_eq!(
        Supervisor::listens(elapsed, true, true),
        BackoffListening { deadline: false, reserve: false }
    );
}

#[test]
fn a_failed_connection_voids_its_generation() {
    assert!(Supervisor::voids_attempt(&Course::Announce(io())));
    assert!(Supervisor::voids_attempt(&Course::Recover(io())));
    assert!(!Supervisor::voids_attempt(&Course::Shutdown));
    assert!(!Supervisor::voids_attempt(&Course::Block(io())));
    assert_eq!(
        Supervisor::connecting_status(GapGeneration(3)),
        MarketEvent::Status {
            generation: Some(GapGeneration(3)),
            status: ConnectionStatus::Connecting,
        }
    );
}

#[test]
fn no_attempt_follows_a_terminal_error() {
    let mut feed = supervisor();
    for number in 1..4 {
        assert_eq!(
            feed.begin(false, Ok(RateGateState::Open)),
            Course::Connect(GapGeneration(number))
        );
        assert_eq!(
            feed.on_connecting(ConnectEvent::Connected(Err(io())), MonoInstant(0)),
            Course::Recover(io())
        );
        assert!(feed
            .recover(MonoInstant(0), Ok(RateGateState::Open), None, io())
            .is_ok());
    }
    let terminal = || ProviderError::Configuration("wrong");
    assert_eq!(feed.conclude(Err(terminal()), true), Course::Announce(terminal()));
}

#[test]
fn a_blocked_feed_says_so_and_stops() {
    assert_eq!(
        supervisor().block_pair(),
        (
            MarketEvent::RecoverableError {
                generation: None,
                error: ProviderError::Invariant("cannot be"),
                rate_gate_deadline: None,
            },
            MarketEvent::Status {
                generation: None,
                status: ConnectionStatus::Stopped,
            },
        )
    );
}
