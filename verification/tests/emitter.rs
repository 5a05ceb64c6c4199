use fccli::candle::{Candle, CandleValues, Decimal, FinalityAuthority};
use fccli::error::ProviderError;
use fccli::event::{
    event_generation, event_purges_with_generation, is_control_event, status_key, MarketEvent,
};
use fccli::model::{ConnectionStatus, GapGeneration};
use fccli::provider::runtime::emitter::{
    emergency_queue_error, live_channel_closed, regular_queue_error, Delivery, EmergencyBarrier,
    EmergencySlot, EventEmitter, QueueFault,
};

fn candle(generation: u64) -> MarketEvent {
    let one = Decimal::from_bits(1.0_f64.to_bits()).unwrap();
    MarketEvent::Candle {
        generation: GapGeneration(generation),
        candle: Candle {
            values: CandleValues {
                open_time: 0,
                close_time: 1,
                open: one,
                high: one,
                low: one,
                close: one,
                base_volume: one,
            },
            authority: FinalityAuthority::WsAuthoritativeOpen,
        },
    }
}

fn status(generation: Option<u64>, status: ConnectionStatus) -> MarketEvent {
    MarketEvent::Status {
        generation: generation.map(GapGeneration),
        status,
    }
}

#[test]
fn events_are_told_apart() {
    assert_eq!(event_generation(&candle(2)), Some(GapGeneration(2)));
    assert_eq!(
        event_generation(&MarketEvent::TerminalError(ProviderError::QueueSaturated)),
        None
    );
    assert!(!is_control_event(&candle(2)));
    assert!(is_control_event(&status(None, ConnectionStatus::Stopped)));
    assert!(event_purges_with_generation(&candle(2)));
    assert!(event_purges_with_generation(&status(Some(1), ConnectionStatus::Connected)));
    assert!(!event_purges_with_generation(&status(Some(1), ConnectionStatus::Backoff)));
    assert!(!event_purges_with_generation(&status(None, ConnectionStatus::Connected)));
    assert_eq!(
        status_key(&status(Some(1), ConnectionStatus::GapSync)),
        Some((Some(GapGeneration(1)), ConnectionStatus::GapSync))
    );
    assert_eq!(status_key(&candle(1)), None);
}

#[test]
fn permits_bound_what_is_queued() {
    let mut emitter = EventEmitter::new(2, 1);
    assert!(emitter.acquire_regular());
    assert!(emitter.acquire_regular());
    assert!(!emitter.acquire_regular());
    assert!(emitter.acquire_control());
    assert!(!emitter.acquire_control());
    emitter.release(true, true);
    assert!(emitter.acquire_regular());
    assert!(emitter.acquire_control());
    assert!(emitter.needs_control_permit(&status(None, ConnectionStatus::Backoff)));
    assert!(!emitter.needs_control_permit(&candle(1)));
}

#[test]
fn every_envelope_has_a_place_of_its_own() {
    let mut emitter = EventEmitter::new(2, 1);
    assert!(emitter.acquire_regular());
    let first = emitter.send_reserved(candle(1)).unwrap();
    assert!(emitter.acquire_regular());
    assert!(emitter.acquire_control());
    let second = emitter
        .send_regular(status(Some(1), ConnectionStatus::GapSync))
        .unwrap();
    assert!(second.regular_permit && second.control_permit);
    // Full: only the reserve is left.
    assert!(!emitter.acquire_regular());
    assert!(emitter
        .queue_emergency_pair(
            MarketEvent::TerminalError(ProviderError::QueueSaturated),
            status(None, ConnectionStatus::Backoff),
        )
        .is_ok());
    emitter.discard(&first);
    assert!(emitter.acquire_regular());
    emitter.discard(&second);
    assert!(emitter.acquire_control());
    emitter.release(true, true);
}

#[test]
fn a_status_is_queued_once() {
    let mut emitter = EventEmitter::new(4, 4);
    let event = || status(Some(1), ConnectionStatus::Connected);
    assert!(!emitter.is_duplicate(&event()));
    assert!(emitter.acquire_control());
    assert!(emitter.acquire_regular());
    let envelope = emitter.send_regular(event()).unwrap();
    assert!(emitter.is_duplicate(&event()));
    assert!(!emitter.is_duplicate(&status(Some(2), ConnectionStatus::Connected)));
    assert!(!emitter.connected_delivered(GapGeneration(1)));
    assert_eq!(emitter.deliver(envelope), event());
    assert!(!emitter.is_duplicate(&event()));
    assert!(emitter.connected_delivered(GapGeneration(1)));
    assert!(!emitter.connected_delivered(GapGeneration(2)));
}

#[test]
fn a_void_generation_is_silent() {
    let mut emitter = EventEmitter::new(4, 4);
    assert!(emitter.acquire_regular());
    let old = emitter.send_reserved(candle(1)).unwrap();
    assert!(emitter.acquire_regular());
    let new = emitter.send_reserved(candle(2)).unwrap();
    assert_eq!(emitter.classify(&old, false), Delivery::Deliver);
    emitter.invalidate_generation(GapGeneration(1));
    assert_eq!(emitter.classify(&old, false), Delivery::Discard);
    assert_eq!(emitter.classify(&new, false), Delivery::Deliver);
    emitter.discard(&old);
    assert_eq!(emitter.deliver(new), candle(2));
    // What was invalidated stays so.
    emitter.invalidate_generation(GapGeneration(0));
    assert!(emitter.acquire_regular());
    let again = emitter.send_reserved(candle(1)).unwrap();
    assert_eq!(emitter.classify(&again, false), Delivery::Discard);
}

#[test]
fn a_cancelled_feed_delivers_only_its_end() {
    let mut emitter = EventEmitter::new(4, 4);
    assert!(emitter.acquire_regular());
    let queued = emitter.send_reserved(candle(1)).unwrap();
    assert_eq!(emitter.classify(&queued, true), Delivery::Discard);
    emitter.discard(&queued);
    assert!(emitter.begin_shutdown());
    assert!(!emitter.begin_shutdown());
    assert!(emitter.reserve_is_empty());
    let last = emitter.finish_shutdown();
    assert!(last.is_stopped());
    assert_eq!(emitter.classify(&last, true), Delivery::Deliver);
    assert_eq!(emitter.deliver(last), status(None, ConnectionStatus::Stopped));
    assert_eq!(emitter.check_open(), Err(live_channel_closed()));
    assert!(emitter.acquire_regular());
    assert_eq!(emitter.send_reserved(candle(1)), Err(live_channel_closed()));
    assert_eq!(emitter.send_regular(candle(1)), Err(live_channel_closed()));
}

#[test]
fn the_reserve_holds_one_pair() {
    let mut emitter = EventEmitter::new(4, 4);
    let pair = || {
        (
            MarketEvent::TerminalError(ProviderError::QueueSaturated),
            status(None, ConnectionStatus::Backoff),
        )
    };
    let (first, second) = emitter.queue_emergency_pair(pair().0, pair().1).unwrap();
    assert_eq!(first.emergency_slot, Some(EmergencySlot::First));
    assert_eq!(second.emergency_slot, Some(EmergencySlot::Second));
    assert!(!emitter.reserve_is_empty());
    assert_eq!(
        emitter.queue_emergency_pair(pair().0, pair().1),
        Err(ProviderError::Invariant("emergency barrier already active"))
    );
    assert_eq!(emitter.deliver(first), pair().0);
    assert!(!emitter.reserve_is_empty());
    emitter.begin_terminal_pair();
    assert_eq!(emitter.classify(&second, false), Delivery::Discard);
    emitter.discard(&second);
    assert!(emitter.reserve_is_empty());
    assert!(emitter.queue_emergency_pair(pair().0, pair().1).is_ok());
}

#[test]
fn a_barrier_remembers_what_it_suppressed() {
    let mut barrier = EmergencyBarrier::new();
    assert!(barrier.is_dequeued());
    assert_eq!(barrier.begin_pair(), Ok(()));
    barrier.dequeued(EmergencySlot::First);
    barrier.suppress_pending();
    assert!(!barrier.is_suppressed(EmergencySlot::First));
    assert!(barrier.is_suppressed(EmergencySlot::Second));
    barrier.dequeued(EmergencySlot::Second);
    assert!(barrier.is_dequeued());
    barrier.begin_shutdown();
    assert!(!barrier.is_suppressed(EmergencySlot::Second));
    assert!(!barrier.is_dequeued());
}

#[test]
fn a_queue_that_fails_says_how() {
    assert_eq!(regular_queue_error(QueueFault::Closed), live_channel_closed());
    assert_eq!(
        regular_queue_error(QueueFault::Full),
        ProviderError::Invariant("reserved market event channel capacity exhausted")
    );
    assert_eq!(emergency_queue_error(QueueFault::Closed), live_channel_closed());
    assert_eq!(
        emergency_queue_error(QueueFault::Full),
        ProviderError::Invariant("emergency market event reservation exhausted")
    );
}
