use std::time::Duration;

use fccli::candle::{Candle, CandleValues, Decimal, FinalityAuthority};
use fccli::error::{
    ErrorContext, ErrorOperation, PayloadError, ProviderError, SanitizedCause, SanitizedMessage,
    TimeoutKind,
};
use fccli::model::{
    GapGeneration, HistoryRequest, Instrument, InvalidHistoryRequest, Market, MonoInstant,
    ReplayRevision, Timeframe,
};
use fccli::provider::runtime::buffer::KeyedCandleBuffer;
use fccli::provider::runtime::live::{
    classify_live_error_for_test, classify_live_input_for_test,
    gap_target_within_generation_span_for_test, is_process_block_error, is_terminal_live_error,
    process_block_error, reconciliation_distinct_key_allowed_for_test,
    reconciliation_page_guard_for_test, ActiveRotation, ConnectionRotation,
    LiveCompletionDisposition, LiveErrorDisposition, LiveInBandEventDisposition,
    LiveInputClassification, LiveSocketEvent, ProcessBlockPolicy, ReconciliationLimits,
    ReconciliationPolicy,
};
use fccli::provider::runtime::reconcile::{
    advance_reconciliation_page, advance_reconciliation_target, apply_reconciliation_candle,
    buffer_reconciliation_candle, next_gap_cursor,
};

const MINUTE: i64 = 60_000;

fn instrument() -> Instrument {
    Instrument {
        provider: "binance".to_owned(),
        market: Market::Spot,
        base: "BTC".to_owned(),
        quote: "USDT".to_owned(),
        provider_symbol: "BTCUSDT".to_owned(),
    }
}

fn context() -> ErrorContext {
    ErrorContext::operation(ErrorOperation::WebSocket)
}

fn candle(open_time: i64) -> Candle {
    let one = Decimal::from_bits(1.0_f64.to_bits()).unwrap();
    Candle {
        values: CandleValues {
            open_time,
            close_time: open_time + MINUTE - 1,
            open: one,
            high: one,
            low: one,
            close: one,
            base_volume: one,
        },
        authority: FinalityAuthority::WsAuthoritativeOpen,
    }
}

fn bounded(max_successors: usize, max_pages: usize) -> ReconciliationPolicy {
    ReconciliationPolicy::Bounded(ReconciliationLimits {
        max_successors,
        max_pages,
        span_exceeded: "span",
        page_exceeded: "page",
        distinct_exceeded: "distinct",
    })
}

#[test]
fn terminal_errors_are_those_no_retry_can_mend() {
    let terminal = [
        ProviderError::Configuration("x"),
        ProviderError::WebSocketConfiguration { context: context(), detail: "x" },
        ProviderError::Invariant("x"),
        ProviderError::ClientStatus { context: context(), status: 400, code: None, message: None },
        ProviderError::InvalidSymbol {
            context: context(),
            code: -1121,
            message: SanitizedMessage::InvalidSymbol,
        },
        ProviderError::ChannelClosed { context: context() },
    ];
    for error in terminal {
        assert!(is_terminal_live_error(&error));
        let policy = classify_live_error_for_test(&error);
        assert_eq!(policy.disposition, LiveErrorDisposition::Terminal);
        assert_eq!(policy.event, LiveInBandEventDisposition::TerminalInBand);
        assert_eq!(policy.completion, LiveCompletionDisposition::FinishedErr);
        assert!(!policy.retries);
    }
    let recoverable = [
        ProviderError::Protocol { context: context(), detail: "x" },
        ProviderError::Transport { context: context(), cause: SanitizedCause::Io },
        ProviderError::Timeout { context: context(), kind: TimeoutKind::FirstKline },
        ProviderError::ServerStatus { context: context(), status: 500 },
        ProviderError::RateLimited { context: context(), status: 429 },
        ProviderError::Payload { context: context(), source: PayloadError::MalformedJson },
        ProviderError::QueueSaturated,
        ProviderError::GapSyncNoProgress { target_open_time: 1, last_open_time: None },
        ProviderError::ReconcileAckTimeout {
            generation: GapGeneration(1),
            revision: ReplayRevision(1),
            target_open_time: 0,
        },
    ];
    for error in recoverable {
        assert!(!is_terminal_live_error(&error));
        let policy = classify_live_error_for_test(&error);
        assert_eq!(policy.disposition, LiveErrorDisposition::Recoverable);
        assert!(policy.retries);
    }
}

#[test]
fn a_socket_word_is_classified() {
    let instrument = instrument();
    let classify =
        |input| classify_live_input_for_test(input, &instrument, Timeframe::Minute1);
    assert_eq!(
        classify(Ok(LiveSocketEvent::Candle(candle(0)))),
        LiveInputClassification::Continue
    );
    assert_eq!(
        classify(Ok(LiveSocketEvent::Ignored)),
        LiveInputClassification::Continue
    );
    let protocol = |detail: &'static str| ProviderError::Protocol {
        context: ErrorContext::market(ErrorOperation::WebSocket, &instrument, Timeframe::Minute1),
        detail,
    };
    for (input, error) in [
        (
            Ok(LiveSocketEvent::ReconnectRequested),
            protocol("WebSocket peer requested reconnect"),
        ),
        (
            Ok(LiveSocketEvent::ProtocolViolation("odd")),
            protocol("odd"),
        ),
        (
            Ok(LiveSocketEvent::DecodedError(ProviderError::QueueSaturated)),
            ProviderError::QueueSaturated,
        ),
        (
            Err(ProviderError::Invariant("x")),
            ProviderError::Invariant("x"),
        ),
    ] {
        let policy = classify_live_error_for_test(&error);
        assert_eq!(classify(input), LiveInputClassification::Error { error, policy });
    }
}

#[test]
fn a_blocked_process_has_its_own_error() {
    assert_eq!(
        process_block_error(ProcessBlockPolicy::InvalidBanExpiry),
        ProviderError::InvalidBanExpiry
    );
    let forbidden = ProcessBlockPolicy::Forbidden("cannot be");
    assert_eq!(
        process_block_error(forbidden),
        ProviderError::Invariant("cannot be")
    );
    assert!(is_process_block_error(&ProviderError::Invariant("cannot be"), forbidden));
    assert!(!is_process_block_error(&ProviderError::Invariant("else"), forbidden));
    assert!(!is_process_block_error(&ProviderError::InvalidBanExpiry, forbidden));
}

#[test]
fn a_connection_grows_old_at_its_deadline() {
    let never = ActiveRotation::new(ConnectionRotation::Never, MonoInstant(0)).unwrap();
    assert!(!never.is_elapsed(MonoInstant(u64::MAX)));
    let after = ConnectionRotation::After { max_age: Duration::from_nanos(5), detail: "old" };
    let rotation = ActiveRotation::new(after, MonoInstant(10)).unwrap();
    assert_eq!(rotation.due, Some((MonoInstant(15), "old")));
    assert!(!rotation.is_elapsed(MonoInstant(14)));
    assert!(rotation.is_elapsed(MonoInstant(15)));
    assert_eq!(
        ActiveRotation::new(after, MonoInstant(u64::MAX)),
        Err(ProviderError::Invariant("live connection age deadline overflow"))
    );
}

#[test]
fn a_gap_may_span_so_many_periods() {
    let within = gap_target_within_generation_span_for_test;
    assert!(within(Timeframe::Minute1, 0, 2 * MINUTE, 2));
    assert!(!within(Timeframe::Minute1, 0, 3 * MINUTE, 2));
    assert!(within(Timeframe::Minute1, 5 * MINUTE, 0, 0));
    // January to March 1970
    assert!(within(Timeframe::Month1, 0, 59 * 86_400_000, 2));
    assert!(!within(Timeframe::Month1, 0, 59 * 86_400_000, 1));
    // A time that opens no month counts as out of reach.
    assert!(!within(Timeframe::Month1, 0, 60 * 86_400_000 + 1, 100));
}

#[test]
fn pages_and_distinct_candles_are_counted() {
    assert_eq!(reconciliation_page_guard_for_test(3, 3), Ok(()));
    assert_eq!(
        reconciliation_page_guard_for_test(4, 3),
        Err(ProviderError::Protocol {
            context: ErrorContext::operation(ErrorOperation::Reconciliation),
            detail: "Hyperliquid gap reconciliation exceeded the per-generation page limit",
        })
    );
    assert!(reconciliation_distinct_key_allowed_for_test(2, false, 2));
    assert!(!reconciliation_distinct_key_allowed_for_test(3, false, 2));
    assert!(reconciliation_distinct_key_allowed_for_test(3, true, 2));
    assert!(!reconciliation_distinct_key_allowed_for_test(usize::MAX, false, usize::MAX));
    let mut pages = usize::MAX;
    assert_eq!(
        advance_reconciliation_page(&mut pages, ReconciliationPolicy::Unbounded, context()),
        Err(ProviderError::Invariant("reconciliation page count overflow"))
    );
    assert_eq!(next_gap_cursor(4), Ok(5));
    assert_eq!(
        next_gap_cursor(i64::MAX),
        Err(ProviderError::Invariant("gap cursor overflow"))
    );
}

#[test]
fn a_target_only_moves_on_and_stays_within_reach() {
    let mut target = 0;
    let policy = bounded(2, 9);
    let advance = advance_reconciliation_target;
    assert_eq!(advance(&mut target, MINUTE, 0, Timeframe::Minute1, policy), Ok(()));
    assert_eq!(target, MINUTE);
    assert_eq!(advance(&mut target, 0, 0, Timeframe::Minute1, policy), Ok(()));
    assert_eq!(target, MINUTE);
    assert!(advance(&mut target, 3 * MINUTE, 0, Timeframe::Minute1, policy).is_err());
    assert_eq!(target, MINUTE);
    assert_eq!(
        advance(&mut target, 3 * MINUTE, 0, Timeframe::Minute1, ReconciliationPolicy::Unbounded),
        Ok(())
    );
    assert_eq!(target, 3 * MINUTE);
}

#[test]
fn candles_of_a_gap_are_held_within_bounds() {
    let mut pending = KeyedCandleBuffer::unbounded();
    let mut target = 0;
    let mut revision = ReplayRevision(1);
    let policy = bounded(1, 9);
    for time in [0, MINUTE, MINUTE] {
        assert_eq!(
            buffer_reconciliation_candle(
                &mut pending,
                candle(time),
                &mut revision,
                &mut target,
                0,
                Timeframe::Minute1,
                policy
            ),
            Ok(())
        );
    }
    assert_eq!(revision, ReplayRevision(4));
    assert_eq!(target, MINUTE);
    assert_eq!(pending.len(), 2);
    assert!(apply_reconciliation_candle(
        &mut pending,
        candle(2 * MINUTE),
        &mut target,
        0,
        Timeframe::Minute1,
        policy
    )
    .is_err());
    assert_eq!(pending.len(), 2);
    let mut last = ReplayRevision(u64::MAX);
    assert_eq!(
        buffer_reconciliation_candle(
            &mut pending,
            candle(0),
            &mut last,
            &mut target,
            0,
            Timeframe::Minute1,
            policy
        ),
        Err(ProviderError::Invariant("replay revision overflow"))
    );
}

#[test]
fn a_full_reconciliation_buffer_refuses_a_new_opening_time() {
    let mut pending = KeyedCandleBuffer::bounded(1);
    let mut target = 0;
    let mut revision = ReplayRevision(1);
    let mut offer = |time: i64| {
        buffer_reconciliation_candle(
            &mut pending,
            candle(time),
            &mut revision,
            &mut target,
            0,
            Timeframe::Minute1,
            ReconciliationPolicy::Unbounded,
        )
    };
    assert_eq!(offer(0), Ok(()));
    assert_eq!(offer(MINUTE), Err(ProviderError::QueueSaturated));
    assert_eq!(revision, ReplayRevision(2));
    assert_eq!(target, MINUTE);
    assert_eq!(pending.len(), 1);
}

#[test]
fn a_nearer_month_is_within_the_span_of_a_farther_one() {
    let within = gap_target_within_generation_span_for_test;
    let february = 31 * 86_400_000;
    let march = 59 * 86_400_000;
    assert!(within(Timeframe::Month1, 0, march, 2));
    assert!(within(Timeframe::Month1, 0, february, 2));
    assert!(!within(Timeframe::Month1, 0, february + 1, 2));
}

#[test]
fn a_history_request_is_never_empty() {
    assert_eq!(HistoryRequest::latest(0), Err(InvalidHistoryRequest));
    assert_eq!(HistoryRequest::older(5, 0), Err(InvalidHistoryRequest));
    assert_eq!(HistoryRequest::gap(5, 4, 1), Err(InvalidHistoryRequest));
    assert_eq!(HistoryRequest::gap(5, 5, 0), Err(InvalidHistoryRequest));
    let request = HistoryRequest::gap(4, 5, 7).unwrap();
    assert_eq!((request.start_time, request.end_time, request.limit), (Some(4), Some(5), 7));
    let request = HistoryRequest::older(5, 7).unwrap();
    assert_eq!((request.start_time, request.end_time, request.limit), (None, Some(5), 7));
}
