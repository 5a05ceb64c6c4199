use std::collections::VecDeque;
use std::time::Duration;

use fccli::candle::{Candle, CandleValues, Decimal, FinalityAuthority};
use fccli::error::{
    ErrorContext, ErrorOperation, PayloadError, ProviderError, SanitizedMessage, TimeoutKind,
};
use fccli::model::{
    HistoryRequest, HistoryRequestKind, Instrument, InstrumentSpec, Market, MonoInstant, Timeframe,
};
use fccli::provider::hyperliquid::{
    candle_window, canonicalize, capabilities, check_candles_body, decode_candles, decode_ws_frame,
    history_body, interval_ms, live_event, map_http_error, on_readiness,
    reject_unsupported_timeframe, response_validation_window, subscribe_message,
    test_websocket_url, timeframe_successor_open, websocket_url, websocket_url_from_base, CandleDecodeContext,
    HlCandle, HyperliquidDecoded, HyperliquidLiveConfig, HyperliquidTestConfig, HyperliquidWsCodec,
    UNSUPPORTED_TIMEFRAME,
};
use fccli::provider::runtime::config::{ReconciliationPolicy, WsConfig};
use fccli::provider::runtime::endpoint::HostAddress;
use fccli::provider::runtime::frame::{DecodedFrame, ReadinessInput, WsMessage};
use fccli::provider::runtime::live::{LiveMarket, LiveSocketEvent};
use fccli::provider::runtime::ready::ReadyStep;

type Frame = DecodedFrame<HyperliquidDecoded>;

const MINUTE: i64 = 60_000;

fn instrument() -> Instrument {
    Instrument {
        provider: "hyperliquid".to_owned(),
        market: Market::Perpetual,
        base: "BTC".to_owned(),
        quote: "USDC".to_owned(),
        provider_symbol: "BTC".to_owned(),
    }
}

fn context(operation: ErrorOperation) -> ErrorContext {
    ErrorContext::market(operation, &instrument(), Timeframe::Minute1)
}

fn number(value: f64) -> Option<Decimal> {
    Decimal::from_bits(value.to_bits())
}

fn row(open_time: i64, close: f64) -> HlCandle {
    HlCandle {
        open_time,
        close_time: open_time + MINUTE - 1,
        symbol: "BTC".to_owned(),
        interval: "1m".to_owned(),
        open: number(10.0),
        close: number(close),
        high: number(12.0),
        low: number(9.0),
        volume: number(1.5),
        trade_count: 3,
    }
}

fn candle(open_time: i64, close: f64, authority: FinalityAuthority) -> Candle {
    Candle {
        values: CandleValues {
            open_time,
            close_time: open_time + MINUTE - 1,
            open: number(10.0).unwrap(),
            high: number(12.0).unwrap(),
            low: number(9.0).unwrap(),
            close: number(close).unwrap(),
            base_volume: number(1.5).unwrap(),
        },
        authority,
    }
}

fn text(body: &str) -> WsMessage {
    WsMessage::Text(body.as_bytes().to_vec())
}

fn decode(
    codec: &mut HyperliquidWsCodec,
    message: &WsMessage,
    kline: Option<&HlCandle>,
    now_ms: Option<i64>,
) -> Vec<Frame> {
    let mut outcomes = VecDeque::new();
    decode_ws_frame(
        codec,
        message,
        &instrument(),
        Timeframe::Minute1,
        &WsConfig::production(),
        kline,
        now_ms,
        &mut outcomes,
    );
    outcomes.into_iter().collect()
}

fn streamed(codec: &mut HyperliquidWsCodec, kline: &HlCandle) -> Vec<Frame> {
    decode(
        codec,
        &text(r#"{"channel":"candle","data":{}}"#),
        Some(kline),
        Some(10 * MINUTE),
    )
}

fn passed(open_time: i64, close: f64, authority: FinalityAuthority) -> Frame {
    DecodedFrame::Provider(HyperliquidDecoded::Candle(candle(open_time, close, authority)))
}

fn payload(source: PayloadError) -> Frame {
    DecodedFrame::ProviderError(ProviderError::Payload {
        context: context(ErrorOperation::WebSocket),
        source,
    })
}

#[test]
fn a_candle_closes_when_a_later_one_comes() {
    let open = FinalityAuthority::WsAuthoritativeOpen;
    let closed = FinalityAuthority::WsAuthoritativeClosed;
    let mut codec = HyperliquidWsCodec::new();
    assert_eq!(streamed(&mut codec, &row(MINUTE, 10.0)), [passed(MINUTE, 10.0, open)]);
    assert_eq!(streamed(&mut codec, &row(MINUTE, 10.0)), []);
    assert_eq!(streamed(&mut codec, &row(MINUTE, 11.0)), [passed(MINUTE, 11.0, open)]);
    assert_eq!(streamed(&mut codec, &row(0, 11.0)), []);
    assert_eq!(
        streamed(&mut codec, &row(3 * MINUTE, 12.0)),
        [passed(MINUTE, 11.0, closed), passed(3 * MINUTE, 12.0, open)]
    );
    assert_eq!(streamed(&mut codec, &row(MINUTE, 9.0)), []);
}

#[test]
fn a_streamed_candle_must_be_of_the_market_and_of_its_time() {
    let mut codec = HyperliquidWsCodec::new();
    let message = text(r#"{"channel":"candle","data":{}}"#);
    let other = HlCandle { symbol: "ETH".to_owned(), ..row(MINUTE, 10.0) };
    assert_eq!(
        streamed(&mut codec, &other),
        [DecodedFrame::ProviderError(ProviderError::Protocol {
            context: context(ErrorOperation::WebSocket),
            detail: "WebSocket candle market does not match subscription",
        })]
    );
    let short = HlCandle { close_time: 2 * MINUTE, ..row(MINUTE, 10.0) };
    assert_eq!(streamed(&mut codec, &short), [payload(PayloadError::MalformedProtocol)]);
    let off_grid = row(MINUTE + 1, 10.0);
    assert_eq!(streamed(&mut codec, &off_grid), [payload(PayloadError::MalformedProtocol)]);
    let early = row(16 * MINUTE, 10.0);
    assert_eq!(streamed(&mut codec, &early), [payload(PayloadError::MalformedProtocol)]);
    assert_eq!(
        decode(&mut codec, &message, Some(&row(MINUTE, 10.0)), None),
        [payload(PayloadError::MalformedProtocol)]
    );
    assert_eq!(
        decode(&mut codec, &message, Some(&row(MINUTE, 10.0)), Some(i64::MAX)),
        [payload(PayloadError::MalformedProtocol)]
    );
    assert_eq!(
        decode(&mut codec, &message, None, Some(0)),
        [payload(PayloadError::MalformedProtocol)]
    );
    let unread = HlCandle { high: None, ..row(MINUTE, 10.0) };
    assert_eq!(
        streamed(&mut codec, &unread),
        [payload(PayloadError::InvalidField { field: "candle numeric field" })]
    );
    assert!(matches!(
        streamed(&mut codec, &row(MINUTE, 99.0))[..],
        [DecodedFrame::ProviderError(ProviderError::Domain { .. })]
    ));
    // The latest that the skew allows.
    assert_eq!(streamed(&mut codec, &row(15 * MINUTE, 10.0)).len(), 1);
}

#[test]
fn messages_are_told_apart_by_their_channel() {
    let mut codec = HyperliquidWsCodec::new();
    let mut read = |body: &str| decode(&mut codec, &text(body), None, Some(0));
    assert_eq!(
        read(r#"{"channel":"subscriptionResponse","data":{"method":"subscribe","subscription":{"type":"candle","coin":"BTC","interval":"1m"}}}"#),
        [DecodedFrame::Provider(HyperliquidDecoded::SubscribeAccepted)]
    );
    assert_eq!(
        read(r#"{"channel":"subscriptionResponse","data":{"method":"subscribe","subscription":{"type":"candle","coin":"ETH","interval":"1m"}}}"#),
        [payload(PayloadError::MalformedProtocol)]
    );
    assert_eq!(
        read(r#"{"channel":"pong"}"#),
        [DecodedFrame::Provider(HyperliquidDecoded::ApplicationPong)]
    );
    assert_eq!(read(r#"{"channel":"candle"}"#), [payload(PayloadError::MalformedProtocol)]);
    assert_eq!(read(r#"{"channel":"trades"}"#), [DecodedFrame::Ignored]);
    assert_eq!(read("[]"), [DecodedFrame::Ignored]);
    assert_eq!(read("{"), [payload(PayloadError::MalformedProtocol)]);
    let big = WsMessage::Binary(vec![b' '; 1_048_577]);
    assert_eq!(
        decode(&mut codec, &big, None, Some(0)),
        [payload(PayloadError::OverBudget { limit_bytes: 1_048_576 })]
    );
    assert_eq!(
        decode(&mut codec, &WsMessage::Close(Some(1001)), None, None),
        [DecodedFrame::Close(Some(1001))]
    );
    assert_eq!(decode(&mut codec, &WsMessage::Ping, None, None), [DecodedFrame::Ignored]);
}

#[test]
fn a_subscription_must_be_accepted_first() {
    let market = LiveMarket { instrument: instrument(), timeframe: Timeframe::Minute1 };
    let deadline = MonoInstant(10);
    let ready = |frame: Frame, now: u64| {
        on_readiness(ReadinessInput::Frame(frame), &market, MonoInstant(now), deadline)
    };
    let protocol = |detail: &'static str| ProviderError::Protocol {
        context: context(ErrorOperation::WebSocket),
        detail,
    };
    let late = ProviderError::Timeout {
        context: context(ErrorOperation::WebSocket),
        kind: TimeoutKind::SubscribeAck,
    };
    assert_eq!(
        ready(DecodedFrame::Provider(HyperliquidDecoded::SubscribeAccepted), 99),
        ReadyStep::Ready(())
    );
    assert_eq!(ready(DecodedFrame::Ignored, 9), ReadyStep::Wait);
    assert_eq!(ready(DecodedFrame::Ignored, 10), ReadyStep::Fail(late.clone()));
    assert_eq!(
        ready(DecodedFrame::Provider(HyperliquidDecoded::ApplicationPong), 10),
        ReadyStep::Fail(late)
    );
    assert_eq!(
        ready(DecodedFrame::Close(None), 0),
        ReadyStep::Close(protocol("WebSocket peer requested reconnect"))
    );
    assert_eq!(
        ready(passed(0, 10.0, FinalityAuthority::WsAuthoritativeOpen), 0),
        ReadyStep::Fail(protocol(
            "Hyperliquid candle arrived before subscribe acknowledgement"
        ))
    );
    assert_eq!(
        on_readiness(
            ReadinessInput::Error(ProviderError::QueueSaturated),
            &market,
            MonoInstant(0),
            deadline
        ),
        ReadyStep::Fail(ProviderError::QueueSaturated)
    );
    assert_eq!(
        live_event(DecodedFrame::Provider(HyperliquidDecoded::SubscribeAccepted)),
        LiveSocketEvent::ProtocolViolation("duplicate Hyperliquid subscribe acknowledgement")
    );
    assert_eq!(
        live_event(DecodedFrame::Provider(HyperliquidDecoded::ApplicationPong)),
        LiveSocketEvent::Ignored
    );
    assert_eq!(
        market.inactivity_timeout(),
        ProviderError::Timeout {
            context: context(ErrorOperation::WebSocket),
            kind: TimeoutKind::WebSocketInactivity,
        }
    );
}

#[test]
fn messages_to_the_provider_are_json() {
    let quoted = Instrument { provider_symbol: "a\"b".to_owned(), ..instrument() };
    assert_eq!(
        subscribe_message(&quoted, Timeframe::Hour1),
        r#"{"method":"subscribe","subscription":{"coin":"a\"b","interval":"1h","type":"candle"}}"#
    );
    assert_eq!(
        history_body(&instrument(), Timeframe::Month1, -1, 20),
        r#"{"req":{"coin":"BTC","endTime":20,"interval":"1M","startTime":-1},"type":"candleSnapshot"}"#
    );
}

#[test]
fn a_request_asks_for_as_many_periods_as_rows() {
    let latest = HistoryRequest::latest(10).unwrap();
    assert_eq!(
        candle_window(Timeframe::Minute1, latest, Some(100 * MINUTE)),
        Ok((90 * MINUTE + 1, 100 * MINUTE))
    );
    assert_eq!(
        candle_window(Timeframe::Minute1, latest, None),
        Err(ProviderError::Invariant("unix epoch clock is unavailable"))
    );
    assert_eq!(
        candle_window(Timeframe::Month1, HistoryRequest::older(0, 1).unwrap(), None),
        Ok((1 - 31 * 86_400_000, 0))
    );
    let gap = HistoryRequest::gap(0, 100 * MINUTE, 10).unwrap();
    assert_eq!(
        candle_window(Timeframe::Minute1, gap, None),
        Ok((0, 10 * MINUTE - 1))
    );
    assert_eq!(
        candle_window(Timeframe::Hour6, latest, Some(0)),
        Err(ProviderError::Configuration(UNSUPPORTED_TIMEFRAME))
    );
    let broken = HistoryRequest { kind: HistoryRequestKind::Gap, ..latest };
    assert_eq!(
        candle_window(Timeframe::Minute1, broken, None),
        Err(ProviderError::Invariant("gap history request is missing startTime"))
    );
    assert_eq!(
        candle_window(
            Timeframe::Minute1,
            HistoryRequest { start_time: Some(0), ..broken },
            None
        ),
        Err(ProviderError::Invariant("gap history request is missing endTime"))
    );
    assert_eq!(
        candle_window(
            Timeframe::Minute1,
            HistoryRequest { kind: HistoryRequestKind::Older, ..latest },
            None
        ),
        Err(ProviderError::Invariant("older history request is missing endTime"))
    );
    assert_eq!(
        response_validation_window(
            Timeframe::Minute1,
            HistoryRequestKind::Latest,
            1000,
            0,
            MINUTE
        ),
        Ok((-MINUTE - 1, MINUTE))
    );
    assert_eq!(
        response_validation_window(Timeframe::Minute1, HistoryRequestKind::Gap, 1000, 0, MINUTE),
        Ok((0, 2 * MINUTE))
    );
    assert_eq!(interval_ms(Timeframe::Month1), Ok(2_678_400_000));
    assert_eq!(
        reject_unsupported_timeframe(Timeframe::Second1),
        Err(ProviderError::Configuration(UNSUPPORTED_TIMEFRAME))
    );
    assert_eq!(timeframe_successor_open(Timeframe::Week1, 0), Some(604_800_000));
}

fn terms(kind: HistoryRequestKind, requested_limit: u16) -> CandleDecodeContext {
    CandleDecodeContext {
        kind,
        requested_limit,
        instrument: instrument(),
        timeframe: Timeframe::Minute1,
        window_start: 0,
        window_end: 10 * MINUTE,
        error: context(ErrorOperation::History),
    }
}

fn history(
    terms: &CandleDecodeContext,
    rows: &Vec<HlCandle>,
    more: bool,
    trailing: bool,
) -> Result<Vec<i64>, ProviderError> {
    decode_candles(terms, Some(rows), more, trailing)
        .map(|candles| candles.iter().map(Candle::open_time).collect())
}

fn refused(source: PayloadError) -> ProviderError {
    ProviderError::Payload { context: context(ErrorOperation::History), source }
}

#[test]
fn history_keeps_the_end_that_was_asked_for() {
    let rows = vec![row(0, 10.0), row(MINUTE, 10.0), row(3 * MINUTE, 10.0)];
    let read = |kind, limit| history(&terms(kind, limit), &rows, false, false);
    assert_eq!(read(HistoryRequestKind::Latest, 2), Ok(vec![MINUTE, 3 * MINUTE]));
    assert_eq!(read(HistoryRequestKind::Older, 2), Ok(vec![MINUTE, 3 * MINUTE]));
    assert_eq!(read(HistoryRequestKind::Gap, 2), Ok(vec![0, MINUTE]));
    assert_eq!(read(HistoryRequestKind::Gap, 9), Ok(vec![0, MINUTE, 3 * MINUTE]));
    let candles =
        decode_candles(&terms(HistoryRequestKind::Gap, 1), Some(&rows), false, false).unwrap();
    assert_eq!(candles, [candle(0, 10.0, FinalityAuthority::RestProvisionalOpen)]);
}

#[test]
fn history_out_of_order_or_bounds_is_refused() {
    let latest = terms(HistoryRequestKind::Latest, 10);
    let malformed = Err(refused(PayloadError::MalformedProtocol));
    for rows in [
        vec![row(MINUTE, 10.0), row(0, 10.0)],
        vec![row(0, 10.0), row(0, 10.0)],
        vec![row(-MINUTE, 10.0)],
        vec![row(11 * MINUTE, 10.0)],
        vec![HlCandle { interval: "5m".to_owned(), ..row(0, 10.0) }],
        vec![HlCandle { low: None, ..row(0, 10.0) }],
        vec![row(0, 99.0)],
    ] {
        assert_eq!(history(&latest, &rows, false, false), malformed);
    }
    let rows = vec![row(0, 10.0)];
    assert_eq!(history(&latest, &rows, true, false), malformed);
    assert_eq!(
        history(&latest, &rows, false, true),
        Err(refused(PayloadError::MalformedJson))
    );
    assert_eq!(
        decode_candles(&latest, None, false, true),
        Err(refused(PayloadError::MalformedProtocol))
    );
}

#[test]
fn an_answer_that_is_no_history_is_explained() {
    let context = || context(ErrorOperation::History);
    let check = |bytes: &[u8], limit| check_candles_body(bytes, limit, &context());
    assert_eq!(check(b" [", 1), Ok(()));
    assert_eq!(check(b"[]", 1000), Ok(()));
    assert_eq!(check(b"[]", 0), Err(refused(PayloadError::MalformedProtocol)));
    assert_eq!(check(b"[]", 1001), Err(refused(PayloadError::MalformedProtocol)));
    assert_eq!(check(b"nope", 1), Err(refused(PayloadError::MalformedJson)));
    assert_eq!(check(b"{}", 1), Err(refused(PayloadError::ExpectedArray)));
    for body in [&br#"{"error":"no coin","msg":"other"}"#[..], &br#"{"error":7,"msg":"no coin"}"#[..]] {
        assert_eq!(
            check(body, 1),
            Err(ProviderError::InvalidSymbol {
                context: context(),
                code: 0,
                message: SanitizedMessage::new("no coin"),
            })
        );
    }
    assert_eq!(
        map_http_error(422, context()),
        ProviderError::ClientStatus { context: context(), status: 422, code: None, message: None }
    );
    assert_eq!(
        map_http_error(500, context()),
        ProviderError::ServerStatus { context: context(), status: 500 }
    );
}

#[test]
fn the_server_has_two_paths() {
    let url = |base: &str| {
        websocket_url_from_base(base, false, HostAddress::NotLiteral).map(|url| url.path)
    };
    assert_eq!(url("wss://api.hyperliquid.xyz/ws"), Ok("/ws".to_owned()));
    assert_eq!(url("wss://api.hyperliquid.xyz"), Ok("/".to_owned()));
    assert_eq!(
        websocket_url(&instrument(), Timeframe::Minute1).map(|url| url.href),
        Ok("wss://api.hyperliquid.xyz/ws".to_owned())
    );
    assert_eq!(
        url("wss://api.hyperliquid.xyz/other"),
        Err(ProviderError::Configuration("invalid WebSocket base URL"))
    );
    assert_eq!(
        test_websocket_url(
            "ws://127.0.0.1:9/other",
            &instrument(),
            Timeframe::Minute1,
            HostAddress::Loopback
        ),
        Err(ProviderError::WebSocketConfiguration {
            context: context(ErrorOperation::WebSocket),
            detail: "invalid WebSocket base URL",
        })
    );
}

#[test]
fn markets_have_wire_names() {
    let spec = |market, venue: Option<&str>| InstrumentSpec {
        provider: "hyperliquid".to_owned(),
        market,
        venue: venue.map(str::to_owned),
    };
    let local = |base: &str, quote: &str| Instrument {
        base: base.to_owned(),
        quote: quote.to_owned(),
        ..instrument()
    };
    let named = |spec: &InstrumentSpec, local: &Instrument| {
        canonicalize(spec, Some(local)).map(|found| (found.market, found.base, found.provider_symbol))
    };
    let spot = spec(Market::Spot, None);
    for (base, quote, display, symbol) in [
        ("BTC", "USDC", "UBTC", "@142"),
        ("UBTC", "USDC", "UBTC", "@142"),
        ("HYPE", "USDC", "HYPE", "@107"),
        ("PURR", "USDC", "PURR", "PURR/USDC"),
        ("ABC", "USDT", "ABC", "ABC/USDT"),
        ("@7", "USDC", "@7", "@7"),
    ] {
        assert_eq!(
            named(&spot, &local(base, quote)),
            Ok((Market::Spot, display.to_owned(), symbol.to_owned()))
        );
    }
    assert_eq!(
        named(&spec(Market::Perpetual, None), &local("BTC", "USDC")),
        Ok((Market::Perpetual, "BTC".to_owned(), "BTC".to_owned()))
    );
    assert_eq!(
        named(&spec(Market::Perpetual, Some("dex")), &local("GOLD", "USDC")),
        Ok((Market::Perpetual, "GOLD".to_owned(), "dex:GOLD".to_owned()))
    );
    assert_eq!(
        named(&spec(Market::Spot, Some("dex")), &local("GOLD", "USDC")),
        Err(ProviderError::Configuration(
            "HIP-3 builder DEX markets are perpetual-only; use `hyperliquid:<dex>:<coin>.p`"
        ))
    );
    let foreign = InstrumentSpec { provider: "okx".to_owned(), ..spec(Market::Spot, None) };
    for (spec, local) in [(foreign, Some(local("BTC", "USDC"))), (spot, None)] {
        assert_eq!(
            canonicalize(&spec, local.as_ref()),
            Err(ProviderError::Configuration("instrument is not valid for Hyperliquid"))
        );
    }
}

#[test]
fn the_terms_of_its_feed_are_checked() {
    let config = HyperliquidLiveConfig::default();
    assert_eq!(config.validate(), Ok(()));
    assert_eq!(config.subscribe_ack_timeout, Duration::from_secs(10));
    assert!(matches!(config.reconciliation(), ReconciliationPolicy::Bounded(limits)
        if limits.max_successors == 64_000 && limits.max_pages == 64));
    let configuration = |detail| Err(ProviderError::Configuration(detail));
    assert_eq!(
        HyperliquidLiveConfig { subscribe_ack_timeout: Duration::ZERO, ..config }.validate(),
        configuration("subscribe acknowledgement timeout is outside 1ms..=60s")
    );
    assert_eq!(
        HyperliquidLiveConfig {
            application_heartbeat_interval_for_test: Duration::from_secs(61),
            ..config
        }
        .validate(),
        configuration("application heartbeat interval is outside 1ms..=60s")
    );
    assert_eq!(
        HyperliquidLiveConfig { max_gap_reconciliation_candles_for_test: 64_001, ..config }
            .validate(),
        configuration("live reconciliation candle bound is outside 1..=64000")
    );
    let offered = capabilities(config.advertised_history_page_limit);
    assert_eq!(offered.history_page_limit, 1000);
    assert_eq!(offered.timeframes.len(), 14);
    assert!(!offered.timeframes.contains(&Timeframe::Hour6));
    let test = HyperliquidTestConfig::loopback("http://127.0.0.1:1".to_owned())
        .with_websocket_base("ws://127.0.0.1:2".to_owned());
    assert_eq!(test.rest.now_ms, None);
    assert_eq!(test.live, config);
}

#[test]
fn a_hyperliquid_test_server_is_reached_on_the_usual_terms() {
    let live = HyperliquidTestConfig::loopback("http://127.0.0.1:1".to_owned())
        .with_websocket_base("ws://127.0.0.1:2".to_owned())
        .live;
    assert_eq!(live, HyperliquidLiveConfig::default());
    assert_eq!(live.supervisor.keyed_candle_capacity, 1024);
    assert_eq!(live.supervisor.control_capacity, 64);
    assert_eq!(live.supervisor.market_event_capacity, 256);
    assert_eq!(live.supervisor.first_kline_timeout, Duration::from_secs(10));
    assert_eq!(live.supervisor.reconcile_ack_timeout, Duration::from_secs(10));
    assert_eq!(live.supervisor.stalled_write_probe_frames, 0);
    assert_eq!(
        live.supervisor.ws_config.message_inactivity_timeout,
        Duration::from_secs(60)
    );
}

#[test]
fn hyperliquid_offers_its_timeframes_from_the_shortest() {
    let offered = capabilities(7).timeframes;
    assert_eq!(offered[0], Timeframe::Minute1);
    assert_eq!(offered[offered.len() - 4], Timeframe::Day1);
    assert_eq!(offered[offered.len() - 1], Timeframe::Month1);
}
