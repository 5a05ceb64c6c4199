use std::collections::VecDeque;
use std::time::Duration;

use fccli::candle::{Candle, CandleValues, Decimal, FinalityAuthority};
use fccli::error::{ErrorContext, ErrorOperation, PayloadError, ProviderError, SanitizedMessage};
use fccli::model::{
    HistoryRequest, Instrument, InstrumentSpec, Market, MonoInstant, ProcessBlocker, Timeframe,
};
use fccli::provider::binance::{
    canonicalize, decode_kline_row, decode_klines, decode_ws_frame, handle_rate_limit,
    history_query, is_rate_limited, klines_path, live_event, map_http_error, read_klines,
    refusal_error, stream_path, test_websocket_url, websocket_url, websocket_url_from_base,
    BinanceDecoded,
    BinanceTestConfig, BinanceWsCodec, KlineField, KlineRow, LiveSupervisorConfig, WsEnvelope,
    WsKline,
};
use fccli::provider::runtime::config::{ConnectionRotation, WsConfig};
use fccli::provider::runtime::endpoint::HostAddress;
use fccli::provider::runtime::frame::{DecodedFrame, WsMessage};
use fccli::provider::runtime::http::RateLimitDecision;
use fccli::provider::runtime::live::LiveSocketEvent;

fn instrument() -> Instrument {
    Instrument {
        provider: "binance".to_owned(),
        market: Market::Spot,
        base: "BTC".to_owned(),
        quote: "USDT".to_owned(),
        provider_symbol: "BTCUSDT".to_owned(),
    }
}

fn context() -> ErrorContext {
    ErrorContext::operation(ErrorOperation::History)
}

fn ws_context() -> ErrorContext {
    ErrorContext::market(ErrorOperation::WebSocket, &instrument(), Timeframe::Minute1)
}

fn number(value: f64) -> Option<Decimal> {
    Decimal::from_bits(value.to_bits())
}

fn kline() -> WsKline {
    WsKline {
        open_time: 60_000,
        close_time: 119_999,
        symbol: "BTCUSDT".to_owned(),
        interval: "1m".to_owned(),
        open: number(10.0),
        close: number(11.0),
        high: number(12.0),
        low: number(9.0),
        volume: number(1.5),
        closed: true,
    }
}

fn envelope(k: Option<WsKline>) -> WsEnvelope {
    WsEnvelope {
        event: Some("kline".to_owned()),
        symbol: Some("BTCUSDT".to_owned()),
        code: None,
        msg: None,
        k,
    }
}

fn decoded(message: &WsMessage, envelope: Option<WsEnvelope>) -> DecodedFrame<BinanceDecoded> {
    decode_ws_frame(
        message,
        envelope,
        &instrument(),
        Timeframe::Minute1,
        &WsConfig::production(),
    )
}

fn text() -> WsMessage {
    WsMessage::Text(vec![b'{', b'}'])
}

fn expected(authority: FinalityAuthority) -> Candle {
    Candle {
        values: CandleValues {
            open_time: 60_000,
            close_time: 119_999,
            open: number(10.0).unwrap(),
            high: number(12.0).unwrap(),
            low: number(9.0).unwrap(),
            close: number(11.0).unwrap(),
            base_volume: number(1.5).unwrap(),
        },
        authority,
    }
}

fn malformed() -> DecodedFrame<BinanceDecoded> {
    DecodedFrame::ProviderError(ProviderError::Payload {
        context: ws_context(),
        source: PayloadError::MalformedProtocol,
    })
}

#[test]
fn a_kline_of_the_stream_is_a_candle() {
    assert_eq!(
        decoded(&text(), Some(envelope(Some(kline())))),
        DecodedFrame::Provider(BinanceDecoded::Candle(expected(
            FinalityAuthority::WsAuthoritativeClosed
        )))
    );
    let open = WsKline { closed: false, ..kline() };
    assert_eq!(
        decoded(&text(), Some(envelope(Some(open)))),
        DecodedFrame::Provider(BinanceDecoded::Candle(expected(
            FinalityAuthority::WsAuthoritativeOpen
        )))
    );
    let mut output = VecDeque::new();
    BinanceWsCodec.decode(
        &WsMessage::Pong,
        None,
        &instrument(),
        Timeframe::Minute1,
        &WsConfig::production(),
        &mut output,
    );
    assert_eq!(output, VecDeque::from([DecodedFrame::Ignored]));
}

#[test]
fn a_message_of_the_stream_may_be_wrong() {
    assert_eq!(decoded(&text(), None), malformed());
    assert_eq!(decoded(&WsMessage::Close(Some(1000)), None), DecodedFrame::Close(Some(1000)));
    let big = WsMessage::Binary(vec![0; 1_048_577]);
    assert_eq!(
        decoded(&big, None),
        DecodedFrame::ProviderError(ProviderError::Payload {
            context: ws_context(),
            source: PayloadError::OverBudget { limit_bytes: 1_048_576 },
        })
    );
    let other = WsKline { interval: "5m".to_owned(), ..kline() };
    assert!(matches!(
        decoded(&text(), Some(envelope(Some(other)))),
        DecodedFrame::ProviderError(_)
    ));
    let unread = WsKline { volume: None, ..kline() };
    assert_eq!(
        decoded(&text(), Some(envelope(Some(unread)))),
        DecodedFrame::ProviderError(ProviderError::Payload {
            context: ws_context(),
            source: PayloadError::InvalidField { field: "kline numeric field" },
        })
    );
    let broken = WsConfig { read_buffer_size: 0, ..WsConfig::production() };
    assert_eq!(
        decode_ws_frame(&text(), None, &instrument(), Timeframe::Minute1, &broken),
        DecodedFrame::ProviderError(ProviderError::Configuration(
            "WebSocket byte limits must be within 1..=16 MiB"
        ))
    );
}

#[test]
fn frames_become_events() {
    let candle = expected(FinalityAuthority::WsAuthoritativeOpen);
    assert_eq!(
        live_event(DecodedFrame::Provider(BinanceDecoded::Candle(candle))),
        LiveSocketEvent::Candle(candle)
    );
    assert_eq!(
        live_event(DecodedFrame::Close(None)),
        LiveSocketEvent::ReconnectRequested
    );
    assert_eq!(live_event(DecodedFrame::Ignored), LiveSocketEvent::Ignored);
}

fn row(bytes: &[u8]) -> KlineRow {
    let mut rows = read_klines(bytes, 10, &context()).unwrap();
    let mut row = rows.remove(0);
    if let Some(fields) = &mut row.fields {
        for field in fields.iter_mut() {
            field.number = field
                .text
                .as_deref()
                .and_then(|text| text.parse::<f64>().ok())
                .and_then(number);
        }
    }
    row
}

const ROW: &[u8] =
    br#"[[60000,"10","12","9","11","1.5",119999,"16.5",3,"0.5","5.5","0"]]"#;

#[test]
fn history_rows_are_read_from_bytes() {
    assert_eq!(
        decode_kline_row(&row(ROW), &context()),
        Ok(expected(FinalityAuthority::RestProvisionalOpen))
    );
    assert_eq!(
        decode_klines(&vec![row(ROW), row(ROW)], &context()),
        Ok(vec![expected(FinalityAuthority::RestProvisionalOpen); 2])
    );
    assert_eq!(read_klines(b" [ ] ", 10, &context()), Ok(vec![]));
    let unread = read_klines(ROW, 10, &context()).unwrap();
    assert_eq!(
        unread[0].fields.as_ref().unwrap()[0],
        KlineField { integer: Some(60_000), text: None, number: None }
    );
}

#[test]
fn a_body_that_is_no_history_is_refused() {
    let payload = |source| {
        Err(ProviderError::Payload { context: context(), source })
    };
    assert_eq!(
        read_klines(b"{\"code\":1}", 10, &context()),
        payload(PayloadError::ExpectedArray)
    );
    assert_eq!(read_klines(b"{", 10, &context()), payload(PayloadError::MalformedJson));
    assert_eq!(read_klines(b"[", 10, &context()), payload(PayloadError::MalformedJson));
    assert_eq!(
        read_klines(b"[[],[]]", 1, &context()),
        payload(PayloadError::MalformedJson)
    );
}

#[test]
fn each_field_of_a_row_is_checked() {
    let field = |field: &'static str| {
        Err(ProviderError::Payload {
            context: context(),
            source: PayloadError::InvalidField { field },
        })
    };
    for (bytes, name) in [
        (&br#"[["60000","10","12","9","11","1.5",119999,"1",3,"0","0","0"]]"#[..], "open_time"),
        (&br#"[[60000,"x","12","9","11","1.5",119999,"1",3,"0","0","0"]]"#[..], "open"),
        (&br#"[[60000,"10",12,"9","11","1.5",119999,"1",3,"0","0","0"]]"#[..], "high"),
        (&br#"[[60000,"10","12","nan","11","1.5",119999,"1",3,"0","0","0"]]"#[..], "low"),
        (&br#"[[60000,"10","12","9","inf","1.5",119999,"1",3,"0","0","0"]]"#[..], "close"),
        (&br#"[[60000,"10","12","9","11","",119999,"1",3,"0","0","0"]]"#[..], "base_volume"),
        (&br#"[[60000,"10","12","9","11","1.5",1.5,"1",3,"0","0","0"]]"#[..], "close_time"),
        (&br#"[[60000,"10","12","9","11","1.5",119999,"-1",3,"0","0","0"]]"#[..], "quote_volume"),
        (&br#"[[60000,"10","12","9","11","1.5",119999,"1",-3,"0","0","0"]]"#[..], "trade_count"),
        (
            &br#"[[60000,"10","12","9","11","1.5",119999,"1",3,"-1","0","0"]]"#[..],
            "taker_buy_base_volume",
        ),
        (
            &br#"[[60000,"10","12","9","11","1.5",119999,"1",3,"0","-1","0"]]"#[..],
            "taker_buy_quote_volume",
        ),
        (&br#"[[60000,"10","12","9","11","1.5",119999,"1",3,"0","0",0]]"#[..], "ignore"),
    ] {
        assert_eq!(decode_kline_row(&row(bytes), &context()), field(name));
    }
    assert_eq!(
        decode_kline_row(&row(b"[[1,2]]"), &context()),
        Err(ProviderError::Payload {
            context: context(),
            source: PayloadError::WrongArity { expected: 12, actual: 2 },
        })
    );
    assert_eq!(
        decode_kline_row(&row(b"[7]"), &context()),
        Err(ProviderError::Payload {
            context: context(),
            source: PayloadError::WrongArity { expected: 12, actual: 0 },
        })
    );
    assert!(matches!(
        decode_kline_row(
            &row(br#"[[60000,"10","12","9","13","1.5",119999,"1",3,"0","0","0"]]"#),
            &context()
        ),
        Err(ProviderError::Domain { .. })
    ));
}

#[test]
fn a_refusal_is_told_by_its_code() {
    assert_eq!(
        map_http_error(400, br#"{"code":-1121,"msg":"Invalid symbol."}"#, context()),
        ProviderError::InvalidSymbol {
            context: context(),
            code: -1121,
            message: SanitizedMessage::new("Invalid symbol."),
        }
    );
    assert_eq!(
        map_http_error(400, br#"{"code":-1100}"#, context()),
        ProviderError::ClientStatus {
            context: context(),
            status: 400,
            code: Some(-1100),
            message: None,
        }
    );
    assert_eq!(
        refusal_error(400, Some(-1121), None, context()),
        ProviderError::InvalidSymbol {
            context: context(),
            code: -1121,
            message: SanitizedMessage::InvalidSymbol,
        }
    );
    assert_eq!(
        map_http_error(502, b"oops", context()),
        ProviderError::ServerStatus { context: context(), status: 502 }
    );
}

#[test]
fn only_an_endless_ban_blocks_the_process() {
    let now = MonoInstant(1);
    let fallback = Duration::from_secs(30);
    assert!(is_rate_limited(429));
    assert!(is_rate_limited(418));
    assert!(!is_rate_limited(400));
    assert_eq!(
        handle_rate_limit(429, None, fallback, now),
        RateLimitDecision::TimedUntil(MonoInstant(30_000_000_001))
    );
    assert_eq!(
        handle_rate_limit(418, Some("3"), fallback, now),
        RateLimitDecision::TimedUntil(MonoInstant(3_000_000_001))
    );
    assert_eq!(
        handle_rate_limit(418, Some("later"), fallback, now),
        RateLimitDecision::ProcessBlocked(ProcessBlocker::InvalidBanExpiry)
    );
}

#[test]
fn a_request_names_its_market_and_bounds() {
    let query = history_query(
        &instrument(),
        Timeframe::Hour1,
        HistoryRequest::gap(-5, 7, 100).unwrap(),
    );
    let listed: Vec<(&str, &str)> =
        query.iter().map(|field| (field.name, field.value.as_str())).collect();
    assert_eq!(
        listed,
        [
            ("symbol", "BTCUSDT"),
            ("interval", "1h"),
            ("limit", "100"),
            ("startTime", "-5"),
            ("endTime", "7"),
        ]
    );
    assert_eq!(klines_path(Market::Spot), "/api/v3/klines");
    assert_eq!(klines_path(Market::Perpetual), "/fapi/v1/klines");
    assert_eq!(stream_path(&instrument(), Timeframe::Month1), "/ws/btcusdt@kline_1M");
    assert_eq!(
        websocket_url_from_base(
            "wss://stream.binance.com:9443",
            &instrument(),
            Timeframe::Minute1,
            false,
            HostAddress::NotLiteral
        ),
        Ok("wss://stream.binance.com:9443/ws/btcusdt@kline_1m".to_owned())
    );
    assert_eq!(
        websocket_url(&instrument(), Timeframe::Minute1),
        Ok("wss://data-stream.binance.vision/ws/btcusdt@kline_1m".to_owned())
    );
    assert_eq!(
        test_websocket_url(
            "http://127.0.0.1:1",
            &instrument(),
            Timeframe::Minute1,
            HostAddress::Loopback
        ),
        Err(ProviderError::WebSocketConfiguration {
            context: ws_context(),
            detail: "invalid WebSocket base URL",
        })
    );
}

#[test]
fn a_connection_is_renewed_before_a_day_is_over() {
    let config = LiveSupervisorConfig::default();
    assert_eq!(config.validate(), Ok(()));
    assert!(matches!(
        config.connection_rotation(),
        ConnectionRotation::After { .. }
    ));
    let test = BinanceTestConfig::loopback("http://127.0.0.1:1".to_owned());
    assert_eq!(test.body_limit, 2 * 1024 * 1024);
    assert_eq!(test.request_timeout, Duration::from_secs(10));
    let live = test.with_websocket_base("ws://127.0.0.1:2".to_owned());
    assert_eq!(live.ws_base_url, "ws://127.0.0.1:2");
}

#[test]
fn only_its_own_markets_are_accepted() {
    let spec = |provider: &str, venue: Option<&str>| InstrumentSpec {
        provider: provider.to_owned(),
        market: Market::Spot,
        venue: venue.map(str::to_owned),
    };
    assert_eq!(
        canonicalize(&spec("binance", None), Some(instrument())),
        Ok(instrument())
    );
    for (spec, local) in [
        (spec("okx", None), Some(instrument())),
        (spec("binance", Some("dex")), Some(instrument())),
        (spec("binance", None), None),
    ] {
        assert_eq!(
            canonicalize(&spec, local),
            Err(ProviderError::Configuration("instrument is not valid for Binance"))
        );
    }
}

#[test]
fn a_binance_test_server_is_reached_on_the_usual_terms() {
    let live = BinanceTestConfig::loopback("http://127.0.0.1:1".to_owned())
        .with_websocket_base("ws://127.0.0.1:2".to_owned())
        .live;
    assert_eq!(live, LiveSupervisorConfig::default());
    assert_eq!(live.supervisor.keyed_candle_capacity, 1024);
    assert_eq!(live.supervisor.control_capacity, 64);
    assert_eq!(live.supervisor.market_event_capacity, 256);
    assert_eq!(live.supervisor.first_kline_timeout, Duration::from_secs(10));
    assert_eq!(live.supervisor.reconcile_ack_timeout, Duration::from_secs(10));
    assert_eq!(live.supervisor.stalled_write_probe_frames, 0);
    assert_eq!(
        live.supervisor.ws_config.message_inactivity_timeout,
        Duration::from_secs(60)
    );
}
