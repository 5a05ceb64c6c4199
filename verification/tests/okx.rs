use std::collections::VecDeque;
use std::time::Duration;

use fccli::candle::{Candle, CandleValues, Decimal, FinalityAuthority};
use fccli::error::{
    ErrorContext, ErrorOperation, PayloadError, ProviderError, SanitizedMessage, TimeoutKind,
};
use fccli::model::{
    HistoryRequest, HistoryRequestKind, Instrument, InstrumentSpec, Market, MonoInstant, Timeframe,
};
use fccli::provider::okx::{
    bar, buffered_event, canonicalize, capabilities, channel, check_history, decode_candles,
    decode_okx_row, decode_ws_frame, envelope_rate_limit, history_path, history_query, live_event,
    map_http_error, on_readiness, page_upper_bound, reconciliation, test_subscribe_message,
    test_websocket_url, timeframe_successor_open, websocket_url, websocket_url_from_base, OkxDecoded, OkxEnvelope,
    OkxField, OkxLiveConfig, OkxRow, OkxTestConfig, OkxWsCodec, RowTerms, UNSUPPORTED_TIMEFRAME,
};
use fccli::provider::runtime::config::{ReconciliationPolicy, WsConfig};
use fccli::provider::runtime::endpoint::HostAddress;
use fccli::provider::runtime::frame::{DecodedFrame, ReadinessInput, WsMessage};
use fccli::provider::runtime::http::RateLimitDecision;
use fccli::provider::runtime::live::{LiveMarket, LiveSocketEvent};
use fccli::provider::runtime::ready::ReadyStep;

type Frame = DecodedFrame<OkxDecoded>;

const MINUTE: i64 = 60_000;

fn instrument() -> Instrument {
    Instrument {
        provider: "okx".to_owned(),
        market: Market::Spot,
        base: "BTC".to_owned(),
        quote: "USDT".to_owned(),
        provider_symbol: "BTC-USDT".to_owned(),
    }
}

fn context(operation: ErrorOperation) -> ErrorContext {
    ErrorContext::market(operation, &instrument(), Timeframe::Minute1)
}

fn number(value: f64) -> Option<Decimal> {
    Decimal::from_bits(value.to_bits())
}

fn field(text: &str) -> OkxField {
    OkxField {
        text: Some(text.to_owned()),
        number: text.parse::<f64>().ok().and_then(number),
    }
}

fn fields(open_time: i64, confirm: &str) -> Vec<OkxField> {
    let time = open_time.to_string();
    ["", "10", "12", "9", "11", "1.5", "2.5", "3.5", confirm]
        .iter()
        .enumerate()
        .map(|(index, text)| if index == 0 { field(&time) } else { field(text) })
        .collect()
}

fn candle(open_time: i64, volume: f64, authority: FinalityAuthority) -> Candle {
    Candle {
        values: CandleValues {
            open_time,
            close_time: open_time + MINUTE - 1,
            open: number(10.0).unwrap(),
            high: number(12.0).unwrap(),
            low: number(9.0).unwrap(),
            close: number(11.0).unwrap(),
            base_volume: number(volume).unwrap(),
        },
        authority,
    }
}

fn terms(market: Market, from_websocket: bool) -> RowTerms {
    RowTerms {
        market,
        timeframe: Timeframe::Minute1,
        context: context(ErrorOperation::History),
        from_websocket,
        now_ms: 10 * MINUTE,
    }
}

fn refused(source: PayloadError) -> ProviderError {
    ProviderError::Payload { context: context(ErrorOperation::History), source }
}

#[test]
fn a_row_is_a_candle() {
    assert_eq!(
        decode_okx_row(&terms(Market::Spot, true), &fields(MINUTE, "0")),
        Ok(candle(MINUTE, 1.5, FinalityAuthority::WsAuthoritativeOpen))
    );
    assert_eq!(
        decode_okx_row(&terms(Market::Perpetual, true), &fields(MINUTE, "1")),
        Ok(candle(MINUTE, 2.5, FinalityAuthority::WsAuthoritativeClosed))
    );
    assert_eq!(
        decode_okx_row(&terms(Market::Spot, false), &fields(MINUTE, "1")),
        Ok(candle(MINUTE, 1.5, FinalityAuthority::RestProvisionalOpen))
    );
}

#[test]
fn a_row_is_checked_field_by_field() {
    let spot = terms(Market::Spot, false);
    let mut long = fields(MINUTE, "0");
    long.push(field("x"));
    assert_eq!(
        decode_okx_row(&spot, &long),
        Err(refused(PayloadError::WrongArity { expected: 9, actual: 10 }))
    );
    for (index, text, name) in [
        (0, "soon", "timestamp"),
        (8, "2", "confirm"),
        (1, "x", "open"),
        (2, "inf", "high"),
        (3, "nan", "low"),
        (4, "", "close"),
        (5, "-1", "volume"),
        (6, "-1", "volume_currency"),
        (7, "x", "quote_volume"),
    ] {
        let mut row = fields(MINUTE, "0");
        row[index] = field(text);
        assert_eq!(
            decode_okx_row(&spot, &row),
            Err(refused(PayloadError::InvalidField { field: name }))
        );
        row[index] = OkxField { text: None, number: None };
        assert_eq!(
            decode_okx_row(&spot, &row),
            Err(refused(PayloadError::InvalidField { field: name }))
        );
    }
    assert_eq!(
        decode_okx_row(&spot, &fields(MINUTE + 1, "0")),
        Err(refused(PayloadError::MalformedProtocol))
    );
    assert_eq!(
        decode_okx_row(&spot, &fields(16 * MINUTE, "0")),
        Err(refused(PayloadError::MalformedProtocol))
    );
    assert!(decode_okx_row(&spot, &fields(15 * MINUTE, "0")).is_ok());
    assert_eq!(
        decode_okx_row(
            &RowTerms { now_ms: i64::MAX, ..terms(Market::Spot, false) },
            &fields(MINUTE, "0")
        ),
        Err(ProviderError::Invariant("future candle bound overflow"))
    );
    let mut odd = fields(MINUTE, "0");
    odd[4] = field("99");
    assert!(matches!(
        decode_okx_row(&spot, &odd),
        Err(ProviderError::Domain { .. })
    ));
}

fn decode(codec: &mut OkxWsCodec, message: &WsMessage) -> (Vec<Frame>, Option<Vec<OkxRow>>) {
    let mut outcomes = VecDeque::new();
    let rows = decode_ws_frame(
        codec,
        message,
        &instrument(),
        Timeframe::Minute1,
        &WsConfig::production(),
        &mut outcomes,
    );
    (outcomes.into_iter().collect(), rows)
}

fn text(body: &str) -> WsMessage {
    WsMessage::Text(body.as_bytes().to_vec())
}

fn said(codec: &mut OkxWsCodec, body: &str) -> Vec<Frame> {
    let (frames, rows) = decode(codec, &text(body));
    assert!(rows.is_none());
    frames
}

fn streamed(codec: &mut OkxWsCodec, times: &[i64]) -> Vec<Frame> {
    let mut outcomes = VecDeque::new();
    let rows = times
        .iter()
        .map(|time| OkxRow { fields: Some(fields(*time, "0")) })
        .collect();
    codec.accept_rows(&rows, &instrument(), Timeframe::Minute1, None, &mut outcomes);
    outcomes.into_iter().collect()
}

fn payload(source: PayloadError) -> Frame {
    DecodedFrame::ProviderError(ProviderError::Payload {
        context: context(ErrorOperation::WebSocket),
        source,
    })
}

fn protocol(detail: &'static str) -> ProviderError {
    ProviderError::Protocol { context: context(ErrorOperation::WebSocket), detail }
}

const ACK: &str =
    r#"{"event":"subscribe","id":"fccli1","arg":{"channel":"candle1m","instId":"BTC-USDT"}}"#;

#[test]
fn messages_are_told_apart_by_their_event() {
    let mut codec = OkxWsCodec::new();
    assert_eq!(
        said(&mut codec, "pong"),
        [DecodedFrame::Provider(OkxDecoded::ApplicationPong)]
    );
    assert_eq!(
        said(&mut codec, r#"{"event":"notice","code":"64008"}"#),
        [DecodedFrame::ReconnectRequested]
    );
    assert_eq!(
        said(&mut codec, r#"{"event":"notice","code":"1"}"#),
        [DecodedFrame::Ignored]
    );
    assert_eq!(
        said(&mut codec, r#"{"event":"error","code":"60012"}"#),
        [DecodedFrame::ProviderError(protocol("provider reported a WebSocket error"))]
    );
    assert_eq!(said(&mut codec, "{}"), [DecodedFrame::Ignored]);
    assert_eq!(said(&mut codec, "{"), [payload(PayloadError::MalformedProtocol)]);
    assert_eq!(
        said(&mut codec, r#"{"arg":{"channel":"candle5m","instId":"BTC-USDT"},"data":[]}"#),
        [DecodedFrame::ProviderError(protocol(
            "WebSocket candle market does not match subscription"
        ))]
    );
    assert_eq!(
        said(&mut codec, r#"{"arg":{"channel":"candle1m","instId":"BTC-USDT"}}"#),
        [payload(PayloadError::MalformedProtocol)]
    );
    assert_eq!(
        decode(&mut codec, &WsMessage::Binary(vec![0; 1_048_577])).0,
        [payload(PayloadError::OverBudget { limit_bytes: 1_048_576 })]
    );
    assert_eq!(
        decode(&mut codec, &WsMessage::Close(None)).0,
        [DecodedFrame::Close(None)]
    );
    let many = format!(
        r#"{{"arg":{{"channel":"candle1m","instId":"BTC-USDT"}},"data":[{}]}}"#,
        vec!["[]"; 301].join(",")
    );
    assert_eq!(said(&mut codec, &many), [payload(PayloadError::MalformedProtocol)]);
}

#[test]
fn rows_come_back_with_their_texts() {
    let mut codec = OkxWsCodec::new();
    let (frames, rows) = decode(
        &mut codec,
        &text(r#"{"arg":{"channel":"candle1m","instId":"BTC-USDT"},"data":[["60000",7],8]}"#),
    );
    assert!(frames.is_empty());
    assert_eq!(
        rows,
        Some(vec![
            OkxRow {
                fields: Some(vec![
                    OkxField { text: Some("60000".to_owned()), number: None },
                    OkxField { text: None, number: None },
                ]),
            },
            OkxRow { fields: None },
        ])
    );
}

#[test]
fn candles_wait_for_the_subscription() {
    let open = FinalityAuthority::WsAuthoritativeOpen;
    let mut codec = OkxWsCodec::with_now_ms(60 * MINUTE);
    assert_eq!(streamed(&mut codec, &[2 * MINUTE, MINUTE, 2 * MINUTE]), []);
    assert_eq!(
        said(&mut codec, ACK),
        [DecodedFrame::Provider(OkxDecoded::SubscribeAccepted {
            buffered: vec![candle(2 * MINUTE, 1.5, open), candle(MINUTE, 1.5, open)],
        })]
    );
    assert_eq!(said(&mut codec, ACK), [payload(PayloadError::MalformedProtocol)]);
    let passed =
        |time| DecodedFrame::Provider(OkxDecoded::Candle(candle(time, 1.5, open)));
    assert_eq!(
        streamed(&mut codec, &[3 * MINUTE, MINUTE, 1]),
        [
            passed(3 * MINUTE),
            passed(MINUTE),
            payload(PayloadError::MalformedProtocol)
        ]
    );
}

#[test]
fn few_candles_wait() {
    let mut codec = OkxWsCodec::with_now_ms(60 * MINUTE);
    let times: Vec<i64> = (0..16).map(|index| index * MINUTE).collect();
    assert_eq!(streamed(&mut codec, &times), []);
    assert_eq!(streamed(&mut codec, &[5 * MINUTE]), []);
    assert_eq!(
        streamed(&mut codec, &[16 * MINUTE]),
        [DecodedFrame::ProviderError(protocol(
            "Okx pre-ack candle buffer exceeded 16 distinct candles"
        ))]
    );
    let mut unclocked = OkxWsCodec::new();
    assert_eq!(
        streamed(&mut unclocked, &[0]),
        [DecodedFrame::ProviderError(ProviderError::Invariant(
            "unix epoch clock is unavailable"
        ))]
    );
    let mut outcomes = VecDeque::new();
    codec.accept_rows(
        &vec![OkxRow { fields: None }],
        &instrument(),
        Timeframe::Minute1,
        None,
        &mut outcomes,
    );
    assert_eq!(
        outcomes,
        VecDeque::from([payload(PayloadError::WrongArity { expected: 9, actual: 0 })])
    );
}

#[test]
fn an_acknowledgement_must_be_exact() {
    for body in [
        r#"{"event":"subscribe","id":"other","arg":{"channel":"candle1m","instId":"BTC-USDT"}}"#,
        r#"{"event":"subscribe","id":"fccli1","arg":{"channel":"candle5m","instId":"BTC-USDT"}}"#,
        r#"{"event":"subscribe","id":"fccli1","arg":{"channel":"candle1m","instId":"ETH-USDT"}}"#,
        r#"{"event":"subscribe","id":"fccli1"}"#,
    ] {
        assert_eq!(
            said(&mut OkxWsCodec::new(), body),
            [payload(PayloadError::MalformedProtocol)]
        );
    }
    let mut outcomes = VecDeque::new();
    decode_ws_frame(
        &mut OkxWsCodec::new(),
        &text(ACK),
        &instrument(),
        Timeframe::Hour8,
        &WsConfig::production(),
        &mut outcomes,
    );
    assert_eq!(
        outcomes,
        VecDeque::from([Frame::ProviderError(ProviderError::Configuration(
            UNSUPPORTED_TIMEFRAME
        ))])
    );
}

#[test]
fn what_waited_goes_first() {
    let open = FinalityAuthority::WsAuthoritativeOpen;
    let mut buffered = VecDeque::from([candle(0, 1.5, open), candle(MINUTE, 1.5, open)]);
    assert_eq!(
        buffered_event(&mut buffered),
        Some(LiveSocketEvent::Candle(candle(0, 1.5, open)))
    );
    assert_eq!(
        buffered_event(&mut buffered),
        Some(LiveSocketEvent::Candle(candle(MINUTE, 1.5, open)))
    );
    assert_eq!(buffered_event(&mut buffered), None);
    assert_eq!(
        live_event(DecodedFrame::Provider(OkxDecoded::SubscribeAccepted { buffered: vec![] })),
        LiveSocketEvent::ProtocolViolation("duplicate Okx subscribe acknowledgement")
    );
    assert_eq!(
        live_event(DecodedFrame::ReconnectRequested),
        LiveSocketEvent::ReconnectRequested
    );
}

#[test]
fn a_subscription_brings_what_was_held_back() {
    let market = LiveMarket { instrument: instrument(), timeframe: Timeframe::Minute1 };
    let ready = |frame: Frame, now: u64| {
        on_readiness(ReadinessInput::Frame(frame), &market, MonoInstant(now), MonoInstant(10))
    };
    let held = candle(0, 1.5, FinalityAuthority::WsAuthoritativeOpen);
    assert_eq!(
        ready(
            DecodedFrame::Provider(OkxDecoded::SubscribeAccepted { buffered: vec![held] }),
            0
        ),
        ReadyStep::Ready(vec![held])
    );
    assert_eq!(ready(DecodedFrame::Ignored, 9), ReadyStep::Wait);
    assert_eq!(
        ready(DecodedFrame::Ignored, 10),
        ReadyStep::Fail(ProviderError::Timeout {
            context: context(ErrorOperation::WebSocket),
            kind: TimeoutKind::SubscribeAck,
        })
    );
    assert_eq!(
        ready(DecodedFrame::ReconnectRequested, 0),
        ReadyStep::Close(protocol("WebSocket peer requested reconnect"))
    );
    assert_eq!(
        ready(DecodedFrame::Provider(OkxDecoded::Candle(held)), 0),
        ReadyStep::Fail(protocol(
            "Okx codec emitted a candle before subscribe acknowledgement"
        ))
    );
}

#[test]
fn periods_have_names_of_their_own() {
    assert_eq!(bar(Timeframe::Hour6), Ok("6Hutc"));
    assert_eq!(channel(Timeframe::Hour6), Ok("candle6Hutc"));
    assert_eq!(bar(Timeframe::Minute1), Ok("1m"));
    let unsupported = Err(ProviderError::Configuration(UNSUPPORTED_TIMEFRAME));
    assert_eq!(bar(Timeframe::Hour8), unsupported);
    assert_eq!(channel(Timeframe::Hour8), unsupported);
    for timeframe in capabilities().timeframes {
        assert_eq!(
            channel(timeframe).unwrap(),
            format!("candle{}", bar(timeframe).unwrap())
        );
    }
    assert_eq!(
        test_subscribe_message(&instrument(), Timeframe::Day1),
        r#"{"args":[{"channel":"candle1Dutc","instId":"BTC-USDT"}],"id":"fccli1","op":"subscribe"}"#
    );
}

#[test]
fn weeks_open_on_mondays() {
    assert_eq!(
        timeframe_successor_open(Timeframe::Week1, 345_600_000),
        Some(950_400_000)
    );
    assert_eq!(timeframe_successor_open(Timeframe::Week1, 0), None);
    assert_eq!(timeframe_successor_open(Timeframe::Hour8, 0), None);
    assert_eq!(
        timeframe_successor_open(Timeframe::Month1, 0),
        Some(2_678_400_000)
    );
}

#[test]
fn a_page_ends_with_its_last_row() {
    assert_eq!(page_upper_bound(Timeframe::Minute1, 0, 3), Ok(2 * MINUTE));
    assert_eq!(page_upper_bound(Timeframe::Minute1, 0, 1), Ok(0));
    assert_eq!(page_upper_bound(Timeframe::Minute1, 0, 0), Ok(0));
    assert_eq!(
        page_upper_bound(Timeframe::Minute1, 1, 3),
        Err(ProviderError::Configuration("OKX history gap start is off grid"))
    );
}

fn listed(request: HistoryRequest) -> Result<Vec<(&'static str, String)>, ProviderError> {
    history_query(&instrument(), Timeframe::Minute1, request)
        .map(|query| query.into_iter().map(|field| (field.name, field.value)).collect())
}

#[test]
fn a_query_names_its_market_and_bounds() {
    let owned = |pairs: &[(&'static str, &str)]| {
        Ok(pairs.iter().map(|(name, value)| (*name, (*value).to_owned())).collect())
    };
    assert_eq!(
        listed(HistoryRequest::latest(300).unwrap()),
        owned(&[("instId", "BTC-USDT"), ("bar", "1m"), ("limit", "300")])
    );
    assert_eq!(
        listed(HistoryRequest::older(5, 300).unwrap()),
        owned(&[("instId", "BTC-USDT"), ("bar", "1m"), ("limit", "300"), ("after", "5")])
    );
    assert_eq!(
        listed(HistoryRequest::gap(0, 99 * MINUTE, 3).unwrap()),
        owned(&[
            ("instId", "BTC-USDT"),
            ("bar", "1m"),
            ("limit", "3"),
            ("before", "-1"),
            ("after", "120001"),
        ])
    );
    let broken = |kind| HistoryRequest { kind, ..HistoryRequest::latest(3).unwrap() };
    assert_eq!(
        listed(broken(HistoryRequestKind::Older)),
        Err(ProviderError::Invariant("older history request is missing endTime"))
    );
    assert_eq!(
        listed(broken(HistoryRequestKind::Gap)),
        Err(ProviderError::Invariant("gap history request is missing startTime"))
    );
    assert_eq!(
        listed(HistoryRequest { start_time: Some(0), ..broken(HistoryRequestKind::Gap) }),
        Err(ProviderError::Invariant("gap history request is missing endTime"))
    );
    assert_eq!(
        listed(HistoryRequest::gap(1, 99 * MINUTE, 3).unwrap()),
        Err(ProviderError::Configuration("OKX history gap start is off grid"))
    );
    assert_eq!(history_path(HistoryRequestKind::Latest), "/api/v5/market/candles");
    assert_eq!(history_path(HistoryRequestKind::Gap), "/api/v5/market/history-candles");
    assert_eq!(check_history(Timeframe::Minute1, 300), Ok(()));
    assert_eq!(
        check_history(Timeframe::Minute1, 301),
        Err(ProviderError::Configuration("OKX history request limit exceeds 300"))
    );
    assert_eq!(
        check_history(Timeframe::Hour8, 301),
        Err(ProviderError::Configuration(UNSUPPORTED_TIMEFRAME))
    );
}

fn envelope(code: &str, msg: &str, times: &[i64]) -> OkxEnvelope {
    OkxEnvelope {
        code: code.to_owned(),
        msg: msg.to_owned(),
        data: times.iter().map(|time| fields(*time, "1")).collect(),
    }
}

fn history(
    envelope: Option<&OkxEnvelope>,
    request: HistoryRequest,
) -> Result<Vec<i64>, ProviderError> {
    decode_candles(
        envelope,
        Market::Spot,
        Timeframe::Minute1,
        request,
        context(ErrorOperation::History),
        10 * MINUTE,
    )
    .map(|candles| candles.iter().map(Candle::open_time).collect())
}

#[test]
fn history_is_turned_round() {
    let latest = HistoryRequest::latest(3).unwrap();
    let read = |times: &[i64], request| history(Some(&envelope("0", "", times)), request);
    assert_eq!(read(&[3 * MINUTE, MINUTE, 0], latest), Ok(vec![0, MINUTE, 3 * MINUTE]));
    assert_eq!(read(&[], latest), Ok(vec![]));
    let malformed = Err(refused(PayloadError::MalformedProtocol));
    assert_eq!(read(&[0, MINUTE], latest), malformed);
    assert_eq!(read(&[0, 0], latest), malformed);
    assert_eq!(read(&[3 * MINUTE, 2 * MINUTE, MINUTE, 0], latest), malformed);
    let older = HistoryRequest::older(2 * MINUTE, 3).unwrap();
    assert_eq!(read(&[MINUTE], older), Ok(vec![MINUTE]));
    assert_eq!(read(&[2 * MINUTE], older), malformed);
    let gap = HistoryRequest::gap(MINUTE, 9 * MINUTE, 3).unwrap();
    assert_eq!(read(&[3 * MINUTE, MINUTE], gap), Ok(vec![MINUTE, 3 * MINUTE]));
    assert_eq!(read(&[4 * MINUTE], gap), malformed);
    assert_eq!(read(&[0], gap), malformed);
    assert_eq!(
        read(&[], HistoryRequest::gap(1, 9 * MINUTE, 3).unwrap()),
        Err(ProviderError::Configuration("OKX history gap start is off grid"))
    );
    assert_eq!(history(None, latest), Err(refused(PayloadError::MalformedJson)));
}

#[test]
fn a_refusal_is_told_by_its_code_and_words() {
    let latest = HistoryRequest::latest(3).unwrap();
    let context = || context(ErrorOperation::History);
    let read = |code: &str, msg: &str| history(Some(&envelope(code, msg, &[])), latest);
    assert_eq!(
        read("51001", "Instrument ID doesn't exist"),
        Err(ProviderError::InvalidSymbol {
            context: context(),
            code: 51001,
            message: SanitizedMessage::new("Instrument ID doesn't exist"),
        })
    );
    assert_eq!(
        read("51001", ""),
        Err(ProviderError::InvalidSymbol {
            context: context(),
            code: 51001,
            message: SanitizedMessage::InvalidSymbol,
        })
    );
    assert_eq!(
        read("50000", "busy"),
        Err(ProviderError::ClientStatus {
            context: context(),
            status: 200,
            code: Some(50000),
            message: Some(SanitizedMessage::new("busy")),
        })
    );
    assert_eq!(
        read("odd", ""),
        Err(ProviderError::ClientStatus {
            context: context(),
            status: 200,
            code: None,
            message: None,
        })
    );
    assert_eq!(
        map_http_error(404, context()),
        ProviderError::ClientStatus { context: context(), status: 404, code: None, message: None }
    );
}

#[test]
fn a_limit_may_come_in_the_answer() {
    let fallback = Duration::from_secs(30);
    let limit = |code: &str, now| {
        envelope_rate_limit(Some(&envelope(code, "", &[])), fallback, MonoInstant(now))
    };
    assert_eq!(
        limit("50011", 1),
        Ok(Some(RateLimitDecision::TimedUntil(MonoInstant(30_000_000_001))))
    );
    assert_eq!(limit("0", 1), Ok(None));
    assert_eq!(envelope_rate_limit(None, fallback, MonoInstant(1)), Ok(None));
    assert_eq!(
        limit("50011", u64::MAX),
        Err(ProviderError::Invariant("rate-limit deadline overflow"))
    );
}

#[test]
fn the_business_server_has_one_path() {
    let url = |base: &str, timeframe| {
        websocket_url_from_base(base, timeframe, false, HostAddress::NotLiteral)
            .map(|url| url.path)
    };
    assert_eq!(
        url("wss://ws.okx.com:8443/ws/v5/business", Timeframe::Minute1),
        Ok("/ws/v5/business".to_owned())
    );
    assert_eq!(
        url("wss://ws.okx.com:8443/ws/v5/public", Timeframe::Minute1),
        Err(ProviderError::Configuration("invalid OKX business WebSocket URL"))
    );
    assert_eq!(
        url("wss://ws.okx.com:8443/ws/v5/business", Timeframe::Hour8),
        Err(ProviderError::Configuration(UNSUPPORTED_TIMEFRAME))
    );
    assert_eq!(
        websocket_url(&instrument(), Timeframe::Minute1).map(|url| url.href),
        Ok("wss://ws.okx.com:8443/ws/v5/business".to_owned())
    );
    assert!(test_websocket_url(
        "ws://127.0.0.1:9/any",
        &instrument(),
        Timeframe::Minute1,
        HostAddress::Loopback
    )
    .is_ok());
    assert_eq!(
        test_websocket_url(
            "ws://127.0.0.1:9/any",
            &instrument(),
            Timeframe::Hour8,
            HostAddress::Loopback
        ),
        Err(ProviderError::WebSocketConfiguration {
            context: ErrorContext::market(
                ErrorOperation::WebSocket,
                &instrument(),
                Timeframe::Hour8
            ),
            detail: UNSUPPORTED_TIMEFRAME,
        })
    );
}

#[test]
fn swaps_are_marked() {
    let spec = |market, venue: Option<&str>| InstrumentSpec {
        provider: "okx".to_owned(),
        market,
        venue: venue.map(str::to_owned),
    };
    let symbol = |spec: &InstrumentSpec| {
        canonicalize(spec, Some(&instrument())).map(|found| found.provider_symbol)
    };
    assert_eq!(symbol(&spec(Market::Spot, None)), Ok("BTC-USDT".to_owned()));
    assert_eq!(symbol(&spec(Market::Perpetual, None)), Ok("BTC-USDT-SWAP".to_owned()));
    let refused = Err(ProviderError::Configuration("instrument is not valid for OKX"));
    assert_eq!(symbol(&spec(Market::Spot, Some("dex"))), refused);
    assert_eq!(
        symbol(&InstrumentSpec { provider: "binance".to_owned(), ..spec(Market::Spot, None) }),
        refused
    );
    assert_eq!(
        canonicalize(&spec(Market::Spot, None), None),
        Err(ProviderError::Configuration("instrument is not valid for OKX"))
    );
}

#[test]
fn the_terms_of_the_okx_feed_are_checked() {
    let config = OkxLiveConfig::default();
    assert_eq!(config.validate(), Ok(()));
    assert_eq!(
        config.supervisor.ws_config.message_inactivity_timeout,
        Duration::from_secs(30)
    );
    let configuration = |detail| Err(ProviderError::Configuration(detail));
    assert_eq!(
        OkxLiveConfig { subscribe_ack_timeout: Duration::from_secs(61), ..config }.validate(),
        configuration("subscribe acknowledgement timeout is outside 1ms..=60s")
    );
    assert_eq!(
        OkxLiveConfig { application_heartbeat_interval_for_test: Duration::ZERO, ..config }
            .validate(),
        configuration("application heartbeat interval is outside 1ms..=60s")
    );
    assert!(matches!(reconciliation(), ReconciliationPolicy::Bounded(limits)
        if limits.max_successors == 64_000 && limits.max_pages == 214));
    assert_eq!(capabilities().timeframes.len(), 15);
    let test = OkxTestConfig::loopback("http://127.0.0.1:1".to_owned())
        .with_websocket_base("ws://127.0.0.1:2".to_owned());
    assert_eq!(test.live, config);
}

#[test]
fn a_okx_test_server_is_reached_on_the_usual_terms() {
    let live = OkxTestConfig::loopback("http://127.0.0.1:1".to_owned())
        .with_websocket_base("ws://127.0.0.1:2".to_owned())
        .live;
    assert_eq!(live, OkxLiveConfig::default());
    assert_eq!(live.supervisor.keyed_candle_capacity, 1024);
    assert_eq!(live.supervisor.control_capacity, 64);
    assert_eq!(live.supervisor.market_event_capacity, 256);
    assert_eq!(live.supervisor.first_kline_timeout, Duration::from_secs(10));
    assert_eq!(live.supervisor.reconcile_ack_timeout, Duration::from_secs(10));
    assert_eq!(live.supervisor.stalled_write_probe_frames, 0);
    assert_eq!(
        live.supervisor.ws_config.message_inactivity_timeout,
        Duration::from_secs(30)
    );
}

#[test]
fn okx_offers_its_timeframes_from_the_shortest() {
    let offered = capabilities().timeframes;
    assert_eq!(offered[0], Timeframe::Second1);
    assert_eq!(offered[offered.len() - 4], Timeframe::Day1);
    assert_eq!(offered[offered.len() - 1], Timeframe::Month1);
}
