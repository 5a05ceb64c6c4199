//! Binance Spot and USD-M Perpetual: history rows and kline frames.
use std::time::Duration;

use vstd::prelude::*;

use crate::candle::{Candle, CandleValues, Decimal};
use crate::clock::{checked_deadline, is_zero};
use crate::error::{
    ErrorContext, ErrorOperation, PayloadError, ProviderError, SanitizedMessage,
};
use crate::json::{
    json_integer, json_items, json_text, looks_like_array, member_integer, member_text,
    parse_json,
};
use crate::model::{
    HistoryRequest, Instrument, InstrumentSpec, Market, MonoInstant, ProcessBlocker, Timeframe,
};
use crate::provider::runtime::config::{ConnectionRotation, WsConfig};
use crate::provider::runtime::endpoint::{url_at_path, validate_websocket_base, HostAddress};
use crate::provider::runtime::frame::{DecodedFrame, WsMessage, WsOutcome};
use crate::provider::runtime::http::{
    payload, retry_after_deadline, QueryField, RateLimitDecision, BAD_REQUEST, IM_A_TEAPOT,
    RATE_LIMIT_FALLBACK_MILLIS, REST_BODY_LIMIT, REST_REQUEST_TIMEOUT_MILLIS, TOO_MANY_REQUESTS,
};
use crate::provider::runtime::live::{
    classify_live_error_for_test, LiveInputClassification, LiveSocketEvent,
};
use crate::provider::runtime::websocket::contextualize_websocket_configuration;
use crate::text::{i64_text, matches_text, same_text, to_lower, u64_text};

verus! {

pub const GAP_PAGE_LIMIT: u16 = 1000;

pub const MAX_KLINE_ROWS: u16 = 1000;

pub const INVALID_SYMBOL_CODE: i64 = -1121;

pub const MAX_CONNECTION_AGE_MILLIS: u64 = 86_400_000;

pub open spec fn klines_path_text(market: Market) -> &'static str {
    match market {
        Market::Spot => "/api/v3/klines",
        Market::Perpetual => "/fapi/v1/klines",
    }
}

pub fn klines_path(market: Market) -> (path: &'static str)
    ensures
        path == klines_path_text(market),
        path == (match market {
            Market::Spot => "/api/v3/klines",
            Market::Perpetual => "/fapi/v1/klines",
        }),
{
    match market {
        Market::Spot => "/api/v3/klines",
        Market::Perpetual => "/fapi/v1/klines",
    }
}

pub fn production_rest_base(market: Market) -> (base: &'static str)
    ensures
        base == (match market {
            Market::Spot => "https://data-api.binance.vision",
            Market::Perpetual => "https://fapi.binance.com",
        }),
{
    match market {
        Market::Spot => "https://data-api.binance.vision",
        Market::Perpetual => "https://fapi.binance.com",
    }
}

/// The server of a market's streams.
pub open spec fn stream_server(market: Market) -> &'static str {
    match market {
        Market::Spot => "wss://data-stream.binance.vision",
        Market::Perpetual => "wss://fstream.binance.com",
    }
}

pub fn production_ws_base(market: Market) -> (base: &'static str)
    ensures
        base == stream_server(market),
        base == (match market {
            Market::Spot => "wss://data-stream.binance.vision",
            Market::Perpetual => "wss://fstream.binance.com",
        }),
{
    match market {
        Market::Spot => "wss://data-stream.binance.vision",
        Market::Perpetual => "wss://fstream.binance.com",
    }
}

/// The supervisor's limits, and how old a connection may become.
#[derive(Clone, Copy, Debug, PartialEq, Eq)]
pub struct LiveSupervisorConfig {
    pub supervisor: crate::provider::runtime::config::LiveSupervisorConfig,
    pub max_connection_age: Duration,
}

impl LiveSupervisorConfig {
    /// Whether these are the usual terms.
    pub open spec fn usual(self) -> bool {
        &&& self.supervisor.usual()
        &&& crate::clock::duration_nanos(self.supervisor.ws_config.message_inactivity_timeout)
            == 60_000_000_000
        &&& crate::clock::duration_nanos(self.max_connection_age) == 86_400_000_000_000
    }

    /// The first rule that a configuration breaks, if it breaks one.
    pub open spec fn fault(self) -> Option<&'static str> {
        match self.supervisor.limits_fault() {
            Some(detail) => Some(detail),
            None => if crate::clock::duration_nanos(self.max_connection_age) == 0 {
                Some("live connection max age must be positive")
            } else {
                self.supervisor.ws_config.fault()
            },
        }
    }

    pub fn validate(&self) -> (validated: Result<(), ProviderError>)
        ensures
            validated == (match self.fault() {
                None => Ok::<(), ProviderError>(()),
                Some(detail) => Err(ProviderError::Configuration(detail)),
            }),
    {
        match self.supervisor.validate_limits() {
            Ok(()) => {},
            Err(error) => {
                return Err(error);
            },
        }
        if is_zero(self.max_connection_age) {
            return Err(ProviderError::Configuration("live connection max age must be positive"));
        }
        match self.supervisor.ws_config.validate() {
            Ok(_) => Ok(()),
            Err(error) => Err(error),
        }
    }

    /// When a connection is given up for its age.
    pub fn connection_rotation(&self) -> (rotation: ConnectionRotation)
        ensures
            rotation == (ConnectionRotation::After {
                max_age: self.max_connection_age,
                detail: "24-hour WebSocket connection age reached",
            }),
    {
        ConnectionRotation::After {
            max_age: self.max_connection_age,
            detail: "24-hour WebSocket connection age reached",
        }
    }
}

impl Default for LiveSupervisorConfig {
    fn default() -> (config: Self)
        ensures
            config.fault() is None,
            config.usual(),
    {
        LiveSupervisorConfig {
            supervisor: crate::provider::runtime::config::LiveSupervisorConfig::default(),
            max_connection_age: Duration::from_millis(MAX_CONNECTION_AGE_MILLIS),
        }
    }
}

/// How a test reaches a server of its own.
#[derive(Debug, PartialEq, Eq)]
pub struct BinanceTestConfig {
    pub base_url: String,
    pub request_timeout: Duration,
    pub body_limit: usize,
    pub rate_limit_fallback: Duration,
}

impl BinanceTestConfig {
    pub fn loopback(base_url: String) -> (config: BinanceTestConfig)
        ensures
            config.base_url == base_url,
            crate::clock::duration_nanos(config.request_timeout) == 10_000_000_000,
            config.body_limit == REST_BODY_LIMIT,
            crate::clock::duration_nanos(config.rate_limit_fallback) == 30_000_000_000,
    {
        BinanceTestConfig {
            base_url,
            request_timeout: Duration::from_millis(REST_REQUEST_TIMEOUT_MILLIS),
            body_limit: REST_BODY_LIMIT,
            rate_limit_fallback: Duration::from_millis(RATE_LIMIT_FALLBACK_MILLIS),
        }
    }

    pub fn with_websocket_base(self, base_url: String) -> (config: BinanceLiveTestConfig)
        ensures
            config.rest == self,
            config.ws_base_url == base_url,
            config.live.fault() is None,
            config.live.usual(),
    {
        BinanceLiveTestConfig {
            rest: self,
            ws_base_url: base_url,
            live: LiveSupervisorConfig::default(),
        }
    }
}

#[derive(Debug, PartialEq, Eq)]
pub struct BinanceLiveTestConfig {
    pub rest: BinanceTestConfig,
    pub ws_base_url: String,
    pub live: LiveSupervisorConfig,
}

#[derive(Debug, PartialEq)]
pub enum BinanceDecoded {
    Candle(Candle),
}

impl WsOutcome for BinanceDecoded {
    open spec fn rank(self) -> int {
        1
    }

    fn readiness_priority(&self) -> (priority: u8) {
        match self {
            BinanceDecoded::Candle(_) => 1,
        }
    }
}

/// A kline of the stream. Each number is its text's value, where that is a finite number.
#[derive(Debug, PartialEq)]
pub struct WsKline {
    pub open_time: i64,
    pub close_time: i64,
    pub symbol: String,
    pub interval: String,
    pub open: Option<Decimal>,
    pub close: Option<Decimal>,
    pub high: Option<Decimal>,
    pub low: Option<Decimal>,
    pub volume: Option<Decimal>,
    pub closed: bool,
}

#[derive(Debug, PartialEq)]
pub struct WsEnvelope {
    pub event: Option<String>,
    pub symbol: Option<String>,
    pub code: Option<i64>,
    pub msg: Option<String>,
    pub k: Option<WsKline>,
}

impl WsKline {
    /// The numbers of a kline, where all are numbers.
    pub open spec fn values(self) -> Option<CandleValues> {
        match (self.open, self.high, self.low, self.close, self.volume) {
            (Some(open), Some(high), Some(low), Some(close), Some(base_volume)) => Some(
                CandleValues {
                    open_time: self.open_time,
                    close_time: self.close_time,
                    open,
                    high,
                    low,
                    close,
                    base_volume,
                },
            ),
            _ => None,
        }
    }
}

pub open spec fn mismatch(context: ErrorContext) -> ProviderError {
    ProviderError::Protocol {
        context,
        detail: "WebSocket kline market does not match subscription",
    }
}

/// What a kline of the stream is to the market that was subscribed to.
pub open spec fn kline_frame(
    envelope_symbol: Option<String>,
    kline: WsKline,
    instrument: Instrument,
    timeframe: Timeframe,
    context: ErrorContext,
) -> DecodedFrame<BinanceDecoded> {
    if !crate::text::is_text(envelope_symbol, instrument.provider_symbol@) || kline.symbol@
        != instrument.provider_symbol@ || kline.interval@ != timeframe.spelling()@ {
        DecodedFrame::ProviderError(mismatch(context))
    } else {
        match kline.values() {
            None => DecodedFrame::ProviderError(
                crate::provider::runtime::http::payload_error(
                    context,
                    PayloadError::InvalidField { field: "kline numeric field" },
                ),
            ),
            Some(values) => match Candle::streamed(values, kline.closed) {
                Ok(candle) => DecodedFrame::Provider(BinanceDecoded::Candle(candle)),
                Err(source) => DecodedFrame::ProviderError(
                    ProviderError::Domain { context, source },
                ),
            },
        }
    }
}

/// What an envelope of the stream says.
pub open spec fn envelope_frame(
    envelope: WsEnvelope,
    instrument: Instrument,
    timeframe: Timeframe,
    context: ErrorContext,
) -> DecodedFrame<BinanceDecoded> {
    if crate::text::is_text(envelope.event, "serverShutdown"@) {
        DecodedFrame::ReconnectRequested
    } else if envelope.code == Some(INVALID_SYMBOL_CODE) {
        DecodedFrame::ProviderError(
            ProviderError::InvalidSymbol {
                context,
                code: INVALID_SYMBOL_CODE,
                message: match envelope.msg {
                    Some(text) => SanitizedMessage::Provided(text),
                    None => SanitizedMessage::InvalidSymbol,
                },
            },
        )
    } else if envelope.code is Some || envelope.msg is Some {
        DecodedFrame::ProviderError(
            ProviderError::Protocol { context, detail: "provider reported a WebSocket error" },
        )
    } else if !crate::text::is_text(envelope.event, "kline"@) {
        DecodedFrame::Ignored
    } else {
        match envelope.k {
            None => DecodedFrame::ProviderError(
                crate::provider::runtime::http::payload_error(
                    context,
                    PayloadError::MalformedProtocol,
                ),
            ),
            Some(kline) => kline_frame(envelope.symbol, kline, instrument, timeframe, context),
        }
    }
}

/// What a payload says: `envelope` is what it was read as, where it could be.
pub open spec fn payload_frame(
    size: int,
    envelope: Option<WsEnvelope>,
    instrument: Instrument,
    timeframe: Timeframe,
    config: WsConfig,
) -> DecodedFrame<BinanceDecoded> {
    let context = ErrorContext::of_market(ErrorOperation::WebSocket, instrument, timeframe);
    if size > config.max_message_size {
        DecodedFrame::ProviderError(
            crate::provider::runtime::http::payload_error(
                context,
                PayloadError::OverBudget { limit_bytes: config.max_message_size },
            ),
        )
    } else {
        match envelope {
            None => DecodedFrame::ProviderError(
                crate::provider::runtime::http::payload_error(
                    context,
                    PayloadError::MalformedProtocol,
                ),
            ),
            Some(envelope) => envelope_frame(envelope, instrument, timeframe, context),
        }
    }
}

/// What a message says.
pub open spec fn message_frame(
    message: WsMessage,
    envelope: Option<WsEnvelope>,
    instrument: Instrument,
    timeframe: Timeframe,
    config: WsConfig,
) -> DecodedFrame<BinanceDecoded> {
    match config.fault() {
        Some(detail) => DecodedFrame::ProviderError(ProviderError::Configuration(detail)),
        None => match message {
            WsMessage::Text(bytes) => payload_frame(
                bytes@.len() as int,
                envelope,
                instrument,
                timeframe,
                config,
            ),
            WsMessage::Binary(bytes) => payload_frame(
                bytes@.len() as int,
                envelope,
                instrument,
                timeframe,
                config,
            ),
            WsMessage::Close(code) => DecodedFrame::Close(code),
            _ => DecodedFrame::Ignored,
        },
    }
}

fn decode_kline(
    envelope_symbol: &Option<String>,
    kline: WsKline,
    instrument: &Instrument,
    timeframe: Timeframe,
    context: ErrorContext,
) -> (frame: DecodedFrame<BinanceDecoded>)
    ensures
        frame == kline_frame(*envelope_symbol, kline, *instrument, timeframe, context),
{
    let symbol = instrument.provider_symbol();
    if !matches_text(envelope_symbol, symbol) || !same_text(kline.symbol.as_str(), symbol)
        || !same_text(kline.interval.as_str(), timeframe.as_str()) {
        return DecodedFrame::ProviderError(
            ProviderError::Protocol {
                context,
                detail: "WebSocket kline market does not match subscription",
            },
        );
    }
    let values = match (kline.open, kline.high, kline.low, kline.close, kline.volume) {
        (Some(open), Some(high), Some(low), Some(close), Some(base_volume)) => CandleValues {
            open_time: kline.open_time,
            close_time: kline.close_time,
            open,
            high,
            low,
            close,
            base_volume,
        },
        _ => {
            return DecodedFrame::ProviderError(
                payload(&context, PayloadError::InvalidField { field: "kline numeric field" }),
            );
        },
    };
    match Candle::from_ws(values, kline.closed) {
        Ok(candle) => DecodedFrame::Provider(BinanceDecoded::Candle(candle)),
        Err(source) => DecodedFrame::ProviderError(ProviderError::Domain { context, source }),
    }
}

fn decode_envelope(
    envelope: WsEnvelope,
    instrument: &Instrument,
    timeframe: Timeframe,
    context: ErrorContext,
) -> (frame: DecodedFrame<BinanceDecoded>)
    ensures
        frame == envelope_frame(envelope, *instrument, timeframe, context),
{
    if matches_text(&envelope.event, "serverShutdown") {
        return DecodedFrame::ReconnectRequested;
    }
    if let Some(code) = envelope.code {
        if code == INVALID_SYMBOL_CODE {
            return DecodedFrame::ProviderError(
                ProviderError::InvalidSymbol {
                    context,
                    code: INVALID_SYMBOL_CODE,
                    message: match envelope.msg {
                        Some(text) => SanitizedMessage::Provided(text),
                        None => SanitizedMessage::InvalidSymbol,
                    },
                },
            );
        }
    }
    if envelope.code.is_some() || envelope.msg.is_some() {
        return DecodedFrame::ProviderError(
            ProviderError::Protocol { context, detail: "provider reported a WebSocket error" },
        );
    }
    if !matches_text(&envelope.event, "kline") {
        return DecodedFrame::Ignored;
    }
    match envelope.k {
        None => DecodedFrame::ProviderError(payload(&context, PayloadError::MalformedProtocol)),
        Some(kline) => decode_kline(&envelope.symbol, kline, instrument, timeframe, context),
    }
}

pub fn decode_ws_payload(
    size: usize,
    envelope: Option<WsEnvelope>,
    instrument: &Instrument,
    timeframe: Timeframe,
    config: &WsConfig,
) -> (frame: DecodedFrame<BinanceDecoded>)
    ensures
        frame == payload_frame(size as int, envelope, *instrument, timeframe, *config),
{
    let context = ErrorContext::market(ErrorOperation::WebSocket, instrument, timeframe);
    if size > config.max_message_size {
        return DecodedFrame::ProviderError(
            payload(&context, PayloadError::OverBudget { limit_bytes: config.max_message_size }),
        );
    }
    match envelope {
        None => DecodedFrame::ProviderError(payload(&context, PayloadError::MalformedProtocol)),
        Some(envelope) => decode_envelope(envelope, instrument, timeframe, context),
    }
}

/// Reads a message of the stream. `envelope` is what its payload was read as, where it could be.
pub fn decode_ws_frame(
    message: &WsMessage,
    envelope: Option<WsEnvelope>,
    instrument: &Instrument,
    timeframe: Timeframe,
    config: &WsConfig,
) -> (frame: DecodedFrame<BinanceDecoded>)
    ensures
        frame == message_frame(*message, envelope, *instrument, timeframe, *config),
{
    match config.validate() {
        Err(error) => {
            return DecodedFrame::ProviderError(error);
        },
        Ok(_) => {},
    }
    match message {
        WsMessage::Text(bytes) => decode_ws_payload(
            bytes.len(),
            envelope,
            instrument,
            timeframe,
            config,
        ),
        WsMessage::Binary(bytes) => decode_ws_payload(
            bytes.len(),
            envelope,
            instrument,
            timeframe,
            config,
        ),
        WsMessage::Close(code) => DecodedFrame::Close(*code),
        _ => DecodedFrame::Ignored,
    }
}

/// Reads the messages of the stream, each by itself.
#[derive(Clone, Copy, Debug, Default)]
pub struct BinanceWsCodec;

impl BinanceWsCodec {
    pub fn decode(
        &mut self,
        message: &WsMessage,
        envelope: Option<WsEnvelope>,
        instrument: &Instrument,
        timeframe: Timeframe,
        config: &WsConfig,
        output: &mut std::collections::VecDeque<DecodedFrame<BinanceDecoded>>,
    )
        ensures
            final(output)@ == old(output)@.push(
                message_frame(*message, envelope, *instrument, timeframe, *config),
            ),
    {
        output.push_back(decode_ws_frame(message, envelope, instrument, timeframe, config));
    }
}

/// What a frame means to a live feed.
pub open spec fn feed_event(frame: DecodedFrame<BinanceDecoded>) -> LiveSocketEvent {
    match frame {
        DecodedFrame::Provider(BinanceDecoded::Candle(candle)) => LiveSocketEvent::Candle(candle),
        DecodedFrame::Ignored => LiveSocketEvent::Ignored,
        DecodedFrame::ProviderError(error) => LiveSocketEvent::DecodedError(error),
        DecodedFrame::ReconnectRequested => LiveSocketEvent::ReconnectRequested,
        DecodedFrame::Close(_) => LiveSocketEvent::ReconnectRequested,
    }
}

pub fn live_event(frame: DecodedFrame<BinanceDecoded>) -> (event: LiveSocketEvent)
    ensures
        event == feed_event(frame),
{
    match frame {
        DecodedFrame::Provider(BinanceDecoded::Candle(candle)) => LiveSocketEvent::Candle(candle),
        DecodedFrame::Ignored => LiveSocketEvent::Ignored,
        DecodedFrame::ProviderError(error) => LiveSocketEvent::DecodedError(error),
        DecodedFrame::ReconnectRequested => LiveSocketEvent::ReconnectRequested,
        DecodedFrame::Close(_) => LiveSocketEvent::ReconnectRequested,
    }
}

/// What a frame, or the failure to read one, amounts to.
pub fn classify_live_input_for_test(
    input: Result<DecodedFrame<BinanceDecoded>, ProviderError>,
    instrument: &Instrument,
    timeframe: Timeframe,
) -> (classified: LiveInputClassification)
    ensures
        classified == (match crate::provider::runtime::live::input_error(
            match input {
                Ok(frame) => Ok(feed_event(frame)),
                Err(error) => Err(error),
            },
            *instrument,
            timeframe,
        ) {
            None => LiveInputClassification::Continue,
            Some(error) => LiveInputClassification::Error {
                error,
                policy: crate::provider::runtime::live::classification(error),
            },
        }),
{
    let error = match input {
        Ok(DecodedFrame::Ignored) => {
            return LiveInputClassification::Continue;
        },
        Ok(DecodedFrame::Provider(BinanceDecoded::Candle(_))) => {
            return LiveInputClassification::Continue;
        },
        Ok(DecodedFrame::Close(_)) => ProviderError::Protocol {
            context: ErrorContext::market(ErrorOperation::WebSocket, instrument, timeframe),
            detail: "WebSocket peer requested reconnect",
        },
        Ok(DecodedFrame::ReconnectRequested) => ProviderError::Protocol {
            context: ErrorContext::market(ErrorOperation::WebSocket, instrument, timeframe),
            detail: "WebSocket peer requested reconnect",
        },
        Ok(DecodedFrame::ProviderError(error)) => error,
        Err(error) => error,
    };
    let policy = classify_live_error_for_test(&error);
    LiveInputClassification::Error { error, policy }
}

/// The path of a market's kline stream.
pub open spec fn stream_path_text(instrument: Instrument, timeframe: Timeframe) -> Seq<char> {
    "/ws/"@ + crate::text::lowered(instrument.provider_symbol@) + "@kline_"@
        + timeframe.spelling()@
}

pub fn stream_path(instrument: &Instrument, timeframe: Timeframe) -> (path: String)
    ensures
        path@ == stream_path_text(*instrument, timeframe),
{
    let mut path = "/ws/".to_owned();
    let symbol = to_lower(instrument.provider_symbol());
    path.append(symbol.as_str());
    path.append("@kline_");
    path.append(timeframe.as_str());
    path
}

/// The URL of a market's kline stream on a server.
pub fn websocket_url_from_base(
    base_url: &str,
    instrument: &Instrument,
    timeframe: Timeframe,
    loopback_only: bool,
    address: HostAddress,
) -> (url: Result<String, ProviderError>)
    ensures
        match crate::provider::runtime::endpoint::websocket_base_fault(
            crate::provider::runtime::endpoint::url_parts(base_url@),
            loopback_only,
            address,
        ) {
            Some(detail) => url == Err::<String, ProviderError>(
                ProviderError::Configuration(detail),
            ),
            None => url matches Ok(text) && crate::provider::runtime::endpoint::url_with_path(
                base_url@,
                stream_path_text(*instrument, timeframe),
            ) == Some(text@),
        },
{
    match validate_websocket_base(base_url, loopback_only, address) {
        Err(error) => {
            return Err(error);
        },
        Ok(_) => {},
    }
    let path = stream_path(instrument, timeframe);
    match url_at_path(base_url, path.as_str()) {
        Some(href) => Ok(href),
        None => Err(ProviderError::Configuration("invalid WebSocket base URL")),
    }
}

/// The URL of a market's kline stream on the provider's server; a fault is told with the market.
pub fn websocket_url(instrument: &Instrument, timeframe: Timeframe) -> (url: Result<
    String,
    ProviderError,
>)
    ensures
        match crate::provider::runtime::endpoint::websocket_base_fault(
            crate::provider::runtime::endpoint::url_parts(stream_server(instrument.market)@),
            false,
            HostAddress::NotLiteral,
        ) {
            Some(detail) => url == Err::<String, ProviderError>(
                ProviderError::WebSocketConfiguration {
                    context: ErrorContext::of_market(
                        ErrorOperation::WebSocket,
                        *instrument,
                        timeframe,
                    ),
                    detail,
                },
            ),
            None => url matches Ok(text) && crate::provider::runtime::endpoint::url_with_path(
                stream_server(instrument.market)@,
                stream_path_text(*instrument, timeframe),
            ) == Some(text@),
        },
{
    let base = production_ws_base(instrument.market());
    match websocket_url_from_base(base, instrument, timeframe, false, HostAddress::NotLiteral) {
        Ok(url) => Ok(url),
        Err(error) => Err(contextualize_websocket_configuration(error, instrument, timeframe)),
    }
}

/// The URL of a market's kline stream on a test server; a fault is told with the market.
pub fn test_websocket_url(
    base_url: &str,
    instrument: &Instrument,
    timeframe: Timeframe,
    address: HostAddress,
) -> (url: Result<String, ProviderError>)
    ensures
        match crate::provider::runtime::endpoint::websocket_base_fault(
            crate::provider::runtime::endpoint::url_parts(base_url@),
            true,
            address,
        ) {
            Some(detail) => url == Err::<String, ProviderError>(
                ProviderError::WebSocketConfiguration {
                    context: ErrorContext::of_market(
                        ErrorOperation::WebSocket,
                        *instrument,
                        timeframe,
                    ),
                    detail,
                },
            ),
            None => url matches Ok(text) && crate::provider::runtime::endpoint::url_with_path(
                base_url@,
                stream_path_text(*instrument, timeframe),
            ) == Some(text@),
        },
{
    match websocket_url_from_base(base_url, instrument, timeframe, true, address) {
        Ok(url) => Ok(url),
        Err(error) => Err(contextualize_websocket_configuration(error, instrument, timeframe)),
    }
}

/// Whether a query asks for the rows of a request: the market, the period and the limit, and the
/// bounds that the request has.
pub open spec fn asks_for(
    query: Seq<QueryField>,
    instrument: Instrument,
    timeframe: Timeframe,
    request: HistoryRequest,
) -> bool {
    let starts: int = if request.start_time is Some {
        1
    } else {
        0
    };
    let ends: int = if request.end_time is Some {
        1
    } else {
        0
    };
    &&& query.len() == 3 + starts + ends
    &&& crate::provider::runtime::http::field_is(query[0], "symbol", instrument.provider_symbol@)
    &&& crate::provider::runtime::http::field_is(query[1], "interval", timeframe.spelling()@)
    &&& crate::provider::runtime::http::field_is(query[2], "limit", crate::text::numeral(request.limit as int))
    &&& request.start_time matches Some(time) ==> crate::provider::runtime::http::field_is(
        query[3],
        "startTime",
        crate::text::signed_numeral(time as int),
    )
    &&& request.end_time matches Some(time) ==> crate::provider::runtime::http::field_is(
        query[3 + starts],
        "endTime",
        crate::text::signed_numeral(time as int),
    )
}

pub fn history_query(instrument: &Instrument, timeframe: Timeframe, request: HistoryRequest) -> (
query: Vec<QueryField>)
    ensures
        asks_for(query@, *instrument, timeframe, request),
{
    let mut query: Vec<QueryField> = Vec::new();
    query.push(QueryField { name: "symbol", value: instrument.provider_symbol().to_owned() });
    query.push(QueryField { name: "interval", value: timeframe.as_str().to_owned() });
    query.push(QueryField { name: "limit", value: u64_text(request.limit as u64) });
    if let Some(start_time) = request.start_time {
        query.push(QueryField { name: "startTime", value: i64_text(start_time) });
    }
    if let Some(end_time) = request.end_time {
        query.push(QueryField { name: "endTime", value: i64_text(end_time) });
    }
    query
}

/// Whether a status says that there were too many requests.
pub fn is_rate_limited(status: u16) -> (limited: bool)
    ensures
        limited == (status == 429 || status == 418),
{
    status == TOO_MANY_REQUESTS || status == IM_A_TEAPOT
}

/// What too many requests lead to. A ban must say how long it lasts, or the process makes no further
/// request; a mere warning that does not is waited out as usual.
pub open spec fn limit_decision(
    status: u16,
    header: Option<Seq<char>>,
    fallback: Duration,
    now: MonoInstant,
) -> RateLimitDecision {
    match crate::provider::runtime::http::named_deadline(header, now) {
        Some(deadline) => RateLimitDecision::TimedUntil(deadline),
        None => if status == TOO_MANY_REQUESTS {
            match crate::clock::deadline_after(now, crate::clock::duration_nanos(fallback)) {
                Some(deadline) => RateLimitDecision::TimedUntil(deadline),
                None => RateLimitDecision::ProcessBlocked(ProcessBlocker::InvalidBanExpiry),
            }
        } else {
            RateLimitDecision::ProcessBlocked(ProcessBlocker::InvalidBanExpiry)
        },
    }
}

pub fn handle_rate_limit(
    status: u16,
    header: Option<&str>,
    fallback: Duration,
    now: MonoInstant,
) -> (decision: RateLimitDecision)
    ensures
        decision == limit_decision(
            status,
            crate::provider::runtime::http::header_view(header),
            fallback,
            now,
        ),
{
    if let Some(deadline) = retry_after_deadline(header, now) {
        return RateLimitDecision::TimedUntil(deadline);
    }
    if status == TOO_MANY_REQUESTS {
        if let Ok(deadline) = checked_deadline(now, fallback) {
            return RateLimitDecision::TimedUntil(deadline);
        }
    }
    RateLimitDecision::ProcessBlocked(ProcessBlocker::InvalidBanExpiry)
}

/// A field of a kline row. `number` is its text's value, where that is a finite number.
#[derive(Debug, PartialEq)]
pub struct KlineField {
    pub integer: Option<i64>,
    pub text: Option<String>,
    pub number: Option<Decimal>,
}

/// A row of history: its fields, where it is a row at all.
#[derive(Debug, PartialEq)]
pub struct KlineRow {
    pub fields: Option<Vec<KlineField>>,
}

/// Whether a field is what a JSON value is, before its number is read.
pub open spec fn field_of(field: KlineField, value: crate::json::JsonView) -> bool {
    field.integer == value.integer() && crate::provider::runtime::endpoint::text_view(field.text)
        == value.text() && field.number is None
}

/// Whether a row is what a JSON value is, before its numbers are read.
pub open spec fn row_of(row: KlineRow, value: crate::json::JsonView) -> bool {
    match value {
        crate::json::JsonView::Array(items) => row.fields matches Some(fields) && fields@.len()
            == items.len() && forall|i: int|
            0 <= i < items.len() ==> field_of(#[trigger] fields@[i], items[i]),
        _ => row.fields is None,
    }
}

pub open spec fn row_limit(requested: u16) -> u16 {
    if requested < MAX_KLINE_ROWS {
        requested
    } else {
        MAX_KLINE_ROWS
    }
}

/// Whether rows, or an error, are what a body of history is.
pub open spec fn rows_of(
    bytes: Seq<u8>,
    requested_limit: u16,
    context: ErrorContext,
    rows: Result<Vec<KlineRow>, ProviderError>,
) -> bool {
    let malformed = crate::provider::runtime::http::payload_error(
        context,
        PayloadError::MalformedJson,
    );
    let document = crate::json::json_document(bytes);
    if !crate::json::starts_with_bracket(bytes) {
        rows == Err::<Vec<KlineRow>, ProviderError>(
            if document is Some {
                crate::provider::runtime::http::payload_error(context, PayloadError::ExpectedArray)
            } else {
                malformed
            },
        )
    } else {
        match document {
            Some(crate::json::JsonView::Array(items)) => if items.len() > row_limit(
                requested_limit,
            ) {
                rows == Err::<Vec<KlineRow>, ProviderError>(malformed)
            } else {
                rows matches Ok(read) && read@.len() == items.len() && forall|i: int|
                    0 <= i < items.len() ==> row_of(#[trigger] read@[i], items[i])
            },
            _ => rows == Err::<Vec<KlineRow>, ProviderError>(malformed),
        }
    }
}

fn read_field(value: &serde_json::Value) -> (field: KlineField)
    ensures
        field_of(field, crate::json::json_of(*value)),
{
    let text = match json_text(value) {
        Some(text) => Some(text.to_owned()),
        None => None,
    };
    KlineField { integer: json_integer(value), text, number: None }
}

fn read_row(value: &serde_json::Value) -> (row: KlineRow)
    ensures
        row_of(row, crate::json::json_of(*value)),
{
    match json_items(value) {
        None => KlineRow { fields: None },
        Some(items) => {
            let mut fields: Vec<KlineField> = Vec::new();
            let mut index: usize = 0;
            while index < items.len()
                invariant
                    index <= items@.len(),
                    fields@.len() == index,
                    forall|i: int|
                        0 <= i < index ==> field_of(
                            #[trigger] fields@[i],
                            crate::json::json_of(items@[i]),
                        ),
                decreases items@.len() - index,
            {
                fields.push(read_field(&items[index]));
                index += 1;
            }
            KlineRow { fields: Some(fields) }
        },
    }
}

/// Reads a body of history into rows.
pub fn read_klines(bytes: &[u8], requested_limit: u16, context: &ErrorContext) -> (rows: Result<
    Vec<KlineRow>,
    ProviderError,
>)
    ensures
        rows_of(bytes@, requested_limit, *context, rows),
{
    let document = parse_json(bytes);
    if !looks_like_array(bytes) {
        return match document {
            Some(_) => Err(payload(context, PayloadError::ExpectedArray)),
            None => Err(payload(context, PayloadError::MalformedJson)),
        };
    }
    let value = match document {
        Some(value) => value,
        None => {
            return Err(payload(context, PayloadError::MalformedJson));
        },
    };
    let items = match json_items(&value) {
        Some(items) => items,
        None => {
            return Err(payload(context, PayloadError::MalformedJson));
        },
    };
    let limit: u16 = if requested_limit < MAX_KLINE_ROWS {
        requested_limit
    } else {
        MAX_KLINE_ROWS
    };
    if items.len() > limit as usize {
        return Err(payload(context, PayloadError::MalformedJson));
    }
    let mut rows: Vec<KlineRow> = Vec::new();
    let mut index: usize = 0;
    while index < items.len()
        invariant
            index <= items@.len(),
            rows@.len() == index,
            forall|i: int|
                0 <= i < index ==> row_of(#[trigger] rows@[i], crate::json::json_of(items@[i])),
        decreases items@.len() - index,
    {
        rows.push(read_row(&items[index]));
        index += 1;
    }
    proof {
        let views = crate::json::json_of(value)->Array_0;
        assert forall|i: int| 0 <= i < views.len() implies row_of(#[trigger] rows@[i], views[i]) by {
            assert(crate::json::json_of(items@[i]) == views[i]);
        }
    }
    Ok(rows)
}

/// The first field of a row that is not what it should be, in the order in which they are looked at.
pub open spec fn row_fault(fields: Seq<KlineField>) -> Option<&'static str> {
    if fields[0].integer is None {
        Some("open_time")
    } else if fields[1].number is None {
        Some("open")
    } else if fields[2].number is None {
        Some("high")
    } else if fields[3].number is None {
        Some("low")
    } else if fields[4].number is None {
        Some("close")
    } else if fields[5].number is None {
        Some("base_volume")
    } else if fields[6].integer is None {
        Some("close_time")
    } else if !nonnegative_number(fields[7]) {
        Some("quote_volume")
    } else if !(fields[8].integer matches Some(count) && count >= 0) {
        Some("trade_count")
    } else if !nonnegative_number(fields[9]) {
        Some("taker_buy_base_volume")
    } else if !nonnegative_number(fields[10]) {
        Some("taker_buy_quote_volume")
    } else if fields[11].text is None {
        Some("ignore")
    } else {
        None
    }
}

pub open spec fn nonnegative_number(field: KlineField) -> bool {
    field.number matches Some(number) && number.place() >= 0
}

pub open spec fn row_values(fields: Seq<KlineField>) -> CandleValues {
    CandleValues {
        open_time: fields[0].integer->0,
        close_time: fields[6].integer->0,
        open: fields[1].number->0,
        high: fields[2].number->0,
        low: fields[3].number->0,
        close: fields[4].number->0,
        base_volume: fields[5].number->0,
    }
}

/// The candle that a row is.
pub open spec fn row_candle(row: KlineRow, context: ErrorContext) -> Result<Candle, ProviderError> {
    match row.fields {
        None => Err(
            crate::provider::runtime::http::payload_error(
                context,
                PayloadError::WrongArity { expected: 12, actual: 0 },
            ),
        ),
        Some(fields) => if fields@.len() != 12 {
            Err(
                crate::provider::runtime::http::payload_error(
                    context,
                    PayloadError::WrongArity { expected: 12, actual: fields@.len() as usize },
                ),
            )
        } else {
            match row_fault(fields@) {
                Some(field) => Err(
                    crate::provider::runtime::http::payload_error(
                        context,
                        PayloadError::InvalidField { field },
                    ),
                ),
                None => match Candle::recorded(row_values(fields@)) {
                    Ok(candle) => Ok(candle),
                    Err(source) => Err(ProviderError::Domain { context, source }),
                },
            }
        },
    }
}

fn is_nonnegative_number(field: &KlineField) -> (nonnegative: bool)
    ensures
        nonnegative == nonnegative_number(*field),
{
    match field.number {
        Some(number) => number.is_nonnegative(),
        None => false,
    }
}

fn validate_ignored_fields(fields: &Vec<KlineField>) -> (fault: Option<&'static str>)
    requires
        fields@.len() == 12,
    ensures
        fault == (if !nonnegative_number(fields@[7]) {
            Some("quote_volume")
        } else if !(fields@[8].integer matches Some(count) && count >= 0) {
            Some("trade_count")
        } else if !nonnegative_number(fields@[9]) {
            Some("taker_buy_base_volume")
        } else if !nonnegative_number(fields@[10]) {
            Some("taker_buy_quote_volume")
        } else if fields@[11].text is None {
            Some("ignore")
        } else {
            None
        }),
{
    if !is_nonnegative_number(&fields[7]) {
        return Some("quote_volume");
    }
    let counted = match fields[8].integer {
        Some(count) => count >= 0,
        None => false,
    };
    if !counted {
        return Some("trade_count");
    }
    if !is_nonnegative_number(&fields[9]) {
        return Some("taker_buy_base_volume");
    }
    if !is_nonnegative_number(&fields[10]) {
        return Some("taker_buy_quote_volume");
    }
    if fields[11].text.is_none() {
        return Some("ignore");
    }
    None
}

fn invalid_field(context: &ErrorContext, field: &'static str) -> (error: ProviderError)
    ensures
        error == crate::provider::runtime::http::payload_error(
            *context,
            PayloadError::InvalidField { field },
        ),
{
    payload(context, PayloadError::InvalidField { field })
}

/// Reads one row of history.
pub fn decode_kline_row(row: &KlineRow, context: &ErrorContext) -> (candle: Result<
    Candle,
    ProviderError,
>)
    ensures
        candle == row_candle(*row, *context),
{
    let fields = match &row.fields {
        Some(fields) => fields,
        None => {
            return Err(payload(context, PayloadError::WrongArity { expected: 12, actual: 0 }));
        },
    };
    if fields.len() != 12 {
        return Err(
            payload(context, PayloadError::WrongArity { expected: 12, actual: fields.len() }),
        );
    }
    let open_time: i64 = match fields[0].integer {
        Some(time) => time,
        None => {
            return Err(invalid_field(context, "open_time"));
        },
    };
    let open = match fields[1].number {
        Some(number) => number,
        None => {
            return Err(invalid_field(context, "open"));
        },
    };
    let high = match fields[2].number {
        Some(number) => number,
        None => {
            return Err(invalid_field(context, "high"));
        },
    };
    let low = match fields[3].number {
        Some(number) => number,
        None => {
            return Err(invalid_field(context, "low"));
        },
    };
    let close = match fields[4].number {
        Some(number) => number,
        None => {
            return Err(invalid_field(context, "close"));
        },
    };
    let base_volume = match fields[5].number {
        Some(number) => number,
        None => {
            return Err(invalid_field(context, "base_volume"));
        },
    };
    let close_time: i64 = match fields[6].integer {
        Some(time) => time,
        None => {
            return Err(invalid_field(context, "close_time"));
        },
    };
    if let Some(field) = validate_ignored_fields(fields) {
        return Err(invalid_field(context, field));
    }
    let values = CandleValues { open_time, close_time, open, high, low, close, base_volume };
    match Candle::from_rest(values) {
        Ok(candle) => Ok(candle),
        Err(source) => Err(ProviderError::Domain { context: context.clone(), source }),
    }
}

/// Reads the rows of history whose numbers have been read: all of them, or the error of the first
/// that is no candle.
pub fn decode_klines(rows: &Vec<KlineRow>, context: &ErrorContext) -> (candles: Result<
    Vec<Candle>,
    ProviderError,
>)
    ensures
        match candles {
            Ok(read) => read@.len() == rows@.len() && forall|i: int|
                0 <= i < rows@.len() ==> row_candle(#[trigger] rows@[i], *context) == Ok::<
                    Candle,
                    ProviderError,
                >(read@[i]),
            Err(error) => exists|i: int|
                0 <= i < rows@.len() && row_candle(#[trigger] rows@[i], *context) == Err::<
                    Candle,
                    ProviderError,
                >(error) && forall|j: int|
                    0 <= j < i ==> row_candle(#[trigger] rows@[j], *context) is Ok,
        },
{
    let mut candles: Vec<Candle> = Vec::new();
    let mut index: usize = 0;
    while index < rows.len()
        invariant
            index <= rows@.len(),
            candles@.len() == index,
            forall|i: int|
                0 <= i < index ==> row_candle(#[trigger] rows@[i], *context) == Ok::<
                    Candle,
                    ProviderError,
                >(candles@[i]),
        decreases rows@.len() - index,
    {
        match decode_kline_row(&rows[index], context) {
            Ok(candle) => candles.push(candle),
            Err(error) => {
                assert(row_candle(rows@[index as int], *context) == Err::<Candle, ProviderError>(
                    error,
                ));
                return Err(error);
            },
        }
        index += 1;
    }
    Ok(candles)
}

/// What a refusal says.
pub open spec fn refusal_is(
    status: u16,
    code: Option<i64>,
    words: Option<Seq<char>>,
    context: ErrorContext,
    error: ProviderError,
) -> bool {
    if status == BAD_REQUEST && code == Some(INVALID_SYMBOL_CODE) {
        error matches ProviderError::InvalidSymbol { context: told, code: named, message } && told
            == context && named == INVALID_SYMBOL_CODE && message.words() == words
    } else if 400 <= status < 500 {
        error matches ProviderError::ClientStatus {
            context: told,
            status: given,
            code: named,
            message,
        } && told == context && given == status && named == code && (match message {
            Some(message) => words is Some && message.words() == words,
            None => words is None,
        })
    } else {
        error == (ProviderError::ServerStatus { context, status })
    }
}

/// What a refusal is, by its status and by the code and words that it came with.
pub fn refusal_error(
    status: u16,
    code: Option<i64>,
    words: Option<&str>,
    context: ErrorContext,
) -> (error: ProviderError)
    ensures
        refusal_is(
            status,
            code,
            crate::provider::runtime::http::header_view(words),
            context,
            error,
        ),
{
    let message = match words {
        Some(text) => Some(SanitizedMessage::new(text)),
        None => None,
    };
    let invalid_symbol = match code {
        Some(number) => status == BAD_REQUEST && number == INVALID_SYMBOL_CODE,
        None => false,
    };
    if invalid_symbol {
        return ProviderError::InvalidSymbol {
            context,
            code: INVALID_SYMBOL_CODE,
            message: match message {
                Some(message) => message,
                None => SanitizedMessage::InvalidSymbol,
            },
        };
    }
    if 400 <= status && status < 500 {
        ProviderError::ClientStatus { context, status, code, message }
    } else {
        ProviderError::ServerStatus { context, status }
    }
}

/// What a refusal is, by its status and body.
pub fn map_http_error(status: u16, bytes: &[u8], context: ErrorContext) -> (error: ProviderError)
    ensures
        refusal_is(
            status,
            match crate::json::json_document(bytes@) {
                Some(value) => value.member_integer("code"@),
                None => None,
            },
            match crate::json::json_document(bytes@) {
                Some(value) => value.member_text("msg"@),
                None => None,
            },
            context,
            error,
        ),
{
    match parse_json(bytes) {
        None => refusal_error(status, None, None, context),
        Some(value) => {
            let code = member_integer(&value, "code");
            let words = member_text(&value, "msg");
            refusal_error(status, code, words, context)
        },
    }
}

/// Whether a specification is one of this provider's.
pub open spec fn accepts(spec: InstrumentSpec) -> bool {
    spec.provider@ == "binance"@ && spec.venue is None
}

/// The instrument that a specification names; `local` is its canonical form, where it has one.
pub fn canonicalize(spec: &InstrumentSpec, local: Option<Instrument>) -> (instrument: Result<
    Instrument,
    ProviderError,
>)
    ensures
        instrument == (match local {
            Some(found) => if accepts(*spec) {
                Ok::<Instrument, ProviderError>(found)
            } else {
                Err(ProviderError::Configuration("instrument is not valid for Binance"))
            },
            None => Err(ProviderError::Configuration("instrument is not valid for Binance")),
        }),
{
    if !same_text(spec.provider.as_str(), "binance") || spec.venue.is_some() {
        return Err(ProviderError::Configuration("instrument is not valid for Binance"));
    }
    match local {
        Some(instrument) => Ok(instrument),
        None => Err(ProviderError::Configuration("instrument is not valid for Binance")),
    }
}

/// A ban that does not say when it ends blocks the process; nothing else does, as long as the clock
/// reaches the usual wait.
pub proof fn law_only_endless_bans_block(
    status: u16,
    header: Option<Seq<char>>,
    fallback: Duration,
    now: MonoInstant,
)
    requires
        crate::clock::deadline_after(now, crate::clock::duration_nanos(fallback)) is Some,
    ensures
        limit_decision(status, header, fallback, now) is ProcessBlocked <==> status
            != TOO_MANY_REQUESTS && crate::provider::runtime::http::named_deadline(
            header,
            now,
        ) is None,
{
}

/// Every candle that history gives is valid and comes with history's authority.
pub proof fn law_history_candles_are_valid(row: KlineRow, context: ErrorContext, candle: Candle)
    requires
        row_candle(row, context) == Ok::<Candle, ProviderError>(candle),
    ensures
        candle.valid(),
        candle.authority == crate::candle::FinalityAuthority::RestProvisionalOpen,
{
}

} // verus!
