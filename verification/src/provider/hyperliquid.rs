//! Hyperliquid Spot and Perpetual: history rows and candle frames.
use std::collections::VecDeque;
use std::time::Duration;

use vstd::prelude::*;

use crate::calendar::{fixed_timeframe_milliseconds, Grid};
use crate::candle::{Candle, CandleValues, Decimal};
use crate::clock::is_within_millis;
use crate::error::{
    ErrorContext, ErrorOperation, PayloadError, ProviderError, SanitizedMessage, TimeoutKind,
};
use crate::json::{json_get, looks_like_array, member_text, parse_json, quote_json};
use crate::model::{
    is_spot_index_token, HistoryRequest, HistoryRequestKind, Instrument, InstrumentSpec, Market,
    MonoInstant, ProviderCapabilities, Timeframe,
};
use crate::provider::runtime::config::{
    ConnectionRotation, LiveSupervisorConfig, ProcessBlockPolicy, ReconciliationLimits,
    ReconciliationPolicy, WsConfig,
};
use crate::provider::runtime::endpoint::{validate_websocket_base, HostAddress, UrlParts};
use crate::provider::runtime::frame::{DecodedFrame, ReadinessInput, WsMessage, WsOutcome};
use crate::provider::runtime::http::{
    payload, RATE_LIMIT_FALLBACK_MILLIS, REST_BODY_LIMIT, REST_REQUEST_TIMEOUT_MILLIS,
};
use crate::provider::runtime::live::{LiveMarket, LiveSocketEvent};
use crate::provider::runtime::ready::ReadyStep;
use crate::provider::runtime::websocket::contextualize_websocket_configuration;
use crate::saturate::{difference, product, sum};
use crate::text::{i64_text, matches_text, same_text};

verus! {

pub const INFO_PATH: &'static str = "/info";

pub const PRODUCTION_REST_BASE: &'static str = "https://api.hyperliquid.xyz";

pub const PRODUCTION_WS_BASE: &'static str = "wss://api.hyperliquid.xyz/ws";

pub const HYPERLIQUID_MAX_RESPONSE_ROWS: usize = 1001;

pub const HISTORY_PAGE_LIMIT: u16 = 1000;

pub const SUBSCRIBE_ACK_TIMEOUT_MILLIS: u64 = 10_000;

pub const APPLICATION_HEARTBEAT_INTERVAL_MILLIS: u64 = 50_000;

pub const MAX_FUTURE_CANDLE_SKEW_MILLIS: i64 = 300_000;

pub const MAX_GAP_RECONCILIATION_CANDLES: usize = 64_000;

pub const MAX_GAP_RECONCILIATION_PAGES: usize = 64;

/// What keeps the connection alive.
pub const HEARTBEAT_MESSAGE: &'static str = "{\"method\":\"ping\"}";

pub const UNSUPPORTED_TIMEFRAME: &'static str = "Hyperliquid does not support the 1s or 6h timeframes; use 1m, 3m, 5m, 15m, 30m, 1h, 2h, 4h, 8h, 12h, 1d, 3d, 1w, or 1M";

pub open spec fn supported(timeframe: Timeframe) -> bool {
    timeframe != Timeframe::Second1 && timeframe != Timeframe::Hour6
}

pub fn reject_unsupported_timeframe(timeframe: Timeframe) -> (supported: Result<(), ProviderError>)
    ensures
        supported == (if self::supported(timeframe) {
            Ok::<(), ProviderError>(())
        } else {
            Err(ProviderError::Configuration(UNSUPPORTED_TIMEFRAME))
        }),
{
    if timeframe == Timeframe::Second1 || timeframe == Timeframe::Hour6 {
        return Err(ProviderError::Configuration(UNSUPPORTED_TIMEFRAME));
    }
    Ok(())
}

/// How long a period is at most.
pub open spec fn longest_period(timeframe: Timeframe) -> int {
    match crate::calendar::fixed_period(timeframe) {
        Some(period) => period,
        None => 31 * crate::calendar::DAY_MILLIS,
    }
}

pub fn interval_ms(timeframe: Timeframe) -> (millis: Result<i64, ProviderError>)
    ensures
        millis == (if supported(timeframe) {
            Ok::<i64, ProviderError>(longest_period(timeframe) as i64)
        } else {
            Err(ProviderError::Configuration(UNSUPPORTED_TIMEFRAME))
        }),
        millis matches Ok(period) ==> period == longest_period(timeframe) && 60_000 <= period
            <= 2_678_400_000,
{
    match reject_unsupported_timeframe(timeframe) {
        Ok(()) => {},
        Err(error) => {
            return Err(error);
        },
    }
    match fixed_timeframe_milliseconds(timeframe) {
        Some(period) => Ok(period),
        None => Ok(31 * crate::calendar::DAY_MILLIS),
    }
}

/// The grid on which periods open.
pub open spec fn period_grid(timeframe: Timeframe) -> Grid {
    match crate::calendar::fixed_period(timeframe) {
        Some(period) => Grid::Fixed { period: period as i64, origin: 0 },
        None => Grid::Months,
    }
}

/// When the period after the one that opens at a time opens.
pub fn timeframe_successor_open(timeframe: Timeframe, open_time: i64) -> (next: Option<i64>)
    ensures
        next matches Some(time) ==> period_grid(timeframe).follows(open_time as int, time as int),
        next is None ==> forall|time: i64|
            !period_grid(timeframe).follows(open_time as int, time as int),
{
    let grid = match fixed_timeframe_milliseconds(timeframe) {
        Some(period) => Grid::Fixed { period, origin: 0 },
        None => Grid::Months,
    };
    grid.successor(open_time)
}

/// Whether a period that opens at one time closes just before the next one opens.
pub open spec fn spans_period(timeframe: Timeframe, open_time: i64, close_time: i64) -> bool {
    exists|next: i64|
        #[trigger] period_grid(timeframe).follows(open_time as int, next as int) && close_time
            == next - 1
}

fn is_period(timeframe: Timeframe, open_time: i64, close_time: i64) -> (whole: bool)
    ensures
        whole == spans_period(timeframe, open_time, close_time),
{
    match timeframe_successor_open(timeframe, open_time) {
        None => false,
        Some(next) => {
            proof {
                assert forall|other: i64|
                    #[trigger] period_grid(timeframe).follows(
                        open_time as int,
                        other as int,
                    ) implies other == next by {
                    crate::calendar::law_successor_is_later_and_single(
                        period_grid(timeframe),
                        open_time as int,
                        next as int,
                        other as int,
                    );
                }
            }
            match next.checked_sub(1) {
                Some(last) => last == close_time,
                None => {
                    proof {
                        crate::calendar::law_successor_is_later_and_single(
                            period_grid(timeframe),
                            open_time as int,
                            next as int,
                            next as int,
                        );
                    }
                    false
                },
            }
        },
    }
}

/// The terms of a live feed.
#[derive(Clone, Copy, Debug, PartialEq, Eq)]
pub struct HyperliquidLiveConfig {
    pub supervisor: LiveSupervisorConfig,
    pub subscribe_ack_timeout: Duration,
    pub application_heartbeat_interval_for_test: Duration,
    pub max_gap_reconciliation_candles_for_test: usize,
    pub advertised_history_page_limit: u16,
}

impl HyperliquidLiveConfig {
    /// Whether these are the usual terms.
    pub open spec fn usual(self) -> bool {
        &&& self.supervisor.usual()
        &&& crate::clock::duration_nanos(self.supervisor.ws_config.message_inactivity_timeout)
            == 60_000_000_000
        &&& crate::clock::duration_nanos(self.subscribe_ack_timeout) == 10_000_000_000
        &&& crate::clock::duration_nanos(self.application_heartbeat_interval_for_test)
            == 50_000_000_000
        &&& self.max_gap_reconciliation_candles_for_test == MAX_GAP_RECONCILIATION_CANDLES
        &&& self.advertised_history_page_limit == HISTORY_PAGE_LIMIT
    }

    /// The first rule that a configuration breaks, if it breaks one.
    pub open spec fn fault(self) -> Option<&'static str> {
        if self.supervisor.fault() is Some {
            self.supervisor.fault()
        } else if !crate::clock::within_millis(self.subscribe_ack_timeout, 1, 60_000) {
            Some("subscribe acknowledgement timeout is outside 1ms..=60s")
        } else if !crate::clock::within_millis(
            self.application_heartbeat_interval_for_test,
            1,
            60_000,
        ) {
            Some("application heartbeat interval is outside 1ms..=60s")
        } else if !(1 <= self.max_gap_reconciliation_candles_for_test
            <= MAX_GAP_RECONCILIATION_CANDLES) {
            Some("live reconciliation candle bound is outside 1..=64000")
        } else {
            None
        }
    }

    pub fn validate(&self) -> (validated: Result<(), ProviderError>)
        ensures
            validated == (match self.fault() {
                None => Ok::<(), ProviderError>(()),
                Some(detail) => Err(ProviderError::Configuration(detail)),
            }),
    {
        match self.supervisor.validate() {
            Ok(()) => {},
            Err(error) => {
                return Err(error);
            },
        }
        if !is_within_millis(self.subscribe_ack_timeout, 1, 60_000) {
            return Err(
                ProviderError::Configuration(
                    "subscribe acknowledgement timeout is outside 1ms..=60s",
                ),
            );
        }
        if !is_within_millis(self.application_heartbeat_interval_for_test, 1, 60_000) {
            return Err(
                ProviderError::Configuration("application heartbeat interval is outside 1ms..=60s"),
            );
        }
        if !(1 <= self.max_gap_reconciliation_candles_for_test
            && self.max_gap_reconciliation_candles_for_test <= MAX_GAP_RECONCILIATION_CANDLES) {
            return Err(
                ProviderError::Configuration(
                    "live reconciliation candle bound is outside 1..=64000",
                ),
            );
        }
        Ok(())
    }

    /// How far one generation may reconcile.
    pub fn reconciliation(&self) -> (policy: ReconciliationPolicy)
        ensures
            policy matches ReconciliationPolicy::Bounded(limits) && limits.max_successors
                == self.max_gap_reconciliation_candles_for_test && limits.max_pages
                == MAX_GAP_RECONCILIATION_PAGES && limits.span_exceeded
                == "Hyperliquid gap reconciliation target exceeds the per-generation span limit"
                && limits.page_exceeded
                == "Hyperliquid gap reconciliation exceeded the per-generation page limit"
                && limits.distinct_exceeded
                == "Hyperliquid gap reconciliation exceeded the distinct buffered-candle limit",
    {
        ReconciliationPolicy::Bounded(
            ReconciliationLimits {
                max_successors: self.max_gap_reconciliation_candles_for_test,
                max_pages: MAX_GAP_RECONCILIATION_PAGES,
                span_exceeded:
                    "Hyperliquid gap reconciliation target exceeds the per-generation span limit",
                page_exceeded:
                    "Hyperliquid gap reconciliation exceeded the per-generation page limit",
                distinct_exceeded:
                    "Hyperliquid gap reconciliation exceeded the distinct buffered-candle limit",
            },
        )
    }
}

impl Default for HyperliquidLiveConfig {
    fn default() -> (config: Self)
        ensures
            config.fault() is None,
            config.usual(),
    {
        HyperliquidLiveConfig {
            supervisor: LiveSupervisorConfig::default(),
            subscribe_ack_timeout: Duration::from_millis(SUBSCRIBE_ACK_TIMEOUT_MILLIS),
            application_heartbeat_interval_for_test: Duration::from_millis(
                APPLICATION_HEARTBEAT_INTERVAL_MILLIS,
            ),
            max_gap_reconciliation_candles_for_test: MAX_GAP_RECONCILIATION_CANDLES,
            advertised_history_page_limit: HISTORY_PAGE_LIMIT,
        }
    }
}

/// How a test reaches a server of its own.
#[derive(Debug, PartialEq, Eq)]
pub struct HyperliquidTestConfig {
    pub base_url: String,
    pub request_timeout: Duration,
    pub body_limit: usize,
    pub rate_limit_fallback: Duration,
    pub now_ms: Option<i64>,
}

impl HyperliquidTestConfig {
    pub fn loopback(base_url: String) -> (config: HyperliquidTestConfig)
        ensures
            config.base_url == base_url,
            crate::clock::duration_nanos(config.request_timeout) == 10_000_000_000,
            config.body_limit == REST_BODY_LIMIT,
            crate::clock::duration_nanos(config.rate_limit_fallback) == 30_000_000_000,
            config.now_ms is None,
    {
        HyperliquidTestConfig {
            base_url,
            request_timeout: Duration::from_millis(REST_REQUEST_TIMEOUT_MILLIS),
            body_limit: REST_BODY_LIMIT,
            rate_limit_fallback: Duration::from_millis(RATE_LIMIT_FALLBACK_MILLIS),
            now_ms: None,
        }
    }

    pub fn with_websocket_base(self, base_url: String) -> (config: HyperliquidLiveTestConfig)
        ensures
            config.rest == self,
            config.ws_base_url == base_url,
            config.live.fault() is None,
            config.live.usual(),
    {
        HyperliquidLiveTestConfig {
            rest: self,
            ws_base_url: base_url,
            live: HyperliquidLiveConfig::default(),
        }
    }
}

#[derive(Debug, PartialEq, Eq)]
pub struct HyperliquidLiveTestConfig {
    pub rest: HyperliquidTestConfig,
    pub ws_base_url: String,
    pub live: HyperliquidLiveConfig,
}

pub fn process_block() -> (policy: ProcessBlockPolicy)
    ensures
        policy == ProcessBlockPolicy::Forbidden("Hyperliquid rate gate cannot be process-blocked"),
{
    ProcessBlockPolicy::Forbidden("Hyperliquid rate gate cannot be process-blocked")
}

pub fn connection_rotation() -> (rotation: ConnectionRotation)
    ensures
        rotation == ConnectionRotation::Never,
{
    ConnectionRotation::Never
}

pub fn capabilities(history_page_limit: u16) -> (offered: ProviderCapabilities)
    ensures
        offered.history_page_limit == history_page_limit,
        offered.markets@ == seq![Market::Spot, Market::Perpetual],
        offered.timeframes@ == seq![
            Timeframe::Minute1,
            Timeframe::Minute3,
            Timeframe::Minute5,
            Timeframe::Minute15,
            Timeframe::Minute30,
            Timeframe::Hour1,
            Timeframe::Hour2,
            Timeframe::Hour4,
            Timeframe::Hour8,
            Timeframe::Hour12,
            Timeframe::Day1,
            Timeframe::Day3,
            Timeframe::Week1,
            Timeframe::Month1,
        ],
        forall|timeframe: Timeframe| #[trigger]
            offered.timeframes@.contains(timeframe) <==> supported(timeframe),
{
    let mut markets: Vec<Market> = Vec::new();
    markets.push(Market::Spot);
    markets.push(Market::Perpetual);
    assert(markets@ =~= seq![Market::Spot, Market::Perpetual]);
    let mut timeframes: Vec<Timeframe> = Vec::new();
    timeframes.push(Timeframe::Minute1);
    timeframes.push(Timeframe::Minute3);
    timeframes.push(Timeframe::Minute5);
    timeframes.push(Timeframe::Minute15);
    timeframes.push(Timeframe::Minute30);
    timeframes.push(Timeframe::Hour1);
    timeframes.push(Timeframe::Hour2);
    timeframes.push(Timeframe::Hour4);
    timeframes.push(Timeframe::Hour8);
    timeframes.push(Timeframe::Hour12);
    timeframes.push(Timeframe::Day1);
    timeframes.push(Timeframe::Day3);
    timeframes.push(Timeframe::Week1);
    timeframes.push(Timeframe::Month1);
    proof {
        let list = timeframes@;
        assert forall|timeframe: Timeframe| supported(timeframe) implies #[trigger] list.contains(
            timeframe,
        ) by {
            let place: int = match timeframe {
                Timeframe::Minute1 => 0,
                Timeframe::Minute3 => 1,
                Timeframe::Minute5 => 2,
                Timeframe::Minute15 => 3,
                Timeframe::Minute30 => 4,
                Timeframe::Hour1 => 5,
                Timeframe::Hour2 => 6,
                Timeframe::Hour4 => 7,
                Timeframe::Hour8 => 8,
                Timeframe::Hour12 => 9,
                Timeframe::Day1 => 10,
                Timeframe::Day3 => 11,
                Timeframe::Week1 => 12,
                _ => 13,
            };
            assert(list[place] == timeframe);
        }
    }
    ProviderCapabilities { markets, timeframes, history_page_limit }
}

#[derive(Debug, PartialEq)]
pub enum HyperliquidDecoded {
    Candle(Candle),
    SubscribeAccepted,
    ApplicationPong,
}

impl WsOutcome for HyperliquidDecoded {
    open spec fn rank(self) -> int {
        match self {
            HyperliquidDecoded::Candle(_) => 1,
            HyperliquidDecoded::SubscribeAccepted => 2,
            HyperliquidDecoded::ApplicationPong => 255,
        }
    }

    fn readiness_priority(&self) -> (priority: u8) {
        match self {
            HyperliquidDecoded::Candle(_) => 1,
            HyperliquidDecoded::SubscribeAccepted => 2,
            HyperliquidDecoded::ApplicationPong => 255,
        }
    }
}

/// A candle as the provider sends it. Each number is the value of the JSON number or text that it
/// was sent as, where that is a finite number.
#[derive(Debug, PartialEq)]
pub struct HlCandle {
    pub open_time: i64,
    pub close_time: i64,
    pub symbol: String,
    pub interval: String,
    pub open: Option<Decimal>,
    pub close: Option<Decimal>,
    pub high: Option<Decimal>,
    pub low: Option<Decimal>,
    pub volume: Option<Decimal>,
    pub trade_count: u64,
}

impl HlCandle {
    /// The numbers of a candle, where all are numbers.
    pub open spec fn values(self) -> Option<CandleValues> {
        match (self.open, self.high, self.low, self.close, self.volume) {
            (Some(open), Some(high), Some(low), Some(close), Some(base_volume)) => Some(
                CandleValues {
                    open_time: self.open_time,
                    close_time: self.close_time,
                    open,
                    high,
                    low,
                    close,
                    base_volume,
                },
            ),
            _ => None,
        }
    }

    pub open spec fn is_of(self, instrument: Instrument, timeframe: Timeframe) -> bool {
        self.symbol@ == instrument.provider_symbol@ && self.interval@ == timeframe.spelling()@
    }

    fn candle_ohlcv(&self) -> (values: Option<CandleValues>)
        ensures
            values == self.values(),
    {
        match (self.open, self.high, self.low, self.close, self.volume) {
            (Some(open), Some(high), Some(low), Some(close), Some(base_volume)) => Some(
                CandleValues {
                    open_time: self.open_time,
                    close_time: self.close_time,
                    open,
                    high,
                    low,
                    close,
                    base_volume,
                },
            ),
            _ => None,
        }
    }

    fn candle_market_matches(&self, instrument: &Instrument, timeframe: Timeframe) -> (matches: bool)
        ensures
            matches == self.is_of(*instrument, timeframe),
    {
        same_text(self.symbol.as_str(), instrument.provider_symbol()) && same_text(
            self.interval.as_str(),
            timeframe.as_str(),
        )
    }
}

/// The instant after which no candle can honestly open, where the clock tells one.
pub open spec fn future_ceiling(now_ms: Option<i64>) -> Option<int> {
    match now_ms {
        Some(now) => if now + MAX_FUTURE_CANDLE_SKEW_MILLIS <= i64::MAX {
            Some(now + MAX_FUTURE_CANDLE_SKEW_MILLIS)
        } else {
            None
        },
        None => None,
    }
}

pub open spec fn malformed(context: ErrorContext) -> ProviderError {
    crate::provider::runtime::http::payload_error(context, PayloadError::MalformedProtocol)
}

pub open spec fn bad_number(context: ErrorContext) -> ProviderError {
    crate::provider::runtime::http::payload_error(
        context,
        PayloadError::InvalidField { field: "candle numeric field" },
    )
}

/// The candle that the stream reports.
pub open spec fn ws_candle(
    kline: HlCandle,
    instrument: Instrument,
    timeframe: Timeframe,
    now_ms: Option<i64>,
    context: ErrorContext,
) -> Result<Candle, ProviderError> {
    if !kline.is_of(instrument, timeframe) {
        Err(
            ProviderError::Protocol {
                context,
                detail: "WebSocket candle market does not match subscription",
            },
        )
    } else if !spans_period(timeframe, kline.open_time, kline.close_time) || !(future_ceiling(
        now_ms,
    ) matches Some(ceiling) && kline.open_time <= ceiling) {
        Err(malformed(context))
    } else {
        match kline.values() {
            None => Err(bad_number(context)),
            Some(values) => match Candle::streamed(values, false) {
                Ok(candle) => Ok(candle),
                Err(source) => Err(ProviderError::Domain { context, source }),
            },
        }
    }
}

fn read_ws_candle(
    kline: &HlCandle,
    instrument: &Instrument,
    timeframe: Timeframe,
    now_ms: Option<i64>,
    context: &ErrorContext,
) -> (candle: Result<Candle, ProviderError>)
    ensures
        candle == ws_candle(*kline, *instrument, timeframe, now_ms, *context),
{
    if !kline.candle_market_matches(instrument, timeframe) {
        return Err(
            ProviderError::Protocol {
                context: context.clone(),
                detail: "WebSocket candle market does not match subscription",
            },
        );
    }
    let timely = match now_ms {
        Some(now) => match now.checked_add(MAX_FUTURE_CANDLE_SKEW_MILLIS) {
            Some(ceiling) => kline.open_time <= ceiling,
            None => false,
        },
        None => false,
    };
    if !is_period(timeframe, kline.open_time, kline.close_time) || !timely {
        return Err(payload(context, PayloadError::MalformedProtocol));
    }
    match kline.candle_ohlcv() {
        None => Err(
            payload(context, PayloadError::InvalidField { field: "candle numeric field" }),
        ),
        Some(values) => match Candle::from_ws(values, false) {
            Ok(candle) => Ok(candle),
            Err(source) => Err(ProviderError::Domain { context: context.clone(), source }),
        },
    }
}

/// What a candle makes of the one that was retained, and what is passed on. The stream never says
/// that a candle is closed: one is, once a later one comes.
pub open spec fn advanced(retained: Option<Candle>, candidate: Candle) -> (
    Option<Candle>,
    Seq<Candle>,
) {
    match retained {
        None => (Some(candidate), seq![candidate]),
        Some(held) => if candidate.opens_at() < held.opens_at() || (candidate.values.same(
            held.values,
        ) && candidate.authority == held.authority) {
            (retained, Seq::empty())
        } else if candidate.opens_at() == held.opens_at() {
            (Some(candidate), seq![candidate])
        } else {
            (
                Some(candidate),
                seq![
                    Candle {
                        values: held.values,
                        authority: crate::candle::FinalityAuthority::WsAuthoritativeClosed,
                    },
                    candidate,
                ],
            )
        },
    }
}

pub open spec fn candle_frames(candles: Seq<Candle>) -> Seq<DecodedFrame<HyperliquidDecoded>> {
    candles.map_values(
        |candle: Candle| DecodedFrame::Provider(HyperliquidDecoded::Candle(candle)),
    )
}

/// The head of a message: what tells one kind from another.
#[derive(Debug, PartialEq, Eq)]
pub struct WsHead {
    pub channel: Option<String>,
    pub has_data: bool,
    pub method: Option<String>,
    pub subscription_type: Option<String>,
    pub coin: Option<String>,
    pub interval: Option<String>,
}

#[verifier::ext_equal]
pub struct HeadView {
    pub channel: Option<Seq<char>>,
    pub has_data: bool,
    pub method: Option<Seq<char>>,
    pub subscription_type: Option<Seq<char>>,
    pub coin: Option<Seq<char>>,
    pub interval: Option<Seq<char>>,
}

impl View for WsHead {
    type V = HeadView;

    open spec fn view(&self) -> HeadView {
        HeadView {
            channel: crate::provider::runtime::endpoint::text_view(self.channel),
            has_data: self.has_data,
            method: crate::provider::runtime::endpoint::text_view(self.method),
            subscription_type: crate::provider::runtime::endpoint::text_view(
                self.subscription_type,
            ),
            coin: crate::provider::runtime::endpoint::text_view(self.coin),
            interval: crate::provider::runtime::endpoint::text_view(self.interval),
        }
    }
}

/// The text under a key of an object that may be missing.
pub open spec fn text_in(value: Option<crate::json::JsonView>, key: Seq<char>) -> Option<Seq<char>> {
    match value {
        Some(object) => object.member_text(key),
        None => None,
    }
}

/// The head of a JSON document.
pub open spec fn head_of(value: crate::json::JsonView) -> HeadView {
    let data = value.member("data"@);
    let subscription = match data {
        Some(object) => object.member("subscription"@),
        None => None,
    };
    HeadView {
        channel: value.member_text("channel"@),
        has_data: data is Some,
        method: text_in(data, "method"@),
        subscription_type: text_in(subscription, "type"@),
        coin: text_in(subscription, "coin"@),
        interval: text_in(subscription, "interval"@),
    }
}

/// What a message is about.
#[derive(Debug, PartialEq)]
pub enum WsPayload {
    /// It says this, and no more.
    Frame(DecodedFrame<HyperliquidDecoded>),
    /// It carries a candle, under `data`.
    Candle,
}

/// Whether a head acknowledges the subscription to a market.
pub open spec fn acknowledges(head: HeadView, instrument: Instrument, timeframe: Timeframe) -> bool {
    head.method == Some("subscribe"@) && head.subscription_type == Some("candle"@) && head.coin
        == Some(instrument.provider_symbol@) && head.interval == Some(timeframe.spelling()@)
}

/// What a message is about, by its head.
pub open spec fn head_payload(
    head: HeadView,
    instrument: Instrument,
    timeframe: Timeframe,
    context: ErrorContext,
) -> WsPayload {
    if head.channel == Some("subscriptionResponse"@) {
        WsPayload::Frame(
            if acknowledges(head, instrument, timeframe) {
                DecodedFrame::Provider(HyperliquidDecoded::SubscribeAccepted)
            } else {
                DecodedFrame::ProviderError(malformed(context))
            },
        )
    } else if head.channel == Some("pong"@) {
        WsPayload::Frame(DecodedFrame::Provider(HyperliquidDecoded::ApplicationPong))
    } else if head.channel == Some("candle"@) {
        if head.has_data {
            WsPayload::Candle
        } else {
            WsPayload::Frame(DecodedFrame::ProviderError(malformed(context)))
        }
    } else {
        WsPayload::Frame(DecodedFrame::Ignored)
    }
}

pub fn classify_head(
    head: &WsHead,
    instrument: &Instrument,
    timeframe: Timeframe,
    context: &ErrorContext,
) -> (kind: WsPayload)
    ensures
        kind == head_payload(head@, *instrument, timeframe, *context),
{
    if matches_text(&head.channel, "subscriptionResponse") {
        let valid = matches_text(&head.method, "subscribe") && matches_text(
            &head.subscription_type,
            "candle",
        ) && matches_text(&head.coin, instrument.provider_symbol()) && matches_text(
            &head.interval,
            timeframe.as_str(),
        );
        return WsPayload::Frame(
            if valid {
                DecodedFrame::Provider(HyperliquidDecoded::SubscribeAccepted)
            } else {
                DecodedFrame::ProviderError(payload(context, PayloadError::MalformedProtocol))
            },
        );
    }
    if matches_text(&head.channel, "pong") {
        return WsPayload::Frame(DecodedFrame::Provider(HyperliquidDecoded::ApplicationPong));
    }
    if matches_text(&head.channel, "candle") {
        return if head.has_data {
            WsPayload::Candle
        } else {
            WsPayload::Frame(
                DecodedFrame::ProviderError(payload(context, PayloadError::MalformedProtocol)),
            )
        };
    }
    WsPayload::Frame(DecodedFrame::Ignored)
}

fn owned(text: Option<&str>) -> (held: Option<String>)
    ensures
        crate::provider::runtime::endpoint::text_view(held)
            == crate::provider::runtime::http::header_view(text),
{
    match text {
        Some(text) => Some(text.to_owned()),
        None => None,
    }
}

fn read_head(value: &serde_json::Value) -> (head: WsHead)
    ensures
        head@ == head_of(crate::json::json_of(*value)),
{
    let channel = owned(member_text(value, "channel"));
    let data = json_get(value, "data");
    let subscription = match data {
        Some(object) => json_get(object, "subscription"),
        None => None,
    };
    let method = match data {
        Some(object) => owned(member_text(object, "method")),
        None => None,
    };
    let (subscription_type, coin, interval) = match subscription {
        Some(object) => (
            owned(member_text(object, "type")),
            owned(member_text(object, "coin")),
            owned(member_text(object, "interval")),
        ),
        None => (None, None, None),
    };
    let head = WsHead {
        channel,
        has_data: data.is_some(),
        method,
        subscription_type,
        coin,
        interval,
    };
    assert(head@ =~= head_of(crate::json::json_of(*value)));
    head
}

/// What a payload is about.
pub open spec fn bytes_payload(
    bytes: Seq<u8>,
    instrument: Instrument,
    timeframe: Timeframe,
    config: WsConfig,
) -> WsPayload {
    let context = ErrorContext::of_market(ErrorOperation::WebSocket, instrument, timeframe);
    if bytes.len() > config.max_message_size {
        WsPayload::Frame(
            DecodedFrame::ProviderError(
                crate::provider::runtime::http::payload_error(
                    context,
                    PayloadError::OverBudget { limit_bytes: config.max_message_size },
                ),
            ),
        )
    } else {
        match crate::json::json_document(bytes) {
            None => WsPayload::Frame(DecodedFrame::ProviderError(malformed(context))),
            Some(value) => head_payload(head_of(value), instrument, timeframe, context),
        }
    }
}

/// Finds out what a payload is about.
pub fn read_ws_payload(
    bytes: &[u8],
    instrument: &Instrument,
    timeframe: Timeframe,
    config: &WsConfig,
) -> (kind: WsPayload)
    ensures
        kind == bytes_payload(bytes@, *instrument, timeframe, *config),
{
    let context = ErrorContext::market(ErrorOperation::WebSocket, instrument, timeframe);
    if bytes.len() > config.max_message_size {
        return WsPayload::Frame(
            DecodedFrame::ProviderError(
                payload(
                    &context,
                    PayloadError::OverBudget { limit_bytes: config.max_message_size },
                ),
            ),
        );
    }
    match parse_json(bytes) {
        None => WsPayload::Frame(
            DecodedFrame::ProviderError(payload(&context, PayloadError::MalformedProtocol)),
        ),
        Some(value) => {
            let head = read_head(&value);
            classify_head(&head, instrument, timeframe, &context)
        },
    }
}

/// What a message is about.
pub open spec fn message_payload(
    message: WsMessage,
    instrument: Instrument,
    timeframe: Timeframe,
    config: WsConfig,
) -> WsPayload {
    match config.fault() {
        Some(detail) => WsPayload::Frame(
            DecodedFrame::ProviderError(ProviderError::Configuration(detail)),
        ),
        None => match message {
            WsMessage::Text(bytes) => bytes_payload(bytes@, instrument, timeframe, config),
            WsMessage::Binary(bytes) => bytes_payload(bytes@, instrument, timeframe, config),
            WsMessage::Close(code) => WsPayload::Frame(DecodedFrame::Close(code)),
            _ => WsPayload::Frame(DecodedFrame::Ignored),
        },
    }
}

/// Reads the messages of the stream, and remembers the candle that is still open.
#[derive(Debug, Default)]
pub struct HyperliquidWsCodec {
    retained_candle: Option<Candle>,
}

impl HyperliquidWsCodec {
    pub closed spec fn retained(self) -> Option<Candle> {
        self.retained_candle
    }

    pub open spec fn well_formed(self) -> bool {
        self.retained() matches Some(candle) ==> candle.valid()
    }

    pub fn new() -> (codec: HyperliquidWsCodec)
        ensures
            codec.retained() is None,
            codec.well_formed(),
    {
        HyperliquidWsCodec { retained_candle: None }
    }

    /// Finds out what a message is about.
    pub fn classify(
        &self,
        message: &WsMessage,
        instrument: &Instrument,
        timeframe: Timeframe,
        config: &WsConfig,
    ) -> (kind: WsPayload)
        ensures
            kind == message_payload(*message, *instrument, timeframe, *config),
    {
        match config.validate() {
            Err(error) => {
                return WsPayload::Frame(DecodedFrame::ProviderError(error));
            },
            Ok(_) => {},
        }
        match message {
            WsMessage::Text(bytes) => read_ws_payload(
                bytes.as_slice(),
                instrument,
                timeframe,
                config,
            ),
            WsMessage::Binary(bytes) => read_ws_payload(
                bytes.as_slice(),
                instrument,
                timeframe,
                config,
            ),
            WsMessage::Close(code) => WsPayload::Frame(DecodedFrame::Close(*code)),
            _ => WsPayload::Frame(DecodedFrame::Ignored),
        }
    }

    fn advance(&mut self, candidate: Candle, outcomes: &mut VecDeque<DecodedFrame<HyperliquidDecoded>>)
        requires
            old(self).well_formed(),
            candidate.valid(),
        ensures
            final(self).well_formed(),
            final(self).retained() == advanced(old(self).retained(), candidate).0,
            final(outcomes)@ == old(outcomes)@ + candle_frames(
                advanced(old(self).retained(), candidate).1,
            ),
    {
        let ghost passed = advanced(self.retained(), candidate).1;
        match self.retained_candle {
            None => {
                self.retained_candle = Some(candidate);
                outcomes.push_back(DecodedFrame::Provider(HyperliquidDecoded::Candle(candidate)));
            },
            Some(retained) => {
                if candidate.open_time() < retained.open_time() || candidate.equals(&retained) {
                    assert(outcomes@ =~= old(outcomes)@ + candle_frames(passed));
                    return;
                }
                if candidate.open_time() != retained.open_time() {
                    if let Ok(closed) = Candle::from_ws(retained.values, true) {
                        outcomes.push_back(
                            DecodedFrame::Provider(HyperliquidDecoded::Candle(closed)),
                        );
                    }
                }
                self.retained_candle = Some(candidate);
                outcomes.push_back(DecodedFrame::Provider(HyperliquidDecoded::Candle(candidate)));
            },
        }
        assert(outcomes@ =~= old(outcomes)@ + candle_frames(passed));
    }

    /// Takes the candle of a message: `kline` is what the message's data was read as, where it could
    /// be, and `now_ms` the time, where it is known.
    pub fn decode_candle_payload(
        &mut self,
        kline: Option<&HlCandle>,
        instrument: &Instrument,
        timeframe: Timeframe,
        now_ms: Option<i64>,
        outcomes: &mut VecDeque<DecodedFrame<HyperliquidDecoded>>,
    )
        requires
            old(self).well_formed(),
        ensures
            final(self).well_formed(),
            ({
                let context = ErrorContext::of_market(
                    ErrorOperation::WebSocket,
                    *instrument,
                    timeframe,
                );
                let read = match kline {
                    Some(kline) => ws_candle(*kline, *instrument, timeframe, now_ms, context),
                    None => Err(malformed(context)),
                };
                match read {
                    Err(error) => final(self).retained() == old(self).retained() && final(outcomes)@ == old(outcomes)@.push(DecodedFrame::ProviderError(error)),
                    Ok(candle) => final(self).retained() == advanced(
                        old(self).retained(),
                        candle,
                    ).0 && final(outcomes)@ == old(outcomes)@ + candle_frames(
                        advanced(old(self).retained(), candle).1,
                    ),
                }
            }),
    {
        let context = ErrorContext::market(ErrorOperation::WebSocket, instrument, timeframe);
        let read = match kline {
            None => Err(payload(&context, PayloadError::MalformedProtocol)),
            Some(kline) => read_ws_candle(kline, instrument, timeframe, now_ms, &context),
        };
        match read {
            Err(error) => {
                outcomes.push_back(DecodedFrame::ProviderError(error));
            },
            Ok(candidate) => {
                self.advance(candidate, outcomes);
            },
        }
    }
}

/// What a message is read as: what a codec retains after it, and the frames that it gives.
pub open spec fn decoded(
    retained: Option<Candle>,
    message: WsMessage,
    instrument: Instrument,
    timeframe: Timeframe,
    config: WsConfig,
    kline: Option<&HlCandle>,
    now_ms: Option<i64>,
) -> (Option<Candle>, Seq<DecodedFrame<HyperliquidDecoded>>) {
    match message_payload(message, instrument, timeframe, config) {
        WsPayload::Frame(frame) => (retained, seq![frame]),
        WsPayload::Candle => {
            let context = ErrorContext::of_market(ErrorOperation::WebSocket, instrument, timeframe);
            let read = match kline {
                Some(kline) => ws_candle(*kline, instrument, timeframe, now_ms, context),
                None => Err(malformed(context)),
            };
            match read {
                Err(error) => (retained, seq![DecodedFrame::ProviderError(error)]),
                Ok(candle) => {
                    let next = advanced(retained, candle);
                    (next.0, candle_frames(next.1))
                },
            }
        },
    }
}

/// Reads a message of the stream. `kline` is what its `data` was read as, where it has a candle and
/// that could be read; `now_ms` is the time, where it is known.
pub fn decode_ws_frame(
    codec: &mut HyperliquidWsCodec,
    message: &WsMessage,
    instrument: &Instrument,
    timeframe: Timeframe,
    config: &WsConfig,
    kline: Option<&HlCandle>,
    now_ms: Option<i64>,
    outcomes: &mut VecDeque<DecodedFrame<HyperliquidDecoded>>,
)
    requires
        old(codec).well_formed(),
    ensures
        final(codec).well_formed(),
        final(codec).retained() == decoded(
            old(codec).retained(),
            *message,
            *instrument,
            timeframe,
            *config,
            kline,
            now_ms,
        ).0,
        final(outcomes)@ == old(outcomes)@ + decoded(
            old(codec).retained(),
            *message,
            *instrument,
            timeframe,
            *config,
            kline,
            now_ms,
        ).1,
{
    match codec.classify(message, instrument, timeframe, config) {
        WsPayload::Frame(frame) => outcomes.push_back(frame),
        WsPayload::Candle => codec.decode_candle_payload(
            kline,
            instrument,
            timeframe,
            now_ms,
            outcomes,
        ),
    }
}

/// What a frame means to a live feed.
pub open spec fn feed_event(frame: DecodedFrame<HyperliquidDecoded>) -> LiveSocketEvent {
    match frame {
        DecodedFrame::Provider(HyperliquidDecoded::Candle(candle)) => LiveSocketEvent::Candle(
            candle,
        ),
        DecodedFrame::Provider(HyperliquidDecoded::ApplicationPong) => LiveSocketEvent::Ignored,
        DecodedFrame::Provider(HyperliquidDecoded::SubscribeAccepted) =>
            LiveSocketEvent::ProtocolViolation("duplicate Hyperliquid subscribe acknowledgement"),
        DecodedFrame::Ignored => LiveSocketEvent::Ignored,
        DecodedFrame::ProviderError(error) => LiveSocketEvent::DecodedError(error),
        DecodedFrame::ReconnectRequested => LiveSocketEvent::ReconnectRequested,
        DecodedFrame::Close(_) => LiveSocketEvent::ReconnectRequested,
    }
}

pub fn live_event(frame: DecodedFrame<HyperliquidDecoded>) -> (event: LiveSocketEvent)
    ensures
        event == feed_event(frame),
{
    match frame {
        DecodedFrame::Provider(HyperliquidDecoded::Candle(candle)) => LiveSocketEvent::Candle(
            candle,
        ),
        DecodedFrame::Provider(HyperliquidDecoded::ApplicationPong) => LiveSocketEvent::Ignored,
        DecodedFrame::Provider(HyperliquidDecoded::SubscribeAccepted) =>
            LiveSocketEvent::ProtocolViolation("duplicate Hyperliquid subscribe acknowledgement"),
        DecodedFrame::Ignored => LiveSocketEvent::Ignored,
        DecodedFrame::ProviderError(error) => LiveSocketEvent::DecodedError(error),
        DecodedFrame::ReconnectRequested => LiveSocketEvent::ReconnectRequested,
        DecodedFrame::Close(_) => LiveSocketEvent::ReconnectRequested,
    }
}

/// What an input means to a socket that waits for its subscription.
pub open spec fn readiness(
    input: ReadinessInput<HyperliquidDecoded>,
    market: LiveMarket,
    now: MonoInstant,
    ack_deadline: MonoInstant,
) -> ReadyStep<()> {
    let idle = if now.0 >= ack_deadline.0 {
        ReadyStep::Fail(market.timeout_error(TimeoutKind::SubscribeAck))
    } else {
        ReadyStep::Wait
    };
    match input {
        ReadinessInput::Error(error) => ReadyStep::Fail(error),
        ReadinessInput::Frame(frame) => match frame {
            DecodedFrame::Provider(HyperliquidDecoded::SubscribeAccepted) => ReadyStep::Ready(()),
            DecodedFrame::Provider(HyperliquidDecoded::ApplicationPong) => idle,
            DecodedFrame::Ignored => idle,
            DecodedFrame::Close(_) => ReadyStep::Close(market.reconnect_error()),
            DecodedFrame::ReconnectRequested => ReadyStep::Close(market.reconnect_error()),
            DecodedFrame::ProviderError(error) => ReadyStep::Fail(error),
            DecodedFrame::Provider(HyperliquidDecoded::Candle(_)) => ReadyStep::Fail(
                market.protocol_error("Hyperliquid candle arrived before subscribe acknowledgement"),
            ),
        },
    }
}

pub fn on_readiness(
    input: ReadinessInput<HyperliquidDecoded>,
    market: &LiveMarket,
    now: MonoInstant,
    ack_deadline: MonoInstant,
) -> (step: ReadyStep<()>)
    ensures
        step == readiness(input, *market, now, ack_deadline),
{
    match input {
        ReadinessInput::Error(error) => ReadyStep::Fail(error),
        ReadinessInput::Frame(frame) => match frame {
            DecodedFrame::Provider(HyperliquidDecoded::SubscribeAccepted) => ReadyStep::Ready(()),
            DecodedFrame::Close(_) => ReadyStep::Close(
                market.live_protocol_error("WebSocket peer requested reconnect"),
            ),
            DecodedFrame::ReconnectRequested => ReadyStep::Close(
                market.live_protocol_error("WebSocket peer requested reconnect"),
            ),
            DecodedFrame::ProviderError(error) => ReadyStep::Fail(error),
            DecodedFrame::Provider(HyperliquidDecoded::Candle(_)) => ReadyStep::Fail(
                market.live_protocol_error(
                    "Hyperliquid candle arrived before subscribe acknowledgement",
                ),
            ),
            _ => {
                if now.0 >= ack_deadline.0 {
                    return ReadyStep::Fail(market.subscribe_ack_timeout());
                }
                ReadyStep::Wait
            },
        },
    }
}

/// The text that subscribes to a market's candles.
pub open spec fn subscribe_text(instrument: Instrument, timeframe: Timeframe) -> Seq<char> {
    "{\"method\":\"subscribe\",\"subscription\":{\"coin\":"@ + crate::json::json_quoted(
        instrument.provider_symbol@,
    ) + ",\"interval\":\""@ + timeframe.spelling()@ + "\",\"type\":\"candle\"}}"@
}

pub fn subscribe_message(instrument: &Instrument, timeframe: Timeframe) -> (message: String)
    ensures
        message@ == subscribe_text(*instrument, timeframe),
{
    let mut message = "{\"method\":\"subscribe\",\"subscription\":{\"coin\":".to_owned();
    let coin = quote_json(instrument.provider_symbol());
    message.append(coin.as_str());
    message.append(",\"interval\":\"");
    message.append(timeframe.as_str());
    message.append("\",\"type\":\"candle\"}}");
    message
}

/// The text that asks for a market's history between two instants.
pub open spec fn history_text(
    instrument: Instrument,
    timeframe: Timeframe,
    start_time: i64,
    end_time: i64,
) -> Seq<char> {
    "{\"req\":{\"coin\":"@ + crate::json::json_quoted(instrument.provider_symbol@)
        + ",\"endTime\":"@ + crate::text::signed_numeral(end_time as int) + ",\"interval\":\""@
        + timeframe.spelling()@ + "\",\"startTime\":"@ + crate::text::signed_numeral(
        start_time as int,
    ) + "},\"type\":\"candleSnapshot\"}"@
}

pub fn history_body(
    instrument: &Instrument,
    timeframe: Timeframe,
    start_time: i64,
    end_time: i64,
) -> (body: String)
    ensures
        body@ == history_text(*instrument, timeframe, start_time, end_time),
{
    let mut body = "{\"req\":{\"coin\":".to_owned();
    let coin = quote_json(instrument.provider_symbol());
    body.append(coin.as_str());
    body.append(",\"endTime\":");
    let end = i64_text(end_time);
    body.append(end.as_str());
    body.append(",\"interval\":\"");
    body.append(timeframe.as_str());
    body.append("\",\"startTime\":");
    let start = i64_text(start_time);
    body.append(start.as_str());
    body.append("},\"type\":\"candleSnapshot\"}");
    body
}

/// How long so many periods are at most.
pub open spec fn span(timeframe: Timeframe, rows: int) -> i64 {
    crate::saturate::clamped(rows * longest_period(timeframe))
}

/// The instants between which a request asks for candles.
pub open spec fn window(
    timeframe: Timeframe,
    request: HistoryRequest,
    now_ms: Option<i64>,
) -> Result<(i64, i64), ProviderError> {
    let reach = span(timeframe, request.limit as int);
    if !supported(timeframe) {
        Err(ProviderError::Configuration(UNSUPPORTED_TIMEFRAME))
    } else {
        match request.kind {
            HistoryRequestKind::Latest => match now_ms {
                Some(end) => Ok(
                    (
                        crate::saturate::clamped(crate::saturate::clamped(end - reach) + 1),
                        end,
                    ),
                ),
                None => Err(ProviderError::Invariant("unix epoch clock is unavailable")),
            },
            HistoryRequestKind::Older => match request.end_time {
                Some(end) => Ok(
                    (
                        crate::saturate::clamped(crate::saturate::clamped(end - reach) + 1),
                        end,
                    ),
                ),
                None => Err(ProviderError::Invariant("older history request is missing endTime")),
            },
            HistoryRequestKind::Gap => match (request.start_time, request.end_time) {
                (None, _) => Err(
                    ProviderError::Invariant("gap history request is missing startTime"),
                ),
                (_, None) => Err(
                    ProviderError::Invariant("gap history request is missing endTime"),
                ),
                (Some(start), Some(end)) => {
                    let page_end = crate::saturate::clamped(
                        crate::saturate::clamped(start + reach) - 1,
                    );
                    Ok(
                        (
                            start,
                            if end <= page_end {
                                end
                            } else {
                                page_end
                            },
                        ),
                    )
                },
            },
        }
    }
}

pub fn candle_window(timeframe: Timeframe, request: HistoryRequest, now_ms: Option<i64>) -> (
bounds: Result<(i64, i64), ProviderError>)
    ensures
        bounds == window(timeframe, request, now_ms),
{
    let interval: i64 = match interval_ms(timeframe) {
        Ok(interval) => interval,
        Err(error) => {
            return Err(error);
        },
    };
    let reach: i64 = product(request.limit as i64, interval);
    match request.kind {
        HistoryRequestKind::Latest => match now_ms {
            Some(end) => Ok((sum(difference(end, reach), 1), end)),
            None => Err(ProviderError::Invariant("unix epoch clock is unavailable")),
        },
        HistoryRequestKind::Older => match request.end_time {
            Some(end) => Ok((sum(difference(end, reach), 1), end)),
            None => Err(ProviderError::Invariant("older history request is missing endTime")),
        },
        HistoryRequestKind::Gap => {
            let start: i64 = match request.start_time {
                Some(start) => start,
                None => {
                    return Err(
                        ProviderError::Invariant("gap history request is missing startTime"),
                    );
                },
            };
            let end: i64 = match request.end_time {
                Some(end) => end,
                None => {
                    return Err(ProviderError::Invariant("gap history request is missing endTime"));
                },
            };
            let page_end: i64 = difference(sum(start, reach), 1);
            Ok(
                (
                    start,
                    if end <= page_end {
                        end
                    } else {
                        page_end
                    },
                ),
            )
        },
    }
}

/// The opening times that an answer may hold: those asked for, and as many more as the provider may
/// add to a full answer.
pub open spec fn validation_window(
    timeframe: Timeframe,
    kind: HistoryRequestKind,
    requested_limit: u16,
    request_start: i64,
    request_end: i64,
) -> (i64, i64) {
    let rows: int = if requested_limit <= HYPERLIQUID_MAX_RESPONSE_ROWS {
        HYPERLIQUID_MAX_RESPONSE_ROWS - requested_limit
    } else {
        0
    };
    let overlap = span(timeframe, rows);
    match kind {
        HistoryRequestKind::Gap => (
            request_start,
            crate::saturate::clamped(request_end + overlap),
        ),
        _ => (
            crate::saturate::clamped(crate::saturate::clamped(request_start - overlap) - 1),
            request_end,
        ),
    }
}

pub fn response_validation_window(
    timeframe: Timeframe,
    kind: HistoryRequestKind,
    requested_limit: u16,
    request_start: i64,
    request_end: i64,
) -> (bounds: Result<(i64, i64), ProviderError>)
    ensures
        bounds == (if supported(timeframe) {
            Ok::<(i64, i64), ProviderError>(
                validation_window(timeframe, kind, requested_limit, request_start, request_end),
            )
        } else {
            Err(ProviderError::Configuration(UNSUPPORTED_TIMEFRAME))
        }),
{
    let rows: i64 = if (requested_limit as usize) < HYPERLIQUID_MAX_RESPONSE_ROWS {
        HYPERLIQUID_MAX_RESPONSE_ROWS as i64 - requested_limit as i64
    } else {
        0
    };
    let interval: i64 = match interval_ms(timeframe) {
        Ok(interval) => interval,
        Err(error) => {
            return Err(error);
        },
    };
    proof {
        assert(rows * longest_period(timeframe) == longest_period(timeframe) * rows)
            by (nonlinear_arith);
    }
    let overlap: i64 = product(interval, rows);
    Ok(
        match kind {
            HistoryRequestKind::Gap => (request_start, sum(request_end, overlap)),
            _ => (difference(difference(request_start, overlap), 1), request_end),
        },
    )
}

/// What an answer of history is held to.
#[derive(Debug, PartialEq, Eq)]
pub struct CandleDecodeContext {
    pub kind: HistoryRequestKind,
    pub requested_limit: u16,
    pub instrument: Instrument,
    pub timeframe: Timeframe,
    pub window_start: i64,
    pub window_end: i64,
    pub error: ErrorContext,
}

/// The candle that a row of history is, after a row that opened at `previous`.
pub open spec fn rest_candle(
    terms: CandleDecodeContext,
    row: HlCandle,
    previous: Option<i64>,
) -> Result<Candle, ProviderError> {
    if !row.is_of(terms.instrument, terms.timeframe) {
        Err(
            ProviderError::Protocol {
                context: terms.error,
                detail: "REST candle market does not match request",
            },
        )
    } else if !spans_period(terms.timeframe, row.open_time, row.close_time) || row.open_time
        < terms.window_start || row.open_time > terms.window_end || (previous matches Some(before)
        && row.open_time <= before) {
        Err(malformed(terms.error))
    } else {
        match row.values() {
            None => Err(bad_number(terms.error)),
            Some(values) => match Candle::recorded(values) {
                Ok(candle) => Ok(candle),
                Err(source) => Err(ProviderError::Domain { context: terms.error, source }),
            },
        }
    }
}

/// Reads one row of history.
pub fn decode_rest_row(terms: &CandleDecodeContext, row: &HlCandle, previous: Option<i64>) -> (
candle: Result<Candle, ProviderError>)
    ensures
        candle == rest_candle(*terms, *row, previous),
{
    if !row.candle_market_matches(&terms.instrument, terms.timeframe) {
        return Err(
            ProviderError::Protocol {
                context: terms.error.clone(),
                detail: "REST candle market does not match request",
            },
        );
    }
    let repeats = match previous {
        Some(before) => row.open_time <= before,
        None => false,
    };
    if !is_period(terms.timeframe, row.open_time, row.close_time) || row.open_time
        < terms.window_start || row.open_time > terms.window_end || repeats {
        return Err(payload(&terms.error, PayloadError::MalformedProtocol));
    }
    match row.candle_ohlcv() {
        None => Err(
            payload(&terms.error, PayloadError::InvalidField { field: "candle numeric field" }),
        ),
        Some(values) => match Candle::from_rest(values) {
            Ok(candle) => Ok(candle),
            Err(source) => Err(ProviderError::Domain { context: terms.error.clone(), source }),
        },
    }
}

/// When the row before a place opened, where there is one.
pub open spec fn opened_before(rows: Seq<HlCandle>, place: int) -> Option<i64> {
    if place == 0 {
        None
    } else {
        Some(rows[place - 1].open_time)
    }
}

/// The candle that the row at a place is.
pub open spec fn row_candle(terms: CandleDecodeContext, rows: Seq<HlCandle>, place: int) -> Result<
    Candle,
    ProviderError,
> {
    rest_candle(terms, rows[place], opened_before(rows, place))
}

/// Whether all rows are candles of the market, in order and in bounds.
pub open spec fn all_candles(terms: CandleDecodeContext, rows: Seq<HlCandle>) -> bool {
    forall|i: int| 0 <= i < rows.len() ==> (#[trigger] row_candle(terms, rows, i)) is Ok
}

/// The candles that rows are.
pub open spec fn candles_of(terms: CandleDecodeContext, rows: Seq<HlCandle>) -> Seq<Candle> {
    Seq::new(rows.len(), |i: int| row_candle(terms, rows, i)->Ok_0)
}

/// What is kept of an answer that is longer than was asked for: its start where a gap is filled, its
/// end otherwise.
pub open spec fn kept(kind: HistoryRequestKind, limit: int, candles: Seq<Candle>) -> Seq<Candle> {
    if candles.len() <= limit {
        candles
    } else if kind == HistoryRequestKind::Gap {
        candles.take(limit)
    } else {
        candles.skip(candles.len() - limit)
    }
}

/// Reads an answer of history. `rows` are its rows, where it could be read as rows; `more` says that
/// rows were left unread beyond the most that an answer may have; `trailing` that something came
/// after the array.
pub fn decode_candles(
    terms: &CandleDecodeContext,
    rows: Option<&Vec<HlCandle>>,
    more: bool,
    trailing: bool,
) -> (candles: Result<Vec<Candle>, ProviderError>)
    ensures
        match rows {
            Some(rows) => if more || rows@.len() > HYPERLIQUID_MAX_RESPONSE_ROWS || !all_candles(
                *terms,
                rows@,
            ) {
                candles == Err::<Vec<Candle>, ProviderError>(malformed(terms.error))
            } else if trailing {
                candles == Err::<Vec<Candle>, ProviderError>(
                    crate::provider::runtime::http::payload_error(
                        terms.error,
                        PayloadError::MalformedJson,
                    ),
                )
            } else {
                candles matches Ok(read) && read@ == kept(
                    terms.kind,
                    terms.requested_limit as int,
                    candles_of(*terms, rows@),
                )
            },
            None => candles == Err::<Vec<Candle>, ProviderError>(malformed(terms.error)),
        },
{
    let listed = match rows {
        Some(listed) => listed,
        None => {
            return Err(payload(&terms.error, PayloadError::MalformedProtocol));
        },
    };
    if more || listed.len() > HYPERLIQUID_MAX_RESPONSE_ROWS {
        return Err(payload(&terms.error, PayloadError::MalformedProtocol));
    }
    let mut all: Vec<Candle> = Vec::new();
    let mut previous: Option<i64> = None;
    let mut index: usize = 0;
    while index < listed.len()
        invariant
            rows == Some(listed),
            index <= listed@.len(),
            previous == opened_before(listed@, index as int),
            all@.len() == index,
            forall|i: int|
                0 <= i < index ==> #[trigger] row_candle(*terms, listed@, i) == Ok::<
                    Candle,
                    ProviderError,
                >(all@[i]),
        decreases listed@.len() - index,
    {
        match decode_rest_row(terms, &listed[index], previous) {
            Ok(candle) => all.push(candle),
            Err(_) => {
                assert(row_candle(*terms, listed@, index as int) is Err);
                return Err(payload(&terms.error, PayloadError::MalformedProtocol));
            },
        }
        previous = Some(listed[index].open_time);
        index += 1;
    }
    assert(all@ =~= candles_of(*terms, listed@));
    if trailing {
        return Err(payload(&terms.error, PayloadError::MalformedJson));
    }
    let limit: usize = terms.requested_limit as usize;
    if all.len() <= limit {
        return Ok(all);
    }
    let from: usize = match terms.kind {
        HistoryRequestKind::Gap => 0,
        _ => all.len() - limit,
    };
    let mut candles: Vec<Candle> = Vec::new();
    let mut place: usize = 0;
    while place < limit
        invariant
            place <= limit,
            from + limit <= all.len(),
            candles@ == all@.subrange(from as int, from + place),
        decreases limit - place,
    {
        candles.push(all[from + place]);
        place += 1;
        assert(candles@ =~= all@.subrange(from as int, from + place));
    }
    assert(candles@ =~= kept(terms.kind, limit as int, all@));
    Ok(candles)
}

/// Whether an error says that the provider does not know the market, in its own words.
pub open spec fn is_unknown_symbol(
    error: ProviderError,
    context: ErrorContext,
    words: Seq<char>,
) -> bool {
    error matches ProviderError::InvalidSymbol { context: told, code, message } && told == context
        && code == 0 && message.words() == Some(words)
}

pub fn invalid_hyperliquid_symbol(context: ErrorContext, message: &str) -> (error: ProviderError)
    ensures
        is_unknown_symbol(error, context, message@),
{
    ProviderError::InvalidSymbol { context, code: 0, message: SanitizedMessage::new(message) }
}

/// The words of an error that the provider answers in place of rows.
pub open spec fn error_words(value: crate::json::JsonView) -> Option<Seq<char>> {
    match value.member_text("error"@) {
        Some(words) => Some(words),
        None => value.member_text("msg"@),
    }
}

/// Looks at an answer of history before its rows are read.
pub fn check_candles_body(bytes: &[u8], requested_limit: u16, context: &ErrorContext) -> (checked:
    Result<(), ProviderError>)
    ensures
        if crate::json::starts_with_bracket(bytes@) {
            checked == (if 1 <= requested_limit <= 1000 {
                Ok::<(), ProviderError>(())
            } else {
                Err(malformed(*context))
            })
        } else {
            match crate::json::json_document(bytes@) {
                None => checked == Err::<(), ProviderError>(
                    crate::provider::runtime::http::payload_error(
                        *context,
                        PayloadError::MalformedJson,
                    ),
                ),
                Some(value) => match error_words(value) {
                    Some(words) => checked matches Err(error) && is_unknown_symbol(
                        error,
                        *context,
                        words,
                    ),
                    None => checked == Err::<(), ProviderError>(
                        crate::provider::runtime::http::payload_error(
                            *context,
                            PayloadError::ExpectedArray,
                        ),
                    ),
                },
            }
        },
{
    if looks_like_array(bytes) {
        if !(1 <= requested_limit && requested_limit <= 1000) {
            return Err(payload(context, PayloadError::MalformedProtocol));
        }
        return Ok(());
    }
    let value = match parse_json(bytes) {
        Some(value) => value,
        None => {
            return Err(payload(context, PayloadError::MalformedJson));
        },
    };
    let words = match member_text(&value, "error") {
        Some(words) => Some(words),
        None => member_text(&value, "msg"),
    };
    match words {
        Some(words) => Err(invalid_hyperliquid_symbol(context.clone(), words)),
        None => Err(payload(context, PayloadError::ExpectedArray)),
    }
}

pub fn map_http_error(status: u16, context: ErrorContext) -> (error: ProviderError)
    ensures
        error == (if 400 <= status < 500 {
            ProviderError::ClientStatus { context, status, code: None, message: None }
        } else {
            ProviderError::ServerStatus { context, status }
        }),
{
    if 400 <= status && status < 500 {
        ProviderError::ClientStatus { context, status, code: None, message: None }
    } else {
        ProviderError::ServerStatus { context, status }
    }
}

/// Whether a path is one that the provider's WebSocket server has.
pub open spec fn websocket_path(path: Seq<char>) -> bool {
    path == "/"@ || path.len() == 0 || path == "/ws"@
}

/// The URL of the provider's WebSocket server.
pub fn websocket_url_from_base(base_url: &str, loopback_only: bool, address: HostAddress) -> (url:
    Result<UrlParts, ProviderError>)
    ensures
        match crate::provider::runtime::endpoint::websocket_base_fault(
            crate::provider::runtime::endpoint::url_parts(base_url@),
            loopback_only,
            address,
        ) {
            Some(detail) => url == Err::<UrlParts, ProviderError>(
                ProviderError::Configuration(detail),
            ),
            None => crate::provider::runtime::endpoint::url_parts(base_url@) matches Some(parts)
                && (if websocket_path(parts.path) {
                url matches Ok(found) && found@ == parts
            } else {
                url == Err::<UrlParts, ProviderError>(
                    ProviderError::Configuration("invalid WebSocket base URL"),
                )
            }),
        },
{
    match validate_websocket_base(base_url, loopback_only, address) {
        Err(error) => Err(error),
        Ok(url) => {
            let path = url.path.as_str();
            if !same_text(path, "/") && !path.is_empty() && !same_text(path, "/ws") {
                return Err(ProviderError::Configuration("invalid WebSocket base URL"));
            }
            Ok(url)
        },
    }
}

/// The URL of the provider's own server; a fault is told with the market.
pub fn websocket_url(instrument: &Instrument, timeframe: Timeframe) -> (url: Result<
    UrlParts,
    ProviderError,
>)
    ensures
        match crate::provider::runtime::endpoint::websocket_base_fault(
            crate::provider::runtime::endpoint::url_parts(PRODUCTION_WS_BASE@),
            false,
            HostAddress::NotLiteral,
        ) {
            Some(detail) => url == Err::<UrlParts, ProviderError>(
                ProviderError::WebSocketConfiguration {
                    context: ErrorContext::of_market(
                        ErrorOperation::WebSocket,
                        *instrument,
                        timeframe,
                    ),
                    detail,
                },
            ),
            None => crate::provider::runtime::endpoint::url_parts(
                PRODUCTION_WS_BASE@,
            ) matches Some(parts) && (if websocket_path(parts.path) {
                url matches Ok(found) && found@ == parts
            } else {
                url == Err::<UrlParts, ProviderError>(
                    ProviderError::WebSocketConfiguration {
                        context: ErrorContext::of_market(
                            ErrorOperation::WebSocket,
                            *instrument,
                            timeframe,
                        ),
                        detail: "invalid WebSocket base URL",
                    },
                )
            }),
        },
{
    match websocket_url_from_base(PRODUCTION_WS_BASE, false, HostAddress::NotLiteral) {
        Ok(url) => Ok(url),
        Err(error) => Err(contextualize_websocket_configuration(error, instrument, timeframe)),
    }
}

/// The URL of a test server; a fault is told with the market.
pub fn test_websocket_url(
    base_url: &str,
    instrument: &Instrument,
    timeframe: Timeframe,
    address: HostAddress,
) -> (url: Result<UrlParts, ProviderError>)
    ensures
        match crate::provider::runtime::endpoint::websocket_base_fault(
            crate::provider::runtime::endpoint::url_parts(base_url@),
            true,
            address,
        ) {
            Some(detail) => url == Err::<UrlParts, ProviderError>(
                ProviderError::WebSocketConfiguration {
                    context: ErrorContext::of_market(
                        ErrorOperation::WebSocket,
                        *instrument,
                        timeframe,
                    ),
                    detail,
                },
            ),
            None => crate::provider::runtime::endpoint::url_parts(base_url@) matches Some(parts)
                && (if websocket_path(parts.path) {
                url matches Ok(found) && found@ == parts
            } else {
                url == Err::<UrlParts, ProviderError>(
                    ProviderError::WebSocketConfiguration {
                        context: ErrorContext::of_market(
                            ErrorOperation::WebSocket,
                            *instrument,
                            timeframe,
                        ),
                        detail: "invalid WebSocket base URL",
                    },
                )
            }),
        },
{
    match websocket_url_from_base(base_url, true, address) {
        Ok(url) => Ok(url),
        Err(error) => Err(contextualize_websocket_configuration(error, instrument, timeframe)),
    }
}

/// The market, base and provider symbol that a specification stands for, by its canonical base and
/// quote.
pub open spec fn remapped(
    market: Market,
    venue: Option<Seq<char>>,
    base: Seq<char>,
    quote: Seq<char>,
) -> (Market, Seq<char>, Seq<char>) {
    if venue is Some {
        (Market::Perpetual, base, venue->0 + ":"@ + base)
    } else if market == Market::Perpetual {
        (Market::Perpetual, base, base)
    } else if crate::model::spot_index(base) {
        (Market::Spot, base, base)
    } else if (base == "BTC"@ || base == "UBTC"@) && quote == "USDC"@ {
        (Market::Spot, "UBTC"@, "@142"@)
    } else if base == "HYPE"@ && quote == "USDC"@ {
        (Market::Spot, base, "@107"@)
    } else {
        (Market::Spot, base, base + "/"@ + quote)
    }
}

fn joined(left: &str, between: &str, right: &str) -> (text: String)
    ensures
        text@ == left@ + between@ + right@,
{
    let mut text = left.to_owned();
    text.append(between);
    text.append(right);
    text
}

fn remap_instrument(spec: &InstrumentSpec, local: &Instrument) -> (instrument: Instrument)
    ensures
        instrument.provider == spec.provider,
        instrument.quote == local.quote,
        (instrument.market, instrument.base@, instrument.provider_symbol@) == remapped(
            spec.market,
            crate::provider::runtime::endpoint::text_view(spec.venue),
            local.base@,
            local.quote@,
        ),
{
    let base = local.base.as_str();
    let quote = local.quote.as_str();
    let (market, display, symbol): (Market, String, String) = match &spec.venue {
        Some(dex) => (
            Market::Perpetual,
            local.base.clone(),
            joined(dex.as_str(), ":", base),
        ),
        None => if spec.market == Market::Perpetual {
            (Market::Perpetual, local.base.clone(), local.base.clone())
        } else if is_spot_index_token(base) {
            (Market::Spot, local.base.clone(), local.base.clone())
        } else if (same_text(base, "BTC") || same_text(base, "UBTC")) && same_text(
            quote,
            "USDC",
        ) {
            (Market::Spot, "UBTC".to_owned(), "@142".to_owned())
        } else if same_text(base, "HYPE") && same_text(quote, "USDC") {
            (Market::Spot, local.base.clone(), "@107".to_owned())
        } else {
            (Market::Spot, local.base.clone(), joined(base, "/", quote))
        },
    };
    Instrument {
        provider: spec.provider.clone(),
        market,
        base: display,
        quote: local.quote.clone(),
        provider_symbol: symbol,
    }
}

/// The instrument that a specification names; `local` is its canonical form, where it has one.
pub fn canonicalize(spec: &InstrumentSpec, local: Option<&Instrument>) -> (instrument: Result<
    Instrument,
    ProviderError,
>)
    ensures
        if spec.provider@ != "hyperliquid"@ {
            instrument == Err::<Instrument, ProviderError>(
                ProviderError::Configuration("instrument is not valid for Hyperliquid"),
            )
        } else if spec.venue is Some && spec.market != Market::Perpetual {
            instrument == Err::<Instrument, ProviderError>(
                ProviderError::Configuration(
                    "HIP-3 builder DEX markets are perpetual-only; use `hyperliquid:<dex>:<coin>.p`",
                ),
            )
        } else {
            match local {
                None => instrument == Err::<Instrument, ProviderError>(
                    ProviderError::Configuration("instrument is not valid for Hyperliquid"),
                ),
                Some(local) => instrument matches Ok(found) && found.provider == spec.provider
                    && found.quote == local.quote && (
                    found.market,
                    found.base@,
                    found.provider_symbol@,
                ) == remapped(
                    spec.market,
                    crate::provider::runtime::endpoint::text_view(spec.venue),
                    local.base@,
                    local.quote@,
                ),
            }
        },
{
    if !same_text(spec.provider.as_str(), "hyperliquid") {
        return Err(ProviderError::Configuration("instrument is not valid for Hyperliquid"));
    }
    if spec.venue.is_some() && spec.market != Market::Perpetual {
        return Err(
            ProviderError::Configuration(
                "HIP-3 builder DEX markets are perpetual-only; use `hyperliquid:<dex>:<coin>.p`",
            ),
        );
    }
    match local {
        None => Err(ProviderError::Configuration("instrument is not valid for Hyperliquid")),
        Some(local) => Ok(remap_instrument(spec, local)),
    }
}

/// The stream passes candles on in order: nothing that is passed on opens before what was retained,
/// what is retained never goes back, and a candle is said to be closed only when a later one comes,
/// with the numbers that it was last reported with.
pub proof fn law_stream_moves_forward(held: Candle, candidate: Candle, place: int)
    ensures
        advanced(Some(held), candidate).0 matches Some(next) && held.opens_at() <= next.opens_at(),
        0 <= place < advanced(Some(held), candidate).1.len() ==> {
            let passed = advanced(Some(held), candidate).1[place];
            &&& held.opens_at() <= passed.opens_at()
            &&& passed.authority == crate::candle::FinalityAuthority::WsAuthoritativeClosed
                && candidate.authority != crate::candle::FinalityAuthority::WsAuthoritativeClosed
                ==> passed.values == held.values && held.opens_at() < candidate.opens_at()
        },
{
}

/// A candle that says nothing new is not passed on, however often it comes.
pub proof fn law_repeated_candle_is_silent(retained: Option<Candle>, candidate: Candle)
    requires
        retained matches Some(held) ==> held.opens_at() <= candidate.opens_at(),
    ensures
        advanced(advanced(retained, candidate).0, candidate).1 == Seq::<Candle>::empty(),
{
}

/// An answer of history never holds more candles than were asked for, and they open one after
/// another.
pub proof fn law_history_is_bounded_and_ordered(
    terms: CandleDecodeContext,
    rows: Seq<HlCandle>,
    i: int,
    j: int,
)
    requires
        all_candles(terms, rows),
    ensures
        kept(terms.kind, terms.requested_limit as int, candles_of(terms, rows)).len()
            <= terms.requested_limit,
        0 <= i < j < kept(
            terms.kind,
            terms.requested_limit as int,
            candles_of(terms, rows),
        ).len() ==> kept(
            terms.kind,
            terms.requested_limit as int,
            candles_of(terms, rows),
        )[i].opens_at() < kept(
            terms.kind,
            terms.requested_limit as int,
            candles_of(terms, rows),
        )[j].opens_at(),
{
    let candles = candles_of(terms, rows);
    let from: int = if candles.len() <= terms.requested_limit || terms.kind
        == HistoryRequestKind::Gap {
        0
    } else {
        candles.len() - terms.requested_limit
    };
    if 0 <= i < j < kept(terms.kind, terms.requested_limit as int, candles).len() {
        lemma_rows_rise(terms, rows, from + i, from + j);
    }
}

proof fn lemma_rows_rise(terms: CandleDecodeContext, rows: Seq<HlCandle>, i: int, j: int)
    requires
        all_candles(terms, rows),
        0 <= i < j < rows.len(),
    ensures
        candles_of(terms, rows)[i].opens_at() < candles_of(terms, rows)[j].opens_at(),
    decreases j - i,
{
    assert(row_candle(terms, rows, j) is Ok);
    assert(row_candle(terms, rows, j - 1) is Ok);
    if i < j - 1 {
        lemma_rows_rise(terms, rows, i, j - 1);
    }
}

} // verus!
