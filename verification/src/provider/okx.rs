//! OKX Spot and Perpetual: history rows and candle frames.
use std::collections::VecDeque;
use std::time::Duration;

use vstd::prelude::*;

use crate::calendar::{fixed_timeframe_milliseconds, Grid};
use crate::candle::{Candle, CandleValues, Decimal};
use crate::clock::{checked_deadline, is_within_millis};
use crate::error::{
    ErrorContext, ErrorOperation, PayloadError, ProviderError, SanitizedMessage, TimeoutKind,
};
use crate::json::{json_get, json_items, json_text, member_text, parse_json, quote_json};
use crate::model::{
    HistoryRequest, HistoryRequestKind, Instrument, InstrumentSpec, Market, MonoInstant,
    ProviderCapabilities, Timeframe,
};
use crate::provider::runtime::config::{
    ConnectionRotation, LiveSupervisorConfig, ProcessBlockPolicy, ReconciliationLimits,
    ReconciliationPolicy, WsConfig,
};
use crate::provider::runtime::endpoint::{validate_websocket_base, HostAddress, UrlParts};
use crate::provider::runtime::frame::{DecodedFrame, ReadinessInput, WsMessage, WsOutcome};
use crate::provider::runtime::http::{
    payload, QueryField, RateLimitDecision, RATE_LIMIT_FALLBACK_MILLIS, REST_BODY_LIMIT,
    REST_REQUEST_TIMEOUT_MILLIS,
};
use crate::provider::runtime::live::{LiveMarket, LiveSocketEvent};
use crate::provider::runtime::ready::ReadyStep;
use crate::provider::runtime::websocket::contextualize_websocket_configuration;
use crate::saturate::{difference, sum};
use crate::text::{i64_text, matches_text, parse_i64, same_text, u64_text};

verus! {

pub const CANDLES_PATH: &'static str = "/api/v5/market/candles";

pub const HISTORY_CANDLES_PATH: &'static str = "/api/v5/market/history-candles";

pub const PRODUCTION_REST_BASE: &'static str = "https://openapi.okx.com";

pub const PRODUCTION_WS_BASE: &'static str = "wss://ws.okx.com:8443/ws/v5/business";

pub const OKX_MAX_RESPONSE_ROWS: usize = 300;

pub const HISTORY_PAGE_LIMIT: u16 = 300;

pub const UNSUPPORTED_TIMEFRAME: &'static str = "OKX does not support the 8h timeframe";

pub const SUBSCRIBE_ACK_TIMEOUT_MILLIS: u64 = 10_000;

pub const APPLICATION_HEARTBEAT_INTERVAL_MILLIS: u64 = 20_000;

pub const MESSAGE_INACTIVITY_TIMEOUT_MILLIS: u64 = 30_000;

pub const MAX_FUTURE_CANDLE_SKEW_MILLIS: i64 = 300_000;

pub const MAX_GAP_RECONCILIATION_CANDLES: usize = 64_000;

pub const MAX_GAP_RECONCILIATION_PAGES: usize = 214;

pub const MAX_PRE_ACK_CANDLES: usize = 16;

/// Monday, 5 January 1970: weeks open on Mondays.
pub const WEEK_ORIGIN_MILLIS: i64 = 345_600_000;

/// What keeps the connection alive.
pub const HEARTBEAT_MESSAGE: &'static str = "ping";

/// The number of fields in a row.
pub const ROW_FIELDS: usize = 9;

/// The code by which the provider says that it has had enough.
pub const LIMITED_CODE: &'static str = "50011";

/// The code by which the provider says that it does not know a market.
pub const INVALID_SYMBOL_CODE: i64 = 51001;

pub open spec fn supported(timeframe: Timeframe) -> bool {
    timeframe != Timeframe::Hour8
}

pub fn reject_unsupported_timeframe(timeframe: Timeframe) -> (checked: Result<(), ProviderError>)
    ensures
        checked == (if supported(timeframe) {
            Ok::<(), ProviderError>(())
        } else {
            Err(ProviderError::Configuration(UNSUPPORTED_TIMEFRAME))
        }),
{
    if timeframe == Timeframe::Hour8 {
        return Err(ProviderError::Configuration(UNSUPPORTED_TIMEFRAME));
    }
    Ok(())
}

/// What the provider calls a period.
pub open spec fn bar_name(timeframe: Timeframe) -> Option<&'static str> {
    match timeframe {
        Timeframe::Second1 => Some("1s"),
        Timeframe::Minute1 => Some("1m"),
        Timeframe::Minute3 => Some("3m"),
        Timeframe::Minute5 => Some("5m"),
        Timeframe::Minute15 => Some("15m"),
        Timeframe::Minute30 => Some("30m"),
        Timeframe::Hour1 => Some("1H"),
        Timeframe::Hour2 => Some("2H"),
        Timeframe::Hour4 => Some("4H"),
        Timeframe::Hour6 => Some("6Hutc"),
        Timeframe::Hour8 => None,
        Timeframe::Hour12 => Some("12Hutc"),
        Timeframe::Day1 => Some("1Dutc"),
        Timeframe::Day3 => Some("3Dutc"),
        Timeframe::Week1 => Some("1Wutc"),
        Timeframe::Month1 => Some("1Mutc"),
    }
}

pub fn bar(timeframe: Timeframe) -> (name: Result<&'static str, ProviderError>)
    ensures
        name == (match bar_name(timeframe) {
            Some(name) => Ok::<&'static str, ProviderError>(name),
            None => Err(ProviderError::Configuration(UNSUPPORTED_TIMEFRAME)),
        }),
{
    match timeframe {
        Timeframe::Second1 => Ok("1s"),
        Timeframe::Minute1 => Ok("1m"),
        Timeframe::Minute3 => Ok("3m"),
        Timeframe::Minute5 => Ok("5m"),
        Timeframe::Minute15 => Ok("15m"),
        Timeframe::Minute30 => Ok("30m"),
        Timeframe::Hour1 => Ok("1H"),
        Timeframe::Hour2 => Ok("2H"),
        Timeframe::Hour4 => Ok("4H"),
        Timeframe::Hour6 => Ok("6Hutc"),
        Timeframe::Hour8 => Err(ProviderError::Configuration(UNSUPPORTED_TIMEFRAME)),
        Timeframe::Hour12 => Ok("12Hutc"),
        Timeframe::Day1 => Ok("1Dutc"),
        Timeframe::Day3 => Ok("3Dutc"),
        Timeframe::Week1 => Ok("1Wutc"),
        Timeframe::Month1 => Ok("1Mutc"),
    }
}

/// The stream that carries the candles of a period.
pub open spec fn channel_name(timeframe: Timeframe) -> Option<&'static str> {
    match timeframe {
        Timeframe::Second1 => Some("candle1s"),
        Timeframe::Minute1 => Some("candle1m"),
        Timeframe::Minute3 => Some("candle3m"),
        Timeframe::Minute5 => Some("candle5m"),
        Timeframe::Minute15 => Some("candle15m"),
        Timeframe::Minute30 => Some("candle30m"),
        Timeframe::Hour1 => Some("candle1H"),
        Timeframe::Hour2 => Some("candle2H"),
        Timeframe::Hour4 => Some("candle4H"),
        Timeframe::Hour6 => Some("candle6Hutc"),
        Timeframe::Hour8 => None,
        Timeframe::Hour12 => Some("candle12Hutc"),
        Timeframe::Day1 => Some("candle1Dutc"),
        Timeframe::Day3 => Some("candle3Dutc"),
        Timeframe::Week1 => Some("candle1Wutc"),
        Timeframe::Month1 => Some("candle1Mutc"),
    }
}

pub fn channel(timeframe: Timeframe) -> (name: Result<&'static str, ProviderError>)
    ensures
        name == (match channel_name(timeframe) {
            Some(name) => Ok::<&'static str, ProviderError>(name),
            None => Err(ProviderError::Configuration(UNSUPPORTED_TIMEFRAME)),
        }),
{
    match timeframe {
        Timeframe::Second1 => Ok("candle1s"),
        Timeframe::Minute1 => Ok("candle1m"),
        Timeframe::Minute3 => Ok("candle3m"),
        Timeframe::Minute5 => Ok("candle5m"),
        Timeframe::Minute15 => Ok("candle15m"),
        Timeframe::Minute30 => Ok("candle30m"),
        Timeframe::Hour1 => Ok("candle1H"),
        Timeframe::Hour2 => Ok("candle2H"),
        Timeframe::Hour4 => Ok("candle4H"),
        Timeframe::Hour6 => Ok("candle6Hutc"),
        Timeframe::Hour8 => Err(ProviderError::Configuration(UNSUPPORTED_TIMEFRAME)),
        Timeframe::Hour12 => Ok("candle12Hutc"),
        Timeframe::Day1 => Ok("candle1Dutc"),
        Timeframe::Day3 => Ok("candle3Dutc"),
        Timeframe::Week1 => Ok("candle1Wutc"),
        Timeframe::Month1 => Ok("candle1Mutc"),
    }
}

/// The grid on which periods open.
pub open spec fn period_grid(timeframe: Timeframe) -> Grid {
    match crate::calendar::fixed_period(timeframe) {
        Some(period) => Grid::Fixed {
            period: period as i64,
            origin: if timeframe == Timeframe::Week1 {
                WEEK_ORIGIN_MILLIS
            } else {
                0
            },
        },
        None => Grid::Months,
    }
}

/// When the period after the one that opens at a time opens.
pub open spec fn next_open(timeframe: Timeframe, open_time: i64) -> Option<i64> {
    if supported(timeframe) {
        period_grid(timeframe).next_open(open_time)
    } else {
        None
    }
}

pub fn timeframe_successor_open(timeframe: Timeframe, open_time: i64) -> (next: Option<i64>)
    ensures
        next == next_open(timeframe, open_time),
        next matches Some(following) ==> open_time < following,
{
    if timeframe == Timeframe::Hour8 {
        return None;
    }
    let grid = match fixed_timeframe_milliseconds(timeframe) {
        Some(period) => Grid::Fixed {
            period,
            origin: if timeframe == Timeframe::Week1 {
                WEEK_ORIGIN_MILLIS
            } else {
                0
            },
        },
        None => Grid::Months,
    };
    let next = grid.successor(open_time);
    proof {
        if let Some(following) = next {
            crate::calendar::law_successor_is_later_and_single(
                grid,
                open_time as int,
                following as int,
                following as int,
            );
        }
    }
    next
}

/// The opening time so many periods later.
pub open spec fn opens_after(timeframe: Timeframe, start: i64, periods: nat) -> Option<i64>
    decreases periods,
{
    if periods == 0 {
        Some(start)
    } else {
        match opens_after(timeframe, start, (periods - 1) as nat) {
            Some(time) => next_open(timeframe, time),
            None => None,
        }
    }
}

/// The last opening time of a page that starts at a time: as many periods as the page has rows, all
/// of them whole.
pub open spec fn page_upper(timeframe: Timeframe, start: i64, limit: u16) -> Option<i64> {
    let periods: nat = if limit == 0 {
        0
    } else {
        (limit - 1) as nat
    };
    if opens_after(timeframe, start, periods + 1) is Some {
        opens_after(timeframe, start, periods)
    } else {
        None
    }
}

proof fn lemma_page_needs_each_period(timeframe: Timeframe, start: i64, fewer: nat, more: nat)
    requires
        fewer <= more,
        opens_after(timeframe, start, fewer) is None,
    ensures
        opens_after(timeframe, start, more) is None,
    decreases more,
{
    if fewer < more {
        lemma_page_needs_each_period(timeframe, start, fewer, (more - 1) as nat);
    }
}

pub fn page_upper_bound(timeframe: Timeframe, start: i64, limit: u16) -> (bound: Result<
    i64,
    ProviderError,
>)
    ensures
        bound == (match page_upper(timeframe, start, limit) {
            Some(upper) => Ok::<i64, ProviderError>(upper),
            None => Err(ProviderError::Configuration("OKX history gap start is off grid")),
        }),
{
    let mut upper: i64 = start;
    let mut count: u16 = 1;
    while count < limit
        invariant
            count <= limit || count == 1,
            count >= 1,
            opens_after(timeframe, start, (count - 1) as nat) == Some(upper),
        decreases limit - count,
    {
        match timeframe_successor_open(timeframe, upper) {
            Some(next) => {
                upper = next;
            },
            None => {
                proof {
                    assert(opens_after(timeframe, start, count as nat) is None);
                    lemma_page_needs_each_period(timeframe, start, count as nat, limit as nat);
                }
                return Err(ProviderError::Configuration("OKX history gap start is off grid"));
            },
        }
        count += 1;
    }
    match timeframe_successor_open(timeframe, upper) {
        Some(_) => Ok(upper),
        None => Err(ProviderError::Configuration("OKX history gap start is off grid")),
    }
}

/// The terms of a live feed.
#[derive(Clone, Copy, Debug, PartialEq, Eq)]
pub struct OkxLiveConfig {
    pub supervisor: LiveSupervisorConfig,
    pub subscribe_ack_timeout: Duration,
    pub application_heartbeat_interval_for_test: Duration,
}

impl OkxLiveConfig {
    /// Whether these are the usual terms.
    pub open spec fn usual(self) -> bool {
        &&& self.supervisor.usual()
        &&& crate::clock::duration_nanos(self.supervisor.ws_config.message_inactivity_timeout)
            == 30_000_000_000
        &&& crate::clock::duration_nanos(self.subscribe_ack_timeout) == 10_000_000_000
        &&& crate::clock::duration_nanos(self.application_heartbeat_interval_for_test)
            == 20_000_000_000
    }

    /// The first rule that a configuration breaks, if it breaks one.
    pub open spec fn fault(self) -> Option<&'static str> {
        if self.supervisor.fault() is Some {
            self.supervisor.fault()
        } else if !crate::clock::within_millis(self.subscribe_ack_timeout, 1, 60_000) {
            Some("subscribe acknowledgement timeout is outside 1ms..=60s")
        } else if !crate::clock::within_millis(
            self.application_heartbeat_interval_for_test,
            1,
            60_000,
        ) {
            Some("application heartbeat interval is outside 1ms..=60s")
        } else {
            None
        }
    }

    pub fn validate(&self) -> (validated: Result<(), ProviderError>)
        ensures
            validated == (match self.fault() {
                None => Ok::<(), ProviderError>(()),
                Some(detail) => Err(ProviderError::Configuration(detail)),
            }),
    {
        match self.supervisor.validate() {
            Ok(()) => {},
            Err(error) => {
                return Err(error);
            },
        }
        if !is_within_millis(self.subscribe_ack_timeout, 1, 60_000) {
            return Err(
                ProviderError::Configuration(
                    "subscribe acknowledgement timeout is outside 1ms..=60s",
                ),
            );
        }
        if !is_within_millis(self.application_heartbeat_interval_for_test, 1, 60_000) {
            return Err(
                ProviderError::Configuration("application heartbeat interval is outside 1ms..=60s"),
            );
        }
        Ok(())
    }
}

impl Default for OkxLiveConfig {
    fn default() -> (config: Self)
        ensures
            config.fault() is None,
            config.usual(),
    {
        let mut supervisor = LiveSupervisorConfig::default();
        supervisor.ws_config.message_inactivity_timeout = Duration::from_millis(
            MESSAGE_INACTIVITY_TIMEOUT_MILLIS,
        );
        OkxLiveConfig {
            supervisor,
            subscribe_ack_timeout: Duration::from_millis(SUBSCRIBE_ACK_TIMEOUT_MILLIS),
            application_heartbeat_interval_for_test: Duration::from_millis(
                APPLICATION_HEARTBEAT_INTERVAL_MILLIS,
            ),
        }
    }
}

/// How a test reaches a server of its own.
#[derive(Debug, PartialEq, Eq)]
pub struct OkxTestConfig {
    pub base_url: String,
    pub request_timeout: Duration,
    pub body_limit: usize,
    pub rate_limit_fallback: Duration,
    pub now_ms: Option<i64>,
}

impl OkxTestConfig {
    pub fn loopback(base_url: String) -> (config: OkxTestConfig)
        ensures
            config.base_url == base_url,
            crate::clock::duration_nanos(config.request_timeout) == 10_000_000_000,
            config.body_limit == REST_BODY_LIMIT,
            crate::clock::duration_nanos(config.rate_limit_fallback) == 30_000_000_000,
            config.now_ms is None,
    {
        OkxTestConfig {
            base_url,
            request_timeout: Duration::from_millis(REST_REQUEST_TIMEOUT_MILLIS),
            body_limit: REST_BODY_LIMIT,
            rate_limit_fallback: Duration::from_millis(RATE_LIMIT_FALLBACK_MILLIS),
            now_ms: None,
        }
    }

    pub fn with_websocket_base(self, base_url: String) -> (config: OkxLiveTestConfig)
        ensures
            config.rest == self,
            config.ws_base_url == base_url,
            config.live.fault() is None,
            config.live.usual(),
    {
        OkxLiveTestConfig { rest: self, ws_base_url: base_url, live: OkxLiveConfig::default() }
    }
}

#[derive(Debug, PartialEq, Eq)]
pub struct OkxLiveTestConfig {
    pub rest: OkxTestConfig,
    pub ws_base_url: String,
    pub live: OkxLiveConfig,
}

pub fn process_block() -> (policy: ProcessBlockPolicy)
    ensures
        policy == ProcessBlockPolicy::Forbidden("Okx rate gate cannot be process-blocked"),
{
    ProcessBlockPolicy::Forbidden("Okx rate gate cannot be process-blocked")
}

pub fn connection_rotation() -> (rotation: ConnectionRotation)
    ensures
        rotation == ConnectionRotation::Never,
{
    ConnectionRotation::Never
}

/// How far one generation may reconcile.
pub fn reconciliation() -> (policy: ReconciliationPolicy)
    ensures
        policy matches ReconciliationPolicy::Bounded(limits) && limits.max_successors
            == MAX_GAP_RECONCILIATION_CANDLES && limits.max_pages == MAX_GAP_RECONCILIATION_PAGES
            && limits.span_exceeded
            == "Okx gap reconciliation target exceeds the per-generation span limit"
            && limits.page_exceeded
            == "Okx gap reconciliation exceeded the per-generation page limit"
            && limits.distinct_exceeded
            == "Okx gap reconciliation exceeded the distinct buffered-candle limit",
{
    ReconciliationPolicy::Bounded(
        ReconciliationLimits {
            max_successors: MAX_GAP_RECONCILIATION_CANDLES,
            max_pages: MAX_GAP_RECONCILIATION_PAGES,
            span_exceeded: "Okx gap reconciliation target exceeds the per-generation span limit",
            page_exceeded: "Okx gap reconciliation exceeded the per-generation page limit",
            distinct_exceeded:
                "Okx gap reconciliation exceeded the distinct buffered-candle limit",
        },
    )
}

pub fn capabilities() -> (offered: ProviderCapabilities)
    ensures
        offered.history_page_limit == HISTORY_PAGE_LIMIT,
        offered.markets@ == seq![Market::Spot, Market::Perpetual],
        offered.timeframes@ == seq![
            Timeframe::Second1,
            Timeframe::Minute1,
            Timeframe::Minute3,
            Timeframe::Minute5,
            Timeframe::Minute15,
            Timeframe::Minute30,
            Timeframe::Hour1,
            Timeframe::Hour2,
            Timeframe::Hour4,
            Timeframe::Hour6,
            Timeframe::Hour12,
            Timeframe::Day1,
            Timeframe::Day3,
            Timeframe::Week1,
            Timeframe::Month1,
        ],
        forall|timeframe: Timeframe| #[trigger]
            offered.timeframes@.contains(timeframe) <==> supported(timeframe),
{
    let mut markets: Vec<Market> = Vec::new();
    markets.push(Market::Spot);
    markets.push(Market::Perpetual);
    assert(markets@ =~= seq![Market::Spot, Market::Perpetual]);
    let mut timeframes: Vec<Timeframe> = Vec::new();
    timeframes.push(Timeframe::Second1);
    timeframes.push(Timeframe::Minute1);
    timeframes.push(Timeframe::Minute3);
    timeframes.push(Timeframe::Minute5);
    timeframes.push(Timeframe::Minute15);
    timeframes.push(Timeframe::Minute30);
    timeframes.push(Timeframe::Hour1);
    timeframes.push(Timeframe::Hour2);
    timeframes.push(Timeframe::Hour4);
    timeframes.push(Timeframe::Hour6);
    timeframes.push(Timeframe::Hour12);
    timeframes.push(Timeframe::Day1);
    timeframes.push(Timeframe::Day3);
    timeframes.push(Timeframe::Week1);
    timeframes.push(Timeframe::Month1);
    proof {
        let list = timeframes@;
        assert forall|timeframe: Timeframe| supported(timeframe) implies #[trigger] list.contains(
            timeframe,
        ) by {
            let place: int = match timeframe {
                Timeframe::Second1 => 0,
                Timeframe::Minute1 => 1,
                Timeframe::Minute3 => 2,
                Timeframe::Minute5 => 3,
                Timeframe::Minute15 => 4,
                Timeframe::Minute30 => 5,
                Timeframe::Hour1 => 6,
                Timeframe::Hour2 => 7,
                Timeframe::Hour4 => 8,
                Timeframe::Hour6 => 9,
                Timeframe::Hour12 => 10,
                Timeframe::Day1 => 11,
                Timeframe::Day3 => 12,
                Timeframe::Week1 => 13,
                _ => 14,
            };
            assert(list[place] == timeframe);
        }
    }
    ProviderCapabilities { markets, timeframes, history_page_limit: HISTORY_PAGE_LIMIT }
}

#[derive(Debug, PartialEq)]
pub enum OkxDecoded {
    Candle(Candle),
    SubscribeAccepted { buffered: Vec<Candle> },
    ApplicationPong,
}

impl WsOutcome for OkxDecoded {
    open spec fn rank(self) -> int {
        match self {
            OkxDecoded::Candle(_) => 1,
            OkxDecoded::SubscribeAccepted { .. } => 2,
            OkxDecoded::ApplicationPong => 255,
        }
    }

    fn readiness_priority(&self) -> (priority: u8) {
        match self {
            OkxDecoded::Candle(_) => 1,
            OkxDecoded::SubscribeAccepted { .. } => 2,
            OkxDecoded::ApplicationPong => 255,
        }
    }
}

/// A field of a row: its text, where it is a text, and the finite number that the text spells, where
/// it spells one.
#[derive(Debug, PartialEq)]
pub struct OkxField {
    pub text: Option<String>,
    pub number: Option<Decimal>,
}

/// The text of a field.
pub open spec fn field_text(field: OkxField) -> Option<Seq<char>> {
    crate::provider::runtime::endpoint::text_view(field.text)
}

/// The number of a field, where it must not be negative.
pub open spec fn is_volume(field: OkxField) -> bool {
    field.number matches Some(number) && number.place() >= 0
}

pub open spec fn malformed(context: ErrorContext) -> ProviderError {
    crate::provider::runtime::http::payload_error(context, PayloadError::MalformedProtocol)
}

pub open spec fn bad_field(context: ErrorContext, field: &'static str) -> ProviderError {
    crate::provider::runtime::http::payload_error(context, PayloadError::InvalidField { field })
}

pub open spec fn wrong_arity(context: ErrorContext, actual: usize) -> ProviderError {
    crate::provider::runtime::http::payload_error(
        context,
        PayloadError::WrongArity { expected: ROW_FIELDS, actual },
    )
}

/// What a row is read against.
#[derive(Debug, PartialEq, Eq)]
pub struct RowTerms {
    pub market: Market,
    pub timeframe: Timeframe,
    pub context: ErrorContext,
    pub from_websocket: bool,
    pub now_ms: i64,
}

/// The times of a row: when its period opens and closes.
pub open spec fn row_times(terms: RowTerms, fields: Seq<OkxField>) -> Result<
    (i64, i64),
    ProviderError,
> {
    let stamp = match field_text(fields[0]) {
        Some(text) => crate::text::signed_value(text),
        None => None,
    };
    match stamp {
        None => Err(bad_field(terms.context, "timestamp")),
        Some(open_time) => match next_open(terms.timeframe, open_time) {
            None => Err(malformed(terms.context)),
            Some(next) => if terms.now_ms + MAX_FUTURE_CANDLE_SKEW_MILLIS > i64::MAX {
                Err(ProviderError::Invariant("future candle bound overflow"))
            } else if open_time > terms.now_ms + MAX_FUTURE_CANDLE_SKEW_MILLIS {
                Err(malformed(terms.context))
            } else {
                Ok((open_time, (next - 1) as i64))
            },
        },
    }
}

/// The first field of a row that is not what it should be, times aside.
pub open spec fn row_fault(fields: Seq<OkxField>) -> Option<&'static str> {
    if field_text(fields[8]) != Some("0"@) && field_text(fields[8]) != Some("1"@) {
        Some("confirm")
    } else if fields[1].number is None {
        Some("open")
    } else if fields[2].number is None {
        Some("high")
    } else if fields[3].number is None {
        Some("low")
    } else if fields[4].number is None {
        Some("close")
    } else if !is_volume(fields[5]) {
        Some("volume")
    } else if !is_volume(fields[6]) {
        Some("volume_currency")
    } else if !is_volume(fields[7]) {
        Some("quote_volume")
    } else {
        None
    }
}

/// The candle that a row is.
pub open spec fn row_candle(terms: RowTerms, fields: Seq<OkxField>) -> Result<
    Candle,
    ProviderError,
> {
    if fields.len() != ROW_FIELDS {
        Err(wrong_arity(terms.context, fields.len() as usize))
    } else {
        match row_times(terms, fields) {
            Err(error) => Err(error),
            Ok((open_time, close_time)) => match row_fault(fields) {
                Some(field) => Err(bad_field(terms.context, field)),
                None => {
                    let values = CandleValues {
                        open_time,
                        close_time,
                        open: fields[1].number->0,
                        high: fields[2].number->0,
                        low: fields[3].number->0,
                        close: fields[4].number->0,
                        base_volume: match terms.market {
                            Market::Spot => fields[5].number->0,
                            Market::Perpetual => fields[6].number->0,
                        },
                    };
                    let made = if terms.from_websocket {
                        Candle::streamed(values, field_text(fields[8]) == Some("1"@))
                    } else {
                        Candle::recorded(values)
                    };
                    match made {
                        Ok(candle) => Ok(candle),
                        Err(source) => Err(
                            ProviderError::Domain { context: terms.context, source },
                        ),
                    }
                },
            },
        }
    }
}

fn invalid_field(context: &ErrorContext, field: &'static str) -> (error: ProviderError)
    ensures
        error == bad_field(*context, field),
{
    payload(context, PayloadError::InvalidField { field })
}

fn read_row_times(terms: &RowTerms, fields: &Vec<OkxField>) -> (times: Result<
    (i64, i64),
    ProviderError,
>)
    requires
        fields@.len() == ROW_FIELDS,
    ensures
        times == row_times(*terms, fields@),
{
    let stamp = match &fields[0].text {
        Some(text) => parse_i64(text.as_str()),
        None => None,
    };
    let open_time: i64 = match stamp {
        Some(time) => time,
        None => {
            return Err(invalid_field(&terms.context, "timestamp"));
        },
    };
    let close_time: i64 = match timeframe_successor_open(terms.timeframe, open_time) {
        Some(next) => next - 1,
        None => {
            return Err(payload(&terms.context, PayloadError::MalformedProtocol));
        },
    };
    let future_limit: i64 = match terms.now_ms.checked_add(MAX_FUTURE_CANDLE_SKEW_MILLIS) {
        Some(limit) => limit,
        None => {
            return Err(ProviderError::Invariant("future candle bound overflow"));
        },
    };
    if open_time > future_limit {
        return Err(payload(&terms.context, PayloadError::MalformedProtocol));
    }
    Ok((open_time, close_time))
}

fn read_number(field: &OkxField, name: &'static str, context: &ErrorContext) -> (number: Result<
    Decimal,
    ProviderError,
>)
    ensures
        number == (match field.number {
            Some(number) => Ok::<Decimal, ProviderError>(number),
            None => Err(bad_field(*context, name)),
        }),
{
    match field.number {
        Some(number) => Ok(number),
        None => Err(invalid_field(context, name)),
    }
}

fn read_volume(field: &OkxField, name: &'static str, context: &ErrorContext) -> (number: Result<
    Decimal,
    ProviderError,
>)
    ensures
        number == (if is_volume(*field) {
            Ok::<Decimal, ProviderError>(field.number->0)
        } else {
            Err(bad_field(*context, name))
        }),
{
    match field.number {
        Some(number) => {
            if number.is_nonnegative() {
                return Ok(number);
            }
            Err(invalid_field(context, name))
        },
        None => Err(invalid_field(context, name)),
    }
}

/// Reads one row, of history or of the stream.
pub fn decode_okx_row(terms: &RowTerms, fields: &Vec<OkxField>) -> (candle: Result<
    Candle,
    ProviderError,
>)
    ensures
        candle == row_candle(*terms, fields@),
{
    let context = &terms.context;
    if fields.len() != ROW_FIELDS {
        return Err(
            payload(
                context,
                PayloadError::WrongArity { expected: ROW_FIELDS, actual: fields.len() },
            ),
        );
    }
    let (open_time, close_time) = match read_row_times(terms, fields) {
        Ok(times) => times,
        Err(error) => {
            return Err(error);
        },
    };
    let closed = if matches_text(&fields[8].text, "0") {
        false
    } else if matches_text(&fields[8].text, "1") {
        true
    } else {
        return Err(invalid_field(context, "confirm"));
    };
    proof {
        reveal_strlit("0");
        reveal_strlit("1");
        assert("0"@[0] != "1"@[0]);
    }
    let open = match read_number(&fields[1], "open", context) {
        Ok(number) => number,
        Err(error) => {
            return Err(error);
        },
    };
    let high = match read_number(&fields[2], "high", context) {
        Ok(number) => number,
        Err(error) => {
            return Err(error);
        },
    };
    let low = match read_number(&fields[3], "low", context) {
        Ok(number) => number,
        Err(error) => {
            return Err(error);
        },
    };
    let close = match read_number(&fields[4], "close", context) {
        Ok(number) => number,
        Err(error) => {
            return Err(error);
        },
    };
    let spot_volume = match read_volume(&fields[5], "volume", context) {
        Ok(number) => number,
        Err(error) => {
            return Err(error);
        },
    };
    let swap_volume = match read_volume(&fields[6], "volume_currency", context) {
        Ok(number) => number,
        Err(error) => {
            return Err(error);
        },
    };
    match read_volume(&fields[7], "quote_volume", context) {
        Ok(_) => {},
        Err(error) => {
            return Err(error);
        },
    }
    let base_volume = match terms.market {
        Market::Spot => spot_volume,
        Market::Perpetual => swap_volume,
    };
    let values = CandleValues { open_time, close_time, open, high, low, close, base_volume };
    let made = if terms.from_websocket {
        Candle::from_ws(values, closed)
    } else {
        Candle::from_rest(values)
    };
    match made {
        Ok(candle) => Ok(candle),
        Err(source) => Err(ProviderError::Domain { context: context.clone(), source }),
    }
}

/// A row of the stream: its fields, where it is a row at all.
#[derive(Debug, PartialEq)]
pub struct OkxRow {
    pub fields: Option<Vec<OkxField>>,
}

/// The texts of a row's fields.
pub open spec fn row_texts(row: OkxRow) -> Option<Seq<Option<Seq<char>>>> {
    match row.fields {
        Some(fields) => Some(fields@.map_values(|field: OkxField| field_text(field))),
        None => None,
    }
}

/// Whether no number of a row has been read yet.
pub open spec fn is_unread(row: OkxRow) -> bool {
    row.fields matches Some(fields) ==> forall|i: int|
        0 <= i < fields@.len() ==> (#[trigger] fields@[i]).number is None
}

/// The texts of the fields of a JSON array.
pub open spec fn json_texts(value: crate::json::JsonView) -> Option<Seq<Option<Seq<char>>>> {
    match value {
        crate::json::JsonView::Array(items) => Some(
            items.map_values(|item: crate::json::JsonView| item.text()),
        ),
        _ => None,
    }
}

/// The head of a message, and its rows.
#[derive(Debug, PartialEq)]
pub struct OkxHead {
    pub event: Option<String>,
    pub code: Option<String>,
    pub id: Option<String>,
    pub has_arg: bool,
    pub channel: Option<String>,
    pub inst_id: Option<String>,
    pub rows: Option<Vec<OkxRow>>,
}

#[verifier::ext_equal]
pub struct OkxHeadView {
    pub event: Option<Seq<char>>,
    pub code: Option<Seq<char>>,
    pub id: Option<Seq<char>>,
    pub has_arg: bool,
    pub channel: Option<Seq<char>>,
    pub inst_id: Option<Seq<char>>,
    pub rows: Option<Seq<Option<Seq<Option<Seq<char>>>>>>,
}

impl View for OkxHead {
    type V = OkxHeadView;

    open spec fn view(&self) -> OkxHeadView {
        OkxHeadView {
            event: crate::provider::runtime::endpoint::text_view(self.event),
            code: crate::provider::runtime::endpoint::text_view(self.code),
            id: crate::provider::runtime::endpoint::text_view(self.id),
            has_arg: self.has_arg,
            channel: crate::provider::runtime::endpoint::text_view(self.channel),
            inst_id: crate::provider::runtime::endpoint::text_view(self.inst_id),
            rows: match self.rows {
                Some(rows) => Some(rows@.map_values(|row: OkxRow| row_texts(row))),
                None => None,
            },
        }
    }
}

/// The head of a JSON document.
pub open spec fn head_of(value: crate::json::JsonView) -> OkxHeadView {
    let arg = value.member("arg"@);
    OkxHeadView {
        event: value.member_text("event"@),
        code: value.member_text("code"@),
        id: value.member_text("id"@),
        has_arg: arg is Some,
        channel: match arg {
            Some(object) => object.member_text("channel"@),
            None => None,
        },
        inst_id: match arg {
            Some(object) => object.member_text("instId"@),
            None => None,
        },
        rows: match value.member("data"@) {
            Some(crate::json::JsonView::Array(items)) => Some(
                items.map_values(|item: crate::json::JsonView| json_texts(item)),
            ),
            _ => None,
        },
    }
}

fn owned(text: Option<&str>) -> (held: Option<String>)
    ensures
        crate::provider::runtime::endpoint::text_view(held)
            == crate::provider::runtime::http::header_view(text),
{
    match text {
        Some(text) => Some(text.to_owned()),
        None => None,
    }
}

fn read_row(value: &serde_json::Value) -> (row: OkxRow)
    ensures
        row_texts(row) == json_texts(crate::json::json_of(*value)),
        is_unread(row),
{
    match json_items(value) {
        None => OkxRow { fields: None },
        Some(items) => {
            let mut fields: Vec<OkxField> = Vec::new();
            let mut index: usize = 0;
            while index < items.len()
                invariant
                    index <= items@.len(),
                    fields@.len() == index,
                    forall|i: int|
                        0 <= i < index ==> field_text(#[trigger] fields@[i])
                            == crate::json::json_of(items@[i]).text() && fields@[i].number is None,
                decreases items@.len() - index,
            {
                fields.push(OkxField { text: owned(json_text(&items[index])), number: None });
                index += 1;
            }
            let row = OkxRow { fields: Some(fields) };
            proof {
                let views = crate::json::json_of(*value)->Array_0;
                let texts = fields@.map_values(|field: OkxField| field_text(field));
                let wanted = views.map_values(|item: crate::json::JsonView| item.text());
                assert forall|i: int| 0 <= i < texts.len() implies texts[i] == wanted[i] by {
                    assert(field_text(fields@[i]) == crate::json::json_of(items@[i]).text());
                }
                assert(texts =~= wanted);
            }
            row
        },
    }
}

fn read_rows(value: &serde_json::Value) -> (rows: Option<Vec<OkxRow>>)
    ensures
        match rows {
            Some(rows) => crate::json::json_of(*value) matches crate::json::JsonView::Array(items)
                && rows@.map_values(|row: OkxRow| row_texts(row)) == items.map_values(
                |item: crate::json::JsonView| json_texts(item),
            ) && forall|i: int| 0 <= i < rows@.len() ==> is_unread(#[trigger] rows@[i]),
            None => !(crate::json::json_of(*value) is Array),
        },
{
    let items = match json_items(value) {
        Some(items) => items,
        None => {
            return None;
        },
    };
    let mut rows: Vec<OkxRow> = Vec::new();
    let mut index: usize = 0;
    while index < items.len()
        invariant
            index <= items@.len(),
            rows@.len() == index,
            forall|i: int|
                0 <= i < index ==> row_texts(#[trigger] rows@[i]) == json_texts(
                    crate::json::json_of(items@[i]),
                ) && is_unread(rows@[i]),
        decreases items@.len() - index,
    {
        rows.push(read_row(&items[index]));
        index += 1;
    }
    proof {
        let views = crate::json::json_of(*value)->Array_0;
        let texts = rows@.map_values(|row: OkxRow| row_texts(row));
        let wanted = views.map_values(|item: crate::json::JsonView| json_texts(item));
        assert forall|i: int| 0 <= i < texts.len() implies texts[i] == wanted[i] by {
            assert(row_texts(rows@[i]) == json_texts(crate::json::json_of(items@[i])));
        }
        assert(texts =~= wanted);
    }
    Some(rows)
}

fn read_head(value: &serde_json::Value) -> (head: OkxHead)
    ensures
        head@ == head_of(crate::json::json_of(*value)),
        head.rows matches Some(rows) ==> forall|i: int|
            0 <= i < rows@.len() ==> is_unread(#[trigger] rows@[i]),
{
    let event = owned(member_text(value, "event"));
    let code = owned(member_text(value, "code"));
    let id = owned(member_text(value, "id"));
    let arg = json_get(value, "arg");
    let (channel, inst_id) = match arg {
        Some(object) => (
            owned(member_text(object, "channel")),
            owned(member_text(object, "instId")),
        ),
        None => (None, None),
    };
    let rows = match json_get(value, "data") {
        Some(data) => read_rows(data),
        None => None,
    };
    let head = OkxHead { event, code, id, has_arg: arg.is_some(), channel, inst_id, rows };
    assert(head@ =~= head_of(crate::json::json_of(*value)));
    head
}

/// What a message asks of the codec.
#[derive(Debug, PartialEq)]
pub enum Meaning {
    /// Nothing.
    Ignored,
    /// The provider answers a heartbeat.
    Pong,
    /// The provider wants the client to connect anew.
    Reconnect,
    /// The connection closes.
    Close(Option<u16>),
    /// The message is an error, or is wrong.
    Fail(ProviderError),
    /// The subscription is accepted.
    Accept,
    /// Candles, one in each row.
    Rows,
}

/// Whether the argument of a message names the subscription.
pub open spec fn names_subscription(
    head: OkxHeadView,
    instrument: Instrument,
    timeframe: Timeframe,
) -> bool {
    channel_name(timeframe) matches Some(channel) && head.channel == Some(channel@) && head.inst_id
        == Some(instrument.provider_symbol@)
}

/// What a message asks, by its head.
pub open spec fn head_meaning(
    subscribed: bool,
    head: OkxHeadView,
    instrument: Instrument,
    timeframe: Timeframe,
    context: ErrorContext,
) -> Meaning {
    if head.event == Some("notice"@) {
        if head.code == Some("64008"@) {
            Meaning::Reconnect
        } else {
            Meaning::Ignored
        }
    } else if head.event == Some("error"@) {
        Meaning::Fail(
            ProviderError::Protocol { context, detail: "provider reported a WebSocket error" },
        )
    } else if !supported(timeframe) {
        Meaning::Fail(ProviderError::Configuration(UNSUPPORTED_TIMEFRAME))
    } else if head.event == Some("subscribe"@) {
        if subscribed || head.id != Some("fccli1"@) || !head.has_arg || !names_subscription(
            head,
            instrument,
            timeframe,
        ) {
            Meaning::Fail(malformed(context))
        } else {
            Meaning::Accept
        }
    } else if !head.has_arg {
        Meaning::Ignored
    } else if !names_subscription(head, instrument, timeframe) {
        Meaning::Fail(
            ProviderError::Protocol {
                context,
                detail: "WebSocket candle market does not match subscription",
            },
        )
    } else {
        match head.rows {
            Some(rows) => if rows.len() > OKX_MAX_RESPONSE_ROWS {
                Meaning::Fail(malformed(context))
            } else {
                Meaning::Rows
            },
            None => Meaning::Fail(malformed(context)),
        }
    }
}

pub fn classify_head(
    subscribed: bool,
    head: &OkxHead,
    instrument: &Instrument,
    timeframe: Timeframe,
    context: &ErrorContext,
) -> (meaning: Meaning)
    ensures
        meaning == head_meaning(subscribed, head@, *instrument, timeframe, *context),
{
    if matches_text(&head.event, "notice") {
        if matches_text(&head.code, "64008") {
            return Meaning::Reconnect;
        }
        return Meaning::Ignored;
    }
    if matches_text(&head.event, "error") {
        return Meaning::Fail(
            ProviderError::Protocol {
                context: context.clone(),
                detail: "provider reported a WebSocket error",
            },
        );
    }
    let expected_channel = match channel(timeframe) {
        Ok(channel) => channel,
        Err(error) => {
            return Meaning::Fail(error);
        },
    };
    let arg_matches = matches_text(&head.channel, expected_channel) && matches_text(
        &head.inst_id,
        instrument.provider_symbol(),
    );
    if matches_text(&head.event, "subscribe") {
        let exact_ack = matches_text(&head.id, "fccli1") && head.has_arg && arg_matches;
        if subscribed || !exact_ack {
            return Meaning::Fail(payload(context, PayloadError::MalformedProtocol));
        }
        return Meaning::Accept;
    }
    if !head.has_arg {
        return Meaning::Ignored;
    }
    if !arg_matches {
        return Meaning::Fail(
            ProviderError::Protocol {
                context: context.clone(),
                detail: "WebSocket candle market does not match subscription",
            },
        );
    }
    match &head.rows {
        Some(rows) => {
            if rows.len() > OKX_MAX_RESPONSE_ROWS {
                return Meaning::Fail(payload(context, PayloadError::MalformedProtocol));
            }
            Meaning::Rows
        },
        None => Meaning::Fail(payload(context, PayloadError::MalformedProtocol)),
    }
}

/// The bytes of the answer to a heartbeat.
pub open spec fn is_pong(bytes: Seq<u8>) -> bool {
    bytes =~= seq![112u8, 111u8, 110u8, 103u8]
}

/// What a payload asks.
pub open spec fn bytes_meaning(
    subscribed: bool,
    bytes: Seq<u8>,
    instrument: Instrument,
    timeframe: Timeframe,
    config: WsConfig,
) -> Meaning {
    let context = ErrorContext::of_market(ErrorOperation::WebSocket, instrument, timeframe);
    if bytes.len() > config.max_message_size {
        Meaning::Fail(
            crate::provider::runtime::http::payload_error(
                context,
                PayloadError::OverBudget { limit_bytes: config.max_message_size },
            ),
        )
    } else if is_pong(bytes) {
        Meaning::Pong
    } else {
        match crate::json::json_document(bytes) {
            None => Meaning::Fail(malformed(context)),
            Some(value) => head_meaning(
                subscribed,
                head_of(value),
                instrument,
                timeframe,
                context,
            ),
        }
    }
}

/// What a message asks.
pub open spec fn message_meaning(
    subscribed: bool,
    message: WsMessage,
    instrument: Instrument,
    timeframe: Timeframe,
    config: WsConfig,
) -> Meaning {
    match config.fault() {
        Some(detail) => Meaning::Fail(ProviderError::Configuration(detail)),
        None => match message {
            WsMessage::Text(bytes) => bytes_meaning(
                subscribed,
                bytes@,
                instrument,
                timeframe,
                config,
            ),
            WsMessage::Binary(bytes) => bytes_meaning(
                subscribed,
                bytes@,
                instrument,
                timeframe,
                config,
            ),
            WsMessage::Close(code) => Meaning::Close(code),
            _ => Meaning::Ignored,
        },
    }
}

/// The bytes that a message carries.
pub open spec fn message_bytes(message: WsMessage) -> Seq<u8> {
    match message {
        WsMessage::Text(bytes) => bytes@,
        WsMessage::Binary(bytes) => bytes@,
        _ => Seq::empty(),
    }
}

/// The rows of a document.
pub open spec fn document_rows(bytes: Seq<u8>) -> Option<Seq<Option<Seq<Option<Seq<char>>>>>> {
    match crate::json::json_document(bytes) {
        Some(value) => head_of(value).rows,
        None => None,
    }
}

/// Finds out what a payload asks, and what rows it has.
pub fn read_ws_payload(
    subscribed: bool,
    bytes: &[u8],
    instrument: &Instrument,
    timeframe: Timeframe,
    config: &WsConfig,
) -> (read: (Meaning, Vec<OkxRow>))
    ensures
        read.0 == bytes_meaning(subscribed, bytes@, *instrument, timeframe, *config),
        read.0 == Meaning::Rows ==> document_rows(bytes@) == Some(
            read.1@.map_values(|row: OkxRow| row_texts(row)),
        ),
        forall|i: int| 0 <= i < read.1@.len() ==> is_unread(#[trigger] read.1@[i]),
{
    let context = ErrorContext::market(ErrorOperation::WebSocket, instrument, timeframe);
    if bytes.len() > config.max_message_size {
        return (
            Meaning::Fail(
                payload(
                    &context,
                    PayloadError::OverBudget { limit_bytes: config.max_message_size },
                ),
            ),
            Vec::new(),
        );
    }
    if bytes.len() == 4 && bytes[0] == 112 && bytes[1] == 111 && bytes[2] == 110 && bytes[3]
        == 103 {
        assert(is_pong(bytes@));
        return (Meaning::Pong, Vec::new());
    }
    assert(!is_pong(bytes@));
    match parse_json(bytes) {
        None => (Meaning::Fail(payload(&context, PayloadError::MalformedProtocol)), Vec::new()),
        Some(value) => {
            let head = read_head(&value);
            let meaning = classify_head(subscribed, &head, instrument, timeframe, &context);
            match head.rows {
                Some(rows) => (meaning, rows),
                None => (meaning, Vec::new()),
            }
        },
    }
}

/// Reads the messages of the stream, and holds back the candles that come before the subscription is
/// accepted.
#[derive(Debug)]
pub struct OkxWsCodec {
    subscribed: bool,
    pre_ack: Vec<Candle>,
    now_ms: Option<i64>,
}

/// Whether no two candles open at one time.
pub open spec fn open_apart(candles: Seq<Candle>) -> bool {
    forall|i: int, j: int|
        0 <= i < j < candles.len() ==> (#[trigger] candles[i]).opens_at() != (
        #[trigger] candles[j]).opens_at()
}

/// What a candle makes of those held back: it replaces the one that opens with it, or joins them.
pub open spec fn held_with(held: Seq<Candle>, candle: Candle) -> Seq<Candle> {
    if exists|i: int|
        0 <= i < held.len() && (#[trigger] held[i]).opens_at() == candle.opens_at() {
        held.map_values(
            |other: Candle|
                if other.opens_at() == candle.opens_at() {
                    candle
                } else {
                    other
                },
        )
    } else {
        held.push(candle)
    }
}

/// What a row does.
pub enum RowStep {
    /// It is passed on, or held back.
    Taken(Seq<Candle>, Seq<DecodedFrame<OkxDecoded>>),
    /// It ends the reading.
    Failed(ProviderError),
}

pub open spec fn row_step(
    subscribed: bool,
    held: Seq<Candle>,
    terms: RowTerms,
    row: OkxRow,
) -> RowStep {
    match row.fields {
        None => RowStep::Failed(wrong_arity(terms.context, 0)),
        Some(fields) => match row_candle(terms, fields@) {
            Err(error) => RowStep::Failed(error),
            Ok(candle) => if subscribed {
                RowStep::Taken(held, seq![DecodedFrame::Provider(OkxDecoded::Candle(candle))])
            } else if held_with(held, candle).len() > MAX_PRE_ACK_CANDLES {
                RowStep::Failed(
                    ProviderError::Protocol {
                        context: terms.context,
                        detail: "Okx pre-ack candle buffer exceeded 16 distinct candles",
                    },
                )
            } else {
                RowStep::Taken(held_with(held, candle), Seq::empty())
            },
        },
    }
}

/// What rows do, one after another up to the first that is no candle.
pub open spec fn rows_taken(
    subscribed: bool,
    held: Seq<Candle>,
    terms: RowTerms,
    rows: Seq<OkxRow>,
) -> (Seq<Candle>, Seq<DecodedFrame<OkxDecoded>>)
    decreases rows.len(),
{
    if rows.len() == 0 {
        (held, Seq::empty())
    } else {
        match row_step(subscribed, held, terms, rows[0]) {
            RowStep::Failed(error) => (held, seq![DecodedFrame::ProviderError(error)]),
            RowStep::Taken(next, frames) => {
                let rest = rows_taken(subscribed, next, terms, rows.skip(1));
                (rest.0, frames + rest.1)
            },
        }
    }
}

impl OkxWsCodec {
    pub closed spec fn is_subscribed(self) -> bool {
        self.subscribed
    }

    pub closed spec fn held(self) -> Seq<Candle> {
        self.pre_ack@
    }

    pub closed spec fn fixed_now(self) -> Option<i64> {
        self.now_ms
    }

    pub open spec fn well_formed(self) -> bool {
        &&& self.held().len() <= MAX_PRE_ACK_CANDLES
        &&& open_apart(self.held())
        &&& self.is_subscribed() ==> self.held().len() == 0
    }

    pub fn new() -> (codec: OkxWsCodec)
        ensures
            codec.well_formed(),
            !codec.is_subscribed(),
            codec.held() == Seq::<Candle>::empty(),
            codec.fixed_now() is None,
    {
        OkxWsCodec { subscribed: false, pre_ack: Vec::new(), now_ms: None }
    }

    /// A codec for which the time stands still.
    pub fn with_now_ms(now_ms: i64) -> (codec: OkxWsCodec)
        ensures
            codec.well_formed(),
            !codec.is_subscribed(),
            codec.held() == Seq::<Candle>::empty(),
            codec.fixed_now() == Some(now_ms),
    {
        OkxWsCodec { subscribed: false, pre_ack: Vec::new(), now_ms: Some(now_ms) }
    }

    fn accept(&mut self) -> (buffered: Vec<Candle>)
        requires
            old(self).well_formed(),
        ensures
            buffered@ == old(self).held(),
            final(self).well_formed(),
            final(self).is_subscribed(),
            final(self).held() == Seq::<Candle>::empty(),
            final(self).fixed_now() == old(self).fixed_now(),
    {
        let mut buffered: Vec<Candle> = Vec::new();
        std::mem::swap(&mut buffered, &mut self.pre_ack);
        self.subscribed = true;
        buffered
    }

    fn hold(&mut self, candle: Candle) -> (held: bool)
        requires
            old(self).well_formed(),
            !old(self).is_subscribed(),
        ensures
            final(self).well_formed(),
            !final(self).is_subscribed(),
            final(self).fixed_now() == old(self).fixed_now(),
            held == (held_with(old(self).held(), candle).len() <= MAX_PRE_ACK_CANDLES),
            final(self).held() == (if held {
                held_with(old(self).held(), candle)
            } else {
                old(self).held()
            }),
    {
        let ghost before = self.pre_ack@;
        let mut index: usize = 0;
        while index < self.pre_ack.len()
            invariant
                self.pre_ack@ == before,
                self.well_formed(),
                !self.subscribed,
                self.now_ms == old(self).now_ms,
                old(self).pre_ack@ == before,
                index <= before.len(),
                forall|i: int|
                    0 <= i < index ==> (#[trigger] before[i]).opens_at() != candle.opens_at(),
            decreases before.len() - index,
        {
            if self.pre_ack[index].open_time() == candle.open_time() {
                self.pre_ack.set(index, candle);
                proof {
                    assert(before[index as int].opens_at() == candle.opens_at());
                    assert forall|i: int| 0 <= i < before.len() implies self.pre_ack@[i]
                        == held_with(before, candle)[i] by {
                        if i != index {
                            assert(before[i].opens_at() != before[index as int].opens_at());
                        }
                    }
                    assert(self.pre_ack@ =~= held_with(before, candle));
                }
                return true;
            }
            index += 1;
        }
        if self.pre_ack.len() == MAX_PRE_ACK_CANDLES {
            return false;
        }
        self.pre_ack.push(candle);
        true
    }

    /// Takes the rows of a message, whose numbers have been read. `clock_ms` is the time, where it is
    /// known.
    pub fn accept_rows(
        &mut self,
        rows: &Vec<OkxRow>,
        instrument: &Instrument,
        timeframe: Timeframe,
        clock_ms: Option<i64>,
        outcomes: &mut VecDeque<DecodedFrame<OkxDecoded>>,
    )
        requires
            old(self).well_formed(),
        ensures
            final(self).well_formed(),
            final(self).is_subscribed() == old(self).is_subscribed(),
            final(self).fixed_now() == old(self).fixed_now(),
            ({
                let now = match old(self).fixed_now() {
                    Some(now) => Some(now),
                    None => clock_ms,
                };
                match now {
                    None => final(self).held() == old(self).held() && final(outcomes)@ == old(outcomes)@.push(
                        DecodedFrame::ProviderError(
                            ProviderError::Invariant("unix epoch clock is unavailable"),
                        ),
                    ),
                    Some(now_ms) => {
                        let terms = RowTerms {
                            market: instrument.market,
                            timeframe,
                            context: ErrorContext::of_market(
                                ErrorOperation::WebSocket,
                                *instrument,
                                timeframe,
                            ),
                            from_websocket: true,
                            now_ms,
                        };
                        let taken = rows_taken(
                            old(self).is_subscribed(),
                            old(self).held(),
                            terms,
                            rows@,
                        );
                        final(self).held() == taken.0 && final(outcomes)@ == old(outcomes)@
                            + taken.1
                    },
                }
            }),
    {
        let now = match self.now_ms {
            Some(now) => Some(now),
            None => clock_ms,
        };
        let now_ms: i64 = match now {
            Some(now) => now,
            None => {
                outcomes.push_back(
                    DecodedFrame::ProviderError(
                        ProviderError::Invariant("unix epoch clock is unavailable"),
                    ),
                );
                return;
            },
        };
        let terms = RowTerms {
            market: instrument.market(),
            timeframe,
            context: ErrorContext::market(ErrorOperation::WebSocket, instrument, timeframe),
            from_websocket: true,
            now_ms,
        };
        let ghost all = rows_taken(self.is_subscribed(), self.held(), terms, rows@);
        let ghost start = outcomes@;
        let mut index: usize = 0;
        assert(rows@.skip(0) =~= rows@);
        assert(outcomes@ + all.1 =~= start + all.1);
        while index < rows.len()
            invariant_except_break
                index <= rows@.len(),
                self.well_formed(),
                self.is_subscribed() == old(self).is_subscribed(),
                self.fixed_now() == old(self).fixed_now(),
                ({
                    let rest = rows_taken(
                        self.is_subscribed(),
                        self.held(),
                        terms,
                        rows@.skip(index as int),
                    );
                    rest.0 == all.0 && outcomes@ + rest.1 == start + all.1
                }),
            ensures
                self.held() == all.0,
                outcomes@ == start + all.1,
                self.well_formed(),
                self.is_subscribed() == old(self).is_subscribed(),
                self.fixed_now() == old(self).fixed_now(),
            decreases rows@.len() - index,
        {
            let ghost tail = rows@.skip(index as int);
            let ghost emitted = outcomes@;
            proof {
                assert(tail.skip(1) =~= rows@.skip(index + 1));
                assert(tail[0] == rows@[index as int]);
            }
            let read = match &rows[index].fields {
                Some(fields) => decode_okx_row(&terms, fields),
                None => Err(
                    payload(
                        &terms.context,
                        PayloadError::WrongArity { expected: ROW_FIELDS, actual: 0 },
                    ),
                ),
            };
            let failed = match read {
                Err(error) => Some(error),
                Ok(candle) => {
                    if self.subscribed {
                        outcomes.push_back(DecodedFrame::Provider(OkxDecoded::Candle(candle)));
                        None
                    } else if self.hold(candle) {
                        None
                    } else {
                        Some(
                            ProviderError::Protocol {
                                context: terms.context.clone(),
                                detail: "Okx pre-ack candle buffer exceeded 16 distinct candles",
                            },
                        )
                    }
                },
            };
            if let Some(error) = failed {
                outcomes.push_back(DecodedFrame::ProviderError(error));
                assert(outcomes@ =~= emitted + seq![DecodedFrame::ProviderError(error)]);
                break ;
            }
            proof {
                let rest = rows_taken(self.is_subscribed(), self.held(), terms, tail.skip(1));
                assert(outcomes@ + rest.1 =~= start + all.1) by {
                    let whole = emitted + (outcomes@.skip(emitted.len() as int) + rest.1);
                    assert(outcomes@ =~= emitted + outcomes@.skip(emitted.len() as int));
                    assert(outcomes@ + rest.1 =~= whole);
                    if self.is_subscribed() {
                        assert(outcomes@.skip(emitted.len() as int) =~= seq![outcomes@.last()]);
                    } else {
                        assert(outcomes@.skip(emitted.len() as int) =~= Seq::empty());
                    }
                }
            }
            index += 1;
        }
    }
}

/// What a message is answered with at once, where it asks for no rows to be read.
pub open spec fn answer(meaning: Meaning) -> DecodedFrame<OkxDecoded> {
    match meaning {
        Meaning::Pong => DecodedFrame::Provider(OkxDecoded::ApplicationPong),
        Meaning::Reconnect => DecodedFrame::ReconnectRequested,
        Meaning::Close(code) => DecodedFrame::Close(code),
        Meaning::Fail(error) => DecodedFrame::ProviderError(error),
        _ => DecodedFrame::Ignored,
    }
}

/// Reads a message of the stream. Where it carries candles, their rows come back: once their numbers
/// have been read, they are for `accept_rows`.
pub fn decode_ws_frame(
    codec: &mut OkxWsCodec,
    message: &WsMessage,
    instrument: &Instrument,
    timeframe: Timeframe,
    config: &WsConfig,
    outcomes: &mut VecDeque<DecodedFrame<OkxDecoded>>,
) -> (rows: Option<Vec<OkxRow>>)
    requires
        old(codec).well_formed(),
    ensures
        final(codec).well_formed(),
        final(codec).fixed_now() == old(codec).fixed_now(),
        ({
            let meaning = message_meaning(
                old(codec).is_subscribed(),
                *message,
                *instrument,
                timeframe,
                *config,
            );
            match meaning {
                Meaning::Accept => rows is None && final(codec).is_subscribed() && final(codec).held() == Seq::<Candle>::empty() && final(outcomes)@.len() == old(outcomes)@.len() + 1 && final(outcomes)@.drop_last() == old(outcomes)@ && (final(outcomes)@.last() matches DecodedFrame::Provider(
                    OkxDecoded::SubscribeAccepted { buffered },
                ) && buffered@ == old(codec).held()),
                Meaning::Rows => *final(codec) == *old(codec) && final(outcomes)@ == old(outcomes)@ && (rows matches Some(read) && document_rows(message_bytes(*message)) == Some(
                    read@.map_values(|row: OkxRow| row_texts(row)),
                ) && forall|i: int| 0 <= i < read@.len() ==> is_unread(#[trigger] read@[i])),
                _ => rows is None && *final(codec) == *old(codec) && final(outcomes)@ == old(outcomes)@.push(answer(meaning)),
            }
        }),
{
    match config.validate() {
        Err(error) => {
            outcomes.push_back(DecodedFrame::ProviderError(error));
            return None;
        },
        Ok(_) => {},
    }
    let (meaning, rows) = match message {
        WsMessage::Text(bytes) => read_ws_payload(
            codec.subscribed,
            bytes.as_slice(),
            instrument,
            timeframe,
            config,
        ),
        WsMessage::Binary(bytes) => read_ws_payload(
            codec.subscribed,
            bytes.as_slice(),
            instrument,
            timeframe,
            config,
        ),
        WsMessage::Close(code) => (Meaning::Close(*code), Vec::new()),
        _ => (Meaning::Ignored, Vec::new()),
    };
    match meaning {
        Meaning::Ignored => outcomes.push_back(DecodedFrame::Ignored),
        Meaning::Pong => outcomes.push_back(DecodedFrame::Provider(OkxDecoded::ApplicationPong)),
        Meaning::Reconnect => outcomes.push_back(DecodedFrame::ReconnectRequested),
        Meaning::Close(code) => outcomes.push_back(DecodedFrame::Close(code)),
        Meaning::Fail(error) => outcomes.push_back(DecodedFrame::ProviderError(error)),
        Meaning::Accept => {
            let buffered = codec.accept();
            outcomes.push_back(
                DecodedFrame::Provider(OkxDecoded::SubscribeAccepted { buffered }),
            );
            assert(outcomes@.drop_last() =~= old(outcomes)@);
        },
        Meaning::Rows => {
            return Some(rows);
        },
    }
    None
}

/// What a frame means to a live feed.
pub open spec fn feed_event(frame: DecodedFrame<OkxDecoded>) -> LiveSocketEvent {
    match frame {
        DecodedFrame::Provider(OkxDecoded::Candle(candle)) => LiveSocketEvent::Candle(candle),
        DecodedFrame::Provider(OkxDecoded::ApplicationPong) => LiveSocketEvent::Ignored,
        DecodedFrame::Provider(OkxDecoded::SubscribeAccepted { .. }) =>
            LiveSocketEvent::ProtocolViolation("duplicate Okx subscribe acknowledgement"),
        DecodedFrame::Ignored => LiveSocketEvent::Ignored,
        DecodedFrame::ProviderError(error) => LiveSocketEvent::DecodedError(error),
        DecodedFrame::ReconnectRequested => LiveSocketEvent::ReconnectRequested,
        DecodedFrame::Close(_) => LiveSocketEvent::ReconnectRequested,
    }
}

pub fn live_event(frame: DecodedFrame<OkxDecoded>) -> (event: LiveSocketEvent)
    ensures
        event == feed_event(frame),
{
    match frame {
        DecodedFrame::Provider(OkxDecoded::Candle(candle)) => LiveSocketEvent::Candle(candle),
        DecodedFrame::Provider(OkxDecoded::ApplicationPong) => LiveSocketEvent::Ignored,
        DecodedFrame::Provider(OkxDecoded::SubscribeAccepted { .. }) =>
            LiveSocketEvent::ProtocolViolation("duplicate Okx subscribe acknowledgement"),
        DecodedFrame::Ignored => LiveSocketEvent::Ignored,
        DecodedFrame::ProviderError(error) => LiveSocketEvent::DecodedError(error),
        DecodedFrame::ReconnectRequested => LiveSocketEvent::ReconnectRequested,
        DecodedFrame::Close(_) => LiveSocketEvent::ReconnectRequested,
    }
}

/// The next of the candles that came with the subscription: they go before anything that is read.
pub fn buffered_event(buffered: &mut VecDeque<Candle>) -> (event: Option<LiveSocketEvent>)
    ensures
        if old(buffered)@.len() == 0 {
            event is None && final(buffered)@ == old(buffered)@
        } else {
            event == Some(LiveSocketEvent::Candle(old(buffered)@[0])) && final(buffered)@ == old(buffered)@.skip(1)
        },
{
    let ghost before = buffered@;
    match buffered.pop_front() {
        Some(candle) => {
            assert(buffered@ =~= before.skip(1));
            Some(LiveSocketEvent::Candle(candle))
        },
        None => None,
    }
}

/// What an input means to a socket that waits for its subscription.
pub open spec fn readiness(
    input: ReadinessInput<OkxDecoded>,
    market: LiveMarket,
    now: MonoInstant,
    ack_deadline: MonoInstant,
) -> ReadyStep<Vec<Candle>> {
    let idle = if now.0 >= ack_deadline.0 {
        ReadyStep::Fail(market.timeout_error(TimeoutKind::SubscribeAck))
    } else {
        ReadyStep::Wait
    };
    match input {
        ReadinessInput::Error(error) => ReadyStep::Fail(error),
        ReadinessInput::Frame(frame) => match frame {
            DecodedFrame::Provider(OkxDecoded::SubscribeAccepted { buffered }) => ReadyStep::Ready(
                buffered,
            ),
            DecodedFrame::Provider(OkxDecoded::ApplicationPong) => idle,
            DecodedFrame::Ignored => idle,
            DecodedFrame::Close(_) => ReadyStep::Close(market.reconnect_error()),
            DecodedFrame::ReconnectRequested => ReadyStep::Close(market.reconnect_error()),
            DecodedFrame::ProviderError(error) => ReadyStep::Fail(error),
            DecodedFrame::Provider(OkxDecoded::Candle(_)) => ReadyStep::Fail(
                market.protocol_error("Okx codec emitted a candle before subscribe acknowledgement"),
            ),
        },
    }
}

pub fn on_readiness(
    input: ReadinessInput<OkxDecoded>,
    market: &LiveMarket,
    now: MonoInstant,
    ack_deadline: MonoInstant,
) -> (step: ReadyStep<Vec<Candle>>)
    ensures
        step == readiness(input, *market, now, ack_deadline),
{
    match input {
        ReadinessInput::Error(error) => ReadyStep::Fail(error),
        ReadinessInput::Frame(frame) => match frame {
            DecodedFrame::Provider(OkxDecoded::SubscribeAccepted { buffered }) => ReadyStep::Ready(
                buffered,
            ),
            DecodedFrame::Close(_) => ReadyStep::Close(
                market.live_protocol_error("WebSocket peer requested reconnect"),
            ),
            DecodedFrame::ReconnectRequested => ReadyStep::Close(
                market.live_protocol_error("WebSocket peer requested reconnect"),
            ),
            DecodedFrame::ProviderError(error) => ReadyStep::Fail(error),
            DecodedFrame::Provider(OkxDecoded::Candle(_)) => ReadyStep::Fail(
                market.live_protocol_error(
                    "Okx codec emitted a candle before subscribe acknowledgement",
                ),
            ),
            _ => {
                if now.0 >= ack_deadline.0 {
                    return ReadyStep::Fail(market.subscribe_ack_timeout());
                }
                ReadyStep::Wait
            },
        },
    }
}

/// The text that subscribes to a market's candles.
pub open spec fn subscribe_text(instrument: Instrument, timeframe: Timeframe) -> Seq<char> {
    "{\"args\":[{\"channel\":\""@ + channel_name(timeframe)->0@ + "\",\"instId\":"@
        + crate::json::json_quoted(instrument.provider_symbol@)
        + "}],\"id\":\"fccli1\",\"op\":\"subscribe\"}"@
}

pub fn subscribe_message(instrument: &Instrument, timeframe: Timeframe) -> (message: String)
    requires
        supported(timeframe),
    ensures
        message@ == subscribe_text(*instrument, timeframe),
{
    let mut message = "{\"args\":[{\"channel\":\"".to_owned();
    if let Ok(channel) = channel(timeframe) {
        message.append(channel);
    }
    message.append("\",\"instId\":");
    let symbol = quote_json(instrument.provider_symbol());
    message.append(symbol.as_str());
    message.append("}],\"id\":\"fccli1\",\"op\":\"subscribe\"}");
    message
}

pub fn test_subscribe_message(instrument: &Instrument, timeframe: Timeframe) -> (message: String)
    requires
        supported(timeframe),
    ensures
        message@ == subscribe_text(*instrument, timeframe),
{
    subscribe_message(instrument, timeframe)
}

/// Checks what is asked for before anything is sent.
pub fn check_history(timeframe: Timeframe, limit: u16) -> (checked: Result<(), ProviderError>)
    ensures
        checked == (if !supported(timeframe) {
            Err::<(), ProviderError>(ProviderError::Configuration(UNSUPPORTED_TIMEFRAME))
        } else if limit > OKX_MAX_RESPONSE_ROWS {
            Err(ProviderError::Configuration("OKX history request limit exceeds 300"))
        } else {
            Ok(())
        }),
{
    match reject_unsupported_timeframe(timeframe) {
        Ok(()) => {},
        Err(error) => {
            return Err(error);
        },
    }
    if limit as usize > OKX_MAX_RESPONSE_ROWS {
        return Err(ProviderError::Configuration("OKX history request limit exceeds 300"));
    }
    Ok(())
}

/// Where a request is sent: what has just closed is kept apart from what is older.
pub fn history_path(kind: HistoryRequestKind) -> (path: &'static str)
    ensures
        path == (match kind {
            HistoryRequestKind::Latest => CANDLES_PATH,
            _ => HISTORY_CANDLES_PATH,
        }),
{
    match kind {
        HistoryRequestKind::Latest => CANDLES_PATH,
        _ => HISTORY_CANDLES_PATH,
    }
}

/// The opening times that a request is about.
#[derive(Clone, Copy, Debug, PartialEq, Eq, Structural)]
pub enum HistoryWindow {
    /// All.
    Any,
    /// Those before a time, where one is given.
    Before(Option<i64>),
    /// Those from one time through another.
    Span(i64, i64),
}

impl HistoryWindow {
    pub open spec fn has(self, open_time: i64) -> bool {
        match self {
            HistoryWindow::Any => true,
            HistoryWindow::Before(end) => end matches Some(end) ==> open_time < end,
            HistoryWindow::Span(start, end) => start <= open_time <= end,
        }
    }

    pub fn contains(self, open_time: i64) -> (inside: bool)
        ensures
            inside == self.has(open_time),
    {
        match self {
            HistoryWindow::Any => true,
            HistoryWindow::Before(end) => match end {
                Some(end) => open_time < end,
                None => true,
            },
            HistoryWindow::Span(start, end) => start <= open_time && open_time <= end,
        }
    }
}

/// The window of a request: a page that fills a gap ends with its last row or with the gap.
pub open spec fn window_of(timeframe: Timeframe, request: HistoryRequest) -> Result<
    HistoryWindow,
    ProviderError,
> {
    match request.kind {
        HistoryRequestKind::Latest => Ok(HistoryWindow::Any),
        HistoryRequestKind::Older => Ok(HistoryWindow::Before(request.end_time)),
        HistoryRequestKind::Gap => match (request.start_time, request.end_time) {
            (None, _) => Err(
                ProviderError::Invariant("gap history request is missing startTime"),
            ),
            (_, None) => Err(ProviderError::Invariant("gap history request is missing endTime")),
            (Some(start), Some(end)) => match page_upper(timeframe, start, request.limit) {
                None => Err(ProviderError::Configuration("OKX history gap start is off grid")),
                Some(upper) => Ok(
                    HistoryWindow::Span(
                        start,
                        if upper < end {
                            upper
                        } else {
                            end
                        },
                    ),
                ),
            },
        },
    }
}

pub fn history_window(timeframe: Timeframe, request: HistoryRequest) -> (window: Result<
    HistoryWindow,
    ProviderError,
>)
    ensures
        window == window_of(timeframe, request),
{
    match request.kind {
        HistoryRequestKind::Latest => Ok(HistoryWindow::Any),
        HistoryRequestKind::Older => Ok(HistoryWindow::Before(request.end_time)),
        HistoryRequestKind::Gap => {
            let start: i64 = match request.start_time {
                Some(start) => start,
                None => {
                    return Err(
                        ProviderError::Invariant("gap history request is missing startTime"),
                    );
                },
            };
            let end: i64 = match request.end_time {
                Some(end) => end,
                None => {
                    return Err(ProviderError::Invariant("gap history request is missing endTime"));
                },
            };
            match page_upper_bound(timeframe, start, request.limit) {
                Ok(upper) => Ok(
                    HistoryWindow::Span(
                        start,
                        if upper < end {
                            upper
                        } else {
                            end
                        },
                    ),
                ),
                Err(error) => Err(error),
            }
        },
    }
}

/// Whether a query asks for the rows of a window: the market, the period and the limit, and the
/// window's bounds, which the provider takes to be left out themselves.
pub open spec fn asks_for(
    query: Seq<QueryField>,
    instrument: Instrument,
    timeframe: Timeframe,
    limit: u16,
    window: HistoryWindow,
) -> bool {
    &&& bar_name(timeframe) matches Some(bar)
    &&& query.len() >= 3
    &&& crate::provider::runtime::http::field_is(query[0], "instId", instrument.provider_symbol@)
    &&& crate::provider::runtime::http::field_is(query[1], "bar", bar@)
    &&& crate::provider::runtime::http::field_is(
        query[2],
        "limit",
        crate::text::numeral(limit as int),
    )
    &&& match window {
        HistoryWindow::Any => query.len() == 3,
        HistoryWindow::Before(end) => end matches Some(end) && query.len() == 4
            && crate::provider::runtime::http::field_is(
            query[3],
            "after",
            crate::text::signed_numeral(end as int),
        ),
        HistoryWindow::Span(start, end) => query.len() == 5
            && crate::provider::runtime::http::field_is(
            query[3],
            "before",
            crate::text::signed_numeral(crate::saturate::clamped(start - 1) as int),
        ) && crate::provider::runtime::http::field_is(
            query[4],
            "after",
            crate::text::signed_numeral(crate::saturate::clamped(end + 1) as int),
        ),
    }
}

/// What keeps a query from being written.
pub open spec fn query_fault(timeframe: Timeframe, request: HistoryRequest) -> Option<
    ProviderError,
> {
    if !supported(timeframe) {
        Some(ProviderError::Configuration(UNSUPPORTED_TIMEFRAME))
    } else {
        match window_of(timeframe, request) {
            Err(error) => Some(error),
            Ok(HistoryWindow::Before(None)) => Some(
                ProviderError::Invariant("older history request is missing endTime"),
            ),
            Ok(_) => None,
        }
    }
}

pub fn history_query(instrument: &Instrument, timeframe: Timeframe, request: HistoryRequest) -> (
query: Result<Vec<QueryField>, ProviderError>)
    ensures
        match query_fault(timeframe, request) {
            Some(error) => query == Err::<Vec<QueryField>, ProviderError>(error),
            None => query matches Ok(fields) && asks_for(
                fields@,
                *instrument,
                timeframe,
                request.limit,
                window_of(timeframe, request)->Ok_0,
            ),
        },
{
    let name = match bar(timeframe) {
        Ok(name) => name,
        Err(error) => {
            return Err(error);
        },
    };
    let mut query: Vec<QueryField> = Vec::new();
    query.push(QueryField { name: "instId", value: instrument.provider_symbol().to_owned() });
    query.push(QueryField { name: "bar", value: name.to_owned() });
    query.push(QueryField { name: "limit", value: u64_text(request.limit as u64) });
    match history_window(timeframe, request) {
        Err(error) => {
            return Err(error);
        },
        Ok(HistoryWindow::Any) => {},
        Ok(HistoryWindow::Before(None)) => {
            return Err(ProviderError::Invariant("older history request is missing endTime"));
        },
        Ok(HistoryWindow::Before(Some(end))) => {
            query.push(QueryField { name: "after", value: i64_text(end) });
        },
        Ok(HistoryWindow::Span(start, end)) => {
            query.push(QueryField { name: "before", value: i64_text(difference(start, 1)) });
            query.push(QueryField { name: "after", value: i64_text(sum(end, 1)) });
        },
    }
    Ok(query)
}

/// An answer of history.
#[derive(Debug, PartialEq)]
pub struct OkxEnvelope {
    pub code: String,
    pub msg: String,
    pub data: Vec<Vec<OkxField>>,
}

/// Until when the provider is left alone, where an answer says that it has had enough.
pub fn envelope_rate_limit(
    envelope: Option<&OkxEnvelope>,
    fallback: Duration,
    now: MonoInstant,
) -> (decision: Result<Option<RateLimitDecision>, ProviderError>)
    ensures
        decision == (match envelope {
            Some(envelope) => if envelope.code@ == LIMITED_CODE@ {
                match crate::clock::deadline_after(now, crate::clock::duration_nanos(fallback)) {
                    Some(deadline) => Ok::<Option<RateLimitDecision>, ProviderError>(
                        Some(RateLimitDecision::TimedUntil(deadline)),
                    ),
                    None => Err(ProviderError::Invariant("rate-limit deadline overflow")),
                }
            } else {
                Ok(None)
            },
            None => Ok(None),
        }),
{
    let limited = match envelope {
        Some(envelope) => same_text(envelope.code.as_str(), LIMITED_CODE),
        None => false,
    };
    if !limited {
        return Ok(None);
    }
    match checked_deadline(now, fallback) {
        Ok(deadline) => Ok(Some(RateLimitDecision::TimedUntil(deadline))),
        Err(_) => Err(ProviderError::Invariant("rate-limit deadline overflow")),
    }
}

/// Whether a message is the words of an answer, which may have none.
pub open spec fn told(message: Option<SanitizedMessage>, words: Seq<char>) -> bool {
    match message {
        Some(message) => words.len() > 0 && message.words() == Some(words),
        None => words.len() == 0,
    }
}

/// Whether an error is what a refusal says.
pub open spec fn refusal_is(
    code: Seq<char>,
    words: Seq<char>,
    context: ErrorContext,
    error: ProviderError,
) -> bool {
    if crate::text::signed_value(code) == Some(INVALID_SYMBOL_CODE) {
        error matches ProviderError::InvalidSymbol { context: about, code: named, message } && about
            == context && named == INVALID_SYMBOL_CODE && (if words.len() > 0 {
            message.words() == Some(words)
        } else {
            message == SanitizedMessage::InvalidSymbol
        })
    } else {
        error matches ProviderError::ClientStatus { context: about, status, code: named, message }
            && about == context && status == 200 && named == crate::text::signed_value(code)
            && told(message, words)
    }
}

/// What a refusal says: the code and the words of an answer that has no rows to give.
pub fn refusal(code: &str, words: &str, context: &ErrorContext) -> (error: ProviderError)
    ensures
        refusal_is(code@, words@, *context, error),
{
    let number = parse_i64(code);
    let message = if words.is_empty() {
        None
    } else {
        Some(SanitizedMessage::new(words))
    };
    let invalid_symbol = match number {
        Some(number) => number == INVALID_SYMBOL_CODE,
        None => false,
    };
    if invalid_symbol {
        return ProviderError::InvalidSymbol {
            context: context.clone(),
            code: INVALID_SYMBOL_CODE,
            message: match message {
                Some(message) => message,
                None => SanitizedMessage::InvalidSymbol,
            },
        };
    }
    ProviderError::ClientStatus { context: context.clone(), status: 200, code: number, message }
}

/// The candle that the row at a place of history is: rows go back in time, and none is outside the
/// window.
pub open spec fn history_candle(
    terms: RowTerms,
    window: HistoryWindow,
    rows: Seq<Vec<OkxField>>,
    place: int,
) -> Result<Candle, ProviderError> {
    match row_candle(terms, rows[place]@) {
        Err(error) => Err(error),
        Ok(candle) => if (place > 0 && candle.opens_at() >= row_candle(
            terms,
            rows[place - 1]@,
        )->Ok_0.opens_at()) || !window.has(candle.opens_at()) {
            Err(malformed(terms.context))
        } else {
            Ok(candle)
        },
    }
}

/// The candles of history, oldest first.
pub open spec fn history_candles(
    terms: RowTerms,
    window: HistoryWindow,
    rows: Seq<Vec<OkxField>>,
) -> Seq<Candle> {
    Seq::new(
        rows.len(),
        |i: int| history_candle(terms, window, rows, rows.len() - 1 - i)->Ok_0,
    )
}

/// Reads the rows of history: all of them, or the error of the first that does not belong.
pub fn decode_rows(terms: &RowTerms, window: HistoryWindow, rows: &Vec<Vec<OkxField>>) -> (candles:
    Result<Vec<Candle>, ProviderError>)
    ensures
        match candles {
            Ok(read) => (forall|i: int|
                0 <= i < rows@.len() ==> (#[trigger] history_candle(
                    *terms,
                    window,
                    rows@,
                    i,
                )) is Ok) && read@ == history_candles(*terms, window, rows@),
            Err(error) => exists|i: int|
                0 <= i < rows@.len() && #[trigger] history_candle(*terms, window, rows@, i)
                    == Err::<Candle, ProviderError>(error) && forall|j: int|
                    0 <= j < i ==> (#[trigger] history_candle(*terms, window, rows@, j)) is Ok,
        },
{
    let mut newest_first: Vec<Candle> = Vec::new();
    let mut index: usize = 0;
    while index < rows.len()
        invariant
            index <= rows@.len(),
            newest_first@.len() == index,
            forall|i: int|
                0 <= i < index ==> #[trigger] history_candle(*terms, window, rows@, i) == Ok::<
                    Candle,
                    ProviderError,
                >(newest_first@[i]),
            index > 0 ==> row_candle(*terms, rows@[index - 1]@) == Ok::<Candle, ProviderError>(
                newest_first@[index - 1],
            ),
        decreases rows@.len() - index,
    {
        let candle = match decode_okx_row(terms, &rows[index]) {
            Ok(candle) => candle,
            Err(error) => {
                assert(history_candle(*terms, window, rows@, index as int) == Err::<
                    Candle,
                    ProviderError,
                >(error));
                return Err(error);
            },
        };
        let repeats = index > 0 && candle.open_time() >= newest_first[index - 1].open_time();
        if repeats || !window.contains(candle.open_time()) {
            assert(history_candle(*terms, window, rows@, index as int) is Err);
            return Err(payload(&terms.context, PayloadError::MalformedProtocol));
        }
        newest_first.push(candle);
        index += 1;
    }
    let mut candles: Vec<Candle> = Vec::new();
    while index > 0
        invariant
            index <= newest_first@.len(),
            newest_first@.len() == rows@.len(),
            candles@.len() == rows@.len() - index,
            forall|i: int|
                0 <= i < candles@.len() ==> candles@[i] == newest_first@[rows@.len() - 1 - i],
        decreases index,
    {
        index -= 1;
        candles.push(newest_first[index]);
    }
    proof {
        let wanted = history_candles(*terms, window, rows@);
        assert forall|i: int| 0 <= i < candles@.len() implies candles@[i] == wanted[i] by {
            assert(history_candle(*terms, window, rows@, rows@.len() - 1 - i) is Ok);
        }
        assert(candles@ =~= wanted);
    }
    Ok(candles)
}

/// Whether a result is what an answer of history gives: `envelope` is what the answer was read as,
/// where it could be.
pub open spec fn history_is(
    envelope: Option<&OkxEnvelope>,
    terms: RowTerms,
    request: HistoryRequest,
    candles: Result<Vec<Candle>, ProviderError>,
) -> bool {
    match envelope {
        None => candles == Err::<Vec<Candle>, ProviderError>(
            crate::provider::runtime::http::payload_error(
                terms.context,
                PayloadError::MalformedJson,
            ),
        ),
        Some(envelope) => if envelope.code@ != "0"@ {
            candles matches Err(error) && refusal_is(
                envelope.code@,
                envelope.msg@,
                terms.context,
                error,
            )
        } else if envelope.data@.len() > request.limit {
            candles == Err::<Vec<Candle>, ProviderError>(malformed(terms.context))
        } else {
            match window_of(terms.timeframe, request) {
                Err(error) => candles == Err::<Vec<Candle>, ProviderError>(error),
                Ok(window) => match candles {
                    Ok(read) => (forall|i: int|
                        0 <= i < envelope.data@.len() ==> (#[trigger] history_candle(
                            terms,
                            window,
                            envelope.data@,
                            i,
                        )) is Ok) && read@ == history_candles(terms, window, envelope.data@),
                    Err(error) => exists|i: int|
                        0 <= i < envelope.data@.len() && #[trigger] history_candle(
                            terms,
                            window,
                            envelope.data@,
                            i,
                        ) == Err::<Candle, ProviderError>(error) && forall|j: int|
                            0 <= j < i ==> (#[trigger] history_candle(
                                terms,
                                window,
                                envelope.data@,
                                j,
                            )) is Ok,
                },
            }
        },
    }
}

/// Reads an answer of history: `envelope` is what it was read as, where it could be.
pub fn decode_candles(
    envelope: Option<&OkxEnvelope>,
    market: Market,
    timeframe: Timeframe,
    request: HistoryRequest,
    context: ErrorContext,
    now_ms: i64,
) -> (candles: Result<Vec<Candle>, ProviderError>)
    ensures
        history_is(
            envelope,
            (RowTerms { market, timeframe, context, from_websocket: false, now_ms }),
            request,
            candles,
        ),
{
    let envelope = match envelope {
        Some(envelope) => envelope,
        None => {
            return Err(payload(&context, PayloadError::MalformedJson));
        },
    };
    if !same_text(envelope.code.as_str(), "0") {
        return Err(refusal(envelope.code.as_str(), envelope.msg.as_str(), &context));
    }
    if envelope.data.len() > request.limit as usize {
        return Err(payload(&context, PayloadError::MalformedProtocol));
    }
    let window = match history_window(timeframe, request) {
        Ok(window) => window,
        Err(error) => {
            return Err(error);
        },
    };
    let terms = RowTerms { market, timeframe, context, from_websocket: false, now_ms };
    decode_rows(&terms, window, &envelope.data)
}

pub fn map_http_error(status: u16, context: ErrorContext) -> (error: ProviderError)
    ensures
        error == (if 400 <= status < 500 {
            ProviderError::ClientStatus { context, status, code: None, message: None }
        } else {
            ProviderError::ServerStatus { context, status }
        }),
{
    if 400 <= status && status < 500 {
        ProviderError::ClientStatus { context, status, code: None, message: None }
    } else {
        ProviderError::ServerStatus { context, status }
    }
}

/// What keeps a URL from being that of the provider's WebSocket server.
pub open spec fn url_fault(
    parts: Option<crate::provider::runtime::endpoint::UrlView>,
    timeframe: Timeframe,
    loopback_only: bool,
    address: HostAddress,
) -> Option<&'static str> {
    if !supported(timeframe) {
        Some(UNSUPPORTED_TIMEFRAME)
    } else if crate::provider::runtime::endpoint::websocket_base_fault(
        parts,
        loopback_only,
        address,
    ) is Some {
        crate::provider::runtime::endpoint::websocket_base_fault(parts, loopback_only, address)
    } else if !loopback_only && parts->0.path != "/ws/v5/business"@ {
        Some("invalid OKX business WebSocket URL")
    } else {
        None
    }
}

/// The URL of the provider's WebSocket server.
pub fn websocket_url_from_base(
    base_url: &str,
    timeframe: Timeframe,
    loopback_only: bool,
    address: HostAddress,
) -> (url: Result<UrlParts, ProviderError>)
    ensures
        match url_fault(
            crate::provider::runtime::endpoint::url_parts(base_url@),
            timeframe,
            loopback_only,
            address,
        ) {
            Some(detail) => url == Err::<UrlParts, ProviderError>(
                ProviderError::Configuration(detail),
            ),
            None => url matches Ok(found) && Some(found@)
                == crate::provider::runtime::endpoint::url_parts(base_url@),
        },
{
    match reject_unsupported_timeframe(timeframe) {
        Ok(()) => {},
        Err(error) => {
            return Err(error);
        },
    }
    match validate_websocket_base(base_url, loopback_only, address) {
        Err(error) => Err(error),
        Ok(url) => {
            if !loopback_only && !same_text(url.path.as_str(), "/ws/v5/business") {
                return Err(ProviderError::Configuration("invalid OKX business WebSocket URL"));
            }
            Ok(url)
        },
    }
}

/// The URL of the provider's own server; a fault is told with the market.
pub fn websocket_url(instrument: &Instrument, timeframe: Timeframe) -> (url: Result<
    UrlParts,
    ProviderError,
>)
    ensures
        match url_fault(
            crate::provider::runtime::endpoint::url_parts(PRODUCTION_WS_BASE@),
            timeframe,
            false,
            HostAddress::NotLiteral,
        ) {
            Some(detail) => url == Err::<UrlParts, ProviderError>(
                ProviderError::WebSocketConfiguration {
                    context: ErrorContext::of_market(
                        ErrorOperation::WebSocket,
                        *instrument,
                        timeframe,
                    ),
                    detail,
                },
            ),
            None => url matches Ok(found) && Some(found@)
                == crate::provider::runtime::endpoint::url_parts(PRODUCTION_WS_BASE@),
        },
{
    match websocket_url_from_base(
        PRODUCTION_WS_BASE,
        timeframe,
        false,
        HostAddress::NotLiteral,
    ) {
        Ok(url) => Ok(url),
        Err(error) => Err(contextualize_websocket_configuration(error, instrument, timeframe)),
    }
}

/// The URL of a test server; a fault is told with the market.
pub fn test_websocket_url(
    base_url: &str,
    instrument: &Instrument,
    timeframe: Timeframe,
    address: HostAddress,
) -> (url: Result<UrlParts, ProviderError>)
    ensures
        match url_fault(
            crate::provider::runtime::endpoint::url_parts(base_url@),
            timeframe,
            true,
            address,
        ) {
            Some(detail) => url == Err::<UrlParts, ProviderError>(
                ProviderError::WebSocketConfiguration {
                    context: ErrorContext::of_market(
                        ErrorOperation::WebSocket,
                        *instrument,
                        timeframe,
                    ),
                    detail,
                },
            ),
            None => url matches Ok(found) && Some(found@)
                == crate::provider::runtime::endpoint::url_parts(base_url@),
        },
{
    match websocket_url_from_base(base_url, timeframe, true, address) {
        Ok(url) => Ok(url),
        Err(error) => Err(contextualize_websocket_configuration(error, instrument, timeframe)),
    }
}

/// The symbol of a market: its base and quote, and a mark where it is a perpetual one.
pub open spec fn symbol_of(market: Market, base: Seq<char>, quote: Seq<char>) -> Seq<char> {
    match market {
        Market::Spot => base + "-"@ + quote,
        Market::Perpetual => base + "-"@ + quote + "-SWAP"@,
    }
}

/// The instrument that a specification names; `local` is its canonical form, where it has one.
pub fn canonicalize(spec: &InstrumentSpec, local: Option<&Instrument>) -> (instrument: Result<
    Instrument,
    ProviderError,
>)
    ensures
        if spec.provider@ != "okx"@ || spec.venue is Some || local is None {
            instrument == Err::<Instrument, ProviderError>(
                ProviderError::Configuration("instrument is not valid for OKX"),
            )
        } else {
            instrument matches Ok(found) && found.provider == spec.provider && found.market
                == spec.market && found.base == local->0.base && found.quote == local->0.quote
                && found.provider_symbol@ == symbol_of(
                spec.market,
                local->0.base@,
                local->0.quote@,
            )
        },
{
    if !same_text(spec.provider.as_str(), "okx") || spec.venue.is_some() {
        return Err(ProviderError::Configuration("instrument is not valid for OKX"));
    }
    match local {
        None => Err(ProviderError::Configuration("instrument is not valid for OKX")),
        Some(local) => {
            let mut symbol = local.base.clone();
            symbol.append("-");
            symbol.append(local.quote.as_str());
            if spec.market == Market::Perpetual {
                symbol.append("-SWAP");
            }
            Ok(
                Instrument {
                    provider: spec.provider.clone(),
                    market: spec.market,
                    base: local.base.clone(),
                    quote: local.quote.clone(),
                    provider_symbol: symbol,
                },
            )
        },
    }
}

/// Before the subscription is accepted no candle is passed on, whatever rows come; those held back
/// stay few and open apart.
pub proof fn law_candles_wait_for_the_subscription(
    held: Seq<Candle>,
    terms: RowTerms,
    rows: Seq<OkxRow>,
    place: int,
)
    requires
        held.len() <= MAX_PRE_ACK_CANDLES,
        open_apart(held),
    ensures
        rows_taken(false, held, terms, rows).0.len() <= MAX_PRE_ACK_CANDLES,
        open_apart(rows_taken(false, held, terms, rows).0),
        0 <= place < rows_taken(false, held, terms, rows).1.len() ==> rows_taken(
            false,
            held,
            terms,
            rows,
        ).1[place] is ProviderError,
    decreases rows.len(),
{
    if rows.len() > 0 {
        match row_step(false, held, terms, rows[0]) {
            RowStep::Failed(_) => {},
            RowStep::Taken(next, frames) => {
                lemma_held_apart(held, row_candle(terms, rows[0].fields->0@)->Ok_0);
                law_candles_wait_for_the_subscription(next, terms, rows.skip(1), place);
                let rest = rows_taken(false, next, terms, rows.skip(1));
                assert(frames + rest.1 =~= rest.1);
            },
        }
    }
}

proof fn lemma_held_apart(held: Seq<Candle>, candle: Candle)
    requires
        open_apart(held),
    ensures
        open_apart(held_with(held, candle)),
{
    let next = held_with(held, candle);
    assert forall|i: int, j: int| 0 <= i < j < next.len() implies (#[trigger] next[i]).opens_at()
        != (#[trigger] next[j]).opens_at() by {
        if next.len() == held.len() {
            assert(held[i].opens_at() != held[j].opens_at());
        } else if j < held.len() {
            assert(held[i].opens_at() != held[j].opens_at());
        }
    }
}

/// Once the subscription is accepted nothing is held back: every row before the first that is no
/// candle is passed on, in order.
pub proof fn law_subscribed_rows_pass_in_order(
    held: Seq<Candle>,
    terms: RowTerms,
    rows: Seq<OkxRow>,
    place: int,
)
    requires
        0 <= place < rows.len(),
        forall|i: int|
            0 <= i <= place ==> row_step(true, held, terms, #[trigger] rows[i]) is Taken,
    ensures
        rows_taken(true, held, terms, rows).0 == held,
        place < rows_taken(true, held, terms, rows).1.len(),
        rows_taken(true, held, terms, rows).1[place] == DecodedFrame::Provider(
            OkxDecoded::Candle(row_candle(terms, rows[place].fields->0@)->Ok_0),
        ),
    decreases rows.len(),
{
    lemma_subscribed_holds_nothing(held, terms, rows);
    assert(row_step(true, held, terms, rows[0]) is Taken);
    if place > 0 {
        assert forall|i: int| 0 <= i <= place - 1 implies row_step(
            true,
            held,
            terms,
            #[trigger] rows.skip(1)[i],
        ) is Taken by {
            assert(rows.skip(1)[i] == rows[i + 1]);
        }
        law_subscribed_rows_pass_in_order(held, terms, rows.skip(1), place - 1);
    }
}

proof fn lemma_subscribed_holds_nothing(held: Seq<Candle>, terms: RowTerms, rows: Seq<OkxRow>)
    ensures
        rows_taken(true, held, terms, rows).0 == held,
    decreases rows.len(),
{
    if rows.len() > 0 {
        lemma_subscribed_holds_nothing(held, terms, rows.skip(1));
    }
}

/// History comes oldest first, each candle opening after the one before it, and within the window
/// that was asked for.
pub proof fn law_history_is_ordered(
    terms: RowTerms,
    window: HistoryWindow,
    rows: Seq<Vec<OkxField>>,
    i: int,
    j: int,
)
    requires
        forall|k: int|
            0 <= k < rows.len() ==> (#[trigger] history_candle(terms, window, rows, k)) is Ok,
        0 <= i < j < rows.len(),
    ensures
        history_candles(terms, window, rows)[i].opens_at() < history_candles(
            terms,
            window,
            rows,
        )[j].opens_at(),
        window.has(history_candles(terms, window, rows)[i].opens_at()),
        window.has(history_candles(terms, window, rows)[j].opens_at()),
    decreases j - i,
{
    let last = rows.len() - 1;
    assert(history_candle(terms, window, rows, last - i) is Ok);
    assert(history_candle(terms, window, rows, last - j) is Ok);
    assert(history_candle(terms, window, rows, last - (j - 1)) is Ok);
    if i < j - 1 {
        law_history_is_ordered(terms, window, rows, i, j - 1);
    }
}

/// A page that fills a gap asks for no more periods than it may have rows: from the start through the
/// upper bound there are exactly as many as the limit.
pub proof fn law_page_reaches_its_limit(timeframe: Timeframe, start: i64, limit: u16, upper: i64)
    requires
        limit > 0,
        page_upper(timeframe, start, limit) == Some(upper),
    ensures
        opens_after(timeframe, start, (limit - 1) as nat) == Some(upper),
        start <= upper,
{
    lemma_later_periods_open_later(timeframe, start, (limit - 1) as nat);
}

proof fn lemma_later_periods_open_later(timeframe: Timeframe, start: i64, periods: nat)
    requires
        opens_after(timeframe, start, periods) is Some,
    ensures
        start <= opens_after(timeframe, start, periods)->0,
    decreases periods,
{
    if periods > 0 {
        lemma_later_periods_open_later(timeframe, start, (periods - 1) as nat);
        let before = opens_after(timeframe, start, (periods - 1) as nat)->0;
        let next = opens_after(timeframe, start, periods)->0;
        let grid = period_grid(timeframe);
        assert(grid.follows(before as int, next as int));
        crate::calendar::law_successor_is_later_and_single(
            grid,
            before as int,
            next as int,
            next as int,
        );
    }
}

/// The name of the stream of a period ends in what the provider calls the period.
pub proof fn law_channel_names_the_bar(timeframe: Timeframe)
    ensures
        channel_name(timeframe) is Some <==> supported(timeframe),
        match (channel_name(timeframe), bar_name(timeframe)) {
            (Some(channel), Some(bar)) => channel@ == "candle"@ + bar@,
            (None, None) => true,
            _ => false,
        },
{
    reveal_strlit("candle");
    reveal_strlit("1s");
    reveal_strlit("candle1s");
    reveal_strlit("1m");
    reveal_strlit("candle1m");
    reveal_strlit("3m");
    reveal_strlit("candle3m");
    reveal_strlit("5m");
    reveal_strlit("candle5m");
    reveal_strlit("15m");
    reveal_strlit("candle15m");
    reveal_strlit("30m");
    reveal_strlit("candle30m");
    reveal_strlit("1H");
    reveal_strlit("candle1H");
    reveal_strlit("2H");
    reveal_strlit("candle2H");
    reveal_strlit("4H");
    reveal_strlit("candle4H");
    reveal_strlit("6Hutc");
    reveal_strlit("candle6Hutc");
    reveal_strlit("12Hutc");
    reveal_strlit("candle12Hutc");
    reveal_strlit("1Dutc");
    reveal_strlit("candle1Dutc");
    reveal_strlit("3Dutc");
    reveal_strlit("candle3Dutc");
    reveal_strlit("1Wutc");
    reveal_strlit("candle1Wutc");
    reveal_strlit("1Mutc");
    reveal_strlit("candle1Mutc");
    if let (Some(channel), Some(bar)) = (channel_name(timeframe), bar_name(timeframe)) {
        assert(channel@ =~= "candle"@ + bar@);
    }
}

} // verus!
