//! What Binance's history and streams come to, whatever is asked for and whatever is sent.
use std::time::Duration;

use vstd::prelude::*;

use crate::candle::{Candle, FinalityAuthority};
use crate::error::{ErrorContext, PayloadError, ProviderError};
use crate::model::{HistoryRequest, Instrument, Market, MonoInstant, Timeframe};
use crate::provider::binance::{
    asks_for, envelope_frame, feed_event, kline_frame, klines_path_text, limit_decision,
    message_frame, refusal_is, row_candle, row_limit, stream_path_text, stream_server,
    BinanceDecoded, KlineField, KlineRow, WsEnvelope, WsKline,
};
use crate::provider::runtime::config::WsConfig;
use crate::provider::runtime::frame::{DecodedFrame, WsMessage};
use crate::provider::runtime::http::{QueryField, RateLimitDecision};
use crate::provider::runtime::live::LiveSocketEvent;

verus! {

/// Each market has a server and a path of its own: streams of the spot market and of perpetuals come
/// from two servers, both over TLS, and their history lies under two paths.
pub proof fn law_markets_have_their_own_servers(left: Market, right: Market)
    ensures
        stream_server(Market::Spot)@ == "wss://data-stream.binance.vision"@,
        stream_server(Market::Perpetual)@ == "wss://fstream.binance.com"@,
        klines_path_text(Market::Spot)@ == "/api/v3/klines"@,
        klines_path_text(Market::Perpetual)@ == "/fapi/v1/klines"@,
        left != right ==> stream_server(left)@ != stream_server(right)@ && klines_path_text(left)@
            != klines_path_text(right)@,
        stream_server(left)@.take(6) == "wss://"@,
{
    reveal_strlit("wss://data-stream.binance.vision");
    reveal_strlit("wss://fstream.binance.com");
    reveal_strlit("/api/v3/klines");
    reveal_strlit("/fapi/v1/klines");
    reveal_strlit("wss://");
    assert("wss://data-stream.binance.vision"@.len() == 32);
    assert("wss://fstream.binance.com"@.len() == 25);
    assert("/api/v3/klines"@[1] == 'a');
    assert("/fapi/v1/klines"@[1] == 'f');
    assert(stream_server(left)@.take(6) =~= "wss://"@);
}

/// A stream is named by its market's symbol in small letters and its period: two streams have one
/// path only where they are of one period and of symbols that differ in the size of letters alone.
pub proof fn law_streams_have_their_own_paths(instrument: Instrument, timeframe: Timeframe)
    ensures
        ({
            let symbol = instrument.provider_symbol@;
            let path = stream_path_text(instrument, timeframe);
            &&& path.len() == 4 + symbol.len() + 7 + timeframe.spelling()@.len()
            &&& path.take(4) == "/ws/"@
            &&& forall|i: int|
                0 <= i < symbol.len() && !('A' <= symbol[i] <= 'Z') ==> #[trigger] path[i + 4]
                    == symbol[i]
            &&& forall|i: int|
                0 <= i < symbol.len() && 'A' <= symbol[i] <= 'Z' ==> #[trigger] path[i + 4] as int
                    == symbol[i] as int + 32
            &&& path.subrange((4 + symbol.len()) as int, (11 + symbol.len()) as int) == "@kline_"@
            &&& path.skip((11 + symbol.len()) as int) == timeframe.spelling()@
        }),
{
    reveal_strlit("/ws/");
    reveal_strlit("@kline_");
    let symbol = instrument.provider_symbol@;
    let path = stream_path_text(instrument, timeframe);
    assert(path.take(4) =~= "/ws/"@);
    assert(path.subrange((4 + symbol.len()) as int, (11 + symbol.len()) as int) =~= "@kline_"@);
    assert(path.skip((11 + symbol.len()) as int) =~= timeframe.spelling()@);
    assert forall|i: int| 0 <= i < symbol.len() implies #[trigger] path[i + 4] == crate::text::lower(
        symbol[i],
    ) by {
        assert(path[i + 4] == crate::text::lowered(symbol)[i]);
    }
}

/// Whether a candle has the numbers of a row, each from the field where the provider puts it.
pub open spec fn is_read_from(candle: Candle, fields: Seq<KlineField>) -> bool {
    &&& fields.len() == 12
    &&& fields[0].integer == Some(candle.values.open_time)
    &&& fields[1].number == Some(candle.values.open)
    &&& fields[2].number == Some(candle.values.high)
    &&& fields[3].number == Some(candle.values.low)
    &&& fields[4].number == Some(candle.values.close)
    &&& fields[5].number == Some(candle.values.base_volume)
    &&& fields[6].integer == Some(candle.values.close_time)
}

/// Whether a row could be a candle: it has all fields, its times and prices are in order, and what
/// counts or measures trade is not negative.
pub open spec fn is_sound(fields: Seq<KlineField>) -> bool {
    &&& fields.len() == 12
    &&& fields[0].integer is Some && fields[6].integer is Some && fields[0].integer->0
        <= fields[6].integer->0
    &&& forall|i: int| 1 <= i <= 5 ==> (#[trigger] fields[i]).number is Some
    &&& fields[3].number->0.place() <= fields[1].number->0.place() <= fields[2].number->0.place()
    &&& fields[3].number->0.place() <= fields[4].number->0.place() <= fields[2].number->0.place()
    &&& 0 <= fields[5].number->0.place()
    &&& fields[7].number is Some && 0 <= fields[7].number->0.place()
    &&& fields[8].integer is Some && 0 <= fields[8].integer->0
    &&& fields[9].number is Some && 0 <= fields[9].number->0.place()
    &&& fields[10].number is Some && 0 <= fields[10].number->0.place()
    &&& fields[11].text is Some
}

/// A row of history is a candle exactly where it could be one, and then has the row's numbers and
/// the least authority.
pub proof fn law_history_rows(row: KlineRow, context: ErrorContext)
    ensures
        row_candle(row, context) is Ok <==> (row.fields matches Some(fields) && is_sound(fields@)),
        row_candle(row, context) matches Ok(candle) ==> (row.fields matches Some(fields)
            && is_read_from(candle, fields@) && candle.authority
            == FinalityAuthority::RestProvisionalOpen),
{
    if let Some(fields) = row.fields {
        if is_sound(fields@) {
            assert(fields@[1].number is Some && fields@[2].number is Some && fields@[3].number
                is Some && fields@[4].number is Some && fields@[5].number is Some);
        }
    }
}

/// A row that is no array, or has not twelve fields, is refused for how many it has.
pub proof fn law_rows_have_twelve_fields(row: KlineRow, context: ErrorContext)
    ensures
        row.fields is None ==> row_candle(row, context) == Err::<Candle, ProviderError>(
            ProviderError::Payload {
                context,
                source: PayloadError::WrongArity { expected: 12, actual: 0 },
            },
        ),
        row.fields matches Some(fields) ==> (fields@.len() != 12 ==> row_candle(row, context)
            == Err::<Candle, ProviderError>(
            ProviderError::Payload {
                context,
                source: PayloadError::WrongArity {
                    expected: 12,
                    actual: fields@.len() as usize,
                },
            },
        )),
{
}

/// Whether a kline could be a candle: its times and prices are in order, and its volume is not
/// negative.
pub open spec fn is_sound_kline(kline: WsKline) -> bool {
    &&& kline.open is Some && kline.high is Some && kline.low is Some && kline.close is Some
        && kline.volume is Some
    &&& kline.open_time <= kline.close_time
    &&& kline.low->0.place() <= kline.open->0.place() <= kline.high->0.place()
    &&& kline.low->0.place() <= kline.close->0.place() <= kline.high->0.place()
    &&& 0 <= kline.volume->0.place()
}

/// A kline of the stream is passed on exactly where it could be a candle and is of the market and the
/// period that were subscribed to, by all of its names. It has the kline's numbers, and is closed
/// where the kline is.
pub proof fn law_stream_klines(
    symbol: Option<String>,
    kline: WsKline,
    instrument: Instrument,
    timeframe: Timeframe,
    context: ErrorContext,
)
    ensures
        ({
            let frame = kline_frame(symbol, kline, instrument, timeframe, context);
            let named = symbol is Some && symbol->0@ == instrument.provider_symbol@ && kline.symbol@
                == instrument.provider_symbol@ && kline.interval@ == timeframe.spelling()@;
            &&& frame is Provider <==> named && is_sound_kline(kline)
            &&& !(frame is Provider) ==> frame is ProviderError
            &&& !named ==> (frame matches DecodedFrame::ProviderError(error) && error is Protocol)
            &&& frame matches DecodedFrame::Provider(BinanceDecoded::Candle(candle)) ==> {
                &&& candle.values.open_time == kline.open_time
                &&& candle.values.close_time == kline.close_time
                &&& kline.open == Some(candle.values.open)
                &&& kline.high == Some(candle.values.high)
                &&& kline.low == Some(candle.values.low)
                &&& kline.close == Some(candle.values.close)
                &&& kline.volume == Some(candle.values.base_volume)
                &&& kline.closed ==> candle.authority == FinalityAuthority::WsAuthoritativeClosed
                &&& !kline.closed ==> candle.authority == FinalityAuthority::WsAuthoritativeOpen
            }
        }),
{
}

/// What an envelope says: a shutdown asks to be connected to anew whatever else is there; a code or a
/// message is an error, of the symbol where the code says so; only an event `kline` is a kline.
pub proof fn law_envelopes_tell_messages(
    envelope: WsEnvelope,
    instrument: Instrument,
    timeframe: Timeframe,
    context: ErrorContext,
)
    ensures
        ({
            let frame = envelope_frame(envelope, instrument, timeframe, context);
            let event = match envelope.event {
                Some(event) => Some(event@),
                None => None,
            };
            let refused = envelope.code is Some || envelope.msg is Some;
            &&& frame is ReconnectRequested <==> event == Some("serverShutdown"@)
            &&& event != Some("serverShutdown"@) && envelope.code == Some(-1121i64) ==> (
            frame matches DecodedFrame::ProviderError(error) && error is InvalidSymbol)
            &&& event != Some("serverShutdown"@) && envelope.code != Some(-1121i64) && refused ==> (
            frame matches DecodedFrame::ProviderError(error) && error is Protocol)
            &&& frame is Ignored <==> event != Some("serverShutdown"@) && event != Some("kline"@)
                && !refused
            &&& event == Some("kline"@) && !refused && envelope.k is Some ==> frame == kline_frame(
                envelope.symbol,
                envelope.k->0,
                instrument,
                timeframe,
                context,
            )
            &&& event == Some("kline"@) && !refused && envelope.k is None ==> (
            frame matches DecodedFrame::ProviderError(error) && error is Payload)
        }),
{
    reveal_strlit("serverShutdown");
    reveal_strlit("kline");
    assert("serverShutdown"@.len() == 14 && "kline"@.len() == 5);
}

/// A text and a binary message are read alike; one that is too large, or cannot be read, is an error;
/// a close closes, and whatever else comes means nothing.
pub proof fn law_messages(
    message: WsMessage,
    envelope: Option<WsEnvelope>,
    instrument: Instrument,
    timeframe: Timeframe,
    config: WsConfig,
    bytes: Vec<u8>,
    code: Option<u16>,
)
    requires
        config.fault() is None,
    ensures
        message_frame(WsMessage::Text(bytes), envelope, instrument, timeframe, config)
            == message_frame(WsMessage::Binary(bytes), envelope, instrument, timeframe, config),
        bytes@.len() > config.max_message_size ==> (message_frame(
            WsMessage::Text(bytes),
            envelope,
            instrument,
            timeframe,
            config,
        ) matches DecodedFrame::ProviderError(error) && error matches ProviderError::Payload {
            source,
            ..
        } && source == (PayloadError::OverBudget { limit_bytes: config.max_message_size })),
        bytes@.len() <= config.max_message_size && envelope is None ==> (message_frame(
            WsMessage::Text(bytes),
            envelope,
            instrument,
            timeframe,
            config,
        ) matches DecodedFrame::ProviderError(error) && error is Payload),
        bytes@.len() <= config.max_message_size && envelope is Some ==> message_frame(
            WsMessage::Text(bytes),
            envelope,
            instrument,
            timeframe,
            config,
        ) == envelope_frame(
            envelope->0,
            instrument,
            timeframe,
            ErrorContext::of_market(crate::error::ErrorOperation::WebSocket, instrument, timeframe),
        ),
        message_frame(WsMessage::Close(code), envelope, instrument, timeframe, config)
            == DecodedFrame::<BinanceDecoded>::Close(code),
        !(message is Text || message is Binary || message is Close) ==> message_frame(
            message,
            envelope,
            instrument,
            timeframe,
            config,
        ) is Ignored,
{
}

/// What a live feed is told of each frame: the candle that it is, the error that it reports, to
/// connect anew where the peer closes or asks for it, and nothing of a frame without meaning.
pub proof fn law_frames_become_events(candle: Candle, error: ProviderError, code: Option<u16>)
    ensures
        feed_event(DecodedFrame::Provider(BinanceDecoded::Candle(candle)))
            == LiveSocketEvent::Candle(candle),
        feed_event(DecodedFrame::ProviderError(error)) == LiveSocketEvent::DecodedError(error),
        feed_event(DecodedFrame::Close(code)) is ReconnectRequested,
        feed_event(DecodedFrame::ReconnectRequested) is ReconnectRequested,
        feed_event(DecodedFrame::Ignored) is Ignored,
{
}

/// Whether the query's field at a place has a name and a value.
pub open spec fn says(query: Seq<QueryField>, place: int, name: Seq<char>, value: Seq<char>) -> bool {
    0 <= place < query.len() && query[place].name@ == name && query[place].value@ == value
}

/// A query names the market's own symbol, the period and the limit, and each bound that the request
/// has under its own name, both of them included.
pub proof fn law_queries_ask_for_their_request(
    query: Seq<QueryField>,
    instrument: Instrument,
    timeframe: Timeframe,
    request: HistoryRequest,
)
    requires
        asks_for(query, instrument, timeframe, request),
    ensures
        says(query, 0, "symbol"@, instrument.provider_symbol@),
        says(query, 1, "interval"@, timeframe.spelling()@),
        says(query, 2, "limit"@, crate::text::signed_numeral(request.limit as int)),
        request.start_time matches Some(start) ==> says(
            query,
            3,
            "startTime"@,
            crate::text::signed_numeral(start as int),
        ),
        request.end_time matches Some(end) ==> says(
            query,
            query.len() - 1,
            "endTime"@,
            crate::text::signed_numeral(end as int),
        ),
        request.start_time is None && request.end_time is None ==> query.len() == 3,
        request.start_time is Some && request.end_time is Some ==> query.len() == 5,
        (request.start_time is Some) != (request.end_time is Some) ==> query.len() == 4,
{
}

/// No answer may have more rows than were asked for, nor than a thousand.
pub proof fn law_answers_are_bounded(requested: u16)
    ensures
        row_limit(requested) <= requested,
        row_limit(requested) <= 1000,
        row_limit(requested) == requested || row_limit(requested) == 1000,
{
}

/// What too many requests lead to: a time that the answer names is waited for, whether it warns or
/// bans; a warning that names none is waited out for the usual time; a ban that names none stops the
/// process.
pub proof fn law_limits(
    status: u16,
    header: Option<Seq<char>>,
    fallback: Duration,
    now: MonoInstant,
)
    ensures
        crate::provider::runtime::http::named_deadline(header, now) matches Some(deadline)
            ==> limit_decision(status, header, fallback, now) == RateLimitDecision::TimedUntil(
            deadline,
        ),
        crate::provider::runtime::http::named_deadline(header, now) is None && status == 429 && now.0
            + crate::clock::duration_nanos(fallback) <= u64::MAX ==> (limit_decision(
            status,
            header,
            fallback,
            now,
        ) matches RateLimitDecision::TimedUntil(deadline) && deadline.0 == now.0
            + crate::clock::duration_nanos(fallback)),
        crate::provider::runtime::http::named_deadline(header, now) is None && status == 418
            ==> limit_decision(status, header, fallback, now) is ProcessBlocked,
{
}

/// What a refusal is: of the symbol where a bad request says so by its code; the client's where the
/// status is in the four hundreds, with the code and words that came; and the server's otherwise.
pub proof fn law_refusals(
    status: u16,
    code: Option<i64>,
    words: Option<Seq<char>>,
    context: ErrorContext,
    error: ProviderError,
)
    requires
        refusal_is(status, code, words, context, error),
    ensures
        error is InvalidSymbol <==> status == 400 && code == Some(-1121i64),
        error is ServerStatus <==> status < 400 || status >= 500,
        error is InvalidSymbol || error is ServerStatus || error is ClientStatus,
        error matches ProviderError::ClientStatus { status: given, code: named, .. } ==> given
            == status && named == code,
        error matches ProviderError::ServerStatus { status: given, .. } ==> given == status,
        error matches ProviderError::InvalidSymbol { code: named, .. } ==> named == -1121,
{
}

/// A live feed's terms are accepted exactly where its supervisor's are, its socket's too, and its
/// connections may grow older than no time; usually they may be a day old.
pub proof fn law_valid_terms(config: crate::provider::binance::LiveSupervisorConfig)
    ensures
        config.fault() is None <==> config.supervisor.limits_fault() is None
            && config.supervisor.ws_config.fault() is None && crate::clock::duration_nanos(
            config.max_connection_age,
        ) > 0,
        config.usual() ==> crate::clock::duration_nanos(config.max_connection_age) == 24 * 3600
            * 1_000_000_000 && crate::clock::duration_nanos(
            config.supervisor.ws_config.message_inactivity_timeout,
        ) == 60 * 1_000_000_000,
{
}

/// A specification is one of this provider's exactly where it names it, and no venue.
pub proof fn law_specifications(spec: crate::model::InstrumentSpec)
    ensures
        crate::provider::binance::accepts(spec) <==> spec.provider@ == "binance"@ && spec.venue
            is None,
{
}

/// A body of history that is an array of no more items than may come becomes as many rows, in their
/// order; a row that is an array has its items as fields, each with its integer or its text; and every
/// other body is an error.
pub proof fn law_bodies_become_rows(
    bytes: Seq<u8>,
    limit: u16,
    context: ErrorContext,
    rows: Result<Vec<KlineRow>, ProviderError>,
    items: Seq<crate::json::JsonView>,
    cells: Seq<crate::json::JsonView>,
    place: int,
    column: int,
)
    requires
        crate::provider::binance::rows_of(bytes, limit, context, rows),
        0 <= place < items.len(),
        0 <= column < cells.len(),
    ensures
        rows is Ok ==> (crate::json::json_document(bytes) matches Some(
            crate::json::JsonView::Array(read),
        ) && read.len() <= limit && read.len() <= 1000),
        crate::json::json_document(bytes) is None ==> (rows matches Err(
            ProviderError::Payload { source: crate::error::PayloadError::MalformedJson, .. },
        )),
        crate::json::json_document(bytes) == Some(crate::json::JsonView::Array(items))
            && crate::json::starts_with_bracket(bytes) ==> {
            &&& items.len() <= limit && items.len() <= 1000 <==> rows is Ok
            &&& rows matches Ok(read) ==> {
                &&& read@.len() == items.len()
                &&& read@[place].fields is Some <==> items[place] is Array
                &&& items[place] == crate::json::JsonView::Array(cells) ==> {
                    let field = read@[place].fields->0@[column];
                    &&& read@[place].fields->0@.len() == cells.len()
                    &&& cells[column] matches crate::json::JsonView::Number(number) ==> field.integer
                        == number && field.text is None
                    &&& cells[column] matches crate::json::JsonView::Text(text) ==> (field.text
                        matches Some(held) && held@ == text) && field.integer is None
                }
            }
        },
{
    if crate::json::json_document(bytes) == Some(crate::json::JsonView::Array(items))
        && crate::json::starts_with_bracket(bytes) {
        if let Ok(read) = rows {
            assert(crate::provider::binance::row_of(read@[place], items[place]));
            if items[place] == crate::json::JsonView::Array(cells) {
                assert(crate::provider::binance::field_of(
                    read@[place].fields->0@[column],
                    cells[column],
                ));
            }
        }
    }
}

} // verus!
