//! What OKX's history and streams come to, whatever is asked for and whatever is sent.
use vstd::prelude::*;

use crate::candle::{Candle, FinalityAuthority};
use crate::error::{ErrorContext, ProviderError};
use crate::model::{HistoryRequest, HistoryRequestKind, Instrument, Market, Timeframe};
use crate::provider::okx::{
    answer, asks_for, bar_name, feed_event, head_meaning, held_with, history_candle,
    history_candles, next_open, opens_after, page_upper, period_grid, refusal_is, row_candle,
    rows_taken, subscribe_text, symbol_of, window_of, HistoryWindow, Meaning, OkxDecoded, OkxField,
    OkxHeadView, OkxRow, RowTerms,
};
use crate::provider::runtime::frame::DecodedFrame;
use crate::provider::runtime::http::QueryField;
use crate::provider::runtime::live::LiveSocketEvent;

verus! {

/// The text of a field, where it has one.
pub open spec fn text_of(field: OkxField) -> Option<Seq<char>> {
    match field.text {
        Some(text) => Some(text@),
        None => None,
    }
}

/// Whether a candle has the numbers of a row, each from the field where the provider puts it: the
/// opening time first, then the prices; the volume in base units is the sixth field of a spot market
/// and the seventh of a perpetual one.
pub open spec fn is_read_from(candle: Candle, market: Market, fields: Seq<OkxField>) -> bool {
    &&& fields.len() == 9
    &&& text_of(fields[0]) matches Some(stamp) && crate::text::signed_value(stamp) == Some(
        candle.values.open_time,
    )
    &&& fields[1].number == Some(candle.values.open)
    &&& fields[2].number == Some(candle.values.high)
    &&& fields[3].number == Some(candle.values.low)
    &&& fields[4].number == Some(candle.values.close)
    &&& market == Market::Spot ==> fields[5].number == Some(candle.values.base_volume)
    &&& market == Market::Perpetual ==> fields[6].number == Some(candle.values.base_volume)
}

/// Whether a row could be a candle that opens at a time: it has all fields, its prices are numbers in
/// order, its volumes are numbers that are not negative, and it says whether it is final.
pub open spec fn is_sound(fields: Seq<OkxField>, open_time: i64) -> bool {
    &&& fields.len() == 9
    &&& text_of(fields[0]) matches Some(stamp) && crate::text::signed_value(stamp) == Some(open_time)
    &&& forall|i: int| 1 <= i <= 7 ==> (#[trigger] fields[i]).number is Some
    &&& fields[3].number->0.place() <= fields[1].number->0.place() <= fields[2].number->0.place()
    &&& fields[3].number->0.place() <= fields[4].number->0.place() <= fields[2].number->0.place()
    &&& 0 <= fields[5].number->0.place()
    &&& 0 <= fields[6].number->0.place()
    &&& 0 <= fields[7].number->0.place()
    &&& text_of(fields[8]) == Some("0"@) || text_of(fields[8]) == Some("1"@)
}

/// The candle of a row has the row's numbers, and which field its volume comes from depends on the
/// market alone. It closes just before the next period opens, and opens no more than five minutes
/// ahead of the clock. One of the stream is closed exactly where the row says so; one of history has
/// the least authority, whatever the row says.
pub proof fn law_rows_are_read_by_place(terms: RowTerms, fields: Seq<OkxField>)
    ensures
        row_candle(terms, fields) matches Ok(candle) ==> {
            &&& is_read_from(candle, terms.market, fields)
            &&& candle.valid()
            &&& period_grid(terms.timeframe).follows(
                candle.values.open_time as int,
                candle.values.close_time + 1,
            )
            &&& candle.values.open_time <= terms.now_ms + 300_000
            &&& !terms.from_websocket ==> candle.authority == FinalityAuthority::RestProvisionalOpen
            &&& terms.from_websocket && text_of(fields[8]) == Some("1"@) ==> candle.authority
                == FinalityAuthority::WsAuthoritativeClosed
            &&& terms.from_websocket && text_of(fields[8]) == Some("0"@) ==> candle.authority
                == FinalityAuthority::WsAuthoritativeOpen
        },
{
    reveal_strlit("0");
    reveal_strlit("1");
    assert("0"@[0] != "1"@[0]);
    if let Ok(candle) = row_candle(terms, fields) {
        let open_time = candle.values.open_time;
        let grid = period_grid(terms.timeframe);
        let next = next_open(terms.timeframe, open_time)->0;
        assert(grid.follows(open_time as int, next as int));
        crate::calendar::law_successor_is_later_and_single(
            grid,
            open_time as int,
            next as int,
            next as int,
        );
    }
}

/// A row reads the same as history and as a row of the stream, whenever it is read: the times, the
/// prices and the volume are those of the row.
pub proof fn law_rows_read_alike(left: RowTerms, right: RowTerms, fields: Seq<OkxField>)
    requires
        left.market == right.market,
        left.timeframe == right.timeframe,
    ensures
        row_candle(left, fields) matches Ok(one) ==> (row_candle(right, fields) matches Ok(other)
            ==> one.values == other.values),
        left.now_ms == right.now_ms ==> (row_candle(left, fields) is Ok <==> row_candle(
            right,
            fields,
        ) is Ok),
{
}

/// A spot market's row and a perpetual one's differ in their volume alone.
pub proof fn law_markets_differ_in_volume_alone(
    spot: RowTerms,
    perpetual: RowTerms,
    fields: Seq<OkxField>,
)
    requires
        spot.market == Market::Spot,
        perpetual.market == Market::Perpetual,
        spot.timeframe == perpetual.timeframe,
    ensures
        row_candle(spot, fields) matches Ok(one) ==> (row_candle(
            perpetual,
            fields,
        ) matches Ok(other) ==> {
            &&& one.values.base_volume == fields[5].number->0
            &&& other.values.base_volume == fields[6].number->0
            &&& one.values.open_time == other.values.open_time && one.values.close_time
                == other.values.close_time
            &&& one.values.open == other.values.open && one.values.high == other.values.high
                && one.values.low == other.values.low && one.values.close == other.values.close
        }),
{
}

/// Every row that could be a candle is one, where its period opens at its time and it is not too far
/// ahead of the clock.
pub proof fn law_sound_rows_are_candles(
    terms: RowTerms,
    fields: Seq<OkxField>,
    open_time: i64,
    next: i64,
)
    requires
        terms.timeframe != Timeframe::Hour8,
        terms.now_ms + 300_000 <= i64::MAX,
        is_sound(fields, open_time),
        period_grid(terms.timeframe).follows(open_time as int, next as int),
        i64::MIN + 345_600_000 <= open_time <= terms.now_ms + 300_000,
    ensures
        row_candle(terms, fields) is Ok,
{
    let grid = period_grid(terms.timeframe);
    let found = next_open(terms.timeframe, open_time)->0;
    assert(grid.follows(open_time as int, found as int));
    crate::calendar::law_successor_is_later_and_single(
        grid,
        open_time as int,
        next as int,
        found as int,
    );
    assert(fields[1].number is Some && fields[2].number is Some && fields[3].number is Some
        && fields[4].number is Some && fields[5].number is Some && fields[6].number is Some
        && fields[7].number is Some);
}

/// A row that opens too far ahead of the clock, or where no period opens, is no candle.
pub proof fn law_unsound_rows_are_none(terms: RowTerms, fields: Seq<OkxField>, open_time: i64)
    requires
        fields.len() == 9,
        text_of(fields[0]) matches Some(stamp) && crate::text::signed_value(stamp) == Some(
            open_time,
        ),
        open_time > terms.now_ms + 300_000 || forall|next: i64|
            !period_grid(terms.timeframe).follows(open_time as int, next as int),
    ensures
        row_candle(terms, fields) is Err,
{
}

/// Weeks open on Mondays, every other fixed period where a whole number of them has passed since
/// 1970.
pub proof fn law_periods_open_on_the_grid(timeframe: Timeframe, time: int, next: int)
    requires
        period_grid(timeframe).follows(time, next),
    ensures
        timeframe == Timeframe::Week1 ==> (time / 86_400_000 - 4) % 7 == 0 && time % 86_400_000
            == 0,
        timeframe != Timeframe::Week1 && timeframe != Timeframe::Month1 ==> time
            % crate::calendar::fixed_period(timeframe)->0 == 0,
        timeframe != Timeframe::Month1 ==> next - time == crate::calendar::fixed_period(
            timeframe,
        )->0,
{
    crate::calendar::law_periods_make_each_other_up();
    if timeframe == Timeframe::Week1 {
        assert((time - 345_600_000) % 604_800_000 == 0);
    }
}

/// Whether times are the openings of one period after another.
pub open spec fn opens_in_turn(timeframe: Timeframe, opens: Seq<i64>) -> bool {
    forall|i: int|
        0 <= i < opens.len() - 1 ==> period_grid(timeframe).follows(
            #[trigger] opens[i] as int,
            opens[i + 1] as int,
        )
}

proof fn lemma_turns(timeframe: Timeframe, opens: Seq<i64>, place: nat)
    requires
        timeframe != Timeframe::Hour8,
        opens_in_turn(timeframe, opens),
        place < opens.len(),
        i64::MIN + 345_600_000 <= opens[0],
    ensures
        opens_after(timeframe, opens[0], place) == Some(opens[place as int]),
        opens[0] <= opens[place as int],
    decreases place,
{
    if place > 0 {
        lemma_turns(timeframe, opens, (place - 1) as nat);
        let grid = period_grid(timeframe);
        let before = opens[place - 1];
        let next = opens[place as int];
        assert(grid.follows(before as int, next as int));
        let found = grid.next_open(before)->0;
        assert(grid.follows(before as int, found as int));
        crate::calendar::law_successor_is_later_and_single(
            grid,
            before as int,
            next as int,
            found as int,
        );
    }
}

proof fn lemma_turns_rise(timeframe: Timeframe, opens: Seq<i64>, earlier: int, later: int)
    requires
        opens_in_turn(timeframe, opens),
        0 <= earlier < later < opens.len(),
    ensures
        opens[earlier] < opens[later],
    decreases later - earlier,
{
    let grid = period_grid(timeframe);
    let before = opens[later - 1];
    assert(grid.follows(before as int, opens[later] as int));
    crate::calendar::law_successor_is_later_and_single(
        grid,
        before as int,
        opens[later] as int,
        opens[later] as int,
    );
    if earlier < later - 1 {
        lemma_turns_rise(timeframe, opens, earlier, later - 1);
    }
}

/// The window of a page that fills a gap holds the first periods of the gap, as many as rows are
/// asked for: each of them that opens by the end of the gap is in it, and the one after them is not.
pub proof fn law_gap_window_holds_the_first_periods(
    timeframe: Timeframe,
    request: HistoryRequest,
    start: i64,
    end: i64,
    opens: Seq<i64>,
    place: int,
)
    requires
        timeframe != Timeframe::Hour8,
        request.kind == HistoryRequestKind::Gap,
        request.start_time == Some(start),
        request.end_time == Some(end),
        request.limit > 0,
        opens_in_turn(timeframe, opens),
        opens.len() == request.limit + 1,
        opens[0] == start,
        i64::MIN + 345_600_000 <= start,
        0 <= place < request.limit,
    ensures
        window_of(timeframe, request) matches Ok(window) && {
            &&& window.has(opens[place]) <==> opens[place] <= end
            &&& !window.has(opens[request.limit as int])
            &&& window == HistoryWindow::Span(start, if opens[request.limit - 1] < end {
                opens[request.limit - 1]
            } else {
                end
            })
        },
{
    let limit = request.limit as nat;
    lemma_turns(timeframe, opens, limit);
    lemma_turns(timeframe, opens, (limit - 1) as nat);
    if place > 0 {
        lemma_turns_rise(timeframe, opens, 0, place);
    }
    if place < limit - 1 {
        lemma_turns_rise(timeframe, opens, place, limit - 1);
    }
    lemma_turns_rise(timeframe, opens, limit - 1, limit as int);
}

/// The window of older candles holds all that open before the request's end; that of the latest holds
/// all.
pub proof fn law_open_windows(timeframe: Timeframe, request: HistoryRequest, end: i64, time: i64)
    ensures
        request.kind == HistoryRequestKind::Latest ==> (window_of(
            timeframe,
            request,
        ) matches Ok(window) && window.has(time)),
        request.kind == HistoryRequestKind::Older && request.end_time == Some(end) ==> (window_of(
            timeframe,
            request,
        ) matches Ok(window) && (window.has(time) <==> time < end)),
{
}

/// Whether the query's field at a place has a name and a value.
pub open spec fn says(query: Seq<QueryField>, place: int, name: Seq<char>, value: Seq<char>) -> bool {
    0 <= place < query.len() && query[place].name@ == name && query[place].value@ == value
}

/// A query names the market's own symbol, the provider's name of the period and the limit. The
/// provider leaves both of the bounds that it is given out, so that a span is asked for by the
/// instants next to its ends, and what is older by the end itself.
pub proof fn law_queries_ask_for_their_window(
    query: Seq<QueryField>,
    instrument: Instrument,
    timeframe: Timeframe,
    limit: u16,
    window: HistoryWindow,
)
    requires
        asks_for(query, instrument, timeframe, limit, window),
    ensures
        says(query, 0, "instId"@, instrument.provider_symbol@),
        bar_name(timeframe) is Some && says(query, 1, "bar"@, bar_name(timeframe)->0@),
        says(query, 2, "limit"@, crate::text::signed_numeral(limit as int)),
        window is Any ==> query.len() == 3,
        window matches HistoryWindow::Before(end) ==> query.len() == 4 && end is Some && says(
            query,
            3,
            "after"@,
            crate::text::signed_numeral(end->0 as int),
        ),
        window matches HistoryWindow::Span(start, end) ==> (query.len() == 5 && (i64::MIN < start
            && end < i64::MAX ==> says(
            query,
            3,
            "before"@,
            crate::text::signed_numeral(start - 1),
        ) && says(query, 4, "after"@, crate::text::signed_numeral(end + 1)))),
{
}

/// History is the rows turned round: the last row is the first candle.
pub proof fn law_history_turns_rows_round(
    terms: RowTerms,
    window: HistoryWindow,
    rows: Seq<Vec<OkxField>>,
    place: int,
)
    requires
        0 <= place < rows.len(),
        forall|k: int|
            0 <= k < rows.len() ==> (#[trigger] history_candle(terms, window, rows, k)) is Ok,
    ensures
        history_candles(terms, window, rows).len() == rows.len(),
        row_candle(terms, rows[place]@) == Ok::<Candle, ProviderError>(
            history_candles(terms, window, rows)[rows.len() - 1 - place],
        ),
        window.has(history_candles(terms, window, rows)[rows.len() - 1 - place].opens_at()),
{
    assert(history_candle(terms, window, rows, place) is Ok);
}

/// A row of history is taken where it is a candle in the window that opens before the one of the row
/// above it.
pub proof fn law_history_takes_falling_rows(
    terms: RowTerms,
    window: HistoryWindow,
    rows: Seq<Vec<OkxField>>,
    place: int,
    candle: Candle,
    above: Candle,
)
    requires
        0 <= place < rows.len(),
        row_candle(terms, rows[place]@) == Ok::<Candle, ProviderError>(candle),
        place > 0 ==> row_candle(terms, rows[place - 1]@) == Ok::<Candle, ProviderError>(above),
    ensures
        history_candle(terms, window, rows, place) == Ok::<Candle, ProviderError>(candle) <==> (place
            == 0 || candle.opens_at() < above.opens_at()) && window.has(candle.opens_at()),
{
}

/// What is held back until the subscription is accepted: for each opening time the candle that came
/// last, in the order in which the times first came.
pub proof fn law_held_back_candles(held: Seq<Candle>, candle: Candle, place: int)
    requires
        0 <= place < held.len(),
    ensures
        held_with(held, candle).contains(candle),
        held[place].opens_at() == candle.opens_at() ==> held_with(held, candle)[place] == candle
            && held_with(held, candle).len() == held.len(),
        held[place].opens_at() != candle.opens_at() ==> held_with(held, candle)[place]
            == held[place],
        (forall|i: int|
            0 <= i < held.len() ==> (#[trigger] held[i]).opens_at() != candle.opens_at())
            ==> held_with(held, candle) == held.push(candle),
        held.len() <= held_with(held, candle).len() <= held.len() + 1,
{
    let next = held_with(held, candle);
    if exists|i: int|
        0 <= i < held.len() && (#[trigger] held[i]).opens_at() == candle.opens_at() {
        let i = choose|i: int|
            0 <= i < held.len() && (#[trigger] held[i]).opens_at() == candle.opens_at();
        assert(next[i] == candle);
    } else {
        assert(next[held.len() as int] == candle);
    }
}

/// The candle of a row that comes before the subscription is accepted is held back, and nothing is
/// passed on; once it is accepted, the candle is passed on and nothing is held back.
pub proof fn law_one_row(held: Seq<Candle>, terms: RowTerms, row: OkxRow, candle: Candle)
    requires
        row.fields matches Some(fields) && row_candle(terms, fields@) == Ok::<
            Candle,
            ProviderError,
        >(candle),
    ensures
        rows_taken(true, held, terms, seq![row]) == (
            held,
            seq![DecodedFrame::Provider(OkxDecoded::Candle(candle))],
        ),
        held_with(held, candle).len() <= 16 ==> rows_taken(false, held, terms, seq![row]) == (
            held_with(held, candle),
            Seq::<DecodedFrame<OkxDecoded>>::empty(),
        ),
        held_with(held, candle).len() > 16 ==> rows_taken(false, held, terms, seq![row]).0 == held
            && rows_taken(false, held, terms, seq![row]).1.len() == 1 && rows_taken(
            false,
            held,
            terms,
            seq![row],
        ).1[0] is ProviderError,
{
    let rows = seq![row];
    assert(rows.skip(1) =~= Seq::<OkxRow>::empty());
    reveal_with_fuel(rows_taken, 2);
    let frames = seq![DecodedFrame::Provider(OkxDecoded::Candle(candle))];
    assert(frames + Seq::<DecodedFrame<OkxDecoded>>::empty() =~= frames);
    assert(Seq::<DecodedFrame<OkxDecoded>>::empty() + Seq::<DecodedFrame<OkxDecoded>>::empty()
        =~= Seq::<DecodedFrame<OkxDecoded>>::empty());
}

/// What a live feed is told of each frame: the candle that it is, the error that it reports, to
/// connect anew where the peer closes or asks for it, and nothing of a pong or a frame without
/// meaning. A second acceptance is a violation.
pub proof fn law_frames_become_events(
    candle: Candle,
    error: ProviderError,
    code: Option<u16>,
    buffered: Vec<Candle>,
)
    ensures
        feed_event(DecodedFrame::Provider(OkxDecoded::Candle(candle))) == LiveSocketEvent::Candle(
            candle,
        ),
        feed_event(DecodedFrame::ProviderError(error)) == LiveSocketEvent::DecodedError(error),
        feed_event(DecodedFrame::Close(code)) is ReconnectRequested,
        feed_event(DecodedFrame::ReconnectRequested) is ReconnectRequested,
        feed_event(DecodedFrame::Ignored) is Ignored,
        feed_event(DecodedFrame::Provider(OkxDecoded::ApplicationPong)) is Ignored,
        feed_event(
            DecodedFrame::Provider(OkxDecoded::SubscribeAccepted { buffered }),
        ) is ProtocolViolation,
        answer(Meaning::Pong) == DecodedFrame::Provider(OkxDecoded::ApplicationPong),
        answer(Meaning::Reconnect) is ReconnectRequested,
        answer(Meaning::Close(code)) == DecodedFrame::<OkxDecoded>::Close(code),
        answer(Meaning::Fail(error)) == DecodedFrame::<OkxDecoded>::ProviderError(error),
        answer(Meaning::Ignored) is Ignored,
{
}

/// A message is told by its event and its argument. A notice asks to be connected to anew where its
/// code says so; an error is one; a subscription is accepted once, and only where the answer repeats
/// all of it; rows are those of a message that names the subscription, and any other market's are a
/// failure.
pub proof fn law_heads_tell_messages(
    subscribed: bool,
    head: OkxHeadView,
    instrument: Instrument,
    timeframe: Timeframe,
    context: ErrorContext,
)
    requires
        timeframe != Timeframe::Hour8,
    ensures
        ({
            let meaning = head_meaning(subscribed, head, instrument, timeframe, context);
            let named = head.channel == Some("candle"@ + bar_name(timeframe)->0@) && head.inst_id
                == Some(instrument.provider_symbol@);
            &&& meaning is Reconnect <==> head.event == Some("notice"@) && head.code == Some(
                "64008"@,
            )
            &&& meaning is Accept <==> head.event == Some("subscribe"@) && !subscribed && head.id
                == Some("fccli1"@) && head.has_arg && named
            &&& head.event == Some("error"@) ==> meaning is Fail
            &&& head.event == Some("subscribe"@) && !(meaning is Accept) ==> meaning is Fail
            &&& meaning is Rows ==> head.has_arg && named && head.rows is Some && head.rows->0.len()
                <= 300
            &&& head.event is None && head.has_arg && named && head.rows is Some
                && head.rows->0.len() <= 300 ==> meaning is Rows
            &&& head.event is None && head.has_arg && !named ==> meaning is Fail
            &&& head.event is None && !head.has_arg ==> meaning is Ignored
            &&& !(meaning is Close || meaning is Pong)
        }),
{
    crate::provider::okx::law_channel_names_the_bar(timeframe);
    reveal_strlit("notice");
    reveal_strlit("error");
    reveal_strlit("subscribe");
    assert("notice"@.len() == 6 && "error"@.len() == 5 && "subscribe"@.len() == 9);
}

/// A market's symbol is its base and its quote; a perpetual one's is that of the spot market with a
/// mark behind it. So no two markets of one kind whose parts are as long share a symbol, and no spot
/// market shares one with the perpetual market of its parts.
pub proof fn law_symbols(base: Seq<char>, quote: Seq<char>, other: Seq<char>, against: Seq<char>)
    ensures
        symbol_of(Market::Spot, base, quote) == base.push('-') + quote,
        symbol_of(Market::Perpetual, base, quote) == symbol_of(Market::Spot, base, quote)
            + "-SWAP"@,
        symbol_of(Market::Perpetual, base, quote) != symbol_of(Market::Spot, base, quote),
        base.len() == other.len() && symbol_of(Market::Spot, base, quote) == symbol_of(
            Market::Spot,
            other,
            against,
        ) ==> base == other && quote == against,
{
    reveal_strlit("-");
    reveal_strlit("-SWAP");
    assert(symbol_of(Market::Spot, base, quote) =~= base.push('-') + quote);
    assert("-SWAP"@.len() == 5);
    assert(symbol_of(Market::Perpetual, base, quote).len() == symbol_of(
        Market::Spot,
        base,
        quote,
    ).len() + 5);
    if base.len() == other.len() && symbol_of(Market::Spot, base, quote) == symbol_of(
        Market::Spot,
        other,
        against,
    ) {
        let text = symbol_of(Market::Spot, base, quote);
        let same = symbol_of(Market::Spot, other, against);
        assert(base =~= text.take(base.len() as int));
        assert(other =~= same.take(base.len() as int));
        assert(quote =~= text.skip((base.len() + 1) as int));
        assert(against =~= same.skip((base.len() + 1) as int));
    }
}

/// A refusal that the provider explains by the code of an unknown symbol is one of the symbol; any
/// other is told as an answer that was refused, with its code.
pub proof fn law_refusals(
    code: Seq<char>,
    words: Seq<char>,
    context: ErrorContext,
    error: ProviderError,
)
    requires
        refusal_is(code, words, context, error),
    ensures
        crate::text::signed_value(code) == Some(51001i64) <==> error is InvalidSymbol,
        crate::text::signed_value(code) != Some(51001i64) <==> error is ClientStatus,
        error matches ProviderError::InvalidSymbol { code: named, message, .. } ==> named == 51001
            && (words.len() > 0 ==> message.words() == Some(words)),
        error matches ProviderError::ClientStatus { status, code: named, message, .. } ==> status
            == 200 && named == crate::text::signed_value(code) && (words.len() > 0 ==> message is Some
            && message->0.words() == Some(words)) && (words.len() == 0 ==> message is None),
{
}

/// A subscription names the stream of the market's period and the market's own symbol.
pub proof fn law_subscription_names_the_market(instrument: Instrument, timeframe: Timeframe)
    requires
        timeframe != Timeframe::Hour8,
    ensures
        subscribe_text(instrument, timeframe) == seq!['{'] + crate::json::entry(
            "args"@,
            seq!['[', '{'] + crate::json::entry(
                "channel"@,
                crate::json::plain("candle"@ + bar_name(timeframe)->0@),
            ) + seq![','] + crate::json::entry(
                "instId"@,
                crate::json::json_quoted(instrument.provider_symbol@),
            ) + seq!['}', ']'],
        ) + seq![','] + crate::json::entry("id"@, crate::json::plain("fccli1"@)) + seq![',']
            + crate::json::entry("op"@, crate::json::plain("subscribe"@)) + seq!['}'],
{
    crate::provider::okx::law_channel_names_the_bar(timeframe);
    reveal_strlit("args");
    reveal_strlit("channel");
    reveal_strlit("instId");
    reveal_strlit("id");
    reveal_strlit("fccli1");
    reveal_strlit("op");
    reveal_strlit("subscribe");
    reveal_strlit("{\"args\":[{\"channel\":\"");
    reveal_strlit("\",\"instId\":");
    reveal_strlit("}],\"id\":\"fccli1\",\"op\":\"subscribe\"}");
    assert(subscribe_text(instrument, timeframe) =~= seq!['{'] + crate::json::entry(
        "args"@,
        seq!['[', '{'] + crate::json::entry(
            "channel"@,
            crate::json::plain("candle"@ + bar_name(timeframe)->0@),
        ) + seq![','] + crate::json::entry(
            "instId"@,
            crate::json::json_quoted(instrument.provider_symbol@),
        ) + seq!['}', ']'],
    ) + seq![','] + crate::json::entry("id"@, crate::json::plain("fccli1"@)) + seq![',']
        + crate::json::entry("op"@, crate::json::plain("subscribe"@)) + seq!['}']);
}

/// A live feed's terms are accepted exactly where its supervisor's are, and it waits for its
/// subscription and between its heartbeats from a millisecond to a minute.
pub proof fn law_valid_terms(config: crate::provider::okx::OkxLiveConfig)
    ensures
        config.fault() is None <==> {
            let ack = crate::clock::duration_nanos(config.subscribe_ack_timeout);
            let beat = crate::clock::duration_nanos(config.application_heartbeat_interval_for_test);
            &&& config.supervisor.fault() is None
            &&& 1_000_000 <= ack <= 60_000_000_000
            &&& 1_000_000 <= beat <= 60_000_000_000
        },
{
}

/// A live feed usually waits ten seconds for its subscription, twenty between its heartbeats, and
/// thirty for a message.
pub proof fn law_usual_terms(config: crate::provider::okx::OkxLiveConfig)
    requires
        config.usual(),
    ensures
        crate::clock::duration_nanos(config.subscribe_ack_timeout) == 10_000_000_000,
        crate::clock::duration_nanos(config.application_heartbeat_interval_for_test)
            == 20_000_000_000,
        crate::clock::duration_nanos(config.supervisor.ws_config.message_inactivity_timeout)
            == 30_000_000_000,
        config.supervisor.usual(),
{
}

/// A socket that waits for its subscription is ready once that is accepted, with the candles that
/// were held back; a candle before it, an error or a close ends the wait; a pong or a frame without
/// meaning does not, until its time is up.
pub proof fn law_readiness(
    market: crate::provider::runtime::live::LiveMarket,
    buffered: Vec<Candle>,
    candle: Candle,
    error: ProviderError,
    code: Option<u16>,
    now: crate::model::MonoInstant,
    deadline: crate::model::MonoInstant,
)
    ensures
        crate::provider::okx::readiness(
            crate::provider::runtime::frame::ReadinessInput::Frame(
                DecodedFrame::Provider(OkxDecoded::SubscribeAccepted { buffered }),
            ),
            market,
            now,
            deadline,
        ) == crate::provider::runtime::ready::ReadyStep::Ready(buffered),
        crate::provider::okx::readiness(
            crate::provider::runtime::frame::ReadinessInput::Error(error),
            market,
            now,
            deadline,
        ) == crate::provider::runtime::ready::ReadyStep::<Vec<Candle>>::Fail(error),
        crate::provider::okx::readiness(
            crate::provider::runtime::frame::ReadinessInput::Frame(
                DecodedFrame::ProviderError(error),
            ),
            market,
            now,
            deadline,
        ) == crate::provider::runtime::ready::ReadyStep::<Vec<Candle>>::Fail(error),
        crate::provider::okx::readiness(
            crate::provider::runtime::frame::ReadinessInput::Frame(
                DecodedFrame::Provider(OkxDecoded::Candle(candle)),
            ),
            market,
            now,
            deadline,
        ) matches crate::provider::runtime::ready::ReadyStep::Fail(told) && told is Protocol,
        crate::provider::okx::readiness(
            crate::provider::runtime::frame::ReadinessInput::Frame(DecodedFrame::Close(code)),
            market,
            now,
            deadline,
        ) is Close,
        crate::provider::okx::readiness(
            crate::provider::runtime::frame::ReadinessInput::Frame(
                DecodedFrame::ReconnectRequested,
            ),
            market,
            now,
            deadline,
        ) is Close,
        crate::provider::okx::readiness(
            crate::provider::runtime::frame::ReadinessInput::Frame(DecodedFrame::Ignored),
            market,
            now,
            deadline,
        ) is Wait <==> now.0 < deadline.0,
        crate::provider::okx::readiness(
            crate::provider::runtime::frame::ReadinessInput::Frame(
                DecodedFrame::Provider(OkxDecoded::ApplicationPong),
            ),
            market,
            now,
            deadline,
        ) is Wait <==> now.0 < deadline.0,
        now.0 >= deadline.0 ==> (crate::provider::okx::readiness(
            crate::provider::runtime::frame::ReadinessInput::Frame(DecodedFrame::Ignored),
            market,
            now,
            deadline,
        ) matches crate::provider::runtime::ready::ReadyStep::Fail(ProviderError::Timeout {
            kind,
            ..
        }) && kind == crate::error::TimeoutKind::SubscribeAck),
{
}

/// A candle is heeded before the acceptance of a subscription, and a pong last of all.
pub proof fn law_what_is_heeded_first(candle: Candle, buffered: Vec<Candle>)
    ensures
        crate::provider::runtime::frame::frame_rank(
            DecodedFrame::Provider(OkxDecoded::Candle(candle)),
        ) < crate::provider::runtime::frame::frame_rank(
            DecodedFrame::Provider(OkxDecoded::SubscribeAccepted { buffered }),
        ),
        crate::provider::runtime::frame::frame_rank(
            DecodedFrame::Provider(OkxDecoded::SubscribeAccepted { buffered }),
        ) < crate::provider::runtime::frame::frame_rank(
            DecodedFrame::Provider(OkxDecoded::ApplicationPong),
        ),
        crate::provider::runtime::frame::frame_rank(
            DecodedFrame::Provider(OkxDecoded::ApplicationPong),
        ) == crate::provider::runtime::frame::frame_rank(DecodedFrame::<OkxDecoded>::Ignored),
        crate::provider::runtime::frame::frame_rank(
            DecodedFrame::Provider(OkxDecoded::Candle(candle)),
        ) > crate::provider::runtime::frame::frame_rank(
            DecodedFrame::<OkxDecoded>::ReconnectRequested,
        ),
{
}

/// Where the provider is reached.
pub proof fn law_servers()
    ensures
        crate::provider::okx::PRODUCTION_REST_BASE@ == "https://openapi.okx.com"@,
        crate::provider::okx::PRODUCTION_WS_BASE@ == "wss://ws.okx.com:8443/ws/v5/business"@,
        crate::provider::okx::CANDLES_PATH@ == "/api/v5/market/candles"@,
        crate::provider::okx::HISTORY_CANDLES_PATH@ == "/api/v5/market/history-candles"@,
        crate::provider::okx::HEARTBEAT_MESSAGE@ == "ping"@,
        crate::provider::okx::LIMITED_CODE@ == "50011"@,
{
}

/// Only the four letters of the word are a pong.
pub proof fn law_pongs(bytes: Seq<u8>)
    ensures
        crate::provider::okx::is_pong(bytes) <==> bytes.len() == 4 && bytes[0] as int == 'p' as int
            && bytes[1] as int == 'o' as int && bytes[2] as int == 'n' as int && bytes[3] as int
            == 'g' as int,
{
}

/// A URL is taken for the provider's exactly where the period is one that it offers, the base is one
/// for WebSockets, and, but in a test, its path is that of the business streams.
pub proof fn law_urls(
    parts: Option<crate::provider::runtime::endpoint::UrlView>,
    timeframe: Timeframe,
    loopback_only: bool,
    address: crate::provider::runtime::endpoint::HostAddress,
)
    ensures
        crate::provider::okx::url_fault(parts, timeframe, loopback_only, address) is None
            <==> timeframe != Timeframe::Hour8
            && crate::provider::runtime::endpoint::websocket_base_fault(
            parts,
            loopback_only,
            address,
        ) is None && (loopback_only || parts->0.path == "/ws/v5/business"@),
{
}

/// The provider's name of a period is its count and its unit as they are spelled, with the unit of
/// anything longer than minutes as a capital; what is longer than four hours is marked as counted in
/// universal time.
pub proof fn law_bars_follow_the_spelling(timeframe: Timeframe)
    requires
        timeframe != Timeframe::Hour8,
    ensures
        bar_name(timeframe) matches Some(bar) && {
            let name = bar@;
            let spelled = timeframe.spelling()@;
            let count = spelled.len() - 1;
            let long = timeframe == Timeframe::Month1 || crate::calendar::fixed_period(timeframe)->0
                > 14_400_000;
            &&& name.take(count) == spelled.take(count)
            &&& name[count] == spelled[count] || (spelled[count] == 'h' && name[count] == 'H') || (
            spelled[count] == 'd' && name[count] == 'D') || (spelled[count] == 'w' && name[count]
                == 'W')
            &&& spelled[count] == 'h' || spelled[count] == 'd' || spelled[count] == 'w'
                ==> name[count] != spelled[count]
            &&& name.skip(count + 1) == (if long {
                "utc"@
            } else {
                Seq::empty()
            })
        },
{
    reveal_strlit("utc");
    reveal_strlit("1s");
    reveal_strlit("1m");
    reveal_strlit("3m");
    reveal_strlit("5m");
    reveal_strlit("15m");
    reveal_strlit("30m");
    reveal_strlit("1h");
    reveal_strlit("2h");
    reveal_strlit("4h");
    reveal_strlit("6h");
    reveal_strlit("12h");
    reveal_strlit("1d");
    reveal_strlit("3d");
    reveal_strlit("1w");
    reveal_strlit("1M");
    reveal_strlit("1H");
    reveal_strlit("2H");
    reveal_strlit("4H");
    reveal_strlit("6Hutc");
    reveal_strlit("12Hutc");
    reveal_strlit("1Dutc");
    reveal_strlit("3Dutc");
    reveal_strlit("1Wutc");
    reveal_strlit("1Mutc");
    let name = bar_name(timeframe)->0@;
    let spelled = timeframe.spelling()@;
    let count = spelled.len() - 1;
    assert(name.take(count) =~= spelled.take(count));
    let long = timeframe == Timeframe::Month1 || crate::calendar::fixed_period(timeframe)->0
        > 14_400_000;
    if long {
        assert(name.skip(count + 1) =~= "utc"@);
    } else {
        assert(name.skip(count + 1) =~= Seq::<char>::empty());
    }
}

/// What a document of the stream asks. Its `event` tells a notice, an error and the answer to the
/// subscription, which is accepted once, where it repeats the request's `id`, its channel and its
/// market under `arg`; a document with neither event nor `arg` says nothing.
pub proof fn law_documents_tell_messages(
    subscribed: bool,
    bytes: Vec<u8>,
    members: Map<Seq<char>, crate::json::JsonView>,
    arg: Map<Seq<char>, crate::json::JsonView>,
    rows: Seq<crate::json::JsonView>,
    instrument: Instrument,
    timeframe: Timeframe,
    config: crate::provider::runtime::config::WsConfig,
)
    requires
        timeframe != Timeframe::Hour8,
        config.fault() is None,
        bytes@.len() <= config.max_message_size,
        bytes@.len() != 4,
        crate::json::json_document(bytes@) == Some(crate::json::JsonView::Object(members)),
    ensures
        ({
            let meaning = crate::provider::okx::message_meaning(
                subscribed,
                crate::provider::runtime::frame::WsMessage::Text(bytes),
                instrument,
                timeframe,
                config,
            );
            let named = members.contains_key("arg"@) && members["arg"@]
                == crate::json::JsonView::Object(arg) && crate::json::says(
                arg,
                "channel"@,
                "candle"@ + bar_name(timeframe)->0@,
            ) && crate::json::says(arg, "instId"@, instrument.provider_symbol@);
            &&& meaning is Reconnect <==> crate::json::says(members, "event"@, "notice"@)
                && crate::json::says(members, "code"@, "64008"@)
            &&& crate::json::says(members, "event"@, "error"@) ==> meaning is Fail
            &&& crate::json::says(members, "event"@, "subscribe"@) && crate::json::says(
                members,
                "id"@,
                "fccli1"@,
            ) && named ==> (meaning is Accept <==> !subscribed)
            &&& meaning is Accept ==> crate::json::says(members, "event"@, "subscribe"@)
                && crate::json::says(members, "id"@, "fccli1"@)
            &&& !members.contains_key("event"@) && named && members.contains_key("data"@)
                && members["data"@] == crate::json::JsonView::Array(rows) ==> (meaning is Rows
                <==> rows.len() <= 300)
            &&& !members.contains_key("event"@) && named && !members.contains_key("data"@)
                ==> meaning is Fail
            &&& !members.contains_key("event"@) && !members.contains_key("arg"@)
                ==> meaning is Ignored
        }),
{
    let head = crate::provider::okx::head_of(crate::json::JsonView::Object(members));
    let context = ErrorContext::of_market(
        crate::error::ErrorOperation::WebSocket,
        instrument,
        timeframe,
    );
    law_heads_tell_messages(subscribed, head, instrument, timeframe, context);
    assert(!crate::provider::okx::is_pong(bytes@));
}

/// The rows of a document are the items under `data`, as many and in their order; a row that is no
/// array has no fields, and of a field the text is what the document has as a text there.
pub proof fn law_documents_have_their_rows(
    bytes: Seq<u8>,
    members: Map<Seq<char>, crate::json::JsonView>,
    rows: Seq<crate::json::JsonView>,
    cells: Seq<crate::json::JsonView>,
    place: int,
    column: int,
)
    requires
        crate::json::json_document(bytes) == Some(crate::json::JsonView::Object(members)),
        members.contains_key("data"@),
        members["data"@] == crate::json::JsonView::Array(rows),
        0 <= place < rows.len(),
        0 <= column < cells.len(),
    ensures
        ({
            let read = crate::provider::okx::document_rows(bytes);
            &&& read is Some && read->0.len() == rows.len()
            &&& read->0[place] is Some <==> rows[place] is Array
            &&& rows[place] == crate::json::JsonView::Array(cells) ==> {
                &&& read->0[place]->0.len() == cells.len()
                &&& cells[column] matches crate::json::JsonView::Text(text)
                    ==> read->0[place]->0[column] == Some(text)
                &&& !(cells[column] is Text) ==> read->0[place]->0[column] is None
            }
        }),
{
}

/// The texts of a row are those of its fields, one for one.
pub proof fn law_rows_have_their_texts(row: OkxRow, place: int)
    requires
        row.fields is Some,
        0 <= place < row.fields->0@.len(),
    ensures
        crate::provider::okx::row_texts(row) is Some,
        crate::provider::okx::row_texts(row)->0.len() == row.fields->0@.len(),
        crate::provider::okx::row_texts(row)->0[place] == text_of(row.fields->0@[place]),
        crate::provider::okx::row_texts(OkxRow { fields: None }) is None,
{
}

/// Messages that are no documents: one of too many bytes and one of bytes that are neither JSON nor a
/// pong are errors, a close is told with its code, and the frames of the protocol itself say nothing.
/// Text and binary messages are read alike, and terms that are not accepted are told before anything
/// is read.
pub proof fn law_messages(
    subscribed: bool,
    bytes: Vec<u8>,
    code: Option<u16>,
    message: crate::provider::runtime::frame::WsMessage,
    instrument: Instrument,
    timeframe: Timeframe,
    config: crate::provider::runtime::config::WsConfig,
    broken: crate::provider::runtime::config::WsConfig,
)
    requires
        config.fault() is None,
        broken.fault() is Some,
    ensures
        ({
            let text = crate::provider::okx::message_meaning(
                subscribed,
                crate::provider::runtime::frame::WsMessage::Text(bytes),
                instrument,
                timeframe,
                config,
            );
            let pong = bytes@ == seq!['p' as u8, 'o' as u8, 'n' as u8, 'g' as u8];
            &&& text == crate::provider::okx::message_meaning(
                subscribed,
                crate::provider::runtime::frame::WsMessage::Binary(bytes),
                instrument,
                timeframe,
                config,
            )
            &&& bytes@.len() > config.max_message_size ==> (text matches Meaning::Fail(
                ProviderError::Payload {
                    source: crate::error::PayloadError::OverBudget { limit_bytes },
                    ..
                },
            ) && limit_bytes == config.max_message_size)
            &&& bytes@.len() <= config.max_message_size && pong ==> text is Pong
            &&& bytes@.len() <= config.max_message_size && !pong && crate::json::json_document(
                bytes@,
            ) is None ==> (text matches Meaning::Fail(
                ProviderError::Payload {
                    source: crate::error::PayloadError::MalformedProtocol,
                    ..
                },
            ))
        }),
        crate::provider::okx::message_meaning(
            subscribed,
            crate::provider::runtime::frame::WsMessage::Close(code),
            instrument,
            timeframe,
            config,
        ) == Meaning::Close(code),
        message is Ping || message is Pong || message is Frame
            ==> crate::provider::okx::message_meaning(
            subscribed,
            message,
            instrument,
            timeframe,
            config,
        ) is Ignored,
        crate::provider::okx::message_meaning(subscribed, message, instrument, timeframe, broken)
            == Meaning::Fail(ProviderError::Configuration(broken.fault()->0)),
{
    assert('p' as u8 == 112 && 'o' as u8 == 111 && 'n' as u8 == 110 && 'g' as u8 == 103);
}

/// Which requests are refused before anything is asked: all for the period that the provider has not,
/// those for older candles without an end, and those for a gap without a start or an end.
pub proof fn law_refused_requests(timeframe: Timeframe, request: HistoryRequest)
    ensures
        ({
            let fault = crate::provider::okx::query_fault(timeframe, request);
            let offered = timeframe != Timeframe::Hour8;
            &&& !offered ==> (fault matches Some(ProviderError::Configuration(_)))
            &&& offered && request.kind == HistoryRequestKind::Latest ==> fault is None
            &&& offered && request.kind == HistoryRequestKind::Older && request.end_time is Some
                ==> fault is None
            &&& offered && request.kind == HistoryRequestKind::Older && request.end_time is None ==> (
            fault matches Some(ProviderError::Invariant(_)))
            &&& offered && request.kind == HistoryRequestKind::Gap && (request.start_time is None
                || request.end_time is None) ==> (fault matches Some(ProviderError::Invariant(_)))
            &&& offered && request.kind == HistoryRequestKind::Gap && request.start_time is Some
                && request.end_time is Some ==> (fault is None <==> page_upper(
                timeframe,
                request.start_time->0,
                request.limit,
            ) is Some)
        }),
{
}

/// What an answer of history comes to. One that is no envelope is malformed, and so is one with more
/// rows than were asked for; one with another code than zero is a refusal; and where all rows are
/// taken, there are as many candles as rows, the last row's first.
pub proof fn law_answers_become_candles(
    envelope: &crate::provider::okx::OkxEnvelope,
    terms: RowTerms,
    request: HistoryRequest,
    missing: Result<Vec<Candle>, ProviderError>,
    candles: Result<Vec<Candle>, ProviderError>,
    place: int,
)
    requires
        crate::provider::okx::history_is(None, terms, request, missing),
        crate::provider::okx::history_is(Some(envelope), terms, request, candles),
        0 <= place < envelope.data@.len(),
    ensures
        missing matches Err(
            ProviderError::Payload { source: crate::error::PayloadError::MalformedJson, .. },
        ),
        envelope.code@ != "0"@ ==> candles is Err,
        envelope.data@.len() > request.limit ==> candles is Err,
        candles matches Ok(read) ==> (read@.len() == envelope.data@.len() && row_candle(
            terms,
            envelope.data@[place]@,
        ) == Ok::<Candle, ProviderError>(read@[read@.len() - 1 - place])),
        candles is Ok && request.kind == HistoryRequestKind::Older ==> (request.end_time matches Some(
            end,
        ) ==> candles->Ok_0@[place].opens_at() < end),
{
    if candles is Ok {
        let window = window_of(terms.timeframe, request)->Ok_0;
        law_history_turns_rows_round(terms, window, envelope.data@, place);
        law_history_turns_rows_round(
            terms,
            window,
            envelope.data@,
            envelope.data@.len() - 1 - place,
        );
    }
}

} // verus!
