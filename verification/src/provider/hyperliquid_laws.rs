//! What Hyperliquid's history and streams come to, whatever is asked for and whatever is sent.
use vstd::prelude::*;

use crate::candle::{Candle, FinalityAuthority};
use crate::error::{ErrorContext, ProviderError};
use crate::model::{HistoryRequest, HistoryRequestKind, Instrument, Market, Timeframe};
use crate::provider::hyperliquid::{
    advanced, feed_event, head_payload, history_text, kept, longest_period, period_grid, remapped,
    rest_candle, subscribe_text, validation_window, window, ws_candle, CandleDecodeContext,
    HeadView, HlCandle, HyperliquidDecoded, WsPayload,
};
use crate::provider::runtime::frame::DecodedFrame;
use crate::provider::runtime::live::LiveSocketEvent;

verus! {

/// Whether the provider offers a period: all but the second and the six hours.
pub open spec fn is_offered(timeframe: Timeframe) -> bool {
    timeframe != Timeframe::Second1 && timeframe != Timeframe::Hour6
}

/// No period lasts longer than the longest that its kind has; where all of a kind last as long, the
/// longest is what they last, and a month's is thirty-one days.
pub proof fn law_longest_period_is_longest(timeframe: Timeframe, time: int, next: int)
    requires
        period_grid(timeframe).follows(time, next),
    ensures
        0 < next - time <= longest_period(timeframe),
        timeframe != Timeframe::Month1 ==> next - time == longest_period(timeframe)
            && crate::calendar::fixed_period(timeframe) == Some(longest_period(timeframe)),
        timeframe == Timeframe::Month1 ==> longest_period(timeframe) == 31 * 86_400_000,
{
    crate::calendar::law_periods_have_their_length(period_grid(timeframe), time, next);
    crate::calendar::law_periods_make_each_other_up();
}

/// The window of the latest candles ends now, that of older ones where the request ends, and both go
/// back by as many of the longest periods as rows are asked for: every instant of that stretch is in
/// the window, and none before it, as far as the clock goes.
pub proof fn law_window_covers_the_limit(
    timeframe: Timeframe,
    request: HistoryRequest,
    now_ms: Option<i64>,
    end: i64,
    time: i64,
)
    requires
        is_offered(timeframe),
        request.limit > 0,
        request.kind == HistoryRequestKind::Latest && now_ms == Some(end) || request.kind
            == HistoryRequestKind::Older && request.end_time == Some(end),
    ensures
        window(timeframe, request, now_ms) matches Ok((from, to)) && {
            &&& to == end
            &&& end - request.limit * longest_period(timeframe) < time <= end && i64::MIN < time
                ==> from <= time <= to
            &&& from <= time <= to && i64::MIN <= end - request.limit * longest_period(timeframe)
                ==> end - request.limit * longest_period(timeframe) < time
        },
{
    lemma_reach(timeframe, request.limit);
}

/// The window of a gap begins where the gap does, and goes on for as many of the longest periods as
/// rows are asked for, or to the end of the gap where that comes first.
pub proof fn law_gap_window_covers_the_limit(
    timeframe: Timeframe,
    request: HistoryRequest,
    now_ms: Option<i64>,
    start: i64,
    end: i64,
    time: i64,
)
    requires
        is_offered(timeframe),
        request.limit > 0,
        request.kind == HistoryRequestKind::Gap,
        request.start_time == Some(start),
        request.end_time == Some(end),
    ensures
        window(timeframe, request, now_ms) matches Ok((from, to)) && {
            &&& from == start
            &&& to <= end
            &&& start <= time <= end && time < start + request.limit * longest_period(timeframe)
                && time < i64::MAX ==> from <= time <= to
            &&& from <= time <= to && start + request.limit * longest_period(timeframe) <= i64::MAX
                ==> time < start + request.limit * longest_period(timeframe)
        },
{
    lemma_reach(timeframe, request.limit);
}

proof fn lemma_reach(timeframe: Timeframe, limit: u16)
    ensures
        0 <= limit * longest_period(timeframe) <= 65_535 * 2_678_400_000,
        limit > 0 ==> limit * longest_period(timeframe) > 0,
{
    crate::calendar::law_periods_make_each_other_up();
    let period = longest_period(timeframe);
    assert(0 < period <= 2_678_400_000) by {
        match timeframe {
            Timeframe::Month1 => {},
            _ => {},
        }
    }
    assert(0 <= limit * period <= 65_535 * 2_678_400_000) by (nonlinear_arith)
        requires
            0 < period <= 2_678_400_000,
            0 <= limit <= 65_535,
    ;
    assert(limit > 0 ==> limit * period > 0) by (nonlinear_arith)
        requires
            0 < period,
            0 <= limit,
    ;
}

/// Whether times are the openings of one period after another.
pub open spec fn opens_in_turn(timeframe: Timeframe, opens: Seq<i64>) -> bool {
    forall|i: int|
        0 <= i < opens.len() - 1 ==> period_grid(timeframe).follows(
            #[trigger] opens[i] as int,
            opens[i + 1] as int,
        )
}

proof fn lemma_turns_are_no_longer(timeframe: Timeframe, opens: Seq<i64>, place: int)
    requires
        opens_in_turn(timeframe, opens),
        0 <= place < opens.len(),
    ensures
        opens[place] <= opens[0] + place * longest_period(timeframe),
    decreases place,
{
    if place > 0 {
        lemma_turns_are_no_longer(timeframe, opens, place - 1);
        law_longest_period_is_longest(timeframe, opens[place - 1] as int, opens[place] as int);
        let period = longest_period(timeframe);
        assert(place * period == (place - 1) * period + period) by (nonlinear_arith);
    }
}

/// The window holds as many periods as rows are asked for: a period that opens by its end, and is
/// followed by fewer others that do, opens in the window.
pub proof fn law_window_holds_the_latest_periods(
    timeframe: Timeframe,
    request: HistoryRequest,
    now_ms: Option<i64>,
    end: i64,
    opens: Seq<i64>,
)
    requires
        is_offered(timeframe),
        request.limit > 0,
        request.kind == HistoryRequestKind::Latest && now_ms == Some(end) || request.kind
            == HistoryRequestKind::Older && request.end_time == Some(end),
        opens_in_turn(timeframe, opens),
        opens.len() == request.limit + 1,
        i64::MIN < opens[0] <= end < opens[request.limit as int],
    ensures
        window(timeframe, request, now_ms) matches Ok((from, to)) && from <= opens[0] <= to,
{
    lemma_turns_are_no_longer(timeframe, opens, request.limit as int);
    law_window_covers_the_limit(timeframe, request, now_ms, end, opens[0]);
}

/// What a request lacks, it is refused for: the period, the clock, or a bound.
pub proof fn law_window_refusals(
    timeframe: Timeframe,
    request: HistoryRequest,
    now_ms: Option<i64>,
)
    ensures
        window(timeframe, request, now_ms) is Ok <==> is_offered(timeframe) && (match request.kind {
            HistoryRequestKind::Latest => now_ms is Some,
            HistoryRequestKind::Older => request.end_time is Some,
            HistoryRequestKind::Gap => request.start_time is Some && request.end_time is Some,
        }),
        !is_offered(timeframe) ==> (window(timeframe, request, now_ms) matches Err(error)
            && error is Configuration),
        is_offered(timeframe) ==> (window(timeframe, request, now_ms) matches Err(error)
            ==> error is Invariant),
{
}

/// An answer may go beyond what was asked for by the rows that the provider may add, up to a thousand
/// and one: after the end of a gap, before the start of anything else, and nowhere else.
pub proof fn law_answers_may_overlap(
    timeframe: Timeframe,
    kind: HistoryRequestKind,
    limit: u16,
    start: i64,
    end: i64,
)
    requires
        limit <= 1001,
    ensures
        ({
            let (from, to) = validation_window(timeframe, kind, limit, start, end);
            let extra = (1001 - limit) * longest_period(timeframe);
            &&& kind == HistoryRequestKind::Gap ==> from == start && (end + extra <= i64::MAX ==> to
                == end + extra)
            &&& kind != HistoryRequestKind::Gap ==> to == end && (start - extra > i64::MIN ==> from
                == start - extra - 1)
            &&& to >= end
            &&& from <= start
        }),
{
    lemma_reach(timeframe, (1001 - limit) as u16);
}

/// Whether a candle has the numbers and times of a row, each where it belongs.
pub open spec fn is_read_from(candle: Candle, row: HlCandle) -> bool {
    &&& candle.values.open_time == row.open_time
    &&& candle.values.close_time == row.close_time
    &&& row.open == Some(candle.values.open)
    &&& row.high == Some(candle.values.high)
    &&& row.low == Some(candle.values.low)
    &&& row.close == Some(candle.values.close)
    &&& row.volume == Some(candle.values.base_volume)
}

/// Whether a row could be a candle: its prices are numbers in order and its volume is one that is not
/// negative, and it closes just before the next period opens.
pub open spec fn is_sound(row: HlCandle, timeframe: Timeframe, next: i64) -> bool {
    &&& row.open is Some && row.high is Some && row.low is Some && row.close is Some
        && row.volume is Some
    &&& row.low->0.place() <= row.open->0.place() <= row.high->0.place()
    &&& row.low->0.place() <= row.close->0.place() <= row.high->0.place()
    &&& 0 <= row.volume->0.place()
    &&& period_grid(timeframe).follows(row.open_time as int, next as int)
    &&& row.close_time == next - 1
}

/// A row is a candle of history exactly where it is of the market and period that were asked for,
/// sound, in the window and after the row before it. Its candle has the row's numbers, and the least
/// authority.
pub proof fn law_history_rows(
    terms: CandleDecodeContext,
    row: HlCandle,
    previous: Option<i64>,
    next: i64,
)
    ensures
        rest_candle(terms, row, previous) matches Ok(candle) ==> {
            &&& is_read_from(candle, row)
            &&& candle.authority == FinalityAuthority::RestProvisionalOpen
            &&& candle.valid()
            &&& row.symbol@ == terms.instrument.provider_symbol@
            &&& row.interval@ == terms.timeframe.spelling()@
            &&& terms.window_start <= candle.opens_at() <= terms.window_end
            &&& previous matches Some(before) ==> before < candle.opens_at()
        },
        is_sound(row, terms.timeframe, next) && row.symbol@ == terms.instrument.provider_symbol@
            && row.interval@ == terms.timeframe.spelling()@ && terms.window_start <= row.open_time
            <= terms.window_end && (previous is None || previous->0 < row.open_time) ==> rest_candle(
            terms,
            row,
            previous,
        ) is Ok,
{
    if is_sound(row, terms.timeframe, next) {
        crate::calendar::law_successor_is_later_and_single(
            period_grid(terms.timeframe),
            row.open_time as int,
            next as int,
            next as int,
        );
    }
}

/// A row is a candle of the stream exactly where it is of the market and period that were subscribed
/// to, sound, and opens no more than five minutes ahead of the clock. Its candle has the row's
/// numbers, and is never said to be closed.
pub proof fn law_stream_rows(
    row: HlCandle,
    instrument: Instrument,
    timeframe: Timeframe,
    now: i64,
    context: ErrorContext,
    next: i64,
)
    requires
        now + 300_000 <= i64::MAX,
    ensures
        ws_candle(row, instrument, timeframe, Some(now), context) matches Ok(candle) ==> {
            &&& is_read_from(candle, row)
            &&& candle.authority == FinalityAuthority::WsAuthoritativeOpen
            &&& candle.valid()
            &&& row.symbol@ == instrument.provider_symbol@
            &&& row.interval@ == timeframe.spelling()@
            &&& candle.opens_at() <= now + 300_000
        },
        is_sound(row, timeframe, next) && row.symbol@ == instrument.provider_symbol@
            && row.interval@ == timeframe.spelling()@ && row.open_time <= now + 300_000
            ==> ws_candle(row, instrument, timeframe, Some(now), context) is Ok,
        ws_candle(row, instrument, timeframe, None, context) is Err,
{
    if is_sound(row, timeframe, next) {
        crate::calendar::law_successor_is_later_and_single(
            period_grid(timeframe),
            row.open_time as int,
            next as int,
            next as int,
        );
    }
}

/// A row reads the same as history and as a row of the stream.
pub proof fn law_rows_read_alike(
    terms: CandleDecodeContext,
    row: HlCandle,
    previous: Option<i64>,
    instrument: Instrument,
    timeframe: Timeframe,
    now_ms: Option<i64>,
    context: ErrorContext,
)
    ensures
        rest_candle(terms, row, previous) matches Ok(recorded) ==> (ws_candle(
            row,
            instrument,
            timeframe,
            now_ms,
            context,
        ) matches Ok(streamed) ==> recorded.values == streamed.values),
{
}

/// What is passed on of a streamed candle: all of the first; a change of the one that is open; the
/// end of that one and the start of the next; and nothing of one that is past, or that says the same
/// again. What was passed on last is what is retained.
pub proof fn law_streamed_candles_pass(held: Candle, candidate: Candle)
    ensures
        advanced(None, candidate).1 == seq![candidate] && advanced(None, candidate).0 == Some(
            candidate,
        ),
        candidate.opens_at() < held.opens_at() ==> advanced(Some(held), candidate) == (
            Some(held),
            Seq::<Candle>::empty(),
        ),
        candidate == held ==> advanced(Some(held), candidate) == (
            Some(held),
            Seq::<Candle>::empty(),
        ),
        candidate.opens_at() == held.opens_at() && !candidate.values.same(held.values) ==> advanced(
            Some(held),
            candidate,
        ) == (Some(candidate), seq![candidate]),
        candidate.opens_at() > held.opens_at() ==> {
            let (retained, passed) = advanced(Some(held), candidate);
            &&& retained == Some(candidate)
            &&& passed.len() == 2
            &&& passed[0].values == held.values
            &&& passed[0].authority == FinalityAuthority::WsAuthoritativeClosed
            &&& passed[1] == candidate
        },
        advanced(Some(held), candidate).1.len() > 0 ==> advanced(Some(held), candidate).0 == Some(
            advanced(Some(held), candidate).1.last(),
        ),
{
}

/// Of an answer that is too long, a gap keeps what comes first and everything else what comes last;
/// nothing is left out of one that is not, nor reordered.
pub proof fn law_too_long_answers_are_cut(
    kind: HistoryRequestKind,
    limit: int,
    candles: Seq<Candle>,
    place: int,
)
    requires
        0 <= limit,
        0 <= place < candles.len(),
    ensures
        candles.len() <= limit ==> kept(kind, limit, candles) == candles,
        candles.len() > limit ==> kept(kind, limit, candles).len() == limit,
        candles.len() > limit && kind == HistoryRequestKind::Gap && place < limit ==> kept(
            kind,
            limit,
            candles,
        )[place] == candles[place],
        candles.len() > limit && kind != HistoryRequestKind::Gap && place >= candles.len() - limit
            ==> kept(kind, limit, candles)[place - (candles.len() - limit)] == candles[place],
{
}

/// What a live feed is told of each frame: the candle that it is, the error that it reports, to
/// connect anew where the peer closes or asks for it, and nothing of a pong or a frame without
/// meaning. A second acceptance is a violation.
pub proof fn law_frames_become_events(candle: Candle, error: ProviderError, code: Option<u16>)
    ensures
        feed_event(DecodedFrame::Provider(HyperliquidDecoded::Candle(candle)))
            == LiveSocketEvent::Candle(candle),
        feed_event(DecodedFrame::ProviderError(error)) == LiveSocketEvent::DecodedError(error),
        feed_event(DecodedFrame::Close(code)) is ReconnectRequested,
        feed_event(DecodedFrame::ReconnectRequested) is ReconnectRequested,
        feed_event(DecodedFrame::Ignored) is Ignored,
        feed_event(DecodedFrame::Provider(HyperliquidDecoded::ApplicationPong)) is Ignored,
        feed_event(
            DecodedFrame::Provider(HyperliquidDecoded::SubscribeAccepted),
        ) is ProtocolViolation,
{
}

/// A message is told by its channel: only one on `candle` carries a candle, only one on
/// `subscriptionResponse` accepts the subscription, and that only where it repeats all of it.
pub proof fn law_channels_tell_messages(
    head: HeadView,
    instrument: Instrument,
    timeframe: Timeframe,
    context: ErrorContext,
)
    ensures
        head_payload(head, instrument, timeframe, context) is Candle <==> head.channel == Some(
            "candle"@,
        ) && head.has_data,
        head_payload(head, instrument, timeframe, context) matches WsPayload::Frame(
            DecodedFrame::Provider(HyperliquidDecoded::SubscribeAccepted),
        ) ==> head.channel == Some("subscriptionResponse"@) && head.method == Some("subscribe"@)
            && head.subscription_type == Some("candle"@) && head.coin == Some(
            instrument.provider_symbol@,
        ) && head.interval == Some(timeframe.spelling()@),
        head.channel == Some("subscriptionResponse"@) && head.method == Some("subscribe"@)
            && head.subscription_type == Some("candle"@) && head.coin == Some(
            instrument.provider_symbol@,
        ) && head.interval == Some(timeframe.spelling()@) ==> head_payload(
            head,
            instrument,
            timeframe,
            context,
        ) == WsPayload::Frame(DecodedFrame::Provider(HyperliquidDecoded::SubscribeAccepted)),
        head.channel == Some("pong"@) ==> head_payload(head, instrument, timeframe, context)
            == WsPayload::Frame(DecodedFrame::Provider(HyperliquidDecoded::ApplicationPong)),
        head.channel is None ==> head_payload(head, instrument, timeframe, context)
            == WsPayload::Frame(DecodedFrame::Ignored),
{
    reveal_strlit("candle");
    reveal_strlit("pong");
    reveal_strlit("subscriptionResponse");
    assert("candle"@.len() == 6 && "pong"@.len() == 4 && "subscriptionResponse"@.len() == 20);
}

/// How a market is named to the provider: a builder's by its venue and base, another perpetual by its
/// base alone, a spot market by its number where that is what was given, and by base and quote
/// otherwise, but for the two whose numbers are known. Both names of bitcoin are one market.
pub proof fn law_markets_have_their_names(
    venue: Seq<char>,
    base: Seq<char>,
    quote: Seq<char>,
    market: Market,
)
    ensures
        remapped(market, Some(venue), base, quote).0 == Market::Perpetual,
        remapped(market, Some(venue), base, quote).2 == venue + ":"@ + base,
        remapped(Market::Perpetual, None, base, quote) == (Market::Perpetual, base, base),
        remapped(Market::Spot, None, base, quote).0 == Market::Spot,
        base.len() > 1 && base[0] == '@' && (forall|i: int|
            1 <= i < base.len() ==> '0' <= #[trigger] base[i] <= '9') ==> remapped(
            Market::Spot,
            None,
            base,
            quote,
        ) == (Market::Spot, base, base),
        remapped(Market::Spot, None, "BTC"@, "USDC"@) == remapped(
            Market::Spot,
            None,
            "UBTC"@,
            "USDC"@,
        ),
        remapped(Market::Spot, None, "UBTC"@, "USDC"@).1 == "UBTC"@,
        remapped(Market::Spot, None, "UBTC"@, "USDC"@).2 == "@142"@,
        remapped(Market::Spot, None, "HYPE"@, "USDC"@).1 == "HYPE"@,
        remapped(Market::Spot, None, "HYPE"@, "USDC"@).2 == "@107"@,
        quote != "USDC"@ && base.len() > 0 && base[0] != '@' ==> remapped(
            Market::Spot,
            None,
            base,
            quote,
        ) == (Market::Spot, base, base + "/"@ + quote),
        base != "BTC"@ && base != "UBTC"@ && base != "HYPE"@ && base.len() > 0 && base[0] != '@'
            ==> remapped(Market::Spot, None, base, quote) == (
            Market::Spot,
            base,
            base + "/"@ + quote,
        ),
{
    reveal_strlit("BTC");
    reveal_strlit("UBTC");
    reveal_strlit("HYPE");
    if base.len() > 1 && base[0] == '@' && (forall|i: int|
        1 <= i < base.len() ==> '0' <= #[trigger] base[i] <= '9') {
        assert forall|i: int| 0 <= i < base.skip(1).len() implies crate::text::is_digit(
            #[trigger] base.skip(1)[i],
        ) by {
            assert('0' <= base[i + 1] <= '9');
        }
    }
}

/// A subscription names the market's own coin and period, as a candle subscription.
pub proof fn law_subscription_names_the_market(instrument: Instrument, timeframe: Timeframe)
    ensures
        subscribe_text(instrument, timeframe) == seq!['{'] + crate::json::entry("method"@, crate::json::plain("subscribe"@))
            + seq![','] + crate::json::entry(
            "subscription"@,
            seq!['{'] + crate::json::entry("coin"@, crate::json::json_quoted(instrument.provider_symbol@))
                + seq![','] + crate::json::entry("interval"@, crate::json::plain(timeframe.spelling()@)) + seq![','] + crate::json::entry(
                "type"@,
                crate::json::plain("candle"@),
            ) + seq!['}'],
        ) + seq!['}'],
{
    reveal_strlit("method");
    reveal_strlit("subscribe");
    reveal_strlit("subscription");
    reveal_strlit("coin");
    reveal_strlit("interval");
    reveal_strlit("type");
    reveal_strlit("candle");
    reveal_strlit("{\"method\":\"subscribe\",\"subscription\":{\"coin\":");
    reveal_strlit(",\"interval\":\"");
    reveal_strlit("\",\"type\":\"candle\"}}");
    assert(subscribe_text(instrument, timeframe) =~= seq!['{'] + crate::json::entry(
        "method"@,
        crate::json::plain("subscribe"@),
    ) + seq![','] + crate::json::entry(
        "subscription"@,
        seq!['{'] + crate::json::entry("coin"@, crate::json::json_quoted(instrument.provider_symbol@))
            + seq![','] + crate::json::entry("interval"@, crate::json::plain(timeframe.spelling()@)) + seq![','] + crate::json::entry(
            "type"@,
            crate::json::plain("candle"@),
        ) + seq!['}'],
    ) + seq!['}']);
}

/// A request for history names the market's own coin and period, and the window's first instant as
/// its start and the last as its end.
pub proof fn law_history_names_the_window(
    instrument: Instrument,
    timeframe: Timeframe,
    start: i64,
    end: i64,
)
    ensures
        history_text(instrument, timeframe, start, end) == seq!['{'] + crate::json::entry(
            "req"@,
            seq!['{'] + crate::json::entry("coin"@, crate::json::json_quoted(instrument.provider_symbol@))
                + seq![','] + crate::json::entry("endTime"@, crate::text::signed_numeral(end as int)) + seq![',']
                + crate::json::entry("interval"@, crate::json::plain(timeframe.spelling()@)) + seq![','] + crate::json::entry(
                "startTime"@,
                crate::text::signed_numeral(start as int),
            ) + seq!['}'],
        ) + seq![','] + crate::json::entry("type"@, crate::json::plain("candleSnapshot"@)) + seq!['}'],
{
    reveal_strlit("req");
    reveal_strlit("coin");
    reveal_strlit("endTime");
    reveal_strlit("interval");
    reveal_strlit("startTime");
    reveal_strlit("type");
    reveal_strlit("candleSnapshot");
    reveal_strlit("{\"req\":{\"coin\":");
    reveal_strlit(",\"endTime\":");
    reveal_strlit(",\"interval\":\"");
    reveal_strlit("\",\"startTime\":");
    reveal_strlit("},\"type\":\"candleSnapshot\"}");
    assert(history_text(instrument, timeframe, start, end) =~= seq!['{'] + crate::json::entry(
        "req"@,
        seq!['{'] + crate::json::entry("coin"@, crate::json::json_quoted(instrument.provider_symbol@))
            + seq![','] + crate::json::entry("endTime"@, crate::text::signed_numeral(end as int)) + seq![',']
            + crate::json::entry("interval"@, crate::json::plain(timeframe.spelling()@)) + seq![','] + crate::json::entry(
            "startTime"@,
            crate::text::signed_numeral(start as int),
        ) + seq!['}'],
    ) + seq![','] + crate::json::entry("type"@, crate::json::plain("candleSnapshot"@)) + seq!['}']);
}

/// A live feed's terms are accepted exactly where its supervisor's are, it waits for its subscription
/// and between its heartbeats from a millisecond to a minute, and it reconciles from one candle to
/// sixty-four thousand.
pub proof fn law_valid_terms(config: crate::provider::hyperliquid::HyperliquidLiveConfig)
    ensures
        config.fault() is None <==> {
            let ack = crate::clock::duration_nanos(config.subscribe_ack_timeout);
            let beat = crate::clock::duration_nanos(config.application_heartbeat_interval_for_test);
            &&& config.supervisor.fault() is None
            &&& 1_000_000 <= ack <= 60_000_000_000
            &&& 1_000_000 <= beat <= 60_000_000_000
            &&& 0 < config.max_gap_reconciliation_candles_for_test <= 64_000
        },
        config.usual() ==> config.max_gap_reconciliation_candles_for_test == 64_000
            && config.advertised_history_page_limit == 1000 && crate::clock::duration_nanos(
            config.subscribe_ack_timeout,
        ) == 10_000_000_000 && crate::clock::duration_nanos(
            config.application_heartbeat_interval_for_test,
        ) == 50_000_000_000,
{
}

/// A socket that waits for its subscription is ready once that is accepted; a candle before it, an
/// error or a close ends the wait; a pong or a frame without meaning does not, until its time is up.
pub proof fn law_readiness(
    market: crate::provider::runtime::live::LiveMarket,
    candle: Candle,
    error: ProviderError,
    code: Option<u16>,
    now: crate::model::MonoInstant,
    deadline: crate::model::MonoInstant,
)
    ensures
        crate::provider::hyperliquid::readiness(
            crate::provider::runtime::frame::ReadinessInput::Frame(
                DecodedFrame::Provider(HyperliquidDecoded::SubscribeAccepted),
            ),
            market,
            now,
            deadline,
        ) is Ready,
        crate::provider::hyperliquid::readiness(
            crate::provider::runtime::frame::ReadinessInput::Error(error),
            market,
            now,
            deadline,
        ) == crate::provider::runtime::ready::ReadyStep::<()>::Fail(error),
        crate::provider::hyperliquid::readiness(
            crate::provider::runtime::frame::ReadinessInput::Frame(
                DecodedFrame::ProviderError(error),
            ),
            market,
            now,
            deadline,
        ) == crate::provider::runtime::ready::ReadyStep::<()>::Fail(error),
        crate::provider::hyperliquid::readiness(
            crate::provider::runtime::frame::ReadinessInput::Frame(
                DecodedFrame::Provider(HyperliquidDecoded::Candle(candle)),
            ),
            market,
            now,
            deadline,
        ) matches crate::provider::runtime::ready::ReadyStep::Fail(told) && told is Protocol,
        crate::provider::hyperliquid::readiness(
            crate::provider::runtime::frame::ReadinessInput::Frame(DecodedFrame::Close(code)),
            market,
            now,
            deadline,
        ) is Close,
        crate::provider::hyperliquid::readiness(
            crate::provider::runtime::frame::ReadinessInput::Frame(
                DecodedFrame::ReconnectRequested,
            ),
            market,
            now,
            deadline,
        ) is Close,
        crate::provider::hyperliquid::readiness(
            crate::provider::runtime::frame::ReadinessInput::Frame(DecodedFrame::Ignored),
            market,
            now,
            deadline,
        ) is Wait <==> now.0 < deadline.0,
        crate::provider::hyperliquid::readiness(
            crate::provider::runtime::frame::ReadinessInput::Frame(
                DecodedFrame::Provider(HyperliquidDecoded::ApplicationPong),
            ),
            market,
            now,
            deadline,
        ) is Wait <==> now.0 < deadline.0,
        now.0 >= deadline.0 ==> (crate::provider::hyperliquid::readiness(
            crate::provider::runtime::frame::ReadinessInput::Frame(DecodedFrame::Ignored),
            market,
            now,
            deadline,
        ) matches crate::provider::runtime::ready::ReadyStep::Fail(ProviderError::Timeout {
            kind,
            ..
        }) && kind == crate::error::TimeoutKind::SubscribeAck),
{
}

/// A candle is heeded before the acceptance of a subscription, and a pong last of all.
pub proof fn law_what_is_heeded_first(candle: Candle)
    ensures
        crate::provider::runtime::frame::frame_rank(
            DecodedFrame::Provider(HyperliquidDecoded::Candle(candle)),
        ) < crate::provider::runtime::frame::frame_rank(
            DecodedFrame::Provider(HyperliquidDecoded::SubscribeAccepted),
        ),
        crate::provider::runtime::frame::frame_rank(
            DecodedFrame::Provider(HyperliquidDecoded::SubscribeAccepted),
        ) < crate::provider::runtime::frame::frame_rank(
            DecodedFrame::Provider(HyperliquidDecoded::ApplicationPong),
        ),
        crate::provider::runtime::frame::frame_rank(
            DecodedFrame::Provider(HyperliquidDecoded::ApplicationPong),
        ) == crate::provider::runtime::frame::frame_rank(
            DecodedFrame::<HyperliquidDecoded>::Ignored,
        ),
        crate::provider::runtime::frame::frame_rank(
            DecodedFrame::Provider(HyperliquidDecoded::Candle(candle)),
        ) > crate::provider::runtime::frame::frame_rank(
            DecodedFrame::<HyperliquidDecoded>::ReconnectRequested,
        ),
{
}

/// Where the provider is reached, and what keeps its connections alive.
pub proof fn law_servers()
    ensures
        crate::provider::hyperliquid::PRODUCTION_REST_BASE@ == "https://api.hyperliquid.xyz"@,
        crate::provider::hyperliquid::PRODUCTION_WS_BASE@ == "wss://api.hyperliquid.xyz/ws"@,
        crate::provider::hyperliquid::INFO_PATH@ == "/info"@,
        crate::provider::hyperliquid::HEARTBEAT_MESSAGE@ == seq!['{'] + crate::json::entry(
            "method"@,
            crate::json::plain("ping"@),
        ) + seq!['}'],
        crate::provider::hyperliquid::websocket_path("/ws"@),
{
    reveal_strlit("method");
    reveal_strlit("ping");
    reveal_strlit("{\"method\":\"ping\"}");
    assert(crate::provider::hyperliquid::HEARTBEAT_MESSAGE@ =~= seq!['{'] + crate::json::entry(
        "method"@,
        crate::json::plain("ping"@),
    ) + seq!['}']);
}

/// What an answer in place of rows says: its error, or its message where it has none.
pub proof fn law_error_words(value: crate::json::JsonView)
    ensures
        value.member_text("error"@) is Some ==> crate::provider::hyperliquid::error_words(value)
            == value.member_text("error"@),
        value.member_text("error"@) is None ==> crate::provider::hyperliquid::error_words(value)
            == value.member_text("msg"@),
{
}

/// What a document of the stream is about. Its `channel` tells a pong, a candle, which stands under
/// `data`, and the answer to a subscription; that one is accepted exactly where it repeats what was
/// asked for, and a document without a channel says nothing.
pub proof fn law_documents_tell_messages(
    bytes: Vec<u8>,
    members: Map<Seq<char>, crate::json::JsonView>,
    data: Map<Seq<char>, crate::json::JsonView>,
    subscription: Map<Seq<char>, crate::json::JsonView>,
    instrument: Instrument,
    timeframe: Timeframe,
    config: crate::provider::runtime::config::WsConfig,
)
    requires
        config.fault() is None,
        bytes@.len() <= config.max_message_size,
        crate::json::json_document(bytes@) == Some(crate::json::JsonView::Object(members)),
    ensures
        ({
            let payload = crate::provider::hyperliquid::message_payload(
                crate::provider::runtime::frame::WsMessage::Text(bytes),
                instrument,
                timeframe,
                config,
            );
            let answered = crate::json::says(members, "channel"@, "subscriptionResponse"@)
                && members.contains_key("data"@) && members["data"@]
                == crate::json::JsonView::Object(data) && data.contains_key("subscription"@)
                && data["subscription"@] == crate::json::JsonView::Object(subscription);
            let repeats = crate::json::says(data, "method"@, "subscribe"@) && crate::json::says(
                subscription,
                "type"@,
                "candle"@,
            ) && crate::json::says(subscription, "coin"@, instrument.provider_symbol@)
                && crate::json::says(subscription, "interval"@, timeframe.spelling()@);
            &&& payload is Candle <==> crate::json::says(members, "channel"@, "candle"@)
                && members.contains_key("data"@)
            &&& crate::json::says(members, "channel"@, "pong"@) ==> payload == WsPayload::Frame(
                DecodedFrame::Provider(HyperliquidDecoded::ApplicationPong),
            )
            &&& answered && repeats ==> payload == WsPayload::Frame(
                DecodedFrame::Provider(HyperliquidDecoded::SubscribeAccepted),
            )
            &&& answered && !repeats ==> (payload matches WsPayload::Frame(
                DecodedFrame::ProviderError(_),
            ))
            &&& !members.contains_key("channel"@) ==> payload == WsPayload::Frame(
                DecodedFrame::Ignored,
            )
        }),
{
    reveal_strlit("candle");
    reveal_strlit("pong");
    reveal_strlit("subscriptionResponse");
    assert("candle"@.len() == 6 && "pong"@.len() == 4 && "subscriptionResponse"@.len() == 20);
}

/// Messages that are no documents: one of too many bytes and one of bytes that are no JSON are errors,
/// a close is told with its code, and the frames of the protocol itself say nothing. Text and binary
/// messages are read alike, and terms that are not accepted are told before anything is read.
pub proof fn law_messages(
    bytes: Vec<u8>,
    code: Option<u16>,
    message: crate::provider::runtime::frame::WsMessage,
    instrument: Instrument,
    timeframe: Timeframe,
    config: crate::provider::runtime::config::WsConfig,
    broken: crate::provider::runtime::config::WsConfig,
)
    requires
        config.fault() is None,
        broken.fault() is Some,
    ensures
        ({
            let text = crate::provider::hyperliquid::message_payload(
                crate::provider::runtime::frame::WsMessage::Text(bytes),
                instrument,
                timeframe,
                config,
            );
            &&& text == crate::provider::hyperliquid::message_payload(
                crate::provider::runtime::frame::WsMessage::Binary(bytes),
                instrument,
                timeframe,
                config,
            )
            &&& bytes@.len() > config.max_message_size ==> (text matches WsPayload::Frame(
                DecodedFrame::ProviderError(
                    ProviderError::Payload {
                        source: crate::error::PayloadError::OverBudget { limit_bytes },
                        ..
                    },
                ),
            ) && limit_bytes == config.max_message_size)
            &&& bytes@.len() <= config.max_message_size && crate::json::json_document(bytes@) is None
                ==> (text matches WsPayload::Frame(
                DecodedFrame::ProviderError(
                    ProviderError::Payload {
                        source: crate::error::PayloadError::MalformedProtocol,
                        ..
                    },
                ),
            ))
        }),
        crate::provider::hyperliquid::message_payload(
            crate::provider::runtime::frame::WsMessage::Close(code),
            instrument,
            timeframe,
            config,
        ) == WsPayload::Frame(DecodedFrame::Close(code)),
        message is Ping || message is Pong || message is Frame
            ==> crate::provider::hyperliquid::message_payload(message, instrument, timeframe, config)
            == WsPayload::Frame(DecodedFrame::Ignored),
        crate::provider::hyperliquid::message_payload(message, instrument, timeframe, broken)
            == WsPayload::Frame(
            DecodedFrame::ProviderError(ProviderError::Configuration(broken.fault()->0)),
        ),
{
}

/// A message that carries no candle is passed on as it is and leaves the open candle held; one whose
/// candle cannot be read is an error and leaves it too; and of one that can be read as many frames
/// come as candles pass, each with its candle.
pub proof fn law_messages_become_frames(
    retained: Option<Candle>,
    message: crate::provider::runtime::frame::WsMessage,
    instrument: Instrument,
    timeframe: Timeframe,
    config: crate::provider::runtime::config::WsConfig,
    kline: &HlCandle,
    now_ms: Option<i64>,
    place: int,
)
    ensures
        ({
            let payload = crate::provider::hyperliquid::message_payload(
                message,
                instrument,
                timeframe,
                config,
            );
            let read = crate::provider::hyperliquid::decoded(
                retained,
                message,
                instrument,
                timeframe,
                config,
                Some(kline),
                now_ms,
            );
            let unread = crate::provider::hyperliquid::decoded(
                retained,
                message,
                instrument,
                timeframe,
                config,
                None,
                now_ms,
            );
            let candle = crate::provider::hyperliquid::ws_candle(
                *kline,
                instrument,
                timeframe,
                now_ms,
                ErrorContext::of_market(
                    crate::error::ErrorOperation::WebSocket,
                    instrument,
                    timeframe,
                ),
            );
            let passed = crate::provider::hyperliquid::advanced(retained, candle->Ok_0);
            &&& payload matches WsPayload::Frame(frame) ==> (read == (retained, seq![frame]) && unread
                == (retained, seq![frame]))
            &&& payload is Candle ==> unread.0 == retained && unread.1.len() == 1
                && unread.1[0] is ProviderError
            &&& payload is Candle ==> (candle matches Err(error) ==> (read == (
                retained,
                seq![DecodedFrame::<HyperliquidDecoded>::ProviderError(error)],
            )))
            &&& payload is Candle && candle is Ok ==> read.0 == passed.0 && read.1.len()
                == passed.1.len() && (0 <= place < passed.1.len() ==> read.1[place]
                == DecodedFrame::Provider(HyperliquidDecoded::Candle(passed.1[place])))
        }),
{
}

/// A symbol that the provider does not know is told as such, in the provider's own words and with no
/// code, since it gives none.
pub proof fn law_unknown_symbols(error: ProviderError, context: ErrorContext, words: Seq<char>)
    requires
        crate::provider::hyperliquid::is_unknown_symbol(error, context, words),
    ensures
        error matches ProviderError::InvalidSymbol { context: told, code, message } && told == context
            && code == 0 && message.words() == Some(words),
{
}

} // verus!
