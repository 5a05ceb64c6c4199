//! Market-data vocabulary shared by every provider.
use vstd::prelude::*;

use crate::text::chars_of;

verus! {

/// A candle period that a chart can show.
#[derive(Clone, Copy, Debug, PartialEq, Eq, Structural)]
pub enum Timeframe {
    Second1,
    Minute1,
    Minute3,
    Minute5,
    Minute15,
    Minute30,
    Hour1,
    Hour2,
    Hour4,
    Hour6,
    Hour8,
    Hour12,
    Day1,
    Day3,
    Week1,
    Month1,
}

impl Timeframe {
    /// The case-sensitive command-line and wire spelling of a timeframe.
    pub open spec fn spelling(self) -> &'static str {
        match self {
            Timeframe::Second1 => "1s",
            Timeframe::Minute1 => "1m",
            Timeframe::Minute3 => "3m",
            Timeframe::Minute5 => "5m",
            Timeframe::Minute15 => "15m",
            Timeframe::Minute30 => "30m",
            Timeframe::Hour1 => "1h",
            Timeframe::Hour2 => "2h",
            Timeframe::Hour4 => "4h",
            Timeframe::Hour6 => "6h",
            Timeframe::Hour8 => "8h",
            Timeframe::Hour12 => "12h",
            Timeframe::Day1 => "1d",
            Timeframe::Day3 => "3d",
            Timeframe::Week1 => "1w",
            Timeframe::Month1 => "1M",
        }
    }

    pub fn as_str(self) -> (text: &'static str)
        ensures
            text == self.spelling(),
    {
        match self {
            Timeframe::Second1 => "1s",
            Timeframe::Minute1 => "1m",
            Timeframe::Minute3 => "3m",
            Timeframe::Minute5 => "5m",
            Timeframe::Minute15 => "15m",
            Timeframe::Minute30 => "30m",
            Timeframe::Hour1 => "1h",
            Timeframe::Hour2 => "2h",
            Timeframe::Hour4 => "4h",
            Timeframe::Hour6 => "6h",
            Timeframe::Hour8 => "8h",
            Timeframe::Hour12 => "12h",
            Timeframe::Day1 => "1d",
            Timeframe::Day3 => "3d",
            Timeframe::Week1 => "1w",
            Timeframe::Month1 => "1M",
        }
    }
}

#[derive(Clone, Copy, Debug, PartialEq, Eq, Structural)]
pub enum Market {
    Spot,
    Perpetual,
}

/// A market as one provider names it.
#[derive(Debug, PartialEq, Eq)]
pub struct Instrument {
    pub provider: String,
    pub market: Market,
    pub base: String,
    pub quote: String,
    pub provider_symbol: String,
}

impl Clone for Instrument {
    fn clone(&self) -> (copy: Self)
        ensures
            copy == *self,
    {
        Instrument {
            provider: self.provider.clone(),
            market: self.market,
            base: self.base.clone(),
            quote: self.quote.clone(),
            provider_symbol: self.provider_symbol.clone(),
        }
    }
}

impl Instrument {
    pub fn market(&self) -> (market: Market)
        ensures
            market == self.market,
    {
        self.market
    }

    pub fn provider_symbol(&self) -> (symbol: &str)
        ensures
            symbol@ == self.provider_symbol@,
    {
        self.provider_symbol.as_str()
    }
}

/// A market as the command line asks for it, before a provider has accepted it.
#[derive(Debug, PartialEq, Eq)]
pub struct InstrumentSpec {
    pub provider: String,
    pub market: Market,
    pub venue: Option<String>,
}

/// Whether a token is the number of a spot market: an `@` and digits.
pub open spec fn spot_index(token: Seq<char>) -> bool {
    token.len() > 1 && token[0] == '@' && crate::text::all_digits(token.skip(1))
}

pub fn is_spot_index_token(token: &str) -> (index: bool)
    ensures
        index == spot_index(token@),
{
    let chars = chars_of(token);
    if chars.len() <= 1 || chars[0] != '@' {
        return false;
    }
    let mut place: usize = 1;
    while place < chars.len()
        invariant
            1 <= place <= chars.len(),
            chars@ == token@,
            forall|i: int| 1 <= i < place ==> crate::text::is_digit(#[trigger] chars@[i]),
        decreases chars.len() - place,
    {
        if !('0' <= chars[place] && chars[place] <= '9') {
            assert(!crate::text::is_digit(token@.skip(1)[place - 1]));
            return false;
        }
        place += 1;
    }
    assert forall|i: int| 0 <= i < token@.skip(1).len() implies crate::text::is_digit(
        #[trigger] token@.skip(1)[i],
    ) by {
        assert(crate::text::is_digit(chars@[i + 1]));
    }
    true
}

/// What a provider offers: its markets, its timeframes, and the rows of one page of history.
#[derive(Debug, PartialEq, Eq)]
pub struct ProviderCapabilities {
    pub markets: Vec<Market>,
    pub timeframes: Vec<Timeframe>,
    pub history_page_limit: u16,
}

/// A reading of the monotonic clock, in nanoseconds from its origin.
#[derive(Clone, Copy, Debug, PartialEq, Eq, Structural)]
pub struct MonoInstant(pub u64);

impl MonoInstant {
    pub open spec fn latest(self, other: MonoInstant) -> MonoInstant {
        if self.0 >= other.0 {
            self
        } else {
            other
        }
    }

    /// The later of two readings.
    pub fn max_of(self, other: MonoInstant) -> (later: MonoInstant)
        ensures
            later == self.latest(other),
    {
        if self.0 >= other.0 {
            self
        } else {
            other
        }
    }
}

/// Number of one connection attempt of a live feed; later attempts have larger numbers.
#[derive(Clone, Copy, Debug, PartialEq, Eq, Structural)]
pub struct GapGeneration(pub u64);

/// Number of one replay batch within a generation.
#[derive(Clone, Copy, Debug, PartialEq, Eq, Structural)]
pub struct ReplayRevision(pub u64);

#[derive(Clone, Copy, Debug, PartialEq, Eq, Structural)]
pub enum ConnectionStatus {
    Connecting,
    GapSync,
    Connected,
    Backoff,
    Stopped,
}

#[derive(Clone, Copy, Debug, PartialEq, Eq, Structural)]
pub enum ProcessBlocker {
    InvalidBanExpiry,
}

/// Whether requests may go out: at once, from an instant on, or never again in this process.
#[derive(Clone, Copy, Debug, PartialEq, Eq, Structural)]
pub enum RateGateState {
    Open,
    TimedUntil(MonoInstant),
    ProcessBlocked(ProcessBlocker),
}

impl RateGateState {
    pub open spec fn blocked(self) -> bool {
        self is ProcessBlocked
    }

    pub fn is_process_blocked(self) -> (blocked: bool)
        ensures
            blocked == self.blocked(),
    {
        match self {
            RateGateState::ProcessBlocked(_) => true,
            _ => false,
        }
    }
}

/// How many rows of history are asked for, and over which open times.
#[derive(Clone, Copy, Debug, PartialEq, Eq, Structural)]
pub enum HistoryRequestKind {
    Latest,
    Older,
    Gap,
}

#[derive(Clone, Copy, Debug, PartialEq, Eq, Structural)]
pub struct HistoryRequest {
    pub kind: HistoryRequestKind,
    pub start_time: Option<i64>,
    pub end_time: Option<i64>,
    pub limit: u16,
}

/// A history request whose limit is zero, or whose range is empty.
#[derive(Clone, Copy, Debug, PartialEq, Eq, Structural)]
pub struct InvalidHistoryRequest;

impl HistoryRequest {
    /// The newest `limit` candles.
    pub fn latest(limit: u16) -> (request: Result<HistoryRequest, InvalidHistoryRequest>)
        ensures
            request == (if limit == 0 {
                Err(InvalidHistoryRequest)
            } else {
                Ok(
                    HistoryRequest {
                        kind: HistoryRequestKind::Latest,
                        start_time: None,
                        end_time: None,
                        limit,
                    },
                )
            }),
    {
        if limit == 0 {
            return Err(InvalidHistoryRequest);
        }
        Ok(
            HistoryRequest {
                kind: HistoryRequestKind::Latest,
                start_time: None,
                end_time: None,
                limit,
            },
        )
    }

    /// The newest `limit` candles up to `end_time`.
    pub fn older(end_time: i64, limit: u16) -> (request: Result<
        HistoryRequest,
        InvalidHistoryRequest,
    >)
        ensures
            request == (if limit == 0 {
                Err(InvalidHistoryRequest)
            } else {
                Ok(
                    HistoryRequest {
                        kind: HistoryRequestKind::Older,
                        start_time: None,
                        end_time: Some(end_time),
                        limit,
                    },
                )
            }),
    {
        if limit == 0 {
            return Err(InvalidHistoryRequest);
        }
        Ok(
            HistoryRequest {
                kind: HistoryRequestKind::Older,
                start_time: None,
                end_time: Some(end_time),
                limit,
            },
        )
    }

    pub open spec fn gap_request(start_time: i64, end_time: i64, limit: u16) -> HistoryRequest {
        HistoryRequest {
            kind: HistoryRequestKind::Gap,
            start_time: Some(start_time),
            end_time: Some(end_time),
            limit,
        }
    }

    /// The oldest `limit` candles from `start_time` through `end_time`.
    pub fn gap(start_time: i64, end_time: i64, limit: u16) -> (request: Result<
        HistoryRequest,
        InvalidHistoryRequest,
    >)
        ensures
            request == (if limit == 0 || start_time > end_time {
                Err(InvalidHistoryRequest)
            } else {
                Ok(HistoryRequest::gap_request(start_time, end_time, limit))
            }),
    {
        if limit == 0 || start_time > end_time {
            return Err(InvalidHistoryRequest);
        }
        Ok(
            HistoryRequest {
                kind: HistoryRequestKind::Gap,
                start_time: Some(start_time),
                end_time: Some(end_time),
                limit,
            },
        )
    }
}

/// The later of two optional watermarks; no watermark is earlier than any.
pub open spec fn later_watermark(left: Option<i64>, right: Option<i64>) -> Option<i64> {
    match (left, right) {
        (Some(a), Some(b)) => if a >= b {
            Some(a)
        } else {
            Some(b)
        },
        (Some(a), None) => Some(a),
        (None, other) => other,
    }
}

pub fn max_watermark(left: Option<i64>, right: Option<i64>) -> (later: Option<i64>)
    ensures
        later == later_watermark(left, right),
{
    match (left, right) {
        (Some(a), Some(b)) => if a >= b {
            Some(a)
        } else {
            Some(b)
        },
        (Some(a), None) => Some(a),
        (None, other) => other,
    }
}

/// How long, in milliseconds, the unit is that a letter stands for.
pub open spec fn unit_millis(letter: char) -> int {
    if letter == 's' {
        1_000
    } else if letter == 'm' {
        60_000
    } else if letter == 'h' {
        3_600_000
    } else if letter == 'd' {
        86_400_000
    } else {
        604_800_000
    }
}

/// A timeframe is spelled as it lasts: a count, and the letter of its unit. The month is the only one
/// whose letter is a capital.
pub proof fn law_spellings_say_how_long(timeframe: Timeframe)
    ensures
        ({
            let text = timeframe.spelling()@;
            let letter = text.last();
            &&& text.len() == 2 || text.len() == 3
            &&& crate::text::all_digits(text.drop_last())
            &&& letter == 'M' <==> timeframe == Timeframe::Month1
            &&& letter == 's' || letter == 'm' || letter == 'h' || letter == 'd' || letter == 'w'
                || letter == 'M'
            &&& crate::calendar::fixed_period(timeframe) matches Some(period) ==> period
                == crate::text::numeral_value(text.drop_last()) * unit_millis(letter)
            &&& timeframe == Timeframe::Month1 ==> crate::text::numeral_value(text.drop_last()) == 1
        }),
{
    reveal_strlit("1s");
    reveal_strlit("1m");
    reveal_strlit("3m");
    reveal_strlit("5m");
    reveal_strlit("15m");
    reveal_strlit("30m");
    reveal_strlit("1h");
    reveal_strlit("2h");
    reveal_strlit("4h");
    reveal_strlit("6h");
    reveal_strlit("8h");
    reveal_strlit("12h");
    reveal_strlit("1d");
    reveal_strlit("3d");
    reveal_strlit("1w");
    reveal_strlit("1M");
    reveal_with_fuel(crate::text::numeral_value, 3);
    let text = timeframe.spelling()@;
    let digits = text.drop_last();
    assert(digits.len() == 1 || digits.len() == 2);
    assert(digits.drop_last().len() == digits.len() - 1);
    match timeframe {
        Timeframe::Minute15 => {
            assert(digits.drop_last() =~= seq!['1']);
        },
        Timeframe::Minute30 => {
            assert(digits.drop_last() =~= seq!['3']);
        },
        Timeframe::Hour12 => {
            assert(digits.drop_last() =~= seq!['1']);
        },
        _ => {
            assert(digits.drop_last() =~= Seq::<char>::empty());
        },
    }
}

/// The later of two watermarks is one of them, and neither is after it; none is before any.
pub proof fn law_later_watermark(left: Option<i64>, right: Option<i64>)
    ensures
        later_watermark(left, right) == left || later_watermark(left, right) == right,
        later_watermark(left, right) is None <==> left is None && right is None,
        left matches Some(time) ==> later_watermark(left, right)->0 >= time,
        right matches Some(time) ==> later_watermark(left, right)->0 >= time,
        later_watermark(left, right) == later_watermark(right, left),
{
}

/// The later of two readings of the clock is one of them, and neither is after it.
pub proof fn law_latest_reading(left: MonoInstant, right: MonoInstant)
    ensures
        left.latest(right) == left || left.latest(right) == right,
        left.latest(right).0 >= left.0 && left.latest(right).0 >= right.0,
{
}

/// The number of a spot market is written as an `@` and at least one digit, and nothing else.
pub proof fn law_spot_numbers(token: Seq<char>)
    ensures
        spot_index(token) <==> token.len() >= 2 && token[0] == '@' && forall|i: int|
            1 <= i < token.len() ==> '0' <= #[trigger] token[i] <= '9',
{
    if spot_index(token) {
        assert forall|i: int| 1 <= i < token.len() implies '0' <= #[trigger] token[i] <= '9' by {
            assert(crate::text::is_digit(token.skip(1)[i - 1]));
        }
    }
    if token.len() >= 2 && token[0] == '@' && forall|i: int|
        1 <= i < token.len() ==> '0' <= #[trigger] token[i] <= '9' {
        assert forall|i: int| 0 <= i < token.skip(1).len() implies crate::text::is_digit(
            #[trigger] token.skip(1)[i],
        ) by {
            assert('0' <= token[i + 1] <= '9');
        }
    }
}

/// Only a block stops requests for good; an open gate and one that opens at a time do not.
pub proof fn law_only_blocks_block(state: RateGateState)
    ensures
        state.blocked() <==> !(state is Open || state is TimedUntil),
{
}

/// A request for a gap names both of its ends and how many rows it may have.
pub proof fn law_gap_requests(start_time: i64, end_time: i64, limit: u16)
    ensures
        ({
            let request = HistoryRequest::gap_request(start_time, end_time, limit);
            &&& request.kind == HistoryRequestKind::Gap
            &&& request.start_time == Some(start_time)
            &&& request.end_time == Some(end_time)
            &&& request.limit == limit
        }),
{
}

} // verus!
