//! Months and fixed periods on the proleptic Gregorian calendar, in UTC milliseconds.
use vstd::prelude::*;

use crate::model::Timeframe;

verus! {

pub const DAY_NANOS: i128 = 86_400_000_000_000;

pub const DAY_MILLIS: i64 = 86_400_000;

/// The years that a calendar date can have.
pub const LEAST_YEAR: i32 = -9999;

pub const LAST_YEAR: i32 = 9999;

/// Days from the first day of year one to the first day of 1970.
pub const EPOCH_DAY: i64 = 719_162;

pub open spec fn is_leap(year: int) -> bool {
    year % 4 == 0 && (year % 100 != 0 || year % 400 == 0)
}

/// Days from 1970-01-01 to the first day of a year.
pub open spec fn year_start(year: int) -> int {
    365 * (year - 1) + (year - 1) / 4 - (year - 1) / 100 + (year - 1) / 400 - EPOCH_DAY
}

/// Days in a month of a year; months count from one.
pub open spec fn month_length(year: int, month: int) -> int {
    if month == 2 {
        if is_leap(year) {
            29
        } else {
            28
        }
    } else if month == 4 || month == 6 || month == 9 || month == 11 {
        30
    } else {
        31
    }
}

/// Days in a year before a month of it.
pub open spec fn days_before_month(year: int, month: int) -> int
    decreases month,
{
    if month <= 1 {
        0
    } else {
        days_before_month(year, month - 1) + month_length(year, month - 1)
    }
}

/// Days from 1970-01-01 to a date.
pub open spec fn day_number(year: int, month: int, day: int) -> int {
    year_start(year) + days_before_month(year, month) + day - 1
}

pub open spec fn is_date(year: int, month: int, day: int) -> bool {
    LEAST_YEAR <= year <= LAST_YEAR && 1 <= month <= 12 && 1 <= day <= month_length(year, month)
}

/// The number of a month: twelve for every year, counted from the start of year zero.
pub open spec fn month_index(year: int, month: int) -> int {
    12 * year + month - 1
}

/// Days from 1970-01-01 to the first day of a month, by the month's number.
pub open spec fn month_day(index: int) -> int {
    day_number(index / 12, index % 12 + 1, 1)
}

/// When a month opens, in milliseconds from 1970-01-01.
pub open spec fn month_open(index: int) -> int {
    month_day(index) * DAY_MILLIS
}

/// Whether the calendar reaches a month.
pub open spec fn on_calendar(index: int) -> bool {
    month_index(LEAST_YEAR as int, 1) <= index <= month_index(LAST_YEAR as int, 12)
}

proof fn lemma_year_length(year: int)
    ensures
        year_start(year + 1) == year_start(year) + 365 + (if is_leap(year) {
            1int
        } else {
            0int
        }),
{
}

proof fn lemma_month_step(index: int)
    ensures
        month_day(index + 1) == month_day(index) + month_length(index / 12, index % 12 + 1),
{
    let year = index / 12;
    let month = index % 12 + 1;
    lemma_year_length(year);
    if month == 12 {
        assert((index + 1) / 12 == year + 1 && (index + 1) % 12 == 0);
        reveal_with_fuel(days_before_month, 13);
    } else {
        assert((index + 1) / 12 == year && (index + 1) % 12 == index % 12 + 1);
    }
}

proof fn lemma_months_are_apart(low: int, high: int)
    requires
        low < high,
    ensures
        month_day(low) + 28 <= month_day(high),
        month_day(low) + month_length(low / 12, low % 12 + 1) <= month_day(high),
    decreases high - low,
{
    lemma_month_step(high - 1);
    if low < high - 1 {
        lemma_months_are_apart(low, high - 1);
    }
}

/// Later months open later: no two months open at once.
pub proof fn law_months_open_in_order(low: int, high: int)
    requires
        low < high,
    ensures
        month_open(low) < month_open(high),
{
    lemma_months_are_apart(low, high);
}

proof fn lemma_date_month(year: int, month: int, day: int)
    requires
        is_date(year, month, day),
    ensures
        on_calendar(month_index(year, month)),
        month_day(month_index(year, month)) == day_number(year, month, 1),
        month_index(year, month) / 12 == year,
        month_index(year, month) % 12 + 1 == month,
{
    let index = month_index(year, month);
    assert(index / 12 == year && index % 12 == month - 1);
}

/// The first day of a month is the first day of no other, and no other day of one.
proof fn lemma_date_of_month_open(year: int, month: int, day: int, index: int)
    requires
        is_date(year, month, day),
        day_number(year, month, day) == month_day(index),
    ensures
        day == 1,
        index == month_index(year, month),
{
    let own = month_index(year, month);
    lemma_date_month(year, month, day);
    if own < index {
        lemma_months_are_apart(own, index);
    } else if index < own {
        lemma_months_are_apart(index, own);
    }
}

/// A date and time of day, as calendar fields.
#[derive(Clone, Copy, Debug, PartialEq, Eq, Structural)]
pub struct CivilTime {
    pub year: i32,
    pub month: u8,
    pub day: u8,
    pub hour: u8,
    pub minute: u8,
    pub second: u8,
    pub nanosecond: u32,
}

impl CivilTime {
    pub open spec fn is_valid(self) -> bool {
        is_date(self.year as int, self.month as int, self.day as int) && self.hour < 24
            && self.minute < 60 && self.second < 60 && self.nanosecond < 1_000_000_000
    }

    /// Nanoseconds from 1970-01-01 in UTC.
    pub open spec fn nanos(self) -> int {
        day_number(self.year as int, self.month as int, self.day as int) * DAY_NANOS + ((self.hour
            * 60 + self.minute) * 60 + self.second) * 1_000_000_000 + self.nanosecond
    }
}

/// Whether an instant lies within the years of the calendar.
pub open spec fn nanos_on_calendar(nanos: int) -> bool {
    day_number(LEAST_YEAR as int, 1, 1) * DAY_NANOS <= nanos < day_number(
        LAST_YEAR + 1,
        1,
        1,
    ) * DAY_NANOS
}

/// `time::OffsetDateTime::from_unix_timestamp_nanos`, with the fields of the date and time that it
/// gives: it succeeds exactly on the instants of the years -9999 to 9999, and the fields are the
/// UTC calendar date and time of day of the instant.
#[verifier::external_body]
fn civil_time(nanos: i128) -> (civil: Option<CivilTime>)
    ensures
        civil is Some <==> nanos_on_calendar(nanos as int),
        civil matches Some(fields) ==> fields.is_valid() && fields.nanos() == nanos,
{
    time::OffsetDateTime::from_unix_timestamp_nanos(nanos).ok().map(
        |moment|
            CivilTime {
                year: moment.year(),
                month: u8::from(moment.month()),
                day: moment.day(),
                hour: moment.hour(),
                minute: moment.minute(),
                second: moment.second(),
                nanosecond: moment.nanosecond(),
            },
    )
}

/// `time::Date::from_calendar_date`, with the Unix time of the date's midnight in UTC: it succeeds
/// exactly on the dates of the years -9999 to 9999.
#[verifier::external_body]
fn date_midnight(year: i32, month: u8, day: u8) -> (nanos: Option<i128>)
    requires
        1 <= month <= 12,
    ensures
        nanos is Some <==> is_date(year as int, month as int, day as int),
        nanos matches Some(midnight) ==> midnight == day_number(
            year as int,
            month as int,
            day as int,
        ) * DAY_NANOS,
{
    let month = time::Month::try_from(month).ok()?;
    let date = time::Date::from_calendar_date(year, month, day).ok()?;
    Some(date.midnight().assume_utc().unix_timestamp_nanos())
}

proof fn lemma_calendar_ends()
    ensures
        month_index(LEAST_YEAR as int, 1) == -119_988,
        month_index(LAST_YEAR as int, 12) == 119_999,
        month_day(-119_988) == day_number(LEAST_YEAR as int, 1, 1) == -4_371_587,
        month_day(120_000) == day_number(LAST_YEAR + 1, 1, 1) == 2_932_897,
{
    reveal_with_fuel(days_before_month, 2);
    assert(month_day(-119_988) == -4_371_587) by {
        assert(-119_988int / 12 == -9999 && -119_988int % 12 == 0);
    }
    assert(month_day(120_000) == 2_932_897) by {
        assert(120_000int / 12 == 10000 && 120_000int % 12 == 0);
    }
}

/// A month of the calendar opens at an instant of the calendar.
proof fn lemma_month_open_on_calendar(index: int)
    requires
        on_calendar(index),
    ensures
        nanos_on_calendar(month_open(index) * 1_000_000),
        -377_705_116_800_000 <= month_open(index) < 253_402_300_800_000,
{
    lemma_calendar_ends();
    if index > -119_988 {
        lemma_months_are_apart(-119_988, index);
    }
    lemma_months_are_apart(index, 120_000);
}

pub open spec fn opens_month(open_time: i64, index: int) -> bool {
    on_calendar(index) && month_open(index) == open_time
}

/// A day is no part of another.
proof fn lemma_whole_days(day: int, rest: int, other: int)
    requires
        0 <= rest < DAY_NANOS,
        other * DAY_NANOS == day * DAY_NANOS + rest,
    ensures
        other == day,
        rest == 0,
{
}

/// A month opens at the first instant of its first day.
proof fn lemma_first_instant_opens(fields: CivilTime, open_time: i64)
    requires
        fields.is_valid(),
        fields.nanos() == open_time * 1_000_000,
        fields.day == 1 && fields.hour == 0 && fields.minute == 0 && fields.second == 0
            && fields.nanosecond == 0,
    ensures
        opens_month(open_time, month_index(fields.year as int, fields.month as int)),
{
    let day = day_number(fields.year as int, fields.month as int, 1);
    lemma_date_month(fields.year as int, fields.month as int, 1);
    assert(day * DAY_NANOS == open_time * 1_000_000);
}

/// No month opens at another instant.
proof fn lemma_other_instant_opens_nothing(fields: CivilTime, open_time: i64, index: int)
    requires
        fields.is_valid(),
        fields.nanos() == open_time * 1_000_000,
        opens_month(open_time, index),
    ensures
        fields.day == 1 && fields.hour == 0 && fields.minute == 0 && fields.second == 0
            && fields.nanosecond == 0,
{
    let day = day_number(fields.year as int, fields.month as int, fields.day as int);
    let rest = ((fields.hour * 60 + fields.minute) * 60 + fields.second) * 1_000_000_000
        + fields.nanosecond;
    assert(0 <= rest < DAY_NANOS);
    lemma_whole_days(day, rest, month_day(index));
    lemma_date_of_month_open(
        fields.year as int,
        fields.month as int,
        fields.day as int,
        index,
    );
}

/// The date whose first instant an opening time is, where it is the first of a month.
fn month_opened(open_time: i64) -> (month: Option<(i32, u8)>)
    ensures
        month matches Some((year, month)) ==> LEAST_YEAR <= year <= LAST_YEAR && 1 <= month <= 12
            && opens_month(open_time, month_index(year as int, month as int)),
        month is None ==> forall|index: int| !#[trigger] opens_month(open_time, index),
{
    let nanos: i128 = open_time as i128 * 1_000_000;
    let civil = civil_time(nanos);
    match civil {
        None => {
            assert forall|index: int| !#[trigger] opens_month(open_time, index) by {
                if opens_month(open_time, index) {
                    lemma_month_open_on_calendar(index);
                }
            }
            None
        },
        Some(fields) => {
            if fields.day == 1 && fields.hour == 0 && fields.minute == 0 && fields.second == 0
                && fields.nanosecond == 0 {
                proof {
                    lemma_first_instant_opens(fields, open_time);
                }
                Some((fields.year, fields.month))
            } else {
                assert forall|index: int| !#[trigger] opens_month(open_time, index) by {
                    if opens_month(open_time, index) {
                        lemma_other_instant_opens_nothing(fields, open_time, index);
                    }
                }
                None
            }
        },
    }
}

/// The number of the month that opens at a time, where one does.
pub fn calendar_month_index(open_time: i64) -> (index: Option<i64>)
    ensures
        index matches Some(number) ==> opens_month(open_time, number as int),
        index is None ==> forall|number: int| !#[trigger] opens_month(open_time, number),
{
    match month_opened(open_time) {
        None => None,
        Some((year, month)) => Some(year as i64 * 12 + (month as i64 - 1)),
    }
}

/// When the month after the one that opens at a time opens, where both are on the calendar.
pub fn month_successor(open_time: i64) -> (next: Option<i64>)
    ensures
        next matches Some(time) ==> exists|index: int| #[trigger]
            opens_month(open_time, index) && opens_month(time, index + 1),
        next is None ==> forall|index: int| #[trigger]
            opens_month(open_time, index) ==> !on_calendar(index + 1),
{
    match month_opened(open_time) {
        None => None,
        Some((year, month)) => {
            let ghost index = month_index(year as int, month as int);
            let (next_year, next_month): (i32, u8) = if month == 12 {
                (year + 1, 1)
            } else {
                (year, month + 1)
            };
            proof {
                assert(month_index(next_year as int, next_month as int) == index + 1);
                assert((index + 1) / 12 == next_year && (index + 1) % 12 + 1 == next_month);
                assert(month_day(index + 1) == day_number(next_year as int, next_month as int, 1));
                assert forall|other: int| #[trigger] opens_month(open_time, other) implies other
                    == index by {
                    if other < index {
                        law_months_open_in_order(other, index);
                    } else if index < other {
                        law_months_open_in_order(index, other);
                    }
                }
                assert(opens_month(open_time, index));
            }
            match date_midnight(next_year, next_month, 1) {
                None => None,
                Some(nanos) => {
                    proof {
                        lemma_month_open_on_calendar(index + 1);
                        assert(nanos == month_open(index + 1) * 1_000_000);
                    }
                    let millis: i64 = (nanos / 1_000_000) as i64;
                    assert(opens_month(millis, index + 1));
                    Some(millis)
                },
            }
        },
    }
}

/// How long a period lasts, where every one of its kind lasts as long.
pub open spec fn fixed_period(timeframe: Timeframe) -> Option<int> {
    match timeframe {
        Timeframe::Second1 => Some(1_000),
        Timeframe::Minute1 => Some(60_000),
        Timeframe::Minute3 => Some(180_000),
        Timeframe::Minute5 => Some(300_000),
        Timeframe::Minute15 => Some(900_000),
        Timeframe::Minute30 => Some(1_800_000),
        Timeframe::Hour1 => Some(3_600_000),
        Timeframe::Hour2 => Some(7_200_000),
        Timeframe::Hour4 => Some(14_400_000),
        Timeframe::Hour6 => Some(21_600_000),
        Timeframe::Hour8 => Some(28_800_000),
        Timeframe::Hour12 => Some(43_200_000),
        Timeframe::Day1 => Some(86_400_000),
        Timeframe::Day3 => Some(259_200_000),
        Timeframe::Week1 => Some(604_800_000),
        Timeframe::Month1 => None,
    }
}

pub fn fixed_timeframe_milliseconds(timeframe: Timeframe) -> (millis: Option<i64>)
    ensures
        millis == (match fixed_period(timeframe) {
            Some(period) => Some(period as i64),
            None => None,
        }),
        millis is None <==> timeframe == Timeframe::Month1,
        millis matches Some(period) ==> 1_000 <= period <= 604_800_000,
{
    match timeframe {
        Timeframe::Second1 => Some(1_000),
        Timeframe::Minute1 => Some(60_000),
        Timeframe::Minute3 => Some(180_000),
        Timeframe::Minute5 => Some(300_000),
        Timeframe::Minute15 => Some(900_000),
        Timeframe::Minute30 => Some(1_800_000),
        Timeframe::Hour1 => Some(3_600_000),
        Timeframe::Hour2 => Some(7_200_000),
        Timeframe::Hour4 => Some(14_400_000),
        Timeframe::Hour6 => Some(21_600_000),
        Timeframe::Hour8 => Some(28_800_000),
        Timeframe::Hour12 => Some(43_200_000),
        Timeframe::Day1 => Some(86_400_000),
        Timeframe::Day3 => Some(259_200_000),
        Timeframe::Week1 => Some(604_800_000),
        Timeframe::Month1 => None,
    }
}

/// A grid of opening times: one every period, with `origin` on it; or the months.
#[derive(Clone, Copy, Debug, PartialEq, Eq, Structural)]
pub enum Grid {
    Fixed { period: i64, origin: i64 },
    Months,
}

impl Grid {
    pub open spec fn valid(self) -> bool {
        match self {
            Grid::Fixed { period, origin } => 0 < period && 0 <= origin,
            Grid::Months => true,
        }
    }

    /// Whether a time opens a period whose successor is `next`.
    pub open spec fn follows(self, time: int, next: int) -> bool {
        match self {
            Grid::Fixed { period, origin } => (time - origin) % (period as int) == 0 && next == time
                + period,
            Grid::Months => exists|index: int|
                on_calendar(index) && on_calendar(index + 1) && time == #[trigger] month_open(index)
                    && next == month_open(index + 1),
        }
    }

    /// Whether `time` is so near the start of the clock that its distance from the origin does not
    /// fit.
    pub open spec fn before_reach(self, time: int) -> bool {
        self matches Grid::Fixed { period, origin } && time - origin < i64::MIN
    }

    /// When the period after the one that opens at a time opens: where the time is on the grid, and
    /// neither the origin nor the next time is out of reach.
    pub open spec fn next_open(self, time: i64) -> Option<i64> {
        if !self.before_reach(time as int) && exists|next: i64| #[trigger]
            self.follows(time as int, next as int) {
            Some(choose|next: i64| #[trigger] self.follows(time as int, next as int))
        } else {
            None
        }
    }

    /// When the period after the one that opens at a time opens.
    pub fn successor(self, time: i64) -> (next: Option<i64>)
        requires
            self.valid(),
        ensures
            next == self.next_open(time),
            next matches Some(following) ==> self.follows(time as int, following as int)
                && !self.before_reach(time as int),
            next is None ==> self.before_reach(time as int) || forall|following: i64|
                !self.follows(time as int, following as int),
    {
        let next = self.step(time);
        proof {
            if let Some(following) = next {
                assert(self.follows(time as int, following as int));
                let chosen = choose|other: i64| #[trigger] self.follows(time as int, other as int);
                law_successor_is_later_and_single(
                    self,
                    time as int,
                    following as int,
                    chosen as int,
                );
            }
        }
        next
    }

    fn step(self, time: i64) -> (next: Option<i64>)
        requires
            self.valid(),
        ensures
            next matches Some(following) ==> self.follows(time as int, following as int)
                && !self.before_reach(time as int),
            next is None ==> self.before_reach(time as int) || forall|following: i64|
                !self.follows(time as int, following as int),
    {
        match self {
            Grid::Fixed { period, origin } => match time.checked_sub(origin) {
                None => None,
                Some(distance) => match distance.checked_rem_euclid(period) {
                    None => None,
                    Some(rest) => {
                        if rest != 0 {
                            return None;
                        }
                        time.checked_add(period)
                    },
                },
            },
            Grid::Months => {
                let next = month_successor(time);
                match next {
                    Some(following) => {
                        let ghost index = choose|index: int| #[trigger]
                            opens_month(time, index) && opens_month(following, index + 1);
                        assert(time == month_open(index));
                    },
                    None => {
                        assert forall|following: i64| !self.follows(
                            time as int,
                            following as int,
                        ) by {
                            if self.follows(time as int, following as int) {
                                let index = choose|index: int|
                                    on_calendar(index) && on_calendar(index + 1) && time
                                        == #[trigger] month_open(index) && following == month_open(
                                        index + 1,
                                    );
                                assert(opens_month(time, index));
                            }
                        }
                    },
                }
                next
            },
        }
    }
}

/// A period's successor opens after it, and no time has two successors.
pub proof fn law_successor_is_later_and_single(grid: Grid, time: int, next: int, other: int)
    requires
        grid.valid(),
        grid.follows(time, next),
        grid.follows(time, other),
    ensures
        time < next,
        next == other,
{
    if grid == Grid::Months {
        let first = choose|index: int|
            on_calendar(index) && on_calendar(index + 1) && time == #[trigger] month_open(index)
                && next == month_open(index + 1);
        let second = choose|index: int|
            on_calendar(index) && on_calendar(index + 1) && time == #[trigger] month_open(index)
                && other == month_open(index + 1);
        if first < second {
            law_months_open_in_order(first, second);
        } else if second < first {
            law_months_open_in_order(second, first);
        }
        law_months_open_in_order(first, first + 1);
    }
}

/// The successor of a time on the grid is on the grid: it has a successor of its own, unless the
/// calendar ends there.
pub proof fn law_successor_stays_on_grid(grid: Grid, time: int, next: int)
    requires
        grid.valid(),
        grid.follows(time, next),
    ensures
        match grid {
            Grid::Fixed { period, origin } => grid.follows(next, next + period),
            Grid::Months => next == month_open(month_index(LAST_YEAR as int, 12)) || exists|
                later: int,
            | #[trigger]
                grid.follows(next, later),
        },
{
    match grid {
        Grid::Fixed { period, origin } => {
            vstd::arithmetic::div_mod::lemma_mod_add_multiples_vanish(
                time - origin,
                period as int,
            );
            assert((period + (time - origin)) % (period as int) == 0);
        },
        Grid::Months => {
            let index = choose|index: int|
                on_calendar(index) && on_calendar(index + 1) && time == #[trigger] month_open(index)
                    && next == month_open(index + 1);
            if on_calendar(index + 2) {
                assert(grid.follows(next, month_open(index + 2))) by {
                    assert(next == month_open(index + 1));
                }
            }
        },
    }
}

/// Periods make each other up as their names say: a minute is sixty seconds, an hour sixty minutes, a
/// day twenty-four hours, a week seven days. Only a month has no fixed length.
pub proof fn law_periods_make_each_other_up()
    ensures
        forall|timeframe: Timeframe|
            (#[trigger] fixed_period(timeframe)) is None <==> timeframe == Timeframe::Month1,
        fixed_period(Timeframe::Second1)->0 == 1_000,
        fixed_period(Timeframe::Minute1)->0 == 60 * fixed_period(Timeframe::Second1)->0,
        fixed_period(Timeframe::Minute3)->0 == 3 * fixed_period(Timeframe::Minute1)->0,
        fixed_period(Timeframe::Minute5)->0 == 5 * fixed_period(Timeframe::Minute1)->0,
        fixed_period(Timeframe::Minute15)->0 == 15 * fixed_period(Timeframe::Minute1)->0,
        fixed_period(Timeframe::Minute30)->0 == 30 * fixed_period(Timeframe::Minute1)->0,
        fixed_period(Timeframe::Hour1)->0 == 60 * fixed_period(Timeframe::Minute1)->0,
        fixed_period(Timeframe::Hour2)->0 == 2 * fixed_period(Timeframe::Hour1)->0,
        fixed_period(Timeframe::Hour4)->0 == 4 * fixed_period(Timeframe::Hour1)->0,
        fixed_period(Timeframe::Hour6)->0 == 6 * fixed_period(Timeframe::Hour1)->0,
        fixed_period(Timeframe::Hour8)->0 == 8 * fixed_period(Timeframe::Hour1)->0,
        fixed_period(Timeframe::Hour12)->0 == 12 * fixed_period(Timeframe::Hour1)->0,
        fixed_period(Timeframe::Day1)->0 == 24 * fixed_period(Timeframe::Hour1)->0,
        fixed_period(Timeframe::Day3)->0 == 3 * fixed_period(Timeframe::Day1)->0,
        fixed_period(Timeframe::Week1)->0 == 7 * fixed_period(Timeframe::Day1)->0,
        fixed_period(Timeframe::Day1)->0 == DAY_MILLIS,
{
    assert forall|timeframe: Timeframe|
        (#[trigger] fixed_period(timeframe)) is None <==> timeframe == Timeframe::Month1 by {
        match timeframe {
            Timeframe::Month1 => {},
            _ => {},
        }
    }
}

/// The clock starts with 1970; each month opens as many days after the one before as that one has;
/// and a year has twelve months and three hundred and sixty-five days, or one more where it can be
/// divided by four, though not by a hundred unless by four hundred.
pub proof fn law_months_follow_the_calendar(year: int, month: int)
    requires
        1 <= month <= 12,
    ensures
        month_open(month_index(1970, 1)) == 0,
        month_open(month_index(year, month) + 1) - month_open(month_index(year, month))
            == month_length(year, month) * 86_400_000,
        month == 1 || month == 3 || month == 5 || month == 7 || month == 8 || month == 10 || month
            == 12 ==> month_length(year, month) == 31,
        month == 4 || month == 6 || month == 9 || month == 11 ==> month_length(year, month) == 30,
        year % 4 != 0 ==> month_length(year, 2) == 28,
        year % 400 == 0 ==> month_length(year, 2) == 29,
        year % 4 == 0 && year % 100 != 0 ==> month_length(year, 2) == 29,
        year % 100 == 0 && year % 400 != 0 ==> month_length(year, 2) == 28,
        month_open(month_index(year + 1, 1)) - month_open(month_index(year, 1)) == (365
            + month_length(year, 2) - 28) * 86_400_000,
{
    let index = month_index(year, month);
    assert(index / 12 == year && index % 12 + 1 == month);
    lemma_month_step(index);
    let first = month_index(year, 1);
    assert(first / 12 == year && first % 12 == 0);
    assert(month_index(year + 1, 1) / 12 == year + 1 && month_index(year + 1, 1) % 12 == 0);
    lemma_year_length(year);
    assert(month_index(1970, 1) / 12 == 1970 && month_index(1970, 1) % 12 == 0);
}

/// A period and its successor are apart by the length of the period: the one that the grid has, or
/// twenty-eight to thirty-one days where the grid is the months.
pub proof fn law_periods_have_their_length(grid: Grid, time: int, next: int)
    requires
        grid.follows(time, next),
    ensures
        grid matches Grid::Fixed { period, .. } ==> next - time == period,
        grid is Months ==> 28 * 86_400_000 <= next - time <= 31 * 86_400_000,
{
    if grid is Months {
        let index = choose|index: int|
            on_calendar(index) && on_calendar(index + 1) && time == #[trigger] month_open(index)
                && next == month_open(index + 1);
        lemma_month_step(index);
    }
}

/// When the next period opens: the one that follows, where there is one; and only a time whose
/// distance from the origin is out of reach has none that follows it all the same.
pub proof fn law_next_period_follows(grid: Grid, time: i64, next: i64)
    requires
        grid.valid(),
    ensures
        grid.next_open(time) == Some(next) ==> grid.follows(time as int, next as int) && time < next,
        grid.follows(time as int, next as int) && grid is Months ==> grid.next_open(time) == Some(
            next,
        ),
        grid.follows(time as int, next as int) ==> (grid matches Grid::Fixed { origin, .. } ==> (
        grid.next_open(time) == Some(next) <==> time - origin >= i64::MIN)),
{
    if grid.follows(time as int, next as int) {
        let chosen = choose|other: i64| #[trigger] grid.follows(time as int, other as int);
        law_successor_is_later_and_single(grid, time as int, next as int, chosen as int);
    }
    if grid.next_open(time) == Some(next) {
        law_successor_is_later_and_single(grid, time as int, next as int, next as int);
    }
}

} // verus!
