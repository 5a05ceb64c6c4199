//! Candles and the finite binary64 numbers that they hold.
use vstd::prelude::*;

verus! {

/// Where the exponent field of a binary64 pattern starts.
pub const EXPONENT_UNIT: u64 = 0x0010_0000_0000_0000;

/// How many values the exponent field takes.
pub const EXPONENT_COUNT: u64 = 2048;

/// The pattern of negative zero, and of a set sign bit.
pub const SIGN_BIT: u64 = 0x8000_0000_0000_0000;

/// A finite IEEE 754 binary64 number, held as its bit pattern.
#[derive(Clone, Copy, Debug)]
pub struct Decimal {
    bits: u64,
}

/// Whether a binary64 pattern is neither infinite nor a NaN: its exponent field is not all ones.
pub open spec fn finite_bits(bits: u64) -> bool {
    (bits as int / EXPONENT_UNIT as int) % (EXPONENT_COUNT as int) != EXPONENT_COUNT - 1
}

impl Decimal {
    pub closed spec fn pattern(self) -> u64 {
        self.bits
    }

    /// A number's place on the line of all finite numbers: the magnitude with the sign in front.
    /// Two numbers are equal, or in order, exactly as their places are; both zeros share one.
    pub open spec fn place(self) -> int {
        if self.pattern() < SIGN_BIT {
            self.pattern() as int
        } else {
            -(self.pattern() - SIGN_BIT)
        }
    }

    /// Takes the pattern of a number, and refuses infinities and NaNs.
    pub fn from_bits(bits: u64) -> (decimal: Option<Decimal>)
        ensures
            decimal is Some <==> finite_bits(bits),
            decimal matches Some(d) ==> d.pattern() == bits,
    {
        if (bits / EXPONENT_UNIT) % EXPONENT_COUNT != EXPONENT_COUNT - 1 {
            Some(Decimal { bits })
        } else {
            None
        }
    }

    pub fn to_bits(self) -> (bits: u64)
        ensures
            bits == self.pattern(),
    {
        self.bits
    }

    pub fn equals(self, other: Decimal) -> (equal: bool)
        ensures
            equal == (self.place() == other.place()),
    {
        self.bits == other.bits || ((self.bits == 0 || self.bits == SIGN_BIT) && (other.bits == 0
            || other.bits == SIGN_BIT))
    }

    /// Whether the number is at least zero.
    pub fn is_nonnegative(self) -> (nonnegative: bool)
        ensures
            nonnegative == (self.place() >= 0),
    {
        self.bits <= SIGN_BIT
    }

    /// Whether the number is at most the other.
    pub fn at_most(self, other: Decimal) -> (ordered: bool)
        ensures
            ordered == (self.place() <= other.place()),
    {
        if self.bits < SIGN_BIT {
            if other.bits < SIGN_BIT {
                self.bits <= other.bits
            } else {
                self.bits == 0 && other.bits == SIGN_BIT
            }
        } else {
            other.bits < SIGN_BIT || other.bits <= self.bits
        }
    }
}

impl PartialEq for Decimal {
    fn eq(&self, other: &Decimal) -> (equal: bool) {
        self.equals(*other)
    }
}

impl vstd::std_specs::cmp::PartialEqSpecImpl for Decimal {
    open spec fn obeys_eq_spec() -> bool {
        true
    }

    open spec fn eq_spec(&self, other: &Decimal) -> bool {
        self.place() == other.place()
    }
}

/// Who said what a candle holds, and whether it was said to be final.
#[derive(Clone, Copy, Debug, PartialEq, Eq, Structural)]
pub enum FinalityAuthority {
    RestProvisionalOpen,
    RestProvisionalClosed,
    WsAuthoritativeOpen,
    WsAuthoritativeClosed,
}

impl FinalityAuthority {
    /// How much an authority is to be believed: the stream over history, closed over open.
    pub open spec fn rank(self) -> int {
        match self {
            FinalityAuthority::RestProvisionalOpen => 0,
            FinalityAuthority::RestProvisionalClosed => 1,
            FinalityAuthority::WsAuthoritativeOpen => 2,
            FinalityAuthority::WsAuthoritativeClosed => 3,
        }
    }

    /// Whether a candle of this authority gives way to one of `candidate`.
    pub fn yields_to(self, candidate: FinalityAuthority) -> (replaced: bool)
        ensures
            replaced == (self.rank() <= candidate.rank()),
    {
        match (self, candidate) {
            (_, FinalityAuthority::WsAuthoritativeClosed) => true,
            (FinalityAuthority::WsAuthoritativeClosed, _) => false,
            (_, FinalityAuthority::WsAuthoritativeOpen) => true,
            (FinalityAuthority::WsAuthoritativeOpen, _) => false,
            (_, FinalityAuthority::RestProvisionalClosed) => true,
            (FinalityAuthority::RestProvisionalClosed, _) => false,
            (
                FinalityAuthority::RestProvisionalOpen,
                FinalityAuthority::RestProvisionalOpen,
            ) => true,
        }
    }
}

/// Why numbers do not make a candle.
#[derive(Clone, Copy, Debug, PartialEq, Eq, Structural)]
pub enum DomainError {
    ClosesBeforeOpen,
    PriceOutsideRange,
    NegativeVolume,
}

/// The times and numbers of one period.
#[derive(Clone, Copy, Debug, PartialEq)]
pub struct CandleValues {
    pub open_time: i64,
    pub close_time: i64,
    pub open: Decimal,
    pub high: Decimal,
    pub low: Decimal,
    pub close: Decimal,
    pub base_volume: Decimal,
}

impl CandleValues {
    /// The first thing that is wrong with the values, if anything is.
    pub open spec fn fault(self) -> Option<DomainError> {
        if self.close_time < self.open_time {
            Some(DomainError::ClosesBeforeOpen)
        } else if !(self.low.place() <= self.open.place() <= self.high.place() && self.low.place()
            <= self.close.place() <= self.high.place()) {
            Some(DomainError::PriceOutsideRange)
        } else if self.base_volume.place() < 0 {
            Some(DomainError::NegativeVolume)
        } else {
            None
        }
    }

    pub fn check(&self) -> (fault: Option<DomainError>)
        ensures
            fault == self.fault(),
    {
        if self.close_time < self.open_time {
            Some(DomainError::ClosesBeforeOpen)
        } else if !(self.low.at_most(self.open) && self.open.at_most(self.high) && self.low.at_most(
            self.close,
        ) && self.close.at_most(self.high)) {
            Some(DomainError::PriceOutsideRange)
        } else if !self.base_volume.is_nonnegative() {
            Some(DomainError::NegativeVolume)
        } else {
            None
        }
    }

    /// Whether two sets of values are equal number by number.
    pub open spec fn same(self, other: CandleValues) -> bool {
        &&& self.open_time == other.open_time
        &&& self.close_time == other.close_time
        &&& self.open.place() == other.open.place()
        &&& self.high.place() == other.high.place()
        &&& self.low.place() == other.low.place()
        &&& self.close.place() == other.close.place()
        &&& self.base_volume.place() == other.base_volume.place()
    }
}

/// One candle, and who vouches for it.
#[derive(Clone, Copy, Debug, PartialEq)]
pub struct Candle {
    pub values: CandleValues,
    pub authority: FinalityAuthority,
}

impl Candle {
    pub open spec fn opens_at(self) -> i64 {
        self.values.open_time
    }

    pub open spec fn valid(self) -> bool {
        self.values.fault() is None
    }

    pub fn open_time(&self) -> (time: i64)
        ensures
            time == self.opens_at(),
    {
        self.values.open_time
    }

    pub fn authority(&self) -> (authority: FinalityAuthority)
        ensures
            authority == self.authority,
    {
        self.authority
    }

    pub open spec fn ws_authority(closed: bool) -> FinalityAuthority {
        if closed {
            FinalityAuthority::WsAuthoritativeClosed
        } else {
            FinalityAuthority::WsAuthoritativeOpen
        }
    }

    /// The candle that the stream reports, or what is wrong with it.
    pub open spec fn streamed(values: CandleValues, closed: bool) -> Result<Candle, DomainError> {
        match values.fault() {
            Some(fault) => Err(fault),
            None => Ok(Candle { values, authority: Candle::ws_authority(closed) }),
        }
    }

    /// The candle that history reports, or what is wrong with it.
    pub open spec fn recorded(values: CandleValues) -> Result<Candle, DomainError> {
        match values.fault() {
            Some(fault) => Err(fault),
            None => Ok(Candle { values, authority: FinalityAuthority::RestProvisionalOpen }),
        }
    }

    pub fn from_ws(values: CandleValues, closed: bool) -> (candle: Result<Candle, DomainError>)
        ensures
            candle == Candle::streamed(values, closed),
    {
        match values.check() {
            Some(fault) => Err(fault),
            None => {
                let authority = if closed {
                    FinalityAuthority::WsAuthoritativeClosed
                } else {
                    FinalityAuthority::WsAuthoritativeOpen
                };
                Ok(Candle { values, authority })
            },
        }
    }

    pub fn from_rest(values: CandleValues) -> (candle: Result<Candle, DomainError>)
        ensures
            candle == Candle::recorded(values),
    {
        match values.check() {
            Some(fault) => Err(fault),
            None => Ok(Candle { values, authority: FinalityAuthority::RestProvisionalOpen }),
        }
    }

    /// Whether two candles are equal in every number and in authority.
    pub fn equals(&self, other: &Candle) -> (equal: bool)
        ensures
            equal == (self.values.same(other.values) && self.authority == other.authority),
    {
        self.values.open_time == other.values.open_time && self.values.close_time
            == other.values.close_time && self.values.open.equals(other.values.open)
            && self.values.high.equals(other.values.high) && self.values.low.equals(
            other.values.low,
        ) && self.values.close.equals(other.values.close) && self.values.base_volume.equals(
            other.values.base_volume,
        ) && self.authority == other.authority
    }
}

/// The stream is believed over history, and what is closed over what is open; between equals the
/// later word stands.
pub proof fn law_authorities_are_ordered(authority: FinalityAuthority)
    ensures
        FinalityAuthority::RestProvisionalOpen.rank()
            < FinalityAuthority::RestProvisionalClosed.rank(),
        FinalityAuthority::RestProvisionalClosed.rank()
            < FinalityAuthority::WsAuthoritativeOpen.rank(),
        FinalityAuthority::WsAuthoritativeOpen.rank()
            < FinalityAuthority::WsAuthoritativeClosed.rank(),
        authority.rank() <= FinalityAuthority::WsAuthoritativeClosed.rank(),
        authority.rank() >= FinalityAuthority::RestProvisionalOpen.rank(),
{
}

/// Numbers make a candle exactly where it closes no earlier than it opens, neither its open nor its
/// close lies outside its low and high, and its volume is not negative; whether the stream or history
/// reports it makes no difference to that. The candle has those numbers, and an authority that says
/// who reported it and whether it is closed.
pub proof fn law_candles_are_sound(values: CandleValues, closed: bool)
    ensures
        ({
            let sound = values.open_time <= values.close_time && values.low.place()
                <= values.open.place() && values.open.place() <= values.high.place()
                && values.low.place() <= values.close.place() && values.close.place()
                <= values.high.place() && values.base_volume.place() >= 0;
            &&& Candle::streamed(values, closed) is Ok <==> sound
            &&& Candle::recorded(values) is Ok <==> sound
        }),
        Candle::streamed(values, closed) matches Ok(candle) ==> candle.values == values
            && candle.authority == (if closed {
            FinalityAuthority::WsAuthoritativeClosed
        } else {
            FinalityAuthority::WsAuthoritativeOpen
        }),
        Candle::recorded(values) matches Ok(candle) ==> candle.values == values && candle.authority
            == FinalityAuthority::RestProvisionalOpen,
        values.close_time < values.open_time ==> Candle::recorded(values) == Err::<
            Candle,
            DomainError,
        >(DomainError::ClosesBeforeOpen),
        Candle::streamed(values, closed) == Err::<Candle, DomainError>(DomainError::NegativeVolume)
            ==> values.base_volume.place() < 0,
        Candle::streamed(values, closed) == Err::<Candle, DomainError>(
            DomainError::PriceOutsideRange,
        ) ==> values.open_time <= values.close_time,
        Candle::streamed(values, closed) matches Err(fault) ==> Candle::recorded(values) == Err::<
            Candle,
            DomainError,
        >(fault),
{
}

/// Values are the same exactly where each of them is.
pub proof fn law_same_values_agree(left: CandleValues, right: CandleValues)
    ensures
        left.same(left),
        left.same(right) ==> right.same(left),
        left.same(right) ==> left.open_time == right.open_time && left.close_time
            == right.close_time && left.open.place() == right.open.place() && left.high.place()
            == right.high.place() && left.low.place() == right.low.place() && left.close.place()
            == right.close.place() && left.base_volume.place() == right.base_volume.place(),
        left == right ==> left.same(right),
{
}

/// The patterns that are no finite number are those with every bit of the exponent set: nothing below
/// the pattern of infinity is one of them, whatever its sign.
pub proof fn law_finite_patterns(bits: u64)
    ensures
        bits < 0x7ff0_0000_0000_0000 ==> finite_bits(bits),
        0x7ff0_0000_0000_0000 <= bits < 0x8000_0000_0000_0000 ==> !finite_bits(bits),
        0x8000_0000_0000_0000 <= bits < 0xfff0_0000_0000_0000 ==> finite_bits(bits),
        0xfff0_0000_0000_0000 <= bits ==> !finite_bits(bits),
{
}

} // verus!
