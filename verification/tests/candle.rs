use fccli::candle::{Candle, CandleValues, Decimal, DomainError, FinalityAuthority};
use fccli::error::ProviderError;
use fccli::provider::runtime::buffer::KeyedCandleBuffer;

fn number(value: f64) -> Decimal {
    Decimal::from_bits(value.to_bits()).unwrap()
}

fn values(open_time: i64, close: f64) -> CandleValues {
    CandleValues {
        open_time,
        close_time: open_time + 59_999,
        open: number(10.0),
        high: number(12.0),
        low: number(9.0),
        close: number(close),
        base_volume: number(1.5),
    }
}

fn candle(open_time: i64, close: f64, authority: FinalityAuthority) -> Candle {
    Candle {
        values: values(open_time, close),
        authority,
    }
}

#[test]
fn only_finite_numbers_are_decimals() {
    assert!(Decimal::from_bits(f64::NAN.to_bits()).is_none());
    assert!(Decimal::from_bits(f64::INFINITY.to_bits()).is_none());
    assert!(Decimal::from_bits(f64::NEG_INFINITY.to_bits()).is_none());
    assert_eq!(number(1.5).to_bits(), 1.5_f64.to_bits());
    assert_eq!(number(0.0), number(-0.0));
    assert!(number(-0.0).is_nonnegative());
    assert!(!number(-1.0).is_nonnegative());
    for (left, right) in [(-2.0, -1.0), (-1.0, 0.5), (0.0, -0.0), (1.0, 2.0), (f64::MIN, f64::MAX)] {
        assert!(number(left).at_most(number(right)));
        assert_eq!(number(right).at_most(number(left)), left == right);
    }
}

#[test]
fn a_candle_that_contradicts_itself_is_refused() {
    let mut backwards = values(0, 10.0);
    backwards.close_time = -1;
    assert_eq!(Candle::from_rest(backwards), Err(DomainError::ClosesBeforeOpen));
    assert_eq!(
        Candle::from_ws(values(0, 12.5), true),
        Err(DomainError::PriceOutsideRange)
    );
    let mut negative = values(0, 10.0);
    negative.base_volume = number(-1.0);
    assert_eq!(Candle::from_rest(negative), Err(DomainError::NegativeVolume));
    assert_eq!(
        Candle::from_ws(values(0, 10.0), true).unwrap().authority(),
        FinalityAuthority::WsAuthoritativeClosed
    );
    assert_eq!(
        Candle::from_ws(values(0, 10.0), false).unwrap().authority(),
        FinalityAuthority::WsAuthoritativeOpen
    );
    assert_eq!(
        Candle::from_rest(values(0, 10.0)).unwrap().authority(),
        FinalityAuthority::RestProvisionalOpen
    );
}

#[test]
fn a_candle_gives_way_to_its_equals_and_betters() {
    let ranked = [
        FinalityAuthority::RestProvisionalOpen,
        FinalityAuthority::RestProvisionalClosed,
        FinalityAuthority::WsAuthoritativeOpen,
        FinalityAuthority::WsAuthoritativeClosed,
    ];
    for (low, current) in ranked.iter().enumerate() {
        for (high, candidate) in ranked.iter().enumerate() {
            assert_eq!(current.yields_to(*candidate), low <= high);
            let mut buffer = KeyedCandleBuffer::unbounded();
            assert_eq!(buffer.push(candle(0, 10.0, *current)), Ok(true));
            assert_eq!(buffer.push(candle(0, 11.0, *candidate)), Ok(low <= high));
            let kept = buffer.pop_first().unwrap();
            assert_eq!(
                kept,
                if low <= high {
                    candle(0, 11.0, *candidate)
                } else {
                    candle(0, 10.0, *current)
                }
            );
        }
    }
}

#[test]
fn candles_leave_a_buffer_oldest_first() {
    let open = FinalityAuthority::WsAuthoritativeOpen;
    let mut buffer = KeyedCandleBuffer::unbounded();
    for time in [180_000, 0, 60_000] {
        assert_eq!(buffer.push(candle(time, 10.0, open)), Ok(true));
    }
    assert_eq!(buffer.len(), 3);
    assert!(buffer.contains_key(60_000));
    assert!(!buffer.contains_key(120_000));
    let listed: Vec<i64> = buffer.values().iter().map(Candle::open_time).collect();
    assert_eq!(listed, [0, 60_000, 180_000]);
    assert_eq!(buffer.pop_first().map(|c| c.open_time()), Some(0));
    assert_eq!(buffer.pop_first().map(|c| c.open_time()), Some(60_000));
    assert_eq!(buffer.pop_first().map(|c| c.open_time()), Some(180_000));
    assert_eq!(buffer.pop_first(), None);
    assert!(buffer.is_empty());
}

#[test]
fn a_full_buffer_still_takes_what_it_holds() {
    let open = FinalityAuthority::WsAuthoritativeOpen;
    let mut buffer = KeyedCandleBuffer::bounded(1);
    assert_eq!(buffer.push(candle(0, 10.0, open)), Ok(true));
    assert_eq!(
        buffer.push(candle(60_000, 10.0, open)),
        Err(ProviderError::QueueSaturated)
    );
    assert_eq!(buffer.push(candle(0, 11.0, open)), Ok(true));
    assert_eq!(buffer.len(), 1);
    // A candle pushed again changes nothing more.
    assert_eq!(buffer.push(candle(0, 11.0, open)), Ok(true));
    assert_eq!(buffer.values(), [candle(0, 11.0, open)]);
}

#[test]
fn a_closed_candle_is_not_reopened() {
    let mut buffer = KeyedCandleBuffer::unbounded();
    let closed = candle(0, 10.0, FinalityAuthority::WsAuthoritativeClosed);
    assert_eq!(buffer.push(closed), Ok(true));
    for authority in [
        FinalityAuthority::RestProvisionalOpen,
        FinalityAuthority::RestProvisionalClosed,
        FinalityAuthority::WsAuthoritativeOpen,
    ] {
        assert_eq!(buffer.push(candle(0, 11.0, authority)), Ok(false));
    }
    assert_eq!(buffer.values(), [closed]);
}
