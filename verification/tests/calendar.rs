use fccli::calendar::{calendar_month_index, fixed_timeframe_milliseconds, month_successor, Grid};
use fccli::model::Timeframe;

const DAY: i64 = 86_400_000;

#[test]
fn months_follow_each_other_across_years_and_leap_days() {
    assert_eq!(month_successor(0), Some(31 * DAY));
    // December 1969
    assert_eq!(month_successor(-31 * DAY), Some(0));
    // February 2024
    assert_eq!(month_successor(1_706_745_600_000), Some(1_709_251_200_000));
    // December 2023
    assert_eq!(month_successor(1_701_388_800_000), Some(1_704_067_200_000));
    assert_eq!(month_successor(DAY), None);
    assert_eq!(month_successor(1), None);
    assert_eq!(month_successor(i64::MAX), None);
}

#[test]
fn a_month_has_an_index() {
    assert_eq!(calendar_month_index(0), Some(1970 * 12));
    assert_eq!(calendar_month_index(1_709_251_200_000), Some(2024 * 12 + 2));
    assert_eq!(calendar_month_index(DAY), None);
    assert_eq!(calendar_month_index(1), None);
    assert_eq!(calendar_month_index(i64::MIN), None);
}

#[test]
fn fixed_periods_have_their_lengths() {
    assert_eq!(fixed_timeframe_milliseconds(Timeframe::Second1), Some(1_000));
    assert_eq!(
        fixed_timeframe_milliseconds(Timeframe::Week1),
        Some(604_800_000)
    );
    assert_eq!(fixed_timeframe_milliseconds(Timeframe::Month1), None);
}

#[test]
fn a_grid_steps_from_its_own_times_only() {
    let minutes = Grid::Fixed {
        period: 60_000,
        origin: 0,
    };
    assert_eq!(minutes.successor(120_000), Some(180_000));
    assert_eq!(minutes.successor(-60_000), Some(0));
    assert_eq!(minutes.successor(120_001), None);
    let weeks = Grid::Fixed {
        period: 7 * DAY,
        origin: 4 * DAY,
    };
    assert_eq!(weeks.successor(4 * DAY), Some(11 * DAY));
    assert_eq!(weeks.successor(0), None);
    assert_eq!(weeks.successor(i64::MIN), None);
    assert_eq!(Grid::Months.successor(0), Some(31 * DAY));
}

#[test]
fn a_successor_is_later_and_on_the_grid() {
    let grid = Grid::Fixed {
        period: 3 * DAY,
        origin: 0,
    };
    let mut time = -9 * DAY;
    for _ in 0..6 {
        let next = grid.successor(time).unwrap();
        assert!(time < next);
        assert!(grid.successor(next).is_some());
        time = next;
    }
    assert_eq!(time, 9 * DAY);
}
