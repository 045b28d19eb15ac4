use chrono_cells::cell_value::CellValue;
use chrono_cells::date::CalendarDate;
use chrono_cells::datetime::CalendarDateTime;
use chrono_cells::options::RenderChronoOptions;
use chrono_cells::time::TimeOfDay;

fn date_text(year: i32, month: u32, day: u32) -> String {
    let date = CalendarDate::new(year, month, day).unwrap();
    date.render_value(&RenderChronoOptions::default()).unwrap()
}

fn time_text(hour: u32, minute: u32, second: u32, nanosecond: u32) -> String {
    let time = TimeOfDay::new(hour, minute, second, nanosecond).unwrap();
    time.render_value(&RenderChronoOptions::default()).unwrap()
}

#[test]
fn years_of_four_digits_have_no_sign() {
    assert_eq!(date_text(0, 1, 1), "0000-01-01");
    assert_eq!(date_text(7, 10, 20), "0007-10-20");
    assert_eq!(date_text(999, 12, 31), "0999-12-31");
    assert_eq!(date_text(1000, 1, 1), "1000-01-01");
    assert_eq!(date_text(2015, 9, 5), "2015-09-05");
    assert_eq!(date_text(9999, 12, 31), "9999-12-31");
}

#[test]
fn years_past_four_digits_have_a_plus() {
    assert_eq!(date_text(10000, 12, 31), "+10000-12-31");
    assert_eq!(date_text(12345, 6, 7), "+12345-06-07");
    assert_eq!(date_text(262142, 12, 31), "+262142-12-31");
}

#[test]
fn years_before_zero_have_a_minus_and_four_digits_at_least() {
    assert_eq!(date_text(-1, 1, 1), "-0001-01-01");
    assert_eq!(date_text(-44, 3, 15), "-0044-03-15");
    assert_eq!(date_text(-999, 2, 28), "-0999-02-28");
    assert_eq!(date_text(-9999, 1, 1), "-9999-01-01");
    assert_eq!(date_text(-10000, 1, 1), "-10000-01-01");
    assert_eq!(date_text(-262143, 1, 1), "-262143-01-01");
}

#[test]
fn whole_seconds_have_no_fraction() {
    assert_eq!(time_text(0, 0, 0, 0), "00:00:00");
    assert_eq!(time_text(23, 56, 4, 0), "23:56:04");
    assert_eq!(time_text(9, 5, 59, 0), "09:05:59");
}

#[test]
fn fraction_takes_three_six_or_nine_digits() {
    assert_eq!(time_text(23, 56, 4, 12_000_000), "23:56:04.012");
    assert_eq!(time_text(23, 56, 4, 500_000_000), "23:56:04.500");
    assert_eq!(time_text(23, 56, 4, 1_234_000), "23:56:04.001234");
    assert_eq!(time_text(23, 56, 4, 1_000), "23:56:04.000001");
    assert_eq!(time_text(23, 56, 4, 123_456), "23:56:04.000123456");
    assert_eq!(time_text(23, 56, 4, 1), "23:56:04.000000001");
    assert_eq!(time_text(23, 56, 4, 999_999_999), "23:56:04.999999999");
}

#[test]
fn leap_second_is_shown_as_second_sixty() {
    assert_eq!(time_text(6, 59, 59, 1_500_000_000), "06:59:60.500");
    assert_eq!(time_text(23, 59, 59, 1_000_000_000), "23:59:60");
    assert_eq!(time_text(23, 59, 59, 1_999_999_999), "23:59:60.999999999");
    assert_eq!(time_text(12, 30, 59, 1_000_001_000), "12:30:60.000001");
}

#[test]
fn leap_second_after_another_second_is_shown_as_the_next() {
    assert_eq!(time_text(23, 56, 4, 1_333_333_333), "23:56:05.333333333");
    assert_eq!(time_text(0, 0, 0, 1_000_000_000), "00:00:01");
    assert_eq!(time_text(7, 8, 58, 1_250_000_000), "07:08:59.250");
}

#[test]
fn years_of_six_digits_keep_every_digit() {
    assert_eq!(date_text(100000, 1, 1), "+100000-01-01");
    assert_eq!(date_text(123456, 1, 2), "+123456-01-02");
    assert_eq!(date_text(-100000, 1, 1), "-100000-01-01");
    assert_eq!(date_text(-123456, 7, 8), "-123456-07-08");
}

#[test]
fn date_time_joins_date_and_time_with_a_space() {
    let date = CalendarDate::new(2016, 11, 15).unwrap();
    let time = TimeOfDay::new(7, 39, 24, 0).unwrap();
    let out = CalendarDateTime::new(date, time).render_value(&RenderChronoOptions::default());
    assert_eq!(out, Ok("2016-11-15 07:39:24".to_string()));

    let date = CalendarDate::new(2015, 6, 30).unwrap();
    let time = TimeOfDay::new(23, 59, 59, 1_500_000_000).unwrap();
    let out = CalendarDateTime::new(date, time).render_value(&RenderChronoOptions::default());
    assert_eq!(out, Ok("2015-06-30 23:59:60.500".to_string()));

    let date = CalendarDate::new(-262143, 1, 1).unwrap();
    let time = TimeOfDay::new(0, 0, 0, 1).unwrap();
    let out = CalendarDateTime::new(date, time).render_value(&RenderChronoOptions::default());
    assert_eq!(out, Ok("-262143-01-01 00:00:00.000000001".to_string()));
}

#[test]
fn canonical_text_is_that_of_the_formatter_s_own_types() {
    let years = [-262143, -10000, -9999, -1000, -999, -1, 0, 1, 99, 100, 999, 1000, 1970, 2024, 9999, 10000, 99999, 100000, 262142];
    let days = [(1, 1), (2, 28), (3, 7), (6, 30), (10, 9), (12, 31)];
    let times = [
        (0, 0, 0, 0),
        (13, 45, 30, 0),
        (23, 59, 59, 999_999_999),
        (23, 59, 59, 1_000_000_000),
        (5, 6, 59, 1_999_000_000),
        (23, 56, 4, 1_333_333_333),
        (0, 0, 0, 1_000_000_000),
        (1, 2, 3, 4_000),
        (1, 2, 3, 40_000_000),
        (1, 2, 3, 400),
    ];
    for year in years {
        for (month, day) in days {
            let theirs = chrono::NaiveDate::from_ymd_opt(year, month, day).unwrap();
            let ours = CalendarDate::new(year, month, day).unwrap();
            assert_eq!(ours.render_value(&RenderChronoOptions::default()), Ok(theirs.to_string()));
            for (hour, minute, second, nanosecond) in times {
                let their_time = chrono::NaiveTime::from_hms_opt(hour, minute, second)
                    .and_then(|time| chrono::Timelike::with_nanosecond(&time, nanosecond))
                    .unwrap();
                let our_time = TimeOfDay::new(hour, minute, second, nanosecond).unwrap();
                assert_eq!(
                    our_time.render_value(&RenderChronoOptions::default()),
                    Ok(their_time.to_string())
                );
                assert_eq!(
                    CalendarDateTime::new(ours, our_time).render_value(&RenderChronoOptions::default()),
                    Ok(chrono::NaiveDateTime::new(theirs, their_time).to_string())
                );
            }
        }
    }
}
