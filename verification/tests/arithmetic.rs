use temporal_codec::calendar::{leap_year, month_length};
use temporal_codec::wire::{from_wire, to_wire};
use temporal_codec::{CalendarDate, Instant};

fn days_before_year(year: i64) -> i64 {
    let y = year - 1;
    365 * y + y.div_euclid(4) - y.div_euclid(100) + y.div_euclid(400)
}

fn day_count(year: i32, month: u32, day: u32) -> i64 {
    let mut days = days_before_year(year as i64) - 719162;
    let mut m: u32 = 1;
    while m < month {
        days += month_length(year, m) as i64;
        m += 1;
    }
    days + (day as i64 - 1)
}

#[test]
fn day_counts_follow_the_calendar_arithmetic() {
    let mut year: i32 = -262143;
    while year <= 262142 {
        let mut month: u32 = 1;
        while month <= 12 {
            let last = month_length(year, month);
            for day in [1, 15, last] {
                let d = CalendarDate::from_ymd(year, month, day).unwrap();
                let expected = day_count(year, month, day);
                assert_eq!(from_wire(d.encode()), expected);
                if expected >= 0 {
                    assert_eq!(CalendarDate::decode(expected as u64), Ok(d));
                }
            }
            month += 1;
        }
        year += 613;
    }
}

#[test]
fn millisecond_counts_follow_the_calendar_arithmetic() {
    let mut year: i32 = -262143;
    let mut step: u32 = 0;
    while year <= 262142 {
        let month = 1 + step % 12;
        let day = 1 + step % month_length(year, month);
        let (hour, minute, second, milli) = (step % 24, step % 60, (step * 7) % 60, (step * 13) % 1000);
        let d = CalendarDate::from_ymd(year, month, day).unwrap();
        let t = Instant::new(d, hour, minute, second, milli).unwrap();
        let expected = day_count(year, month, day) * 86_400_000
            + hour as i64 * 3_600_000
            + minute as i64 * 60_000
            + second as i64 * 1000
            + milli as i64;
        assert_eq!(from_wire(t.encode()), expected);
        assert_eq!(Instant::decode(to_wire(expected)), Ok(t));
        year += 997;
        step += 1;
    }
}

#[test]
fn years_have_365_or_366_days() {
    let mut year: i32 = -2000;
    while year < 2500 {
        let first = CalendarDate::from_ymd(year, 1, 1).unwrap();
        let next = CalendarDate::from_ymd(year + 1, 1, 1).unwrap();
        let length = from_wire(next.encode()) - from_wire(first.encode());
        assert_eq!(length, if leap_year(year) { 366 } else { 365 });
        year += 1;
    }
}
