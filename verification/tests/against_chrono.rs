use chrono::{DateTime, Datelike, Days, NaiveDate, Timelike};
use temporal_codec::wire::to_wire;
use temporal_codec::{CalendarDate, Error, Instant};

#[test]
fn dates_agree_with_chrono() {
    let epoch = NaiveDate::from_ymd_opt(1970, 1, 1).unwrap();
    let mut days: u64 = 0;
    while days <= 95_100_000 {
        let ours = CalendarDate::decode(days);
        match epoch.checked_add_days(Days::new(days)) {
            Some(d) => {
                let same = CalendarDate::from_ymd(d.year(), d.month(), d.day()).unwrap();
                assert_eq!(ours, Ok(same));
                assert_eq!(same.encode(), d.signed_duration_since(epoch).num_days() as u64);
            }
            None => assert_eq!(ours, Err(Error::InvalidDate)),
        }
        days += 7919;
    }
}

#[test]
fn dates_before_epoch_agree_with_chrono() {
    let epoch = NaiveDate::from_ymd_opt(1970, 1, 1).unwrap();
    let mut days: u64 = 1;
    while days <= 96_465_292 {
        let d = epoch.checked_sub_days(Days::new(days)).unwrap();
        let ours = CalendarDate::from_ymd(d.year(), d.month(), d.day()).unwrap();
        assert_eq!(ours.encode(), (-(days as i64)) as u64);
        days += 7919;
    }
}

#[test]
fn instants_agree_with_chrono() {
    let mut millis: i64 = -8_400_000_000_000_000;
    while millis <= 8_300_000_000_000_000 {
        let ours = Instant::decode(to_wire(millis));
        match DateTime::from_timestamp_millis(millis) {
            Some(stamp) => {
                let n = stamp.naive_utc();
                let d = CalendarDate::from_ymd(n.year(), n.month(), n.day()).unwrap();
                let t = Instant::new(d, n.hour(), n.minute(), n.second(), n.nanosecond() / 1_000_000)
                    .unwrap();
                assert_eq!(ours, Ok(t));
                assert_eq!(t.encode(), n.and_utc().timestamp_millis() as u64);
            }
            None => assert_eq!(ours, Err(Error::InvalidInstant)),
        }
        millis += 700_000_123_457;
    }
}
