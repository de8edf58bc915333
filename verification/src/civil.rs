//! The calls into chrono. Verus takes the contracts in this file on trust:
//! each says of chrono's calendar what `calendar` says in arithmetic.

use crate::calendar::max_day_offset;
use crate::date::CalendarDate;
use crate::instant::{max_epoch_millis, min_epoch_millis, Instant};
use chrono::{DateTime, Datelike, Days, NaiveDate, Timelike};
use vstd::prelude::*;

verus! {

/// `NaiveDate::signed_duration_since`, read in whole days by
/// `TimeDelta::num_days`: the signed count of days from `origin` to `date`.
/// Both dates are built with `NaiveDate::from_ymd_opt`, which accepts every
/// valid date.
#[verifier::external_body]
pub(crate) fn days_between(date: &CalendarDate, origin: &CalendarDate) -> (days: i64)
    requires
        date.wf(),
        origin.wf(),
    ensures
        days == date.day_offset() - origin.day_offset(),
{
    let to = NaiveDate::from_ymd_opt(date.year, date.month, date.day).unwrap();
    let from = NaiveDate::from_ymd_opt(origin.year, origin.month, origin.day).unwrap();
    to.signed_duration_since(from).num_days()
}

/// `NaiveDate::checked_add_days`: the date that lies `days` days after
/// `origin`, or `None` where that day lies past the latest date.
#[verifier::external_body]
pub(crate) fn add_days(origin: &CalendarDate, days: u64) -> (date: Option<CalendarDate>)
    requires
        origin.wf(),
    ensures
        match date {
            Some(d) => d.wf() && d.day_offset() == origin.day_offset() + days,
            None => origin.day_offset() + days > max_day_offset(),
        },
{
    let from = NaiveDate::from_ymd_opt(origin.year, origin.month, origin.day).unwrap();
    match from.checked_add_days(Days::new(days)) {
        Some(d) => Some(CalendarDate { year: d.year(), month: d.month(), day: d.day() }),
        None => None,
    }
}

/// `DateTime::timestamp_millis` of the instant labelled as UTC
/// (`NaiveDate::and_hms_milli_opt`, `NaiveDateTime::and_utc`): the signed
/// count of milliseconds from 1970-01-01T00:00:00 to the instant.
#[verifier::external_body]
pub(crate) fn timestamp_millis(instant: &Instant) -> (millis: i64)
    requires
        instant.wf(),
    ensures
        millis == instant.epoch_millis(),
{
    let date = instant.date;
    let day = NaiveDate::from_ymd_opt(date.year, date.month, date.day).unwrap();
    let civil = day.and_hms_milli_opt(
        instant.hour,
        instant.minute,
        instant.second,
        instant.millisecond,
    ).unwrap();
    civil.and_utc().timestamp_millis()
}

/// `DateTime::from_timestamp_millis`, the label dropped by
/// `DateTime::naive_utc`: the instant that lies `millis` milliseconds from
/// 1970-01-01T00:00:00, or `None` where its date lies outside the years that
/// a date may lie in.
#[verifier::external_body]
pub(crate) fn from_timestamp_millis(millis: i64) -> (instant: Option<Instant>)
    ensures
        match instant {
            Some(t) => t.wf() && t.epoch_millis() == millis,
            None => millis < min_epoch_millis() || millis > max_epoch_millis(),
        },
{
    match DateTime::from_timestamp_millis(millis) {
        Some(stamp) => {
            let civil = stamp.naive_utc();
            let date = CalendarDate { year: civil.year(), month: civil.month(), day: civil.day() };
            Some(Instant {
                date,
                hour: civil.hour(),
                minute: civil.minute(),
                second: civil.second(),
                millisecond: stamp.timestamp_subsec_millis(),
            })
        },
        None => None,
    }
}

} // verus!
