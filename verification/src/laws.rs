//! What holds of the two codecs, for every value.

use crate::buffer::lemma_field_round_trip;
use crate::calendar::{max_day_offset, min_day_offset, MAX_YEAR, MIN_YEAR};
use crate::date::CalendarDate;
use crate::instant::{max_epoch_millis, min_epoch_millis, Instant};
use crate::types::Error;
use crate::wire::offset_of;
use vstd::bytes::{spec_u64_from_le_bytes, spec_u64_to_le_bytes};
use vstd::prelude::*;

verus! {

/// Every valid instant decodes from its own wire integer, and from the field
/// that its wire integer is written to; instants before 1970 too.
pub proof fn instant_round_trip(t: Instant)
    requires
        t.wf(),
    ensures
        Instant::spec_decode(t.wire()) == Ok::<Instant, Error>(t),
        Instant::spec_decode(spec_u64_from_le_bytes(spec_u64_to_le_bytes(t.wire()))) == Ok::<
            Instant,
            Error,
        >(t),
{
    lemma_field_round_trip(t.wire());
    t.lemma_range();
    let millis = t.epoch_millis();
    assert(offset_of(t.wire()) == millis);
    Instant::at(millis).lemma_same_instant(t);
}

/// Every valid date on or after 1970-01-01 decodes from its own wire
/// integer, and from the field that its wire integer is written to.
pub proof fn date_round_trip(d: CalendarDate)
    requires
        d.wf(),
        d.day_offset() >= 0,
    ensures
        CalendarDate::spec_decode(d.wire()) == Ok::<CalendarDate, Error>(d),
        CalendarDate::spec_decode(spec_u64_from_le_bytes(spec_u64_to_le_bytes(d.wire()))) == Ok::<
            CalendarDate,
            Error,
        >(d),
{
    lemma_field_round_trip(d.wire());
    d.lemma_range();
    CalendarDate::at(d.day_offset()).lemma_same_day(d);
}

/// A wire integer that decodes gives the instant at its signed millisecond
/// count, and that instant encodes to the same wire integer.
pub proof fn instant_decode_is_exact(wire: u64)
    requires
        min_epoch_millis() <= offset_of(wire) <= max_epoch_millis(),
    ensures
        Instant::spec_decode(wire).is_ok(),
        Instant::spec_decode(wire).unwrap().wf(),
        Instant::spec_decode(wire).unwrap().epoch_millis() == offset_of(wire),
        Instant::spec_decode(wire).unwrap().wire() == wire,
{
    Instant::lemma_exists(offset_of(wire));
}

/// A wire integer that decodes gives the date at its day count, and that
/// date encodes to the same wire integer.
pub proof fn date_decode_is_exact(wire: u64)
    requires
        wire <= max_day_offset(),
    ensures
        CalendarDate::spec_decode(wire).is_ok(),
        CalendarDate::spec_decode(wire).unwrap().wf(),
        CalendarDate::spec_decode(wire).unwrap().day_offset() == wire,
        CalendarDate::spec_decode(wire).unwrap().wire() == wire,
{
    CalendarDate::lemma_exists(wire as int);
}

/// A date before 1970-01-01 has a wire integer that decodes to no date: its
/// day count, read as unsigned, leads past the latest date.
pub proof fn date_before_epoch_is_not_decoded(d: CalendarDate)
    requires
        d.wf(),
        d.day_offset() < 0,
    ensures
        CalendarDate::spec_decode(d.wire()) == Err::<CalendarDate, Error>(Error::InvalidDate),
{
    d.lemma_range();
}

/// A millisecond count outside the span from the earliest to the latest
/// date decodes to `InvalidInstant`, and no other does.
pub proof fn instant_overflow(wire: u64)
    ensures
        Instant::spec_decode(wire) == Err::<Instant, Error>(Error::InvalidInstant) <==> (offset_of(
            wire,
        ) < min_epoch_millis() || offset_of(wire) > max_epoch_millis()),
        min_epoch_millis() == -8334601228800000,
        max_epoch_millis() == 8210266876799999,
{
}

/// The wire integer of all ones is the count of -1 milliseconds: it decodes
/// to the last millisecond of 1969.
pub proof fn all_ones_is_the_millisecond_before_epoch()
    ensures
        offset_of(u64::MAX) == -1,
        Instant::spec_decode(u64::MAX) == Ok::<Instant, Error>(
            Instant {
                date: CalendarDate { year: 1969, month: 12, day: 31 },
                hour: 23,
                minute: 59,
                second: 59,
                millisecond: 999,
            },
        ),
{
    reveal_with_fuel(crate::calendar::days_before_month, 13);
    let last = Instant {
        date: CalendarDate { year: 1969, month: 12, day: 31 },
        hour: 23,
        minute: 59,
        second: 59,
        millisecond: 999,
    };
    assert(last.date.day_offset() == -1);
    assert(last.wf() && last.epoch_millis() == -1);
    Instant::at(-1).lemma_same_instant(last);
}

/// A day count past the latest date decodes to `InvalidDate`, and no other
/// does.
pub proof fn date_overflow(wire: u64)
    ensures
        CalendarDate::spec_decode(wire) == Err::<CalendarDate, Error>(Error::InvalidDate) <==> wire
            > max_day_offset(),
        max_day_offset() == 95026236,
        min_day_offset() == -96465292,
{
}

/// 1970-01-01 has the wire integer 0.
pub proof fn epoch_is_zero()
    ensures
        (CalendarDate { year: 1970, month: 1, day: 1 }).wf(),
        (CalendarDate { year: 1970, month: 1, day: 1 }).wire() == 0,
{
    reveal_with_fuel(crate::calendar::days_before_month, 2);
}

/// The earliest and the latest date have the earliest and the latest day
/// count.
pub proof fn day_count_bounds()
    ensures
        (CalendarDate { year: MIN_YEAR, month: 1, day: 1 }).wf(),
        (CalendarDate { year: MIN_YEAR, month: 1, day: 1 }).day_offset() == min_day_offset(),
        (CalendarDate { year: MAX_YEAR, month: 12, day: 31 }).wf(),
        (CalendarDate { year: MAX_YEAR, month: 12, day: 31 }).day_offset() == max_day_offset(),
{
    reveal_with_fuel(crate::calendar::days_before_month, 13);
}

} // verus!
