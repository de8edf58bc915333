//! Civil dates and their codec: a date travels as its signed count of days
//! from 1970-01-01.

use crate::buffer::{Reader, Writer};
use crate::calendar::{
    days_before_month, days_from_epoch, days_in_month, lemma_days_in_range, lemma_days_injective,
    lemma_month_order, lemma_year_step, max_day_offset, min_day_offset, month_length, valid_date,
    MAX_YEAR, MIN_YEAR,
};
use crate::civil::{add_days, days_between};
use crate::serializer::{GeneralList, Serializer};
use crate::types::{Error, FieldType, FIELD_SIZE};
use crate::wire::{to_wire, wire_of};
use vstd::bytes::{spec_u64_from_le_bytes, spec_u64_to_le_bytes};
use vstd::prelude::*;

verus! {

/// A day of the proleptic Gregorian calendar, without a time of day.
#[derive(Clone, Copy, Debug, PartialEq, Eq, Structural)]
pub struct CalendarDate {
    pub year: i32,
    pub month: u32,
    pub day: u32,
}

impl CalendarDate {
    /// The fields name a day of the calendar.
    pub open spec fn wf(&self) -> bool {
        valid_date(self.year as int, self.month as int, self.day as int)
    }

    /// Signed count of days from 1970-01-01 to this date.
    pub open spec fn day_offset(&self) -> int {
        days_from_epoch(self.year as int, self.month as int, self.day as int)
    }

    /// The wire integer of this date.
    pub open spec fn wire(&self) -> u64 {
        wire_of(self.day_offset())
    }

    /// The date with the given day count.
    pub open spec fn at(offset: int) -> CalendarDate {
        choose|d: CalendarDate| d.wf() && d.day_offset() == offset
    }

    /// What a wire integer decodes to: the date that many days after
    /// 1970-01-01, unless that day lies past the latest date.
    pub open spec fn spec_decode(wire: u64) -> Result<CalendarDate, Error> {
        if wire <= max_day_offset() {
            Ok(Self::at(wire as int))
        } else {
            Err(Error::InvalidDate)
        }
    }

    /// The date of the given year, month and day, where there is one.
    pub fn from_ymd(year: i32, month: u32, day: u32) -> (date: Option<CalendarDate>)
        ensures
            date.is_some() <==> valid_date(year as int, month as int, day as int),
            date.is_some() ==> date.unwrap() == (CalendarDate { year, month, day }),
    {
        let date = CalendarDate { year, month, day };
        if date.is_valid() {
            Some(date)
        } else {
            None
        }
    }

    /// Whether the fields name a day of the calendar.
    pub fn is_valid(&self) -> (valid: bool)
        ensures
            valid == self.wf(),
    {
        if self.year < MIN_YEAR || self.year > MAX_YEAR {
            return false;
        }
        if self.month < 1 || self.month > 12 {
            return false;
        }
        1 <= self.day && self.day <= month_length(self.year, self.month)
    }

    /// The date from which days are counted, 1970-01-01.
    pub fn epoch() -> (date: CalendarDate)
        ensures
            date == (CalendarDate { year: 1970, month: 1, day: 1 }),
            date.wf(),
            date.day_offset() == 0,
    {
        CalendarDate { year: 1970, month: 1, day: 1 }
    }

    /// The wire integer of this date: its signed day count, reinterpreted as
    /// unsigned.
    pub fn encode(&self) -> (wire: u64)
        requires
            self.wf(),
        ensures
            wire == self.wire(),
    {
        let origin = Self::epoch();
        let days: i64 = days_between(self, &origin);
        to_wire(days)
    }

    /// The date that a wire integer stands for.
    pub fn decode(wire: u64) -> (date: Result<CalendarDate, Error>)
        ensures
            date == Self::spec_decode(wire),
            date.is_ok() <==> wire <= max_day_offset(),
            date.is_ok() ==> date.unwrap().wf() && date.unwrap().day_offset() == wire,
            date.is_err() ==> date.unwrap_err() == Error::InvalidDate,
    {
        let origin = Self::epoch();
        match add_days(&origin, wire) {
            Some(found) => {
                proof {
                    found.lemma_range();
                    Self::at(wire as int).lemma_same_day(found);
                }
                Ok(found)
            },
            None => Err(Error::InvalidDate),
        }
    }

    /// A valid date lies between the earliest and the latest day count.
    pub proof fn lemma_range(self)
        requires
            self.wf(),
        ensures
            min_day_offset() <= self.day_offset() <= max_day_offset(),
    {
        lemma_days_in_range(self.year as int, self.month as int, self.day as int);
    }

    /// The day after this one.
    pub open spec fn next(&self) -> CalendarDate {
        if self.day < days_in_month(self.year as int, self.month as int) {
            CalendarDate { year: self.year, month: self.month, day: (self.day + 1) as u32 }
        } else if self.month < 12 {
            CalendarDate { year: self.year, month: (self.month + 1) as u32, day: 1 }
        } else {
            CalendarDate { year: (self.year + 1) as i32, month: 1, day: 1 }
        }
    }

    /// The day after a valid date, but for the latest, is a valid date, and
    /// its day count is one more.
    pub proof fn lemma_next(self)
        requires
            self.wf(),
            self.day_offset() < max_day_offset(),
        ensures
            self.next().wf(),
            self.next().day_offset() == self.day_offset() + 1,
    {
        let year = self.year as int;
        reveal_with_fuel(days_before_month, 13);
        lemma_year_step(year);
        lemma_month_order(year, 12, 13);
        if self.year == MAX_YEAR && self.month == 12 && self.day == 31 {
            assert(self.day_offset() == max_day_offset());
        }
    }

    /// Every day count from the earliest to the latest is the day count of a
    /// valid date.
    pub proof fn lemma_exists(offset: int)
        requires
            min_day_offset() <= offset <= max_day_offset(),
        ensures
            Self::at(offset).wf(),
            Self::at(offset).day_offset() == offset,
        decreases offset - min_day_offset(),
    {
        if offset == min_day_offset() {
            let first = CalendarDate { year: MIN_YEAR, month: 1, day: 1 };
            reveal_with_fuel(days_before_month, 2);
            assert(first.wf() && first.day_offset() == offset);
        } else {
            Self::lemma_exists(offset - 1);
            let before = Self::at(offset - 1);
            before.lemma_next();
            let found = before.next();
            assert(found.wf() && found.day_offset() == offset);
        }
    }

    /// Two valid dates with one day count are equal.
    pub proof fn lemma_same_day(self, other: CalendarDate)
        requires
            self.wf(),
            other.wf(),
            self.day_offset() == other.day_offset(),
        ensures
            self == other,
    {
        lemma_days_injective(
            self.year as int,
            self.month as int,
            self.day as int,
            other.year as int,
            other.month as int,
            other.day as int,
        );
    }
}

impl Serializer for CalendarDate {
    open spec fn writable(&self) -> bool {
        self.wf()
    }

    open spec fn wire_value(&self) -> u64 {
        self.wire()
    }

    open spec fn read_value(wire: u64) -> Result<CalendarDate, Error> {
        Self::spec_decode(wire)
    }

    open spec fn type_tag() -> FieldType {
        FieldType::DATE
    }

    /// Appends the 8-byte field of this date.
    fn write(&self, writer: &mut Writer)
        ensures
            final(writer)@ == old(writer)@ + spec_u64_to_le_bytes(self.wire()),
            final(writer)@.len() == old(writer)@.len() + 8,
    {
        writer.write_u64(self.encode());
    }

    /// Reads one 8-byte field and decodes it. The cursor moves past the
    /// field whether or not the field holds a date.
    fn read(reader: &mut Reader) -> (date: Result<CalendarDate, Error>)
        ensures
            date == Self::spec_decode(spec_u64_from_le_bytes(old(reader).next_field())),
            final(reader).wf(),
            final(reader).bytes == old(reader).bytes,
            final(reader).cursor == old(reader).cursor + 8,
    {
        let wire: u64 = reader.read_u64();
        Self::decode(wire)
    }

    /// The size of an encoded date, whatever the date.
    fn reserved_space() -> (size: usize)
        ensures
            size == 8,
    {
        FIELD_SIZE
    }

    /// The logical type of an encoded date.
    fn ty() -> (tag: FieldType)
        ensures
            tag == FieldType::DATE,
    {
        FieldType::DATE
    }
}

impl GeneralList for CalendarDate {
}

} // verus!
