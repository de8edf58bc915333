//! Civil date-times to the millisecond and their codec: an instant travels
//! as its signed count of milliseconds from 1970-01-01T00:00:00.

use crate::buffer::{Reader, Writer};
use crate::calendar::{max_day_offset, min_day_offset, MILLIS_PER_DAY};
use crate::civil::{from_timestamp_millis, timestamp_millis};
use crate::date::CalendarDate;
use crate::serializer::{GeneralList, Serializer};
use crate::types::{Error, FieldType, FIELD_SIZE};
use crate::wire::{from_wire, offset_of, to_wire, wire_of};
use vstd::bytes::{spec_u64_from_le_bytes, spec_u64_to_le_bytes};
use vstd::prelude::*;

verus! {

/// A civil date and time of day, without a time zone, to the millisecond.
#[derive(Clone, Copy, Debug, PartialEq, Eq, Structural)]
pub struct Instant {
    pub date: CalendarDate,
    pub hour: u32,
    pub minute: u32,
    pub second: u32,
    pub millisecond: u32,
}

/// Millisecond count of the first instant of the earliest date.
pub open spec fn min_epoch_millis() -> int {
    min_day_offset() * MILLIS_PER_DAY
}

/// Millisecond count of the last instant of the latest date.
pub open spec fn max_epoch_millis() -> int {
    max_day_offset() * MILLIS_PER_DAY + (MILLIS_PER_DAY - 1)
}

impl Instant {
    /// The date is valid and the time of day lies within one day.
    pub open spec fn wf(&self) -> bool {
        &&& self.date.wf()
        &&& self.hour < 24
        &&& self.minute < 60
        &&& self.second < 60
        &&& self.millisecond < 1000
    }

    /// Milliseconds from midnight to the time of day.
    pub open spec fn millis_of_day(&self) -> int {
        self.hour * 3_600_000 + self.minute * 60_000 + self.second * 1000 + self.millisecond
    }

    /// Signed count of milliseconds from 1970-01-01T00:00:00 to this
    /// instant.
    pub open spec fn epoch_millis(&self) -> int {
        self.date.day_offset() * MILLIS_PER_DAY + self.millis_of_day()
    }

    /// The wire integer of this instant.
    pub open spec fn wire(&self) -> u64 {
        wire_of(self.epoch_millis())
    }

    /// The instant with the given millisecond count.
    pub open spec fn at(millis: int) -> Instant {
        choose|t: Instant| t.wf() && t.epoch_millis() == millis
    }

    /// What a wire integer decodes to: the instant at that signed count of
    /// milliseconds, unless it lies before the earliest or past the latest
    /// date.
    pub open spec fn spec_decode(wire: u64) -> Result<Instant, Error> {
        let millis = offset_of(wire);
        if min_epoch_millis() <= millis <= max_epoch_millis() {
            Ok(Self::at(millis))
        } else {
            Err(Error::InvalidInstant)
        }
    }

    /// The instant of the given date and time of day, where there is one.
    pub fn new(date: CalendarDate, hour: u32, minute: u32, second: u32, millisecond: u32) -> (instant:
        Option<Instant>)
        ensures
            instant.is_some() <==> (Instant { date, hour, minute, second, millisecond }).wf(),
            instant.is_some() ==> instant.unwrap() == (Instant {
                date,
                hour,
                minute,
                second,
                millisecond,
            }),
    {
        let instant = Instant { date, hour, minute, second, millisecond };
        if instant.is_valid() {
            Some(instant)
        } else {
            None
        }
    }

    /// Whether the date is valid and the time of day lies within one day.
    pub fn is_valid(&self) -> (valid: bool)
        ensures
            valid == self.wf(),
    {
        self.date.is_valid() && self.hour < 24 && self.minute < 60 && self.second < 60
            && self.millisecond < 1000
    }

    /// The wire integer of this instant: its signed millisecond count,
    /// reinterpreted as unsigned.
    pub fn encode(&self) -> (wire: u64)
        requires
            self.wf(),
        ensures
            wire == self.wire(),
    {
        let millis: i64 = timestamp_millis(self);
        to_wire(millis)
    }

    /// The instant that a wire integer stands for.
    pub fn decode(wire: u64) -> (instant: Result<Instant, Error>)
        ensures
            instant == Self::spec_decode(wire),
            instant.is_ok() <==> min_epoch_millis() <= offset_of(wire) <= max_epoch_millis(),
            instant.is_ok() ==> instant.unwrap().wf() && instant.unwrap().epoch_millis()
                == offset_of(wire),
            instant.is_err() ==> instant.unwrap_err() == Error::InvalidInstant,
    {
        let millis: i64 = from_wire(wire);
        match from_timestamp_millis(millis) {
            Some(found) => {
                proof {
                    found.lemma_range();
                    Self::at(millis as int).lemma_same_instant(found);
                }
                Ok(found)
            },
            None => Err(Error::InvalidInstant),
        }
    }

    /// A valid instant lies between the earliest and the latest millisecond
    /// count, and both fit a signed 64-bit integer.
    pub proof fn lemma_range(self)
        requires
            self.wf(),
        ensures
            min_epoch_millis() <= self.epoch_millis() <= max_epoch_millis(),
            i64::MIN < min_epoch_millis(),
            max_epoch_millis() < i64::MAX,
    {
        self.date.lemma_range();
    }

    /// Every millisecond count from the earliest to the latest is the count
    /// of a valid instant.
    pub proof fn lemma_exists(millis: int)
        requires
            min_epoch_millis() <= millis <= max_epoch_millis(),
        ensures
            Self::at(millis).wf(),
            Self::at(millis).epoch_millis() == millis,
    {
        let day = millis / (MILLIS_PER_DAY as int);
        let rest = millis % (MILLIS_PER_DAY as int);
        CalendarDate::lemma_exists(day);
        let found = Instant {
            date: CalendarDate::at(day),
            hour: (rest / 3_600_000) as u32,
            minute: ((rest / 60_000) % 60) as u32,
            second: ((rest / 1000) % 60) as u32,
            millisecond: (rest % 1000) as u32,
        };
        assert(found.wf() && found.epoch_millis() == millis);
    }

    /// Two valid instants with one millisecond count are equal.
    pub proof fn lemma_same_instant(self, other: Instant)
        requires
            self.wf(),
            other.wf(),
            self.epoch_millis() == other.epoch_millis(),
        ensures
            self == other,
    {
        assert(self.date.day_offset() == other.date.day_offset());
        self.date.lemma_same_day(other.date);
        assert(self.hour == other.hour);
        assert(self.minute == other.minute);
        assert(self.second == other.second);
    }
}

impl Serializer for Instant {
    open spec fn writable(&self) -> bool {
        self.wf()
    }

    open spec fn wire_value(&self) -> u64 {
        self.wire()
    }

    open spec fn read_value(wire: u64) -> Result<Instant, Error> {
        Self::spec_decode(wire)
    }

    open spec fn type_tag() -> FieldType {
        FieldType::TIMESTAMP
    }

    /// Appends the 8-byte field of this instant.
    fn write(&self, writer: &mut Writer)
        ensures
            final(writer)@ == old(writer)@ + spec_u64_to_le_bytes(self.wire()),
            final(writer)@.len() == old(writer)@.len() + 8,
    {
        writer.write_u64(self.encode());
    }

    /// Reads one 8-byte field and decodes it. The cursor moves past the
    /// field whether or not the field holds an instant.
    fn read(reader: &mut Reader) -> (instant: Result<Instant, Error>)
        ensures
            instant == Self::spec_decode(spec_u64_from_le_bytes(old(reader).next_field())),
            final(reader).wf(),
            final(reader).bytes == old(reader).bytes,
            final(reader).cursor == old(reader).cursor + 8,
    {
        let wire: u64 = reader.read_u64();
        Self::decode(wire)
    }

    /// The size of an encoded instant, whatever the instant.
    fn reserved_space() -> (size: usize)
        ensures
            size == 8,
    {
        FIELD_SIZE
    }

    /// The logical type of an encoded instant.
    fn ty() -> (tag: FieldType)
        ensures
            tag == FieldType::TIMESTAMP,
    {
        FieldType::TIMESTAMP
    }
}

impl GeneralList for Instant {
}

} // verus!
