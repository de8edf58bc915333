//! What every codec offers: it writes a value as one 8-byte field, reads it
//! back, says how many bytes to reserve, and names its logical type.

use crate::buffer::{Reader, Writer};
use crate::types::{Error, FieldType};
use vstd::bytes::{spec_u64_from_le_bytes, spec_u64_to_le_bytes};
use vstd::prelude::*;

verus! {

pub trait Serializer: Sized {
    /// The values that can be written.
    spec fn writable(&self) -> bool;

    /// The wire integer of a value.
    spec fn wire_value(&self) -> u64;

    /// What a wire integer decodes to.
    spec fn read_value(wire: u64) -> Result<Self, Error>;

    /// The logical type of the values.
    spec fn type_tag() -> FieldType;

    /// Appends the 8-byte field of the value, and nothing else.
    fn write(&self, writer: &mut Writer)
        requires
            self.writable(),
        ensures
            final(writer)@ == old(writer)@ + spec_u64_to_le_bytes(self.wire_value()),
            final(writer)@.len() == old(writer)@.len() + 8,
    ;

    /// Reads one 8-byte field and decodes it. The cursor moves past the
    /// field whether or not the field holds a value.
    fn read(reader: &mut Reader) -> (value: Result<Self, Error>)
        requires
            old(reader).wf(),
            old(reader).unread().len() >= 8,
        ensures
            value == Self::read_value(spec_u64_from_le_bytes(old(reader).next_field())),
            final(reader).wf(),
            final(reader).bytes == old(reader).bytes,
            final(reader).cursor == old(reader).cursor + 8,
    ;

    /// The bytes to reserve for one value, whatever the value.
    fn reserved_space() -> (size: usize)
        ensures
            size == 8,
    ;

    /// The logical type of the values.
    fn ty() -> (tag: FieldType)
        ensures
            tag == Self::type_tag(),
    ;
}

/// Marks a type whose values can be the elements of a list.
pub trait GeneralList: Serializer {

}

} // verus!
