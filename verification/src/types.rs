//! What a decode can fail with, and the tags that name the two codecs.

use vstd::prelude::*;

verus! {

/// The failures of decoding.
#[derive(Clone, Copy, Debug, PartialEq, Eq, Structural)]
pub enum Error {
    /// The millisecond count names no instant that can be represented.
    InvalidInstant,
    /// The day count leads past the latest date that can be represented.
    InvalidDate,
}

/// The logical type of a field.
#[allow(non_camel_case_types)]
#[derive(Clone, Copy, Debug, PartialEq, Eq, Structural)]
pub enum FieldType {
    TIMESTAMP,
    DATE,
}

/// Bytes that one encoded value takes.
pub const FIELD_SIZE: usize = 8;

} // verus!
