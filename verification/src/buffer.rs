//! Byte buffers that the codecs write to and read from. An unsigned 64-bit
//! integer takes 8 bytes, least significant byte first.

use vstd::bytes::{spec_u64_from_le_bytes, spec_u64_to_le_bytes, u64_from_le_bytes, u64_to_le_bytes};
use vstd::prelude::*;
use vstd::slice::slice_subrange;

verus! {

/// A growing sequence of bytes.
pub struct Writer {
    pub bytes: Vec<u8>,
}

impl View for Writer {
    type V = Seq<u8>;

    open spec fn view(&self) -> Seq<u8> {
        self.bytes@
    }
}

impl Writer {
    /// A writer that holds no bytes.
    pub fn new() -> (writer: Writer)
        ensures
            writer@ == Seq::<u8>::empty(),
    {
        Writer { bytes: Vec::new() }
    }

    /// Appends the 8 bytes of `value`.
    pub fn write_u64(&mut self, value: u64)
        ensures
            final(self)@ == old(self)@ + spec_u64_to_le_bytes(value),
            final(self)@.len() == old(self)@.len() + 8,
    {
        let mut field: Vec<u8> = u64_to_le_bytes(value);
        self.bytes.append(&mut field);
    }

    /// The bytes written so far.
    pub fn into_bytes(self) -> (bytes: Vec<u8>)
        ensures
            bytes@ == self@,
    {
        self.bytes
    }
}

/// A sequence of bytes and a cursor that moves through it.
pub struct Reader {
    pub bytes: Vec<u8>,
    pub cursor: usize,
}

impl Reader {
    /// The cursor lies within the bytes, or at their end.
    pub open spec fn wf(&self) -> bool {
        self.cursor <= self.bytes@.len()
    }

    /// The bytes that have not been read.
    pub open spec fn unread(&self) -> Seq<u8> {
        self.bytes@.subrange(self.cursor as int, self.bytes@.len() as int)
    }

    /// The 8 bytes at the cursor.
    pub open spec fn next_field(&self) -> Seq<u8> {
        self.bytes@.subrange(self.cursor as int, self.cursor + 8)
    }

    /// A reader at the start of `bytes`.
    pub fn new(bytes: Vec<u8>) -> (reader: Reader)
        ensures
            reader.wf(),
            reader.bytes == bytes,
            reader.cursor == 0,
            reader.unread() == bytes@,
    {
        Reader { bytes, cursor: 0 }
    }

    /// How many bytes have not been read.
    pub fn remaining(&self) -> (n: usize)
        requires
            self.wf(),
        ensures
            n == self.unread().len(),
    {
        self.bytes.len() - self.cursor
    }

    /// Reads the 8 bytes at the cursor as one integer and moves the cursor
    /// past them.
    pub fn read_u64(&mut self) -> (value: u64)
        requires
            old(self).wf(),
            old(self).unread().len() >= 8,
        ensures
            final(self).wf(),
            final(self).bytes == old(self).bytes,
            final(self).cursor == old(self).cursor + 8,
            value == spec_u64_from_le_bytes(old(self).next_field()),
    {
        let start: usize = self.cursor;
        let total: usize = self.bytes.len();
        assert(self.unread().len() == total - start);
        let field = slice_subrange(self.bytes.as_slice(), start, start + 8);
        let value: u64 = u64_from_le_bytes(field);
        self.cursor = start + 8;
        value
    }
}

/// What is written is what is read back.
pub proof fn lemma_field_round_trip(value: u64)
    ensures
        spec_u64_to_le_bytes(value).len() == 8,
        spec_u64_from_le_bytes(spec_u64_to_le_bytes(value)) == value,
{
    vstd::bytes::lemma_auto_spec_u64_to_from_le_bytes();
}

} // verus!
