//! The instruction stream: a byte buffer with a read position, which
//! serves as the instruction pointer.

use crate::error::EngineError;
use crate::helpers::{signed16, signed8};
use byteorder::{LittleEndian, ReadBytesExt};
use vstd::prelude::*;
use vstd::slice::slice_subrange;

verus! {

/// A byte buffer with a read position.
#[derive(Debug)]
pub struct ByteStream {
    bytes: Vec<u8>,
    position: usize,
}

/// The unsigned little-endian word whose low byte is at `position`.
pub open spec fn word_le(bytes: Seq<u8>, position: int) -> int {
    bytes[position] as int + 256 * bytes[position + 1] as int
}

/// `byteorder::ReadBytesExt::read_u8` on a slice: the first byte, or
/// nothing when the slice is empty.
#[verifier::external_body]
fn first_u8(buffer: &[u8]) -> (value: Option<u8>)
    ensures
        value == (if buffer@.len() >= 1 {
            Some(buffer@[0])
        } else {
            None
        }),
{
    let mut reader = buffer;
    reader.read_u8().ok()
}

/// `byteorder::ReadBytesExt::read_i8` on a slice: the first byte read as a
/// two's-complement value, or nothing when the slice is empty.
#[verifier::external_body]
fn first_i8(buffer: &[u8]) -> (value: Option<i8>)
    ensures
        value == (if buffer@.len() >= 1 {
            Some(signed8(buffer@[0] as int) as i8)
        } else {
            None
        }),
{
    let mut reader = buffer;
    reader.read_i8().ok()
}

/// `byteorder::ReadBytesExt::read_u16` in little-endian order on a slice:
/// the first byte plus 256 times the second, or nothing when the slice
/// holds fewer than two bytes.
#[verifier::external_body]
fn first_u16(buffer: &[u8]) -> (value: Option<u16>)
    ensures
        value == (if buffer@.len() >= 2 {
            Some(word_le(buffer@, 0) as u16)
        } else {
            None
        }),
{
    let mut reader = buffer;
    reader.read_u16::<LittleEndian>().ok()
}

/// `byteorder::ReadBytesExt::read_i16` in little-endian order on a slice:
/// the two's-complement reading of the first two bytes, or nothing when
/// the slice holds fewer than two bytes.
#[verifier::external_body]
fn first_i16(buffer: &[u8]) -> (value: Option<i16>)
    ensures
        value == (if buffer@.len() >= 2 {
            Some(signed16(word_le(buffer@, 0)) as i16)
        } else {
            None
        }),
{
    let mut reader = buffer;
    reader.read_i16::<LittleEndian>().ok()
}

impl ByteStream {
    #[verifier::type_invariant]
    spec fn in_bounds(self) -> bool {
        self.position <= self.bytes@.len()
    }

    /// The bytes of the stream.
    pub closed spec fn bytes(&self) -> Seq<u8> {
        self.bytes@
    }

    /// The read position: the offset of the next byte to read.
    pub closed spec fn pos(&self) -> int {
        self.position as int
    }

    /// A stream over `bytes`, positioned at their start.
    pub fn new(bytes: Vec<u8>) -> (stream: Self)
        ensures
            stream.bytes() == bytes@,
            stream.pos() == 0,
    {
        ByteStream { bytes, position: 0 }
    }

    /// The read position.
    pub fn stream_position(&self) -> (position: usize)
        ensures
            position as int == self.pos(),
            position <= self.bytes().len(),
    {
        proof {
            use_type_invariant(self);
        }
        self.position
    }

    /// The number of bytes in the stream.
    pub fn len(&self) -> (length: usize)
        ensures
            length == self.bytes().len(),
    {
        self.bytes.len()
    }

    /// Whether every byte has been read.
    pub fn is_at_end(&self) -> (at_end: bool)
        ensures
            at_end == (self.pos() >= self.bytes().len()),
    {
        self.position >= self.bytes.len()
    }

    fn remaining(&self) -> (rest: &[u8])
        ensures
            rest@ == self.bytes().subrange(self.pos(), self.bytes().len() as int),
            rest@.len() == self.bytes().len() - self.pos(),
            0 <= self.pos() <= self.bytes().len() <= usize::MAX,
    {
        proof {
            use_type_invariant(self);
        }
        let length: usize = self.bytes.len();
        slice_subrange(self.bytes.as_slice(), self.position, length)
    }

    /// The next byte, without consuming it.
    pub fn peek_u8(&self) -> (outcome: Result<u8, EngineError>)
        ensures
            0 <= self.pos() <= self.bytes().len(),
            outcome == (if self.pos() < self.bytes().len() {
                Ok::<u8, EngineError>(self.bytes()[self.pos()])
            } else {
                Err(EngineError::TruncatedStream)
            }),
    {
        match first_u8(self.remaining()) {
            Some(value) => Ok(value),
            None => Err(EngineError::TruncatedStream),
        }
    }

    /// Reads one byte.
    pub fn read_u8(&mut self) -> (outcome: Result<u8, EngineError>)
        ensures
            final(self).bytes() == old(self).bytes(),
            0 <= old(self).pos() <= final(self).pos() <= old(self).bytes().len(),
            outcome == (if old(self).pos() < old(self).bytes().len() {
                Ok::<u8, EngineError>(old(self).bytes()[old(self).pos()])
            } else {
                Err(EngineError::TruncatedStream)
            }),
            final(self).pos() == old(self).pos() + (if outcome is Ok {
                1int
            } else {
                0int
            }),
    {
        match first_u8(self.remaining()) {
            Some(value) => {
                self.position = self.position + 1;
                Ok(value)
            },
            None => Err(EngineError::TruncatedStream),
        }
    }

    /// Reads one byte as a two's-complement value.
    pub fn read_i8(&mut self) -> (outcome: Result<i8, EngineError>)
        ensures
            final(self).bytes() == old(self).bytes(),
            0 <= old(self).pos() <= final(self).pos() <= old(self).bytes().len(),
            outcome == (if old(self).pos() < old(self).bytes().len() {
                Ok::<i8, EngineError>(signed8(old(self).bytes()[old(self).pos()] as int) as i8)
            } else {
                Err(EngineError::TruncatedStream)
            }),
            final(self).pos() == old(self).pos() + (if outcome is Ok {
                1int
            } else {
                0int
            }),
    {
        match first_i8(self.remaining()) {
            Some(value) => {
                self.position = self.position + 1;
                Ok(value)
            },
            None => Err(EngineError::TruncatedStream),
        }
    }

    /// Reads an unsigned little-endian word.
    pub fn read_u16(&mut self) -> (outcome: Result<u16, EngineError>)
        ensures
            final(self).bytes() == old(self).bytes(),
            0 <= old(self).pos() <= final(self).pos() <= old(self).bytes().len(),
            outcome == (if old(self).pos() + 2 <= old(self).bytes().len() {
                Ok::<u16, EngineError>(word_le(old(self).bytes(), old(self).pos()) as u16)
            } else {
                Err(EngineError::TruncatedStream)
            }),
            final(self).pos() == old(self).pos() + (if outcome is Ok {
                2int
            } else {
                0int
            }),
    {
        match first_u16(self.remaining()) {
            Some(value) => {
                self.position = self.position + 2;
                Ok(value)
            },
            None => Err(EngineError::TruncatedStream),
        }
    }

    /// Reads a two's-complement little-endian word.
    pub fn read_i16(&mut self) -> (outcome: Result<i16, EngineError>)
        ensures
            final(self).bytes() == old(self).bytes(),
            0 <= old(self).pos() <= final(self).pos() <= old(self).bytes().len(),
            outcome == (if old(self).pos() + 2 <= old(self).bytes().len() {
                Ok::<i16, EngineError>(
                    signed16(word_le(old(self).bytes(), old(self).pos())) as i16,
                )
            } else {
                Err(EngineError::TruncatedStream)
            }),
            final(self).pos() == old(self).pos() + (if outcome is Ok {
                2int
            } else {
                0int
            }),
    {
        match first_i16(self.remaining()) {
            Some(value) => {
                self.position = self.position + 2;
                Ok(value)
            },
            None => Err(EngineError::TruncatedStream),
        }
    }

    /// Moves the read position by `offset`. The target must lie between
    /// the start and the end of the stream, both included.
    pub fn seek_relative(&mut self, offset: i64) -> (outcome: Result<(), EngineError>)
        ensures
            final(self).bytes() == old(self).bytes(),
            0 <= final(self).pos() <= old(self).bytes().len(),
            0 <= old(self).pos() + offset <= old(self).bytes().len() ==> outcome is Ok && final(
                self
            ).pos() == old(self).pos() + offset,
            !(0 <= old(self).pos() + offset <= old(self).bytes().len()) ==> outcome == Err::<
                (),
                EngineError,
            >(EngineError::OutOfBoundsJump) && final(self).pos() == old(self).pos(),
    {
        proof {
            use_type_invariant(&*self);
        }
        if offset >= 0 {
            let room: usize = self.bytes.len() - self.position;
            if offset as u64 <= room as u64 {
                self.position = self.position + offset as usize;
                Ok(())
            } else {
                Err(EngineError::OutOfBoundsJump)
            }
        } else {
            let back: u64 = if offset == i64::MIN {
                9223372036854775808u64
            } else {
                (-offset) as u64
            };
            if back <= self.position as u64 {
                self.position = self.position - back as usize;
                Ok(())
            } else {
                Err(EngineError::OutOfBoundsJump)
            }
        }
    }

    /// Moves the read position back to an earlier one.
    pub fn rewind(&mut self, position: usize)
        requires
            position <= old(self).pos(),
        ensures
            final(self).bytes() == old(self).bytes(),
            final(self).pos() == position,
    {
        proof {
            use_type_invariant(&*self);
        }
        self.position = position;
    }

    /// Gives the bytes back.
    pub fn into_bytes(self) -> (bytes: Vec<u8>)
        ensures
            bytes@ == self.bytes(),
    {
        self.bytes
    }
}

} // verus!
