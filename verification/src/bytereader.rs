//! A bounds-checked reader of integers, bytes and text from a byte buffer.

use crate::song::SongError;
use vstd::prelude::*;
use vstd::slice::slice_subrange;
use vstd::string::StrSliceExecFns;
use vstd::string::StringExecFns;
use vstd::string::StringSliceAdditionalSpecFns;
use vstd::utf8::decode_utf8;
use vstd::utf8::valid_utf8;

verus! {

/// Byte order of multi-byte integers.
#[derive(Debug, Clone, Copy, PartialEq, Eq, Structural)]
pub enum Encoding {
    LittleEndian,
    BigEndian,
}

/// What a reader is, mathematically: the bytes it walks over, how far it has
/// come, and the byte order it reads integers in.
pub struct Cursor {
    pub data: Seq<u8>,
    pub position: nat,
    pub encoding: Encoding,
}

/// The unsigned 16-bit integer that two bytes spell in the given byte order.
pub open spec fn u16_value(encoding: Encoding, bytes: Seq<u8>) -> int {
    match encoding {
        Encoding::BigEndian => bytes[0] * 256 + bytes[1],
        Encoding::LittleEndian => bytes[1] * 256 + bytes[0],
    }
}

/// The unsigned 32-bit integer that four bytes spell in the given byte order.
pub open spec fn u32_value(encoding: Encoding, bytes: Seq<u8>) -> int {
    match encoding {
        Encoding::BigEndian => ((bytes[0] * 256 + bytes[1]) * 256 + bytes[2]) * 256 + bytes[3],
        Encoding::LittleEndian => ((bytes[3] * 256 + bytes[2]) * 256 + bytes[1]) * 256
            + bytes[0],
    }
}

/// Two's complement reading of an unsigned 8-bit value.
pub open spec fn signed8(value: int) -> int {
    if value < 0x80 {
        value
    } else {
        value - 0x100
    }
}

/// Two's complement reading of an unsigned 16-bit value.
pub open spec fn signed16(value: int) -> int {
    if value < 0x8000 {
        value
    } else {
        value - 0x1_0000
    }
}

/// Two's complement reading of an unsigned 32-bit value.
pub open spec fn signed32(value: int) -> int {
    if value < 0x8000_0000 {
        value
    } else {
        value - 0x1_0000_0000
    }
}

/// `text` without the NUL characters that pad its end.
pub open spec fn trim_nul(text: Seq<char>) -> Seq<char>
    decreases text.len(),
{
    if text.len() > 0 && text.last() == '\0' {
        trim_nul(text.drop_last())
    } else {
        text
    }
}

impl Cursor {
    /// Whether the position lies within the data, and the data within what a
    /// machine can address. This holds of every reader at all times.
    pub open spec fn wf(self) -> bool {
        self.position <= self.data.len() <= usize::MAX
    }

    /// Bytes between the position and the end.
    pub open spec fn remaining(self) -> int {
        self.data.len() - self.position
    }

    /// Whether `count` more bytes can be read.
    pub open spec fn has(self, count: int) -> bool {
        self.position + count <= self.data.len()
    }

    /// The next `count` bytes.
    pub open spec fn peek(self, count: int) -> Seq<u8> {
        self.data.subrange(self.position as int, self.position + count)
    }

    /// The cursor moved forward by `count` bytes.
    pub open spec fn skip(self, count: int) -> Cursor {
        Cursor { position: (self.position + count) as nat, ..self }
    }

    /// The cursor placed at `position`.
    pub open spec fn at(self, position: int) -> Cursor {
        Cursor { position: position as nat, ..self }
    }

    /// The fault of a read of `count` bytes that cannot be had at the
    /// position.
    pub open spec fn fault(self, count: int) -> SongError {
        SongError::Read { offset: self.position as usize, expected: count as usize }
    }
}

/// Reading `count` bytes and seeking back to where the read began leaves the
/// reader as it was before the read, so that the same read yields the same
/// bytes again.
pub proof fn lemma_read_then_seek_back(cursor: Cursor, count: int)
    requires
        cursor.wf(),
        count >= 0,
        cursor.has(count),
    ensures
        cursor.skip(count).wf(),
        cursor.skip(count).at(cursor.position as int) == cursor,
        cursor.skip(count).at(cursor.position as int).peek(count) == cursor.peek(count),
{
}

/// `std::str::from_utf8`: the bytes as text where they are well-formed UTF-8,
/// and nothing where they are not. The text, encoded again, is the bytes.
#[verifier::external_body]
pub(crate) fn utf8_text<'a>(bytes: &'a [u8]) -> (text: Option<&'a str>)
    ensures
        text is Some <==> valid_utf8(bytes@),
        text matches Some(s) ==> s.spec_bytes() == bytes@,
{
    std::str::from_utf8(bytes).ok()
}

/// The text that `bytes` hold once decoded and freed of its NUL padding.
pub open spec fn text_value(bytes: Seq<u8>) -> Seq<char> {
    trim_nul(decode_utf8(bytes))
}

/// Cuts the NUL padding off the end of `text`.
fn without_nul_padding<'a>(text: &'a str) -> (trimmed: &'a str)
    ensures
        trimmed@ == trim_nul(text@),
{
    let mut end = text.unicode_len();
    assert(text@.subrange(0, end as int) == text@);
    while end > 0 && text.get_char(end - 1) == '\0'
        invariant
            end <= text@.len(),
            trim_nul(text@) == trim_nul(text@.subrange(0, end as int)),
        decreases end,
    {
        proof {
            let kept = text@.subrange(0, end as int);
            assert(kept.drop_last() == text@.subrange(0, end - 1));
        }
        end = end - 1;
    }
    text.substring_char(0, end)
}

/// A bounds-checked sequential reader over a borrowed byte buffer. It never
/// writes and never grows the buffer.
#[derive(Debug)]
pub struct ByteReader<'a> {
    data: &'a [u8],
    position: usize,
    encoding: Encoding,
}

impl<'a> View for ByteReader<'a> {
    type V = Cursor;

    // The position of a reader never lies behind the end of its buffer, and
    // the view says so of every value of the type.
    closed spec fn view(&self) -> Cursor {
        Cursor {
            data: self.data@,
            position: if self.position <= self.data@.len() {
                self.position as nat
            } else {
                self.data@.len()
            },
            encoding: self.encoding,
        }
    }
}

impl<'a> ByteReader<'a> {
    #[verifier::type_invariant]
    spec fn in_bounds(self) -> bool {
        self.position <= self.data@.len()
    }

    /// A reader never stands behind the end of its buffer.
    pub proof fn lemma_in_bounds(&self)
        ensures
            self@.wf(),
    {
        broadcast use vstd::slice::group_slice_axioms;

        assert(self.data@.len() == self.data.len());
    }

    /// A reader at the start of `data`.
    pub fn new(data: &'a [u8], encoding: Encoding) -> (reader: Self)
        ensures
            reader@ == (Cursor { data: data@, position: 0, encoding }),
    {
        ByteReader { data, encoding, position: 0 }
    }

    /// The byte order the reader was made with.
    pub fn encoding(&self) -> (encoding: &Encoding)
        ensures
            *encoding == self@.encoding,
    {
        &self.encoding
    }

    /// The current offset.
    pub fn position(&self) -> (position: usize)
        ensures
            position == self@.position,
    {
        proof {
            use_type_invariant(self);
        }
        self.position
    }

    /// Moves to the absolute offset `position` and returns the offset held
    /// before. An offset behind the end of the buffer is refused and leaves
    /// the reader where it was.
    pub fn seek(&mut self, position: usize) -> (previous: Result<usize, SongError>)
        ensures
            match previous {
                Ok(before) => position <= old(self)@.data.len()
                    && before == old(self)@.position
                    && final(self)@ == old(self)@.at(position as int),
                Err(fault) => position > old(self)@.data.len()
                    && fault == (SongError::Read { offset: position, expected: 0 })
                    && final(self)@ == old(self)@,
            },
    {
        proof {
            use_type_invariant(&*self);
        }
        if position > self.data.len() {
            return Err(SongError::Read { offset: position, expected: 0 });
        }
        let before = self.position;
        self.position = position;
        Ok(before)
    }

    /// Hands out the next `count` bytes and moves past them. With fewer than
    /// `count` bytes left the read is refused and the reader stays where it
    /// was.
    pub fn read_bytes(&mut self, count: usize) -> (bytes: Result<&'a [u8], SongError>)
        ensures
            match bytes {
                Ok(slice) => old(self)@.has(count as int)
                    && slice@ == old(self)@.peek(count as int)
                    && final(self)@ == old(self)@.skip(count as int),
                Err(fault) => !old(self)@.has(count as int)
                    && fault == old(self)@.fault(count as int)
                    && final(self)@ == old(self)@,
            },
    {
        proof {
            use_type_invariant(&*self);
        }
        if count > self.data.len() - self.position {
            return Err(SongError::Read { offset: self.position, expected: count });
        }
        let slice = slice_subrange(self.data, self.position, self.position + count);
        self.position = self.position + count;
        Ok(slice)
    }

    /// Reads `length` bytes as UTF-8 text and drops the NUL padding at its
    /// end. Too few bytes, or bytes that are no UTF-8, are refused and leave
    /// the reader where it was.
    pub fn read_str(&mut self, length: usize) -> (text: Result<String, SongError>)
        ensures
            match text {
                Ok(string) => old(self)@.has(length as int)
                    && valid_utf8(old(self)@.peek(length as int))
                    && string@ == text_value(old(self)@.peek(length as int))
                    && final(self)@ == old(self)@.skip(length as int),
                Err(fault) => !(old(self)@.has(length as int) && valid_utf8(
                    old(self)@.peek(length as int),
                )) && fault == old(self)@.fault(length as int) && final(self)@ == old(self)@,
            },
    {
        let start = self.position;
        let bytes = self.read_bytes(length)?;
        match utf8_text(bytes) {
            Some(text) => {
                proof {
                    vstd::utf8::encode_utf8_decode_utf8(text@);
                }
                Ok(String::from_str(without_nul_padding(text)))
            },
            None => {
                proof {
                    use_type_invariant(&*self);
                }
                self.position = start;
                Err(SongError::Read { offset: start, expected: length })
            },
        }
    }

    /// Reads one unsigned byte.
    pub fn read_u8(&mut self) -> (value: Result<u8, SongError>)
        ensures
            match value {
                Ok(v) => old(self)@.has(1) && v == old(self)@.peek(1)[0]
                    && final(self)@ == old(self)@.skip(1),
                Err(fault) => !old(self)@.has(1) && fault == old(self)@.fault(1)
                    && final(self)@ == old(self)@,
            },
    {
        let bytes = self.read_bytes(1)?;
        Ok(bytes[0])
    }

    /// Reads one byte as a two's complement number.
    pub fn read_i8(&mut self) -> (value: Result<i8, SongError>)
        ensures
            match value {
                Ok(v) => old(self)@.has(1) && v == signed8(old(self)@.peek(1)[0] as int)
                    && final(self)@ == old(self)@.skip(1),
                Err(fault) => !old(self)@.has(1) && fault == old(self)@.fault(1)
                    && final(self)@ == old(self)@,
            },
    {
        let byte = self.read_bytes(1)?[0];
        if byte < 0x80 {
            Ok(byte as i8)
        } else {
            Ok((byte as i16 - 0x100) as i8)
        }
    }

    /// Reads two bytes as an unsigned integer in the reader's byte order.
    pub fn read_u16(&mut self) -> (value: Result<u16, SongError>)
        ensures
            match value {
                Ok(v) => old(self)@.has(2) && v == u16_value(
                    old(self)@.encoding,
                    old(self)@.peek(2),
                ) && final(self)@ == old(self)@.skip(2),
                Err(fault) => !old(self)@.has(2) && fault == old(self)@.fault(2)
                    && final(self)@ == old(self)@,
            },
    {
        let bytes = self.read_bytes(2)?;
        Ok(assemble_u16(self.encoding, bytes))
    }

    /// Reads two bytes as a two's complement integer in the reader's byte
    /// order.
    pub fn read_i16(&mut self) -> (value: Result<i16, SongError>)
        ensures
            match value {
                Ok(v) => old(self)@.has(2) && v == signed16(
                    u16_value(old(self)@.encoding, old(self)@.peek(2)),
                ) && final(self)@ == old(self)@.skip(2),
                Err(fault) => !old(self)@.has(2) && fault == old(self)@.fault(2)
                    && final(self)@ == old(self)@,
            },
    {
        let raw = assemble_u16(self.encoding, self.read_bytes(2)?);
        if raw < 0x8000 {
            Ok(raw as i16)
        } else {
            Ok((raw as i32 - 0x1_0000) as i16)
        }
    }

    /// Reads four bytes as an unsigned integer in the reader's byte order.
    pub fn read_u32(&mut self) -> (value: Result<u32, SongError>)
        ensures
            match value {
                Ok(v) => old(self)@.has(4) && v == u32_value(
                    old(self)@.encoding,
                    old(self)@.peek(4),
                ) && final(self)@ == old(self)@.skip(4),
                Err(fault) => !old(self)@.has(4) && fault == old(self)@.fault(4)
                    && final(self)@ == old(self)@,
            },
    {
        let bytes = self.read_bytes(4)?;
        Ok(assemble_u32(self.encoding, bytes))
    }

    /// Reads four bytes as a two's complement integer in the reader's byte
    /// order.
    pub fn read_i32(&mut self) -> (value: Result<i32, SongError>)
        ensures
            match value {
                Ok(v) => old(self)@.has(4) && v == signed32(
                    u32_value(old(self)@.encoding, old(self)@.peek(4)),
                ) && final(self)@ == old(self)@.skip(4),
                Err(fault) => !old(self)@.has(4) && fault == old(self)@.fault(4)
                    && final(self)@ == old(self)@,
            },
    {
        let raw = assemble_u32(self.encoding, self.read_bytes(4)?);
        if raw < 0x8000_0000 {
            Ok(raw as i32)
        } else {
            Ok((raw as i64 - 0x1_0000_0000) as i32)
        }
    }
}

/// Puts two bytes together in the given byte order.
fn assemble_u16(encoding: Encoding, bytes: &[u8]) -> (value: u16)
    requires
        bytes@.len() == 2,
    ensures
        value == u16_value(encoding, bytes@),
{
    let first = bytes[0] as u16;
    let second = bytes[1] as u16;
    match encoding {
        Encoding::BigEndian => first * 256 + second,
        Encoding::LittleEndian => second * 256 + first,
    }
}

/// Puts four bytes together in the given byte order.
fn assemble_u32(encoding: Encoding, bytes: &[u8]) -> (value: u32)
    requires
        bytes@.len() == 4,
    ensures
        value == u32_value(encoding, bytes@),
{
    let b0 = bytes[0] as u32;
    let b1 = bytes[1] as u32;
    let b2 = bytes[2] as u32;
    let b3 = bytes[3] as u32;
    match encoding {
        Encoding::BigEndian => ((b0 * 256 + b1) * 256 + b2) * 256 + b3,
        Encoding::LittleEndian => ((b3 * 256 + b2) * 256 + b1) * 256 + b0,
    }
}

} // verus!