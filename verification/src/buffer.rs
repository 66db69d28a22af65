use vstd::prelude::*;
use vstd::slice::slice_subrange;
use vstd::slice::slice_to_vec;

verus! {

/// Failures of the low-level byte cursor.
#[derive(Debug, PartialEq, Eq, Clone, Copy, Structural)]
pub enum BufferError {
    /// A read would have gone past the end of the data.
    UnexpectedEndOfData,
    /// A text span was not well-formed modified UTF-8.
    InvalidCesu8String,
}

/// What `cesu8::from_java_cesu8` decodes a byte sequence to: `Some` sequence
/// of characters when the call accepts the bytes — well-formed modified UTF-8
/// (the class-file variant of UTF-8, with surrogate-pair encoding of
/// supplementary planes and a two-byte encoding of the NUL character), which
/// the decoder also takes in its plain standard UTF-8 form — and `None`
/// otherwise. The result depends on the bytes alone.
pub uninterp spec fn modified_utf8(bytes: Seq<u8>) -> Option<Seq<char>>;

/// Relies on `cesu8::from_java_cesu8` to decode modified UTF-8; the decoded
/// text is a function of the input bytes alone, named by [`modified_utf8`].
#[verifier::external_body]
fn decode_java_utf8(bytes: &Vec<u8>) -> (r: Result<String, BufferError>)
    ensures
        match r {
            Ok(s) => modified_utf8(bytes@) == Some(s@),
            Err(e) => modified_utf8(bytes@) is None && e == BufferError::InvalidCesu8String,
        },
{
    match cesu8::from_java_cesu8(bytes.as_slice()) {
        Ok(s) => Ok(s.into_owned()),
        Err(_) => Err(BufferError::InvalidCesu8String),
    }
}

/// The value of two bytes read as a big-endian unsigned integer.
pub open spec fn spec_be_u16(b0: u8, b1: u8) -> int {
    b0 * 0x100 + b1
}

/// The value of four bytes read as a big-endian unsigned integer.
pub open spec fn spec_be_u32(b0: u8, b1: u8, b2: u8, b3: u8) -> int {
    b0 * 0x100_0000 + b1 * 0x1_0000 + b2 * 0x100 + b3
}

/// The value of eight bytes read as a big-endian unsigned integer.
pub open spec fn spec_be_u64(b0: u8, b1: u8, b2: u8, b3: u8, b4: u8, b5: u8, b6: u8, b7: u8) -> int {
    spec_be_u32(b0, b1, b2, b3) * 0x1_0000_0000 + spec_be_u32(b4, b5, b6, b7)
}

/// What reading one byte at `pos` yields: the byte and the next position.
pub open spec fn spec_read_u8(data: Seq<u8>, pos: int) -> Result<(u8, int), BufferError> {
    if pos + 1 <= data.len() {
        Ok((data[pos], pos + 1))
    } else {
        Err(BufferError::UnexpectedEndOfData)
    }
}

/// What reading a big-endian 16-bit unsigned integer at `pos` yields.
pub open spec fn spec_read_u16(data: Seq<u8>, pos: int) -> Result<(u16, int), BufferError> {
    if pos + 2 <= data.len() {
        Ok((spec_be_u16(data[pos], data[pos + 1]) as u16, pos + 2))
    } else {
        Err(BufferError::UnexpectedEndOfData)
    }
}

/// What reading a big-endian 32-bit unsigned integer at `pos` yields.
pub open spec fn spec_read_u32(data: Seq<u8>, pos: int) -> Result<(u32, int), BufferError> {
    if pos + 4 <= data.len() {
        Ok((spec_be_u32(data[pos], data[pos + 1], data[pos + 2], data[pos + 3]) as u32, pos + 4))
    } else {
        Err(BufferError::UnexpectedEndOfData)
    }
}

/// What reading a big-endian 64-bit unsigned integer at `pos` yields.
pub open spec fn spec_read_u64(data: Seq<u8>, pos: int) -> Result<(u64, int), BufferError> {
    if pos + 8 <= data.len() {
        Ok((
            spec_be_u64(
                data[pos],
                data[pos + 1],
                data[pos + 2],
                data[pos + 3],
                data[pos + 4],
                data[pos + 5],
                data[pos + 6],
                data[pos + 7],
            ) as u64,
            pos + 8,
        ))
    } else {
        Err(BufferError::UnexpectedEndOfData)
    }
}

/// What reading a big-endian 32-bit signed integer at `pos` yields: the
/// unsigned bit pattern reinterpreted in two's complement.
pub open spec fn spec_read_i32(data: Seq<u8>, pos: int) -> Result<(i32, int), BufferError> {
    match spec_read_u32(data, pos) {
        Ok((v, p)) => Ok((v as i32, p)),
        Err(e) => Err(e),
    }
}

/// What reading a big-endian 64-bit signed integer at `pos` yields.
pub open spec fn spec_read_i64(data: Seq<u8>, pos: int) -> Result<(i64, int), BufferError> {
    match spec_read_u64(data, pos) {
        Ok((v, p)) => Ok((v as i64, p)),
        Err(e) => Err(e),
    }
}

/// What reading a span of `len` raw bytes at `pos` yields.
pub open spec fn spec_read_bytes(data: Seq<u8>, pos: int, len: int) -> Result<
    (Seq<u8>, int),
    BufferError,
> {
    if pos + len <= data.len() {
        Ok((data.subrange(pos, pos + len), pos + len))
    } else {
        Err(BufferError::UnexpectedEndOfData)
    }
}

/// What reading `len` bytes of modified UTF-8 text at `pos` yields.
pub open spec fn spec_read_utf8(data: Seq<u8>, pos: int, len: int) -> Result<
    (Seq<char>, int),
    BufferError,
> {
    match spec_read_bytes(data, pos, len) {
        Ok((bytes, p)) => match modified_utf8(bytes) {
            Some(s) => Ok((s, p)),
            None => Err(BufferError::InvalidCesu8String),
        },
        Err(e) => Err(e),
    }
}

/// A sequential, forward-only cursor of big-endian reads over a byte buffer.
/// Every read advances `pos`; a read past the end fails without moving it.
pub struct Buffer {
    pub data: Vec<u8>,
    pub pos: usize,
}

impl Buffer {
    /// The cursor never stands past the end of its data.
    pub open spec fn wf(&self) -> bool {
        self.pos <= self.data.len()
    }

    pub fn new(data: Vec<u8>) -> (r: Buffer)
        ensures
            r.data == data,
            r.pos == 0,
            r.wf(),
    {
        Buffer { data, pos: 0 }
    }

    pub fn has_more_data(&self) -> (r: bool)
        ensures
            r == (self.pos < self.data.len()),
    {
        self.pos < self.data.len()
    }

    pub fn read_u8(&mut self) -> (r: Result<u8, BufferError>)
        requires
            old(self).wf(),
        ensures
            final(self).data == old(self).data,
            final(self).wf(),
            match spec_read_u8(old(self).data@, old(self).pos as int) {
                Ok((v, p)) => r == Ok::<u8, BufferError>(v) && final(self).pos == p,
                Err(e) => r == Err::<u8, BufferError>(e) && final(self).pos == old(self).pos,
            },
    {
        if self.pos < self.data.len() {
            let b = self.data[self.pos];
            self.pos = self.pos + 1;
            Ok(b)
        } else {
            Err(BufferError::UnexpectedEndOfData)
        }
    }

    pub fn read_u16(&mut self) -> (r: Result<u16, BufferError>)
        requires
            old(self).wf(),
        ensures
            final(self).data == old(self).data,
            final(self).wf(),
            match spec_read_u16(old(self).data@, old(self).pos as int) {
                Ok((v, p)) => r == Ok::<u16, BufferError>(v) && final(self).pos == p,
                Err(e) => r == Err::<u16, BufferError>(e) && final(self).pos == old(self).pos,
            },
    {
        if 2 <= self.data.len() - self.pos {
            let b0 = self.data[self.pos];
            let b1 = self.data[self.pos + 1];
            self.pos = self.pos + 2;
            Ok((b0 as u16) * 0x100 + (b1 as u16))
        } else {
            Err(BufferError::UnexpectedEndOfData)
        }
    }

    pub fn read_u32(&mut self) -> (r: Result<u32, BufferError>)
        requires
            old(self).wf(),
        ensures
            final(self).data == old(self).data,
            final(self).wf(),
            match spec_read_u32(old(self).data@, old(self).pos as int) {
                Ok((v, p)) => r == Ok::<u32, BufferError>(v) && final(self).pos == p,
                Err(e) => r == Err::<u32, BufferError>(e) && final(self).pos == old(self).pos,
            },
    {
        if 4 <= self.data.len() - self.pos {
            let b0 = self.data[self.pos];
            let b1 = self.data[self.pos + 1];
            let b2 = self.data[self.pos + 2];
            let b3 = self.data[self.pos + 3];
            self.pos = self.pos + 4;
            Ok((b0 as u32) * 0x100_0000 + (b1 as u32) * 0x1_0000 + (b2 as u32) * 0x100 + (b3 as u32))
        } else {
            Err(BufferError::UnexpectedEndOfData)
        }
    }

    pub fn read_u64(&mut self) -> (r: Result<u64, BufferError>)
        requires
            old(self).wf(),
        ensures
            final(self).data == old(self).data,
            final(self).wf(),
            match spec_read_u64(old(self).data@, old(self).pos as int) {
                Ok((v, p)) => r == Ok::<u64, BufferError>(v) && final(self).pos == p,
                Err(e) => r == Err::<u64, BufferError>(e) && final(self).pos == old(self).pos,
            },
    {
        let hi = match self.read_u32() {
            Ok(v) => v,
            Err(e) => {
                return Err(e);
            },
        };
        match self.read_u32() {
            Ok(lo) => Ok((hi as u64) * 0x1_0000_0000 + (lo as u64)),
            Err(e) => {
                self.pos = self.pos - 4;
                Err(e)
            },
        }
    }

    pub fn read_i32(&mut self) -> (r: Result<i32, BufferError>)
        requires
            old(self).wf(),
        ensures
            final(self).data == old(self).data,
            final(self).wf(),
            match spec_read_i32(old(self).data@, old(self).pos as int) {
                Ok((v, p)) => r == Ok::<i32, BufferError>(v) && final(self).pos == p,
                Err(e) => r == Err::<i32, BufferError>(e) && final(self).pos == old(self).pos,
            },
    {
        match self.read_u32() {
            Ok(v) => Ok(#[verifier::truncate] (v as i32)),
            Err(e) => Err(e),
        }
    }

    pub fn read_i64(&mut self) -> (r: Result<i64, BufferError>)
        requires
            old(self).wf(),
        ensures
            final(self).data == old(self).data,
            final(self).wf(),
            match spec_read_i64(old(self).data@, old(self).pos as int) {
                Ok((v, p)) => r == Ok::<i64, BufferError>(v) && final(self).pos == p,
                Err(e) => r == Err::<i64, BufferError>(e) && final(self).pos == old(self).pos,
            },
    {
        match self.read_u64() {
            Ok(v) => Ok(#[verifier::truncate] (v as i64)),
            Err(e) => Err(e),
        }
    }

    pub fn read_bytes(&mut self, len: usize) -> (r: Result<Vec<u8>, BufferError>)
        requires
            old(self).wf(),
        ensures
            final(self).data == old(self).data,
            final(self).wf(),
            match spec_read_bytes(old(self).data@, old(self).pos as int, len as int) {
                Ok((v, p)) => r matches Ok(bytes) && bytes@ == v && final(self).pos == p,
                Err(e) => r == Err::<Vec<u8>, BufferError>(e) && final(self).pos == old(self).pos,
            },
    {
        if len <= self.data.len() - self.pos {
            let bytes = slice_to_vec(slice_subrange(self.data.as_slice(), self.pos, self.pos + len));
            self.pos = self.pos + len;
            Ok(bytes)
        } else {
            Err(BufferError::UnexpectedEndOfData)
        }
    }

    pub fn read_utf8(&mut self, len: usize) -> (r: Result<String, BufferError>)
        requires
            old(self).wf(),
        ensures
            final(self).data == old(self).data,
            final(self).wf(),
            match spec_read_utf8(old(self).data@, old(self).pos as int, len as int) {
                Ok((v, p)) => r matches Ok(s) && s@ == v && final(self).pos == p,
                Err(e) => r == Err::<String, BufferError>(e) && final(self).pos
                    == if e is InvalidCesu8String {
                    old(self).pos + len
                } else {
                    old(self).pos as int
                },
            },
    {
        let bytes = match self.read_bytes(len) {
            Ok(b) => b,
            Err(e) => {
                return Err(e);
            },
        };
        decode_java_utf8(&bytes)
    }
}

} // verus!
