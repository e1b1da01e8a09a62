use vstd::prelude::*;
use crate::error::ZipError;

verus! {

/// The 16-bit value whose little-endian bytes stand at `at` and `at + 1`.
pub open spec fn le_u16(bytes: Seq<u8>, at: int) -> u16 {
    (bytes[at] as int + 256 * bytes[at + 1] as int) as u16
}

/// The 32-bit value whose little-endian bytes stand at `at` to `at + 3`.
pub open spec fn le_u32(bytes: Seq<u8>, at: int) -> u32 {
    (bytes[at] as int + 256 * bytes[at + 1] as int + 65536 * bytes[at + 2] as int + 16777216
        * bytes[at + 3] as int) as u32
}

/// Reads a little-endian 16-bit value from a buffer.
pub fn read_u16_le(bytes: &[u8], at: usize) -> (value: u16)
    requires
        at + 2 <= bytes@.len(),
    ensures
        value == le_u16(bytes@, at as int),
{
    let b0: u16 = bytes[at] as u16;
    let b1: u16 = bytes[at + 1] as u16;
    b0 + 256 * b1
}

/// Reads a little-endian 32-bit value from a buffer.
pub fn read_u32_le(bytes: &[u8], at: usize) -> (value: u32)
    requires
        at + 4 <= bytes@.len(),
    ensures
        value == le_u32(bytes@, at as int),
{
    let b0: u32 = bytes[at] as u32;
    let b1: u32 = bytes[at + 1] as u32;
    let b2: u32 = bytes[at + 2] as u32;
    let b3: u32 = bytes[at + 3] as u32;
    b0 + 256 * b1 + 65536 * b2 + 16777216 * b3
}

/// An archive's bytes with a read position: the seekable, readable source
/// that every decoder works on. The position may stand past the end; a read
/// there fails.
pub struct ByteSource {
    pub data: Vec<u8>,
    pub pos: u64,
}

impl ByteSource {
    /// Whether `n` bytes can be read at the current position.
    pub open spec fn can_read(&self, n: int) -> bool {
        self.pos + n <= self.data@.len()
    }

    /// A source over `data`, positioned at its first byte.
    pub fn new(data: Vec<u8>) -> (source: ByteSource)
        ensures
            source.data@ == data@,
            source.pos == 0,
    {
        ByteSource { data, pos: 0 }
    }

    /// The number of bytes in the source.
    pub fn len(&self) -> (n: usize)
        ensures
            n == self.data@.len(),
    {
        self.data.len()
    }

    /// The current read position.
    pub fn position(&self) -> (pos: u64)
        ensures
            pos == self.pos,
    {
        self.pos
    }

    /// Moves the read position to `offset`, counted from the start. Any
    /// offset is accepted.
    pub fn seek_start(&mut self, offset: u64)
        ensures
            final(self).data@ == old(self).data@,
            final(self).pos == offset,
    {
        self.pos = offset;
    }

    /// Moves the read position forward by `n` bytes without reading them,
    /// possibly past the end. Fails with `IoFailure`, leaving the position
    /// where it was, exactly when the new position would not fit in 64 bits.
    pub fn skip(&mut self, n: u64) -> (moved: Result<u64, ZipError>)
        ensures
            final(self).data@ == old(self).data@,
            old(self).pos + n <= u64::MAX ==> moved == Ok::<u64, ZipError>(final(self).pos)
                && final(self).pos == old(self).pos + n,
            old(self).pos + n > u64::MAX ==> moved == Err::<u64, ZipError>(ZipError::IoFailure)
                && final(self).pos == old(self).pos,
    {
        if u64::MAX - self.pos < n {
            Err(ZipError::IoFailure)
        } else {
            self.pos = self.pos + n;
            Ok(self.pos)
        }
    }

    /// Reads exactly `n` bytes at the read position and moves past them.
    /// Fails with `IoFailure`, leaving the position where it was, exactly
    /// when fewer than `n` bytes are left.
    pub fn read_exact(&mut self, n: usize) -> (read: Result<Vec<u8>, ZipError>)
        ensures
            final(self).data@ == old(self).data@,
            old(self).can_read(n as int) ==> (read matches Ok(bytes)
                && bytes@ == old(self).data@.subrange(old(self).pos as int, old(self).pos + n)
                && final(self).pos == old(self).pos + n),
            !old(self).can_read(n as int) ==> (read matches Err(e) && e == ZipError::IoFailure
                && final(self).pos == old(self).pos),
    {
        let len: usize = self.data.len();
        if self.pos > len as u64 || len as u64 - self.pos < n as u64 {
            return Err(ZipError::IoFailure);
        }
        let start: usize = self.pos as usize;
        let mut bytes: Vec<u8> = Vec::with_capacity(n);
        let mut i: usize = 0;
        while i < n
            invariant
                i <= n,
                len == self.data@.len(),
                start + n <= len,
                bytes@ == self.data@.subrange(start as int, start + i),
            decreases n - i,
        {
            bytes.push(self.data[start + i]);
            i = i + 1;
        }
        self.pos = self.pos + n as u64;
        Ok(bytes)
    }
}

} // verus!
