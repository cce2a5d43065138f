//! A position in a byte buffer, and the reads that move it.
use crate::reader_error::IoFailure;
use crate::reader_error::ReaderError;
use byteorder::ByteOrder;
use byteorder::LittleEndian;
use vstd::prelude::*;
use vstd::slice::slice_subrange;

verus! {

/// True when `n` bytes lie at `p` and after it in `s`.
pub open spec fn has_bytes(s: Seq<u8>, p: int, n: int) -> bool {
    0 <= p && 0 <= n && p + n <= s.len()
}

/// The 16-bit number whose low byte is `s[p]`.
pub open spec fn le16_at(s: Seq<u8>, p: int) -> u16
    recommends
        has_bytes(s, p, 2),
{
    (s[p] as int + 0x100 * (s[p + 1] as int)) as u16
}

/// The 32-bit number whose lowest byte is `s[p]`.
pub open spec fn le32_at(s: Seq<u8>, p: int) -> u32
    recommends
        has_bytes(s, p, 4),
{
    (s[p] as int + 0x100 * (s[p + 1] as int) + 0x1_0000 * (s[p + 2] as int) + 0x100_0000 * (s[p
        + 3] as int)) as u32
}

/// The 64-bit number whose lowest byte is `s[p]`.
pub open spec fn le64_at(s: Seq<u8>, p: int) -> u64
    recommends
        has_bytes(s, p, 8),
{
    (le32_at(s, p) as int + 0x1_0000_0000 * (le32_at(s, p + 4) as int)) as u64
}

/// The first position at or after `p` that holds a byte other than zero,
/// or the length of `s` when only zeros follow.
pub open spec fn first_nonzero(s: Seq<u8>, p: int) -> int
    decreases s.len() - p,
{
    if p < 0 || p >= s.len() {
        s.len() as int
    } else if s[p] != 0 {
        p
    } else {
        first_nonzero(s, p + 1)
    }
}

/// `byteorder::LittleEndian::read_u16`: the first two bytes of the slice
/// as a little-endian number. It panics on a shorter slice.
#[verifier::external_body]
fn le_u16(buf: &[u8]) -> (value: u16)
    requires
        buf@.len() >= 2,
    ensures
        value == le16_at(buf@, 0),
{
    LittleEndian::read_u16(buf)
}

/// `byteorder::LittleEndian::read_u32`: the first four bytes of the slice
/// as a little-endian number. It panics on a shorter slice.
#[verifier::external_body]
fn le_u32(buf: &[u8]) -> (value: u32)
    requires
        buf@.len() >= 4,
    ensures
        value == le32_at(buf@, 0),
{
    LittleEndian::read_u32(buf)
}

/// `byteorder::LittleEndian::read_u64`: the first eight bytes of the slice
/// as a little-endian number. It panics on a shorter slice.
#[verifier::external_body]
fn le_u64(buf: &[u8]) -> (value: u64)
    requires
        buf@.len() >= 8,
    ensures
        value == le64_at(buf@, 0),
{
    LittleEndian::read_u64(buf)
}

/// A byte buffer with a read position in it.
///
/// A read that finds too few bytes fails with `Truncated` and leaves the
/// position at the end of the buffer.
pub struct ByteCursor<'a> {
    data: &'a [u8],
    pos: usize,
}

impl<'a> ByteCursor<'a> {
    /// The bytes of the buffer.
    pub closed spec fn bytes(&self) -> Seq<u8> {
        self.data@
    }

    /// The read position.
    pub closed spec fn position(&self) -> int {
        self.pos as int
    }

    /// The position lies in the buffer or at its end.
    pub open spec fn wf(&self) -> bool {
        0 <= self.position() <= self.bytes().len()
    }

    /// A cursor at the start of `data`.
    pub fn new(data: &'a [u8]) -> (cursor: Self)
        ensures
            cursor.wf(),
            cursor.bytes() == data@,
            cursor.position() == 0,
    {
        ByteCursor { data, pos: 0 }
    }

    /// The read position.
    pub fn pos(&self) -> (p: usize)
        ensures
            p == self.position(),
    {
        self.pos
    }

    /// The number of bytes from the position to the end.
    pub fn remaining(&self) -> (n: usize)
        requires
            self.wf(),
        ensures
            n == self.bytes().len() - self.position(),
    {
        self.data.len() - self.pos
    }

    /// The whole buffer.
    pub fn buffer(&self) -> (data: &'a [u8])
        ensures
            data@ == self.bytes(),
    {
        self.data
    }

    /// Reads one byte.
    pub fn read_u8(&mut self) -> (r: Result<u8, ReaderError>)
        requires
            old(self).wf(),
        ensures
            final(self).wf(),
            final(self).bytes() == old(self).bytes(),
            has_bytes(old(self).bytes(), old(self).position(), 1) ==> r == Ok::<u8, ReaderError>(
                old(self).bytes()[old(self).position()],
            ) && final(self).position() == old(self).position() + 1,
            !has_bytes(old(self).bytes(), old(self).position(), 1) ==> r == Err::<u8, ReaderError>(
                ReaderError::truncated(),
            ) && final(self).position() == old(self).bytes().len(),
    {
        if self.pos < self.data.len() {
            let b = self.data[self.pos];
            self.pos = self.pos + 1;
            Ok(b)
        } else {
            Err(ReaderError::IoError(IoFailure::Truncated))
        }
    }

    /// Reads a little-endian 16-bit number.
    pub fn read_u16(&mut self) -> (r: Result<u16, ReaderError>)
        requires
            old(self).wf(),
        ensures
            final(self).wf(),
            final(self).bytes() == old(self).bytes(),
            has_bytes(old(self).bytes(), old(self).position(), 2) ==> r == Ok::<u16, ReaderError>(
                le16_at(old(self).bytes(), old(self).position()),
            ) && final(self).position() == old(self).position() + 2,
            !has_bytes(old(self).bytes(), old(self).position(), 2) ==> r == Err::<
                u16,
                ReaderError,
            >(ReaderError::truncated()) && final(self).position() == old(self).bytes().len(),
    {
        if self.data.len() - self.pos >= 2 {
            let v = le_u16(slice_subrange(self.data, self.pos, self.pos + 2));
            self.pos = self.pos + 2;
            Ok(v)
        } else {
            self.pos = self.data.len();
            Err(ReaderError::IoError(IoFailure::Truncated))
        }
    }

    /// Reads a little-endian 32-bit number.
    pub fn read_u32(&mut self) -> (r: Result<u32, ReaderError>)
        requires
            old(self).wf(),
        ensures
            final(self).wf(),
            final(self).bytes() == old(self).bytes(),
            has_bytes(old(self).bytes(), old(self).position(), 4) ==> r == Ok::<u32, ReaderError>(
                le32_at(old(self).bytes(), old(self).position()),
            ) && final(self).position() == old(self).position() + 4,
            !has_bytes(old(self).bytes(), old(self).position(), 4) ==> r == Err::<
                u32,
                ReaderError,
            >(ReaderError::truncated()) && final(self).position() == old(self).bytes().len(),
    {
        if self.data.len() - self.pos >= 4 {
            let v = le_u32(slice_subrange(self.data, self.pos, self.pos + 4));
            self.pos = self.pos + 4;
            Ok(v)
        } else {
            self.pos = self.data.len();
            Err(ReaderError::IoError(IoFailure::Truncated))
        }
    }

    /// Reads a little-endian 64-bit number.
    pub fn read_u64(&mut self) -> (r: Result<u64, ReaderError>)
        requires
            old(self).wf(),
        ensures
            final(self).wf(),
            final(self).bytes() == old(self).bytes(),
            has_bytes(old(self).bytes(), old(self).position(), 8) ==> r == Ok::<u64, ReaderError>(
                le64_at(old(self).bytes(), old(self).position()),
            ) && final(self).position() == old(self).position() + 8,
            !has_bytes(old(self).bytes(), old(self).position(), 8) ==> r == Err::<
                u64,
                ReaderError,
            >(ReaderError::truncated()) && final(self).position() == old(self).bytes().len(),
    {
        if self.data.len() - self.pos >= 8 {
            let v = le_u64(slice_subrange(self.data, self.pos, self.pos + 8));
            self.pos = self.pos + 8;
            Ok(v)
        } else {
            self.pos = self.data.len();
            Err(ReaderError::IoError(IoFailure::Truncated))
        }
    }

    /// Takes the next `n` bytes out of the buffer.
    pub fn take(&mut self, n: usize) -> (r: Result<&'a [u8], ReaderError>)
        requires
            old(self).wf(),
        ensures
            final(self).wf(),
            final(self).bytes() == old(self).bytes(),
            has_bytes(old(self).bytes(), old(self).position(), n as int) ==> r is Ok
                && r->Ok_0@ == old(self).bytes().subrange(
                old(self).position(),
                old(self).position() + n,
            ) && final(self).position() == old(self).position() + n,
            !has_bytes(old(self).bytes(), old(self).position(), n as int) ==> r is Err
                && r->Err_0 == ReaderError::truncated() && final(self).position() == old(self).bytes().len(),
    {
        if self.data.len() - self.pos >= n {
            let out = slice_subrange(self.data, self.pos, self.pos + n);
            self.pos = self.pos + n;
            Ok(out)
        } else {
            self.pos = self.data.len();
            Err(ReaderError::IoError(IoFailure::Truncated))
        }
    }

    /// Moves the position `n` bytes on, or to the end of the buffer where
    /// fewer are left.
    pub fn skip(&mut self, n: usize)
        requires
            old(self).wf(),
        ensures
            final(self).wf(),
            final(self).bytes() == old(self).bytes(),
            final(self).position() == skip_to(old(self).bytes(), old(self).position(), n as int),
    {
        if self.data.len() - self.pos >= n {
            self.pos = self.pos + n;
        } else {
            self.pos = self.data.len();
        }
    }

    /// Moves the position one byte back.
    pub fn unread(&mut self)
        requires
            old(self).wf(),
            old(self).position() > 0,
        ensures
            final(self).wf(),
            final(self).bytes() == old(self).bytes(),
            final(self).position() == old(self).position() - 1,
    {
        self.pos = self.pos - 1;
    }

    /// Moves the position over zero bytes to the first byte that is not
    /// zero, which is not consumed. Returns `false`, with the position at
    /// the end, when the buffer holds only zeros from the position on.
    pub fn skip_zeros(&mut self) -> (found: bool)
        requires
            old(self).wf(),
        ensures
            final(self).wf(),
            final(self).bytes() == old(self).bytes(),
            final(self).position() == first_nonzero(old(self).bytes(), old(self).position()),
            found == (final(self).position() < old(self).bytes().len()),
    {
        loop
            invariant
                self.wf(),
                self.bytes() == old(self).bytes(),
                old(self).position() <= self.position(),
                first_nonzero(self.bytes(), self.position()) == first_nonzero(
                    old(self).bytes(),
                    old(self).position(),
                ),
            decreases self.bytes().len() - self.position(),
        {
            match self.read_u8() {
                Ok(byte) => {
                    if byte != 0 {
                        self.unread();
                        return true;
                    }
                },
                Err(_) => {
                    return false;
                },
            }
        }
    }
}

/// Where a skip of `n` bytes from `p` ends: `n` bytes on, or at the end
/// of `s` where fewer are left.
pub open spec fn skip_to(s: Seq<u8>, p: int, n: int) -> int {
    if p + n <= s.len() {
        p + n
    } else {
        s.len() as int
    }
}

} // verus!
