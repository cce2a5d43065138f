//! Strings as they lie in the bytes: UTF-16, UTF-8 and Windows-1252, each
//! either of a given length or ended by a zero.
use crate::cursor::has_bytes;
use crate::cursor::le16_at;
use crate::cursor::ByteCursor;
use crate::reader_error::ReaderError;
use encoding_rs::WINDOWS_1252;
use std::char::DecodeUtf16Error;
use std::str::Utf8Error;
use vstd::prelude::*;
use vstd::slice::slice_subrange;
use vstd::utf8::decode_utf8;
use vstd::utf8::valid_utf8;

pub mod rot13;

pub use rot13::Rot13;

verus! {

/// The first position at or after `p` that holds a zero byte, or the
/// length of `s` when none follows.
pub open spec fn first_zero(s: Seq<u8>, p: int) -> int
    decreases s.len() - p,
{
    if p < 0 || p >= s.len() {
        s.len() as int
    } else if s[p] == 0 {
        p
    } else {
        first_zero(s, p + 1)
    }
}

/// The bytes of `s` before its first zero byte.
pub open spec fn until_zero(s: Seq<u8>) -> Seq<u8> {
    s.take(first_zero(s, 0))
}

/// The first index at or after `i` of a zero in `units`, or their number
/// when none follows.
pub open spec fn first_zero_unit(units: Seq<u16>, i: int) -> int
    decreases units.len() - i,
{
    if i < 0 || i >= units.len() {
        units.len() as int
    } else if units[i] == 0 {
        i
    } else {
        first_zero_unit(units, i + 1)
    }
}

/// The `n` little-endian 16-bit units that start at `p`.
pub open spec fn units_at(s: Seq<u8>, p: int, n: int) -> Seq<u16> {
    Seq::new(n as nat, |i: int| le16_at(s, p + 2 * i))
}

/// The number of 16-bit units from `p` before the first that is zero,
/// or before the buffer holds no further whole unit.
pub open spec fn units_before_zero(s: Seq<u8>, p: int) -> int
    decreases s.len() - p,
{
    if !has_bytes(s, p, 2) || le16_at(s, p) == 0 {
        0
    } else {
        1 + units_before_zero(s, p + 2)
    }
}

/// True for a 16-bit unit that is one half of a surrogate pair.
pub open spec fn is_surrogate(u: u16) -> bool {
    0xD800 <= u <= 0xDFFF
}

/// The text that UTF-16 units stand for, or `None` where a surrogate
/// stands without its partner.
pub open spec fn utf16_chars(units: Seq<u16>) -> Option<Seq<char>>
    decreases units.len(),
{
    if units.len() == 0 {
        Some(Seq::empty())
    } else if !is_surrogate(units[0]) {
        match utf16_chars(units.skip(1)) {
            Some(rest) => Some(seq![units[0] as u32 as char] + rest),
            None => None,
        }
    } else if units[0] <= 0xDBFF && units.len() >= 2 && 0xDC00 <= units[1] <= 0xDFFF {
        match utf16_chars(units.skip(2)) {
            Some(rest) => Some(
                seq![(0x1_0000 + (units[0] - 0xD800) * 0x400 + (units[1] - 0xDC00)) as u32 as char]
                    + rest,
            ),
            None => None,
        }
    } else {
        None
    }
}

/// What decoding `units` as UTF-16 gives.
pub open spec fn utf16_text(units: Seq<u16>) -> Result<Seq<char>, ReaderError> {
    match utf16_chars(units) {
        Some(text) => Ok(text),
        None => Err(ReaderError::Utf16Error),
    }
}

/// What decoding `bytes` as UTF-8 gives.
pub open spec fn utf8_text(bytes: Seq<u8>) -> Result<Seq<char>, ReaderError> {
    if valid_utf8(bytes) {
        Ok(decode_utf8(bytes))
    } else {
        Err(ReaderError::Utf8Error)
    }
}

/// What `encoding_rs::WINDOWS_1252.decode` returns for `bytes`: the text,
/// and whether it met a sequence that it had to replace.
pub uninterp spec fn windows_1252_decoded(bytes: Seq<u8>) -> (Seq<char>, bool);

/// What decoding `bytes` as Windows-1252 gives.
pub open spec fn cp1252_text(bytes: Seq<u8>) -> Result<Seq<char>, ReaderError> {
    if windows_1252_decoded(bytes).1 {
        Err(ReaderError::CP1252Error)
    } else {
        Ok(windows_1252_decoded(bytes).0)
    }
}

/// What `read_utf16_string` decodes at `p`, and where it leaves the
/// position.
pub open spec fn spec_read_utf16_string(s: Seq<u8>, p: int, len: Option<usize>) -> (
    Result<Seq<char>, ReaderError>,
    int,
) {
    match len {
        Some(n) => if has_bytes(s, p, 2 * n) {
            let units = units_at(s, p, n as int);
            (utf16_text(units.take(first_zero_unit(units, 0))), p + 2 * n)
        } else {
            (Err(ReaderError::truncated()), s.len() as int)
        },
        None => {
            let n = units_before_zero(s, p);
            if has_bytes(s, p + 2 * n, 2) {
                (utf16_text(units_at(s, p, n)), p + 2 * n + 2)
            } else {
                (Err(ReaderError::truncated()), s.len() as int)
            }
        },
    }
}

/// What `read_utf8_string` decodes at `p`, and where it leaves the
/// position.
pub open spec fn spec_read_utf8_string(s: Seq<u8>, p: int, len: Option<usize>) -> (
    Result<Seq<char>, ReaderError>,
    int,
) {
    match len {
        Some(n) => if has_bytes(s, p, n as int) {
            (utf8_text(until_zero(s.subrange(p, p + n))), p + n)
        } else {
            (Err(ReaderError::truncated()), s.len() as int)
        },
        None => {
            let z = first_zero(s, p);
            if has_bytes(s, p, 0) && z < s.len() {
                (utf8_text(s.subrange(p, z)), z + 1)
            } else {
                (Err(ReaderError::truncated()), s.len() as int)
            }
        },
    }
}

/// What `read_cp1252_string` decodes at `p`, and where it leaves the
/// position.
pub open spec fn spec_read_cp1252_string(s: Seq<u8>, p: int, len: Option<usize>) -> (
    Result<Seq<char>, ReaderError>,
    int,
) {
    match len {
        Some(n) => if has_bytes(s, p, n as int) {
            (cp1252_text(s.subrange(p, p + n)), p + n)
        } else {
            (Err(ReaderError::truncated()), s.len() as int)
        },
        None => {
            let z = first_zero(s, p);
            if has_bytes(s, p, 0) && z < s.len() {
                (cp1252_text(s.subrange(p, z)), z + 1)
            } else {
                (Err(ReaderError::truncated()), s.len() as int)
            }
        },
    }
}

/// The text of a decoded string, with the error kept as it is.
pub open spec fn text_of(r: Result<String, ReaderError>) -> Result<Seq<char>, ReaderError> {
    match r {
        Ok(text) => Ok(text@),
        Err(e) => Err(e),
    }
}

/// `std::str::from_utf8`: the bytes as text where they are UTF-8, else
/// the error.
#[verifier::external_body]
fn utf8_to_string(bytes: &[u8]) -> (r: Result<String, Utf8Error>)
    ensures
        r is Ok <==> valid_utf8(bytes@),
        r is Ok ==> r->Ok_0@ == decode_utf8(bytes@),
{
    std::str::from_utf8(bytes).map(|text| text.to_string())
}

/// `std::char::decode_utf16`, collected: the text of the units, or the
/// error of the first surrogate that stands without its partner.
#[verifier::external_body]
fn utf16_to_string(units: &[u16]) -> (r: Result<String, DecodeUtf16Error>)
    ensures
        r is Ok <==> utf16_chars(units@) is Some,
        r is Ok ==> Some(r->Ok_0@) == utf16_chars(units@),
{
    std::char::decode_utf16(units.iter().copied()).collect()
}

/// `encoding_rs::WINDOWS_1252.decode`: the decoded text and whether a
/// sequence was replaced. The call panics where three times the length,
/// and a little more, does not fit the machine's word.
#[verifier::external_body]
fn windows_1252_decode(bytes: &[u8]) -> (r: (String, bool))
    requires
        8 * bytes@.len() <= usize::MAX,
    ensures
        (r.0@, r.1) == windows_1252_decoded(bytes@),
{
    let (text, _, had_errors) = WINDOWS_1252.decode(bytes);
    (text.into_owned(), had_errors)
}

/// The position of the first zero byte at or after `from`.
fn find_zero(buf: &[u8], from: usize) -> (z: usize)
    requires
        from <= buf@.len(),
    ensures
        z == first_zero(buf@, from as int),
        from <= z <= buf@.len(),
{
    let mut i: usize = from;
    while i < buf.len() && buf[i] != 0
        invariant
            from <= i <= buf@.len(),
            first_zero(buf@, i as int) == first_zero(buf@, from as int),
        decreases buf@.len() - i,
    {
        i = i + 1;
    }
    i
}

/// Takes from the stream the bytes of a string: `len` bytes, or all up to
/// a zero byte, which is consumed.
fn take_string_bytes<'a>(stream: &mut ByteCursor<'a>, len: Option<usize>) -> (r: Result<
    &'a [u8],
    ReaderError,
>)
    requires
        old(stream).wf(),
    ensures
        final(stream).wf(),
        final(stream).bytes() == old(stream).bytes(),
        r is Ok ==> r->Ok_0@.len() <= old(stream).bytes().len(),
        match len {
            Some(n) => if has_bytes(old(stream).bytes(), old(stream).position(), n as int) {
                r is Ok && r->Ok_0@ == old(stream).bytes().subrange(
                    old(stream).position(),
                    old(stream).position() + n,
                ) && final(stream).position() == old(stream).position() + n
            } else {
                r == Err::<&[u8], ReaderError>(ReaderError::truncated()) && final(stream).position()
                    == old(stream).bytes().len()
            },
            None => {
                let z = first_zero(old(stream).bytes(), old(stream).position());
                if z < old(stream).bytes().len() {
                    r is Ok && r->Ok_0@ == old(stream).bytes().subrange(old(stream).position(), z)
                        && final(stream).position() == z + 1
                } else {
                    r == Err::<&[u8], ReaderError>(ReaderError::truncated()) && final(stream).position() == old(stream).bytes().len()
                }
            },
        },
{
    match len {
        Some(n) => stream.take(n),
        None => {
            let buf = stream.buffer();
            let start = stream.pos();
            let z = find_zero(buf, start);
            if z < buf.len() {
                let out = stream.take(z - start)?;
                stream.skip(1);
                Ok(out)
            } else {
                stream.skip(buf.len() - start);
                Err(ReaderError::truncated_error())
            }
        },
    }
}

/// Reads a UTF-16LE string from the stream: `len` units, of which those
/// before the first zero count, or all units up to a zero unit, which is
/// consumed.
pub fn read_utf16_string(stream: &mut ByteCursor, len: Option<usize>) -> (r: Result<
    String,
    ReaderError,
>)
    requires
        old(stream).wf(),
    ensures
        final(stream).wf(),
        final(stream).bytes() == old(stream).bytes(),
        (text_of(r), final(stream).position()) == spec_read_utf16_string(
            old(stream).bytes(),
            old(stream).position(),
            len,
        ),
{
    let ghost s = stream.bytes();
    let ghost p = stream.position();
    let mut buffer: Vec<u16> = Vec::new();
    match len {
        Some(n) => {
            if stream.remaining() / 2 < n {
                stream.skip(stream.remaining());
                return Err(ReaderError::truncated_error());
            }
            let mut i: usize = 0;
            let mut open = true;
            while i < n
                invariant
                    stream.wf(),
                    stream.bytes() == s,
                    s == old(stream).bytes(),
                    p == old(stream).position(),
                    i <= n,
                    p + 2 * n <= s.len(),
                    stream.position() == p + 2 * i,
                    open ==> buffer@ == units_at(s, p, i as int) && first_zero_unit(
                        units_at(s, p, n as int),
                        0,
                    ) == first_zero_unit(units_at(s, p, n as int), i as int),
                    !open ==> buffer@ == units_at(s, p, n as int).take(
                        first_zero_unit(units_at(s, p, n as int), 0),
                    ),
                decreases n - i,
            {
                let unit = match stream.read_u16() {
                    Ok(u) => u,
                    Err(e) => {
                        return Err(e);
                    },
                };
                if open {
                    assert(units_at(s, p, n as int)[i as int] == unit);
                    if unit == 0 {
                        open = false;
                        proof {
                            assert(buffer@ =~= units_at(s, p, n as int).take(i as int));
                        }
                    } else {
                        buffer.push(unit);
                        proof {
                            assert(buffer@ =~= units_at(s, p, i + 1));
                        }
                    }
                }
                i = i + 1;
            }
            proof {
                if open {
                    assert(units_at(s, p, n as int).len() == n);
                    assert(buffer@ =~= units_at(s, p, n as int).take(n as int));
                }
            }
        },
        None => {
            loop
                invariant_except_break
                    stream.position() == p + 2 * buffer@.len(),
                    units_before_zero(s, p) == buffer@.len() + units_before_zero(
                        s,
                        stream.position(),
                    ),
                invariant
                    stream.wf(),
                    stream.bytes() == s,
                    s == old(stream).bytes(),
                    p == old(stream).position(),
                    0 <= p,
                    len is None,
                    buffer@ == units_at(s, p, buffer@.len() as int),
                ensures
                    units_before_zero(s, p) == buffer@.len(),
                    has_bytes(s, p + 2 * buffer@.len(), 2),
                    stream.position() == p + 2 * buffer@.len() + 2,
                decreases s.len() - stream.position(),
            {
                let unit = match stream.read_u16() {
                    Ok(u) => u,
                    Err(e) => {
                        return Err(e);
                    },
                };
                if unit == 0 {
                    break ;
                }
                buffer.push(unit);
                proof {
                    assert(buffer@ =~= units_at(s, p, buffer@.len() as int));
                }
            }
        },
    }
    match utf16_to_string(buffer.as_slice()) {
        Ok(text) => Ok(text),
        Err(e) => Err(ReaderError::from(e)),
    }
}

/// Reads a UTF-8 string from the stream: `len` bytes, of which those
/// before the first zero count, or all bytes up to a zero byte, which is
/// consumed.
pub fn read_utf8_string(stream: &mut ByteCursor, len: Option<usize>) -> (r: Result<
    String,
    ReaderError,
>)
    requires
        old(stream).wf(),
    ensures
        final(stream).wf(),
        final(stream).bytes() == old(stream).bytes(),
        (text_of(r), final(stream).position()) == spec_read_utf8_string(
            old(stream).bytes(),
            old(stream).position(),
            len,
        ),
{
    let raw = take_string_bytes(stream, len)?;
    let cut = match len {
        Some(_) => slice_subrange(raw, 0, find_zero(raw, 0)),
        None => raw,
    };
    match utf8_to_string(cut) {
        Ok(text) => Ok(text),
        Err(e) => Err(ReaderError::from(e)),
    }
}

/// Reads a string of one byte per character, taken as Windows-1252, from
/// the stream: `len` bytes, or all bytes up to a zero byte, which is
/// consumed.
pub fn read_cp1252_string(stream: &mut ByteCursor, len: Option<usize>) -> (r: Result<
    String,
    ReaderError,
>)
    requires
        old(stream).wf(),
        8 * old(stream).bytes().len() <= usize::MAX,
    ensures
        final(stream).wf(),
        final(stream).bytes() == old(stream).bytes(),
        (text_of(r), final(stream).position()) == spec_read_cp1252_string(
            old(stream).bytes(),
            old(stream).position(),
            len,
        ),
{
    let raw = take_string_bytes(stream, len)?;
    assert(raw@.len() <= stream.bytes().len());
    let (text, had_errors) = windows_1252_decode(raw);
    if had_errors {
        Err(ReaderError::CP1252Error)
    } else {
        Ok(text)
    }
}

} // verus!
