//! A string that follows the count of its characters.
use crate::cursor::has_bytes;
use crate::cursor::le16_at;
use crate::cursor::ByteCursor;
use crate::reader_error::ReaderError;
use crate::utils::read_cp1252_string;
use crate::utils::read_utf16_string;
use crate::utils::read_utf8_string;
use crate::utils::spec_read_cp1252_string;
use crate::utils::spec_read_utf16_string;
use crate::utils::spec_read_utf8_string;
use vstd::prelude::*;

verus! {

/// A 16-bit count and the string of that many characters.
#[derive(Debug)]
pub struct StringData {
    pub size: u16,
    pub string: String,
}

/// What a `StringData` holds.
pub struct StringDataView {
    pub size: u16,
    pub string: Seq<char>,
}

impl View for StringData {
    type V = StringDataView;

    open spec fn view(&self) -> StringDataView {
        StringDataView { size: self.size, string: self.string@ }
    }
}

/// The three ways in which the characters are written.
#[derive(Clone, Copy, Debug, PartialEq, Eq, Structural)]
pub enum StringEncoding {
    Utf16,
    Utf8,
    Cp1252,
}

/// What reading a string of `len` characters in `encoding` gives at `p`.
pub open spec fn spec_read_string(s: Seq<u8>, p: int, len: usize, encoding: StringEncoding) -> (
    Result<Seq<char>, ReaderError>,
    int,
) {
    match encoding {
        StringEncoding::Utf16 => spec_read_utf16_string(s, p, Some(len)),
        StringEncoding::Utf8 => spec_read_utf8_string(s, p, Some(len)),
        StringEncoding::Cp1252 => spec_read_cp1252_string(s, p, Some(len)),
    }
}

/// What decoding a counted string at `p` gives, and where it leaves the
/// position.
pub open spec fn spec_string_data(s: Seq<u8>, p: int, encoding: StringEncoding) -> (
    Result<StringDataView, ReaderError>,
    int,
) {
    if !has_bytes(s, p, 2) {
        (Err(ReaderError::truncated()), s.len() as int)
    } else {
        let size = le16_at(s, p);
        match spec_read_string(s, p + 2, size as usize, encoding) {
            (Ok(string), q) => (Ok(StringDataView { size, string }), q),
            (Err(e), q) => (Err(e), q),
        }
    }
}

/// What a decoded string holds, with the error kept as it is.
pub open spec fn string_data_of(r: Result<StringData, ReaderError>) -> Result<
    StringDataView,
    ReaderError,
> {
    match r {
        Ok(data) => Ok(data@),
        Err(e) => Err(e),
    }
}

impl StringData {
    /// Decodes a counted UTF-16 string at the start of `buf`.
    pub fn from_buffer(buf: &[u8]) -> (r: Result<StringData, ReaderError>)
        ensures
            string_data_of(r) == spec_string_data(buf@, 0, StringEncoding::Utf16).0,
    {
        let mut stream = ByteCursor::new(buf);
        StringData::from_reader(&mut stream)
    }

    /// Decodes a counted UTF-16 string at the position of the stream.
    pub fn from_reader(r: &mut ByteCursor) -> (res: Result<StringData, ReaderError>)
        requires
            old(r).wf(),
        ensures
            final(r).wf(),
            final(r).bytes() == old(r).bytes(),
            (string_data_of(res), final(r).position()) == spec_string_data(
                old(r).bytes(),
                old(r).position(),
                StringEncoding::Utf16,
            ),
    {
        let size = r.read_u16()?;
        let string = read_utf16_string(r, Some(size as usize))?;
        Ok(StringData { size, string })
    }

    /// Decodes a counted UTF-8 string at the position of the stream.
    pub fn from_reader_utf8(r: &mut ByteCursor) -> (res: Result<StringData, ReaderError>)
        requires
            old(r).wf(),
        ensures
            final(r).wf(),
            final(r).bytes() == old(r).bytes(),
            (string_data_of(res), final(r).position()) == spec_string_data(
                old(r).bytes(),
                old(r).position(),
                StringEncoding::Utf8,
            ),
    {
        let size = r.read_u16()?;
        let string = read_utf8_string(r, Some(size as usize))?;
        Ok(StringData { size, string })
    }

    /// Decodes a counted Windows-1252 string at the position of the
    /// stream.
    pub fn from_reader_cp1252(r: &mut ByteCursor) -> (res: Result<StringData, ReaderError>)
        requires
            old(r).wf(),
            8 * old(r).bytes().len() <= usize::MAX,
        ensures
            final(r).wf(),
            final(r).bytes() == old(r).bytes(),
            (string_data_of(res), final(r).position()) == spec_string_data(
                old(r).bytes(),
                old(r).position(),
                StringEncoding::Cp1252,
            ),
    {
        let size = r.read_u16()?;
        let string = read_cp1252_string(r, Some(size as usize))?;
        Ok(StringData { size, string })
    }

    /// The string.
    pub fn to_string(&self) -> (text: String)
        ensures
            text@ == self@.string,
    {
        self.string.clone()
    }
}

} // verus!
