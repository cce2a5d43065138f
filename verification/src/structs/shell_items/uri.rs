//! The shell item of a URI.
use super::Name;
use crate::cursor::first_nonzero;
use crate::cursor::has_bytes;
use crate::cursor::le16_at;
use crate::cursor::le32_at;
use crate::cursor::le64_at;
use crate::cursor::skip_to;
use crate::cursor::ByteCursor;
use crate::date_time::FileTime;
use crate::reader_error::ReaderError;
use crate::structs::extra_data_block::block_view;
use crate::structs::extra_data_block::spec_extra_block_or_none;
use crate::structs::extra_data_block::ExtraDataBlock;
use crate::structs::extra_data_block::ExtraDataBlockView;
use crate::text::opt_text;
use crate::utils::read_utf16_string;
use crate::utils::read_utf8_string;
use crate::utils::spec_read_utf16_string;
use crate::utils::spec_read_utf8_string;
use crate::utils::text_of;
use vstd::prelude::*;

verus! {

/// A URI, with the time of the connection and three strings where the
/// item holds them, and the extension block where one follows and
/// decodes.
#[derive(Debug)]
pub struct URIShellItem {
    pub connect_time: Option<FileTime>,
    pub str1: Option<String>,
    pub str2: Option<String>,
    pub str3: Option<String>,
    pub uri: String,
    pub extention_block: Option<ExtraDataBlock>,
}

/// What a `URIShellItem` holds.
pub struct URIShellItemView {
    pub connect_time: Option<FileTime>,
    pub str1: Option<Seq<char>>,
    pub str2: Option<Seq<char>>,
    pub str3: Option<Seq<char>>,
    pub uri: Seq<char>,
    pub extention_block: Option<ExtraDataBlockView>,
}

impl View for URIShellItem {
    type V = URIShellItemView;

    open spec fn view(&self) -> URIShellItemView {
        URIShellItemView {
            connect_time: self.connect_time,
            str1: opt_text(self.str1),
            str2: opt_text(self.str2),
            str3: opt_text(self.str3),
            uri: self.uri@,
            extention_block: block_view(self.extention_block),
        }
    }
}

/// The bit of the flags that says that the strings are in UTF-16.
pub const HAS_UNICODE_STRINGS: u8 = 0x80;

/// The number of bytes of the tag, the flags and the size of the data.
pub const HEADER_LEN: usize = 4;

/// The number of bytes from the start of the item to the first of its
/// three strings, where it holds them: the header, eight reserved bytes,
/// the time of the connection and twenty more reserved bytes.
pub const STRINGS_OFFSET: usize = 40;

/// What reading a string gives at `p`, in UTF-16 or in single bytes.
pub open spec fn spec_read_text(s: Seq<u8>, p: int, len: Option<usize>, utf16: bool) -> (
    Result<Seq<char>, ReaderError>,
    int,
) {
    if utf16 {
        spec_read_utf16_string(s, p, len)
    } else {
        spec_read_utf8_string(s, p, len)
    }
}

/// What reading a 32-bit count and a string of that length gives at `p`.
pub open spec fn spec_counted_text(s: Seq<u8>, p: int, utf16: bool) -> (
    Result<Seq<char>, ReaderError>,
    int,
) {
    if has_bytes(s, p, 4) {
        spec_read_text(s, p + 4, Some(le32_at(s, p) as usize), utf16)
    } else {
        (Err(ReaderError::truncated()), s.len() as int)
    }
}

/// The time of the connection and the three strings of a URI.
pub struct URIData {
    pub connect_time: FileTime,
    pub str1: Seq<char>,
    pub str2: Seq<char>,
    pub str3: Seq<char>,
}

/// What decoding the data of the URI at `p` gives, and where it leaves
/// the position: nothing where the size of the data is zero.
pub open spec fn spec_uri_data(s: Seq<u8>, p: int) -> (Result<Option<URIData>, ReaderError>, int) {
    let utf16 = s[p + 1] & HAS_UNICODE_STRINGS > 0;
    if le16_at(s, p + 2) == 0 {
        (Ok(None), p + HEADER_LEN as int)
    } else if !has_bytes(s, p, STRINGS_OFFSET as int) {
        (Err(ReaderError::truncated()), s.len() as int)
    } else {
        match spec_counted_text(s, p + STRINGS_OFFSET as int, utf16) {
            (Err(e), q) => (Err(e), q),
            (Ok(str1), q) => match spec_counted_text(s, q, utf16) {
                (Err(e), q2) => (Err(e), q2),
                (Ok(str2), q2) => match spec_counted_text(s, q2, utf16) {
                    (Err(e), q3) => (Err(e), q3),
                    (Ok(str3), q3) => (
                        Ok(
                            Some(
                                URIData {
                                    connect_time: FileTime {
                                        microseconds: le64_at(s, p + 12) / 10,
                                    },
                                    str1,
                                    str2,
                                    str3,
                                },
                            ),
                        ),
                        q3,
                    ),
                },
            },
        }
    }
}

/// What decoding a URI at `p` gives, and where it leaves the position:
/// the data, then the URI itself at the first byte that is not zero,
/// then two bytes that are passed over and the extension block, for
/// which a failure counts as none.
#[verifier::opaque]
pub open spec fn spec_uri(s: Seq<u8>, p: int) -> (Result<URIShellItemView, ReaderError>, int) {
    let cut = (Err(ReaderError::truncated()), s.len() as int);
    if !has_bytes(s, p, HEADER_LEN as int) {
        cut
    } else {
        match spec_uri_data(s, p) {
            (Err(e), q) => (Err(e), q),
            (Ok(data), q) => if first_nonzero(s, q) >= s.len() {
                cut
            } else {
                match spec_read_text(
                    s,
                    first_nonzero(s, q),
                    None,
                    s[p + 1] & HAS_UNICODE_STRINGS > 0,
                ) {
                    (Err(e), q2) => (Err(e), q2),
                    (Ok(uri), q2) => {
                        let block = spec_extra_block_or_none(s, skip_to(s, q2, 2));
                        (
                            Ok(
                                URIShellItemView {
                                    connect_time: match data {
                                        Some(d) => Some(d.connect_time),
                                        None => None,
                                    },
                                    str1: match data {
                                        Some(d) => Some(d.str1),
                                        None => None,
                                    },
                                    str2: match data {
                                        Some(d) => Some(d.str2),
                                        None => None,
                                    },
                                    str3: match data {
                                        Some(d) => Some(d.str3),
                                        None => None,
                                    },
                                    uri,
                                    extention_block: block.0,
                                },
                            ),
                            block.1,
                        )
                    },
                }
            },
        }
    }
}

/// What a decoded URI holds, with the error kept as it is.
pub open spec fn uri_of(r: Result<URIShellItem, ReaderError>) -> Result<
    URIShellItemView,
    ReaderError,
> {
    match r {
        Ok(item) => Ok(item@),
        Err(e) => Err(e),
    }
}

/// Reads a string in UTF-16 or in single bytes.
fn read_text(r: &mut ByteCursor, len: Option<usize>, utf16: bool) -> (res: Result<
    String,
    ReaderError,
>)
    requires
        old(r).wf(),
    ensures
        final(r).wf(),
        final(r).bytes() == old(r).bytes(),
        (text_of(res), final(r).position()) == spec_read_text(
            old(r).bytes(),
            old(r).position(),
            len,
            utf16,
        ),
{
    if utf16 {
        read_utf16_string(r, len)
    } else {
        read_utf8_string(r, len)
    }
}

/// Reads a 32-bit count and a string of that length.
fn read_counted_text(r: &mut ByteCursor, utf16: bool) -> (res: Result<String, ReaderError>)
    requires
        old(r).wf(),
    ensures
        final(r).wf(),
        final(r).bytes() == old(r).bytes(),
        (text_of(res), final(r).position()) == spec_counted_text(
            old(r).bytes(),
            old(r).position(),
            utf16,
        ),
{
    let size = r.read_u32()?;
    read_text(r, Some(size as usize), utf16)
}

impl URIShellItem {
    /// Decodes the URI at the start of `buf`.
    pub fn from_buffer(buf: &[u8]) -> (r: Result<URIShellItem, ReaderError>)
        ensures
            uri_of(r) == spec_uri(buf@, 0).0,
    {
        let mut stream = ByteCursor::new(buf);
        URIShellItem::from_reader(&mut stream)
    }

    /// Decodes the URI at the position of the stream.
    pub fn from_reader(r: &mut ByteCursor) -> (res: Result<URIShellItem, ReaderError>)
        requires
            old(r).wf(),
        ensures
            final(r).wf(),
            final(r).bytes() == old(r).bytes(),
            (uri_of(res), final(r).position()) == spec_uri(old(r).bytes(), old(r).position()),
    {
        reveal(spec_uri);
        r.read_u8()?;
        let flags = r.read_u8()?;
        let data_size = r.read_u16()?;
        let utf16 = flags & HAS_UNICODE_STRINGS > 0;
        let mut connect_time = None;
        let mut str1 = None;
        let mut str2 = None;
        let mut str3 = None;
        if data_size > 0 {
            r.skip(8);
            connect_time = Some(FileTime::new(r.read_u64()?));
            r.skip(20);
            str1 = Some(read_counted_text(r, utf16)?);
            str2 = Some(read_counted_text(r, utf16)?);
            str3 = Some(read_counted_text(r, utf16)?);
        }
        if !r.skip_zeros() {
            return Err(ReaderError::truncated_error());
        }
        let uri = read_text(r, None, utf16)?;
        r.skip(2);
        let extention_block = ExtraDataBlock::from_reader_or_none(r);
        Ok(URIShellItem { connect_time, str1, str2, str3, uri, extention_block })
    }
}

impl Name for URIShellItem {
    open spec fn spec_name(&self) -> Seq<char> {
        self.uri@
    }

    fn name(&self) -> (name: String) {
        self.uri.clone()
    }
}

} // verus!
