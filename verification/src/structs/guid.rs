//! The globally unique identifier.
use crate::cursor::has_bytes;
use crate::cursor::le16_at;
use crate::cursor::le32_at;
use crate::cursor::ByteCursor;
use crate::reader_error::ReaderError;
use crate::text::hex_byte;
use crate::text::hex_u16;
use crate::text::hex_u32;
use crate::text::push_hex_byte;
use crate::text::push_hex_u16;
use crate::text::push_hex_u32;
use crate::text::string_from_chars;
use vstd::prelude::*;

verus! {

/// A GUID: 32 bits, twice 16 bits, and eight bytes.
#[derive(Debug, Clone, Copy)]
pub struct Guid {
    pub data1: u32,
    pub data2: u16,
    pub data3: u16,
    pub data4: [u8; 8],
}

/// What a `Guid` holds, the eight bytes as a sequence.
pub struct GuidView {
    pub data1: u32,
    pub data2: u16,
    pub data3: u16,
    pub data4: Seq<u8>,
}

impl View for Guid {
    type V = GuidView;

    open spec fn view(&self) -> GuidView {
        GuidView { data1: self.data1, data2: self.data2, data3: self.data3, data4: self.data4@ }
    }
}

impl GuidView {
    /// The GUID in the sixteen bytes at `p`: the three numbers in
    /// little-endian order, then the eight bytes as they lie.
    pub open spec fn at(s: Seq<u8>, p: int) -> GuidView
        recommends
            has_bytes(s, p, 16),
    {
        GuidView {
            data1: le32_at(s, p),
            data2: le16_at(s, p + 4),
            data3: le16_at(s, p + 6),
            data4: s.subrange(p + 8, p + 16),
        }
    }

    /// The GUID as text, in the form `5E591A74-DF96-48D3-8D67-1733BCEE28BA`.
    pub open spec fn text(self) -> Seq<char>
        recommends
            self.data4.len() == 8,
    {
        hex_u32(self.data1) + seq!['-'] + hex_u16(self.data2) + seq!['-'] + hex_u16(self.data3)
            + seq!['-'] + hex_byte(self.data4[0]) + hex_byte(self.data4[1]) + seq!['-'] + hex_byte(
            self.data4[2],
        ) + hex_byte(self.data4[3]) + hex_byte(self.data4[4]) + hex_byte(self.data4[5])
            + hex_byte(self.data4[6]) + hex_byte(self.data4[7])
    }
}

/// What decoding a GUID at `p` gives, and where it leaves the position.
pub open spec fn spec_guid(s: Seq<u8>, p: int) -> (Result<GuidView, ReaderError>, int) {
    if has_bytes(s, p, 16) {
        (Ok(GuidView::at(s, p)), p + 16)
    } else {
        (Err(ReaderError::truncated()), s.len() as int)
    }
}

/// What a decoded GUID holds, with the error kept as it is.
pub open spec fn guid_of(r: Result<Guid, ReaderError>) -> Result<GuidView, ReaderError> {
    match r {
        Ok(guid) => Ok(guid@),
        Err(e) => Err(e),
    }
}

impl Guid {
    /// Creates a GUID from its components.
    pub fn new(data1: u32, data2: u16, data3: u16, data4: [u8; 8]) -> (guid: Guid)
        ensures
            guid@ == (GuidView { data1, data2, data3, data4: data4@ }),
    {
        Guid { data1, data2, data3, data4 }
    }

    /// Reads a GUID from the first sixteen bytes of a buffer.
    pub fn from_buffer(buffer: &[u8]) -> (r: Result<Guid, ReaderError>)
        ensures
            guid_of(r) == spec_guid(buffer@, 0).0,
    {
        let mut stream = ByteCursor::new(buffer);
        Guid::from_reader(&mut stream)
    }

    /// Reads a GUID from the next sixteen bytes of the stream.
    pub fn from_reader(stream: &mut ByteCursor) -> (r: Result<Guid, ReaderError>)
        requires
            old(stream).wf(),
        ensures
            final(stream).wf(),
            final(stream).bytes() == old(stream).bytes(),
            (guid_of(r), final(stream).position()) == spec_guid(
                old(stream).bytes(),
                old(stream).position(),
            ),
    {
        let data1 = stream.read_u32()?;
        let data2 = stream.read_u16()?;
        let data3 = stream.read_u16()?;
        let rest = stream.take(8)?;
        let data4: [u8; 8] = [
            rest[0],
            rest[1],
            rest[2],
            rest[3],
            rest[4],
            rest[5],
            rest[6],
            rest[7],
        ];
        proof {
            assert(data4@ =~= rest@);
        }
        Ok(Guid { data1, data2, data3, data4 })
    }

    /// The GUID as text, in the form `5E591A74-DF96-48D3-8D67-1733BCEE28BA`.
    pub fn to_string(&self) -> (text: String)
        ensures
            text@ == self@.text(),
    {
        let mut out: Vec<char> = Vec::new();
        push_hex_u32(&mut out, self.data1);
        out.push('-');
        push_hex_u16(&mut out, self.data2);
        out.push('-');
        push_hex_u16(&mut out, self.data3);
        out.push('-');
        push_hex_byte(&mut out, self.data4[0]);
        push_hex_byte(&mut out, self.data4[1]);
        out.push('-');
        push_hex_byte(&mut out, self.data4[2]);
        push_hex_byte(&mut out, self.data4[3]);
        push_hex_byte(&mut out, self.data4[4]);
        push_hex_byte(&mut out, self.data4[5]);
        push_hex_byte(&mut out, self.data4[6]);
        push_hex_byte(&mut out, self.data4[7]);
        proof {
            assert(out@ =~= self@.text());
        }
        string_from_chars(out.as_slice())
    }
}

} // verus!
