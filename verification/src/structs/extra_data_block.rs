//! The extension block that several shell items carry after their own
//! fields: two timestamps, a file reference and the long name.
use crate::cursor::has_bytes;
use crate::cursor::le16_at;
use crate::cursor::le32_at;
use crate::cursor::ByteCursor;
use crate::date_time::DosDateTime;
use crate::file_system::FileReference;
use crate::reader_error::ReaderError;
use crate::utils::read_utf16_string;
use crate::utils::read_utf8_string;
use crate::utils::spec_read_utf16_string;
use crate::utils::spec_read_utf8_string;
use vstd::prelude::*;

verus! {

/// The extension block with the signature `BEEF0004`.
#[derive(Debug)]
pub struct ExtraDataBlock {
    pub size: u16,
    pub version: u16,
    pub signature: [u8; 4],
    pub ctime: DosDateTime,
    pub atime: DosDateTime,
    pub identifier: u16,
    pub file_ref: Option<FileReference>,
    pub long_str_size: u16,
    pub primary_name: String,
    pub version_offset: Option<u16>,
}

/// What an `ExtraDataBlock` holds.
pub struct ExtraDataBlockView {
    pub size: u16,
    pub version: u16,
    pub signature: Seq<u8>,
    pub ctime: DosDateTime,
    pub atime: DosDateTime,
    pub identifier: u16,
    pub file_ref: Option<FileReference>,
    pub long_str_size: u16,
    pub primary_name: Seq<char>,
    pub version_offset: Option<u16>,
}

impl View for ExtraDataBlock {
    type V = ExtraDataBlockView;

    open spec fn view(&self) -> ExtraDataBlockView {
        ExtraDataBlockView {
            size: self.size,
            version: self.version,
            signature: self.signature@,
            ctime: self.ctime,
            atime: self.atime,
            identifier: self.identifier,
            file_ref: self.file_ref,
            long_str_size: self.long_str_size,
            primary_name: self.primary_name@,
            version_offset: self.version_offset,
        }
    }
}

/// The first version that holds a file reference, and that writes the
/// name in UTF-16.
pub const VERSION_WITH_FILE_REFERENCE: u16 = 7;

/// The first version that holds the size of the long string and, after
/// the name, the offset of the version.
pub const VERSION_WITH_LONG_STRING_SIZE: u16 = 3;

/// The number of bytes of the fields that every version has before the
/// first that depends on the version.
pub const FIXED_LEN: usize = 18;

/// The number of bytes that the file reference takes, with the flags
/// before it and the eight reserved bytes after it.
pub open spec fn file_reference_len(version: u16) -> int {
    if version >= VERSION_WITH_FILE_REFERENCE {
        18
    } else {
        0
    }
}

/// The number of bytes of the size of the long string.
pub open spec fn long_string_size_len(version: u16) -> int {
    if version >= VERSION_WITH_LONG_STRING_SIZE {
        2
    } else {
        0
    }
}

/// The number of reserved bytes before the name: four from version 9 on,
/// eight in version 8, none before.
pub open spec fn reserved_len(version: u16) -> int {
    if version >= 9 {
        4
    } else if version >= 8 {
        8
    } else {
        0
    }
}

/// The number of bytes from the start of the block to the name.
pub open spec fn name_offset(version: u16) -> int {
    FIXED_LEN as int + file_reference_len(version) + long_string_size_len(version) + reserved_len(
        version,
    )
}

/// The size of the long string that the block at `p` gives, zero where
/// the version has no such field.
pub open spec fn long_string_size_at(s: Seq<u8>, p: int) -> u16 {
    let version = le16_at(s, p + 2);
    if version >= VERSION_WITH_LONG_STRING_SIZE {
        le16_at(s, p + FIXED_LEN as int + file_reference_len(version))
    } else {
        0
    }
}

/// True where the name of the block at `p` is written in UTF-16.
pub open spec fn name_is_utf16(s: Seq<u8>, p: int) -> bool {
    le16_at(s, p + 2) >= VERSION_WITH_FILE_REFERENCE && long_string_size_at(s, p) == 0
}

/// What reading the name of the block at `p` gives, and where it ends.
pub open spec fn spec_primary_name(s: Seq<u8>, p: int) -> (Result<Seq<char>, ReaderError>, int) {
    let at = p + name_offset(le16_at(s, p + 2));
    if name_is_utf16(s, p) {
        spec_read_utf16_string(s, at, None)
    } else {
        spec_read_utf8_string(s, at, None)
    }
}

/// The block at `p` whose name is `name` and ends before `q`.
pub open spec fn block_at(s: Seq<u8>, p: int, name: Seq<char>, q: int) -> ExtraDataBlockView {
    let version = le16_at(s, p + 2);
    ExtraDataBlockView {
        size: le16_at(s, p),
        version,
        signature: s.subrange(p + 4, p + 8),
        ctime: DosDateTime::spec_from_u32(le32_at(s, p + 8)),
        atime: DosDateTime::spec_from_u32(le32_at(s, p + 12)),
        identifier: le16_at(s, p + 16),
        file_ref: if version >= VERSION_WITH_FILE_REFERENCE {
            Some(FileReference::spec_at(s, p + 20))
        } else {
            None
        },
        long_str_size: long_string_size_at(s, p),
        primary_name: name,
        version_offset: if version >= VERSION_WITH_LONG_STRING_SIZE {
            Some(le16_at(s, q))
        } else {
            None
        },
    }
}

/// What decoding an extension block at `p` gives, and where it leaves the
/// position: no block where the size is zero; `Truncated`, at the end of
/// the buffer, where a field is cut short; the error of the name where
/// the name does not decode.
pub open spec fn spec_extra_block(s: Seq<u8>, p: int) -> (
    Result<Option<ExtraDataBlockView>, ReaderError>,
    int,
) {
    let cut = (Err(ReaderError::truncated()), s.len() as int);
    if !has_bytes(s, p, 2) {
        cut
    } else if le16_at(s, p) == 0 {
        (Ok(None), p + 2)
    } else if !has_bytes(s, p, 4) || !has_bytes(s, p, name_offset(le16_at(s, p + 2))) {
        cut
    } else {
        match spec_primary_name(s, p) {
            (Err(e), q) => (Err(e), q),
            (Ok(name), q) => if le16_at(s, p + 2) < VERSION_WITH_LONG_STRING_SIZE {
                (Ok(Some(block_at(s, p, name, q))), q)
            } else if has_bytes(s, q, 2) {
                (Ok(Some(block_at(s, p, name, q))), q + 2)
            } else {
                cut
            },
        }
    }
}

/// What decoding an extension block at `p` gives where a failure counts
/// as no block, and where it leaves the position.
pub open spec fn spec_extra_block_or_none(s: Seq<u8>, p: int) -> (Option<ExtraDataBlockView>, int) {
    match spec_extra_block(s, p) {
        (Ok(block), q) => (block, q),
        (Err(_), q) => (None, q),
    }
}

/// What a decoded block holds, if there is one.
pub open spec fn block_view(block: Option<ExtraDataBlock>) -> Option<ExtraDataBlockView> {
    match block {
        Some(b) => Some(b@),
        None => None,
    }
}

/// What the result of a decode holds, with the error kept as it is.
pub open spec fn block_of(r: Result<Option<ExtraDataBlock>, ReaderError>) -> Result<
    Option<ExtraDataBlockView>,
    ReaderError,
> {
    match r {
        Ok(block) => Ok(block_view(block)),
        Err(e) => Err(e),
    }
}

impl ExtraDataBlock {
    /// Decodes the extension block at the start of `buf`.
    pub fn from_buffer(buf: &[u8]) -> (r: Result<Option<ExtraDataBlock>, ReaderError>)
        ensures
            block_of(r) == spec_extra_block(buf@, 0).0,
    {
        let mut stream = ByteCursor::new(buf);
        ExtraDataBlock::from_reader(&mut stream)
    }

    /// Decodes the extension block at the position of the stream.
    pub fn from_reader(r: &mut ByteCursor) -> (res: Result<Option<ExtraDataBlock>, ReaderError>)
        requires
            old(r).wf(),
        ensures
            final(r).wf(),
            final(r).bytes() == old(r).bytes(),
            (block_of(res), final(r).position()) == spec_extra_block(
                old(r).bytes(),
                old(r).position(),
            ),
    {
        let ghost s = r.bytes();
        let ghost p = r.position();
        let size = r.read_u16()?;
        if size == 0 {
            return Ok(None);
        }
        let version = r.read_u16()?;
        let sig = r.take(4)?;
        let signature: [u8; 4] = [sig[0], sig[1], sig[2], sig[3]];
        let ctime = DosDateTime::from_u32(r.read_u32()?)?;
        let atime = DosDateTime::from_u32(r.read_u32()?)?;
        let identifier = r.read_u16()?;
        let file_ref = if version >= VERSION_WITH_FILE_REFERENCE {
            r.read_u16()?;
            let file_ref_bytes = r.take(8)?;
            r.take(8)?;
            Some(FileReference::from_buffer(file_ref_bytes)?)
        } else {
            None
        };
        let long_str_size = if version >= VERSION_WITH_LONG_STRING_SIZE {
            r.read_u16()?
        } else {
            0
        };
        if version >= 9 {
            r.take(4)?;
        } else if version >= 8 {
            r.take(8)?;
        }
        assert(r.position() == p + name_offset(version));
        let primary_name = if version >= VERSION_WITH_FILE_REFERENCE && long_str_size == 0 {
            read_utf16_string(r, None)?
        } else {
            read_utf8_string(r, None)?
        };
        let ghost q = r.position();
        let version_offset = if version >= VERSION_WITH_LONG_STRING_SIZE {
            Some(r.read_u16()?)
        } else {
            None
        };
        let block = ExtraDataBlock {
            size,
            version,
            signature,
            ctime,
            atime,
            identifier,
            file_ref,
            long_str_size,
            primary_name,
            version_offset,
        };
        proof {
            assert(block.signature@ =~= s.subrange(p + 4, p + 8));
            assert(block@ == block_at(s, p, block.primary_name@, q));
        }
        Ok(Some(block))
    }

    /// Decodes the extension block at the position of the stream, and
    /// takes a block that does not decode for none.
    pub fn from_reader_or_none(r: &mut ByteCursor) -> (block: Option<ExtraDataBlock>)
        requires
            old(r).wf(),
        ensures
            final(r).wf(),
            final(r).bytes() == old(r).bytes(),
            (block_view(block), final(r).position()) == spec_extra_block_or_none(
                old(r).bytes(),
                old(r).position(),
            ),
    {
        match ExtraDataBlock::from_reader(r) {
            Ok(block) => block,
            Err(_) => None,
        }
    }
}

} // verus!
