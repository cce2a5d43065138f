//! The shell item of a file or a directory.
use super::Name;
use crate::cursor::first_nonzero;
use crate::cursor::has_bytes;
use crate::cursor::le16_at;
use crate::cursor::le32_at;
use crate::cursor::ByteCursor;
use crate::date_time::DosDateTime;
use crate::file_system::FileAttributesFlags;
use crate::reader_error::ReaderError;
use crate::structs::extra_data_block::block_view;
use crate::structs::extra_data_block::spec_extra_block_or_none;
use crate::structs::extra_data_block::ExtraDataBlock;
use crate::structs::extra_data_block::ExtraDataBlockView;
use crate::utils::read_utf16_string;
use crate::utils::read_utf8_string;
use crate::utils::spec_read_utf16_string;
use crate::utils::spec_read_utf8_string;
use vstd::prelude::*;

verus! {

/// A file or a directory: its size, the time of its last change, its
/// attributes and its name, and the extension block where one follows
/// and decodes.
#[derive(Debug)]
pub struct FileEntryShellItem {
    pub is_file: bool,
    pub file_size: u32,
    pub mtime: DosDateTime,
    pub file_attr_flags: Vec<FileAttributesFlags>,
    pub name: String,
    pub extention_block: Option<ExtraDataBlock>,
}

/// What a `FileEntryShellItem` holds.
pub struct FileEntryShellItemView {
    pub is_file: bool,
    pub file_size: u32,
    pub mtime: DosDateTime,
    pub file_attr_flags: Seq<FileAttributesFlags>,
    pub name: Seq<char>,
    pub extention_block: Option<ExtraDataBlockView>,
}

impl View for FileEntryShellItem {
    type V = FileEntryShellItemView;

    open spec fn view(&self) -> FileEntryShellItemView {
        FileEntryShellItemView {
            is_file: self.is_file,
            file_size: self.file_size,
            mtime: self.mtime,
            file_attr_flags: self.file_attr_flags@,
            name: self.name@,
            extention_block: block_view(self.extention_block),
        }
    }
}

impl FileEntryShellItemView {
    /// The name for a path: the long name of the extension block where
    /// there is one, else the name of the item itself.
    pub open spec fn path_name(self) -> Seq<char> {
        match self.extention_block {
            Some(block) => block.primary_name,
            None => self.name,
        }
    }
}

/// The bit of the class flag that says that the item is a file.
pub const IS_FILE: u8 = 0x2;

/// The bit of the class flag that says that the name is in UTF-16.
pub const HAS_UNICODE_NAME: u8 = 0x4;

/// The number of bytes of the fields before the name.
pub const NAME_OFFSET: usize = 12;

/// What reading the name of the file entry at `p` gives, and where it
/// ends.
pub open spec fn spec_file_entry_name(s: Seq<u8>, p: int) -> (Result<Seq<char>, ReaderError>, int) {
    if s[p] & HAS_UNICODE_NAME > 0 {
        spec_read_utf16_string(s, p + NAME_OFFSET as int, None)
    } else {
        spec_read_utf8_string(s, p + NAME_OFFSET as int, None)
    }
}

/// What follows the name that ends before `q` in the file entry at `p`:
/// the extension block, for which a failure counts as none, and the
/// position after it. After a name of single bytes the block stands at
/// the first byte that is not zero; where there is no such byte there is
/// no block, and the position is the end of the buffer.
pub open spec fn spec_file_entry_block(s: Seq<u8>, p: int, q: int) -> (
    Option<ExtraDataBlockView>,
    int,
) {
    if s[p] & HAS_UNICODE_NAME > 0 {
        spec_extra_block_or_none(s, q)
    } else if first_nonzero(s, q) < s.len() {
        spec_extra_block_or_none(s, first_nonzero(s, q))
    } else {
        (None, s.len() as int)
    }
}

/// What decoding a file entry at `p` gives, and where it leaves the
/// position.
#[verifier::opaque]
pub open spec fn spec_file_entry(s: Seq<u8>, p: int) -> (
    Result<FileEntryShellItemView, ReaderError>,
    int,
) {
    if !has_bytes(s, p, NAME_OFFSET as int) {
        (Err(ReaderError::truncated()), s.len() as int)
    } else {
        match spec_file_entry_name(s, p) {
            (Err(e), q) => (Err(e), q),
            (Ok(name), q) => {
                let block = spec_file_entry_block(s, p, q);
                (
                    Ok(
                        FileEntryShellItemView {
                            is_file: s[p] & IS_FILE > 0,
                            file_size: le32_at(s, p + 2),
                            mtime: DosDateTime::spec_from_u32(le32_at(s, p + 6)),
                            file_attr_flags: FileAttributesFlags::spec_from_u32(
                                le16_at(s, p + 10) as u32,
                            ),
                            name,
                            extention_block: block.0,
                        },
                    ),
                    block.1,
                )
            },
        }
    }
}

/// What a decoded file entry holds, with the error kept as it is.
pub open spec fn file_entry_of(r: Result<FileEntryShellItem, ReaderError>) -> Result<
    FileEntryShellItemView,
    ReaderError,
> {
    match r {
        Ok(item) => Ok(item@),
        Err(e) => Err(e),
    }
}

impl FileEntryShellItem {
    /// Decodes the file entry at the start of `buf`.
    pub fn from_buffer(buf: &[u8]) -> (r: Result<FileEntryShellItem, ReaderError>)
        ensures
            file_entry_of(r) == spec_file_entry(buf@, 0).0,
    {
        let mut stream = ByteCursor::new(buf);
        FileEntryShellItem::from_reader(&mut stream)
    }

    /// Decodes the file entry at the position of the stream.
    pub fn from_reader(r: &mut ByteCursor) -> (res: Result<FileEntryShellItem, ReaderError>)
        requires
            old(r).wf(),
        ensures
            final(r).wf(),
            final(r).bytes() == old(r).bytes(),
            (file_entry_of(res), final(r).position()) == spec_file_entry(
                old(r).bytes(),
                old(r).position(),
            ),
    {
        reveal(spec_file_entry);
        let class_type = r.read_u8()?;
        let is_file = class_type & IS_FILE > 0;
        let is_utf16 = class_type & HAS_UNICODE_NAME > 0;
        r.read_u8()?;
        let file_size = r.read_u32()?;
        let mtime = DosDateTime::from_u32(r.read_u32()?)?;
        let file_attr_flags = FileAttributesFlags::from_u32(r.read_u16()? as u32);
        let name = if is_utf16 {
            read_utf16_string(r, None)?
        } else {
            read_utf8_string(r, None)?
        };
        if !is_utf16 {
            if !r.skip_zeros() {
                return Ok(
                    FileEntryShellItem {
                        is_file,
                        file_size,
                        mtime,
                        file_attr_flags,
                        name,
                        extention_block: None,
                    },
                );
            }
        }
        let extention_block = ExtraDataBlock::from_reader_or_none(r);
        Ok(FileEntryShellItem { is_file, file_size, mtime, file_attr_flags, name, extention_block })
    }
}

impl Name for FileEntryShellItem {
    open spec fn spec_name(&self) -> Seq<char> {
        self@.path_name()
    }

    fn name(&self) -> (name: String) {
        match &self.extention_block {
            Some(eb) => eb.primary_name.clone(),
            None => self.name.clone(),
        }
    }
}

/// A file entry whose name is written in single bytes and ends where the
/// buffer ends decodes, and has no extension block.
pub proof fn lemma_file_entry_at_end_of_buffer(s: Seq<u8>, p: int)
    requires
        has_bytes(s, p, NAME_OFFSET as int),
        s[p] & HAS_UNICODE_NAME == 0,
        spec_read_utf8_string(s, p + NAME_OFFSET as int, None).0 is Ok,
        spec_read_utf8_string(s, p + NAME_OFFSET as int, None).1 == s.len(),
    ensures
        spec_file_entry(s, p).0 is Ok,
        spec_file_entry(s, p).0->Ok_0.extention_block is None,
        spec_file_entry(s, p).0->Ok_0.name == spec_read_utf8_string(
            s,
            p + NAME_OFFSET as int,
            None,
        ).0->Ok_0,
        spec_file_entry(s, p).1 == s.len(),
{
    reveal(spec_file_entry);
}

} // verus!
