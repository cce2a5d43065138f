//! The reference to a record of the master file table, and the attribute
//! flags of a file.
use crate::cursor::has_bytes;
use crate::cursor::le16_at;
use crate::cursor::le32_at;
use crate::cursor::ByteCursor;
use crate::reader_error::ReaderError;
use vstd::prelude::*;

verus! {

/// The 48-bit number whose lowest byte is `s[p]`.
pub open spec fn le48_at(s: Seq<u8>, p: int) -> u64
    recommends
        has_bytes(s, p, 6),
{
    (le32_at(s, p) as int + 0x1_0000_0000 * (le16_at(s, p + 4) as int)) as u64
}

/// The entry of a file in the master file table, and the sequence number
/// that tells one use of that entry from the next.
#[derive(Clone, Copy, Debug, PartialEq, Eq, Structural)]
pub struct FileReference {
    pub mft_entry: u64,
    pub sequence_number: u16,
}

impl FileReference {
    /// The reference in the eight bytes at `p`: six of the entry, two of the
    /// sequence number.
    pub open spec fn spec_at(s: Seq<u8>, p: int) -> FileReference
        recommends
            has_bytes(s, p, 8),
    {
        FileReference { mft_entry: le48_at(s, p), sequence_number: le16_at(s, p + 6) }
    }

    /// Creates a `FileReference` from the first eight bytes of `buf`.
    pub fn from_buffer(buf: &[u8]) -> (r: Result<FileReference, ReaderError>)
        requires
            buf@.len() >= 8,
        ensures
            r == Ok::<FileReference, ReaderError>(FileReference::spec_at(buf@, 0)),
    {
        let mut r = ByteCursor::new(buf);
        FileReference::from_reader(&mut r)
    }

    /// Creates a `FileReference` from the next eight bytes of the stream.
    pub fn from_reader(r: &mut ByteCursor) -> (res: Result<FileReference, ReaderError>)
        requires
            old(r).wf(),
            has_bytes(old(r).bytes(), old(r).position(), 8),
        ensures
            final(r).wf(),
            final(r).bytes() == old(r).bytes(),
            final(r).position() == old(r).position() + 8,
            res == Ok::<FileReference, ReaderError>(
                FileReference::spec_at(old(r).bytes(), old(r).position()),
            ),
    {
        let low = r.read_u32()?;
        let high = r.read_u16()?;
        let sequence_number = r.read_u16()?;
        let mft_entry: u64 = low as u64 + 0x1_0000_0000 * (high as u64);
        Ok(FileReference { mft_entry, sequence_number })
    }
}

/// The attributes that a file can have.
#[allow(non_camel_case_types)]
#[derive(Clone, Copy, Debug, PartialEq, Eq, Structural)]
pub enum FileAttributesFlags {
    READONLY,
    HIDDEN,
    SYSTEM,
    VOLUME_LABEL,
    DIRECTORY,
    ARCHIVE,
    DEVICE,
    NORMAL,
    TEMPORARY,
    SPARSE_FILE,
    REPARSE_POINT,
    COMPRESSED,
    OFFLINE,
    NOT_CONTENT_INDEXED,
    ENCRYPTED,
    INTEGRITY_STREAM,
    VIRTUAL,
    NO_SCRUB_DATA,
}

/// The number of attribute flags.
pub const FLAG_COUNT: u32 = 18;

impl FileAttributesFlags {
    /// The flag that bit `bit` of the attributes stands for.
    pub open spec fn spec_of_bit(bit: int) -> FileAttributesFlags
        recommends
            0 <= bit < 18,
    {
        if bit == 0 {
            FileAttributesFlags::READONLY
        } else if bit == 1 {
            FileAttributesFlags::HIDDEN
        } else if bit == 2 {
            FileAttributesFlags::SYSTEM
        } else if bit == 3 {
            FileAttributesFlags::VOLUME_LABEL
        } else if bit == 4 {
            FileAttributesFlags::DIRECTORY
        } else if bit == 5 {
            FileAttributesFlags::ARCHIVE
        } else if bit == 6 {
            FileAttributesFlags::DEVICE
        } else if bit == 7 {
            FileAttributesFlags::NORMAL
        } else if bit == 8 {
            FileAttributesFlags::TEMPORARY
        } else if bit == 9 {
            FileAttributesFlags::SPARSE_FILE
        } else if bit == 10 {
            FileAttributesFlags::REPARSE_POINT
        } else if bit == 11 {
            FileAttributesFlags::COMPRESSED
        } else if bit == 12 {
            FileAttributesFlags::OFFLINE
        } else if bit == 13 {
            FileAttributesFlags::NOT_CONTENT_INDEXED
        } else if bit == 14 {
            FileAttributesFlags::ENCRYPTED
        } else if bit == 15 {
            FileAttributesFlags::INTEGRITY_STREAM
        } else if bit == 16 {
            FileAttributesFlags::VIRTUAL
        } else {
            FileAttributesFlags::NO_SCRUB_DATA
        }
    }

    /// True when bit `bit` of `flags` is set.
    pub open spec fn bit_is_set(flags: u32, bit: u32) -> bool {
        flags & (1u32 << bit) != 0
    }

    /// The flags of the bits below `n` that are set in `flags`, lowest bit
    /// first.
    pub open spec fn spec_below(flags: u32, n: u32) -> Seq<FileAttributesFlags>
        decreases n,
    {
        if n == 0 {
            Seq::empty()
        } else if Self::bit_is_set(flags, (n - 1) as u32) {
            Self::spec_below(flags, (n - 1) as u32).push(Self::spec_of_bit(n - 1))
        } else {
            Self::spec_below(flags, (n - 1) as u32)
        }
    }

    /// The flags that are set in `flags`, lowest bit first.
    pub open spec fn spec_from_u32(flags: u32) -> Seq<FileAttributesFlags> {
        Self::spec_below(flags, FLAG_COUNT)
    }

    /// The name of the flag.
    pub open spec fn name(self) -> Seq<char> {
        match self {
            FileAttributesFlags::READONLY => "READONLY"@,
            FileAttributesFlags::HIDDEN => "HIDDEN"@,
            FileAttributesFlags::SYSTEM => "SYSTEM"@,
            FileAttributesFlags::VOLUME_LABEL => "VOLUME_LABEL"@,
            FileAttributesFlags::DIRECTORY => "DIRECTORY"@,
            FileAttributesFlags::ARCHIVE => "ARCHIVE"@,
            FileAttributesFlags::DEVICE => "DEVICE"@,
            FileAttributesFlags::NORMAL => "NORMAL"@,
            FileAttributesFlags::TEMPORARY => "TEMPORARY"@,
            FileAttributesFlags::SPARSE_FILE => "SPARSE_FILE"@,
            FileAttributesFlags::REPARSE_POINT => "REPARSE_POINT"@,
            FileAttributesFlags::COMPRESSED => "COMPRESSED"@,
            FileAttributesFlags::OFFLINE => "OFFLINE"@,
            FileAttributesFlags::NOT_CONTENT_INDEXED => "NOT_CONTENT_INDEXED"@,
            FileAttributesFlags::ENCRYPTED => "ENCRYPTED"@,
            FileAttributesFlags::INTEGRITY_STREAM => "INTEGRITY_STREAM"@,
            FileAttributesFlags::VIRTUAL => "VIRTUAL"@,
            FileAttributesFlags::NO_SCRUB_DATA => "NO_SCRUB_DATA"@,
        }
    }

    /// The flag that bit `bit` of the attributes stands for.
    fn of_bit(bit: u32) -> (flag: FileAttributesFlags)
        requires
            bit < 18,
        ensures
            flag == Self::spec_of_bit(bit as int),
    {
        match bit {
            0 => FileAttributesFlags::READONLY,
            1 => FileAttributesFlags::HIDDEN,
            2 => FileAttributesFlags::SYSTEM,
            3 => FileAttributesFlags::VOLUME_LABEL,
            4 => FileAttributesFlags::DIRECTORY,
            5 => FileAttributesFlags::ARCHIVE,
            6 => FileAttributesFlags::DEVICE,
            7 => FileAttributesFlags::NORMAL,
            8 => FileAttributesFlags::TEMPORARY,
            9 => FileAttributesFlags::SPARSE_FILE,
            10 => FileAttributesFlags::REPARSE_POINT,
            11 => FileAttributesFlags::COMPRESSED,
            12 => FileAttributesFlags::OFFLINE,
            13 => FileAttributesFlags::NOT_CONTENT_INDEXED,
            14 => FileAttributesFlags::ENCRYPTED,
            15 => FileAttributesFlags::INTEGRITY_STREAM,
            16 => FileAttributesFlags::VIRTUAL,
            _ => FileAttributesFlags::NO_SCRUB_DATA,
        }
    }

    /// Expands an attribute bit-field into the flags that are set in it,
    /// lowest bit first.
    pub fn from_u32(flags: u32) -> (res: Vec<FileAttributesFlags>)
        ensures
            res@ == Self::spec_from_u32(flags),
    {
        let mut res: Vec<FileAttributesFlags> = Vec::new();
        let mut bit: u32 = 0;
        while bit < FLAG_COUNT
            invariant
                bit <= FLAG_COUNT,
                res@ == Self::spec_below(flags, bit),
            decreases FLAG_COUNT - bit,
        {
            if flags & (1u32 << bit) != 0 {
                res.push(Self::of_bit(bit));
            }
            bit = bit + 1;
        }
        res
    }

    /// The name of the flag.
    pub fn to_string(&self) -> (text: String)
        ensures
            text@ == self.name(),
    {
        match self {
            FileAttributesFlags::READONLY => "READONLY".to_string(),
            FileAttributesFlags::HIDDEN => "HIDDEN".to_string(),
            FileAttributesFlags::SYSTEM => "SYSTEM".to_string(),
            FileAttributesFlags::VOLUME_LABEL => "VOLUME_LABEL".to_string(),
            FileAttributesFlags::DIRECTORY => "DIRECTORY".to_string(),
            FileAttributesFlags::ARCHIVE => "ARCHIVE".to_string(),
            FileAttributesFlags::DEVICE => "DEVICE".to_string(),
            FileAttributesFlags::NORMAL => "NORMAL".to_string(),
            FileAttributesFlags::TEMPORARY => "TEMPORARY".to_string(),
            FileAttributesFlags::SPARSE_FILE => "SPARSE_FILE".to_string(),
            FileAttributesFlags::REPARSE_POINT => "REPARSE_POINT".to_string(),
            FileAttributesFlags::COMPRESSED => "COMPRESSED".to_string(),
            FileAttributesFlags::OFFLINE => "OFFLINE".to_string(),
            FileAttributesFlags::NOT_CONTENT_INDEXED => "NOT_CONTENT_INDEXED".to_string(),
            FileAttributesFlags::ENCRYPTED => "ENCRYPTED".to_string(),
            FileAttributesFlags::INTEGRITY_STREAM => "INTEGRITY_STREAM".to_string(),
            FileAttributesFlags::VIRTUAL => "VIRTUAL".to_string(),
            FileAttributesFlags::NO_SCRUB_DATA => "NO_SCRUB_DATA".to_string(),
        }
    }
}

} // verus!
