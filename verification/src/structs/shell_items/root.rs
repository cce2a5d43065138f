//! The shell item of a root folder of the namespace.
use super::Name;
use crate::cursor::has_bytes;
use crate::cursor::ByteCursor;
use crate::reader_error::ReaderError;
use crate::structs::guid::spec_guid;
use crate::structs::guid::Guid;
use crate::structs::guid::GuidView;
use vstd::prelude::*;

verus! {

/// The place of a root folder in the order in which they are shown.
#[allow(non_camel_case_types)]
#[derive(Clone, Copy, Debug, PartialEq, Eq, Structural)]
pub enum RootShellItemSortIndex {
    INTERNET_EXPLORER1,
    LIBRARIES,
    USERS,
    MY_DOCUMENTS,
    MY_COMPUTER,
    MY_NETWORK_PLACES,
    RECYCLE_BIN,
    INTERNET_EXPLORER2,
    MY_GAMES,
    /// A code that names none of the folders above.
    UNKNOWN(u8),
}

impl RootShellItemSortIndex {
    /// The sort index that a code stands for.
    pub open spec fn spec_from(num: u8) -> RootShellItemSortIndex {
        if num == 0 {
            RootShellItemSortIndex::INTERNET_EXPLORER1
        } else if num == 66 {
            RootShellItemSortIndex::LIBRARIES
        } else if num == 68 {
            RootShellItemSortIndex::USERS
        } else if num == 72 {
            RootShellItemSortIndex::MY_DOCUMENTS
        } else if num == 80 {
            RootShellItemSortIndex::MY_COMPUTER
        } else if num == 88 {
            RootShellItemSortIndex::MY_NETWORK_PLACES
        } else if num == 96 {
            RootShellItemSortIndex::RECYCLE_BIN
        } else if num == 104 {
            RootShellItemSortIndex::INTERNET_EXPLORER2
        } else if num == 128 {
            RootShellItemSortIndex::MY_GAMES
        } else {
            RootShellItemSortIndex::UNKNOWN(num)
        }
    }

    /// The name of a known folder; of an unknown code, `UNKNOWN`.
    pub open spec fn label(self) -> Seq<char> {
        match self {
            RootShellItemSortIndex::INTERNET_EXPLORER1 => "INTERNET_EXPLORER1"@,
            RootShellItemSortIndex::LIBRARIES => "LIBRARIES"@,
            RootShellItemSortIndex::USERS => "USERS"@,
            RootShellItemSortIndex::MY_DOCUMENTS => "MY_DOCUMENTS"@,
            RootShellItemSortIndex::MY_COMPUTER => "MY_COMPUTER"@,
            RootShellItemSortIndex::MY_NETWORK_PLACES => "MY_NETWORK_PLACES"@,
            RootShellItemSortIndex::RECYCLE_BIN => "RECYCLE_BIN"@,
            RootShellItemSortIndex::INTERNET_EXPLORER2 => "INTERNET_EXPLORER2"@,
            RootShellItemSortIndex::MY_GAMES => "MY_GAMES"@,
            RootShellItemSortIndex::UNKNOWN(_) => "UNKNOWN"@,
        }
    }

    /// The name of a known folder; of an unknown code, `UNKNOWN`.
    pub fn to_string(&self) -> (text: String)
        ensures
            text@ == self.label(),
    {
        match self {
            RootShellItemSortIndex::INTERNET_EXPLORER1 => "INTERNET_EXPLORER1".to_string(),
            RootShellItemSortIndex::LIBRARIES => "LIBRARIES".to_string(),
            RootShellItemSortIndex::USERS => "USERS".to_string(),
            RootShellItemSortIndex::MY_DOCUMENTS => "MY_DOCUMENTS".to_string(),
            RootShellItemSortIndex::MY_COMPUTER => "MY_COMPUTER".to_string(),
            RootShellItemSortIndex::MY_NETWORK_PLACES => "MY_NETWORK_PLACES".to_string(),
            RootShellItemSortIndex::RECYCLE_BIN => "RECYCLE_BIN".to_string(),
            RootShellItemSortIndex::INTERNET_EXPLORER2 => "INTERNET_EXPLORER2".to_string(),
            RootShellItemSortIndex::MY_GAMES => "MY_GAMES".to_string(),
            RootShellItemSortIndex::UNKNOWN(_) => "UNKNOWN".to_string(),
        }
    }
}

impl From<u8> for RootShellItemSortIndex {
    fn from(num: u8) -> (index: RootShellItemSortIndex) {
        match num {
            0 => RootShellItemSortIndex::INTERNET_EXPLORER1,
            66 => RootShellItemSortIndex::LIBRARIES,
            68 => RootShellItemSortIndex::USERS,
            72 => RootShellItemSortIndex::MY_DOCUMENTS,
            80 => RootShellItemSortIndex::MY_COMPUTER,
            88 => RootShellItemSortIndex::MY_NETWORK_PLACES,
            96 => RootShellItemSortIndex::RECYCLE_BIN,
            104 => RootShellItemSortIndex::INTERNET_EXPLORER2,
            128 => RootShellItemSortIndex::MY_GAMES,
            other => RootShellItemSortIndex::UNKNOWN(other),
        }
    }
}

impl vstd::std_specs::convert::FromSpecImpl<u8> for RootShellItemSortIndex {
    open spec fn obeys_from_spec() -> bool {
        true
    }

    open spec fn from_spec(num: u8) -> RootShellItemSortIndex {
        RootShellItemSortIndex::spec_from(num)
    }
}

/// A root folder: its sort index and the GUID of the folder.
#[derive(Debug)]
pub struct RootShellItem {
    pub sort_index: RootShellItemSortIndex,
    pub guid: Guid,
}

/// What a `RootShellItem` holds.
pub struct RootShellItemView {
    pub sort_index: RootShellItemSortIndex,
    pub guid: GuidView,
}

impl View for RootShellItem {
    type V = RootShellItemView;

    open spec fn view(&self) -> RootShellItemView {
        RootShellItemView { sort_index: self.sort_index, guid: self.guid@ }
    }
}

impl RootShellItemView {
    /// The name of the folder: that of its sort index, or the GUID where
    /// the sort index is not known.
    pub open spec fn name(self) -> Seq<char> {
        match self.sort_index {
            RootShellItemSortIndex::UNKNOWN(_) => self.guid.text(),
            other => other.label(),
        }
    }
}

/// What decoding a root folder at `p` gives, and where it leaves the
/// position: a byte that is passed over, the sort index, and the GUID.
#[verifier::opaque]
pub open spec fn spec_root(s: Seq<u8>, p: int) -> (Result<RootShellItemView, ReaderError>, int) {
    if has_bytes(s, p, 18) {
        (
            Ok(
                RootShellItemView {
                    sort_index: RootShellItemSortIndex::spec_from(s[p + 1]),
                    guid: GuidView::at(s, p + 2),
                },
            ),
            p + 18,
        )
    } else {
        (Err(ReaderError::truncated()), s.len() as int)
    }
}

/// What a decoded root folder holds, with the error kept as it is.
pub open spec fn root_of(r: Result<RootShellItem, ReaderError>) -> Result<
    RootShellItemView,
    ReaderError,
> {
    match r {
        Ok(item) => Ok(item@),
        Err(e) => Err(e),
    }
}

impl RootShellItem {
    /// Decodes the root folder at the start of `buf`.
    pub fn from_buffer(buf: &[u8]) -> (r: Result<RootShellItem, ReaderError>)
        ensures
            root_of(r) == spec_root(buf@, 0).0,
    {
        let mut stream = ByteCursor::new(buf);
        RootShellItem::from_reader(&mut stream)
    }

    /// Decodes the root folder at the position of the stream.
    pub fn from_reader(r: &mut ByteCursor) -> (res: Result<RootShellItem, ReaderError>)
        requires
            old(r).wf(),
        ensures
            final(r).wf(),
            final(r).bytes() == old(r).bytes(),
            (root_of(res), final(r).position()) == spec_root(old(r).bytes(), old(r).position()),
    {
        reveal(spec_root);
        let _class_type = r.read_u8()?;
        let sort_index = RootShellItemSortIndex::from(r.read_u8()?);
        let guid = Guid::from_reader(r)?;
        Ok(RootShellItem { sort_index, guid })
    }
}

impl Name for RootShellItem {
    open spec fn spec_name(&self) -> Seq<char> {
        self@.name()
    }

    fn name(&self) -> (name: String) {
        match &self.sort_index {
            RootShellItemSortIndex::UNKNOWN(_) => self.guid.to_string(),
            other => other.to_string(),
        }
    }
}

} // verus!
