//! The shell item of a folder of the user's files, which wraps the shell
//! item of the folder itself.
use super::placeholder;
use super::spec_shell_item_nested;
use super::MAX_NESTING;
use super::Name;
use super::ShellItem;
use super::ShellItemView;
use crate::cursor::first_nonzero;
use crate::cursor::has_bytes;
use crate::cursor::le16_at;
use crate::cursor::ByteCursor;
use crate::reader_error::IoFailure;
use crate::reader_error::ReaderError;
use crate::structs::extra_data_block::block_view;
use crate::structs::extra_data_block::spec_extra_block;
use crate::structs::extra_data_block::ExtraDataBlock;
use crate::structs::extra_data_block::ExtraDataBlockView;
use crate::structs::guid::Guid;
use crate::structs::guid::GuidView;
use crate::utils::read_utf8_string;
use crate::utils::spec_read_utf8_string;
use vstd::prelude::*;

verus! {

/// A folder of the user's files: the shell item that it wraps, where it
/// wraps one, the GUID of the delegate, the GUID of the item, and the
/// extension block.
#[derive(Debug)]
pub struct UsersFilesFolderShellItem {
    pub file_entry: Box<Option<ShellItem>>,
    pub delegate_guid: Guid,
    pub item_guid: Guid,
    pub extention_block: Option<ExtraDataBlock>,
}

/// What a `UsersFilesFolderShellItem` holds.
pub struct UsersFilesFolderShellItemView {
    pub file_entry: Option<Box<ShellItemView>>,
    pub delegate_guid: GuidView,
    pub item_guid: GuidView,
    pub extention_block: Option<ExtraDataBlockView>,
}

impl UsersFilesFolderShellItemView {
    /// The name for a path: that of the wrapped item, or the placeholder
    /// where none is wrapped.
    pub open spec fn name(self) -> Seq<char>
        decreases self,
    {
        match self.file_entry {
            Some(item) => item.name(),
            None => placeholder(),
        }
    }
}

/// True for the GUID `5E591A74-DF96-48D3-8D67-1733BCEE28BA`, by which the
/// delegate of these items is known.
pub open spec fn is_delegate_guid(guid: GuidView) -> bool {
    guid.data1 == 0x5E59_1A74 && guid.data2 == 0xDF96 && guid.data3 == 0x48D3 && guid.data4
        == seq![0x8Du8, 0x67u8, 0x17u8, 0x33u8, 0xBCu8, 0xEEu8, 0x28u8, 0xBAu8]
}

/// The known delegate is the GUID that is written
/// `5E591A74-DF96-48D3-8D67-1733BCEE28BA`.
pub proof fn lemma_delegate_guid_text(guid: GuidView)
    requires
        is_delegate_guid(guid),
    ensures
        guid.text() == "5E591A74-DF96-48D3-8D67-1733BCEE28BA"@,
{
    reveal_strlit("5E591A74-DF96-48D3-8D67-1733BCEE28BA");
    assert(guid.text() =~= "5E591A74-DF96-48D3-8D67-1733BCEE28BA"@);
}

/// The number of bytes before the wrapped item: two that are passed over,
/// the size, and the signature.
pub const WRAPPED_OFFSET: usize = 8;

/// The position after the wrapped item of the folder at `p`, and the
/// wrapped item, where `depth` items may be wrapped in one another: none
/// where the signature is not `CFSF`. The signature `CF` is known and has
/// no decoder. An item that is wrapped deeper than `depth` allows is
/// refused as invalid data.
pub open spec fn spec_wrapped_item(s: Seq<u8>, p: int, depth: nat) -> (
    Result<Option<ShellItemView>, ReaderError>,
    int,
)
    decreases depth, 0int,
{
    let cut = (Err(ReaderError::truncated()), s.len() as int);
    if !has_bytes(s, p, 4) {
        cut
    } else {
        let size = le16_at(s, p + 2);
        match spec_read_utf8_string(s, p + 4, Some(4usize)) {
            (Err(e), q) => (Err(e), q),
            (Ok(signature), _) => if size < 6 || !has_bytes(s, p, size + 2) {
                cut
            } else if signature == "CFSF"@ {
                if depth == 0 {
                    (Err(ReaderError::IoError(IoFailure::InvalidData)), p + size + 2)
                } else {
                    match spec_shell_item_nested(
                        s.subrange(p + WRAPPED_OFFSET as int, p + size + 2),
                        0,
                        (depth - 1) as nat,
                    ).0 {
                        Ok(item) => (Ok(Some(item)), p + size + 2),
                        Err(e) => (Err(e), p + size + 2),
                    }
                }
            } else if signature == "CF"@ {
                (Err(ReaderError::IoError(IoFailure::NotImplemented)), p + size + 2)
            } else {
                (Ok(None), p + size + 2)
            },
        }
    }
}

/// What decoding the rest of a folder gives after its wrapped item, which
/// ends before `q`: at the first byte that is not zero the GUID of the
/// delegate, which has to be the known one, then the GUID of the item and
/// the extension block, which has to decode.
pub open spec fn spec_after_wrapped_item(s: Seq<u8>, q: int, wrapped: Option<ShellItemView>) -> (
    Result<UsersFilesFolderShellItemView, ReaderError>,
    int,
) {
    let cut = (Err(ReaderError::truncated()), s.len() as int);
    let g = first_nonzero(s, q);
    if !has_bytes(s, g, 16) {
        cut
    } else if !is_delegate_guid(GuidView::at(s, g)) {
        (Err(ReaderError::IoError(IoFailure::InvalidData)), g + 16)
    } else if !has_bytes(s, g, 32) {
        cut
    } else {
        match spec_extra_block(s, g + 32) {
            (Err(e), q2) => (Err(e), q2),
            (Ok(block), q2) => (
                Ok(
                    UsersFilesFolderShellItemView {
                        file_entry: match wrapped {
                            Some(item) => Some(Box::new(item)),
                            None => None,
                        },
                        delegate_guid: GuidView::at(s, g),
                        item_guid: GuidView::at(s, g + 16),
                        extention_block: block,
                    },
                ),
                q2,
            ),
        }
    }
}

/// What decoding a folder of the user's files at `p` gives, and where it
/// leaves the position, where `depth` items may be wrapped in one
/// another.
#[verifier::opaque]
pub open spec fn spec_users_files_folder_nested(s: Seq<u8>, p: int, depth: nat) -> (
    Result<UsersFilesFolderShellItemView, ReaderError>,
    int,
)
    decreases depth, 1int,
{
    match spec_wrapped_item(s, p, depth) {
        (Err(e), q) => (Err(e), q),
        (Ok(wrapped), q) => spec_after_wrapped_item(s, q, wrapped),
    }
}

/// What decoding a folder of the user's files at `p` gives, and where it
/// leaves the position.
pub open spec fn spec_users_files_folder(s: Seq<u8>, p: int) -> (
    Result<UsersFilesFolderShellItemView, ReaderError>,
    int,
) {
    spec_users_files_folder_nested(s, p, MAX_NESTING as nat)
}

/// A folder whose delegate is not the known one is refused as invalid
/// data, whatever follows the GUID of the delegate.
pub proof fn lemma_unknown_delegate_is_invalid_data(s: Seq<u8>, p: int)
    requires
        spec_wrapped_item(s, p, MAX_NESTING as nat).0 is Ok,
        has_bytes(s, first_nonzero(s, spec_wrapped_item(s, p, MAX_NESTING as nat).1), 16),
        !is_delegate_guid(
            GuidView::at(s, first_nonzero(s, spec_wrapped_item(s, p, MAX_NESTING as nat).1)),
        ),
    ensures
        spec_users_files_folder(s, p).0 == Err::<UsersFilesFolderShellItemView, ReaderError>(
            ReaderError::IoError(IoFailure::InvalidData),
        ),
        spec_users_files_folder(s, p).1 == first_nonzero(
            s,
            spec_wrapped_item(s, p, MAX_NESTING as nat).1,
        ) + 16,
{
    reveal(spec_users_files_folder_nested);
}

/// What a decoded wrapped item holds, with the error kept as it is.
pub open spec fn wrapped_item_of(r: Result<Option<ShellItem>, ReaderError>) -> Result<
    Option<ShellItemView>,
    ReaderError,
> {
    match r {
        Ok(Some(item)) => Ok(Some(item@)),
        Ok(None) => Ok(None),
        Err(e) => Err(e),
    }
}

/// What a decoded folder holds, with the error kept as it is.
pub open spec fn users_files_folder_of(r: Result<UsersFilesFolderShellItem, ReaderError>) -> Result<
    UsersFilesFolderShellItemView,
    ReaderError,
> {
    match r {
        Ok(item) => Ok(item.folder_view()),
        Err(e) => Err(e),
    }
}

impl UsersFilesFolderShellItem {
    /// What the folder holds.
    pub open spec fn folder_view(&self) -> UsersFilesFolderShellItemView
        decreases self,
    {
        UsersFilesFolderShellItemView {
            file_entry: match *self.file_entry {
                Some(item) => Some(Box::new(item.item_view())),
                None => None,
            },
            delegate_guid: self.delegate_guid@,
            item_guid: self.item_guid@,
            extention_block: block_view(self.extention_block),
        }
    }

    /// Decodes the folder at the start of `buf`.
    pub fn from_buffer(buf: &[u8]) -> (r: Result<UsersFilesFolderShellItem, ReaderError>)
        ensures
            users_files_folder_of(r) == spec_users_files_folder(buf@, 0).0,
    {
        UsersFilesFolderShellItem::from_buffer_nested(buf, MAX_NESTING)
    }

    /// Decodes the folder at the start of `buf`, where `depth` items may
    /// be wrapped in one another.
    pub fn from_buffer_nested(buf: &[u8], depth: usize) -> (r: Result<
        UsersFilesFolderShellItem,
        ReaderError,
    >)
        ensures
            users_files_folder_of(r) == spec_users_files_folder_nested(buf@, 0, depth as nat).0,
        decreases depth, 1int, 1int,
    {
        let mut stream = ByteCursor::new(buf);
        UsersFilesFolderShellItem::from_reader_nested(&mut stream, depth)
    }

    /// Decodes the folder at the position of the stream.
    pub fn from_reader(r: &mut ByteCursor) -> (res: Result<UsersFilesFolderShellItem, ReaderError>)
        requires
            old(r).wf(),
        ensures
            final(r).wf(),
            final(r).bytes() == old(r).bytes(),
            (users_files_folder_of(res), final(r).position()) == spec_users_files_folder(
                old(r).bytes(),
                old(r).position(),
            ),
    {
        UsersFilesFolderShellItem::from_reader_nested(r, MAX_NESTING)
    }

    /// Decodes the folder at the position of the stream, where `depth`
    /// items may be wrapped in one another.
    pub fn from_reader_nested(r: &mut ByteCursor, depth: usize) -> (res: Result<
        UsersFilesFolderShellItem,
        ReaderError,
    >)
        requires
            old(r).wf(),
        ensures
            final(r).wf(),
            final(r).bytes() == old(r).bytes(),
            (users_files_folder_of(res), final(r).position()) == spec_users_files_folder_nested(
                old(r).bytes(),
                old(r).position(),
                depth as nat,
            ),
        decreases depth, 1int, 0int,
    {
        reveal(spec_users_files_folder_nested);
        let file_entry = UsersFilesFolderShellItem::read_wrapped_item(r, depth)?;
        if !r.skip_zeros() {
            return Err(ReaderError::truncated_error());
        }
        let delegate_guid = Guid::from_reader(r)?;
        if !is_delegate(&delegate_guid) {
            return Err(ReaderError::IoError(IoFailure::InvalidData));
        }
        let item_guid = Guid::from_reader(r)?;
        let extention_block = ExtraDataBlock::from_reader(r)?;
        Ok(
            UsersFilesFolderShellItem {
                file_entry: Box::new(file_entry),
                delegate_guid,
                item_guid,
                extention_block,
            },
        )
    }

    /// Decodes the start of a folder: the size, the signature, and the
    /// shell item that the folder wraps.
    fn read_wrapped_item(r: &mut ByteCursor, depth: usize) -> (res: Result<
        Option<ShellItem>,
        ReaderError,
    >)
        requires
            old(r).wf(),
        ensures
            final(r).wf(),
            final(r).bytes() == old(r).bytes(),
            (wrapped_item_of(res), final(r).position()) == spec_wrapped_item(
                old(r).bytes(),
                old(r).position(),
                depth as nat,
            ),
        decreases depth, 0int,
    {
        r.read_u16()?;
        let size = r.read_u16()?;
        let sig = read_utf8_string(r, Some(4))?;
        if size < 6 {
            r.skip(r.remaining());
            return Err(ReaderError::truncated_error());
        }
        let shell_item_data = r.take((size - 6) as usize)?;
        if sig == "CFSF".to_string() {
            if depth == 0 {
                return Err(ReaderError::IoError(IoFailure::InvalidData));
            }
            let mut wrapped = ByteCursor::new(shell_item_data);
            match ShellItem::from_reader_nested(&mut wrapped, depth - 1) {
                Ok(item) => Ok(Some(item)),
                Err(e) => Err(e),
            }
        } else if sig == "CF".to_string() {
            Err(ReaderError::IoError(IoFailure::NotImplemented))
        } else {
            Ok(None)
        }
    }

    /// The name for a path: that of the wrapped item, or the placeholder
    /// where none is wrapped.
    pub fn path_name(&self) -> (name: String)
        ensures
            name@ == self.folder_view().name(),
        decreases self,
    {
        match &*self.file_entry {
            Some(shell_item) => shell_item.path_name(),
            None => "{NONE}".to_string(),
        }
    }
}

/// Tells whether a GUID is that of the known delegate.
fn is_delegate(guid: &Guid) -> (known: bool)
    ensures
        known == is_delegate_guid(guid@),
{
    let known = guid.data1 == 0x5E59_1A74 && guid.data2 == 0xDF96 && guid.data3 == 0x48D3
        && guid.data4[0] == 0x8D && guid.data4[1] == 0x67 && guid.data4[2] == 0x17 && guid.data4[3]
        == 0x33 && guid.data4[4] == 0xBC && guid.data4[5] == 0xEE && guid.data4[6] == 0x28
        && guid.data4[7] == 0xBA;
    proof {
        if known {
            assert(guid.data4@ =~= seq![
                0x8Du8,
                0x67u8,
                0x17u8,
                0x33u8,
                0xBCu8,
                0xEEu8,
                0x28u8,
                0xBAu8,
            ]);
        }
    }
    known
}

impl View for UsersFilesFolderShellItem {
    type V = UsersFilesFolderShellItemView;

    open spec fn view(&self) -> UsersFilesFolderShellItemView {
        self.folder_view()
    }
}

impl Name for UsersFilesFolderShellItem {
    open spec fn spec_name(&self) -> Seq<char> {
        self@.name()
    }

    fn name(&self) -> (name: String) {
        self.path_name()
    }
}

} // verus!
