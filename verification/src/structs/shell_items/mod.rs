//! The records of an ID list: one structure for each kind of shell item,
//! and the record that tells them apart by its tag.
use crate::cursor::has_bytes;
use crate::cursor::le16_at;
use crate::cursor::ByteCursor;
use crate::reader_error::ReaderError;
use crate::text::hex_bytes;
use crate::text::push_hex_byte;
use crate::text::string_from_chars;
use vstd::prelude::*;
use vstd::slice::slice_to_vec;

pub mod control_panel_category;
pub mod control_panel_item;
pub mod file_entry;
pub mod id_list;
pub mod network_location;
pub mod root;
pub mod uri;
pub mod users_files_folder;
pub mod volume;

use control_panel_category::spec_control_panel_category;
use control_panel_item::spec_control_panel_item;
use control_panel_item::ControlPanelItemShellItemView;
use file_entry::spec_file_entry;
use file_entry::FileEntryShellItemView;
use network_location::spec_network_location;
use network_location::NetworkLocationShellItemView;
use root::spec_root;
use root::RootShellItemView;
use uri::spec_uri;
use uri::URIShellItemView;
use users_files_folder::spec_users_files_folder_nested;
use users_files_folder::UsersFilesFolderShellItemView;
use volume::spec_volume;
use volume::VolumeShellItemView;

pub use control_panel_category::ControlPanelCategory;
pub use control_panel_category::ControlPanelCategoryShellItem;
pub use control_panel_item::ControlPanelItemShellItem;
pub use file_entry::FileEntryShellItem;
pub use id_list::IDList;
pub use network_location::NetworkLocationShellItem;
pub use root::RootShellItem;
pub use root::RootShellItemSortIndex;
pub use uri::URIShellItem;
pub use users_files_folder::UsersFilesFolderShellItem;
pub use volume::VolumeShellItem;

verus! {

/// The part of a path that a shell item stands for.
pub trait Name {
    /// The name, as a sequence of characters.
    spec fn spec_name(&self) -> Seq<char>;

    /// The name.
    fn name(&self) -> (name: String)
        ensures
            name@ == self.spec_name(),
    ;
}

/// The name of a shell item that has none to give to a path.
pub open spec fn placeholder() -> Seq<char> {
    "{NONE}"@
}

/// A shell item of a kind that has no decoder: its bytes, tag included.
#[derive(Debug)]
pub struct UnimplementedShellItem(pub Vec<u8>);

impl View for UnimplementedShellItem {
    type V = Seq<u8>;

    open spec fn view(&self) -> Seq<u8> {
        self.0@
    }
}

impl UnimplementedShellItem {
    /// The bytes in hexadecimal digits.
    pub fn to_string(&self) -> (text: String)
        ensures
            text@ == hex_bytes(self@),
    {
        let mut out: Vec<char> = Vec::new();
        let mut i: usize = 0;
        while i < self.0.len()
            invariant
                i <= self.0@.len(),
                out@ == hex_bytes(self.0@.take(i as int)),
            decreases self.0@.len() - i,
        {
            push_hex_byte(&mut out, self.0[i]);
            proof {
                assert(self.0@.take(i + 1).drop_last() =~= self.0@.take(i as int));
            }
            i = i + 1;
        }
        proof {
            assert(self.0@.take(i as int) =~= self.0@);
        }
        string_from_chars(out.as_slice())
    }
}

/// The kinds of shell items that the tag of a record tells apart.
#[derive(Clone, Copy, Debug, PartialEq, Eq, Structural)]
pub enum ShellItemKind {
    Root,
    Volume,
    FileEntry,
    NetworkLocation,
    UsersFilesFolder,
    URI,
    ControlPanelCategory,
    ControlPanelItem,
    Unimplemented,
}

/// The bits of the tag that hold the class of the item.
pub const CLASS_MASK: u8 = 0x70;

impl ShellItemKind {
    /// The kind that a tag stands for. The class bits decide first; where
    /// they name no class, the whole tag decides; a tag that names no kind
    /// is not implemented.
    pub open spec fn spec_of_tag(tag: u8) -> ShellItemKind {
        if tag & CLASS_MASK == 0x10 {
            ShellItemKind::Root
        } else if tag & CLASS_MASK == 0x20 {
            ShellItemKind::Volume
        } else if tag & CLASS_MASK == 0x30 {
            ShellItemKind::FileEntry
        } else if tag & CLASS_MASK == 0x40 {
            ShellItemKind::NetworkLocation
        } else if tag == 0x74 {
            ShellItemKind::UsersFilesFolder
        } else if tag == 0x61 {
            ShellItemKind::URI
        } else if tag == 0x01 {
            ShellItemKind::ControlPanelCategory
        } else if tag == 0x71 {
            ShellItemKind::ControlPanelItem
        } else {
            ShellItemKind::Unimplemented
        }
    }

    /// The kind that a tag stands for.
    pub fn of_tag(tag: u8) -> (kind: ShellItemKind)
        ensures
            kind == ShellItemKind::spec_of_tag(tag),
    {
        if tag & CLASS_MASK == 0x10 {
            ShellItemKind::Root
        } else if tag & CLASS_MASK == 0x20 {
            ShellItemKind::Volume
        } else if tag & CLASS_MASK == 0x30 {
            ShellItemKind::FileEntry
        } else if tag & CLASS_MASK == 0x40 {
            ShellItemKind::NetworkLocation
        } else if tag == 0x74 {
            ShellItemKind::UsersFilesFolder
        } else if tag == 0x61 {
            ShellItemKind::URI
        } else if tag == 0x01 {
            ShellItemKind::ControlPanelCategory
        } else if tag == 0x71 {
            ShellItemKind::ControlPanelItem
        } else {
            ShellItemKind::Unimplemented
        }
    }
}

/// The decoded data of a shell item, by kind.
#[derive(Debug)]
pub enum ShellItemTypes {
    FileEntry(FileEntryShellItem),
    Volume(VolumeShellItem),
    Root(RootShellItem),
    NetworkLocation(NetworkLocationShellItem),
    UsersFilesFolder(UsersFilesFolderShellItem),
    URI(URIShellItem),
    ControlPanelCategory(ControlPanelCategoryShellItem),
    ControlPanelItem(ControlPanelItemShellItem),
    Unimplemented(UnimplementedShellItem),
}

/// What a `ShellItemTypes` holds.
pub enum ShellItemTypesView {
    FileEntry(FileEntryShellItemView),
    Volume(VolumeShellItemView),
    Root(RootShellItemView),
    NetworkLocation(NetworkLocationShellItemView),
    UsersFilesFolder(UsersFilesFolderShellItemView),
    URI(URIShellItemView),
    ControlPanelCategory(ControlPanelCategoryShellItem),
    ControlPanelItem(ControlPanelItemShellItemView),
    Unimplemented(Seq<u8>),
}

/// One record of an ID list: its size, its tag and the decoded data.
#[derive(Debug)]
pub struct ShellItem {
    /// The size of the record in bytes, the two of the size included.
    pub size: u16,
    /// The tag that tells the kind of the item.
    pub class_type: u8,
    /// The decoded data.
    pub shell_item_data: Option<ShellItemTypes>,
}

/// What a `ShellItem` holds.
pub struct ShellItemView {
    pub size: u16,
    pub class_type: u8,
    pub shell_item_data: Option<ShellItemTypesView>,
}

impl ShellItemTypes {
    /// What the data holds.
    pub open spec fn data_view(&self) -> ShellItemTypesView
        decreases self,
    {
        match self {
            ShellItemTypes::FileEntry(item) => ShellItemTypesView::FileEntry(item@),
            ShellItemTypes::Volume(item) => ShellItemTypesView::Volume(item@),
            ShellItemTypes::Root(item) => ShellItemTypesView::Root(item@),
            ShellItemTypes::NetworkLocation(item) => ShellItemTypesView::NetworkLocation(item@),
            ShellItemTypes::UsersFilesFolder(item) => ShellItemTypesView::UsersFilesFolder(
                item.folder_view(),
            ),
            ShellItemTypes::URI(item) => ShellItemTypesView::URI(item@),
            ShellItemTypes::ControlPanelCategory(item) => ShellItemTypesView::ControlPanelCategory(
                *item,
            ),
            ShellItemTypes::ControlPanelItem(item) => ShellItemTypesView::ControlPanelItem(item@),
            ShellItemTypes::Unimplemented(item) => ShellItemTypesView::Unimplemented(item@),
        }
    }
}

impl ShellItem {
    /// What the record holds.
    pub open spec fn item_view(&self) -> ShellItemView
        decreases self,
    {
        ShellItemView {
            size: self.size,
            class_type: self.class_type,
            shell_item_data: match self.shell_item_data {
                Some(data) => Some(data.data_view()),
                None => None,
            },
        }
    }
}

impl View for ShellItemTypes {
    type V = ShellItemTypesView;

    open spec fn view(&self) -> ShellItemTypesView {
        self.data_view()
    }
}

impl View for ShellItem {
    type V = ShellItemView;

    open spec fn view(&self) -> ShellItemView {
        self.item_view()
    }
}

impl ShellItemTypesView {
    /// The name that the data gives to a path: that of the item, or the
    /// placeholder for a kind that gives none.
    pub open spec fn name(self) -> Seq<char>
        decreases self,
    {
        match self {
            ShellItemTypesView::Root(item) => item.name(),
            ShellItemTypesView::Volume(item) => match item.name {
                Some(n) => n,
                None => Seq::empty(),
            },
            ShellItemTypesView::FileEntry(item) => item.path_name(),
            ShellItemTypesView::URI(item) => item.uri,
            ShellItemTypesView::ControlPanelCategory(item) => item.cat_type.label(),
            ShellItemTypesView::UsersFilesFolder(item) => item.name(),
            ShellItemTypesView::ControlPanelItem(item) => item.guid.text(),
            _ => placeholder(),
        }
    }
}

impl ShellItemView {
    /// The name that the record gives to a path.
    pub open spec fn name(self) -> Seq<char>
        decreases self,
    {
        match self.shell_item_data {
            Some(data) => data.name(),
            None => placeholder(),
        }
    }
}

/// The number of shell items that may be wrapped in one another in one
/// record.
pub const MAX_NESTING: usize = 32;

/// What decoding the data of a shell item of the given kind from `sub`
/// gives, where `depth` more items may be wrapped in one another. The
/// bytes of a kind that is not implemented are kept as they are.
pub open spec fn spec_shell_item_data(kind: ShellItemKind, sub: Seq<u8>, depth: nat) -> Result<
    ShellItemTypesView,
    ReaderError,
>
    decreases depth, 2int,
{
    match kind {
        ShellItemKind::Root => match spec_root(sub, 0).0 {
            Ok(item) => Ok(ShellItemTypesView::Root(item)),
            Err(e) => Err(e),
        },
        ShellItemKind::Volume => match spec_volume(sub, 0).0 {
            Ok(item) => Ok(ShellItemTypesView::Volume(item)),
            Err(e) => Err(e),
        },
        ShellItemKind::FileEntry => match spec_file_entry(sub, 0).0 {
            Ok(item) => Ok(ShellItemTypesView::FileEntry(item)),
            Err(e) => Err(e),
        },
        ShellItemKind::NetworkLocation => match spec_network_location(sub, 0).0 {
            Ok(item) => Ok(ShellItemTypesView::NetworkLocation(item)),
            Err(e) => Err(e),
        },
        ShellItemKind::UsersFilesFolder => match spec_users_files_folder_nested(sub, 0, depth).0 {
            Ok(item) => Ok(ShellItemTypesView::UsersFilesFolder(item)),
            Err(e) => Err(e),
        },
        ShellItemKind::URI => match spec_uri(sub, 0).0 {
            Ok(item) => Ok(ShellItemTypesView::URI(item)),
            Err(e) => Err(e),
        },
        ShellItemKind::ControlPanelCategory => match spec_control_panel_category(sub, 0).0 {
            Ok(item) => Ok(ShellItemTypesView::ControlPanelCategory(item)),
            Err(e) => Err(e),
        },
        ShellItemKind::ControlPanelItem => match spec_control_panel_item(sub, 0).0 {
            Ok(item) => Ok(ShellItemTypesView::ControlPanelItem(item)),
            Err(e) => Err(e),
        },
        ShellItemKind::Unimplemented => Ok(ShellItemTypesView::Unimplemented(sub)),
    }
}

/// True where a whole record lies at `p`: its size, which counts its own
/// two bytes, a tag to look at, and the bytes that the size calls for.
pub open spec fn record_lies_at(s: Seq<u8>, p: int) -> bool {
    has_bytes(s, p, 3) && le16_at(s, p) >= 2 && has_bytes(s, p, le16_at(s, p) as int)
}

/// What decoding a record at `p` gives, and where it leaves the position,
/// where `depth` more items may be wrapped in one another. Where no
/// whole record lies at `p` the error is `Truncated`, at the end of the
/// buffer. Else the position moves over the record, and the data is
/// decoded from its bytes after the size, by the kind of the tag, the
/// first of them.
pub open spec fn spec_shell_item_nested(s: Seq<u8>, p: int, depth: nat) -> (
    Result<ShellItemView, ReaderError>,
    int,
)
    decreases depth, 3int,
{
    if !record_lies_at(s, p) {
        (Err(ReaderError::truncated()), s.len() as int)
    } else {
        let size = le16_at(s, p);
        let class_type = s[p + 2];
        match spec_shell_item_data(
            ShellItemKind::spec_of_tag(class_type),
            s.subrange(p + 2, p + size),
            depth,
        ) {
            Ok(data) => (Ok(ShellItemView { size, class_type, shell_item_data: Some(data) }), p + size),
            Err(e) => (Err(e), p + size),
        }
    }
}

/// What decoding a record at `p` gives, and where it leaves the position.
pub open spec fn spec_shell_item(s: Seq<u8>, p: int) -> (Result<ShellItemView, ReaderError>, int) {
    spec_shell_item_nested(s, p, MAX_NESTING as nat)
}

/// A record whose tag is `0x01` is decoded as a category of the control
/// panel, whatever else it holds: it gives that category, or the error
/// of its decoder.
pub proof fn lemma_tag_of_control_panel_category(s: Seq<u8>, p: int)
    requires
        record_lies_at(s, p),
        s[p + 2] == 0x01,
    ensures
        spec_shell_item(s, p).1 == p + le16_at(s, p),
        spec_shell_item(s, p).0 == (match spec_control_panel_category(
            s.subrange(p + 2, p + le16_at(s, p)),
            0,
        ).0 {
            Ok(item) => Ok::<ShellItemView, ReaderError>(
                ShellItemView {
                    size: le16_at(s, p),
                    class_type: 0x01,
                    shell_item_data: Some(ShellItemTypesView::ControlPanelCategory(item)),
                },
            ),
            Err(e) => Err::<ShellItemView, ReaderError>(e),
        }),
{
    lemma_whole_tags_keep_their_kind();
}

/// The class bits of the four tags that are told by their whole value
/// name no class, so each of the four keeps its kind.
pub proof fn lemma_whole_tags_keep_their_kind()
    ensures
        ShellItemKind::spec_of_tag(0x74) == ShellItemKind::UsersFilesFolder,
        ShellItemKind::spec_of_tag(0x61) == ShellItemKind::URI,
        ShellItemKind::spec_of_tag(0x01) == ShellItemKind::ControlPanelCategory,
        ShellItemKind::spec_of_tag(0x71) == ShellItemKind::ControlPanelItem,
{
    assert(0x74u8 & 0x70u8 == 0x70u8) by (bit_vector);
    assert(0x61u8 & 0x70u8 == 0x60u8) by (bit_vector);
    assert(0x01u8 & 0x70u8 == 0x00u8) by (bit_vector);
    assert(0x71u8 & 0x70u8 == 0x70u8) by (bit_vector);
}

/// Where the class bits of a tag name a class, the other bits of the tag
/// do not change the kind.
pub proof fn lemma_class_bits_decide(tag: u8, other: u8)
    requires
        tag & CLASS_MASK == other & CLASS_MASK,
        ShellItemKind::spec_of_tag(tag) == ShellItemKind::Root || ShellItemKind::spec_of_tag(tag)
            == ShellItemKind::Volume || ShellItemKind::spec_of_tag(tag) == ShellItemKind::FileEntry
            || ShellItemKind::spec_of_tag(tag) == ShellItemKind::NetworkLocation,
    ensures
        ShellItemKind::spec_of_tag(other) == ShellItemKind::spec_of_tag(tag),
{
}

/// A record decodes in a longer buffer as it decodes alone: what lies
/// before it and after it does not count.
pub proof fn lemma_record_decodes_alone(s: Seq<u8>, p: int, record: Seq<u8>)
    requires
        0 <= p,
        p + record.len() <= s.len(),
        s.subrange(p, p + record.len()) == record,
        record_lies_at(record, 0),
        le16_at(record, 0) == record.len(),
    ensures
        record_lies_at(s, p),
        le16_at(s, p) == record.len(),
        spec_shell_item(s, p).0 == spec_shell_item(record, 0).0,
        spec_shell_item(s, p).1 == p + record.len(),
{
    assert(record[0] == s[p] && record[1] == s[p + 1] && record[2] == s[p + 2]) by {
        assert(s.subrange(p, p + record.len())[0] == s[p]);
        assert(s.subrange(p, p + record.len())[1] == s[p + 1]);
        assert(s.subrange(p, p + record.len())[2] == s[p + 2]);
    }
    assert(s.subrange(p + 2, p + record.len()) =~= record.subrange(2, record.len() as int));
}

/// What a decoded record holds, with the error kept as it is.
pub open spec fn shell_item_of(r: Result<ShellItem, ReaderError>) -> Result<
    ShellItemView,
    ReaderError,
> {
    match r {
        Ok(item) => Ok(item@),
        Err(e) => Err(e),
    }
}

/// What decoded data holds, with the error kept as it is.
pub open spec fn shell_item_data_of(r: Result<ShellItemTypes, ReaderError>) -> Result<
    ShellItemTypesView,
    ReaderError,
> {
    match r {
        Ok(data) => Ok(data@),
        Err(e) => Err(e),
    }
}

impl ShellItemTypes {
    /// Decodes the data of a shell item of the given kind from `buf`.
    pub fn from_buffer(kind: ShellItemKind, buf: &[u8]) -> (r: Result<ShellItemTypes, ReaderError>)
        ensures
            shell_item_data_of(r) == spec_shell_item_data(kind, buf@, MAX_NESTING as nat),
    {
        ShellItemTypes::from_buffer_nested(kind, buf, MAX_NESTING)
    }

    /// Decodes the data of a shell item of the given kind from `buf`,
    /// where `depth` more items may be wrapped in one another.
    pub fn from_buffer_nested(kind: ShellItemKind, buf: &[u8], depth: usize) -> (r: Result<
        ShellItemTypes,
        ReaderError,
    >)
        ensures
            shell_item_data_of(r) == spec_shell_item_data(kind, buf@, depth as nat),
        decreases depth, 2int,
    {
        match kind {
            ShellItemKind::Root => match RootShellItem::from_buffer(buf) {
                Ok(item) => Ok(ShellItemTypes::Root(item)),
                Err(e) => Err(e),
            },
            ShellItemKind::Volume => match VolumeShellItem::from_buffer(buf) {
                Ok(item) => Ok(ShellItemTypes::Volume(item)),
                Err(e) => Err(e),
            },
            ShellItemKind::FileEntry => match FileEntryShellItem::from_buffer(buf) {
                Ok(item) => Ok(ShellItemTypes::FileEntry(item)),
                Err(e) => Err(e),
            },
            ShellItemKind::NetworkLocation => match NetworkLocationShellItem::from_buffer(buf) {
                Ok(item) => Ok(ShellItemTypes::NetworkLocation(item)),
                Err(e) => Err(e),
            },
            ShellItemKind::UsersFilesFolder => match UsersFilesFolderShellItem::from_buffer_nested(
                buf,
                depth,
            ) {
                Ok(item) => Ok(ShellItemTypes::UsersFilesFolder(item)),
                Err(e) => Err(e),
            },
            ShellItemKind::URI => match URIShellItem::from_buffer(buf) {
                Ok(item) => Ok(ShellItemTypes::URI(item)),
                Err(e) => Err(e),
            },
            ShellItemKind::ControlPanelCategory => match ControlPanelCategoryShellItem::from_buffer(
                buf,
            ) {
                Ok(item) => Ok(ShellItemTypes::ControlPanelCategory(item)),
                Err(e) => Err(e),
            },
            ShellItemKind::ControlPanelItem => match ControlPanelItemShellItem::from_buffer(buf) {
                Ok(item) => Ok(ShellItemTypes::ControlPanelItem(item)),
                Err(e) => Err(e),
            },
            ShellItemKind::Unimplemented => Ok(
                ShellItemTypes::Unimplemented(UnimplementedShellItem(slice_to_vec(buf))),
            ),
        }
    }
}

impl ShellItem {
    /// Decodes the record at the start of `buf`.
    pub fn from_buffer(buf: &[u8]) -> (r: Result<ShellItem, ReaderError>)
        ensures
            shell_item_of(r) == spec_shell_item(buf@, 0).0,
    {
        let mut stream = ByteCursor::new(buf);
        ShellItem::from_reader(&mut stream)
    }

    /// Decodes the record at the position of the stream.
    pub fn from_reader(r: &mut ByteCursor) -> (res: Result<ShellItem, ReaderError>)
        requires
            old(r).wf(),
        ensures
            final(r).wf(),
            final(r).bytes() == old(r).bytes(),
            (shell_item_of(res), final(r).position()) == spec_shell_item(
                old(r).bytes(),
                old(r).position(),
            ),
    {
        ShellItem::from_reader_nested(r, MAX_NESTING)
    }

    /// Decodes the record at the position of the stream, where `depth`
    /// more items may be wrapped in one another.
    pub fn from_reader_nested(r: &mut ByteCursor, depth: usize) -> (res: Result<
        ShellItem,
        ReaderError,
    >)
        requires
            old(r).wf(),
        ensures
            final(r).wf(),
            final(r).bytes() == old(r).bytes(),
            (shell_item_of(res), final(r).position()) == spec_shell_item_nested(
                old(r).bytes(),
                old(r).position(),
                depth as nat,
            ),
        decreases depth, 3int,
    {
        let size = r.read_u16()?;
        let class_type = r.read_u8()?;
        r.unread();
        if size < 2 {
            r.skip(r.remaining());
            return Err(ReaderError::truncated_error());
        }
        let shell_item_buf = r.take((size - 2) as usize)?;
        match ShellItemTypes::from_buffer_nested(
            ShellItemKind::of_tag(class_type),
            shell_item_buf,
            depth,
        ) {
            Ok(data) => Ok(ShellItem { size, class_type, shell_item_data: Some(data) }),
            Err(e) => Err(e),
        }
    }

    /// The name that the record gives to a path.
    pub fn path_name(&self) -> (name: String)
        ensures
            name@ == self@.name(),
        decreases self,
    {
        match &self.shell_item_data {
            Some(data) => match data {
                ShellItemTypes::Root(item) => item.name(),
                ShellItemTypes::Volume(item) => item.name(),
                ShellItemTypes::FileEntry(item) => item.name(),
                ShellItemTypes::URI(item) => item.name(),
                ShellItemTypes::ControlPanelCategory(item) => item.name(),
                ShellItemTypes::UsersFilesFolder(item) => item.path_name(),
                ShellItemTypes::ControlPanelItem(item) => item.name(),
                _ => "{NONE}".to_string(),
            },
            None => "{NONE}".to_string(),
        }
    }
}

impl Name for ShellItem {
    open spec fn spec_name(&self) -> Seq<char> {
        self@.name()
    }

    fn name(&self) -> (name: String) {
        self.path_name()
    }
}

} // verus!
