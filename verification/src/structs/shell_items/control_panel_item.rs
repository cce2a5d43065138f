//! The shell item of an item of the control panel.
use super::Name;
use crate::cursor::has_bytes;
use crate::cursor::ByteCursor;
use crate::reader_error::ReaderError;
use crate::structs::extra_data_block::block_view;
use crate::structs::extra_data_block::spec_extra_block_or_none;
use crate::structs::extra_data_block::ExtraDataBlock;
use crate::structs::extra_data_block::ExtraDataBlockView;
use crate::structs::guid::Guid;
use crate::structs::guid::GuidView;
use vstd::prelude::*;

verus! {

/// An item of the control panel: its GUID, and the extension block where
/// one follows and decodes.
#[derive(Debug)]
pub struct ControlPanelItemShellItem {
    pub guid: Guid,
    pub extention_block: Option<ExtraDataBlock>,
}

/// What a `ControlPanelItemShellItem` holds.
pub struct ControlPanelItemShellItemView {
    pub guid: GuidView,
    pub extention_block: Option<ExtraDataBlockView>,
}

impl View for ControlPanelItemShellItem {
    type V = ControlPanelItemShellItemView;

    open spec fn view(&self) -> ControlPanelItemShellItemView {
        ControlPanelItemShellItemView {
            guid: self.guid@,
            extention_block: block_view(self.extention_block),
        }
    }
}

/// The number of bytes before the GUID.
pub const GUID_OFFSET: usize = 12;

/// What decoding an item of the control panel at `p` gives, and where it
/// leaves the position: twelve bytes that are passed over, the GUID, and
/// the extension block, for which a failure counts as none.
#[verifier::opaque]
pub open spec fn spec_control_panel_item(s: Seq<u8>, p: int) -> (
    Result<ControlPanelItemShellItemView, ReaderError>,
    int,
) {
    if has_bytes(s, p, 28) {
        let block = spec_extra_block_or_none(s, p + 28);
        (
            Ok(
                ControlPanelItemShellItemView {
                    guid: GuidView::at(s, p + 12),
                    extention_block: block.0,
                },
            ),
            block.1,
        )
    } else {
        (Err(ReaderError::truncated()), s.len() as int)
    }
}

/// What a decoded item holds, with the error kept as it is.
pub open spec fn control_panel_item_of(r: Result<ControlPanelItemShellItem, ReaderError>) -> Result<
    ControlPanelItemShellItemView,
    ReaderError,
> {
    match r {
        Ok(item) => Ok(item@),
        Err(e) => Err(e),
    }
}

impl ControlPanelItemShellItem {
    /// Decodes the item of the control panel at the start of `buf`.
    pub fn from_buffer(buf: &[u8]) -> (r: Result<ControlPanelItemShellItem, ReaderError>)
        ensures
            control_panel_item_of(r) == spec_control_panel_item(buf@, 0).0,
    {
        let mut stream = ByteCursor::new(buf);
        ControlPanelItemShellItem::from_reader(&mut stream)
    }

    /// Decodes the item of the control panel at the position of the
    /// stream.
    pub fn from_reader(r: &mut ByteCursor) -> (res: Result<ControlPanelItemShellItem, ReaderError>)
        requires
            old(r).wf(),
        ensures
            final(r).wf(),
            final(r).bytes() == old(r).bytes(),
            (control_panel_item_of(res), final(r).position()) == spec_control_panel_item(
                old(r).bytes(),
                old(r).position(),
            ),
    {
        reveal(spec_control_panel_item);
        r.skip(GUID_OFFSET);
        let guid = Guid::from_reader(r)?;
        let extention_block = ExtraDataBlock::from_reader_or_none(r);
        Ok(ControlPanelItemShellItem { guid, extention_block })
    }
}

impl Name for ControlPanelItemShellItem {
    open spec fn spec_name(&self) -> Seq<char> {
        self.guid@.text()
    }

    fn name(&self) -> (name: String) {
        self.guid.to_string()
    }
}

} // verus!
