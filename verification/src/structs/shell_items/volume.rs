//! The shell item of a volume, such as a drive.
use super::Name;
use crate::cursor::has_bytes;
use crate::cursor::ByteCursor;
use crate::reader_error::ReaderError;
use crate::text::opt_text;
use crate::utils::read_utf8_string;
use crate::utils::spec_read_utf8_string;
use vstd::prelude::*;

verus! {

/// A volume: whether it has a name, whether its medium can be removed,
/// and the name.
#[derive(Debug)]
pub struct VolumeShellItem {
    pub has_name: bool,
    pub is_removable_media: bool,
    pub name: Option<String>,
}

/// What a `VolumeShellItem` holds.
pub struct VolumeShellItemView {
    pub has_name: bool,
    pub is_removable_media: bool,
    pub name: Option<Seq<char>>,
}

impl View for VolumeShellItem {
    type V = VolumeShellItemView;

    open spec fn view(&self) -> VolumeShellItemView {
        VolumeShellItemView {
            has_name: self.has_name,
            is_removable_media: self.is_removable_media,
            name: opt_text(self.name),
        }
    }
}

/// The bit of the flag byte that says that a name follows.
pub const HAS_NAME: u8 = 0x01;

/// The bit of the flag byte that says that the medium can be removed. It
/// counts only where no name follows.
pub const REMOVABLE_MEDIA: u8 = 0x08;

/// What decoding a volume at `p` gives, and where it leaves the position.
/// A name that does not decode is no name; a volume without a name has
/// one more byte.
#[verifier::opaque]
pub open spec fn spec_volume(s: Seq<u8>, p: int) -> (Result<VolumeShellItemView, ReaderError>, int) {
    let cut = (Err(ReaderError::truncated()), s.len() as int);
    if !has_bytes(s, p, 1) {
        cut
    } else if s[p] & HAS_NAME == HAS_NAME {
        let read = spec_read_utf8_string(s, p + 1, None);
        (
            Ok(
                VolumeShellItemView {
                    has_name: true,
                    is_removable_media: false,
                    name: match read.0 {
                        Ok(name) => Some(name),
                        Err(_) => None,
                    },
                },
            ),
            read.1,
        )
    } else if has_bytes(s, p, 2) {
        (
            Ok(
                VolumeShellItemView {
                    has_name: false,
                    is_removable_media: s[p] & REMOVABLE_MEDIA == REMOVABLE_MEDIA,
                    name: None,
                },
            ),
            p + 2,
        )
    } else {
        cut
    }
}

/// What a decoded volume holds, with the error kept as it is.
pub open spec fn volume_of(r: Result<VolumeShellItem, ReaderError>) -> Result<
    VolumeShellItemView,
    ReaderError,
> {
    match r {
        Ok(item) => Ok(item@),
        Err(e) => Err(e),
    }
}

impl VolumeShellItem {
    /// Decodes the volume at the start of `buf`.
    pub fn from_buffer(buf: &[u8]) -> (r: Result<VolumeShellItem, ReaderError>)
        ensures
            volume_of(r) == spec_volume(buf@, 0).0,
    {
        let mut stream = ByteCursor::new(buf);
        VolumeShellItem::from_reader(&mut stream)
    }

    /// Decodes the volume at the position of the stream.
    pub fn from_reader(r: &mut ByteCursor) -> (res: Result<VolumeShellItem, ReaderError>)
        requires
            old(r).wf(),
        ensures
            final(r).wf(),
            final(r).bytes() == old(r).bytes(),
            (volume_of(res), final(r).position()) == spec_volume(old(r).bytes(), old(r).position()),
    {
        reveal(spec_volume);
        let mut has_name = false;
        let mut is_removable_media = false;
        let class_type = r.read_u8()?;
        let mut name = None;
        if class_type & HAS_NAME == HAS_NAME {
            has_name = true;
        } else if class_type & REMOVABLE_MEDIA == REMOVABLE_MEDIA {
            is_removable_media = true;
        }
        if !has_name {
            r.read_u8()?;
        } else {
            name = match read_utf8_string(r, None) {
                Ok(n) => Some(n),
                Err(_) => None,
            };
        }
        Ok(VolumeShellItem { has_name, is_removable_media, name })
    }
}

impl Name for VolumeShellItem {
    open spec fn spec_name(&self) -> Seq<char> {
        match self.name {
            Some(n) => n@,
            None => Seq::empty(),
        }
    }

    fn name(&self) -> (name: String) {
        match &self.name {
            Some(n) => n.clone(),
            None => String::new(),
        }
    }
}

} // verus!
