//! The shell item of a place on the network.
use super::Name;
use crate::cursor::has_bytes;
use crate::cursor::ByteCursor;
use crate::reader_error::ReaderError;
use crate::text::opt_text;
use crate::utils::read_utf8_string;
use crate::utils::spec_read_utf8_string;
use vstd::prelude::*;

verus! {

/// A place on the network, with what the format says about it.
#[derive(Debug)]
pub struct NetworkLocationShellItem {
    pub location: String,
    pub description: Option<String>,
    pub comments: Option<String>,
}

/// What a `NetworkLocationShellItem` holds.
pub struct NetworkLocationShellItemView {
    pub location: Seq<char>,
    pub description: Option<Seq<char>>,
    pub comments: Option<Seq<char>>,
}

impl View for NetworkLocationShellItem {
    type V = NetworkLocationShellItemView;

    open spec fn view(&self) -> NetworkLocationShellItemView {
        NetworkLocationShellItemView {
            location: self.location@,
            description: opt_text(self.description),
            comments: opt_text(self.comments),
        }
    }
}

/// The bit of the flags that says that a description follows.
pub const HAS_DESCRIPTION: u8 = 0x80;

/// The bit of the flags that says that comments follow.
pub const HAS_COMMENTS: u8 = 0x40;

/// What reading a string at `p` gives where `present` holds, and nothing,
/// with the position kept, where it does not.
pub open spec fn spec_optional_string(s: Seq<u8>, p: int, present: bool) -> (
    Result<Option<Seq<char>>, ReaderError>,
    int,
) {
    if present {
        match spec_read_utf8_string(s, p, None) {
            (Ok(text), q) => (Ok(Some(text)), q),
            (Err(e), q) => (Err(e), q),
        }
    } else {
        (Ok(None), p)
    }
}

/// What decoding a network location at `p` gives, and where it leaves the
/// position: two bytes that are passed over, the flags, the location,
/// and the description and the comments where the flags say so.
#[verifier::opaque]
pub open spec fn spec_network_location(s: Seq<u8>, p: int) -> (
    Result<NetworkLocationShellItemView, ReaderError>,
    int,
) {
    if !has_bytes(s, p, 3) {
        (Err(ReaderError::truncated()), s.len() as int)
    } else {
        let flags = s[p + 2];
        match spec_read_utf8_string(s, p + 3, None) {
            (Err(e), q) => (Err(e), q),
            (Ok(location), q) => match spec_optional_string(
                s,
                q,
                flags & HAS_DESCRIPTION > 0,
            ) {
                (Err(e), q2) => (Err(e), q2),
                (Ok(description), q2) => match spec_optional_string(
                    s,
                    q2,
                    flags & HAS_COMMENTS > 0,
                ) {
                    (Err(e), q3) => (Err(e), q3),
                    (Ok(comments), q3) => (
                        Ok(NetworkLocationShellItemView { location, description, comments }),
                        q3,
                    ),
                },
            },
        }
    }
}

/// What a decoded network location holds, with the error kept as it is.
pub open spec fn network_location_of(r: Result<NetworkLocationShellItem, ReaderError>) -> Result<
    NetworkLocationShellItemView,
    ReaderError,
> {
    match r {
        Ok(item) => Ok(item@),
        Err(e) => Err(e),
    }
}

/// What formatting a text with `{:?}` gives: the text in quotes, with the
/// characters that cannot stand there as they are written as escapes.
pub uninterp spec fn debug_text(text: Seq<char>) -> Seq<char>;

/// `format!` with `{:?}` on a string: the string as a quoted literal.
#[verifier::external_body]
fn format_debug(text: &str) -> (quoted: String)
    ensures
        quoted@ == debug_text(text@),
{
    format!("{:?}", text)
}

impl NetworkLocationShellItem {
    /// Decodes the network location at the start of `buf`.
    pub fn from_buffer(buf: &[u8]) -> (r: Result<NetworkLocationShellItem, ReaderError>)
        ensures
            network_location_of(r) == spec_network_location(buf@, 0).0,
    {
        let mut stream = ByteCursor::new(buf);
        NetworkLocationShellItem::from_reader(&mut stream)
    }

    /// Decodes the network location at the position of the stream.
    pub fn from_reader(r: &mut ByteCursor) -> (res: Result<NetworkLocationShellItem, ReaderError>)
        requires
            old(r).wf(),
        ensures
            final(r).wf(),
            final(r).bytes() == old(r).bytes(),
            (network_location_of(res), final(r).position()) == spec_network_location(
                old(r).bytes(),
                old(r).position(),
            ),
    {
        reveal(spec_network_location);
        let _class_type = r.read_u8()?;
        let mut description = None;
        let mut comments = None;
        r.skip(1);
        let flags = r.read_u8()?;
        let location = read_utf8_string(r, None)?;
        if flags & HAS_DESCRIPTION > 0 {
            description = Some(read_utf8_string(r, None)?);
        }
        if flags & HAS_COMMENTS > 0 {
            comments = Some(read_utf8_string(r, None)?);
        }
        Ok(NetworkLocationShellItem { location, description, comments })
    }
}

impl Name for NetworkLocationShellItem {
    open spec fn spec_name(&self) -> Seq<char> {
        debug_text(self.location@)
    }

    fn name(&self) -> (name: String) {
        format_debug(self.location.as_str())
    }
}

} // verus!
