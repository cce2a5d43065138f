//! The ID list: shell items one after the other, ended by a size of
//! zero, and the path that they spell.
use super::lemma_record_decodes_alone;
use super::record_lies_at;
use super::spec_shell_item;
use super::ShellItem;
use super::ShellItemView;
use crate::cursor::has_bytes;
use crate::cursor::le16_at;
use crate::cursor::ByteCursor;
use crate::reader_error::ReaderError;
use crate::text::chars_of;
use crate::text::string_from_chars;
use crate::traits::Path;
use vstd::prelude::*;

verus! {

/// The shell items of an ID list, from the root of the path to its leaf.
#[derive(Debug)]
pub struct IDList(pub Vec<ShellItem>);

impl View for IDList {
    type V = Seq<ShellItemView>;

    open spec fn view(&self) -> Seq<ShellItemView> {
        self.0@.map_values(|item: ShellItem| item@)
    }
}

/// The character that stands between the parts of a path.
pub const SEPARATOR: char = '\\';

/// What decoding has given so far, before what decoding the rest gives:
/// the error of the rest, or the items of both.
pub open spec fn items_before(
    items: Seq<ShellItemView>,
    rest: (Result<Seq<ShellItemView>, ReaderError>, int),
) -> (Result<Seq<ShellItemView>, ReaderError>, int) {
    match rest.0 {
        Ok(more) => (Ok(items + more), rest.1),
        Err(e) => (Err(e), rest.1),
    }
}

/// What decoding an ID list at `p` gives, and where it leaves the
/// position: the records up to a size of zero, which is consumed and
/// ends the list; the error of the first record that does not decode.
pub open spec fn spec_id_list(s: Seq<u8>, p: int) -> (Result<Seq<ShellItemView>, ReaderError>, int)
    decreases s.len() - p,
{
    if !has_bytes(s, p, 2) {
        (Err(ReaderError::truncated()), s.len() as int)
    } else if le16_at(s, p) == 0 {
        (Ok(Seq::empty()), p + 2)
    } else if !record_lies_at(s, p) {
        (Err(ReaderError::truncated()), s.len() as int)
    } else {
        match spec_shell_item(s, p).0 {
            Ok(item) => items_before(seq![item], spec_id_list(s, p + le16_at(s, p))),
            Err(e) => (Err(e), p + le16_at(s, p)),
        }
    }
}

/// The names that are not empty, in their order, with a separator
/// between one and the next.
pub open spec fn join_names(names: Seq<Seq<char>>) -> Seq<char>
    decreases names.len(),
{
    if names.len() == 0 {
        Seq::empty()
    } else if names.last().len() == 0 {
        join_names(names.drop_last())
    } else if join_names(names.drop_last()).len() == 0 {
        names.last()
    } else {
        join_names(names.drop_last()) + seq![SEPARATOR] + names.last()
    }
}

/// The text without the separators that follow a separator.
pub open spec fn collapse_separators(text: Seq<char>) -> Seq<char>
    decreases text.len(),
{
    if text.len() == 0 {
        Seq::empty()
    } else if text.len() >= 2 && text.last() == SEPARATOR && text[text.len() - 2] == SEPARATOR {
        collapse_separators(text.drop_last())
    } else {
        collapse_separators(text.drop_last()).push(text.last())
    }
}

/// The names that the items give to a path.
pub open spec fn names_of(items: Seq<ShellItemView>) -> Seq<Seq<char>> {
    items.map_values(|item: ShellItemView| item.name())
}

/// The path that the items spell: their names that are not empty, from
/// the first to the last, with one separator wherever names meet or a
/// name holds several.
pub open spec fn path_of(items: Seq<ShellItemView>) -> Seq<char> {
    collapse_separators(join_names(names_of(items)))
}

/// True where no separator follows a separator in `text`.
pub open spec fn no_doubled_separator(text: Seq<char>) -> bool {
    forall|i: int|
        0 <= i && i + 1 < text.len() ==> !(#[trigger] text[i] == SEPARATOR && text[i + 1]
            == SEPARATOR)
}

/// The items of a decoded list, with the error kept as it is.
pub open spec fn id_list_of(r: Result<IDList, ReaderError>) -> Result<
    Seq<ShellItemView>,
    ReaderError,
> {
    match r {
        Ok(list) => Ok(list@),
        Err(e) => Err(e),
    }
}

/// What is left of a text once doubled separators are taken out ends as
/// the text ends.
pub proof fn lemma_collapse_keeps_last(text: Seq<char>)
    requires
        text.len() > 0,
    ensures
        collapse_separators(text).len() > 0,
        collapse_separators(text).last() == text.last(),
    decreases text.len(),
{
    if text.len() >= 2 && text.last() == SEPARATOR && text[text.len() - 2] == SEPARATOR {
        lemma_collapse_keeps_last(text.drop_last());
    }
}

/// No separator follows a separator in a text from which the doubled
/// separators are taken out.
pub proof fn lemma_collapse_has_no_doubled_separator(text: Seq<char>)
    ensures
        no_doubled_separator(collapse_separators(text)),
    decreases text.len(),
{
    if text.len() > 0 {
        let init = text.drop_last();
        lemma_collapse_has_no_doubled_separator(init);
        if init.len() > 0 {
            lemma_collapse_keeps_last(init);
        }
        let out = collapse_separators(text);
        assert forall|i: int| 0 <= i && i + 1 < out.len() implies !(#[trigger] out[i] == SEPARATOR
            && out[i + 1] == SEPARATOR) by {
            let before = collapse_separators(init);
            if i + 1 < before.len() {
                assert(before[i] == out[i]);
            }
        }
    }
}

/// The path of any items holds no doubled separator.
pub proof fn lemma_path_has_no_doubled_separator(items: Seq<ShellItemView>)
    ensures
        no_doubled_separator(path_of(items)),
{
    lemma_collapse_has_no_doubled_separator(join_names(names_of(items)));
}

/// Between two separators of a path stands a character that is none:
/// no part of a path is empty.
pub proof fn lemma_path_has_no_empty_segment(items: Seq<ShellItemView>, i: int, j: int)
    requires
        0 <= i < j < path_of(items).len(),
        path_of(items)[i] == SEPARATOR,
        path_of(items)[j] == SEPARATOR,
    ensures
        i + 1 < j,
        path_of(items)[i + 1] != SEPARATOR,
{
    lemma_path_has_no_doubled_separator(items);
    let path = path_of(items);
    assert(!(path[i] == SEPARATOR && path[i + 1] == SEPARATOR));
}

/// An item without a name adds nothing to a path.
pub proof fn lemma_empty_name_adds_nothing(items: Seq<ShellItemView>, item: ShellItemView)
    requires
        item.name().len() == 0,
    ensures
        path_of(items.push(item)) == path_of(items),
{
    let names = names_of(items.push(item));
    assert(names.drop_last() =~= names_of(items));
}

/// True for the bytes of one whole record that decodes.
pub open spec fn is_record(record: Seq<u8>) -> bool {
    record_lies_at(record, 0) && le16_at(record, 0) == record.len() && spec_shell_item(
        record,
        0,
    ).0 is Ok
}

/// The records one after the other, and the two zero bytes that end a
/// list.
pub open spec fn list_bytes(records: Seq<Seq<u8>>) -> Seq<u8>
    decreases records.len(),
{
    if records.len() == 0 {
        seq![0u8, 0u8]
    } else {
        records.first() + list_bytes(records.drop_first())
    }
}

/// What each of the records holds.
pub open spec fn records_decoded(records: Seq<Seq<u8>>) -> Seq<ShellItemView> {
    records.map_values(|record: Seq<u8>| spec_shell_item(record, 0).0->Ok_0)
}

/// The bytes of records that decode, one after the other and ended by
/// two zero bytes, decode to as many items as there are records, in the
/// order of the records, and the decoder stops at the end of the bytes.
pub proof fn lemma_list_of_records(records: Seq<Seq<u8>>)
    requires
        forall|i: int| 0 <= i < records.len() ==> is_record(#[trigger] records[i]),
    ensures
        spec_id_list(list_bytes(records), 0) == (
            Ok::<Seq<ShellItemView>, ReaderError>(records_decoded(records)),
            list_bytes(records).len() as int,
        ),
        records_decoded(records).len() == records.len(),
{
    lemma_list_of_records_at(Seq::empty(), records);
    assert(Seq::<u8>::empty() + list_bytes(records) =~= list_bytes(records));
}

/// The same where other bytes stand before the records.
pub proof fn lemma_list_of_records_at(before: Seq<u8>, records: Seq<Seq<u8>>)
    requires
        forall|i: int| 0 <= i < records.len() ==> is_record(#[trigger] records[i]),
    ensures
        spec_id_list(before + list_bytes(records), before.len() as int) == (
            Ok::<Seq<ShellItemView>, ReaderError>(records_decoded(records)),
            (before + list_bytes(records)).len() as int,
        ),
    decreases records.len(),
{
    let s = before + list_bytes(records);
    let p = before.len() as int;
    if records.len() == 0 {
        assert(s[p] == 0 && s[p + 1] == 0);
        assert(records_decoded(records) =~= Seq::<ShellItemView>::empty());
    } else {
        let first = records.first();
        let rest = records.drop_first();
        assert(is_record(records[0]));
        assert(s.subrange(p, p + first.len()) =~= first);
        lemma_record_decodes_alone(s, p, first);
        assert forall|i: int| 0 <= i < rest.len() implies is_record(#[trigger] rest[i]) by {
            assert(rest[i] == records[i + 1]);
        }
        lemma_list_of_records_at(before + first, rest);
        assert((before + first) + list_bytes(rest) =~= s);
        assert(seq![spec_shell_item(first, 0).0->Ok_0] + records_decoded(rest) =~= records_decoded(
            records,
        ));
    }
}

impl IDList {
    /// Decodes the ID list at the start of `buf`.
    pub fn from_buffer(buf: &[u8]) -> (r: Result<IDList, ReaderError>)
        ensures
            id_list_of(r) == spec_id_list(buf@, 0).0,
    {
        let mut stream = ByteCursor::new(buf);
        IDList::from_reader(&mut stream)
    }

    /// Decodes the ID list at the position of the stream.
    pub fn from_reader(r: &mut ByteCursor) -> (res: Result<IDList, ReaderError>)
        requires
            old(r).wf(),
        ensures
            final(r).wf(),
            final(r).bytes() == old(r).bytes(),
            (id_list_of(res), final(r).position()) == spec_id_list(
                old(r).bytes(),
                old(r).position(),
            ),
    {
        let ghost s = r.bytes();
        let ghost start = r.position();
        let mut item_id_list: Vec<ShellItem> = Vec::new();
        loop
            invariant_except_break
                spec_id_list(s, start) == items_before(
                    item_id_list@.map_values(|item: ShellItem| item@),
                    spec_id_list(s, r.position()),
                ),
            invariant
                r.wf(),
                r.bytes() == s,
                s == old(r).bytes(),
                start == old(r).position(),
            ensures
                spec_id_list(s, start) == (
                    Ok::<Seq<ShellItemView>, ReaderError>(
                        item_id_list@.map_values(|item: ShellItem| item@),
                    ),
                    r.position(),
                ),
            decreases s.len() - r.position(),
        {
            let ghost p = r.position();
            let ghost before = item_id_list@.map_values(|item: ShellItem| item@);
            let size = r.read_u16()?;
            if size == 0 {
                proof {
                    assert(before + Seq::<ShellItemView>::empty() =~= before);
                }
                break ;
            }
            r.unread();
            r.unread();
            let item = match ShellItem::from_reader(r) {
                Ok(item) => item,
                Err(e) => {
                    return Err(e);
                },
            };
            item_id_list.push(item);
            proof {
                let after = item_id_list@.map_values(|item: ShellItem| item@);
                assert(after =~= before + seq![item@]);
                let rest = spec_id_list(s, p + size);
                if rest.0 is Ok {
                    assert(before + (seq![item@] + rest.0->Ok_0) =~= after + rest.0->Ok_0);
                }
            }
        }
        Ok(IDList(item_id_list))
    }

    /// The items of the list, in their order.
    pub fn items(&self) -> (items: &[ShellItem])
        ensures
            items@ == self.0@,
    {
        self.0.as_slice()
    }

    /// The names of the items that are not empty, with a separator
    /// between one and the next.
    fn joined_names(&self) -> (joined: Vec<char>)
        ensures
            joined@ == join_names(names_of(self@)),
    {
        let mut joined: Vec<char> = Vec::new();
        let mut i: usize = 0;
        while i < self.0.len()
            invariant
                i <= self.0@.len(),
                joined@ == join_names(names_of(self@.take(i as int))),
            decreases self.0@.len() - i,
        {
            let name = self.0[i].path_name();
            let mut chars = chars_of(name.as_str());
            proof {
                let names = names_of(self@.take(i + 1));
                assert(names.drop_last() =~= names_of(self@.take(i as int)));
                assert(names.last() == chars@);
            }
            if chars.len() > 0 {
                if joined.len() > 0 {
                    joined.push(SEPARATOR);
                }
                joined.append(&mut chars);
            }
            i = i + 1;
        }
        proof {
            assert(self@.take(i as int) =~= self@);
        }
        joined
    }
}

/// Takes out of a text the separators that follow a separator.
fn collapse(text: &Vec<char>) -> (out: Vec<char>)
    ensures
        out@ == collapse_separators(text@),
{
    let mut out: Vec<char> = Vec::new();
    let mut i: usize = 0;
    while i < text.len()
        invariant
            i <= text@.len(),
            out@ == collapse_separators(text@.take(i as int)),
        decreases text@.len() - i,
    {
        proof {
            assert(text@.take(i + 1).drop_last() =~= text@.take(i as int));
        }
        if !(i >= 1 && text[i] == SEPARATOR && text[i - 1] == SEPARATOR) {
            out.push(text[i]);
        }
        i = i + 1;
    }
    proof {
        assert(text@.take(i as int) =~= text@);
    }
    out
}

impl Path for IDList {
    open spec fn spec_path(&self) -> Option<Seq<char>> {
        Some(path_of(self@))
    }

    fn path(&self) -> (path: Option<String>)
        ensures
            path is Some,
            no_doubled_separator(path->Some_0@),
    {
        let joined = self.joined_names();
        let out = collapse(&joined);
        proof {
            lemma_path_has_no_doubled_separator(self@);
        }
        Some(string_from_chars(out.as_slice()))
    }
}

} // verus!
