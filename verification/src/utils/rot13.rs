//! ROT13, the letter substitution under which Windows keeps some names.
use crate::text::chars_of;
use crate::text::string_from_chars;
use vstd::prelude::*;

verus! {

/// The letter thirteen places on in the alphabet, which starts again
/// after its end; a character that is no letter of the Latin alphabet is
/// kept.
pub open spec fn rot13_char(c: char) -> char {
    if ('A' <= c && c <= 'M') || ('a' <= c && c <= 'm') {
        ((c as u8) + 13) as u8 as char
    } else if ('N' <= c && c <= 'Z') || ('n' <= c && c <= 'z') {
        ((c as u8) - 13) as u8 as char
    } else {
        c
    }
}

/// The text with each of its letters replaced.
pub open spec fn rot13_text(text: Seq<char>) -> Seq<char> {
    text.map_values(|c: char| rot13_char(c))
}

/// A text in ROT13.
#[derive(Debug)]
pub struct Rot13(pub String);

impl View for Rot13 {
    type V = Seq<char>;

    open spec fn view(&self) -> Seq<char> {
        self.0@
    }
}

/// The letter thirteen places on in the alphabet.
fn rotate(c: char) -> (r: char)
    ensures
        r == rot13_char(c),
{
    if ('A' <= c && c <= 'M') || ('a' <= c && c <= 'm') {
        ((c as u8) + 13) as char
    } else if ('N' <= c && c <= 'Z') || ('n' <= c && c <= 'z') {
        ((c as u8) - 13) as char
    } else {
        c
    }
}

impl Rot13 {
    /// The text that the ROT13 text hides.
    pub fn decode(&self) -> (text: String)
        ensures
            text@ == rot13_text(self@),
    {
        let chars = chars_of(self.0.as_str());
        let mut decoded: Vec<char> = Vec::new();
        let mut i: usize = 0;
        while i < chars.len()
            invariant
                i <= chars@.len(),
                decoded@ == rot13_text(chars@.take(i as int)),
            decreases chars@.len() - i,
        {
            decoded.push(rotate(chars[i]));
            proof {
                assert(decoded@ =~= rot13_text(chars@.take(i + 1)));
            }
            i = i + 1;
        }
        proof {
            assert(chars@.take(i as int) =~= chars@);
        }
        string_from_chars(decoded.as_slice())
    }

    /// The text that the ROT13 text hides.
    pub fn to_string(&self) -> (text: String)
        ensures
            text@ == rot13_text(self@),
    {
        self.decode()
    }
}

impl From<String> for Rot13 {
    fn from(rot13_str: String) -> (r: Rot13) {
        Rot13(rot13_str)
    }
}

impl vstd::std_specs::convert::FromSpecImpl<String> for Rot13 {
    open spec fn obeys_from_spec() -> bool {
        true
    }

    open spec fn from_spec(rot13_str: String) -> Rot13 {
        Rot13(rot13_str)
    }
}

/// Replacing the letters twice gives the text back.
pub proof fn lemma_rot13_twice(text: Seq<char>)
    ensures
        rot13_text(rot13_text(text)) == text,
{
    assert forall|i: int| 0 <= i < text.len() implies rot13_char(rot13_char(#[trigger] text[i]))
        == text[i] by {
        lemma_rot13_char_twice(text[i]);
    }
    assert(rot13_text(rot13_text(text)) =~= text);
}

/// Replacing a character twice gives it back.
pub proof fn lemma_rot13_char_twice(c: char)
    ensures
        rot13_char(rot13_char(c)) == c,
{
}

} // verus!
