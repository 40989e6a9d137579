//! Reading what a user typed: the choice of a menu entry, a key followed by
//! a name, and lists separated by commas.

use vstd::prelude::*;
use crate::text::{same_text, to_upper, uppercase};

verus! {

/// A text without the white space at its two ends, where white space is
/// what Unicode calls so.
pub uninterp spec fn trimmed(text: Seq<char>) -> Seq<char>;

/// `str::trim` of the standard library. The result is the argument without
/// its leading and trailing white space; which characters count as white
/// space is left to the Unicode tables and is not stated here.
#[verifier::external_body]
pub(crate) fn trim_text(text: &str) -> (rest: String)
    ensures
        rest@ == trimmed(text@),
{
    text.trim().to_string()
}

/// What the user may ask for at the menu.
#[derive(Clone, Copy, Debug, PartialEq, Eq, Hash, Structural)]
pub enum MenuChoice {
    FretNinja,
    ChooseKey,
    ChooseChord,
    ChooseScale,
    AddNotes,
    RemoveNotes,
    FindScales,
    FindChords,
    DisplayFullInstrument,
    ShowDetails,
    ChangeTuning,
    Exit,
    Invalid,
}

impl MenuChoice {
    /// The entry of the menu that a number stands for.
    pub open spec fn numbered(text: Seq<char>) -> MenuChoice {
        if text == "1"@ {
            MenuChoice::FretNinja
        } else if text == "2"@ {
            MenuChoice::ChooseKey
        } else if text == "3"@ {
            MenuChoice::ChooseChord
        } else if text == "4"@ {
            MenuChoice::ChooseScale
        } else if text == "5"@ {
            MenuChoice::AddNotes
        } else if text == "6"@ {
            MenuChoice::RemoveNotes
        } else if text == "7"@ {
            MenuChoice::FindScales
        } else if text == "8"@ {
            MenuChoice::FindChords
        } else if text == "9"@ {
            MenuChoice::DisplayFullInstrument
        } else if text == "10"@ {
            MenuChoice::ShowDetails
        } else if text == "11"@ {
            MenuChoice::ChangeTuning
        } else if text == "0"@ {
            MenuChoice::Exit
        } else {
            MenuChoice::Invalid
        }
    }

    /// Reads the choice on a line of input, whatever white space surrounds it.
    pub fn from_line(input: &str) -> (choice: MenuChoice)
        ensures
            choice == MenuChoice::numbered(trimmed(input@)),
    {
        let number: String = trim_text(input);
        MenuChoice::from_number(number.as_str())
    }

    /// Reads a choice written as the number of a menu entry.
    pub fn from_number(input: &str) -> (choice: MenuChoice)
        ensures
            choice == MenuChoice::numbered(input@),
    {
        if same_text(input, "1") {
            MenuChoice::FretNinja
        } else if same_text(input, "2") {
            MenuChoice::ChooseKey
        } else if same_text(input, "3") {
            MenuChoice::ChooseChord
        } else if same_text(input, "4") {
            MenuChoice::ChooseScale
        } else if same_text(input, "5") {
            MenuChoice::AddNotes
        } else if same_text(input, "6") {
            MenuChoice::RemoveNotes
        } else if same_text(input, "7") {
            MenuChoice::FindScales
        } else if same_text(input, "8") {
            MenuChoice::FindChords
        } else if same_text(input, "9") {
            MenuChoice::DisplayFullInstrument
        } else if same_text(input, "10") {
            MenuChoice::ShowDetails
        } else if same_text(input, "11") {
            MenuChoice::ChangeTuning
        } else if same_text(input, "0") {
            MenuChoice::Exit
        } else {
            MenuChoice::Invalid
        }
    }
}

/// The place of the first space of a text, or the length of the text if it
/// has no space.
pub open spec fn first_space(text: Seq<char>) -> int
    decreases text.len(),
{
    if text.len() == 0 {
        0
    } else if text[0] == ' ' {
        0
    } else {
        1 + first_space(text.drop_first())
    }
}

/// Whether a character is the capital letter of a natural note.
pub open spec fn is_key_letter(letter: char) -> bool {
    letter == 'A' || letter == 'B' || letter == 'C' || letter == 'D' || letter == 'E' || letter
        == 'F' || letter == 'G'
}

/// A text taken apart into a key and what follows it. Where the text has a
/// space, and the word before its first space begins with the capital letter
/// of a natural note, that word is the key and what stands after the space
/// is the rest. Otherwise there is no key, and the rest is the whole text.
pub open spec fn key_and_rest(text: Seq<char>) -> (Seq<char>, Seq<char>) {
    let at = first_space(text);
    if 0 < at < text.len() && is_key_letter(text[0]) {
        (text.take(at), text.skip(at + 1))
    } else {
        (Seq::empty(), text)
    }
}

/// The first space of a text stands where a space stands and none stands before.
pub proof fn lemma_first_space(text: Seq<char>, at: int)
    requires
        0 <= at <= text.len(),
        forall|i: int| 0 <= i < at ==> text[i] != ' ',
        at < text.len() ==> text[at] == ' ',
    ensures
        first_space(text) == at,
    decreases text.len(),
{
    if at > 0 {
        let rest = text.drop_first();
        assert forall|i: int| 0 <= i < at - 1 implies rest[i] != ' ' by {
            assert(rest[i] == text[i + 1]);
        }
        lemma_first_space(rest, at - 1);
    }
}

/// Takes a line apart into a key and what follows it.
pub fn split_input(input: String) -> (parts: (String, String))
    ensures
        (parts.0@, parts.1@) == key_and_rest(input@),
{
    let text: &str = input.as_str();
    let length: usize = text.unicode_len();
    let mut at: usize = 0;
    while at < length && text.get_char(at) != ' '
        invariant
            at <= length,
            length == text@.len(),
            forall|i: int| 0 <= i < at ==> text@[i] != ' ',
        decreases length - at,
    {
        at = at + 1;
    }
    proof {
        lemma_first_space(text@, at as int);
    }
    if at == length || at == 0 {
        return (String::new(), input);
    }
    let letter: char = text.get_char(0);
    let is_key: bool = letter == 'A' || letter == 'B' || letter == 'C' || letter == 'D' || letter
        == 'E' || letter == 'F' || letter == 'G';
    if !is_key {
        return (String::new(), input);
    }
    let first: String = String::from_str(text.substring_char(0, at));
    let rest: String = String::from_str(text.substring_char(at + 1, length));
    (first, rest)
}

/// Takes a line in either case apart into a key and what follows it, both
/// in upper case.
pub fn read_request(input: String) -> (parts: (String, String))
    ensures
        (parts.0@, parts.1@) == key_and_rest(uppercase(input@)),
{
    split_input(to_upper(input.as_str()))
}

/// The pieces of a text between its commas. A text with `n` commas has
/// `n + 1` pieces, some of which may be empty.
pub open spec fn pieces(text: Seq<char>) -> Seq<Seq<char>>
    decreases text.len(),
{
    if text.len() == 0 {
        seq![Seq::empty()]
    } else {
        let before = pieces(text.drop_last());
        if text.last() == ',' {
            before.push(Seq::empty())
        } else {
            before.drop_last().push(before.last().push(text.last()))
        }
    }
}

/// Takes a text apart at its commas.
pub fn split_at_commas(text: &str) -> (parts: Vec<String>)
    ensures
        parts@.len() == pieces(text@).len(),
        forall|i: int| 0 <= i < parts@.len() ==> (#[trigger] parts@[i])@ == pieces(text@)[i],
{
    let length: usize = text.unicode_len();
    let mut parts: Vec<String> = Vec::new();
    let mut start: usize = 0;
    let mut at: usize = 0;
    while at < length
        invariant
            start <= at <= length,
            length == text@.len(),
            pieces(text@.take(at as int)).len() == parts@.len() + 1,
            pieces(text@.take(at as int)).last() == text@.subrange(start as int, at as int),
            forall|i: int|
                0 <= i < parts@.len() ==> (#[trigger] parts@[i])@ == pieces(
                    text@.take(at as int),
                )[i],
        decreases length - at,
    {
        proof {
            let longer = text@.take(at + 1);
            assert(longer.drop_last() =~= text@.take(at as int));
            assert(longer.last() == text@[at as int]);
        }
        if text.get_char(at) == ',' {
            parts.push(String::from_str(text.substring_char(start, at)));
            start = at + 1;
            assert(text@.subrange(start as int, at + 1) =~= Seq::<char>::empty());
        } else {
            assert(text@.subrange(start as int, at + 1) =~= text@.subrange(
                start as int,
                at as int,
            ).push(text@[at as int]));
        }
        at = at + 1;
    }
    assert(text@.take(at as int) =~= text@);
    parts.push(String::from_str(text.substring_char(start, length)));
    parts
}

/// Takes a line apart at its commas and trims each piece.
pub fn split_input_advanced(input: String) -> (words: Vec<String>)
    ensures
        words@.len() == pieces(input@).len(),
        forall|i: int|
            0 <= i < words@.len() ==> (#[trigger] words@[i])@ == trimmed(pieces(input@)[i]),
{
    let word_strs: Vec<String> = split_at_commas(input.as_str());
    let mut words: Vec<String> = Vec::new();
    let mut at: usize = 0;
    while at < word_strs.len()
        invariant
            at <= word_strs@.len(),
            word_strs@.len() == pieces(input@).len(),
            forall|i: int|
                0 <= i < word_strs@.len() ==> (#[trigger] word_strs@[i])@ == pieces(input@)[i],
            words@.len() == at,
            forall|i: int| 0 <= i < at ==> (#[trigger] words@[i])@ == trimmed(pieces(input@)[i]),
        decreases word_strs@.len() - at,
    {
        words.push(trim_text(word_strs[at].as_str()));
        at = at + 1;
    }
    words
}

} // verus!
