//! Text helpers: comparison of strings, upper case, and decimal numerals.

use vstd::prelude::*;

verus! {

/// The upper-case form of a text under the Unicode case mapping.
pub uninterp spec fn uppercase(text: Seq<char>) -> Seq<char>;

/// `str::to_uppercase` of the standard library. The result is the upper-case
/// form of the argument; what that form is, character by character, is left
/// to the Unicode tables and is not stated here.
#[verifier::external_body]
pub(crate) fn to_upper(text: &str) -> (upper: String)
    ensures
        upper@ == uppercase(text@),
{
    text.to_uppercase()
}

/// Whether two strings hold the same characters.
pub fn same_text(text: &str, word: &str) -> (same: bool)
    ensures
        same == (text@ == word@),
{
    let left: String = String::from_str(text);
    let right: String = String::from_str(word);
    left == right
}

/// The character that writes a decimal digit.
pub open spec fn digit(value: int) -> char {
    if value == 0 {
        '0'
    } else if value == 1 {
        '1'
    } else if value == 2 {
        '2'
    } else if value == 3 {
        '3'
    } else if value == 4 {
        '4'
    } else if value == 5 {
        '5'
    } else if value == 6 {
        '6'
    } else if value == 7 {
        '7'
    } else if value == 8 {
        '8'
    } else {
        '9'
    }
}

/// The decimal numeral of a natural number, without leading zeros.
pub open spec fn numeral(value: nat) -> Seq<char>
    decreases value,
{
    if value < 10 {
        seq![digit(value as int)]
    } else {
        numeral(value / 10).push(digit((value % 10) as int))
    }
}

/// The decimal numeral of an integer, with a minus sign if it is negative.
pub open spec fn signed_numeral(value: int) -> Seq<char> {
    if value < 0 {
        seq!['-'] + numeral((-value) as nat)
    } else {
        numeral(value as nat)
    }
}

/// The one-character string that writes a decimal digit.
fn digit_text(value: u64) -> (text: &'static str)
    requires
        value < 10,
    ensures
        text@ == seq![digit(value as int)],
{
    proof {
        reveal_strlit("0");
        reveal_strlit("1");
        reveal_strlit("2");
        reveal_strlit("3");
        reveal_strlit("4");
        reveal_strlit("5");
        reveal_strlit("6");
        reveal_strlit("7");
        reveal_strlit("8");
        reveal_strlit("9");
    }
    let text: &'static str = match value {
        0 => "0",
        1 => "1",
        2 => "2",
        3 => "3",
        4 => "4",
        5 => "5",
        6 => "6",
        7 => "7",
        8 => "8",
        _ => "9",
    };
    assert(text@ =~= seq![digit(value as int)]);
    text
}

/// Writes a natural number in decimal.
pub fn write_number(value: u64) -> (text: String)
    ensures
        text@ == numeral(value as nat),
    decreases value,
{
    if value < 10 {
        String::from_str(digit_text(value))
    } else {
        let head: String = write_number(value / 10);
        let text: String = head.concat(digit_text(value % 10));
        assert(text@ =~= numeral(value as nat));
        text
    }
}

/// Writes an integer in decimal.
pub fn write_signed(value: i64) -> (text: String)
    ensures
        text@ == signed_numeral(value as int),
{
    if value < 0 {
        proof {
            reveal_strlit("-");
        }
        let magnitude: u64 = (-(value + 1)) as u64 + 1;
        let digits: String = write_number(magnitude);
        let text: String = String::from_str("-").concat(digits.as_str());
        assert(text@ =~= signed_numeral(value as int));
        text
    } else {
        write_number(value as u64)
    }
}

} // verus!
