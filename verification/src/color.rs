//! Colours, and text painted in a colour for a terminal.

use vstd::prelude::*;
use crate::text::numeral;

verus! {

/// A colour given by its red, green and blue parts.
#[derive(Clone, Copy, Debug, PartialEq, Eq, Hash, Structural)]
pub struct Rgb {
    pub red: u8,
    pub green: u8,
    pub blue: u8,
}

impl Rgb {
    /// The colour of labels and headings.
    pub open spec fn white() -> Rgb {
        Rgb { red: 255, green: 255, blue: 255 }
    }
}

/// A text between the escape sequence that sets the foreground colour of a
/// terminal to `color` and the one that sets it back to the default.
pub open spec fn painted(text: Seq<char>, color: Rgb) -> Seq<char> {
    "\x1b[38;2;"@ + numeral(color.red as nat) + ";"@ + numeral(color.green as nat) + ";"@
        + numeral(color.blue as nat) + "m"@ + text + "\x1b[39m"@
}

/// `OwoColorize::color` of owo_colors with an `owo_colors::Rgb`, written out
/// through `Display`. The crate writes the sequence `ESC [ 38 ; 2 ; r ; g ; b m`
/// with the three parts in decimal, then the text, then `ESC [ 39 m`.
#[verifier::external_body]
pub(crate) fn paint(text: &str, color: Rgb) -> (colored: String)
    ensures
        colored@ == painted(text@, color),
{
    let foreground = owo_colors::Rgb(color.red, color.green, color.blue);
    format!("{}", owo_colors::OwoColorize::color(&text, foreground))
}

} // verus!
