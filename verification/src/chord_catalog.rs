//! The catalogue of chords: each a name, an abbreviation, and the degrees of
//! the major scale that the chord is made of.

use vstd::prelude::*;
use crate::color::{paint, painted, Rgb};
use crate::note::{accidental_sign, Accidental};
use crate::text::{same_text, signed_numeral, write_signed};

verus! {

/// A degree of the major scale, counted from 1 for the root, with an
/// optional accidental that moves the note found there by a half step.
#[derive(Clone, Copy, Debug, PartialEq, Eq, Structural)]
pub struct Interval {
    pub accidental: Option<Accidental>,
    pub interval: i8,
}

impl Interval {
    /// The degree itself.
    pub open spec fn plain(degree: i8) -> Interval {
        Interval { accidental: None, interval: degree }
    }

    /// The degree lowered by a half step.
    pub open spec fn flat(degree: i8) -> Interval {
        Interval { accidental: Some(Accidental::Flat), interval: degree }
    }

    /// The degree raised by a half step.
    pub open spec fn sharp(degree: i8) -> Interval {
        Interval { accidental: Some(Accidental::Sharp), interval: degree }
    }

    /// This interval as it is written: the sign of its accidental, if it has
    /// one, then the number of its degree.
    pub open spec fn text(self) -> Seq<char> {
        accidental_sign(self.accidental) + signed_numeral(self.interval as int)
    }

    pub fn new(interval: i8, accidental: Option<Accidental>) -> (made: Self)
        ensures
            made.interval == interval,
            made.accidental == accidental,
    {
        Interval { interval, accidental }
    }

    /// Writes this interval.
    pub fn to_text(&self) -> (text: String)
        ensures
            text@ == self.text(),
    {
        let degree: String = write_signed(self.interval as i64);
        match self.accidental {
            Some(accidental) => accidental.to_text().concat(degree.as_str()),
            None => {
                assert(Seq::<char>::empty() + degree@ =~= degree@);
                degree
            },
        }
    }
}

/// A run of intervals as they are shown: each in white, each followed by a space.
pub open spec fn intervals_text(intervals: Seq<Interval>) -> Seq<char>
    decreases intervals.len(),
{
    if intervals.len() == 0 {
        Seq::empty()
    } else {
        intervals_text(intervals.drop_last()) + painted(intervals.last().text(), Rgb::white())
            + " "@
    }
}

/// A named set of intervals.
#[derive(Debug, PartialEq, Eq)]
pub struct ChordDef {
    pub name: String,
    pub naming_convention: String,
    pub intervals: Vec<Interval>,
}

/// What a chord pattern holds: its name, its abbreviation and its intervals in order.
pub struct ChordDefView {
    pub name: Seq<char>,
    pub naming_convention: Seq<char>,
    pub intervals: Seq<Interval>,
}

impl View for ChordDef {
    type V = ChordDefView;

    open spec fn view(&self) -> ChordDefView {
        ChordDefView {
            name: self.name@,
            naming_convention: self.naming_convention@,
            intervals: self.intervals@,
        }
    }
}

impl Clone for ChordDef {
    fn clone(&self) -> (copy: Self)
        ensures
            copy@ == self@,
    {
        let mut intervals: Vec<Interval> = Vec::new();
        let mut at: usize = 0;
        while at < self.intervals.len()
            invariant
                at <= self.intervals.len(),
                intervals@ == self.intervals@.take(at as int),
            decreases self.intervals.len() - at,
        {
            intervals.push(self.intervals[at]);
            at += 1;
        }
        assert(intervals@ =~= self.intervals@);
        ChordDef {
            name: self.name.clone(),
            naming_convention: self.naming_convention.clone(),
            intervals,
        }
    }
}

impl ChordDefView {
    /// This pattern as it is shown, on a line of its own: its name, the word
    /// `chord:`, and its intervals.
    pub open spec fn text(self) -> Seq<char> {
        painted(self.name, Rgb::white()) + " "@ + painted("chord: "@, Rgb::white())
            + intervals_text(self.intervals) + "\n"@
    }
}

/// The number of chords in the catalogue.
pub const CHORD_COUNT: i8 = 24;

impl ChordDef {
    /// The intervals of the chord at a place of the catalogue.
    pub open spec fn pattern(index: int) -> Seq<Interval> {
        if index == 0 {
            seq![Interval::plain(1), Interval::plain(3), Interval::plain(5)]
        } else if index == 1 {
            seq![Interval::plain(1), Interval::flat(3), Interval::plain(5)]
        } else if index == 2 {
            seq![Interval::plain(1), Interval::flat(3), Interval::flat(5)]
        } else if index == 3 {
            seq![Interval::plain(1), Interval::plain(3), Interval::sharp(5)]
        } else if index == 4 {
            seq![Interval::plain(1), Interval::plain(2), Interval::plain(5)]
        } else if index == 5 {
            seq![Interval::plain(1), Interval::plain(4), Interval::plain(5)]
        } else if index == 6 {
            seq![Interval::plain(1), Interval::plain(5)]
        } else if index == 7 {
            seq![Interval::plain(1), Interval::plain(3), Interval::plain(5), Interval::plain(7)]
        } else if index == 8 {
            seq![Interval::plain(1), Interval::flat(3), Interval::plain(5), Interval::flat(7)]
        } else if index == 9 {
            seq![Interval::plain(1), Interval::plain(3), Interval::plain(5), Interval::flat(7)]
        } else if index == 10 {
            seq![Interval::plain(1), Interval::flat(3), Interval::plain(5), Interval::plain(7)]
        } else if index == 11 {
            seq![Interval::plain(1), Interval::plain(3), Interval::plain(5), Interval::plain(6)]
        } else if index == 12 {
            seq![Interval::plain(1), Interval::flat(3), Interval::plain(5), Interval::plain(6)]
        } else if index == 13 {
            seq![
                Interval::plain(1),
                Interval::plain(3),
                Interval::plain(5),
                Interval::flat(7),
                Interval::plain(9),
            ]
        } else if index == 14 {
            seq![
                Interval::plain(1),
                Interval::flat(3),
                Interval::plain(5),
                Interval::flat(7),
                Interval::plain(9),
            ]
        } else if index == 15 {
            seq![Interval::plain(1), Interval::plain(3), Interval::plain(5), Interval::plain(9)]
        } else if index == 16 {
            seq![Interval::plain(1), Interval::plain(4), Interval::plain(5), Interval::flat(7)]
        } else if index == 17 {
            seq![Interval::plain(1), Interval::flat(3), Interval::flat(5), Interval::plain(6)]
        } else if index == 18 {
            seq![Interval::plain(1), Interval::flat(3), Interval::flat(5), Interval::flat(7)]
        } else if index == 19 {
            seq![Interval::plain(1), Interval::plain(3), Interval::sharp(5), Interval::flat(7)]
        } else if index == 20 {
            seq![
                Interval::plain(1),
                Interval::flat(3),
                Interval::plain(5),
                Interval::flat(7),
                Interval::plain(9),
                Interval::plain(11),
            ]
        } else if index == 21 {
            seq![Interval::plain(1), Interval::plain(3), Interval::sharp(5), Interval::plain(7)]
        } else if index == 22 {
            seq![
                Interval::plain(1),
                Interval::plain(3),
                Interval::plain(5),
                Interval::flat(7),
                Interval::flat(9),
            ]
        } else {
            seq![
                Interval::plain(1),
                Interval::plain(3),
                Interval::sharp(5),
                Interval::flat(7),
                Interval::sharp(9),
            ]
        }
    }

    /// The name of the chord at a place of the catalogue.
    pub open spec fn title(index: int) -> Seq<char> {
        if index == 0 {
            "Major"@
        } else if index == 1 {
            "Minor"@
        } else if index == 2 {
            "Diminished"@
        } else if index == 3 {
            "Augmented"@
        } else if index == 4 {
            "Suspended 2"@
        } else if index == 5 {
            "Suspended 4"@
        } else if index == 6 {
            "Power"@
        } else if index == 7 {
            "Major 7"@
        } else if index == 8 {
            "Minor 7"@
        } else if index == 9 {
            "Dominant 7"@
        } else if index == 10 {
            "Minor Major 7"@
        } else if index == 11 {
            "6"@
        } else if index == 12 {
            "Minor 6"@
        } else if index == 13 {
            "9"@
        } else if index == 14 {
            "Minor 9"@
        } else if index == 15 {
            "Add 9"@
        } else if index == 16 {
            "7 Suspended 4"@
        } else if index == 17 {
            "Diminished 7"@
        } else if index == 18 {
            "Half Diminished"@
        } else if index == 19 {
            "Plus 7"@
        } else if index == 20 {
            "Minor 11"@
        } else if index == 21 {
            "Augmented Major 7"@
        } else if index == 22 {
            "Dominant 7 Flat 9"@
        } else {
            "Altered Dominant 7"@
        }
    }

    /// The abbreviation that follows the root in the short name of the chord
    /// at a place of the catalogue.
    pub open spec fn abbreviation(index: int) -> Seq<char> {
        if index == 0 {
            ""@
        } else if index == 1 {
            "m"@
        } else if index == 2 {
            "dim"@
        } else if index == 3 {
            "aug"@
        } else if index == 4 {
            "sus2"@
        } else if index == 5 {
            "sus4"@
        } else if index == 6 {
            "5"@
        } else if index == 7 {
            "maj7"@
        } else if index == 8 {
            "m7"@
        } else if index == 9 {
            "7"@
        } else if index == 10 {
            "m(Maj7)"@
        } else if index == 11 {
            "6"@
        } else if index == 12 {
            "m6"@
        } else if index == 13 {
            "9"@
        } else if index == 14 {
            "m9"@
        } else if index == 15 {
            "add9"@
        } else if index == 16 {
            "7sus4"@
        } else if index == 17 {
            "dim7"@
        } else if index == 18 {
            "7\u{266d}5"@
        } else if index == 19 {
            "+7"@
        } else if index == 20 {
            "m11"@
        } else if index == 21 {
            "Maj7\u{266f}5"@
        } else if index == 22 {
            "7\u{266d}9"@
        } else {
            "7\u{266f}5\u{266f}9"@
        }
    }

    /// The chord at a place of the catalogue, counted from 0.
    pub open spec fn catalog(index: int) -> ChordDefView {
        ChordDefView {
            name: ChordDef::title(index),
            naming_convention: ChordDef::abbreviation(index),
            intervals: ChordDef::pattern(index),
        }
    }

    /// The place in the catalogue of the chord that an upper-case name asks for.
    pub open spec fn place_of(keyword: Seq<char>) -> Option<int> {
        if keyword == "MAJOR"@ {
            Some(0int)
        } else if keyword == "MINOR"@ {
            Some(1int)
        } else if keyword == "DIMINISHED"@ {
            Some(2int)
        } else if keyword == "AUGMENTED"@ {
            Some(3int)
        } else if keyword == "SUSPENDED TWO"@ {
            Some(4int)
        } else if keyword == "SUSPENDED FOUR"@ {
            Some(5int)
        } else if keyword == "POWER"@ {
            Some(6int)
        } else if keyword == "MAJOR SEVEN"@ {
            Some(7int)
        } else if keyword == "MINOR SEVEN"@ {
            Some(8int)
        } else if keyword == "DOMINANT SEVEN"@ {
            Some(9int)
        } else if keyword == "MINOR MAJOR SEVEN"@ {
            Some(10int)
        } else if keyword == "SIX"@ {
            Some(11int)
        } else if keyword == "MINOR SIX"@ {
            Some(12int)
        } else if keyword == "NINE"@ {
            Some(13int)
        } else if keyword == "MINOR NINE"@ {
            Some(14int)
        } else if keyword == "ADD NINE"@ {
            Some(15int)
        } else if keyword == "SEVEN SUSPENDED FOUR"@ {
            Some(16int)
        } else if keyword == "DIMINISHED SEVEN"@ {
            Some(17int)
        } else if keyword == "HALF DIMINISHED"@ {
            Some(18int)
        } else if keyword == "PLUS SEVEN"@ {
            Some(19int)
        } else if keyword == "MINOR ELEVEN"@ {
            Some(20int)
        } else if keyword == "AUGMENTED MAJOR SEVEN"@ {
            Some(21int)
        } else if keyword == "DOMINANT SEVEN FLAT NINE"@ {
            Some(22int)
        } else if keyword == "ALTERED DOMINANT SEVEN"@ {
            Some(23int)
        } else {
            None
        }
    }

    /// Whether every interval names a degree of the scale: the degrees are counted from 1.
    pub open spec fn well_formed(intervals: Seq<Interval>) -> bool {
        forall|i: int| 0 <= i < intervals.len() ==> (#[trigger] intervals[i]).interval >= 1
    }

    pub fn new_major() -> (definition: Self)
        ensures
            definition@ == ChordDef::catalog(0),
    {
        let mut intervals: Vec<Interval> = Vec::new();
        intervals.push(Interval::new(1, None));
        intervals.push(Interval::new(3, None));
        intervals.push(Interval::new(5, None));
        assert(intervals@ =~= ChordDef::pattern(0));
        ChordDef {
            name: String::from_str("Major"),
            naming_convention: String::from_str(""),
            intervals,
        }
    }

    pub fn new_minor() -> (definition: Self)
        ensures
            definition@ == ChordDef::catalog(1),
    {
        let mut intervals: Vec<Interval> = Vec::new();
        intervals.push(Interval::new(1, None));
        intervals.push(Interval::new(3, Some(Accidental::Flat)));
        intervals.push(Interval::new(5, None));
        assert(intervals@ =~= ChordDef::pattern(1));
        ChordDef {
            name: String::from_str("Minor"),
            naming_convention: String::from_str("m"),
            intervals,
        }
    }

    pub fn new_diminished() -> (definition: Self)
        ensures
            definition@ == ChordDef::catalog(2),
    {
        let mut intervals: Vec<Interval> = Vec::new();
        intervals.push(Interval::new(1, None));
        intervals.push(Interval::new(3, Some(Accidental::Flat)));
        intervals.push(Interval::new(5, Some(Accidental::Flat)));
        assert(intervals@ =~= ChordDef::pattern(2));
        ChordDef {
            name: String::from_str("Diminished"),
            naming_convention: String::from_str("dim"),
            intervals,
        }
    }

    pub fn new_augmented() -> (definition: Self)
        ensures
            definition@ == ChordDef::catalog(3),
    {
        let mut intervals: Vec<Interval> = Vec::new();
        intervals.push(Interval::new(1, None));
        intervals.push(Interval::new(3, None));
        intervals.push(Interval::new(5, Some(Accidental::Sharp)));
        assert(intervals@ =~= ChordDef::pattern(3));
        ChordDef {
            name: String::from_str("Augmented"),
            naming_convention: String::from_str("aug"),
            intervals,
        }
    }

    pub fn new_suspended_second() -> (definition: Self)
        ensures
            definition@ == ChordDef::catalog(4),
    {
        let mut intervals: Vec<Interval> = Vec::new();
        intervals.push(Interval::new(1, None));
        intervals.push(Interval::new(2, None));
        intervals.push(Interval::new(5, None));
        assert(intervals@ =~= ChordDef::pattern(4));
        ChordDef {
            name: String::from_str("Suspended 2"),
            naming_convention: String::from_str("sus2"),
            intervals,
        }
    }

    pub fn new_suspended_four() -> (definition: Self)
        ensures
            definition@ == ChordDef::catalog(5),
    {
        let mut intervals: Vec<Interval> = Vec::new();
        intervals.push(Interval::new(1, None));
        intervals.push(Interval::new(4, None));
        intervals.push(Interval::new(5, None));
        assert(intervals@ =~= ChordDef::pattern(5));
        ChordDef {
            name: String::from_str("Suspended 4"),
            naming_convention: String::from_str("sus4"),
            intervals,
        }
    }

    pub fn new_power() -> (definition: Self)
        ensures
            definition@ == ChordDef::catalog(6),
    {
        let mut intervals: Vec<Interval> = Vec::new();
        intervals.push(Interval::new(1, None));
        intervals.push(Interval::new(5, None));
        assert(intervals@ =~= ChordDef::pattern(6));
        ChordDef {
            name: String::from_str("Power"),
            naming_convention: String::from_str("5"),
            intervals,
        }
    }

    pub fn new_major_seven() -> (definition: Self)
        ensures
            definition@ == ChordDef::catalog(7),
    {
        let mut intervals: Vec<Interval> = Vec::new();
        intervals.push(Interval::new(1, None));
        intervals.push(Interval::new(3, None));
        intervals.push(Interval::new(5, None));
        intervals.push(Interval::new(7, None));
        assert(intervals@ =~= ChordDef::pattern(7));
        ChordDef {
            name: String::from_str("Major 7"),
            naming_convention: String::from_str("maj7"),
            intervals,
        }
    }

    pub fn new_minor_seven() -> (definition: Self)
        ensures
            definition@ == ChordDef::catalog(8),
    {
        let mut intervals: Vec<Interval> = Vec::new();
        intervals.push(Interval::new(1, None));
        intervals.push(Interval::new(3, Some(Accidental::Flat)));
        intervals.push(Interval::new(5, None));
        intervals.push(Interval::new(7, Some(Accidental::Flat)));
        assert(intervals@ =~= ChordDef::pattern(8));
        ChordDef {
            name: String::from_str("Minor 7"),
            naming_convention: String::from_str("m7"),
            intervals,
        }
    }

    pub fn new_dominant_seven() -> (definition: Self)
        ensures
            definition@ == ChordDef::catalog(9),
    {
        let mut intervals: Vec<Interval> = Vec::new();
        intervals.push(Interval::new(1, None));
        intervals.push(Interval::new(3, None));
        intervals.push(Interval::new(5, None));
        intervals.push(Interval::new(7, Some(Accidental::Flat)));
        assert(intervals@ =~= ChordDef::pattern(9));
        ChordDef {
            name: String::from_str("Dominant 7"),
            naming_convention: String::from_str("7"),
            intervals,
        }
    }

    pub fn new_minor_major_seven() -> (definition: Self)
        ensures
            definition@ == ChordDef::catalog(10),
    {
        let mut intervals: Vec<Interval> = Vec::new();
        intervals.push(Interval::new(1, None));
        intervals.push(Interval::new(3, Some(Accidental::Flat)));
        intervals.push(Interval::new(5, None));
        intervals.push(Interval::new(7, None));
        assert(intervals@ =~= ChordDef::pattern(10));
        ChordDef {
            name: String::from_str("Minor Major 7"),
            naming_convention: String::from_str("m(Maj7)"),
            intervals,
        }
    }

    pub fn new_six() -> (definition: Self)
        ensures
            definition@ == ChordDef::catalog(11),
    {
        let mut intervals: Vec<Interval> = Vec::new();
        intervals.push(Interval::new(1, None));
        intervals.push(Interval::new(3, None));
        intervals.push(Interval::new(5, None));
        intervals.push(Interval::new(6, None));
        assert(intervals@ =~= ChordDef::pattern(11));
        ChordDef {
            name: String::from_str("6"),
            naming_convention: String::from_str("6"),
            intervals,
        }
    }

    pub fn new_minor_six() -> (definition: Self)
        ensures
            definition@ == ChordDef::catalog(12),
    {
        let mut intervals: Vec<Interval> = Vec::new();
        intervals.push(Interval::new(1, None));
        intervals.push(Interval::new(3, Some(Accidental::Flat)));
        intervals.push(Interval::new(5, None));
        intervals.push(Interval::new(6, None));
        assert(intervals@ =~= ChordDef::pattern(12));
        ChordDef {
            name: String::from_str("Minor 6"),
            naming_convention: String::from_str("m6"),
            intervals,
        }
    }

    pub fn new_nine() -> (definition: Self)
        ensures
            definition@ == ChordDef::catalog(13),
    {
        let mut intervals: Vec<Interval> = Vec::new();
        intervals.push(Interval::new(1, None));
        intervals.push(Interval::new(3, None));
        intervals.push(Interval::new(5, None));
        intervals.push(Interval::new(7, Some(Accidental::Flat)));
        intervals.push(Interval::new(9, None));
        assert(intervals@ =~= ChordDef::pattern(13));
        ChordDef {
            name: String::from_str("9"),
            naming_convention: String::from_str("9"),
            intervals,
        }
    }

    pub fn new_minor_nine() -> (definition: Self)
        ensures
            definition@ == ChordDef::catalog(14),
    {
        let mut intervals: Vec<Interval> = Vec::new();
        intervals.push(Interval::new(1, None));
        intervals.push(Interval::new(3, Some(Accidental::Flat)));
        intervals.push(Interval::new(5, None));
        intervals.push(Interval::new(7, Some(Accidental::Flat)));
        intervals.push(Interval::new(9, None));
        assert(intervals@ =~= ChordDef::pattern(14));
        ChordDef {
            name: String::from_str("Minor 9"),
            naming_convention: String::from_str("m9"),
            intervals,
        }
    }

    pub fn new_add_nine() -> (definition: Self)
        ensures
            definition@ == ChordDef::catalog(15),
    {
        let mut intervals: Vec<Interval> = Vec::new();
        intervals.push(Interval::new(1, None));
        intervals.push(Interval::new(3, None));
        intervals.push(Interval::new(5, None));
        intervals.push(Interval::new(9, None));
        assert(intervals@ =~= ChordDef::pattern(15));
        ChordDef {
            name: String::from_str("Add 9"),
            naming_convention: String::from_str("add9"),
            intervals,
        }
    }

    pub fn new_seven_suspended_four() -> (definition: Self)
        ensures
            definition@ == ChordDef::catalog(16),
    {
        let mut intervals: Vec<Interval> = Vec::new();
        intervals.push(Interval::new(1, None));
        intervals.push(Interval::new(4, None));
        intervals.push(Interval::new(5, None));
        intervals.push(Interval::new(7, Some(Accidental::Flat)));
        assert(intervals@ =~= ChordDef::pattern(16));
        ChordDef {
            name: String::from_str("7 Suspended 4"),
            naming_convention: String::from_str("7sus4"),
            intervals,
        }
    }

    pub fn new_dimished_seven() -> (definition: Self)
        ensures
            definition@ == ChordDef::catalog(17),
    {
        let mut intervals: Vec<Interval> = Vec::new();
        intervals.push(Interval::new(1, None));
        intervals.push(Interval::new(3, Some(Accidental::Flat)));
        intervals.push(Interval::new(5, Some(Accidental::Flat)));
        intervals.push(Interval::new(6, None));
        assert(intervals@ =~= ChordDef::pattern(17));
        ChordDef {
            name: String::from_str("Diminished 7"),
            naming_convention: String::from_str("dim7"),
            intervals,
        }
    }

    pub fn new_half_diminished() -> (definition: Self)
        ensures
            definition@ == ChordDef::catalog(18),
    {
        let mut intervals: Vec<Interval> = Vec::new();
        intervals.push(Interval::new(1, None));
        intervals.push(Interval::new(3, Some(Accidental::Flat)));
        intervals.push(Interval::new(5, Some(Accidental::Flat)));
        intervals.push(Interval::new(7, Some(Accidental::Flat)));
        assert(intervals@ =~= ChordDef::pattern(18));
        ChordDef {
            name: String::from_str("Half Diminished"),
            naming_convention: String::from_str("7\u{266d}5"),
            intervals,
        }
    }

    pub fn new_plus_seven() -> (definition: Self)
        ensures
            definition@ == ChordDef::catalog(19),
    {
        let mut intervals: Vec<Interval> = Vec::new();
        intervals.push(Interval::new(1, None));
        intervals.push(Interval::new(3, None));
        intervals.push(Interval::new(5, Some(Accidental::Sharp)));
        intervals.push(Interval::new(7, Some(Accidental::Flat)));
        assert(intervals@ =~= ChordDef::pattern(19));
        ChordDef {
            name: String::from_str("Plus 7"),
            naming_convention: String::from_str("+7"),
            intervals,
        }
    }

    pub fn new_minor_eleven() -> (definition: Self)
        ensures
            definition@ == ChordDef::catalog(20),
    {
        let mut intervals: Vec<Interval> = Vec::new();
        intervals.push(Interval::new(1, None));
        intervals.push(Interval::new(3, Some(Accidental::Flat)));
        intervals.push(Interval::new(5, None));
        intervals.push(Interval::new(7, Some(Accidental::Flat)));
        intervals.push(Interval::new(9, None));
        intervals.push(Interval::new(11, None));
        assert(intervals@ =~= ChordDef::pattern(20));
        ChordDef {
            name: String::from_str("Minor 11"),
            naming_convention: String::from_str("m11"),
            intervals,
        }
    }

    pub fn new_augmented_major_seven() -> (definition: Self)
        ensures
            definition@ == ChordDef::catalog(21),
    {
        let mut intervals: Vec<Interval> = Vec::new();
        intervals.push(Interval::new(1, None));
        intervals.push(Interval::new(3, None));
        intervals.push(Interval::new(5, Some(Accidental::Sharp)));
        intervals.push(Interval::new(7, None));
        assert(intervals@ =~= ChordDef::pattern(21));
        ChordDef {
            name: String::from_str("Augmented Major 7"),
            naming_convention: String::from_str("Maj7\u{266f}5"),
            intervals,
        }
    }

    pub fn new_dominant_seven_flat_nine() -> (definition: Self)
        ensures
            definition@ == ChordDef::catalog(22),
    {
        let mut intervals: Vec<Interval> = Vec::new();
        intervals.push(Interval::new(1, None));
        intervals.push(Interval::new(3, None));
        intervals.push(Interval::new(5, None));
        intervals.push(Interval::new(7, Some(Accidental::Flat)));
        intervals.push(Interval::new(9, Some(Accidental::Flat)));
        assert(intervals@ =~= ChordDef::pattern(22));
        ChordDef {
            name: String::from_str("Dominant 7 Flat 9"),
            naming_convention: String::from_str("7\u{266d}9"),
            intervals,
        }
    }

    pub fn new_altered_dominant_seven() -> (definition: Self)
        ensures
            definition@ == ChordDef::catalog(23),
    {
        let mut intervals: Vec<Interval> = Vec::new();
        intervals.push(Interval::new(1, None));
        intervals.push(Interval::new(3, None));
        intervals.push(Interval::new(5, Some(Accidental::Sharp)));
        intervals.push(Interval::new(7, Some(Accidental::Flat)));
        intervals.push(Interval::new(9, Some(Accidental::Sharp)));
        assert(intervals@ =~= ChordDef::pattern(23));
        ChordDef {
            name: String::from_str("Altered Dominant 7"),
            naming_convention: String::from_str("7\u{266f}5\u{266f}9"),
            intervals,
        }
    }

    /// Writes this pattern as it is shown.
    pub fn to_text(&self) -> (text: String)
        ensures
            text@ == self@.text(),
    {
        let white_rgb = Rgb { red: 255, green: 255, blue: 255 };
        let mut text: String = paint(self.name.as_str(), white_rgb);
        text.append(" ");
        text.append(paint("chord: ", white_rgb).as_str());
        let ghost head = text@;
        let mut at: usize = 0;
        while at < self.intervals.len()
            invariant
                at <= self.intervals.len(),
                white_rgb == Rgb::white(),
                text@ == head + intervals_text(self.intervals@.take(at as int)),
            decreases self.intervals.len() - at,
        {
            let written: String = self.intervals[at].to_text();
            proof {
                let longer = self.intervals@.take(at + 1);
                assert(longer.drop_last() =~= self.intervals@.take(at as int));
                assert(longer.last() == self.intervals@[at as int]);
            }
            text.append(paint(written.as_str(), white_rgb).as_str());
            text.append(" ");
            at = at + 1;
            assert(text@ =~= head + intervals_text(self.intervals@.take(at as int)));
        }
        assert(self.intervals@.take(at as int) =~= self.intervals@);
        text.append("\n");
        assert(text@ =~= self@.text());
        text
    }

    /// The chord at a place of the catalogue, if the catalogue has that place.
    pub fn from_number(input: i8) -> (definition: Option<Self>)
        ensures
            definition is Some <==> 0 <= input < CHORD_COUNT,
            definition matches Some(found) ==> found@ == ChordDef::catalog(input as int),
    {
        match input {
            0 => Some(ChordDef::new_major()),
            1 => Some(ChordDef::new_minor()),
            2 => Some(ChordDef::new_diminished()),
            3 => Some(ChordDef::new_augmented()),
            4 => Some(ChordDef::new_suspended_second()),
            5 => Some(ChordDef::new_suspended_four()),
            6 => Some(ChordDef::new_power()),
            7 => Some(ChordDef::new_major_seven()),
            8 => Some(ChordDef::new_minor_seven()),
            9 => Some(ChordDef::new_dominant_seven()),
            10 => Some(ChordDef::new_minor_major_seven()),
            11 => Some(ChordDef::new_six()),
            12 => Some(ChordDef::new_minor_six()),
            13 => Some(ChordDef::new_nine()),
            14 => Some(ChordDef::new_minor_nine()),
            15 => Some(ChordDef::new_add_nine()),
            16 => Some(ChordDef::new_seven_suspended_four()),
            17 => Some(ChordDef::new_dimished_seven()),
            18 => Some(ChordDef::new_half_diminished()),
            19 => Some(ChordDef::new_plus_seven()),
            20 => Some(ChordDef::new_minor_eleven()),
            21 => Some(ChordDef::new_augmented_major_seven()),
            22 => Some(ChordDef::new_dominant_seven_flat_nine()),
            23 => Some(ChordDef::new_altered_dominant_seven()),
            _ => None,
        }
    }

    /// The place in the catalogue of the chord that an upper-case name asks for.
    pub fn find(keyword: &str) -> (place: Option<i8>)
        ensures
            place matches Some(index) ==> ChordDef::place_of(keyword@) == Some(index as int),
            place is None ==> ChordDef::place_of(keyword@) is None,
    {
        if same_text(keyword, "MAJOR") {
            Some(0)
        } else if same_text(keyword, "MINOR") {
            Some(1)
        } else if same_text(keyword, "DIMINISHED") {
            Some(2)
        } else if same_text(keyword, "AUGMENTED") {
            Some(3)
        } else if same_text(keyword, "SUSPENDED TWO") {
            Some(4)
        } else if same_text(keyword, "SUSPENDED FOUR") {
            Some(5)
        } else if same_text(keyword, "POWER") {
            Some(6)
        } else if same_text(keyword, "MAJOR SEVEN") {
            Some(7)
        } else if same_text(keyword, "MINOR SEVEN") {
            Some(8)
        } else if same_text(keyword, "DOMINANT SEVEN") {
            Some(9)
        } else if same_text(keyword, "MINOR MAJOR SEVEN") {
            Some(10)
        } else if same_text(keyword, "SIX") {
            Some(11)
        } else if same_text(keyword, "MINOR SIX") {
            Some(12)
        } else if same_text(keyword, "NINE") {
            Some(13)
        } else if same_text(keyword, "MINOR NINE") {
            Some(14)
        } else if same_text(keyword, "ADD NINE") {
            Some(15)
        } else if same_text(keyword, "SEVEN SUSPENDED FOUR") {
            Some(16)
        } else if same_text(keyword, "DIMINISHED SEVEN") {
            Some(17)
        } else if same_text(keyword, "HALF DIMINISHED") {
            Some(18)
        } else if same_text(keyword, "PLUS SEVEN") {
            Some(19)
        } else if same_text(keyword, "MINOR ELEVEN") {
            Some(20)
        } else if same_text(keyword, "AUGMENTED MAJOR SEVEN") {
            Some(21)
        } else if same_text(keyword, "DOMINANT SEVEN FLAT NINE") {
            Some(22)
        } else if same_text(keyword, "ALTERED DOMINANT SEVEN") {
            Some(23)
        } else {
            None
        }
    }

    /// Every chord of the catalogue names degrees of the scale only.
    pub proof fn lemma_catalog_well_formed(index: int)
        ensures
            ChordDef::well_formed(ChordDef::pattern(index)),
    {
    }
}

} // verus!
