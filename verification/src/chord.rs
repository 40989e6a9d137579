//! Chords: degrees of the major scale of a root, each moved by its accidental.

use vstd::prelude::*;
use crate::chord_catalog::{ChordDef, ChordDefView, Interval, CHORD_COUNT};
use crate::color::{paint, painted, Rgb};
use crate::note::{lemma_raised_twice, notes_text, write_notes, Accidental, NoteName, Step};
use crate::scale::{lemma_scale_notes, scale_notes, Scale};
use crate::scale_catalog::ScaleDef;
use crate::text::{to_upper, uppercase};

verus! {

/// The eight notes of the major scale of a root: seven degrees and the octave.
pub open spec fn major_scale(root: NoteName) -> Seq<NoteName> {
    scale_notes(root, ScaleDef::pattern(0))
}

/// The semitones between the root of a major scale and the note at a place of it.
pub open spec fn major_offset(place: int) -> int {
    if place == 0 {
        0
    } else if place == 1 {
        2
    } else if place == 2 {
        4
    } else if place == 3 {
        5
    } else if place == 4 {
        7
    } else if place == 5 {
        9
    } else if place == 6 {
        11
    } else {
        12
    }
}

/// The major scale of a root has eight notes: the root itself, then the
/// pitch classes 2, 4, 5, 7, 9, 11 and 12 semitones above it.
pub proof fn lemma_major_scale(root: NoteName)
    ensures
        major_scale(root).len() == 8,
        major_scale(root)[0] == root,
        forall|place: int|
            1 <= place <= 7 ==> #[trigger] major_scale(root)[place] == root.raised(
                major_offset(place),
            ),
{
    let steps = ScaleDef::pattern(0);
    let notes = major_scale(root);
    lemma_scale_notes(root, steps);
    assert(steps[0] == Step::Whole);
    assert(notes[1] == root.raised(2));
    assert(steps[1] == Step::Whole);
    lemma_raised_twice(root, 2, 2);
    assert(notes[2] == root.raised(4));
    assert(steps[2] == Step::Half);
    lemma_raised_twice(root, 4, 1);
    assert(notes[3] == root.raised(5));
    assert(steps[3] == Step::Whole);
    lemma_raised_twice(root, 5, 2);
    assert(notes[4] == root.raised(7));
    assert(steps[4] == Step::Whole);
    lemma_raised_twice(root, 7, 2);
    assert(notes[5] == root.raised(9));
    assert(steps[5] == Step::Whole);
    lemma_raised_twice(root, 9, 2);
    assert(notes[6] == root.raised(11));
    assert(steps[6] == Step::Half);
    lemma_raised_twice(root, 11, 1);
    assert(notes[7] == root.raised(12));
}

/// The place in the major scale where a degree is found. Degrees up to the
/// eighth stand at their own place; a higher degree wraps around the eight
/// notes of the scale, so that the ninth meets the second and the eleventh
/// the fourth.
pub open spec fn degree_place(degree: int) -> int {
    if degree > 8 {
        degree % 8
    } else {
        degree - 1
    }
}

/// The note that an interval names above a root: the note of the major scale
/// at the place of its degree, lowered by a half step for a flat and raised
/// by a half step for a sharp.
pub open spec fn chord_note(root: NoteName, interval: Interval) -> NoteName {
    let base = major_scale(root)[degree_place(interval.interval as int)];
    match interval.accidental {
        None => base,
        Some(Accidental::Flat) => base.lowered(1),
        Some(Accidental::Sharp) => base.raised(1),
    }
}

/// The notes of a chord: one for each interval, in order.
pub open spec fn chord_notes(root: NoteName, intervals: Seq<Interval>) -> Seq<NoteName> {
    Seq::new(intervals.len(), |i: int| chord_note(root, intervals[i]))
}

/// A chord pattern bound to a root.
#[derive(Debug, PartialEq, Eq)]
pub struct Chord {
    pub definition: ChordDef,
    pub notes: Vec<NoteName>,
    pub name: String,
    pub short_name: String,
}

/// What a chord holds: its pattern, its notes in order and its two names.
pub struct ChordView {
    pub definition: ChordDefView,
    pub notes: Seq<NoteName>,
    pub name: Seq<char>,
    pub short_name: Seq<char>,
}

impl View for Chord {
    type V = ChordView;

    open spec fn view(&self) -> ChordView {
        ChordView {
            definition: self.definition@,
            notes: self.notes@,
            name: self.name@,
            short_name: self.short_name@,
        }
    }
}

impl ChordView {
    /// This chord as it is shown, on a line of its own: its name, its short
    /// name in brackets, the word `chord:`, and its notes.
    pub open spec fn text(self) -> Seq<char> {
        painted(self.name, Rgb::white()) + " "@ + painted("("@, Rgb::white()) + painted(
            self.short_name,
            Rgb::white(),
        ) + painted(")"@, Rgb::white()) + " "@ + painted("chord: "@, Rgb::white()) + notes_text(
            self.notes,
        ) + "\n"@
    }
}

impl Clone for Chord {
    fn clone(&self) -> (copy: Self)
        ensures
            copy@ == self@,
    {
        let mut notes: Vec<NoteName> = Vec::new();
        let mut at: usize = 0;
        while at < self.notes.len()
            invariant
                at <= self.notes.len(),
                notes@ == self.notes@.take(at as int),
            decreases self.notes.len() - at,
        {
            notes.push(self.notes[at]);
            at += 1;
        }
        assert(notes@ =~= self.notes@);
        Chord {
            definition: self.definition.clone(),
            notes,
            name: self.name.clone(),
            short_name: self.short_name.clone(),
        }
    }
}

impl Chord {
    /// The chord that a pattern gives on a root: the notes that its intervals
    /// name, a full name made of the root and the name of the pattern, and a
    /// short name made of the root and the abbreviation of the pattern.
    pub open spec fn built(root: NoteName, definition: ChordDefView) -> ChordView {
        ChordView {
            definition,
            notes: chord_notes(root, definition.intervals),
            name: root.name_text() + " "@ + definition.name,
            short_name: root.name_text() + definition.naming_convention,
        }
    }

    /// Builds a pattern on a root.
    pub fn new(root_note: &NoteName, definition: &ChordDef) -> (chord: Self)
        requires
            ChordDef::well_formed(definition.intervals@),
        ensures
            chord@ == Chord::built(*root_note, definition@),
            chord.notes@.len() == definition.intervals@.len(),
            forall|i: int|
                0 <= i < chord.notes@.len() ==> #[trigger] chord.notes@[i] == chord_note(
                    *root_note,
                    definition.intervals@[i],
                ),
    {
        let scale: Scale = Scale::new(root_note, &ScaleDef::new_major());
        let mut notes: Vec<NoteName> = Vec::new();
        let scale_length: usize = scale.notes.len();
        proof {
            lemma_scale_notes(*root_note, ScaleDef::pattern(0));
        }
        let mut at: usize = 0;
        while at < definition.intervals.len()
            invariant
                at <= definition.intervals.len(),
                ChordDef::well_formed(definition.intervals@),
                scale_length == 8,
                scale.notes@ == major_scale(*root_note),
                scale.notes@.len() == 8,
                notes@ == chord_notes(*root_note, definition.intervals@.take(at as int)),
            decreases definition.intervals.len() - at,
        {
            let interval: Interval = definition.intervals[at];
            let interval_value: usize = interval.interval as usize;
            let i: usize = if interval_value > scale_length {
                interval_value % scale_length
            } else {
                interval_value - 1
            };
            let base_note: NoteName = scale.notes[i];
            let note: NoteName = match interval.accidental {
                None => base_note,
                Some(Accidental::Flat) => NoteName::down_step(&base_note, &Step::new_half()),
                Some(Accidental::Sharp) => NoteName::up_step(&base_note, &Step::new_half()),
            };
            notes.push(note);
            at = at + 1;
            assert(notes@ =~= chord_notes(*root_note, definition.intervals@.take(at as int)));
        }
        assert(definition.intervals@.take(at as int) =~= definition.intervals@);
        let name: String = NoteName::get_name(root_note).concat(" ").concat(
            definition.name.as_str(),
        );
        let short_name: String = NoteName::get_name(root_note).concat(
            definition.naming_convention.as_str(),
        );
        Chord { definition: definition.clone(), notes, name, short_name }
    }

    /// Writes this chord as it is shown.
    pub fn to_text(&self) -> (text: String)
        ensures
            text@ == self@.text(),
    {
        let white_rgb = Rgb { red: 255, green: 255, blue: 255 };
        let mut text: String = paint(self.name.as_str(), white_rgb);
        text.append(" ");
        text.append(paint("(", white_rgb).as_str());
        text.append(paint(self.short_name.as_str(), white_rgb).as_str());
        text.append(paint(")", white_rgb).as_str());
        text.append(" ");
        text.append(paint("chord: ", white_rgb).as_str());
        text.append(write_notes(&self.notes).as_str());
        text.append("\n");
        assert(text@ =~= self@.text());
        text
    }

    /// Builds on a root the chord that a name asks for, in either case.
    pub fn from_string(key: &NoteName, input: String) -> (chord: Option<Self>)
        ensures
            match chord {
                Some(found) => ChordDef::place_of(uppercase(input@)) matches Some(index)
                    && found@ == Chord::built(*key, ChordDef::catalog(index)),
                None => ChordDef::place_of(uppercase(input@)) is None,
            },
    {
        let input_uppercase: String = to_upper(input.as_str());
        Chord::from_keyword(key, input_uppercase.as_str())
    }

    /// Builds on a root the chord that an upper-case name asks for.
    pub fn from_keyword(key: &NoteName, keyword: &str) -> (chord: Option<Self>)
        ensures
            match chord {
                Some(found) => ChordDef::place_of(keyword@) matches Some(index) && found@
                    == Chord::built(*key, ChordDef::catalog(index)),
                None => ChordDef::place_of(keyword@) is None,
            },
    {
        match ChordDef::find(keyword) {
            Some(index) => Chord::from_number(key, index),
            None => None,
        }
    }

    /// Builds on a root the chord at a place of the catalogue.
    pub fn from_number(key: &NoteName, input: i8) -> (chord: Option<Self>)
        ensures
            match chord {
                Some(found) => 0 <= input < CHORD_COUNT && found@ == Chord::built(
                    *key,
                    ChordDef::catalog(input as int),
                ),
                None => !(0 <= input < CHORD_COUNT),
            },
    {
        match ChordDef::from_number(input) {
            Some(definition) => {
                proof {
                    ChordDef::lemma_catalog_well_formed(input as int);
                }
                Some(Chord::new(key, &definition))
            },
            None => None,
        }
    }
}

} // verus!
