//! Pitches: a pitch class in an octave, and the arithmetic that moves a pitch
//! by a number of semitones.

use vstd::prelude::*;
use crate::color::{paint, painted};
use crate::note::{Accidental, NaturalNote, NoteName, Step};
use crate::text::{signed_numeral, write_signed};

verus! {

/// A pitch class in a numbered octave. The octave changes between B and C.
#[derive(Clone, Copy, Debug, PartialEq, Eq, Hash, Structural)]
pub struct NotePitch {
    pub note_name: NoteName,
    pub octave: i8,
}

impl NotePitch {
    /// The semitone of the octave that this pitch sounds, from 0 for C to 11 for B.
    pub open spec fn semitone(self) -> int {
        self.note_name.semitone()
    }

    /// The pitch that a semitone number names in an octave.
    pub open spec fn of_number(number: int, octave: int) -> NotePitch {
        NotePitch { note_name: NoteName::of_semitone(number), octave: octave as i8 }
    }

    /// Whether the pitch `distance` semitones above this one has an octave
    /// that the octave field can hold.
    pub open spec fn can_raise(self, distance: int) -> bool {
        self.octave + (self.semitone() + distance) / 12 <= i8::MAX
    }

    /// Whether the pitch `distance` semitones below this one has an octave
    /// that the octave field can hold.
    pub open spec fn can_lower(self, distance: int) -> bool {
        self.octave + (self.semitone() - distance) / 12 >= i8::MIN
    }

    /// The semitone number and the octave of this pitch.
    pub open spec fn numbers(self) -> (int, int) {
        (self.semitone(), self.octave as int)
    }

    /// The semitone number and the octave `distance` semitones above this
    /// pitch: the semitone wraps around twelve and the octave rises once for
    /// each wrap.
    pub open spec fn plus(self, distance: int) -> (int, int) {
        ((self.semitone() + distance) % 12, self.octave + (self.semitone() + distance) / 12)
    }

    /// The semitone number and the octave `distance` semitones below this
    /// pitch: the semitone wraps around twelve and the octave falls once for
    /// each wrap.
    pub open spec fn less(self, distance: int) -> (int, int) {
        ((self.semitone() - distance) % 12, self.octave + (self.semitone() - distance) / 12)
    }

    /// The pitch `distance` semitones above this one, spelled by its
    /// semitone number.
    pub open spec fn raised(self, distance: int) -> NotePitch {
        NotePitch::of_number(self.plus(distance).0, self.plus(distance).1)
    }

    /// The pitch `distance` semitones below this one, spelled by its
    /// semitone number.
    pub open spec fn lowered(self, distance: int) -> NotePitch {
        NotePitch::of_number(self.less(distance).0, self.less(distance).1)
    }

    /// The pitch found `distance` semitones up a string whose open note is
    /// this pitch. The open note keeps its spelling.
    pub open spec fn fretted(self, distance: int) -> NotePitch {
        if distance == 0 {
            self
        } else {
            self.raised(distance)
        }
    }

    /// The written name of this pitch: the name of its pitch class, then the
    /// number of its octave.
    pub open spec fn name_text(self) -> Seq<char> {
        self.note_name.name_text() + signed_numeral(self.octave as int)
    }

    /// This pitch as it is shown: its name in the colour of its pitch class,
    /// after a space of half a letter's width where the name has no accidental.
    pub open spec fn text(self) -> Seq<char> {
        match self.note_name.alteration() {
            Some(_) => painted(self.name_text(), self.note_name.color()),
            None => "\u{2002}"@ + painted(self.name_text(), self.note_name.color()),
        }
    }

    /// Spells a natural note with an optional accidental and places it in an octave.
    pub fn new(natural_note: &NaturalNote, accidental: &Option<Accidental>, octave: i8) -> (pitch:
        Self)
        requires
            NoteName::allowed(*natural_note, *accidental),
        ensures
            pitch.note_name.natural() == *natural_note,
            pitch.note_name.alteration() == *accidental,
            pitch.octave == octave,
    {
        NotePitch { note_name: NoteName::new(natural_note, accidental), octave }
    }

    /// The written name of this pitch, such as `E2` or `C\u{266f}4`.
    pub fn get_name(self: &Self) -> (name: String)
        ensures
            name@ == self.name_text(),
    {
        let octave: String = write_signed(self.octave as i64);
        self.note_name.get_name().concat(octave.as_str())
    }

    /// Writes this pitch as it is shown.
    pub fn to_text(&self) -> (text: String)
        ensures
            text@ == self.text(),
    {
        let rgb = NoteName::to_rgb(&self.note_name);
        let name: String = self.get_name();
        let colored: String = paint(name.as_str(), rgb);
        match self.note_name.accidental() {
            Some(_accidental) => colored,
            None => String::from_str("\u{2002}").concat(colored.as_str()),
        }
    }

    /// Places a pitch class in an octave.
    pub fn from_note_name(note_name: &NoteName, octave: i8) -> (pitch: Self)
        ensures
            pitch.note_name == *note_name,
            pitch.octave == octave,
    {
        NotePitch { note_name: *note_name, octave }
    }

    /// The pitch that a semitone number names in an octave.
    pub fn from_number(note_number: i8, octave: i8) -> (pitch: Self)
        requires
            0 <= note_number <= 11,
        ensures
            pitch == NotePitch::of_number(note_number as int, octave as int),
            pitch.semitone() == note_number,
            pitch.octave == octave,
    {
        NotePitch { note_name: NoteName::from_number(note_number), octave }
    }

    /// The semitone number and the octave of a pitch.
    pub fn to_number(note_pitch: &NotePitch) -> (numbers: (i8, i8))
        ensures
            (numbers.0 as int, numbers.1 as int) == note_pitch.numbers(),
            0 <= numbers.0 <= 11,
    {
        (NoteName::to_number(&note_pitch.note_name), note_pitch.octave)
    }

    /// The pitch at a fret: `distance` semitones above the open note.
    pub fn find_note(open_note: &NotePitch, distance: usize) -> (pitch: Self)
        requires
            open_note.can_raise(distance as int),
        ensures
            pitch == open_note.fretted(distance as int),
    {
        if distance == 0 {
            return *open_note;
        }
        let (number, octave) = NotePitch::add(open_note, distance);
        NotePitch::from_number(number, octave)
    }

    /// The pitch one step above `start_note`.
    pub fn up_step(start_note: &NotePitch, step: &Step) -> (pitch: Self)
        requires
            start_note.can_raise(step.semitones()),
        ensures
            pitch == start_note.raised(step.semitones()),
    {
        let to_add: i8 = Step::to_number(step);
        let (number, octave) = NotePitch::add(start_note, to_add as usize);
        NotePitch::from_number(number, octave)
    }

    /// The pitch one step below `start_note`.
    pub fn down_step(start_note: &NotePitch, step: &Step) -> (pitch: Self)
        requires
            start_note.can_lower(step.semitones()),
        ensures
            pitch == start_note.lowered(step.semitones()),
    {
        let to_subtract: i8 = Step::to_number(step);
        let (number, octave) = NotePitch::minus(start_note, to_subtract as usize);
        NotePitch::from_number(number, octave)
    }

    /// The semitone number and the octave reached `to_add` semitones above
    /// `start_note`.
    pub fn add(start_note: &NotePitch, to_add: usize) -> (numbers: (i8, i8))
        requires
            start_note.can_raise(to_add as int),
        ensures
            (numbers.0 as int, numbers.1 as int) == start_note.plus(to_add as int),
            0 <= numbers.0 <= 11,
    {
        let (note_number, octave) = NotePitch::to_number(start_note);
        let total: usize = note_number as usize + to_add;
        let number: i8 = (total % 12) as i8;
        let wraps: i16 = (total / 12) as i16;
        (number, (octave as i16 + wraps) as i8)
    }

    /// The semitone number and the octave reached `to_subtract` semitones
    /// below `start_note`.
    pub fn minus(start_note: &NotePitch, to_subtract: usize) -> (numbers: (i8, i8))
        requires
            start_note.can_lower(to_subtract as int),
        ensures
            (numbers.0 as int, numbers.1 as int) == start_note.less(to_subtract as int),
            0 <= numbers.0 <= 11,
    {
        let (note_number, octave) = NotePitch::to_number(start_note);
        let base: usize = note_number as usize;
        if to_subtract <= base {
            return ((base - to_subtract) as i8, octave);
        }
        let deficit: usize = to_subtract - base;
        let wraps: usize = (deficit + 11) / 12;
        let number: i8 = (wraps * 12 - deficit) as i8;
        (number, (octave as i16 - wraps as i16) as i8)
    }
}

/// Adding a number of semitones to a pitch, and subtracting the same number
/// from the pitch that the sum names, gives the semitone number and the
/// octave of the pitch.
pub proof fn lemma_add_then_subtract(pitch: NotePitch, distance: int)
    requires
        0 <= distance,
        pitch.can_raise(distance),
    ensures
        ({
            let sum = pitch.plus(distance);
            let raised = NotePitch::of_number(sum.0, sum.1);
            let difference = raised.less(distance);
            &&& 0 <= sum.0 <= 11
            &&& raised.can_lower(distance)
            &&& difference == pitch.numbers()
            &&& NotePitch::of_number(difference.0, difference.1).numbers() == pitch.numbers()
        }),
        pitch.raised(distance).lowered(distance).numbers() == pitch.numbers(),
{
}

/// Subtracting a number of semitones from a pitch, and adding the same
/// number to the pitch that the difference names, gives the semitone number
/// and the octave of the pitch.
pub proof fn lemma_subtract_then_add(pitch: NotePitch, distance: int)
    requires
        0 <= distance,
        pitch.can_lower(distance),
    ensures
        ({
            let difference = pitch.less(distance);
            let lowered = NotePitch::of_number(difference.0, difference.1);
            let sum = lowered.plus(distance);
            &&& 0 <= difference.0 <= 11
            &&& lowered.can_raise(distance)
            &&& sum == pitch.numbers()
        }),
        pitch.lowered(distance).raised(distance).numbers() == pitch.numbers(),
{
}

/// A semitone number and an octave, made into a pitch, are read back from
/// the pitch as they were given.
pub proof fn lemma_number_round_trip(number: int, octave: i8)
    requires
        0 <= number <= 11,
    ensures
        NotePitch::of_number(number, octave as int).numbers() == (number, octave as int),
{
}

/// Two moves up a string reach the same pitch as one move by their sum.
pub proof fn lemma_raise_twice(pitch: NotePitch, first: int, second: int)
    requires
        0 <= first,
        0 <= second,
        pitch.can_raise(first + second),
    ensures
        pitch.can_raise(first),
        pitch.raised(first).can_raise(second),
        pitch.raised(first).raised(second) == pitch.raised(first + second),
{
}

} // verus!
