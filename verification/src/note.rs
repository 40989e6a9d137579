//! Pitch classes: the seven natural notes, their accidentals, and the
//! seventeen spellings that name the twelve semitones of an octave.

use vstd::prelude::*;
use crate::color::{paint, painted, Rgb};
use crate::text::{same_text, to_upper, uppercase};

verus! {

/// One of the seven letter names, listed from C upward.
#[derive(Clone, Copy, Debug, PartialEq, Eq, PartialOrd, Ord, Hash, Structural)]
pub enum NaturalNote {
    C,
    D,
    E,
    F,
    G,
    A,
    B,
}

impl NaturalNote {
    /// Semitones between C and this natural note.
    pub open spec fn semitone(self) -> int {
        match self {
            NaturalNote::C => 0,
            NaturalNote::D => 2,
            NaturalNote::E => 4,
            NaturalNote::F => 5,
            NaturalNote::G => 7,
            NaturalNote::A => 9,
            NaturalNote::B => 11,
        }
    }

    /// The capital letter that names this natural note.
    pub open spec fn letter(self) -> char {
        match self {
            NaturalNote::C => 'C',
            NaturalNote::D => 'D',
            NaturalNote::E => 'E',
            NaturalNote::F => 'F',
            NaturalNote::G => 'G',
            NaturalNote::A => 'A',
            NaturalNote::B => 'B',
        }
    }

    /// The semitones between C and this natural note.
    pub fn to_number(&self) -> (number: i8)
        ensures
            number == self.semitone(),
    {
        match self {
            NaturalNote::A => 9,
            NaturalNote::B => 11,
            NaturalNote::C => 0,
            NaturalNote::D => 2,
            NaturalNote::E => 4,
            NaturalNote::F => 5,
            NaturalNote::G => 7,
        }
    }
}

/// A half-step alteration of a natural note, listed from the lower one upward.
#[derive(Clone, Copy, Debug, PartialEq, Eq, PartialOrd, Ord, Hash, Structural)]
pub enum Accidental {
    Flat,
    Sharp,
}

impl Accidental {
    /// Semitones by which this accidental moves a natural note.
    pub open spec fn shift(self) -> int {
        match self {
            Accidental::Sharp => 1,
            Accidental::Flat => -1,
        }
    }

    /// The semitones by which this accidental moves a natural note.
    pub fn to_number(&self) -> (number: i8)
        ensures
            number == self.shift(),
    {
        match self {
            Accidental::Sharp => 1,
            Accidental::Flat => -1,
        }
    }

    /// Writes the sign of this accidental.
    pub fn to_text(&self) -> (text: String)
        ensures
            text@ == accidental_sign(Some(*self)),
    {
        proof {
            reveal_strlit("\u{266f}");
            reveal_strlit("\u{266d}");
        }
        let text: String = match self {
            Accidental::Sharp => String::from_str("\u{266f}"),
            Accidental::Flat => String::from_str("\u{266d}"),
        };
        assert(text@ =~= accidental_sign(Some(*self)));
        text
    }
}

/// Semitones by which an optional accidental moves a natural note.
pub open spec fn accidental_shift(accidental: Option<Accidental>) -> int {
    match accidental {
        Some(a) => a.shift(),
        None => 0,
    }
}

/// The sign that writes an optional accidental: a sharp sign, a flat sign, or nothing.
pub open spec fn accidental_sign(accidental: Option<Accidental>) -> Seq<char> {
    match accidental {
        Some(Accidental::Sharp) => seq!['\u{266f}'],
        Some(Accidental::Flat) => seq!['\u{266d}'],
        None => Seq::empty(),
    }
}

/// The colour in which each semitone of the octave is shown.
pub open spec fn semitone_color(number: int) -> Rgb {
    if number == 0 {
        Rgb { red: 191, green: 0, blue: 0 }
    } else if number == 1 {
        Rgb { red: 191, green: 64, blue: 191 }
    } else if number == 2 {
        Rgb { red: 255, green: 191, blue: 64 }
    } else if number == 3 {
        Rgb { red: 198, green: 255, blue: 0 }
    } else if number == 4 {
        Rgb { red: 244, green: 67, blue: 54 }
    } else if number == 5 {
        Rgb { red: 255, green: 0, blue: 255 }
    } else if number == 6 {
        Rgb { red: 255, green: 0, blue: 191 }
    } else if number == 7 {
        Rgb { red: 0, green: 255, blue: 0 }
    } else if number == 8 {
        Rgb { red: 0, green: 191, blue: 0 }
    } else if number == 9 {
        Rgb { red: 165, green: 255, blue: 235 }
    } else if number == 10 {
        Rgb { red: 64, green: 191, blue: 191 }
    } else {
        Rgb { red: 64, green: 31, blue: 255 }
    }
}

/// A semitone distance used to walk from one note of a scale to the next.
#[derive(Clone, Copy, Debug, PartialEq, Eq, Hash, Structural)]
pub enum Step {
    Whole,
    Half,
    OneAndAHalf,
}

impl Step {
    /// Semitones covered by this step.
    pub open spec fn semitones(self) -> int {
        match self {
            Step::Half => 1,
            Step::Whole => 2,
            Step::OneAndAHalf => 3,
        }
    }

    /// A step of two semitones.
    pub fn new_whole() -> (step: Self)
        ensures
            step == Step::Whole,
    {
        Step::Whole
    }

    /// A step of one semitone.
    pub fn new_half() -> (step: Self)
        ensures
            step == Step::Half,
    {
        Step::Half
    }

    /// A step of three semitones.
    pub fn new_one_and_a_half() -> (step: Self)
        ensures
            step == Step::OneAndAHalf,
    {
        Step::OneAndAHalf
    }

    /// The semitones covered by this step.
    pub fn to_number(self: &Self) -> (number: i8)
        ensures
            number == self.semitones(),
    {
        match self {
            Step::Whole => 2,
            Step::Half => 1,
            Step::OneAndAHalf => 3,
        }
    }

    /// The mark that writes this step, in whole steps.
    pub open spec fn text(self) -> Seq<char> {
        match self {
            Step::Whole => "W"@,
            Step::Half => "H"@,
            Step::OneAndAHalf => "3/2"@,
        }
    }

    /// Writes the mark of this step.
    pub fn to_text(&self) -> (text: String)
        ensures
            text@ == self.text(),
    {
        match self {
            Step::Whole => String::from_str("W"),
            Step::Half => String::from_str("H"),
            Step::OneAndAHalf => String::from_str("3/2"),
        }
    }
}

/// A pitch class under one of its spellings. Only the spellings that name a
/// semitone of the octave exist: there is no C flat, F flat, E sharp or B sharp.
#[derive(Clone, Copy, Debug, PartialEq, Eq, Hash, Structural)]
pub enum NoteName {
    C,
    CSharp,
    DFlat,
    D,
    DSharp,
    EFlat,
    E,
    F,
    FSharp,
    GFlat,
    G,
    GSharp,
    AFlat,
    A,
    ASharp,
    BFlat,
    B,
}

impl NoteName {
    /// The natural note that this spelling is written on.
    pub open spec fn natural(self) -> NaturalNote {
        match self {
            NoteName::C | NoteName::CSharp => NaturalNote::C,
            NoteName::DFlat | NoteName::D | NoteName::DSharp => NaturalNote::D,
            NoteName::EFlat | NoteName::E => NaturalNote::E,
            NoteName::F | NoteName::FSharp => NaturalNote::F,
            NoteName::GFlat | NoteName::G | NoteName::GSharp => NaturalNote::G,
            NoteName::AFlat | NoteName::A | NoteName::ASharp => NaturalNote::A,
            NoteName::BFlat | NoteName::B => NaturalNote::B,
        }
    }

    /// The accidental that this spelling carries, if any.
    pub open spec fn alteration(self) -> Option<Accidental> {
        match self {
            NoteName::CSharp
            | NoteName::DSharp
            | NoteName::FSharp
            | NoteName::GSharp
            | NoteName::ASharp => Some(Accidental::Sharp),
            NoteName::DFlat
            | NoteName::EFlat
            | NoteName::GFlat
            | NoteName::AFlat
            | NoteName::BFlat => Some(Accidental::Flat),
            _ => None,
        }
    }

    /// Whether a natural note may carry an accidental: C and F are never
    /// flattened, E and B are never sharpened.
    pub open spec fn allowed(natural: NaturalNote, accidental: Option<Accidental>) -> bool {
        match accidental {
            None => true,
            Some(Accidental::Sharp) => natural != NaturalNote::E && natural != NaturalNote::B,
            Some(Accidental::Flat) => natural != NaturalNote::C && natural != NaturalNote::F,
        }
    }

    /// The semitone of the octave that this spelling names, from 0 for C to 11 for B.
    pub open spec fn semitone(self) -> int {
        self.natural().semitone() + accidental_shift(self.alteration())
    }

    /// The spelling that a semitone number receives: naturals and sharps only.
    pub open spec fn of_semitone(number: int) -> NoteName {
        if number == 0 {
            NoteName::C
        } else if number == 1 {
            NoteName::CSharp
        } else if number == 2 {
            NoteName::D
        } else if number == 3 {
            NoteName::DSharp
        } else if number == 4 {
            NoteName::E
        } else if number == 5 {
            NoteName::F
        } else if number == 6 {
            NoteName::FSharp
        } else if number == 7 {
            NoteName::G
        } else if number == 8 {
            NoteName::GSharp
        } else if number == 9 {
            NoteName::A
        } else if number == 10 {
            NoteName::ASharp
        } else {
            NoteName::B
        }
    }

    /// The pitch class `distance` semitones above this one.
    pub open spec fn raised(self, distance: int) -> NoteName {
        NoteName::of_semitone((self.semitone() + distance) % 12)
    }

    /// The pitch class `distance` semitones below this one.
    pub open spec fn lowered(self, distance: int) -> NoteName {
        NoteName::of_semitone((self.semitone() - distance) % 12)
    }

    /// The written name of this spelling: the letter, then the sign of the
    /// accidental if there is one.
    pub open spec fn name_text(self) -> Seq<char> {
        seq![self.natural().letter()] + accidental_sign(self.alteration())
    }

    /// The spelling that an upper-case key name stands for. Sharps are written
    /// with `#`; flats have no key name.
    pub open spec fn named(text: Seq<char>) -> Option<NoteName> {
        if text == "A"@ {
            Some(NoteName::A)
        } else if text == "A#"@ {
            Some(NoteName::ASharp)
        } else if text == "B"@ {
            Some(NoteName::B)
        } else if text == "C"@ {
            Some(NoteName::C)
        } else if text == "C#"@ {
            Some(NoteName::CSharp)
        } else if text == "D"@ {
            Some(NoteName::D)
        } else if text == "D#"@ {
            Some(NoteName::DSharp)
        } else if text == "E"@ {
            Some(NoteName::E)
        } else if text == "F"@ {
            Some(NoteName::F)
        } else if text == "F#"@ {
            Some(NoteName::FSharp)
        } else if text == "G"@ {
            Some(NoteName::G)
        } else if text == "G#"@ {
            Some(NoteName::GSharp)
        } else {
            None
        }
    }

    /// This pitch class as it is shown: its name in its colour.
    pub open spec fn text(self) -> Seq<char> {
        painted(self.name_text(), self.color())
    }

    /// The colour in which this pitch class is shown. Two spellings of one
    /// semitone share their colour.
    pub open spec fn color(self) -> Rgb {
        semitone_color(self.semitone())
    }

    /// Spells a natural note with an optional accidental. The four pairs
    /// that name no spelling are not accepted; `is_allowed` tells which.
    pub fn new(natural_note: &NaturalNote, accidental: &Option<Accidental>) -> (name: Self)
        requires
            NoteName::allowed(*natural_note, *accidental),
        ensures
            name.natural() == *natural_note,
            name.alteration() == *accidental,
    {
        match (natural_note, accidental) {
            (NaturalNote::C, None) => NoteName::C,
            (NaturalNote::C, Some(Accidental::Sharp)) => NoteName::CSharp,
            (NaturalNote::D, Some(Accidental::Flat)) => NoteName::DFlat,
            (NaturalNote::D, None) => NoteName::D,
            (NaturalNote::D, Some(Accidental::Sharp)) => NoteName::DSharp,
            (NaturalNote::E, Some(Accidental::Flat)) => NoteName::EFlat,
            (NaturalNote::E, None) => NoteName::E,
            (NaturalNote::F, None) => NoteName::F,
            (NaturalNote::F, Some(Accidental::Sharp)) => NoteName::FSharp,
            (NaturalNote::G, Some(Accidental::Flat)) => NoteName::GFlat,
            (NaturalNote::G, None) => NoteName::G,
            (NaturalNote::G, Some(Accidental::Sharp)) => NoteName::GSharp,
            (NaturalNote::A, Some(Accidental::Flat)) => NoteName::AFlat,
            (NaturalNote::A, None) => NoteName::A,
            (NaturalNote::A, Some(Accidental::Sharp)) => NoteName::ASharp,
            (NaturalNote::B, Some(Accidental::Flat)) => NoteName::BFlat,
            (NaturalNote::B, None) => NoteName::B,
            _ => unreached(),
        }
    }

    /// Tells whether `new` accepts this natural note with this accidental.
    pub fn is_allowed(natural_note: &NaturalNote, accidental: &Option<Accidental>) -> (ok: bool)
        ensures
            ok == NoteName::allowed(*natural_note, *accidental),
    {
        match (natural_note, accidental) {
            (NaturalNote::C, Some(Accidental::Flat)) => false,
            (NaturalNote::F, Some(Accidental::Flat)) => false,
            (NaturalNote::E, Some(Accidental::Sharp)) => false,
            (NaturalNote::B, Some(Accidental::Sharp)) => false,
            _ => true,
        }
    }

    /// The natural note that this spelling is written on.
    pub fn natural_note(&self) -> (natural: NaturalNote)
        ensures
            natural == self.natural(),
    {
        match self {
            NoteName::C | NoteName::CSharp => NaturalNote::C,
            NoteName::DFlat | NoteName::D | NoteName::DSharp => NaturalNote::D,
            NoteName::EFlat | NoteName::E => NaturalNote::E,
            NoteName::F | NoteName::FSharp => NaturalNote::F,
            NoteName::GFlat | NoteName::G | NoteName::GSharp => NaturalNote::G,
            NoteName::AFlat | NoteName::A | NoteName::ASharp => NaturalNote::A,
            NoteName::BFlat | NoteName::B => NaturalNote::B,
        }
    }

    /// The accidental that this spelling carries, if any.
    pub fn accidental(&self) -> (accidental: Option<Accidental>)
        ensures
            accidental == self.alteration(),
    {
        match self {
            NoteName::CSharp
            | NoteName::DSharp
            | NoteName::FSharp
            | NoteName::GSharp
            | NoteName::ASharp => Some(Accidental::Sharp),
            NoteName::DFlat
            | NoteName::EFlat
            | NoteName::GFlat
            | NoteName::AFlat
            | NoteName::BFlat => Some(Accidental::Flat),
            _ => None,
        }
    }

    /// The written name of this spelling, such as `C` or `F\u{266f}`.
    pub fn get_name(self: &Self) -> (name: String)
        ensures
            name@ == self.name_text(),
    {
        let natural: &str = match self.natural_note() {
            NaturalNote::A => "A",
            NaturalNote::B => "B",
            NaturalNote::C => "C",
            NaturalNote::D => "D",
            NaturalNote::E => "E",
            NaturalNote::F => "F",
            NaturalNote::G => "G",
        };
        let accidental: &str = match self.accidental() {
            Some(Accidental::Sharp) => "\u{266f}",
            Some(Accidental::Flat) => "\u{266d}",
            None => "",
        };
        proof {
            reveal_strlit("A");
            reveal_strlit("B");
            reveal_strlit("C");
            reveal_strlit("D");
            reveal_strlit("E");
            reveal_strlit("F");
            reveal_strlit("G");
            reveal_strlit("\u{266f}");
            reveal_strlit("\u{266d}");
            reveal_strlit("");
        }
        let name: String = String::from_str(natural).concat(accidental);
        assert(name@ =~= self.name_text());
        name
    }

    /// Writes this pitch class as it is shown.
    pub fn to_text(&self) -> (text: String)
        ensures
            text@ == self.text(),
    {
        let rgb = NoteName::to_rgb(self);
        let name: String = self.get_name();
        paint(name.as_str(), rgb)
    }

    /// Reads a key name in either case, such as `c` or `F#`.
    pub fn from_string(input: String) -> (name: Option<NoteName>)
        ensures
            name == NoteName::named(uppercase(input@)),
    {
        let upper: String = to_upper(input.as_str());
        NoteName::from_upper(upper.as_str())
    }

    /// Reads a key name written in upper case.
    pub fn from_upper(input: &str) -> (name: Option<NoteName>)
        ensures
            name == NoteName::named(input@),
    {
        if same_text(input, "A") {
            Some(NoteName::A)
        } else if same_text(input, "A#") {
            Some(NoteName::ASharp)
        } else if same_text(input, "B") {
            Some(NoteName::B)
        } else if same_text(input, "C") {
            Some(NoteName::C)
        } else if same_text(input, "C#") {
            Some(NoteName::CSharp)
        } else if same_text(input, "D") {
            Some(NoteName::D)
        } else if same_text(input, "D#") {
            Some(NoteName::DSharp)
        } else if same_text(input, "E") {
            Some(NoteName::E)
        } else if same_text(input, "F") {
            Some(NoteName::F)
        } else if same_text(input, "F#") {
            Some(NoteName::FSharp)
        } else if same_text(input, "G") {
            Some(NoteName::G)
        } else if same_text(input, "G#") {
            Some(NoteName::GSharp)
        } else {
            None
        }
    }

    /// The colour in which this pitch class is shown.
    pub fn to_rgb(note_name: &NoteName) -> (color: Rgb)
        ensures
            color == note_name.color(),
    {
        match note_name {
            NoteName::C => Rgb { red: 191, green: 0, blue: 0 },
            NoteName::CSharp => Rgb { red: 191, green: 64, blue: 191 },
            NoteName::DFlat => Rgb { red: 191, green: 64, blue: 191 },
            NoteName::D => Rgb { red: 255, green: 191, blue: 64 },
            NoteName::DSharp => Rgb { red: 198, green: 255, blue: 0 },
            NoteName::EFlat => Rgb { red: 198, green: 255, blue: 0 },
            NoteName::E => Rgb { red: 244, green: 67, blue: 54 },
            NoteName::F => Rgb { red: 255, green: 0, blue: 255 },
            NoteName::FSharp => Rgb { red: 255, green: 0, blue: 191 },
            NoteName::GFlat => Rgb { red: 255, green: 0, blue: 191 },
            NoteName::G => Rgb { red: 0, green: 255, blue: 0 },
            NoteName::GSharp => Rgb { red: 0, green: 191, blue: 0 },
            NoteName::AFlat => Rgb { red: 0, green: 191, blue: 0 },
            NoteName::A => Rgb { red: 165, green: 255, blue: 235 },
            NoteName::ASharp => Rgb { red: 64, green: 191, blue: 191 },
            NoteName::BFlat => Rgb { red: 64, green: 191, blue: 191 },
            NoteName::B => Rgb { red: 64, green: 31, blue: 255 },
        }
    }

    /// The spelling of a semitone number.
    pub fn from_number(note_number: i8) -> (name: NoteName)
        requires
            0 <= note_number <= 11,
        ensures
            name == NoteName::of_semitone(note_number as int),
            name.semitone() == note_number,
    {
        match note_number {
            0 => NoteName::C,
            1 => NoteName::CSharp,
            2 => NoteName::D,
            3 => NoteName::DSharp,
            4 => NoteName::E,
            5 => NoteName::F,
            6 => NoteName::FSharp,
            7 => NoteName::G,
            8 => NoteName::GSharp,
            9 => NoteName::A,
            10 => NoteName::ASharp,
            _ => NoteName::B,
        }
    }

    /// The semitone number of a spelling.
    pub fn to_number(note_name: &NoteName) -> (number: i8)
        ensures
            number == note_name.semitone(),
            0 <= number <= 11,
    {
        let natural: i8 = note_name.natural_note().to_number();
        let shift: i8 = match note_name.accidental() {
            Some(accidental) => accidental.to_number(),
            None => 0,
        };
        natural + shift
    }

    /// The pitch class one step above `start_note`.
    pub fn up_step(start_note: &NoteName, step: &Step) -> (name: NoteName)
        ensures
            name == start_note.raised(step.semitones()),
    {
        let to_add: i8 = Step::to_number(step);
        let number: i8 = NoteName::add(start_note, to_add as usize);
        NoteName::from_number(number)
    }

    /// The pitch class one step below `start_note`.
    pub fn down_step(start_note: &NoteName, step: &Step) -> (name: NoteName)
        ensures
            name == start_note.lowered(step.semitones()),
    {
        let to_subtract: i8 = Step::to_number(step);
        let number: i8 = NoteName::minus(start_note, to_subtract as usize);
        NoteName::from_number(number)
    }

    /// The semitone number reached `to_add` semitones above `start_note`.
    pub fn add(start_note: &NoteName, to_add: usize) -> (number: i8)
        ensures
            number == (start_note.semitone() + to_add) % 12,
            0 <= number <= 11,
    {
        let note_number: i8 = NoteName::to_number(start_note);
        let wrapped: usize = to_add % 12;
        let total: usize = note_number as usize + wrapped;
        (total % 12) as i8
    }

    /// The semitone number reached `to_subtract` semitones below `start_note`.
    pub fn minus(start_note: &NoteName, to_subtract: usize) -> (number: i8)
        ensures
            number == (start_note.semitone() - to_subtract) % 12,
            0 <= number <= 11,
    {
        let note_number: i8 = NoteName::to_number(start_note);
        let wrapped: usize = to_subtract % 12;
        let total: usize = note_number as usize + 12 - wrapped;
        (total % 12) as i8
    }
}

/// The spelling of a semitone number names that semitone.
pub proof fn lemma_spelling_round_trip(number: int)
    requires
        0 <= number <= 11,
    ensures
        NoteName::of_semitone(number).semitone() == number,
{
}

/// Two moves upward reach the same pitch class as one move by their sum.
pub proof fn lemma_raised_twice(note: NoteName, first: int, second: int)
    ensures
        note.raised(first).raised(second) == note.raised(first + second),
{
}

/// A move upward and the same move downward lead back to the semitone of the note.
pub proof fn lemma_raised_then_lowered(note: NoteName, distance: int)
    ensures
        note.raised(distance).lowered(distance).semitone() == note.semitone(),
        note.lowered(distance).raised(distance).semitone() == note.semitone(),
{
}

/// A run of pitch classes as they are shown: each in its colour, each
/// followed by a space.
pub open spec fn notes_text(notes: Seq<NoteName>) -> Seq<char>
    decreases notes.len(),
{
    if notes.len() == 0 {
        Seq::empty()
    } else {
        notes_text(notes.drop_last()) + notes.last().text() + " "@
    }
}

/// Writes a run of pitch classes as they are shown.
pub fn write_notes(notes: &Vec<NoteName>) -> (text: String)
    ensures
        text@ == notes_text(notes@),
{
    let mut text: String = String::new();
    let mut at: usize = 0;
    while at < notes.len()
        invariant
            at <= notes.len(),
            text@ == notes_text(notes@.take(at as int)),
        decreases notes.len() - at,
    {
        proof {
            let longer = notes@.take(at + 1);
            assert(longer.drop_last() =~= notes@.take(at as int));
            assert(longer.last() == notes@[at as int]);
        }
        text.append(notes[at].to_text().as_str());
        text.append(" ");
        at = at + 1;
    }
    assert(notes@.take(at as int) =~= notes@);
    text
}

} // verus!
