//! What a user looks at: an instrument, a key, the selected notes, and the
//! chord or scale that was chosen last; and what the menu does to them.

use vstd::prelude::*;
use crate::chord::{Chord, ChordView};
use crate::chord_catalog::ChordDef;
use crate::error::TheoryError;
use crate::input::{key_and_rest, split_input, trim_text, trimmed};
use crate::instrument::{
    board_filtered,
    board_of,
    board_shown,
    tuning_fits,
    tuning_of,
    Instrument,
    InstrumentType,
    InstrumentView,
    TuningType,
};
use crate::note::{notes_text, write_notes, NaturalNote, NoteName};
use crate::pitch::NotePitch;
use crate::scale::{Scale, ScaleView};
use crate::scale_catalog::ScaleDef;
use crate::selection::{
    contains_all,
    holds_all,
    not_found,
    ordered,
    remove_each,
    sort_notes,
    without,
};
use crate::text::{to_upper, uppercase};

verus! {

/// An instrument together with what is selected on it.
#[derive(Debug, PartialEq, Eq)]
pub struct DisplayGroup {
    pub instrument: Instrument,
    pub key: NoteName,
    pub notes: Vec<NoteName>,
    pub chord: Option<Chord>,
    pub scale: Option<Scale>,
}

/// What a display group holds.
pub struct DisplayGroupView {
    pub instrument: InstrumentView,
    pub key: NoteName,
    pub notes: Seq<NoteName>,
    pub chord: Option<ChordView>,
    pub scale: Option<ScaleView>,
}

impl View for DisplayGroup {
    type V = DisplayGroupView;

    open spec fn view(&self) -> DisplayGroupView {
        DisplayGroupView {
            instrument: self.instrument@,
            key: self.key,
            notes: self.notes@,
            chord: match self.chord {
                Some(chord) => Some(chord@),
                None => None,
            },
            scale: match self.scale {
                Some(scale) => Some(scale@),
                None => None,
            },
        }
    }
}

/// The octave in which the root of a tuning is placed.
pub const ROOT_OCTAVE: i8 = 2;

/// The candidates among which chords are looked for: the chords of the
/// catalogue on the twelve keys. They run through the keys from C upward
/// and, on each key, through the catalogue.
pub open spec fn chord_candidate(place: int) -> ChordView {
    Chord::built(NoteName::of_semitone(place / 24), ChordDef::catalog(place % 24))
}

/// The candidates among which scales are looked for: the scales of the
/// catalogue on the twelve keys. They run through the keys from C upward
/// and, on each key, through the catalogue.
pub open spec fn scale_candidate(place: int) -> ScaleView {
    Scale::built(NoteName::of_semitone(place / 17), ScaleDef::catalog(place % 17))
}

/// Those of the first `count` chord candidates whose every note is
/// selected, in the order of the candidates.
pub open spec fn chords_within(notes: Seq<NoteName>, count: int) -> Seq<ChordView>
    decreases count,
{
    if count <= 0 {
        Seq::empty()
    } else {
        let before = chords_within(notes, count - 1);
        let candidate = chord_candidate(count - 1);
        if holds_all(notes, candidate.notes) {
            before.push(candidate)
        } else {
            before
        }
    }
}

/// Those of the first `count` scale candidates that hold every selected
/// note, in the order of the candidates. The chromatic scale, which holds
/// every note, is left out.
pub open spec fn scales_around(notes: Seq<NoteName>, count: int) -> Seq<ScaleView>
    decreases count,
{
    if count <= 0 {
        Seq::empty()
    } else {
        let before = scales_around(notes, count - 1);
        let candidate = scale_candidate(count - 1);
        if holds_all(candidate.notes, notes) && (count - 1) % 17 != 12 {
            before.push(candidate)
        } else {
            before
        }
    }
}

/// A chord is found among the first `count` candidates just when it is one
/// of them and its every note is selected.
pub proof fn lemma_chords_within(notes: Seq<NoteName>, count: int, chord: ChordView)
    ensures
        chords_within(notes, count).contains(chord) <==> exists|place: int|
            0 <= place < count && #[trigger] chord_candidate(place) == chord && holds_all(
                notes,
                chord.notes,
            ),
    decreases count,
{
    if count > 0 {
        lemma_chords_within(notes, count - 1, chord);
        let before = chords_within(notes, count - 1);
        let candidate = chord_candidate(count - 1);
        if holds_all(notes, candidate.notes) {
            let found = before.push(candidate);
            assert(found[found.len() - 1] == candidate);
            assert(found.contains(chord) <==> before.contains(chord) || chord == candidate) by {
                if before.contains(chord) {
                    let at = choose|at: int| 0 <= at < before.len() && before[at] == chord;
                    assert(found[at] == chord);
                }
            }
        }
        if chords_within(notes, count).contains(chord) {
            if before.contains(chord) {
                let place = choose|place: int|
                    0 <= place < count - 1 && #[trigger] chord_candidate(place) == chord
                        && holds_all(notes, chord.notes);
                assert(0 <= place < count && chord_candidate(place) == chord);
            } else {
                assert(chord_candidate(count - 1) == chord);
            }
        }
    } else {
        assert(!chords_within(notes, count).contains(chord));
    }
}

/// A scale is found among the first `count` candidates just when it is one
/// of them, is not chromatic, and holds every selected note.
pub proof fn lemma_scales_around(notes: Seq<NoteName>, count: int, scale: ScaleView)
    ensures
        scales_around(notes, count).contains(scale) <==> exists|place: int|
            0 <= place < count && place % 17 != 12 && #[trigger] scale_candidate(place) == scale
                && holds_all(scale.notes, notes),
    decreases count,
{
    if count > 0 {
        lemma_scales_around(notes, count - 1, scale);
        let before = scales_around(notes, count - 1);
        let candidate = scale_candidate(count - 1);
        if holds_all(candidate.notes, notes) && (count - 1) % 17 != 12 {
            let found = before.push(candidate);
            assert(found[found.len() - 1] == candidate);
            assert(found.contains(scale) <==> before.contains(scale) || scale == candidate) by {
                if before.contains(scale) {
                    let at = choose|at: int| 0 <= at < before.len() && before[at] == scale;
                    assert(found[at] == scale);
                }
            }
        }
        if scales_around(notes, count).contains(scale) {
            if before.contains(scale) {
                let place = choose|place: int|
                    0 <= place < count - 1 && place % 17 != 12 && #[trigger] scale_candidate(
                        place,
                    ) == scale && holds_all(scale.notes, notes);
                assert(0 <= place < count && scale_candidate(place) == scale);
            } else {
                assert(scale_candidate(count - 1) == scale);
            }
        }
    } else {
        assert(!scales_around(notes, count).contains(scale));
    }
}

/// The selected notes as they are announced: nothing where none is
/// selected, else a line that lists them.
pub open spec fn selection_text(notes: Seq<NoteName>) -> Seq<char> {
    if notes.len() == 0 {
        Seq::empty()
    } else {
        "The notes you have selected are: "@ + notes_text(notes) + "\n"@
    }
}

impl DisplayGroup {
    /// A six-string guitar of 24 frets in standard tuning on C, in the key
    /// of C, with nothing selected.
    pub fn new() -> (group: Self)
        ensures
            tuning_of(
                InstrumentType::Guitar,
                TuningType::Standard,
                (NotePitch { note_name: NoteName::C, octave: ROOT_OCTAVE }),
                6,
            ) matches Some(tuning) && group@ == (DisplayGroupView {
                instrument: InstrumentView::made(
                    InstrumentType::Guitar,
                    TuningType::Standard,
                    NotePitch { note_name: NoteName::C, octave: ROOT_OCTAVE },
                    6,
                    24,
                    tuning,
                ),
                key: NoteName::C,
                notes: Seq::empty(),
                chord: None,
                scale: None,
            }),
            group.instrument.consistent(),
    {
        let root: NotePitch = NotePitch::new(&NaturalNote::C, &None, ROOT_OCTAVE);
        let made = Instrument::new(&InstrumentType::Guitar, &TuningType::Standard, &root, 6, 24);
        let instrument: Instrument = match made {
            Ok(instrument) => instrument,
            Err(_) => unreached(),
        };
        let key: NoteName = NoteName::new(&NaturalNote::C, &None);
        let notes: Vec<NoteName> = Vec::new();
        DisplayGroup { instrument, key, notes, chord: None, scale: None }
    }

    /// Changes the key to the one that a name asks for, in either case.
    /// Where no key has that name, nothing changes.
    pub fn choose_key(&mut self, name: String) -> (outcome: Result<(), TheoryError>)
        ensures
            match outcome {
                Ok(()) => NoteName::named(uppercase(name@)) matches Some(key) && final(self)@ == (
                DisplayGroupView { key, ..old(self)@ }),
                Err(error) => error == TheoryError::UnknownCatalogName && NoteName::named(
                    uppercase(name@),
                ) is None && final(self)@ == old(self)@,
            },
    {
        match NoteName::from_string(name) {
            Some(key) => {
                self.key = key;
                Ok(())
            },
            None => Err(TheoryError::UnknownCatalogName),
        }
    }

    /// Selects the notes of a chord, in the order of their semitones, shows
    /// their positions and hides the others, and remembers the chord.
    pub fn set_chord(&mut self, chord: Chord)
        ensures
            final(self)@ == (DisplayGroupView {
                instrument: InstrumentView {
                    fretboard: board_filtered(old(self)@.instrument.fretboard, ordered(chord@.notes)),
                    ..old(self)@.instrument
                },
                notes: ordered(chord@.notes),
                chord: Some(chord@),
                ..old(self)@
            }),
    {
        self.notes = sort_notes(&chord.notes);
        self.instrument.show_notes(&self.notes);
        self.chord = Some(chord);
    }

    /// Selects the notes of a scale, in the order of their semitones, shows
    /// their positions and hides the others, and remembers the scale.
    pub fn set_scale(&mut self, scale: Scale)
        ensures
            final(self)@ == (DisplayGroupView {
                instrument: InstrumentView {
                    fretboard: board_filtered(old(self)@.instrument.fretboard, ordered(scale@.notes)),
                    ..old(self)@.instrument
                },
                notes: ordered(scale@.notes),
                scale: Some(scale@),
                ..old(self)@
            }),
    {
        self.notes = sort_notes(&scale.notes);
        self.instrument.show_notes(&self.notes);
        self.scale = Some(scale);
    }

    /// Builds on the key the chord that a name asks for, whatever its case
    /// and the white space around it, and selects it. Where no chord has
    /// that name, nothing changes.
    pub fn choose_chord(&mut self, name: String) -> (outcome: Result<(), TheoryError>)
        ensures
            match outcome {
                Ok(()) => ChordDef::place_of(uppercase(trimmed(name@))) matches Some(index) && ({
                    let chord = Chord::built(old(self).key, ChordDef::catalog(index));
                    final(self)@ == (DisplayGroupView {
                        instrument: InstrumentView {
                            fretboard: board_filtered(
                                old(self)@.instrument.fretboard,
                                ordered(chord.notes),
                            ),
                            ..old(self)@.instrument
                        },
                        notes: ordered(chord.notes),
                        chord: Some(chord),
                        ..old(self)@
                    })
                }),
                Err(error) => error == TheoryError::UnknownCatalogName && ChordDef::place_of(
                    uppercase(trimmed(name@)),
                ) is None && final(self)@ == old(self)@,
            },
    {
        match Chord::from_string(&self.key, trim_text(name.as_str())) {
            Some(chord) => {
                self.set_chord(chord);
                Ok(())
            },
            None => Err(TheoryError::UnknownCatalogName),
        }
    }

    /// Builds on the key the scale that a name asks for, whatever its case
    /// and the white space around it, and selects it. Where no scale has
    /// that name, nothing changes.
    pub fn choose_scale(&mut self, name: String) -> (outcome: Result<(), TheoryError>)
        ensures
            match outcome {
                Ok(()) => ScaleDef::place_of(uppercase(trimmed(name@))) matches Some(index) && ({
                    let scale = Scale::built(old(self).key, ScaleDef::catalog(index));
                    final(self)@ == (DisplayGroupView {
                        instrument: InstrumentView {
                            fretboard: board_filtered(
                                old(self)@.instrument.fretboard,
                                ordered(scale.notes),
                            ),
                            ..old(self)@.instrument
                        },
                        notes: ordered(scale.notes),
                        scale: Some(scale),
                        ..old(self)@
                    })
                }),
                Err(error) => error == TheoryError::UnknownCatalogName && ScaleDef::place_of(
                    uppercase(trimmed(name@)),
                ) is None && final(self)@ == old(self)@,
            },
    {
        match Scale::from_string(&self.key, trim_text(name.as_str())) {
            Some(scale) => {
                self.set_scale(scale);
                Ok(())
            },
            None => Err(TheoryError::UnknownCatalogName),
        }
    }

    /// Adds notes to the selection, puts the selection in the order of its
    /// semitones, shows the positions of the selected notes and hides the others.
    pub fn add_notes(&mut self, added: &Vec<NoteName>)
        ensures
            final(self)@ == (DisplayGroupView {
                instrument: InstrumentView {
                    fretboard: board_filtered(
                        old(self)@.instrument.fretboard,
                        ordered(old(self).notes@ + added@),
                    ),
                    ..old(self)@.instrument
                },
                notes: ordered(old(self).notes@ + added@),
                ..old(self)@
            }),
    {
        let mut at: usize = 0;
        while at < added.len()
            invariant
                at <= added.len(),
                self.notes@ == old(self).notes@ + added@.take(at as int),
                (DisplayGroupView { notes: old(self).notes@, ..self@ }) == old(self)@,
            decreases added.len() - at,
        {
            self.notes.push(added[at]);
            at = at + 1;
            assert(self.notes@ =~= old(self).notes@ + added@.take(at as int));
        }
        assert(added@.take(at as int) =~= added@);
        self.notes = sort_notes(&self.notes);
        self.instrument.show_notes(&self.notes);
    }

    /// Takes notes away from the selection, one after the other, each time
    /// the first that equals the one to take away; then shows the positions
    /// of the notes that are left and hides the others. Gives back the notes
    /// that were not there to take away.
    pub fn remove_notes(&mut self, taken: &Vec<NoteName>) -> (absent: Vec<NoteName>)
        ensures
            absent@ == not_found(old(self).notes@, taken@),
            final(self)@ == (DisplayGroupView {
                instrument: InstrumentView {
                    fretboard: board_filtered(
                        old(self)@.instrument.fretboard,
                        without(old(self).notes@, taken@),
                    ),
                    ..old(self)@.instrument
                },
                notes: without(old(self).notes@, taken@),
                ..old(self)@
            }),
    {
        let absent: Vec<NoteName> = remove_each(&mut self.notes, taken);
        self.instrument.show_notes(&self.notes);
        absent
    }

    /// Empties the selection and shows every position of the fretboard.
    pub fn display_full_instrument(&mut self)
        ensures
            final(self)@ == (DisplayGroupView {
                instrument: InstrumentView {
                    fretboard: board_shown(old(self)@.instrument.fretboard),
                    ..old(self)@.instrument
                },
                notes: Seq::empty(),
                ..old(self)@
            }),
    {
        self.notes = Vec::new();
        self.instrument.show_all();
    }

    /// Retunes the instrument in a style on the root that a key gives in the
    /// second octave, rebuilds its fretboard, and shows on it the positions
    /// of the selected notes, or every position where nothing is selected.
    /// Where the style gives no tuning, nothing changes.
    pub fn change_tuning(&mut self, key: &NoteName, tuning_type: &TuningType) -> (outcome: Result<
        (),
        TheoryError,
    >)
        requires
            old(self).instrument.fret_count < usize::MAX,
            tuning_fits(
                old(self).instrument.instrument_type,
                *tuning_type,
                (NotePitch { note_name: *key, octave: ROOT_OCTAVE }),
                old(self).instrument.string_count as int,
                old(self).instrument.fret_count as int,
            ),
        ensures
            match outcome {
                Ok(()) => tuning_of(
                    old(self).instrument.instrument_type,
                    *tuning_type,
                    (NotePitch { note_name: *key, octave: ROOT_OCTAVE }),
                    old(self).instrument.string_count as int,
                ) matches Some(tuning) && ({
                    let board = board_of(tuning, old(self).instrument.fret_count as int);
                    final(self)@ == (DisplayGroupView {
                        instrument: InstrumentView {
                            tuning_type: *tuning_type,
                            root_note: NotePitch { note_name: *key, octave: ROOT_OCTAVE },
                            tuning,
                            fretboard: if old(self).notes@.len() == 0 {
                                board
                            } else {
                                board_filtered(board, old(self).notes@)
                            },
                            ..old(self)@.instrument
                        },
                        ..old(self)@
                    })
                }),
                Err(error) => error == TheoryError::UnsupportedInstrumentConfiguration
                    && tuning_of(
                    old(self).instrument.instrument_type,
                    *tuning_type,
                    (NotePitch { note_name: *key, octave: ROOT_OCTAVE }),
                    old(self).instrument.string_count as int,
                ) is None && final(self)@ == old(self)@,
            },
    {
        let root: NotePitch = NotePitch::from_note_name(key, ROOT_OCTAVE);
        let made = Instrument::new(
            &self.instrument.instrument_type,
            tuning_type,
            &root,
            self.instrument.string_count,
            self.instrument.fret_count,
        );
        match made {
            Ok(instrument) => {
                let ghost board = instrument@.fretboard;
                self.instrument = instrument;
                match self.notes.len() {
                    0 => {
                        self.instrument.show_all();
                        assert(board_shown(board) =~= board) by {
                            assert forall|string: int| 0 <= string < board.len() implies (
                            #[trigger] board_shown(board)[string]) =~= board[string] by {}
                        }
                    },
                    _ => {
                        self.instrument.show_notes(&self.notes);
                    },
                }
                Ok(())
            },
            Err(error) => Err(error),
        }
    }

    /// The chords of the catalogue, on any of the twelve keys, whose every
    /// note is selected.
    pub fn find_chords(&self) -> (results: Vec<Chord>)
        ensures
            results@.len() == chords_within(self.notes@, 288).len(),
            forall|i: int|
                0 <= i < results@.len() ==> (#[trigger] results@[i])@ == chords_within(
                    self.notes@,
                    288,
                )[i],
    {
        let mut results: Vec<Chord> = Vec::new();
        let mut i: i8 = 0;
        while i <= 11
            invariant
                0 <= i <= 12,
                results@.len() == chords_within(self.notes@, i * 24).len(),
                forall|k: int|
                    0 <= k < results@.len() ==> (#[trigger] results@[k])@ == chords_within(
                        self.notes@,
                        i * 24,
                    )[k],
            decreases 12 - i,
        {
            let key: NoteName = NoteName::from_number(i);
            let mut j: i8 = 0;
            while j <= 23
                invariant
                    0 <= i <= 11,
                    0 <= j <= 24,
                    key == NoteName::of_semitone(i as int),
                    results@.len() == chords_within(self.notes@, i * 24 + j).len(),
                    forall|k: int|
                        0 <= k < results@.len() ==> (#[trigger] results@[k])@ == chords_within(
                            self.notes@,
                            i * 24 + j,
                        )[k],
                decreases 24 - j,
            {
                match Chord::from_number(&key, j) {
                    Some(chord) => {
                        assert((i * 24 + j) / 24 == i && (i * 24 + j) % 24 == j);
                        if contains_all(&self.notes, &chord.notes) {
                            results.push(chord);
                        }
                    },
                    None => {},
                }
                j = j + 1;
            }
            i = i + 1;
        }
        results
    }

    /// The scales of the catalogue, on any of the twelve keys, that hold
    /// every selected note. The chromatic scale is left out.
    pub fn find_scales(&self) -> (results: Vec<Scale>)
        ensures
            results@.len() == scales_around(self.notes@, 204).len(),
            forall|i: int|
                0 <= i < results@.len() ==> (#[trigger] results@[i])@ == scales_around(
                    self.notes@,
                    204,
                )[i],
    {
        let mut results: Vec<Scale> = Vec::new();
        let mut i: i8 = 0;
        while i <= 11
            invariant
                0 <= i <= 12,
                results@.len() == scales_around(self.notes@, i * 17).len(),
                forall|k: int|
                    0 <= k < results@.len() ==> (#[trigger] results@[k])@ == scales_around(
                        self.notes@,
                        i * 17,
                    )[k],
            decreases 12 - i,
        {
            let key: NoteName = NoteName::from_number(i);
            let mut j: i8 = 0;
            while j <= 16
                invariant
                    0 <= i <= 11,
                    0 <= j <= 17,
                    key == NoteName::of_semitone(i as int),
                    results@.len() == scales_around(self.notes@, i * 17 + j).len(),
                    forall|k: int|
                        0 <= k < results@.len() ==> (#[trigger] results@[k])@ == scales_around(
                            self.notes@,
                            i * 17 + j,
                        )[k],
                decreases 17 - j,
            {
                match Scale::from_number(&key, j) {
                    Some(scale) => {
                        assert((i * 17 + j) / 17 == i && (i * 17 + j) % 17 == j);
                        if contains_all(&scale.notes, &self.notes) && j != 12 {
                            results.push(scale);
                        }
                    },
                    None => {},
                }
                j = j + 1;
            }
            i = i + 1;
        }
        results
    }

    /// Writes the line that announces the selected notes, or nothing where
    /// none is selected.
    pub fn show_notes_displayed(&self) -> (text: String)
        ensures
            text@ == selection_text(self.notes@),
    {
        match self.notes.len() {
            0 => String::new(),
            _ => {
                let mut text: String = String::from_str("The notes you have selected are: ");
                text.append(write_notes(&self.notes).as_str());
                text.append("\n");
                text
            },
        }
    }
}

/// The next chord of a progression and its key. The chord is built on the
/// key that the upper-case key name asks for, or, where no key is named, on
/// the key of the chord before it. There is none where the key or the
/// upper-case chord name is not known.
pub open spec fn next_in_key(key: NoteName, key_name: Option<Seq<char>>, chord_name: Seq<char>)
    -> Option<(NoteName, ChordView)> {
    let next_key = match key_name {
        Some(name) => NoteName::named(name),
        None => Some(key),
    };
    match (next_key, ChordDef::place_of(chord_name)) {
        (Some(next_key), Some(index)) => Some(
            (next_key, Chord::built(next_key, ChordDef::catalog(index))),
        ),
        _ => None,
    }
}

/// Builds the next chord of a progression from an upper-case chord name and,
/// where the chord names its own key, an upper-case key name.
pub fn next_chord(key: &NoteName, key_name: Option<&str>, chord_name: &str) -> (next: Option<
    (NoteName, Chord),
>)
    ensures
        match next {
            Some((next_key, chord)) => next_in_key(
                *key,
                match key_name {
                    Some(name) => Some(name@),
                    None => None,
                },
                chord_name@,
            ) == Some((next_key, chord@)),
            None => next_in_key(
                *key,
                match key_name {
                    Some(name) => Some(name@),
                    None => None,
                },
                chord_name@,
            ) is None,
        },
{
    let next_key: NoteName = match key_name {
        Some(name) => match NoteName::from_upper(name) {
            Some(named) => named,
            None => {
                return None;
            },
        },
        None => *key,
    };
    match Chord::from_keyword(&next_key, chord_name) {
        Some(chord) => Some((next_key, chord)),
        None => None,
    }
}

/// What has been read of a chord progression: the key that the next chord
/// is built on unless it names its own, and the chords so far.
pub struct Reading {
    pub key: NoteName,
    pub chords: Seq<ChordView>,
}

/// A chord progression read from its words, each a chord name that may
/// follow a key. The first chord is built on C unless it names its key; a
/// later chord without a key is built on the key of the chord before it.
/// Nothing is read where a key or a chord is not known.
pub open spec fn reading(words: Seq<Seq<char>>) -> Option<Reading>
    decreases words.len(),
{
    if words.len() == 0 {
        Some(Reading { key: NoteName::C, chords: Seq::empty() })
    } else {
        match reading(words.drop_last()) {
            None => None,
            Some(before) => {
                let (key_text, name) = key_and_rest(words.last());
                let key_name = if key_text.len() == 0 {
                    None
                } else {
                    Some(uppercase(key_text))
                };
                match next_in_key(before.key, key_name, uppercase(trimmed(name))) {
                    Some((key, chord)) => Some(
                        Reading { key, chords: before.chords.push(chord) },
                    ),
                    None => None,
                }
            },
        }
    }
}

/// The texts of a list of words.
pub open spec fn texts(words: Seq<String>) -> Seq<Seq<char>> {
    Seq::new(words.len(), |i: int| words[i]@)
}

/// Reads a chord progression from its words.
pub fn read_progression(words: &Vec<String>) -> (chords: Result<Vec<Chord>, TheoryError>)
    ensures
        match chords {
            Ok(chords) => reading(texts(words@)) matches Some(read) && chords@.len()
                == read.chords.len() && forall|i: int|
                0 <= i < chords@.len() ==> (#[trigger] chords@[i])@ == read.chords[i],
            Err(error) => error == TheoryError::UnknownCatalogName && reading(texts(words@))
                is None,
        },
{
    let mut chords: Vec<Chord> = Vec::new();
    let mut key_current: NoteName = NoteName::new(&NaturalNote::C, &None);
    let mut at: usize = 0;
    while at < words.len()
        invariant
            at <= words.len(),
            reading(texts(words@).take(at as int)) matches Some(read) && read.key == key_current
                && chords@.len() == read.chords.len() && forall|i: int|
                0 <= i < chords@.len() ==> (#[trigger] chords@[i])@ == read.chords[i],
        decreases words.len() - at,
    {
        proof {
            let longer = texts(words@).take(at + 1);
            assert(longer.drop_last() =~= texts(words@).take(at as int));
            assert(longer.last() == words@[at as int]@);
        }
        let (key_string, input_mod) = split_input(words[at].clone());
        let key_upper: String = to_upper(key_string.as_str());
        let key_name: Option<&str> = if key_string.as_str().unicode_len() != 0 {
            Some(key_upper.as_str())
        } else {
            None
        };
        let chord_name: String = to_upper(trim_text(input_mod.as_str()).as_str());
        match next_chord(&key_current, key_name, chord_name.as_str()) {
            Some((key, chord)) => {
                key_current = key;
                chords.push(chord);
            },
            None => {
                proof {
                    lemma_reading_stops(texts(words@), at + 1);
                }
                return Err(TheoryError::UnknownCatalogName);
            },
        }
        at = at + 1;
    }
    assert(texts(words@).take(at as int) =~= texts(words@));
    Ok(chords)
}

/// Where the first words of a progression cannot be read, the progression cannot.
pub proof fn lemma_reading_stops(words: Seq<Seq<char>>, count: int)
    requires
        0 <= count <= words.len(),
        reading(words.take(count)) is None,
    ensures
        reading(words) is None,
    decreases words.len(),
{
    if count == words.len() {
        assert(words.take(count) =~= words);
    } else {
        assert(words.drop_last().take(count) =~= words.take(count));
        lemma_reading_stops(words.drop_last(), count);
    }
}

/// A display group that shows a chord: the positions of the notes of the
/// chord are shown and the others hidden, and the chord is remembered. The
/// key and the selection stay as they are.
pub open spec fn showing(group: DisplayGroupView, chord: ChordView) -> DisplayGroupView {
    DisplayGroupView {
        instrument: InstrumentView {
            fretboard: board_filtered(group.instrument.fretboard, chord.notes),
            ..group.instrument
        },
        chord: Some(chord),
        ..group
    }
}

/// Shows the chords of a progression, the first on the first display group,
/// the second on the second, and so on. The groups beyond the last chord
/// stay as they are.
pub fn show_progression(displays: &mut Vec<DisplayGroup>, chords: &Vec<Chord>)
    requires
        chords@.len() <= old(displays)@.len(),
    ensures
        final(displays)@.len() == old(displays)@.len(),
        forall|i: int|
            0 <= i < chords@.len() ==> (#[trigger] final(displays)@[i])@ == showing(
                old(displays)@[i]@,
                chords@[i]@,
            ),
        forall|i: int|
            chords@.len() <= i < old(displays)@.len() ==> (#[trigger] final(displays)@[i])@ == old(
                displays,
            )@[i]@,
{
    let mut index: usize = 0;
    while index < chords.len()
        invariant
            index <= chords@.len() <= displays@.len(),
            displays@.len() == old(displays)@.len(),
            forall|i: int|
                0 <= i < index ==> (#[trigger] displays@[i])@ == showing(
                    old(displays)@[i]@,
                    chords@[i]@,
                ),
            forall|i: int|
                index <= i < displays@.len() ==> (#[trigger] displays@[i])@ == old(displays)@[i]@,
        decreases chords@.len() - index,
    {
        let mut group: DisplayGroup = displays.remove(index);
        group.instrument.show_notes(&chords[index].notes);
        group.chord = Some(chords[index].clone());
        displays.insert(index, group);
        index = index + 1;
    }
}

/// The first `count` display groups of a progression as they are shown:
/// for each its chord on a line and its instrument below.
pub open spec fn progression_text(displays: Seq<DisplayGroupView>, count: int) -> Seq<char>
    decreases count,
{
    if count <= 0 {
        Seq::empty()
    } else {
        progression_text(displays, count - 1) + displays[count - 1].chord->0.text() + "\n"@
            + displays[count - 1].instrument.text() + "\n"@
    }
}

/// Writes the display groups of a progression as they are shown: for each
/// its chord on a line and its instrument below.
pub fn write_progression(displays: &Vec<DisplayGroup>) -> (text: String)
    requires
        forall|i: int|
            0 <= i < displays@.len() ==> (#[trigger] displays@[i])@.chord is Some
                && displays@[i]@.instrument.drawable(),
    ensures
        text@ == progression_text(Seq::new(displays@.len(), |i: int| displays@[i]@), displays@.len() as int),
{
    let ghost views = Seq::new(displays@.len(), |i: int| displays@[i]@);
    let mut text: String = String::new();
    let mut at: usize = 0;
    while at < displays.len()
        invariant
            at <= displays@.len(),
            views == Seq::new(displays@.len(), |i: int| displays@[i]@),
            forall|i: int|
                0 <= i < displays@.len() ==> (#[trigger] displays@[i])@.chord is Some
                    && displays@[i]@.instrument.drawable(),
            text@ == progression_text(views, at as int),
        decreases displays@.len() - at,
    {
        let ghost before = text@;
        assert(displays@[at as int]@.instrument.drawable());
        match &displays[at].chord {
            Some(chord) => {
                text.append(chord.to_text().as_str());
            },
            None => {},
        }
        text.append("\n");
        text.append(displays[at].instrument.to_text().as_str());
        text.append("\n");
        assert(text@ =~= before + views[at as int].chord->0.text() + "\n"@
            + views[at as int].instrument.text() + "\n"@);
        at = at + 1;
    }
    text
}

} // verus!
