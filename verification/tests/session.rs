use fretboard::chord::Chord;
use fretboard::chord_catalog::ChordDef;
use fretboard::error::TheoryError;
use fretboard::instrument::{Instrument, InstrumentType, TuningType};
use fretboard::note::NoteName;
use fretboard::pitch::NotePitch;
use fretboard::scale::Scale;
use fretboard::scale_catalog::ScaleDef;
use fretboard::selection::{contains_all, position_of, remove_each, sort_notes};
use fretboard::session::{
    next_chord, read_progression, show_progression, write_progression, DisplayGroup,
};

fn standard_guitar(root: NoteName) -> Instrument {
    let pitch = NotePitch { note_name: root, octave: 2 };
    Instrument::new(&InstrumentType::Guitar, &TuningType::Standard, &pitch, 6, 24).unwrap()
}

fn filtered(root: NoteName, notes: &Vec<NoteName>) -> Instrument {
    let mut instrument = standard_guitar(root);
    instrument.show_notes(notes);
    instrument
}

fn words(list: &[&str]) -> Vec<String> {
    list.iter().map(|word| String::from(*word)).collect()
}

#[test]
fn a_new_display_is_a_guitar_in_c() {
    let group = DisplayGroup::new();
    assert_eq!(group.instrument, standard_guitar(NoteName::C));
    assert_eq!(group.instrument.tuning[5], NotePitch { note_name: NoteName::C, octave: 4 });
    assert_eq!(group.instrument.visible_count(), 150);
    assert_eq!(group.key, NoteName::C);
    assert!(group.notes.is_empty());
    assert_eq!(group.chord, None);
    assert_eq!(group.scale, None);
    assert_eq!(group.show_notes_displayed(), "");
}

#[test]
fn notes_are_sorted_by_semitone_and_ties_keep_their_order() {
    assert_eq!(
        sort_notes(&vec![NoteName::G, NoteName::C, NoteName::E]),
        vec![NoteName::C, NoteName::E, NoteName::G]
    );
    assert_eq!(
        sort_notes(&vec![NoteName::DFlat, NoteName::B, NoteName::CSharp, NoteName::C, NoteName::DFlat]),
        vec![NoteName::C, NoteName::DFlat, NoteName::CSharp, NoteName::DFlat, NoteName::B]
    );
    assert_eq!(
        sort_notes(&vec![NoteName::CSharp, NoteName::DFlat]),
        vec![NoteName::CSharp, NoteName::DFlat]
    );
    assert_eq!(sort_notes(&vec![NoteName::A]), vec![NoteName::A]);
    assert!(sort_notes(&vec![]).is_empty());
    let descending: Vec<NoteName> = (0..12).rev().map(NoteName::from_number).collect();
    let ascending: Vec<NoteName> = (0..12).map(NoteName::from_number).collect();
    assert_eq!(sort_notes(&descending), ascending);
    assert_eq!(sort_notes(&ascending), ascending);
}

#[test]
fn notes_are_found_by_their_spelling() {
    let notes = vec![NoteName::C, NoteName::DSharp, NoteName::G, NoteName::DSharp];
    assert_eq!(position_of(&notes, &NoteName::C), Some(0));
    assert_eq!(position_of(&notes, &NoteName::DSharp), Some(1));
    assert_eq!(position_of(&notes, &NoteName::G), Some(2));
    assert_eq!(position_of(&notes, &NoteName::EFlat), None);
    assert_eq!(position_of(&vec![], &NoteName::C), None);
    assert!(contains_all(&notes, &vec![NoteName::G, NoteName::C, NoteName::C]));
    assert!(contains_all(&notes, &vec![]));
    assert!(!contains_all(&notes, &vec![NoteName::G, NoteName::EFlat]));
    assert!(!contains_all(&vec![], &vec![NoteName::G]));
}

#[test]
fn removing_takes_the_first_of_equal_notes() {
    let mut notes = vec![NoteName::C, NoteName::E, NoteName::C, NoteName::G];
    let absent = remove_each(&mut notes, &vec![NoteName::C, NoteName::A, NoteName::C, NoteName::C]);
    assert_eq!(notes, vec![NoteName::E, NoteName::G]);
    assert_eq!(absent, vec![NoteName::A, NoteName::C]);
    let absent = remove_each(&mut notes, &vec![]);
    assert_eq!(notes, vec![NoteName::E, NoteName::G]);
    assert!(absent.is_empty());
    let absent = remove_each(&mut notes, &vec![NoteName::G]);
    assert_eq!(notes, vec![NoteName::E]);
    assert!(absent.is_empty());
}

#[test]
fn choosing_a_key_needs_a_known_name() {
    let mut group = DisplayGroup::new();
    assert_eq!(group.choose_key(String::from("f#")), Ok(()));
    assert_eq!(group.key, NoteName::FSharp);
    assert_eq!(group.choose_key(String::from("H")), Err(TheoryError::UnknownCatalogName));
    assert_eq!(group.key, NoteName::FSharp);
    assert_eq!(group.choose_key(String::from(" C")), Err(TheoryError::UnknownCatalogName));
    assert_eq!(group.instrument, standard_guitar(NoteName::C));
}

#[test]
fn choosing_a_chord_selects_its_notes() {
    let mut group = DisplayGroup::new();
    assert_eq!(group.choose_key(String::from("A")), Ok(()));
    assert_eq!(group.choose_chord(String::from(" minor seven\n")), Ok(()));
    let chord = Chord::new(&NoteName::A, &ChordDef::new_minor_seven());
    assert_eq!(chord.notes, vec![NoteName::A, NoteName::C, NoteName::E, NoteName::G]);
    assert_eq!(group.chord, Some(chord));
    assert_eq!(group.notes, vec![NoteName::C, NoteName::E, NoteName::G, NoteName::A]);
    assert_eq!(group.instrument, filtered(NoteName::C, &group.notes));
    assert_eq!(group.key, NoteName::A);
    assert_eq!(group.scale, None);
    let before = (group.chord.clone(), group.notes.clone());
    assert_eq!(group.choose_chord(String::from("m7")), Err(TheoryError::UnknownCatalogName));
    assert_eq!((group.chord.clone(), group.notes.clone()), before);
    assert_eq!(group.instrument, filtered(NoteName::C, &group.notes));
}

#[test]
fn choosing_a_scale_selects_its_notes() {
    let mut group = DisplayGroup::new();
    assert_eq!(group.choose_key(String::from("g")), Ok(()));
    assert_eq!(group.choose_scale(String::from("Major Pentatonic")), Ok(()));
    let scale = Scale::new(&NoteName::G, &ScaleDef::new_major_pentatonic());
    assert_eq!(
        scale.notes,
        vec![NoteName::G, NoteName::A, NoteName::B, NoteName::D, NoteName::E, NoteName::G]
    );
    assert_eq!(group.scale, Some(scale));
    assert_eq!(
        group.notes,
        vec![NoteName::D, NoteName::E, NoteName::G, NoteName::G, NoteName::A, NoteName::B]
    );
    assert_eq!(group.instrument, filtered(NoteName::C, &group.notes));
    assert_eq!(group.chord, None);
    assert_eq!(group.choose_scale(String::from("pentatonic")), Err(TheoryError::UnknownCatalogName));
    assert_eq!(group.notes.len(), 6);
}

#[test]
fn setting_a_chord_keeps_the_key() {
    let mut group = DisplayGroup::new();
    let chord = Chord::new(&NoteName::E, &ChordDef::new_power());
    group.set_chord(chord.clone());
    assert_eq!(group.key, NoteName::C);
    assert_eq!(group.notes, vec![NoteName::E, NoteName::B]);
    assert_eq!(group.chord, Some(chord));
    let scale = Scale::new(&NoteName::B, &ScaleDef::new_whole_tone());
    group.set_scale(scale.clone());
    assert_eq!(group.scale, Some(scale));
    assert_eq!(
        group.notes,
        vec![
            NoteName::CSharp,
            NoteName::DSharp,
            NoteName::F,
            NoteName::G,
            NoteName::A,
            NoteName::B,
            NoteName::B,
        ]
    );
    assert_eq!(group.instrument, filtered(NoteName::C, &group.notes));
    assert!(group.chord.is_some());
}

#[test]
fn adding_and_removing_notes() {
    let mut group = DisplayGroup::new();
    group.add_notes(&vec![NoteName::G, NoteName::C]);
    assert_eq!(group.notes, vec![NoteName::C, NoteName::G]);
    group.add_notes(&vec![NoteName::E, NoteName::C]);
    assert_eq!(group.notes, vec![NoteName::C, NoteName::C, NoteName::E, NoteName::G]);
    assert_eq!(group.instrument, filtered(NoteName::C, &vec![NoteName::C, NoteName::E, NoteName::G]));
    assert_eq!(group.instrument.visible_count(), 39);
    group.add_notes(&vec![]);
    assert_eq!(group.notes.len(), 4);
    let absent = group.remove_notes(&vec![NoteName::C, NoteName::D, NoteName::G]);
    assert_eq!(absent, vec![NoteName::D]);
    assert_eq!(group.notes, vec![NoteName::C, NoteName::E]);
    assert_eq!(group.instrument, filtered(NoteName::C, &vec![NoteName::C, NoteName::E]));
    let absent = group.remove_notes(&vec![NoteName::C, NoteName::E, NoteName::E]);
    assert_eq!(absent, vec![NoteName::E]);
    assert!(group.notes.is_empty());
    assert_eq!(group.instrument.visible_count(), 0);
}

#[test]
fn showing_the_full_instrument_empties_the_selection() {
    let mut group = DisplayGroup::new();
    group.add_notes(&vec![NoteName::G, NoteName::C]);
    assert!(group.instrument.visible_count() < 150);
    group.display_full_instrument();
    assert!(group.notes.is_empty());
    assert_eq!(group.instrument, standard_guitar(NoteName::C));
}

#[test]
fn the_selection_is_announced() {
    let mut group = DisplayGroup::new();
    group.add_notes(&vec![NoteName::G, NoteName::C]);
    assert_eq!(
        group.show_notes_displayed(),
        "The notes you have selected are: \x1b[38;2;191;0;0mC\x1b[39m \x1b[38;2;0;255;0mG\x1b[39m \n"
    );
}

#[test]
fn changing_the_tuning_rebuilds_the_fretboard() {
    let mut group = DisplayGroup::new();
    assert_eq!(group.change_tuning(&NoteName::D, &TuningType::DropTuning), Ok(()));
    let root = NotePitch { note_name: NoteName::D, octave: 2 };
    let retuned =
        Instrument::new(&InstrumentType::Guitar, &TuningType::DropTuning, &root, 6, 24).unwrap();
    assert_eq!(group.instrument, retuned);
    group.add_notes(&vec![NoteName::A]);
    assert_eq!(group.change_tuning(&NoteName::E, &TuningType::Open), Ok(()));
    let root = NotePitch { note_name: NoteName::E, octave: 2 };
    let mut open =
        Instrument::new(&InstrumentType::Guitar, &TuningType::Open, &root, 6, 24).unwrap();
    open.show_notes(&vec![NoteName::A]);
    assert_eq!(group.instrument, open);
    assert_eq!(group.notes, vec![NoteName::A]);
    assert_eq!(
        group.change_tuning(&NoteName::G, &TuningType::Custom),
        Err(TheoryError::UnsupportedInstrumentConfiguration)
    );
    assert_eq!(group.instrument, open);
}

#[test]
fn chords_within_c_e_g() {
    let mut group = DisplayGroup::new();
    assert!(group.find_chords().is_empty());
    group.add_notes(&vec![NoteName::C, NoteName::E, NoteName::G]);
    assert_eq!(
        group.find_chords(),
        vec![
            Chord::new(&NoteName::C, &ChordDef::new_major()),
            Chord::new(&NoteName::C, &ChordDef::new_power()),
        ]
    );
    group.display_full_instrument();
    group.add_notes(&(0..12).map(NoteName::from_number).collect());
    assert_eq!(group.find_chords().len(), 288);
    group.display_full_instrument();
    group.add_notes(&vec![NoteName::C, NoteName::EFlat, NoteName::G]);
    assert_eq!(group.find_chords(), vec![Chord::new(&NoteName::C, &ChordDef::new_power())]);
}

#[test]
fn scales_around_c_e_g() {
    let mut group = DisplayGroup::new();
    let all = group.find_scales();
    assert_eq!(all.len(), 12 * 16);
    assert!(all.iter().all(|scale| scale.definition.name != "Chromatic"));
    assert_eq!(all[0], Scale::new(&NoteName::C, &ScaleDef::new_major()));
    assert_eq!(all[12], Scale::new(&NoteName::C, &ScaleDef::new_whole_tone()));
    assert_eq!(all[16], Scale::new(&NoteName::CSharp, &ScaleDef::new_major()));
    group.add_notes(&vec![NoteName::C, NoteName::E, NoteName::G]);
    let found = group.find_scales();
    assert_eq!(found.len(), 37);
    assert_eq!(found[0], Scale::new(&NoteName::C, &ScaleDef::new_major()));
    assert_eq!(found[1], Scale::new(&NoteName::C, &ScaleDef::new_ionian()));
    assert_eq!(found[2], Scale::new(&NoteName::C, &ScaleDef::new_lydian()));
    assert_eq!(found[3], Scale::new(&NoteName::C, &ScaleDef::new_mixolydian()));
    assert_eq!(found[4], Scale::new(&NoteName::C, &ScaleDef::new_major_pentatonic()));
    assert_eq!(found[5], Scale::new(&NoteName::D, &ScaleDef::new_dorian()));
    assert_eq!(found[36], Scale::new(&NoteName::B, &ScaleDef::new_locrian()));
    group.add_notes(&vec![NoteName::DFlat]);
    assert!(group.find_scales().is_empty());
}

#[test]
fn a_progression_carries_its_key_along() {
    let chords = read_progression(&words(&["C major", "minor seven", "G dominant seven", "power"]));
    assert_eq!(
        chords,
        Ok(vec![
            Chord::new(&NoteName::C, &ChordDef::new_major()),
            Chord::new(&NoteName::C, &ChordDef::new_minor_seven()),
            Chord::new(&NoteName::G, &ChordDef::new_dominant_seven()),
            Chord::new(&NoteName::G, &ChordDef::new_power()),
        ])
    );
    assert_eq!(
        read_progression(&words(&["major"])),
        Ok(vec![Chord::new(&NoteName::C, &ChordDef::new_major())])
    );
    assert_eq!(
        read_progression(&words(&["F#  six "])),
        Ok(vec![Chord::new(&NoteName::FSharp, &ChordDef::new_six())])
    );
    assert_eq!(read_progression(&words(&[])), Ok(vec![]));
}

#[test]
fn a_progression_with_an_unknown_word_is_not_read() {
    assert_eq!(
        read_progression(&words(&["C major", "G mystery"])),
        Err(TheoryError::UnknownCatalogName)
    );
    assert_eq!(read_progression(&words(&["Cb major"])), Err(TheoryError::UnknownCatalogName));
    assert_eq!(read_progression(&words(&["c major"])), Err(TheoryError::UnknownCatalogName));
    assert_eq!(read_progression(&words(&[""])), Err(TheoryError::UnknownCatalogName));
    assert_eq!(
        read_progression(&words(&["E major", "minor", "", "A major"])),
        Err(TheoryError::UnknownCatalogName)
    );
}

#[test]
fn a_progression_is_shown_on_the_first_displays() {
    let mut displays =
        vec![DisplayGroup::new(), DisplayGroup::new(), DisplayGroup::new(), DisplayGroup::new()];
    displays[2].add_notes(&vec![NoteName::F]);
    let chords = vec![
        Chord::new(&NoteName::C, &ChordDef::new_major()),
        Chord::new(&NoteName::A, &ChordDef::new_minor()),
    ];
    show_progression(&mut displays, &chords);
    assert_eq!(displays.len(), 4);
    for index in 0..2 {
        assert_eq!(displays[index].chord, Some(chords[index].clone()));
        assert_eq!(displays[index].instrument, filtered(NoteName::C, &chords[index].notes));
        assert!(displays[index].notes.is_empty());
        assert_eq!(displays[index].key, NoteName::C);
    }
    assert_eq!(displays[2].chord, None);
    assert_eq!(displays[2].notes, vec![NoteName::F]);
    assert_eq!(displays[2].instrument, filtered(NoteName::C, &vec![NoteName::F]));
    assert_eq!(displays[3].chord, None);
    assert_eq!(displays[3].instrument, standard_guitar(NoteName::C));
    show_progression(&mut displays, &vec![]);
    assert_eq!(displays[0].chord, Some(chords[0].clone()));
}

#[test]
fn a_progression_is_written_display_by_display() {
    let mut displays = vec![DisplayGroup::new(), DisplayGroup::new()];
    let chords = vec![
        Chord::new(&NoteName::C, &ChordDef::new_major()),
        Chord::new(&NoteName::A, &ChordDef::new_minor()),
    ];
    show_progression(&mut displays, &chords);
    let expected = format!(
        "{}\n{}\n{}\n{}\n",
        chords[0].to_text(),
        displays[0].instrument.to_text(),
        chords[1].to_text(),
        displays[1].instrument.to_text()
    );
    assert_eq!(write_progression(&displays), expected);
    assert_eq!(write_progression(&vec![]), "");
}

#[test]
fn the_next_chord_takes_the_key_it_names() {
    let key = NoteName::D;
    assert_eq!(
        next_chord(&key, None, "MINOR"),
        Some((NoteName::D, Chord::new(&NoteName::D, &ChordDef::new_minor())))
    );
    assert_eq!(
        next_chord(&key, Some("G#"), "SIX"),
        Some((NoteName::GSharp, Chord::new(&NoteName::GSharp, &ChordDef::new_six())))
    );
    assert_eq!(next_chord(&key, Some(""), "MINOR"), None);
    assert_eq!(next_chord(&key, Some("g#"), "SIX"), None);
    assert_eq!(next_chord(&key, Some("G#"), "six"), None);
    assert_eq!(next_chord(&key, None, ""), None);
}
