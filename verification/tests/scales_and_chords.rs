use fretboard::chord::Chord;
use fretboard::chord_catalog::{ChordDef, Interval, CHORD_COUNT};
use fretboard::note::{Accidental, NaturalNote, NoteName, Step};
use fretboard::pitch::NotePitch;
use fretboard::scale::Scale;
use fretboard::scale_catalog::{ScaleDef, SCALE_COUNT};

fn steps_of(marks: &str) -> Vec<Step> {
    marks
        .chars()
        .map(|mark| match mark {
            'W' => Step::Whole,
            'H' => Step::Half,
            _ => Step::OneAndAHalf,
        })
        .collect()
}

fn plain(degree: i8) -> Interval {
    Interval { accidental: None, interval: degree }
}

fn flat(degree: i8) -> Interval {
    Interval { accidental: Some(Accidental::Flat), interval: degree }
}

fn sharp(degree: i8) -> Interval {
    Interval { accidental: Some(Accidental::Sharp), interval: degree }
}

fn numbers(notes: &Vec<NoteName>) -> Vec<i8> {
    notes.iter().map(|note| NoteName::to_number(note)).collect()
}

#[test]
fn scale_catalog_holds_the_seventeen_patterns() {
    let expected = [
        ("Major", "WWHWWWH"),
        ("Ionian", "WWHWWWH"),
        ("Dorian", "WHWWWHW"),
        ("Phrygian", "HWWWHWW"),
        ("Lydian", "WWWHWWH"),
        ("Mixolydian", "WWHWWHW"),
        ("Aeolian", "WHWWHWW"),
        ("Locrian", "HWWHWWW"),
        ("Natural Minor", "WHWWHWW"),
        ("Harmonic Minor", "WHWWHTH"),
        ("Melodic Minor Ascending", "WHWWWWH"),
        ("Melodic Minor Descending", "WHWWHWW"),
        ("Chromatic", "HHHHHHHHHHHH"),
        ("Whole Tone", "WWWWWW"),
        ("Major Pentatonic", "WWTWT"),
        ("Minor Pentatonic", "TWWTW"),
        ("Blues", "TWHHTW"),
    ];
    assert_eq!(SCALE_COUNT, 17);
    for (index, (name, marks)) in expected.iter().enumerate() {
        let definition = ScaleDef::from_number(index as i8).unwrap();
        assert_eq!(definition.name, *name);
        assert_eq!(definition.steps, steps_of(marks));
    }
    assert_eq!(ScaleDef::from_number(17), None);
    assert_eq!(ScaleDef::from_number(-1), None);
}

#[test]
fn scale_constructors_are_the_catalog_entries() {
    let made = [
        ScaleDef::new_major(),
        ScaleDef::new_ionian(),
        ScaleDef::new_dorian(),
        ScaleDef::new_phrygian(),
        ScaleDef::new_lydian(),
        ScaleDef::new_mixolydian(),
        ScaleDef::new_aeolian(),
        ScaleDef::new_locrian(),
        ScaleDef::new_natural_minor(),
        ScaleDef::new_harmonic_minor(),
        ScaleDef::new_melodic_minor_ascending(),
        ScaleDef::new_melodic_minor_descending(),
        ScaleDef::new_chromatic(),
        ScaleDef::new_whole_tone(),
        ScaleDef::new_major_pentatonic(),
        ScaleDef::new_minor_pentatonic(),
        ScaleDef::new_blues(),
    ];
    for (index, definition) in made.iter().enumerate() {
        assert_eq!(ScaleDef::from_number(index as i8).as_ref(), Some(definition));
        assert_eq!(definition.clone(), *definition);
    }
}

#[test]
fn closed_scales_span_an_octave() {
    for index in 0..SCALE_COUNT {
        let definition = ScaleDef::from_number(index).unwrap();
        let span: i32 = definition.steps.iter().map(|step| step.to_number() as i32).sum();
        assert_eq!(span, 12, "{}", definition.name);
    }
}

#[test]
fn scale_keywords_find_their_places() {
    let keywords = [
        "MAJOR",
        "IONIAN",
        "DORIAN",
        "PHRYGIAN",
        "LYDIAN",
        "MIXOLYDIAN",
        "AEOLIAN",
        "LOCRIAN",
        "NATURAL MINOR",
        "HARMONIC MINOR",
        "MELODIC MINOR ASCENDING",
        "MELODIC MINOR DESCENDING",
        "CHROMATIC",
        "WHOLE TONE",
        "MAJOR PENTATONIC",
        "MINOR PENTATONIC",
        "BLUES",
    ];
    for (index, keyword) in keywords.iter().enumerate() {
        assert_eq!(ScaleDef::find(keyword), Some(index as i8));
    }
    assert_eq!(ScaleDef::find("major"), None);
    assert_eq!(ScaleDef::find("MINOR"), None);
    assert_eq!(ScaleDef::find(""), None);
    assert_eq!(ScaleDef::find("MAJOR "), None);
}

#[test]
fn chord_catalog_holds_the_twenty_four_patterns() {
    let expected: Vec<(&str, &str, Vec<Interval>)> = vec![
        ("Major", "", vec![plain(1), plain(3), plain(5)]),
        ("Minor", "m", vec![plain(1), flat(3), plain(5)]),
        ("Diminished", "dim", vec![plain(1), flat(3), flat(5)]),
        ("Augmented", "aug", vec![plain(1), plain(3), sharp(5)]),
        ("Suspended 2", "sus2", vec![plain(1), plain(2), plain(5)]),
        ("Suspended 4", "sus4", vec![plain(1), plain(4), plain(5)]),
        ("Power", "5", vec![plain(1), plain(5)]),
        ("Major 7", "maj7", vec![plain(1), plain(3), plain(5), plain(7)]),
        ("Minor 7", "m7", vec![plain(1), flat(3), plain(5), flat(7)]),
        ("Dominant 7", "7", vec![plain(1), plain(3), plain(5), flat(7)]),
        ("Minor Major 7", "m(Maj7)", vec![plain(1), flat(3), plain(5), plain(7)]),
        ("6", "6", vec![plain(1), plain(3), plain(5), plain(6)]),
        ("Minor 6", "m6", vec![plain(1), flat(3), plain(5), plain(6)]),
        ("9", "9", vec![plain(1), plain(3), plain(5), flat(7), plain(9)]),
        ("Minor 9", "m9", vec![plain(1), flat(3), plain(5), flat(7), plain(9)]),
        ("Add 9", "add9", vec![plain(1), plain(3), plain(5), plain(9)]),
        ("7 Suspended 4", "7sus4", vec![plain(1), plain(4), plain(5), flat(7)]),
        ("Diminished 7", "dim7", vec![plain(1), flat(3), flat(5), plain(6)]),
        ("Half Diminished", "7\u{266d}5", vec![plain(1), flat(3), flat(5), flat(7)]),
        ("Plus 7", "+7", vec![plain(1), plain(3), sharp(5), flat(7)]),
        ("Minor 11", "m11", vec![plain(1), flat(3), plain(5), flat(7), plain(9), plain(11)]),
        ("Augmented Major 7", "Maj7\u{266f}5", vec![plain(1), plain(3), sharp(5), plain(7)]),
        ("Dominant 7 Flat 9", "7\u{266d}9", vec![plain(1), plain(3), plain(5), flat(7), flat(9)]),
        (
            "Altered Dominant 7",
            "7\u{266f}5\u{266f}9",
            vec![plain(1), plain(3), sharp(5), flat(7), sharp(9)],
        ),
    ];
    assert_eq!(CHORD_COUNT, 24);
    for (index, (name, short, intervals)) in expected.iter().enumerate() {
        let definition = ChordDef::from_number(index as i8).unwrap();
        assert_eq!(definition.name, *name);
        assert_eq!(definition.naming_convention, *short);
        assert_eq!(definition.intervals, *intervals);
    }
    assert_eq!(ChordDef::from_number(24), None);
    assert_eq!(ChordDef::from_number(-128), None);
}

#[test]
fn chord_constructors_are_the_catalog_entries() {
    let made = [
        ChordDef::new_major(),
        ChordDef::new_minor(),
        ChordDef::new_diminished(),
        ChordDef::new_augmented(),
        ChordDef::new_suspended_second(),
        ChordDef::new_suspended_four(),
        ChordDef::new_power(),
        ChordDef::new_major_seven(),
        ChordDef::new_minor_seven(),
        ChordDef::new_dominant_seven(),
        ChordDef::new_minor_major_seven(),
        ChordDef::new_six(),
        ChordDef::new_minor_six(),
        ChordDef::new_nine(),
        ChordDef::new_minor_nine(),
        ChordDef::new_add_nine(),
        ChordDef::new_seven_suspended_four(),
        ChordDef::new_dimished_seven(),
        ChordDef::new_half_diminished(),
        ChordDef::new_plus_seven(),
        ChordDef::new_minor_eleven(),
        ChordDef::new_augmented_major_seven(),
        ChordDef::new_dominant_seven_flat_nine(),
        ChordDef::new_altered_dominant_seven(),
    ];
    for (index, definition) in made.iter().enumerate() {
        assert_eq!(ChordDef::from_number(index as i8).as_ref(), Some(definition));
        assert_eq!(definition.clone(), *definition);
    }
}

#[test]
fn chord_keywords_find_their_places() {
    let keywords = [
        "MAJOR",
        "MINOR",
        "DIMINISHED",
        "AUGMENTED",
        "SUSPENDED TWO",
        "SUSPENDED FOUR",
        "POWER",
        "MAJOR SEVEN",
        "MINOR SEVEN",
        "DOMINANT SEVEN",
        "MINOR MAJOR SEVEN",
        "SIX",
        "MINOR SIX",
        "NINE",
        "MINOR NINE",
        "ADD NINE",
        "SEVEN SUSPENDED FOUR",
        "DIMINISHED SEVEN",
        "HALF DIMINISHED",
        "PLUS SEVEN",
        "MINOR ELEVEN",
        "AUGMENTED MAJOR SEVEN",
        "DOMINANT SEVEN FLAT NINE",
        "ALTERED DOMINANT SEVEN",
    ];
    for (index, keyword) in keywords.iter().enumerate() {
        assert_eq!(ChordDef::find(keyword), Some(index as i8));
    }
    assert_eq!(ChordDef::find("Major"), None);
    assert_eq!(ChordDef::find("SUSPENDED 2"), None);
    assert_eq!(ChordDef::find(""), None);
}

#[test]
fn interval_new_keeps_its_arguments() {
    let interval = Interval::new(9, Some(Accidental::Sharp));
    assert_eq!(interval.interval, 9);
    assert_eq!(interval.accidental, Some(Accidental::Sharp));
    assert_eq!(Interval::new(1, None), plain(1));
}

#[test]
fn c_major_scale_is_the_white_keys() {
    let scale = Scale::new(&NoteName::C, &ScaleDef::new_major());
    assert_eq!(
        scale.notes,
        vec![
            NoteName::C,
            NoteName::D,
            NoteName::E,
            NoteName::F,
            NoteName::G,
            NoteName::A,
            NoteName::B,
            NoteName::C,
        ]
    );
    assert_eq!(scale.name, "C Major");
    assert_eq!(scale.definition, ScaleDef::new_major());
}

#[test]
fn c_major_pitches_end_an_octave_higher() {
    let c4 = NotePitch::new(&NaturalNote::C, &None, 4);
    let pitches = Scale::pitches(&c4, &ScaleDef::new_major());
    let expected: Vec<NotePitch> = [
        (NoteName::C, 4),
        (NoteName::D, 4),
        (NoteName::E, 4),
        (NoteName::F, 4),
        (NoteName::G, 4),
        (NoteName::A, 4),
        (NoteName::B, 4),
        (NoteName::C, 5),
    ]
    .iter()
    .map(|(note_name, octave)| NotePitch { note_name: *note_name, octave: *octave })
    .collect();
    assert_eq!(pitches, expected);
}

#[test]
fn pitches_of_a_scale_cross_the_octave_where_the_scale_does() {
    let a2 = NotePitch::new(&NaturalNote::A, &None, 2);
    let pitches = Scale::pitches(&a2, &ScaleDef::new_natural_minor());
    let octaves: Vec<i8> = pitches.iter().map(|pitch| pitch.octave).collect();
    assert_eq!(octaves, vec![2, 2, 3, 3, 3, 3, 3, 3]);
    assert_eq!(pitches[7], NotePitch { note_name: NoteName::A, octave: 3 });
    let flat = NotePitch::new(&NaturalNote::B, &Some(Accidental::Flat), 1);
    let kept = Scale::pitches(&flat, &ScaleDef { name: String::new(), steps: Vec::new() });
    assert_eq!(kept, vec![flat]);
}

#[test]
fn scales_have_one_note_more_than_steps() {
    for key in 0..12i8 {
        let root = NoteName::from_number(key);
        for index in 0..SCALE_COUNT {
            let definition = ScaleDef::from_number(index).unwrap();
            let scale = Scale::new(&root, &definition);
            assert_eq!(scale.notes.len(), definition.steps.len() + 1);
            assert_eq!(scale.notes[0], root);
            for i in 1..scale.notes.len() {
                assert_eq!(
                    scale.notes[i],
                    NoteName::up_step(&scale.notes[i - 1], &definition.steps[i - 1])
                );
            }
            assert_eq!(*scale.notes.last().unwrap(), root);
        }
    }
}

#[test]
fn scale_keeps_the_spelling_of_its_root() {
    let scale = Scale::new(&NoteName::EFlat, &ScaleDef::new_blues());
    assert_eq!(scale.notes[0], NoteName::EFlat);
    assert_eq!(numbers(&scale.notes), vec![3, 6, 8, 9, 10, 1, 3]);
    assert_eq!(scale.notes[6], NoteName::DSharp);
    assert_eq!(scale.name, "E\u{266d} Blues");
}

#[test]
fn other_scales_on_other_roots() {
    let minor = Scale::new(&NoteName::A, &ScaleDef::new_natural_minor());
    assert_eq!(
        minor.notes,
        vec![
            NoteName::A,
            NoteName::B,
            NoteName::C,
            NoteName::D,
            NoteName::E,
            NoteName::F,
            NoteName::G,
            NoteName::A,
        ]
    );
    let blues = Scale::new(&NoteName::E, &ScaleDef::new_blues());
    assert_eq!(
        blues.notes,
        vec![
            NoteName::E,
            NoteName::G,
            NoteName::A,
            NoteName::ASharp,
            NoteName::B,
            NoteName::D,
            NoteName::E,
        ]
    );
    let chromatic = Scale::new(&NoteName::D, &ScaleDef::new_chromatic());
    assert_eq!(numbers(&chromatic.notes), vec![2, 3, 4, 5, 6, 7, 8, 9, 10, 11, 0, 1, 2]);
    let empty = Scale::new(&NoteName::G, &ScaleDef { name: String::from("Drone"), steps: vec![] });
    assert_eq!(empty.notes, vec![NoteName::G]);
    assert_eq!(empty.name, "G Drone");
}

#[test]
fn scale_lookup_by_number_and_name() {
    let key = NoteName::G;
    for index in 0..SCALE_COUNT {
        let definition = ScaleDef::from_number(index).unwrap();
        assert_eq!(Scale::from_number(&key, index), Some(Scale::new(&key, &definition)));
    }
    assert_eq!(Scale::from_number(&key, 17), None);
    assert_eq!(Scale::from_number(&key, -1), None);
    assert_eq!(
        Scale::from_string(&key, String::from("major")),
        Some(Scale::new(&key, &ScaleDef::new_major()))
    );
    assert_eq!(
        Scale::from_string(&key, String::from("Harmonic Minor")),
        Some(Scale::new(&key, &ScaleDef::new_harmonic_minor()))
    );
    assert_eq!(
        Scale::from_keyword(&key, "WHOLE TONE"),
        Some(Scale::new(&key, &ScaleDef::new_whole_tone()))
    );
    assert_eq!(Scale::from_keyword(&key, "whole tone"), None);
    assert_eq!(Scale::from_string(&key, String::from("minor")), None);
    assert_eq!(Scale::from_string(&key, String::from(" major")), None);
    assert_eq!(Scale::from_string(&key, String::new()), None);
}

#[test]
fn c_minor_chord_has_a_lowered_third() {
    let chord = Chord::new(&NoteName::C, &ChordDef::new_minor());
    assert_eq!(chord.notes.len(), 3);
    assert_eq!(chord.notes[0], NoteName::C);
    assert_eq!(NoteName::to_number(&chord.notes[1]), NoteName::to_number(&NoteName::EFlat));
    assert_eq!(chord.notes[1], NoteName::DSharp);
    assert_eq!(chord.notes[2], NoteName::G);
    assert_eq!(chord.name, "C Minor");
    assert_eq!(chord.short_name, "Cm");
    assert_eq!(chord.definition, ChordDef::new_minor());
}

#[test]
fn extended_chords_wrap_around_the_scale() {
    let eleven = Chord::new(&NoteName::C, &ChordDef::new_minor_eleven());
    assert_eq!(
        eleven.notes,
        vec![
            NoteName::C,
            NoteName::DSharp,
            NoteName::G,
            NoteName::ASharp,
            NoteName::D,
            NoteName::F,
        ]
    );
    let altered = Chord::new(&NoteName::A, &ChordDef::new_altered_dominant_seven());
    assert_eq!(
        altered.notes,
        vec![NoteName::A, NoteName::CSharp, NoteName::F, NoteName::G, NoteName::C]
    );
    assert_eq!(altered.short_name, "A7\u{266f}5\u{266f}9");
    let nine = Chord::new(&NoteName::E, &ChordDef::new_nine());
    assert_eq!(
        nine.notes,
        vec![NoteName::E, NoteName::GSharp, NoteName::B, NoteName::D, NoteName::FSharp]
    );
}

#[test]
fn degrees_at_the_edges_of_the_scale() {
    let definition = ChordDef {
        name: String::from("Edges"),
        naming_convention: String::from("x"),
        intervals: vec![plain(7), plain(8), plain(9), plain(13), plain(16), plain(127), flat(1)],
    };
    let chord = Chord::new(&NoteName::D, &definition);
    assert_eq!(numbers(&chord.notes), vec![1, 2, 4, 11, 2, 2, 1]);
    assert_eq!(chord.notes[1], NoteName::D);
    assert_eq!(chord.name, "D Edges");
    assert_eq!(chord.short_name, "Dx");
    let empty = Chord::new(
        &NoteName::D,
        &ChordDef { name: String::new(), naming_convention: String::new(), intervals: vec![] },
    );
    assert!(empty.notes.is_empty());
    assert_eq!(empty.name, "D ");
    assert_eq!(empty.short_name, "D");
}

#[test]
fn chord_on_a_flat_root_keeps_the_root_only_where_it_is_asked_for() {
    let chord = Chord::new(&NoteName::BFlat, &ChordDef::new_major());
    assert_eq!(chord.notes, vec![NoteName::BFlat, NoteName::D, NoteName::F]);
    assert_eq!(chord.name, "B\u{266d} Major");
    assert_eq!(chord.short_name, "B\u{266d}");
}

#[test]
fn chord_lookup_by_number_and_name() {
    let key = NoteName::FSharp;
    for index in 0..CHORD_COUNT {
        let definition = ChordDef::from_number(index).unwrap();
        assert_eq!(Chord::from_number(&key, index), Some(Chord::new(&key, &definition)));
    }
    assert_eq!(Chord::from_number(&key, 24), None);
    assert_eq!(Chord::from_number(&key, -1), None);
    assert_eq!(
        Chord::from_string(&key, String::from("minor seven")),
        Some(Chord::new(&key, &ChordDef::new_minor_seven()))
    );
    assert_eq!(
        Chord::from_string(&key, String::from("Suspended Two")),
        Some(Chord::new(&key, &ChordDef::new_suspended_second()))
    );
    assert_eq!(
        Chord::from_keyword(&key, "HALF DIMINISHED"),
        Some(Chord::new(&key, &ChordDef::new_half_diminished()))
    );
    assert_eq!(Chord::from_keyword(&key, "half diminished"), None);
    assert_eq!(Chord::from_string(&key, String::from("m7")), None);
    assert_eq!(Chord::from_string(&key, String::from("major ")), None);
}

#[test]
fn clones_equal_what_they_copy() {
    let scale = Scale::new(&NoteName::A, &ScaleDef::new_dorian());
    assert_eq!(scale.clone(), scale);
    let chord = Chord::new(&NoteName::A, &ChordDef::new_six());
    assert_eq!(chord.clone(), chord);
}
