use fretboard::chord::Chord;
use fretboard::chord_catalog::{ChordDef, Interval};
use fretboard::color::Rgb;
use fretboard::instrument::{Instrument, InstrumentType, NoteDisplay, TuningType};
use fretboard::note::{write_notes, Accidental, NoteName, Step};
use fretboard::pitch::NotePitch;
use fretboard::scale::Scale;
use fretboard::scale_catalog::ScaleDef;
use fretboard::text::{same_text, write_number, write_signed};

fn painted(text: &str, red: u8, green: u8, blue: u8) -> String {
    format!("\x1b[38;2;{};{};{}m{}\x1b[39m", red, green, blue, text)
}

fn white(text: &str) -> String {
    painted(text, 255, 255, 255)
}

#[test]
fn numbers_are_written_in_decimal() {
    assert_eq!(write_number(0), "0");
    assert_eq!(write_number(7), "7");
    assert_eq!(write_number(10), "10");
    assert_eq!(write_number(24), "24");
    assert_eq!(write_number(1009), "1009");
    assert_eq!(write_number(u64::MAX), "18446744073709551615");
    assert_eq!(write_signed(0), "0");
    assert_eq!(write_signed(-1), "-1");
    assert_eq!(write_signed(-128), "-128");
    assert_eq!(write_signed(127), "127");
    assert_eq!(write_signed(i64::MIN), "-9223372036854775808");
    assert_eq!(write_signed(i64::MAX), "9223372036854775807");
    for value in -300i64..300 {
        assert_eq!(write_signed(value), value.to_string());
    }
}

#[test]
fn same_text_compares_character_by_character() {
    assert!(same_text("MAJOR", "MAJOR"));
    assert!(same_text("", ""));
    assert!(!same_text("MAJOR", "major"));
    assert!(!same_text("MAJOR", "MAJOR "));
    assert!(!same_text("", " "));
}

#[test]
fn names_are_the_letter_and_the_sign() {
    assert_eq!(NoteName::C.get_name(), "C");
    assert_eq!(NoteName::FSharp.get_name(), "F\u{266f}");
    assert_eq!(NoteName::BFlat.get_name(), "B\u{266d}");
    assert_eq!(NoteName::AFlat.get_name(), "A\u{266d}");
    assert_eq!(NoteName::G.get_name(), "G");
    assert_eq!(NotePitch { note_name: NoteName::E, octave: 2 }.get_name(), "E2");
    assert_eq!(NotePitch { note_name: NoteName::CSharp, octave: 4 }.get_name(), "C\u{266f}4");
    assert_eq!(NotePitch { note_name: NoteName::C, octave: -1 }.get_name(), "C-1");
    assert_eq!(NotePitch { note_name: NoteName::DFlat, octave: -128 }.get_name(), "D\u{266d}-128");
    assert_eq!(NotePitch { note_name: NoteName::B, octave: 127 }.get_name(), "B127");
}

#[test]
fn key_names_are_read_in_either_case() {
    assert_eq!(NoteName::from_string(String::from("c")), Some(NoteName::C));
    assert_eq!(NoteName::from_string(String::from("C")), Some(NoteName::C));
    assert_eq!(NoteName::from_string(String::from("f#")), Some(NoteName::FSharp));
    assert_eq!(NoteName::from_string(String::from("A#")), Some(NoteName::ASharp));
    assert_eq!(NoteName::from_string(String::from("b")), Some(NoteName::B));
    let all = ["C", "C#", "D", "D#", "E", "F", "F#", "G", "G#", "A", "A#", "B"];
    for (number, name) in all.iter().enumerate() {
        assert_eq!(NoteName::from_upper(name), Some(NoteName::from_number(number as i8)));
    }
    assert_eq!(NoteName::from_upper("c"), None);
    assert_eq!(NoteName::from_string(String::from("H")), None);
    assert_eq!(NoteName::from_string(String::from("E#")), None);
    assert_eq!(NoteName::from_string(String::from("B#")), None);
    assert_eq!(NoteName::from_string(String::from("Db")), None);
    assert_eq!(NoteName::from_string(String::from("C ")), None);
    assert_eq!(NoteName::from_string(String::new()), None);
}

#[test]
fn every_semitone_has_its_colour() {
    let colours: [(u8, u8, u8); 12] = [
        (191, 0, 0),
        (191, 64, 191),
        (255, 191, 64),
        (198, 255, 0),
        (244, 67, 54),
        (255, 0, 255),
        (255, 0, 191),
        (0, 255, 0),
        (0, 191, 0),
        (165, 255, 235),
        (64, 191, 191),
        (64, 31, 255),
    ];
    let names = [
        NoteName::C,
        NoteName::CSharp,
        NoteName::DFlat,
        NoteName::D,
        NoteName::DSharp,
        NoteName::EFlat,
        NoteName::E,
        NoteName::F,
        NoteName::FSharp,
        NoteName::GFlat,
        NoteName::G,
        NoteName::GSharp,
        NoteName::AFlat,
        NoteName::A,
        NoteName::ASharp,
        NoteName::BFlat,
        NoteName::B,
    ];
    for name in &names {
        let (red, green, blue) = colours[NoteName::to_number(name) as usize];
        assert_eq!(NoteName::to_rgb(name), Rgb { red, green, blue });
    }
}

#[test]
fn notes_are_painted_in_their_colour() {
    assert_eq!(NoteName::C.to_text(), "\x1b[38;2;191;0;0mC\x1b[39m");
    assert_eq!(NoteName::DSharp.to_text(), painted("D\u{266f}", 198, 255, 0));
    assert_eq!(NoteName::EFlat.to_text(), painted("E\u{266d}", 198, 255, 0));
    assert_eq!(
        NotePitch { note_name: NoteName::E, octave: 2 }.to_text(),
        format!("\u{2002}{}", painted("E2", 244, 67, 54))
    );
    assert_eq!(
        NotePitch { note_name: NoteName::ASharp, octave: 3 }.to_text(),
        painted("A\u{266f}3", 64, 191, 191)
    );
    assert_eq!(
        write_notes(&vec![NoteName::C, NoteName::G]),
        format!("{} {} ", painted("C", 191, 0, 0), painted("G", 0, 255, 0))
    );
    assert_eq!(write_notes(&vec![]), "");
}

#[test]
fn positions_are_blank_where_hidden() {
    let natural = NotePitch { note_name: NoteName::B, octave: 3 };
    let altered = NotePitch { note_name: NoteName::FSharp, octave: 3 };
    assert_eq!(
        NoteDisplay { note_pitch: natural, is_displayed: true }.to_text(),
        painted("B3", 64, 31, 255)
    );
    assert_eq!(NoteDisplay { note_pitch: natural, is_displayed: false }.to_text(), "  ");
    assert_eq!(
        NoteDisplay { note_pitch: altered, is_displayed: true }.to_text(),
        painted("F\u{266f}3", 255, 0, 191)
    );
    assert_eq!(NoteDisplay { note_pitch: altered, is_displayed: false }.to_text(), "   ");
}

#[test]
fn small_words_are_written_plainly() {
    assert_eq!(Step::Whole.to_text(), "W");
    assert_eq!(Step::Half.to_text(), "H");
    assert_eq!(Step::OneAndAHalf.to_text(), "3/2");
    assert_eq!(Accidental::Sharp.to_text(), "\u{266f}");
    assert_eq!(Accidental::Flat.to_text(), "\u{266d}");
    assert_eq!(Interval::new(3, None).to_text(), "3");
    assert_eq!(Interval::new(7, Some(Accidental::Flat)).to_text(), "\u{266d}7");
    assert_eq!(Interval::new(11, Some(Accidental::Sharp)).to_text(), "\u{266f}11");
    assert_eq!(TuningType::Open.to_text(), "Open");
    assert_eq!(TuningType::DropTuning.to_text(), "Drop");
    assert_eq!(TuningType::Standard.to_text(), "Standard");
    assert_eq!(TuningType::Custom.to_text(), "Custom");
    assert_eq!(InstrumentType::Guitar.to_text(), "Guitar");
    assert_eq!(InstrumentType::Bass.to_text(), "Bass");
    assert_eq!(InstrumentType::Mandolin.to_text(), "Mandolin");
    assert_eq!(InstrumentType::Banjo.to_text(), "Banjo");
    assert_eq!(InstrumentType::Ukelelle.to_text(), "Ukelelle");
}

#[test]
fn patterns_are_written_on_a_line() {
    assert_eq!(
        ScaleDef::new_major_pentatonic().to_text(),
        format!(
            "{} {}{} {} {} {} {} \n",
            white("Major Pentatonic"),
            white("scale: "),
            white("W"),
            white("W"),
            white("3/2"),
            white("W"),
            white("3/2")
        )
    );
    assert_eq!(
        ChordDef::new_minor_seven().to_text(),
        format!(
            "{} {}{} {} {} {} \n",
            white("Minor 7"),
            white("chord: "),
            white("1"),
            white("\u{266d}3"),
            white("5"),
            white("\u{266d}7")
        )
    );
    assert_eq!(
        ScaleDef { name: String::from("None"), steps: vec![] }.to_text(),
        format!("{} {}\n", white("None"), white("scale: "))
    );
}

#[test]
fn scales_and_chords_are_written_with_their_notes() {
    let scale = Scale::new(&NoteName::A, &ScaleDef::new_minor_pentatonic());
    assert_eq!(
        scale.to_text(),
        format!(
            "{} {}{} {} {} {} {} {} \n",
            white("A Minor Pentatonic"),
            white("scale: "),
            painted("A", 165, 255, 235),
            painted("C", 191, 0, 0),
            painted("D", 255, 191, 64),
            painted("E", 244, 67, 54),
            painted("G", 0, 255, 0),
            painted("A", 165, 255, 235)
        )
    );
    let chord = Chord::new(&NoteName::C, &ChordDef::new_minor());
    assert_eq!(
        chord.to_text(),
        format!(
            "{} {}{}{} {}{} {} {} \n",
            white("C Minor"),
            white("("),
            white("Cm"),
            white(")"),
            white("chord: "),
            painted("C", 191, 0, 0),
            painted("D\u{266f}", 198, 255, 0),
            painted("G", 0, 255, 0)
        )
    );
}

#[test]
fn the_neck_is_drawn_from_the_last_string_down() {
    let root = NotePitch { note_name: NoteName::E, octave: 1 };
    let mut bass =
        Instrument::new(&InstrumentType::Bass, &TuningType::Standard, &root, 2, 2).unwrap();
    bass.show_notes(&vec![NoteName::E, NoteName::ASharp, NoteName::B]);
    let expected = format!(
        "{} {}  \x1b[4m{}\x1b[0m {}  \n{} {}  \x1b[4m   \x1b[0m     \n  {}   {}   {}   \n",
        white("1"),
        "  ",
        painted("A\u{266f}1", 64, 191, 191),
        painted("B1", 64, 31, 255),
        white("2"),
        painted("E1", 244, 67, 54),
        white("0"),
        white("1"),
        white("2")
    );
    assert_eq!(bass.to_text(), expected);
}

#[test]
fn the_ruler_narrows_from_the_tenth_fret() {
    let root = NotePitch { note_name: NoteName::C, octave: 2 };
    let guitar =
        Instrument::new(&InstrumentType::Guitar, &TuningType::Standard, &root, 0, 11).unwrap();
    let mut expected = String::from("  ");
    for fret in 0..10 {
        expected.push_str(&white(&fret.to_string()));
        expected.push_str("   ");
    }
    expected.push_str(&white("10"));
    expected.push_str("  ");
    expected.push_str(&white("11"));
    expected.push_str("  ");
    expected.push('\n');
    assert_eq!(guitar.to_text(), expected);
}

#[test]
fn marked_frets_are_underlined() {
    let root = NotePitch { note_name: NoteName::C, octave: 2 };
    let guitar =
        Instrument::new(&InstrumentType::Guitar, &TuningType::Standard, &root, 1, 24).unwrap();
    let text = guitar.to_text();
    let line = text.lines().next().unwrap();
    assert_eq!(line.matches("\x1b[4m").count(), 11);
    assert_eq!(line.matches("\x1b[0m").count(), 11);
    let marked = [1usize, 3, 5, 7, 9, 12, 15, 17, 19, 21, 24];
    let mut expected = format!("{} ", white("1"));
    for fret in 0..25usize {
        let position = guitar.fretboard[0][fret];
        let mut cell = position.to_text();
        if position.note_pitch.note_name.accidental().is_none() {
            cell.push(' ');
        }
        if marked.contains(&fret) {
            expected.push_str(&format!("\x1b[4m{}\x1b[0m", cell));
        } else {
            expected.push_str(&cell);
        }
        expected.push(' ');
    }
    assert_eq!(line, expected);
}

#[test]
fn details_list_the_instrument() {
    let root = NotePitch { note_name: NoteName::E, octave: 1 };
    let bass = Instrument::new(&InstrumentType::Bass, &TuningType::DropTuning, &root, 3, 20).unwrap();
    let expected = format!(
        "Instrument Details:\n\tType: Bass\n\tNumber of strings: 3\n\tNumber of frets: 20\n\tTuning: {} Drop\n\tOpen Notes: \u{2002}{} \u{2002}{} \u{2002}{} \n",
        painted("E", 244, 67, 54),
        painted("E1", 244, 67, 54),
        painted("B1", 64, 31, 255),
        painted("E2", 244, 67, 54)
    );
    assert_eq!(bass.details(), expected);
}
