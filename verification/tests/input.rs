use fretboard::input::{
    read_request, split_at_commas, split_input, split_input_advanced, MenuChoice,
};

fn split(text: &str) -> (String, String) {
    split_input(String::from(text))
}

fn pair(key: &str, rest: &str) -> (String, String) {
    (String::from(key), String::from(rest))
}

#[test]
fn a_key_is_split_from_what_follows() {
    assert_eq!(split("C MAJOR"), pair("C", "MAJOR"));
    assert_eq!(split("F# MINOR SEVEN"), pair("F#", "MINOR SEVEN"));
    assert_eq!(split("A B C"), pair("A", "B C"));
    assert_eq!(split("G "), pair("G", ""));
    assert_eq!(split("E  Open"), pair("E", " Open"));
    assert_eq!(split("D Drop\n"), pair("D", "Drop\n"));
    assert_eq!(split("Bb major"), pair("Bb", "major"));
    assert_eq!(split("F\u{266f} minor"), pair("F\u{266f}", "minor"));
}

#[test]
fn without_a_key_the_whole_line_is_the_rest() {
    assert_eq!(split("MAJOR SEVEN"), pair("", "MAJOR SEVEN"));
    assert_eq!(split("c major"), pair("", "c major"));
    assert_eq!(split("D#"), pair("", "D#"));
    assert_eq!(split(""), pair("", ""));
    assert_eq!(split(" C MAJOR"), pair("", " C MAJOR"));
    assert_eq!(split("H MAJOR"), pair("", "H MAJOR"));
    assert_eq!(split("\u{266f}C MAJOR"), pair("", "\u{266f}C MAJOR"));
    assert_eq!(split("C\tMAJOR"), pair("", "C\tMAJOR"));
}

#[test]
fn a_line_is_split_at_its_commas_and_trimmed() {
    assert_eq!(
        split_input_advanced(String::from("c major, d minor ,G\n")),
        vec!["c major", "d minor", "G"]
    );
    assert_eq!(split_input_advanced(String::from("C")), vec!["C"]);
    assert_eq!(split_input_advanced(String::new()), vec![""]);
    assert_eq!(split_input_advanced(String::from("a,,b")), vec!["a", "", "b"]);
    assert_eq!(split_input_advanced(String::from(",")), vec!["", ""]);
    assert_eq!(split_input_advanced(String::from(" , \t,x ")), vec!["", "", "x"]);
    assert_eq!(
        split_input_advanced(String::from("F\u{266f} minor, \u{2003}C major\u{2003}")),
        vec!["F\u{266f} minor", "C major"]
    );
}

#[test]
fn menu_numbers_are_read_with_white_space_around() {
    assert_eq!(MenuChoice::from_line("1\n"), MenuChoice::FretNinja);
    assert_eq!(MenuChoice::from_line(" 2 "), MenuChoice::ChooseKey);
    assert_eq!(MenuChoice::from_line("3"), MenuChoice::ChooseChord);
    assert_eq!(MenuChoice::from_line("4\r\n"), MenuChoice::ChooseScale);
    assert_eq!(MenuChoice::from_line("5"), MenuChoice::AddNotes);
    assert_eq!(MenuChoice::from_line("6"), MenuChoice::RemoveNotes);
    assert_eq!(MenuChoice::from_line("7"), MenuChoice::FindScales);
    assert_eq!(MenuChoice::from_line("8"), MenuChoice::FindChords);
    assert_eq!(MenuChoice::from_line("9"), MenuChoice::DisplayFullInstrument);
    assert_eq!(MenuChoice::from_line("\t10\n"), MenuChoice::ShowDetails);
    assert_eq!(MenuChoice::from_line("11\n"), MenuChoice::ChangeTuning);
    assert_eq!(MenuChoice::from_line("0\n"), MenuChoice::Exit);
    assert_eq!(MenuChoice::from_line("12\n"), MenuChoice::Invalid);
    assert_eq!(MenuChoice::from_line("\n"), MenuChoice::Invalid);
    assert_eq!(MenuChoice::from_line("01"), MenuChoice::Invalid);
    assert_eq!(MenuChoice::from_line("1 1"), MenuChoice::Invalid);
    assert_eq!(MenuChoice::from_line("exit"), MenuChoice::Invalid);
}

#[test]
fn menu_numbers_are_exact_without_trimming() {
    assert_eq!(MenuChoice::from_number("10"), MenuChoice::ShowDetails);
    assert_eq!(MenuChoice::from_number("0"), MenuChoice::Exit);
    assert_eq!(MenuChoice::from_number("1\n"), MenuChoice::Invalid);
    assert_eq!(MenuChoice::from_number(" 1"), MenuChoice::Invalid);
    assert_eq!(MenuChoice::from_number(""), MenuChoice::Invalid);
}

#[test]
fn a_text_is_split_at_every_comma() {
    assert_eq!(split_at_commas("a, b ,c"), vec!["a", " b ", "c"]);
    assert_eq!(split_at_commas(""), vec![""]);
    assert_eq!(split_at_commas(",,"), vec!["", "", ""]);
    assert_eq!(split_at_commas("no comma"), vec!["no comma"]);
    assert_eq!(split_at_commas("\u{266f},\u{266d}"), vec!["\u{266f}", "\u{266d}"]);
    for text in ["x,y,,z,", ",", "c major, d minor ,G\n"] {
        let expected: Vec<&str> = text.split(',').collect();
        assert_eq!(split_at_commas(text), expected);
    }
}

#[test]
fn a_request_is_read_in_upper_case() {
    assert_eq!(read_request(String::from("c major seven\n")), pair("C", "MAJOR SEVEN\n"));
    assert_eq!(read_request(String::from("f# dorian")), pair("F#", "DORIAN"));
    assert_eq!(read_request(String::from("minor")), pair("", "MINOR"));
    assert_eq!(read_request(String::from("minor seven")), pair("", "MINOR SEVEN"));
    assert_eq!(read_request(String::from("diminished seven")), pair("DIMINISHED", "SEVEN"));
}
