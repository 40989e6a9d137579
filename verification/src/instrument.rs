//! Instruments: the open strings that a tuning gives, the pitch at every
//! fret of every string, and the flags that show or hide each position.

use vstd::prelude::*;
use crate::color::{paint, painted, Rgb};
use crate::error::TheoryError;
use crate::note::NoteName;
use crate::pitch::NotePitch;
use crate::text::{numeral, same_text, to_upper, uppercase, write_number};

verus! {

/// A style of tuning.
#[derive(Clone, Copy, Debug, PartialEq, Eq, Hash, Structural)]
pub enum TuningType {
    Open,
    DropTuning,
    Standard,
    Custom,
}

impl TuningType {
    /// The style that an upper-case name asks for.
    pub open spec fn named(text: Seq<char>) -> Option<TuningType> {
        if text == "OPEN"@ {
            Some(TuningType::Open)
        } else if text == "DROP"@ {
            Some(TuningType::DropTuning)
        } else if text == "STANDARD"@ {
            Some(TuningType::Standard)
        } else if text == "CUSTOM"@ {
            Some(TuningType::Custom)
        } else {
            None
        }
    }

    /// The name of this style.
    pub open spec fn text(self) -> Seq<char> {
        match self {
            TuningType::Open => "Open"@,
            TuningType::DropTuning => "Drop"@,
            TuningType::Standard => "Standard"@,
            TuningType::Custom => "Custom"@,
        }
    }

    /// Writes the name of this style.
    pub fn to_text(&self) -> (text: String)
        ensures
            text@ == self.text(),
    {
        match self {
            TuningType::Open => String::from_str("Open"),
            TuningType::DropTuning => String::from_str("Drop"),
            TuningType::Standard => String::from_str("Standard"),
            TuningType::Custom => String::from_str("Custom"),
        }
    }

    /// Reads the name of a style in either case.
    pub fn from_string(input: String) -> (style: Option<Self>)
        ensures
            style == TuningType::named(uppercase(input@)),
    {
        let input_uppercase: String = to_upper(input.as_str());
        TuningType::from_upper(input_uppercase.as_str())
    }

    /// Reads the name of a style written in upper case.
    pub fn from_upper(input: &str) -> (style: Option<Self>)
        ensures
            style == TuningType::named(input@),
    {
        if same_text(input, "OPEN") {
            Some(TuningType::Open)
        } else if same_text(input, "DROP") {
            Some(TuningType::DropTuning)
        } else if same_text(input, "STANDARD") {
            Some(TuningType::Standard)
        } else if same_text(input, "CUSTOM") {
            Some(TuningType::Custom)
        } else {
            None
        }
    }
}

/// A family of instruments.
#[derive(Clone, Copy, Debug, PartialEq, Eq, Hash, Structural)]
pub enum InstrumentType {
    Guitar,
    Bass,
    Mandolin,
    Banjo,
    Ukelelle,
}

impl InstrumentType {
    /// The name of this family.
    pub open spec fn text(self) -> Seq<char> {
        match self {
            InstrumentType::Guitar => "Guitar"@,
            InstrumentType::Bass => "Bass"@,
            InstrumentType::Mandolin => "Mandolin"@,
            InstrumentType::Banjo => "Banjo"@,
            InstrumentType::Ukelelle => "Ukelelle"@,
        }
    }

    /// Writes the name of this family.
    pub fn to_text(&self) -> (text: String)
        ensures
            text@ == self.text(),
    {
        match self {
            InstrumentType::Guitar => String::from_str("Guitar"),
            InstrumentType::Bass => String::from_str("Bass"),
            InstrumentType::Mandolin => String::from_str("Mandolin"),
            InstrumentType::Banjo => String::from_str("Banjo"),
            InstrumentType::Ukelelle => String::from_str("Ukelelle"),
        }
    }
}

/// The distance in semitones of each open string above the root, lowest
/// string first, for the families and styles that have a tuning.
///
/// In the standard and drop styles each string lies a fixed interval above
/// the string before it; in the open style the strings sound the notes of
/// the major chord of the root.
pub open spec fn tuning_offsets(instrument_type: InstrumentType, tuning_type: TuningType) -> Option<
    Seq<int>,
> {
    match (instrument_type, tuning_type) {
        (InstrumentType::Guitar, TuningType::Standard) => Some(seq![0, 5, 10, 15, 19, 24]),
        (InstrumentType::Guitar, TuningType::DropTuning) => Some(seq![0, 7, 12, 17, 21, 26]),
        (InstrumentType::Guitar, TuningType::Open) => Some(seq![0, 7, 12, 16, 19, 24]),
        (InstrumentType::Bass, TuningType::Standard) => Some(seq![0, 5, 10, 15]),
        (InstrumentType::Bass, TuningType::DropTuning) => Some(seq![0, 7, 12, 17]),
        (InstrumentType::Bass, TuningType::Open) => Some(seq![0, 7, 12, 16]),
        _ => None,
    }
}

/// The open strings of an instrument, lowest first: the root, then the
/// pitches at the offsets of the tuning. There is none where the family has
/// no tuning in this style, or where more strings are asked for than the
/// tuning defines.
pub open spec fn tuning_of(
    instrument_type: InstrumentType,
    tuning_type: TuningType,
    root: NotePitch,
    string_count: int,
) -> Option<Seq<NotePitch>> {
    match tuning_offsets(instrument_type, tuning_type) {
        Some(offsets) => if 0 <= string_count <= offsets.len() {
            Some(Seq::new(string_count as nat, |i: int| root.fretted(offsets[i])))
        } else {
            None
        },
        None => None,
    }
}

/// Whether the highest pitch of the fretboard, the fret `fret_count` of the
/// last string, has an octave that a pitch can hold. The lower positions then
/// have one too.
pub open spec fn tuning_fits(
    instrument_type: InstrumentType,
    tuning_type: TuningType,
    root: NotePitch,
    string_count: int,
    fret_count: int,
) -> bool {
    match tuning_offsets(instrument_type, tuning_type) {
        Some(offsets) => 0 < string_count <= offsets.len() ==> root.can_raise(
            offsets[string_count - 1] + fret_count,
        ),
        None => true,
    }
}

/// The offsets of a tuning are not negative and do not fall from one string to the next.
pub proof fn lemma_offsets_rise(instrument_type: InstrumentType, tuning_type: TuningType)
    ensures
        tuning_offsets(instrument_type, tuning_type) matches Some(offsets) ==> forall|
            i: int,
            j: int,
        |
            0 <= i <= j < offsets.len() ==> 0 <= #[trigger] offsets[i] <= #[trigger] offsets[j],
{
}

/// A position of the fretboard: the pitch that sounds there, and whether it is shown.
#[derive(Clone, Copy, Debug, PartialEq, Eq, Structural)]
pub struct NoteDisplay {
    pub note_pitch: NotePitch,
    pub is_displayed: bool,
}

impl NoteDisplay {
    /// This position as it is shown: the name of its pitch in the colour of
    /// its pitch class, or, where it is hidden, a blank of the same width.
    pub open spec fn text(self) -> Seq<char> {
        if self.is_displayed {
            painted(self.note_pitch.name_text(), self.note_pitch.note_name.color())
        } else {
            match self.note_pitch.note_name.alteration() {
                Some(_) => "   "@,
                None => "  "@,
            }
        }
    }

    /// Writes this position as it is shown.
    pub fn to_text(&self) -> (text: String)
        ensures
            text@ == self.text(),
    {
        match self.is_displayed {
            true => {
                let rgb = NoteName::to_rgb(&self.note_pitch.note_name);
                let name: String = self.note_pitch.get_name();
                paint(name.as_str(), rgb)
            },
            false => {
                match self.note_pitch.note_name.accidental() {
                    Some(_accidental) => String::from_str("   "),
                    None => String::from_str("  "),
                }
            },
        }
    }
}

/// Whether a fret carries a mark on the neck.
pub open spec fn is_marked(fret: int) -> bool {
    fret == 1 || fret == 3 || fret == 5 || fret == 7 || fret == 9 || fret == 12 || fret == 15
        || fret == 17 || fret == 19 || fret == 21 || fret == 24
}

/// A position as it is drawn on the neck: padded to the width of a name with
/// an accidental, underlined at a marked fret, and followed by a space.
pub open spec fn position_text(position: NoteDisplay, fret: int) -> Seq<char> {
    let padded = match position.note_pitch.note_name.alteration() {
        None => position.text() + " "@,
        Some(_) => position.text(),
    };
    if is_marked(fret) {
        "\x1b[4m"@ + padded + "\x1b[0m"@ + " "@
    } else {
        padded + " "@
    }
}

/// The positions of a string as they are drawn, from the open string on.
pub open spec fn row_text(row: Seq<NoteDisplay>) -> Seq<char>
    decreases row.len(),
{
    if row.len() == 0 {
        Seq::empty()
    } else {
        row_text(row.drop_last()) + position_text(row.last(), row.len() - 1)
    }
}

/// The first `count` lines of the neck. The strings are drawn from the last
/// to the first, so that line `k`, counted from 1, bears the number `k` and
/// shows the string `string_count - k`, up to the fret `fret_count`.
pub open spec fn lines_text(
    board: Seq<Seq<NoteDisplay>>,
    string_count: int,
    fret_count: int,
    count: int,
) -> Seq<char>
    decreases count,
{
    if count <= 0 {
        Seq::empty()
    } else {
        lines_text(board, string_count, fret_count, count - 1) + painted(
            numeral(count as nat),
            Rgb::white(),
        ) + " "@ + row_text(board[string_count - count].take(fret_count + 1)) + "\n"@
    }
}

/// The numbers of the first `count` frets, from 0, each in white and padded
/// to the width of a position.
pub open spec fn ruler_text(count: int) -> Seq<char>
    decreases count,
{
    if count <= 0 {
        Seq::empty()
    } else {
        ruler_text(count - 1) + painted(numeral((count - 1) as nat), Rgb::white()) + if count - 1
            <= 9 {
            "   "@
        } else {
            "  "@
        }
    }
}

/// A run of pitches as they are shown, each followed by a space.
pub open spec fn pitches_text(pitches: Seq<NotePitch>) -> Seq<char>
    decreases pitches.len(),
{
    if pitches.len() == 0 {
        Seq::empty()
    } else {
        pitches_text(pitches.drop_last()) + pitches.last().text() + " "@
    }
}

impl InstrumentView {
    /// An instrument as it is made: with the given tuning, and with the
    /// fretboard of that tuning, every position shown.
    pub open spec fn made(
        instrument_type: InstrumentType,
        tuning_type: TuningType,
        root_note: NotePitch,
        string_count: nat,
        fret_count: nat,
        tuning: Seq<NotePitch>,
    ) -> InstrumentView {
        InstrumentView {
            instrument_type,
            tuning_type,
            root_note,
            string_count,
            fret_count,
            tuning,
            fretboard: board_of(tuning, fret_count as int),
        }
    }

    /// Whether the neck can be drawn: the number of frets can be counted up
    /// by one, and the fretboard has a row for each string and, in each of
    /// them, a position for each fret.
    pub open spec fn drawable(self) -> bool {
        &&& self.fret_count < usize::MAX
        &&& self.string_count <= self.fretboard.len()
        &&& forall|string: int|
            0 <= string < self.string_count ==> (#[trigger] self.fretboard[string]).len()
                > self.fret_count
    }

    /// What the instrument is, line by line: its family, its numbers of
    /// strings and of frets, its tuning and its open strings.
    pub open spec fn details(self) -> Seq<char> {
        "Instrument Details:\n"@ + "\tType: "@ + self.instrument_type.text() + "\n"@
            + "\tNumber of strings: "@ + numeral(self.string_count) + "\n"@
            + "\tNumber of frets: "@ + numeral(self.fret_count) + "\n"@ + "\tTuning: "@
            + self.root_note.note_name.text() + " "@ + self.tuning_type.text() + "\n"@
            + "\tOpen Notes: "@ + pitches_text(self.tuning) + "\n"@
    }

    /// The neck as it is drawn: a line for each string, the last string on
    /// top, and below them the numbers of the frets.
    pub open spec fn text(self) -> Seq<char> {
        lines_text(
            self.fretboard,
            self.string_count as int,
            self.fret_count as int,
            self.string_count as int,
        ) + "  "@ + ruler_text(self.fret_count as int + 1) + "\n"@
    }
}

/// Tells whether a fret carries a mark on the neck.
fn has_mark(fret: usize) -> (marked: bool)
    ensures
        marked == is_marked(fret as int),
{
    fret == 1 || fret == 3 || fret == 5 || fret == 7 || fret == 9 || fret == 12 || fret == 15
        || fret == 17 || fret == 19 || fret == 21 || fret == 24
}

/// The pitches of a string from the open string to the fret `fret_count`, all shown.
pub open spec fn string_of(open_note: NotePitch, fret_count: int) -> Seq<NoteDisplay> {
    Seq::new(
        (fret_count + 1) as nat,
        |fret: int| NoteDisplay { note_pitch: open_note.fretted(fret), is_displayed: true },
    )
}

/// The fretboard of a tuning: one row for each string, and in each row the
/// pitch at every fret from 0, the open string, to `fret_count`.
pub open spec fn board_of(tuning: Seq<NotePitch>, fret_count: int) -> Seq<Seq<NoteDisplay>> {
    Seq::new(tuning.len(), |string: int| string_of(tuning[string], fret_count))
}

/// Whether a pitch belongs to one of the given pitch classes, whatever its
/// octave and its spelling.
pub open spec fn selects(notes: Seq<NoteName>, pitch: NotePitch) -> bool {
    exists|k: int| 0 <= k < notes.len() && (#[trigger] notes[k]).semitone() == pitch.semitone()
}

/// A row of the fretboard with every position shown.
pub open spec fn row_shown(row: Seq<NoteDisplay>) -> Seq<NoteDisplay> {
    Seq::new(
        row.len(),
        |fret: int| NoteDisplay { note_pitch: row[fret].note_pitch, is_displayed: true },
    )
}

/// A fretboard with every position shown.
pub open spec fn board_shown(board: Seq<Seq<NoteDisplay>>) -> Seq<Seq<NoteDisplay>> {
    Seq::new(board.len(), |string: int| row_shown(board[string]))
}

/// A row of the fretboard that shows the positions of the given pitch
/// classes and hides the others.
pub open spec fn row_filtered(row: Seq<NoteDisplay>, notes: Seq<NoteName>) -> Seq<NoteDisplay> {
    Seq::new(
        row.len(),
        |fret: int|
            NoteDisplay {
                note_pitch: row[fret].note_pitch,
                is_displayed: selects(notes, row[fret].note_pitch),
            },
    )
}

/// A fretboard that shows the positions of the given pitch classes and hides the others.
pub open spec fn board_filtered(board: Seq<Seq<NoteDisplay>>, notes: Seq<NoteName>) -> Seq<
    Seq<NoteDisplay>,
> {
    Seq::new(board.len(), |string: int| row_filtered(board[string], notes))
}

/// The number of positions of a row that are shown.
pub open spec fn shown_in_row(row: Seq<NoteDisplay>) -> nat
    decreases row.len(),
{
    if row.len() == 0 {
        0
    } else {
        shown_in_row(row.drop_last()) + if row.last().is_displayed {
            1nat
        } else {
            0nat
        }
    }
}

/// The number of positions of a fretboard that are shown.
pub open spec fn shown_on(board: Seq<Seq<NoteDisplay>>) -> nat
    decreases board.len(),
{
    if board.len() == 0 {
        0
    } else {
        shown_on(board.drop_last()) + shown_in_row(board.last())
    }
}

/// The number of positions of a row whose pitch belongs to one of the given
/// pitch classes.
pub open spec fn selected_in_row(row: Seq<NoteDisplay>, notes: Seq<NoteName>) -> nat
    decreases row.len(),
{
    if row.len() == 0 {
        0
    } else {
        selected_in_row(row.drop_last(), notes) + if selects(notes, row.last().note_pitch) {
            1nat
        } else {
            0nat
        }
    }
}

/// The number of positions of a fretboard whose pitch belongs to one of the
/// given pitch classes.
pub open spec fn selected_on(board: Seq<Seq<NoteDisplay>>, notes: Seq<NoteName>) -> nat
    decreases board.len(),
{
    if board.len() == 0 {
        0
    } else {
        selected_on(board.drop_last(), notes) + selected_in_row(board.last(), notes)
    }
}

/// The number of positions of a fretboard.
pub open spec fn positions(board: Seq<Seq<NoteDisplay>>) -> nat
    decreases board.len(),
{
    if board.len() == 0 {
        0
    } else {
        positions(board.drop_last()) + board.last().len()
    }
}

/// A fretboard has one row for each string of its tuning; each row runs from
/// fret 0 to the last fret; every position holds the pitch of its fret and is
/// shown; and the open strings, at fret 0, are the tuning itself.
pub proof fn lemma_board_of(tuning: Seq<NotePitch>, fret_count: int)
    requires
        0 <= fret_count,
    ensures
        board_of(tuning, fret_count).len() == tuning.len(),
        forall|string: int|
            0 <= string < tuning.len() ==> (#[trigger] board_of(tuning, fret_count)[string]).len()
                == fret_count + 1,
        forall|string: int|
            0 <= string < tuning.len() ==> (#[trigger] board_of(
                tuning,
                fret_count,
            )[string])[0].note_pitch == tuning[string],
        forall|string: int, fret: int|
            0 <= string < tuning.len() && 0 <= fret <= fret_count ==> #[trigger] board_of(
                tuning,
                fret_count,
            )[string][fret] == (NoteDisplay {
                note_pitch: tuning[string].fretted(fret),
                is_displayed: true,
            }),
{
}

/// Shown positions of a row are positions of the row.
pub proof fn lemma_shown_in_row_bound(row: Seq<NoteDisplay>)
    ensures
        shown_in_row(row) <= row.len(),
    decreases row.len(),
{
    if row.len() > 0 {
        lemma_shown_in_row_bound(row.drop_last());
    }
}

/// Shown positions of a fretboard are positions of the fretboard.
pub proof fn lemma_shown_on_bound(board: Seq<Seq<NoteDisplay>>)
    ensures
        shown_on(board) <= positions(board),
    decreases board.len(),
{
    if board.len() > 0 {
        lemma_shown_on_bound(board.drop_last());
        lemma_shown_in_row_bound(board.last());
    }
}

/// A row that was filtered by pitch classes shows as many positions as the
/// row has positions of those pitch classes.
pub proof fn lemma_row_filtered_count(row: Seq<NoteDisplay>, notes: Seq<NoteName>)
    ensures
        shown_in_row(row_filtered(row, notes)) == selected_in_row(row, notes),
    decreases row.len(),
{
    if row.len() > 0 {
        lemma_row_filtered_count(row.drop_last(), notes);
        assert(row_filtered(row, notes).drop_last() =~= row_filtered(row.drop_last(), notes));
    }
}

/// A fretboard that was filtered by pitch classes shows as many positions as
/// the fretboard has positions of those pitch classes.
pub proof fn lemma_board_filtered_count(board: Seq<Seq<NoteDisplay>>, notes: Seq<NoteName>)
    ensures
        shown_on(board_filtered(board, notes)) == selected_on(board, notes),
    decreases board.len(),
{
    if board.len() > 0 {
        lemma_board_filtered_count(board.drop_last(), notes);
        lemma_row_filtered_count(board.last(), notes);
        assert(board_filtered(board, notes).drop_last() =~= board_filtered(
            board.drop_last(),
            notes,
        ));
    }
}

/// A row on which everything was shown shows all its positions.
pub proof fn lemma_row_shown_count(row: Seq<NoteDisplay>)
    ensures
        shown_in_row(row_shown(row)) == row.len(),
    decreases row.len(),
{
    if row.len() > 0 {
        lemma_row_shown_count(row.drop_last());
        assert(row_shown(row).drop_last() =~= row_shown(row.drop_last()));
    }
}

/// A fretboard on which everything was shown shows all its positions.
pub proof fn lemma_board_shown_count(board: Seq<Seq<NoteDisplay>>)
    ensures
        shown_on(board_shown(board)) == positions(board),
    decreases board.len(),
{
    if board.len() > 0 {
        lemma_board_shown_count(board.drop_last());
        lemma_row_shown_count(board.last());
        assert(board_shown(board).drop_last() =~= board_shown(board.drop_last()));
    }
}

/// A fretboard of `strings` rows of `frets + 1` positions each has
/// `strings * (frets + 1)` positions.
pub proof fn lemma_positions(board: Seq<Seq<NoteDisplay>>, strings: nat, frets: nat)
    requires
        board.len() == strings,
        forall|string: int| 0 <= string < strings ==> (#[trigger] board[string]).len() == frets + 1,
    ensures
        positions(board) == strings * (frets + 1),
    decreases board.len(),
{
    if board.len() > 0 {
        lemma_positions(board.drop_last(), (strings - 1) as nat, frets);
        assert(strings * (frets + 1) == (strings - 1) * (frets + 1) + (frets + 1))
            by (nonlinear_arith);
    } else {
        assert(strings * (frets + 1) == 0) by (nonlinear_arith)
            requires
                strings == 0,
        ;
    }
}

/// Showing everything after a filter gives the fretboard that showing
/// everything gives without the filter, and filtering keeps every pitch and
/// the shape of the fretboard.
pub proof fn lemma_show_all_after_filter(board: Seq<Seq<NoteDisplay>>, notes: Seq<NoteName>)
    ensures
        board_shown(board_filtered(board, notes)) == board_shown(board),
        positions(board_filtered(board, notes)) == positions(board),
    decreases board.len(),
{
    assert(board_shown(board_filtered(board, notes)) =~= board_shown(board)) by {
        assert forall|string: int| 0 <= string < board.len() implies #[trigger] board_shown(
            board_filtered(board, notes),
        )[string] =~= board_shown(board)[string] by {}
    }
    if board.len() > 0 {
        lemma_show_all_after_filter(board.drop_last(), notes);
        assert(board_filtered(board, notes).drop_last() =~= board_filtered(
            board.drop_last(),
            notes,
        ));
    }
}

/// The first positions of a row hold no more shown positions than the row.
pub proof fn lemma_shown_in_row_prefix(row: Seq<NoteDisplay>, count: int)
    requires
        0 <= count <= row.len(),
    ensures
        shown_in_row(row.take(count)) <= shown_in_row(row),
    decreases row.len(),
{
    if count == row.len() {
        assert(row.take(count) =~= row);
    } else {
        lemma_shown_in_row_prefix(row.drop_last(), count);
        assert(row.drop_last().take(count) =~= row.take(count));
    }
}

/// The first rows of a fretboard hold no more positions than the fretboard.
pub proof fn lemma_positions_prefix(board: Seq<Seq<NoteDisplay>>, count: int)
    requires
        0 <= count <= board.len(),
    ensures
        positions(board.take(count)) <= positions(board),
    decreases board.len(),
{
    if count == board.len() {
        assert(board.take(count) =~= board);
    } else {
        lemma_positions_prefix(board.drop_last(), count);
        assert(board.drop_last().take(count) =~= board.take(count));
    }
}

/// A fretboard of `strings` rows of `frets + 1` positions each, filtered by
/// pitch classes, shows as many positions as it has positions of those
/// pitch classes; and when everything is shown on it again, it shows all
/// its `strings * (frets + 1)` positions.
pub proof fn lemma_filter_then_show_all(
    board: Seq<Seq<NoteDisplay>>,
    notes: Seq<NoteName>,
    strings: nat,
    frets: nat,
)
    requires
        board.len() == strings,
        forall|string: int| 0 <= string < strings ==> (#[trigger] board[string]).len() == frets + 1,
    ensures
        shown_on(board_filtered(board, notes)) == selected_on(board, notes),
        shown_on(board_shown(board_filtered(board, notes))) == strings * (frets + 1),
{
    lemma_board_filtered_count(board, notes);
    lemma_show_all_after_filter(board, notes);
    lemma_board_shown_count(board);
    lemma_positions(board, strings, frets);
}

/// Each string of a tuning, but the first, is the string before it raised
/// by the difference of their offsets: by 5, 5, 5, 4 and 5 semitones on a
/// guitar in standard tuning.
pub proof fn lemma_tuning_steps(
    instrument_type: InstrumentType,
    tuning_type: TuningType,
    root: NotePitch,
    string_count: int,
    string: int,
)
    requires
        1 <= string < string_count,
        tuning_of(instrument_type, tuning_type, root, string_count) is Some,
        tuning_fits(instrument_type, tuning_type, root, string_count, 0),
    ensures
        ({
            let offsets = tuning_offsets(instrument_type, tuning_type)->0;
            let tuning = tuning_of(instrument_type, tuning_type, root, string_count)->0;
            &&& offsets[string] - offsets[string - 1] > 0
            &&& tuning[string] == tuning[string - 1].raised(offsets[string] - offsets[string - 1])
        }),
{
    let offsets = tuning_offsets(instrument_type, tuning_type)->0;
    lemma_offsets_rise(instrument_type, tuning_type);
    assert(offsets[string] <= offsets[string_count - 1]);
    assert(offsets[string - 1] < offsets[string]);
    crate::pitch::lemma_raise_twice(
        root,
        offsets[string - 1],
        offsets[string] - offsets[string - 1],
    );
}

/// A stringed instrument with its tuning and its fretboard.
#[derive(Debug, PartialEq, Eq)]
pub struct Instrument {
    pub instrument_type: InstrumentType,
    pub tuning_type: TuningType,
    pub root_note: NotePitch,
    pub string_count: usize,
    pub fret_count: usize,
    pub tuning: Vec<NotePitch>,
    pub fretboard: Vec<Vec<NoteDisplay>>,
}

/// What an instrument holds.
pub struct InstrumentView {
    pub instrument_type: InstrumentType,
    pub tuning_type: TuningType,
    pub root_note: NotePitch,
    pub string_count: nat,
    pub fret_count: nat,
    pub tuning: Seq<NotePitch>,
    pub fretboard: Seq<Seq<NoteDisplay>>,
}

impl View for Instrument {
    type V = InstrumentView;

    open spec fn view(&self) -> InstrumentView {
        InstrumentView {
            instrument_type: self.instrument_type,
            tuning_type: self.tuning_type,
            root_note: self.root_note,
            string_count: self.string_count as nat,
            fret_count: self.fret_count as nat,
            tuning: self.tuning@,
            fretboard: Seq::new(self.fretboard@.len(), |string: int| self.fretboard@[string]@),
        }
    }
}

/// The offsets of the tuning of a family in a style, if it has one.
fn offsets_of(instrument_type: &InstrumentType, tuning_type: &TuningType) -> (offsets: Option<
    Vec<usize>,
>)
    ensures
        match offsets {
            Some(offsets) => tuning_offsets(*instrument_type, *tuning_type) matches Some(pattern)
                && pattern.len() == offsets@.len() && forall|i: int|
                0 <= i < offsets@.len() ==> pattern[i] == #[trigger] offsets@[i],
            None => tuning_offsets(*instrument_type, *tuning_type) is None,
        },
{
    match instrument_type {
        InstrumentType::Guitar => match tuning_type {
            TuningType::Standard => Some(vec![0, 5, 10, 15, 19, 24]),
            TuningType::DropTuning => Some(vec![0, 7, 12, 17, 21, 26]),
            TuningType::Open => Some(vec![0, 7, 12, 16, 19, 24]),
            _ => None,
        },
        InstrumentType::Bass => match tuning_type {
            TuningType::Standard => Some(vec![0, 5, 10, 15]),
            TuningType::DropTuning => Some(vec![0, 7, 12, 17]),
            TuningType::Open => Some(vec![0, 7, 12, 16]),
            _ => None,
        },
        _ => None,
    }
}

/// Tells whether an instrument can be made: whether its number of frets can
/// be counted up by one, and the highest pitch of its fretboard has an
/// octave that a pitch can hold.
pub fn can_make(
    instrument_type: &InstrumentType,
    tuning_type: &TuningType,
    root_note: &NotePitch,
    string_count: usize,
    fret_count: usize,
) -> (possible: bool)
    ensures
        possible == (fret_count < usize::MAX && tuning_fits(
            *instrument_type,
            *tuning_type,
            *root_note,
            string_count as int,
            fret_count as int,
        )),
{
    if fret_count == usize::MAX {
        return false;
    }
    match offsets_of(instrument_type, tuning_type) {
        Some(offsets) => {
            if 0 < string_count && string_count <= offsets.len() {
                let (number, octave) = NotePitch::to_number(root_note);
                let highest: u128 = number as u128 + offsets[string_count - 1] as u128
                    + fret_count as u128;
                highest / 12 <= (127 - octave as i16) as u128
            } else {
                true
            }
        },
        None => true,
    }
}

/// Whether a pitch belongs to one of the given pitch classes.
fn is_selected(notes: &Vec<NoteName>, pitch: &NotePitch) -> (found: bool)
    ensures
        found == selects(notes@, *pitch),
{
    let wanted: i8 = NoteName::to_number(&pitch.note_name);
    let mut at: usize = 0;
    while at < notes.len()
        invariant
            at <= notes.len(),
            wanted == pitch.semitone(),
            forall|k: int| 0 <= k < at ==> (#[trigger] notes@[k]).semitone() != pitch.semitone(),
        decreases notes.len() - at,
    {
        if NoteName::to_number(&notes[at]) == wanted {
            return true;
        }
        at = at + 1;
    }
    false
}

impl Instrument {
    /// Whether the instrument is whole: its tuning is the one that its
    /// family, style, root and number of strings give, and its fretboard
    /// holds the pitches of that tuning up to its last fret.
    pub open spec fn consistent(&self) -> bool {
        &&& tuning_of(
            self.instrument_type,
            self.tuning_type,
            self.root_note,
            self.string_count as int,
        ) == Some(self.tuning@)
        &&& self@.fretboard.len() == self.string_count
        &&& forall|string: int|
            0 <= string < self.string_count ==> (#[trigger] self@.fretboard[string]).len()
                == self.fret_count + 1
        &&& forall|string: int, fret: int|
            0 <= string < self.string_count && 0 <= fret <= self.fret_count
                ==> (#[trigger] self@.fretboard[string][fret]).note_pitch
                == self.tuning@[string].fretted(fret)
    }

    /// Makes an instrument, with its tuning and with a fretboard on which
    /// every position is shown.
    pub fn new(
        instrument_type: &InstrumentType,
        tuning_type: &TuningType,
        root_note: &NotePitch,
        string_count: usize,
        fret_count: usize,
    ) -> (made: Result<Self, TheoryError>)
        requires
            fret_count < usize::MAX,
            tuning_fits(
                *instrument_type,
                *tuning_type,
                *root_note,
                string_count as int,
                fret_count as int,
            ),
        ensures
            match made {
                Ok(instrument) => {
                    &&& tuning_of(
                        *instrument_type,
                        *tuning_type,
                        *root_note,
                        string_count as int,
                    ) matches Some(tuning)
                    &&& instrument@ == InstrumentView::made(
                        *instrument_type,
                        *tuning_type,
                        *root_note,
                        string_count as nat,
                        fret_count as nat,
                        tuning,
                    )
                    &&& instrument.consistent()
                },
                Err(error) => {
                    &&& error == TheoryError::UnsupportedInstrumentConfiguration
                    &&& tuning_of(*instrument_type, *tuning_type, *root_note, string_count as int)
                        is None
                },
            },
    {
        let mut instrument = Instrument {
            instrument_type: *instrument_type,
            tuning_type: *tuning_type,
            root_note: *root_note,
            string_count,
            fret_count,
            tuning: Vec::new(),
            fretboard: Vec::new(),
        };
        match instrument.calculate_tuning() {
            Ok(()) => {},
            Err(error) => {
                return Err(error);
            },
        }
        proof {
            let pattern = tuning_offsets(*instrument_type, *tuning_type)->0;
            lemma_offsets_rise(*instrument_type, *tuning_type);
            assert forall|string: int| 0 <= string < string_count implies (
            #[trigger] instrument.tuning@[string]).can_raise(fret_count as int) by {
                assert(pattern[string] <= pattern[string_count - 1]);
            }
            assert(instrument.tuning@.take(string_count as int) =~= instrument.tuning@);
        }
        instrument.calculate_notes();
        Ok(instrument)
    }

    /// Derives the fretboard from the tuning again: one row for each string,
    /// from the open string to the last fret, every position shown.
    pub fn calculate_notes(self: &mut Self)
        requires
            old(self).fret_count < usize::MAX,
            old(self).string_count <= old(self).tuning.len(),
            forall|string: int|
                0 <= string < old(self).string_count ==> (#[trigger] old(self).tuning@[string])
                    .can_raise(old(self).fret_count as int),
        ensures
            final(self)@ == (InstrumentView {
                fretboard: board_of(
                    old(self).tuning@.take(old(self).string_count as int),
                    old(self).fret_count as int,
                ),
                ..old(self)@
            }),
    {
        let mut notes: Vec<Vec<NoteDisplay>> = Vec::new();
        let mut i: usize = 0;
        while i < self.string_count
            invariant
                i <= self.string_count,
                *self == *old(self),
                self.fret_count < usize::MAX,
                self.string_count <= self.tuning.len(),
                forall|string: int|
                    0 <= string < self.string_count ==> (#[trigger] self.tuning@[string])
                        .can_raise(self.fret_count as int),
                notes@.len() == i,
                forall|string: int|
                    0 <= string < i ==> (#[trigger] notes@[string])@ == string_of(
                        self.tuning@[string],
                        self.fret_count as int,
                    ),
            decreases self.string_count - i,
        {
            let mut musical_string: Vec<NoteDisplay> = Vec::new();
            let open_note: NotePitch = self.tuning[i];
            let mut j: usize = 0;
            while j < self.fret_count + 1
                invariant
                    j <= self.fret_count + 1,
                    self.fret_count < usize::MAX,
                    open_note.can_raise(self.fret_count as int),
                    musical_string@.len() == j,
                    forall|fret: int|
                        0 <= fret < j ==> #[trigger] musical_string@[fret] == (NoteDisplay {
                            note_pitch: open_note.fretted(fret),
                            is_displayed: true,
                        }),
                decreases self.fret_count + 1 - j,
            {
                musical_string.push(
                    NoteDisplay {
                        note_pitch: NotePitch::find_note(&open_note, j),
                        is_displayed: true,
                    },
                );
                j = j + 1;
            }
            assert(musical_string@ =~= string_of(open_note, self.fret_count as int));
            notes.push(musical_string);
            i = i + 1;
        }
        self.fretboard = notes;
        assert(self@.fretboard =~= board_of(
            old(self).tuning@.take(old(self).string_count as int),
            old(self).fret_count as int,
        ));
    }

    /// Derives the tuning from the family, the style, the root and the
    /// number of strings again. Where no tuning is defined for them, the
    /// instrument is left as it was.
    pub fn calculate_tuning(self: &mut Self) -> (outcome: Result<(), TheoryError>)
        requires
            tuning_fits(
                old(self).instrument_type,
                old(self).tuning_type,
                old(self).root_note,
                old(self).string_count as int,
                0,
            ),
        ensures
            match outcome {
                Ok(()) => {
                    &&& tuning_of(
                        old(self).instrument_type,
                        old(self).tuning_type,
                        old(self).root_note,
                        old(self).string_count as int,
                    ) matches Some(tuning)
                    &&& final(self)@ == (InstrumentView { tuning, ..old(self)@ })
                },
                Err(error) => {
                    &&& error == TheoryError::UnsupportedInstrumentConfiguration
                    &&& tuning_of(
                        old(self).instrument_type,
                        old(self).tuning_type,
                        old(self).root_note,
                        old(self).string_count as int,
                    ) is None
                    &&& *final(self) == *old(self)
                },
            },
    {
        let offsets: Vec<usize> = match offsets_of(&self.instrument_type, &self.tuning_type) {
            Some(offsets) => offsets,
            None => {
                return Err(TheoryError::UnsupportedInstrumentConfiguration);
            },
        };
        let ghost pattern = tuning_offsets(self.instrument_type, self.tuning_type)->0;
        if self.string_count > offsets.len() {
            return Err(TheoryError::UnsupportedInstrumentConfiguration);
        }
        let mut tuning: Vec<NotePitch> = Vec::new();
        let mut i: usize = 0;
        while i < self.string_count
            invariant
                i <= self.string_count <= offsets@.len(),
                *self == *old(self),
                tuning_offsets(self.instrument_type, self.tuning_type) == Some(pattern),
                pattern.len() == offsets@.len(),
                forall|k: int| 0 <= k < offsets@.len() ==> pattern[k] == #[trigger] offsets@[k],
                tuning_fits(
                    self.instrument_type,
                    self.tuning_type,
                    self.root_note,
                    self.string_count as int,
                    0,
                ),
                tuning@.len() == i,
                forall|k: int|
                    0 <= k < i ==> #[trigger] tuning@[k] == self.root_note.fretted(pattern[k]),
            decreases self.string_count - i,
        {
            proof {
                lemma_offsets_rise(self.instrument_type, self.tuning_type);
                assert(pattern[i as int] <= pattern[self.string_count - 1]);
            }
            tuning.push(NotePitch::find_note(&self.root_note, offsets[i]));
            i = i + 1;
        }
        self.tuning = tuning;
        assert(self.tuning@ =~= tuning_of(
            self.instrument_type,
            self.tuning_type,
            self.root_note,
            self.string_count as int,
        )->0);
        Ok(())
    }

    /// Shows every position of the fretboard.
    pub fn show_all(self: &mut Self)
        ensures
            final(self)@ == (InstrumentView {
                fretboard: board_shown(old(self)@.fretboard),
                ..old(self)@
            }),
            old(self).consistent() ==> final(self).consistent(),
    {
        let mut board: Vec<Vec<NoteDisplay>> = Vec::new();
        let mut i: usize = 0;
        while i < self.fretboard.len()
            invariant
                i <= self.fretboard.len(),
                *self == *old(self),
                board@.len() == i,
                forall|string: int|
                    0 <= string < i ==> (#[trigger] board@[string])@ == row_shown(
                        self.fretboard@[string]@,
                    ),
            decreases self.fretboard.len() - i,
        {
            let mut row: Vec<NoteDisplay> = Vec::new();
            let mut j: usize = 0;
            while j < self.fretboard[i].len()
                invariant
                    i < self.fretboard.len(),
                    j <= self.fretboard@[i as int]@.len(),
                    row@.len() == j,
                    forall|fret: int|
                        0 <= fret < j ==> #[trigger] row@[fret] == (NoteDisplay {
                            note_pitch: self.fretboard@[i as int]@[fret].note_pitch,
                            is_displayed: true,
                        }),
                decreases self.fretboard@[i as int]@.len() - j,
            {
                row.push(
                    NoteDisplay { note_pitch: self.fretboard[i][j].note_pitch, is_displayed: true },
                );
                j = j + 1;
            }
            assert(row@ =~= row_shown(self.fretboard@[i as int]@));
            board.push(row);
            i = i + 1;
        }
        self.fretboard = board;
        assert(self@.fretboard =~= board_shown(old(self)@.fretboard));
    }

    /// Shows the positions whose pitch belongs to one of the given pitch
    /// classes, in any octave and under any spelling, and hides the others.
    pub fn show_notes(self: &mut Self, notes: &Vec<NoteName>)
        ensures
            final(self)@ == (InstrumentView {
                fretboard: board_filtered(old(self)@.fretboard, notes@),
                ..old(self)@
            }),
            old(self).consistent() ==> final(self).consistent(),
    {
        let mut board: Vec<Vec<NoteDisplay>> = Vec::new();
        let mut i: usize = 0;
        while i < self.fretboard.len()
            invariant
                i <= self.fretboard.len(),
                *self == *old(self),
                board@.len() == i,
                forall|string: int|
                    0 <= string < i ==> (#[trigger] board@[string])@ == row_filtered(
                        self.fretboard@[string]@,
                        notes@,
                    ),
            decreases self.fretboard.len() - i,
        {
            let mut row: Vec<NoteDisplay> = Vec::new();
            let mut j: usize = 0;
            while j < self.fretboard[i].len()
                invariant
                    i < self.fretboard.len(),
                    j <= self.fretboard@[i as int]@.len(),
                    row@.len() == j,
                    forall|fret: int|
                        0 <= fret < j ==> #[trigger] row@[fret] == (NoteDisplay {
                            note_pitch: self.fretboard@[i as int]@[fret].note_pitch,
                            is_displayed: selects(
                                notes@,
                                self.fretboard@[i as int]@[fret].note_pitch,
                            ),
                        }),
                decreases self.fretboard@[i as int]@.len() - j,
            {
                let note_pitch: NotePitch = self.fretboard[i][j].note_pitch;
                let is_displayed: bool = is_selected(notes, &note_pitch);
                row.push(NoteDisplay { note_pitch, is_displayed });
                j = j + 1;
            }
            assert(row@ =~= row_filtered(self.fretboard@[i as int]@, notes@));
            board.push(row);
            i = i + 1;
        }
        self.fretboard = board;
        assert(self@.fretboard =~= board_filtered(old(self)@.fretboard, notes@));
    }

    /// Tells whether the neck can be drawn.
    pub fn can_draw(&self) -> (possible: bool)
        ensures
            possible == self@.drawable(),
    {
        if self.fret_count == usize::MAX || self.string_count > self.fretboard.len() {
            return false;
        }
        let mut string: usize = 0;
        while string < self.string_count
            invariant
                string <= self.string_count <= self.fretboard@.len(),
                forall|k: int|
                    0 <= k < string ==> (#[trigger] self@.fretboard[k]).len() > self.fret_count,
            decreases self.string_count - string,
        {
            if self.fretboard[string].len() <= self.fret_count {
                assert(self@.fretboard[string as int].len() <= self.fret_count);
                return false;
            }
            string = string + 1;
        }
        true
    }

    /// Draws the neck: a line for each string, the last string on top, with
    /// the shown positions in colour, and below them the numbers of the frets.
    pub fn to_text(&self) -> (text: String)
        requires
            self@.drawable(),
        ensures
            text@ == self@.text(),
    {
        let white_rgb = Rgb { red: 255, green: 255, blue: 255 };
        let ghost board = self@.fretboard;
        let mut text: String = String::new();
        let mut drawn: usize = 0;
        while drawn < self.string_count
            invariant
                drawn <= self.string_count,
                white_rgb == Rgb::white(),
                board == self@.fretboard,
                self.fret_count < usize::MAX,
                self.string_count <= self.fretboard@.len(),
                forall|string: int|
                    0 <= string < self.string_count ==> (#[trigger] board[string]).len()
                        > self.fret_count,
                text@ == lines_text(
                    board,
                    self.string_count as int,
                    self.fret_count as int,
                    drawn as int,
                ),
            decreases self.string_count - drawn,
        {
            let i: usize = self.string_count - drawn - 1;
            let ghost row = board[i as int].take(self.fret_count + 1);
            let label: String = write_number((self.string_count - i) as u64);
            text.append(paint(label.as_str(), white_rgb).as_str());
            text.append(" ");
            let ghost head = text@;
            let mut j: usize = 0;
            while j < self.fret_count + 1
                invariant
                    j <= self.fret_count + 1,
                    self.fret_count < usize::MAX,
                    i < self.string_count <= self.fretboard@.len(),
                    board == self@.fretboard,
                    board[i as int].len() > self.fret_count,
                    row == board[i as int].take(self.fret_count + 1),
                    text@ == head + row_text(row.take(j as int)),
                decreases self.fret_count + 1 - j,
            {
                let position: NoteDisplay = self.fretboard[i][j];
                let written: String = position.to_text();
                proof {
                    let longer = row.take(j + 1);
                    assert(longer.drop_last() =~= row.take(j as int));
                    assert(longer.last() == position);
                }
                let ghost so_far = text@;
                if has_mark(j) {
                    text.append("\x1b[4m");
                    text.append(written.as_str());
                    match position.note_pitch.note_name.accidental() {
                        None => {
                            text.append(" ");
                        },
                        Some(_accidental) => {},
                    }
                    text.append("\x1b[0m");
                } else {
                    text.append(written.as_str());
                    match position.note_pitch.note_name.accidental() {
                        None => {
                            text.append(" ");
                        },
                        Some(_accidental) => {},
                    }
                }
                text.append(" ");
                assert(text@ =~= so_far + position_text(position, j as int));
                j = j + 1;
                assert(text@ =~= head + row_text(row.take(j as int)));
            }
            assert(row.take(j as int) =~= row);
            text.append("\n");
            drawn = drawn + 1;
            assert(text@ =~= lines_text(
                board,
                self.string_count as int,
                self.fret_count as int,
                drawn as int,
            ));
        }
        text.append("  ");
        let ghost head = text@;
        let mut i: usize = 0;
        while i < self.fret_count + 1
            invariant
                i <= self.fret_count + 1,
                self.fret_count < usize::MAX,
                white_rgb == Rgb::white(),
                text@ == head + ruler_text(i as int),
            decreases self.fret_count + 1 - i,
        {
            let number: String = write_number(i as u64);
            text.append(paint(number.as_str(), white_rgb).as_str());
            if i <= 9 {
                text.append("   ");
            } else {
                text.append("  ");
            }
            i = i + 1;
            assert(text@ =~= head + ruler_text(i as int));
        }
        text.append("\n");
        assert(text@ =~= self@.text());
        text
    }

    /// Writes what the instrument is: its family, its numbers of strings and
    /// of frets, its tuning and its open strings.
    pub fn details(&self) -> (text: String)
        ensures
            text@ == self@.details(),
    {
        let mut text: String = String::from_str("Instrument Details:\n");
        text.append("\tType: ");
        text.append(self.instrument_type.to_text().as_str());
        text.append("\n");
        text.append("\tNumber of strings: ");
        text.append(write_number(self.string_count as u64).as_str());
        text.append("\n");
        text.append("\tNumber of frets: ");
        text.append(write_number(self.fret_count as u64).as_str());
        text.append("\n");
        text.append("\tTuning: ");
        text.append(self.root_note.note_name.to_text().as_str());
        text.append(" ");
        text.append(self.tuning_type.to_text().as_str());
        text.append("\n");
        text.append("\tOpen Notes: ");
        let ghost head = text@;
        let mut at: usize = 0;
        while at < self.tuning.len()
            invariant
                at <= self.tuning.len(),
                text@ == head + pitches_text(self.tuning@.take(at as int)),
            decreases self.tuning.len() - at,
        {
            proof {
                let longer = self.tuning@.take(at + 1);
                assert(longer.drop_last() =~= self.tuning@.take(at as int));
                assert(longer.last() == self.tuning@[at as int]);
            }
            text.append(self.tuning[at].to_text().as_str());
            text.append(" ");
            at = at + 1;
            assert(text@ =~= head + pitches_text(self.tuning@.take(at as int)));
        }
        assert(self.tuning@.take(at as int) =~= self.tuning@);
        text.append("\n");
        assert(text@ =~= self@.details());
        text
    }

    /// The number of positions that are shown.
    pub fn visible_count(&self) -> (count: usize)
        requires
            positions(self@.fretboard) <= usize::MAX,
        ensures
            count == shown_on(self@.fretboard),
    {
        let ghost board = self@.fretboard;
        let mut count: usize = 0;
        let mut i: usize = 0;
        while i < self.fretboard.len()
            invariant
                i <= self.fretboard.len(),
                board == self@.fretboard,
                board.len() == self.fretboard@.len(),
                positions(board) <= usize::MAX,
                count == shown_on(board.take(i as int)),
            decreases self.fretboard.len() - i,
        {
            let ghost row = board[i as int];
            proof {
                assert(board.take(i + 1).drop_last() =~= board.take(i as int));
                assert(board.take(i + 1).last() == row);
                lemma_positions_prefix(board, i + 1);
                lemma_shown_on_bound(board.take(i + 1));
            }
            let mut j: usize = 0;
            let ghost before = count;
            while j < self.fretboard[i].len()
                invariant
                    i < self.fretboard.len(),
                    row == self.fretboard@[i as int]@,
                    j <= row.len(),
                    count == before + shown_in_row(row.take(j as int)),
                    before + shown_in_row(row) <= usize::MAX,
                decreases row.len() - j,
            {
                proof {
                    assert(row.take(j + 1).drop_last() =~= row.take(j as int));
                    assert(row.take(j + 1).last() == row[j as int]);
                    lemma_shown_in_row_prefix(row, j + 1);
                }
                if self.fretboard[i][j].is_displayed {
                    count = count + 1;
                }
                j = j + 1;
            }
            assert(row.take(j as int) =~= row);
            i = i + 1;
        }
        assert(board.take(i as int) =~= board);
        count
    }

    /// The position at a fret of a string, if the fretboard has it. Strings
    /// and frets are counted from 0; fret 0 is the open string.
    pub fn note_at(&self, string: usize, fret: usize) -> (found: Result<NoteDisplay, TheoryError>)
        ensures
            match found {
                Ok(position) => string < self@.fretboard.len() && fret
                    < self@.fretboard[string as int].len() && position
                    == self@.fretboard[string as int][fret as int],
                Err(error) => error == TheoryError::IndexOutOfRange && !(string
                    < self@.fretboard.len() && fret < self@.fretboard[string as int].len()),
            },
    {
        if string < self.fretboard.len() {
            if fret < self.fretboard[string].len() {
                return Ok(self.fretboard[string][fret]);
            }
        }
        Err(TheoryError::IndexOutOfRange)
    }
}

} // verus!
