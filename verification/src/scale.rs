//! Scales: a pattern of steps walked upward from a root.

use vstd::prelude::*;
use crate::color::{paint, painted, Rgb};
use crate::note::{notes_text, write_notes, NoteName, Step};
use crate::pitch::NotePitch;
use crate::scale_catalog::{ScaleDef, ScaleDefView};
use crate::text::{to_upper, uppercase};

verus! {

/// The notes of a scale: the root, then one note for each step, each a step
/// above the note before it.
pub open spec fn scale_notes(root: NoteName, steps: Seq<Step>) -> Seq<NoteName>
    decreases steps.len(),
{
    if steps.len() == 0 {
        seq![root]
    } else {
        let lower = scale_notes(root, steps.drop_last());
        lower.push(lower.last().raised(steps.last().semitones()))
    }
}

/// The pitches of a scale: the root, then one pitch for each step, each a
/// step above the pitch before it.
pub open spec fn scale_pitches(root: NotePitch, steps: Seq<Step>) -> Seq<NotePitch>
    decreases steps.len(),
{
    if steps.len() == 0 {
        seq![root]
    } else {
        let lower = scale_pitches(root, steps.drop_last());
        lower.push(lower.last().raised(steps.last().semitones()))
    }
}

/// The semitones covered by a run of steps.
pub open spec fn span(steps: Seq<Step>) -> int
    decreases steps.len(),
{
    if steps.len() == 0 {
        0
    } else {
        span(steps.drop_last()) + steps.last().semitones()
    }
}

/// A scale has one note more than it has steps; it starts on its root, and
/// each later note lies one step above the note before it.
pub proof fn lemma_scale_notes(root: NoteName, steps: Seq<Step>)
    ensures
        scale_notes(root, steps).len() == steps.len() + 1,
        scale_notes(root, steps)[0] == root,
        forall|i: int|
            0 <= i < steps.len() ==> scale_notes(root, steps)[i + 1] == scale_notes(
                root,
                steps,
            )[i].raised((#[trigger] steps[i]).semitones()),
    decreases steps.len(),
{
    if steps.len() > 0 {
        let shorter = steps.drop_last();
        lemma_scale_notes(root, shorter);
        let lower = scale_notes(root, shorter);
        let notes = scale_notes(root, steps);
        assert(notes == lower.push(lower.last().raised(steps.last().semitones())));
        assert forall|i: int| 0 <= i < steps.len() implies notes[i + 1] == notes[i].raised(
            (#[trigger] steps[i]).semitones(),
        ) by {
            if i + 1 < steps.len() {
                assert(shorter[i] == steps[i]);
                assert(notes[i + 1] == lower[i + 1]);
                assert(notes[i] == lower[i]);
            }
        }
    }
}

/// A pitch scale has one pitch more than it has steps; it starts on its
/// root, and each later pitch lies one step above the pitch before it.
pub proof fn lemma_scale_pitches(root: NotePitch, steps: Seq<Step>)
    ensures
        scale_pitches(root, steps).len() == steps.len() + 1,
        scale_pitches(root, steps)[0] == root,
        forall|i: int|
            0 <= i < steps.len() ==> scale_pitches(root, steps)[i + 1] == scale_pitches(
                root,
                steps,
            )[i].raised((#[trigger] steps[i]).semitones()),
    decreases steps.len(),
{
    if steps.len() > 0 {
        let shorter = steps.drop_last();
        lemma_scale_pitches(root, shorter);
        let lower = scale_pitches(root, shorter);
        let pitches = scale_pitches(root, steps);
        assert(pitches == lower.push(lower.last().raised(steps.last().semitones())));
        assert forall|i: int| 0 <= i < steps.len() implies pitches[i + 1] == pitches[i].raised(
            (#[trigger] steps[i]).semitones(),
        ) by {
            if i + 1 < steps.len() {
                assert(shorter[i] == steps[i]);
                assert(pitches[i + 1] == lower[i + 1]);
                assert(pitches[i] == lower[i]);
            }
        }
    }
}

/// A scale pattern bound to a root.
#[derive(Debug, PartialEq, Eq)]
pub struct Scale {
    pub definition: ScaleDef,
    pub name: String,
    pub notes: Vec<NoteName>,
}

/// What a scale holds: its pattern, its full name and its notes in order.
pub struct ScaleView {
    pub definition: ScaleDefView,
    pub name: Seq<char>,
    pub notes: Seq<NoteName>,
}

impl View for Scale {
    type V = ScaleView;

    open spec fn view(&self) -> ScaleView {
        ScaleView { definition: self.definition@, name: self.name@, notes: self.notes@ }
    }
}

impl ScaleView {
    /// This scale as it is shown, on a line of its own: its name, the word
    /// `scale:`, and its notes.
    pub open spec fn text(self) -> Seq<char> {
        painted(self.name, Rgb::white()) + " "@ + painted("scale: "@, Rgb::white()) + notes_text(
            self.notes,
        ) + "\n"@
    }
}

impl Clone for Scale {
    fn clone(&self) -> (copy: Self)
        ensures
            copy@ == self@,
    {
        let mut notes: Vec<NoteName> = Vec::new();
        let mut at: usize = 0;
        while at < self.notes.len()
            invariant
                at <= self.notes.len(),
                notes@ == self.notes@.take(at as int),
            decreases self.notes.len() - at,
        {
            notes.push(self.notes[at]);
            at += 1;
        }
        assert(notes@ =~= self.notes@);
        Scale { definition: self.definition.clone(), name: self.name.clone(), notes }
    }
}

impl Scale {
    /// The scale that a pattern gives on a root: named by the root and the
    /// pattern, with the notes that the steps of the pattern reach.
    pub open spec fn built(root: NoteName, definition: ScaleDefView) -> ScaleView {
        ScaleView {
            definition,
            name: root.name_text() + " "@ + definition.name,
            notes: scale_notes(root, definition.steps),
        }
    }

    /// Builds a pattern on a root.
    pub fn new(root_note: &NoteName, definition: &ScaleDef) -> (scale: Self)
        ensures
            scale@ == Scale::built(*root_note, definition@),
    {
        let mut notes: Vec<NoteName> = Vec::new();
        notes.push(*root_note);
        let mut count: usize = 0;
        while count < definition.steps.len()
            invariant
                count <= definition.steps.len(),
                notes.len() == count + 1,
                notes@ == scale_notes(*root_note, definition.steps@.take(count as int)),
            decreases definition.steps.len() - count,
        {
            let next: NoteName = NoteName::up_step(&notes[count], &definition.steps[count]);
            proof {
                let longer = definition.steps@.take(count + 1);
                assert(longer.drop_last() =~= definition.steps@.take(count as int));
                assert(longer.last() == definition.steps@[count as int]);
            }
            notes.push(next);
            count = count + 1;
        }
        assert(definition.steps@.take(count as int) =~= definition.steps@);
        let name: String = root_note.get_name().concat(" ").concat(definition.name.as_str());
        Scale { definition: definition.clone(), name, notes }
    }

    /// Writes this scale as it is shown.
    pub fn to_text(&self) -> (text: String)
        ensures
            text@ == self@.text(),
    {
        let white_rgb = Rgb { red: 255, green: 255, blue: 255 };
        let mut text: String = paint(self.name.as_str(), white_rgb);
        text.append(" ");
        text.append(paint("scale: ", white_rgb).as_str());
        text.append(write_notes(&self.notes).as_str());
        text.append("\n");
        assert(text@ =~= self@.text());
        text
    }

    /// Builds on a root the scale at a place of the catalogue.
    pub fn from_number(key: &NoteName, input: i8) -> (scale: Option<Self>)
        ensures
            match scale {
                Some(found) => 0 <= input < crate::scale_catalog::SCALE_COUNT && found@
                    == Scale::built(*key, ScaleDef::catalog(input as int)),
                None => !(0 <= input < crate::scale_catalog::SCALE_COUNT),
            },
    {
        match ScaleDef::from_number(input) {
            Some(definition) => Some(Scale::new(key, &definition)),
            None => None,
        }
    }

    /// Builds on a root the scale that a name asks for, in either case.
    pub fn from_string(key: &NoteName, input: String) -> (scale: Option<Self>)
        ensures
            match scale {
                Some(found) => ScaleDef::place_of(uppercase(input@)) matches Some(index)
                    && found@ == Scale::built(*key, ScaleDef::catalog(index)),
                None => ScaleDef::place_of(uppercase(input@)) is None,
            },
    {
        let upper: String = to_upper(input.as_str());
        Scale::from_keyword(key, upper.as_str())
    }

    /// Builds on a root the scale that an upper-case name asks for.
    pub fn from_keyword(key: &NoteName, keyword: &str) -> (scale: Option<Self>)
        ensures
            match scale {
                Some(found) => ScaleDef::place_of(keyword@) matches Some(index) && found@
                    == Scale::built(*key, ScaleDef::catalog(index)),
                None => ScaleDef::place_of(keyword@) is None,
            },
    {
        match ScaleDef::find(keyword) {
            Some(index) => Scale::from_number(key, index),
            None => None,
        }
    }

    /// The pitches of a pattern walked upward from a root pitch.
    pub fn pitches(root_note: &NotePitch, definition: &ScaleDef) -> (pitches: Vec<NotePitch>)
        requires
            root_note.can_raise(span(definition.steps@)),
        ensures
            pitches@ == scale_pitches(*root_note, definition.steps@),
    {
        let mut pitches: Vec<NotePitch> = Vec::new();
        pitches.push(*root_note);
        let mut count: usize = 0;
        while count < definition.steps.len()
            invariant
                count <= definition.steps.len(),
                pitches.len() == count + 1,
                pitches@ == scale_pitches(*root_note, definition.steps@.take(count as int)),
                pitches@[count as int] == root_note.fretted(
                    span(definition.steps@.take(count as int)),
                ),
                root_note.can_raise(span(definition.steps@)),
            decreases definition.steps.len() - count,
        {
            proof {
                let longer = definition.steps@.take(count + 1);
                assert(longer.drop_last() =~= definition.steps@.take(count as int));
                assert(longer.last() == definition.steps@[count as int]);
                lemma_span_prefix(definition.steps@, count + 1);
                lemma_span_nonnegative(definition.steps@.take(count as int));
            }
            let next: NotePitch = NotePitch::up_step(&pitches[count], &definition.steps[count]);
            pitches.push(next);
            count = count + 1;
        }
        assert(definition.steps@.take(count as int) =~= definition.steps@);
        pitches
    }
}

/// A run of steps covers no negative distance.
pub proof fn lemma_span_nonnegative(steps: Seq<Step>)
    ensures
        span(steps) >= steps.len(),
    decreases steps.len(),
{
    if steps.len() > 0 {
        lemma_span_nonnegative(steps.drop_last());
    }
}

/// The first steps of a run cover no more than the whole run.
pub proof fn lemma_span_prefix(steps: Seq<Step>, count: int)
    requires
        0 <= count <= steps.len(),
    ensures
        span(steps.take(count)) <= span(steps),
    decreases steps.len(),
{
    if count == steps.len() {
        assert(steps.take(count) =~= steps);
    } else {
        lemma_span_prefix(steps.drop_last(), count);
        assert(steps.drop_last().take(count) =~= steps.take(count));
    }
}

} // verus!
