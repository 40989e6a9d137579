//! The catalogue of scales: each a name and the steps that lead from one
//! note of the scale to the next.

use vstd::prelude::*;
use crate::color::{paint, painted, Rgb};
use crate::note::Step;
use crate::text::same_text;

verus! {

/// A named pattern of steps.
#[derive(Debug, PartialEq, Eq)]
pub struct ScaleDef {
    pub name: String,
    pub steps: Vec<Step>,
}

/// What a scale pattern holds: its name and its steps in order.
pub struct ScaleDefView {
    pub name: Seq<char>,
    pub steps: Seq<Step>,
}

impl View for ScaleDef {
    type V = ScaleDefView;

    open spec fn view(&self) -> ScaleDefView {
        ScaleDefView { name: self.name@, steps: self.steps@ }
    }
}

impl Clone for ScaleDef {
    fn clone(&self) -> (copy: Self)
        ensures
            copy@ == self@,
    {
        let mut steps: Vec<Step> = Vec::new();
        let mut at: usize = 0;
        while at < self.steps.len()
            invariant
                at <= self.steps.len(),
                steps@ == self.steps@.take(at as int),
            decreases self.steps.len() - at,
        {
            steps.push(self.steps[at]);
            at += 1;
        }
        assert(steps@ =~= self.steps@);
        ScaleDef { name: self.name.clone(), steps }
    }
}

/// The marks of a run of steps as they are shown: each in white, each
/// followed by a space.
pub open spec fn steps_text(steps: Seq<Step>) -> Seq<char>
    decreases steps.len(),
{
    if steps.len() == 0 {
        Seq::empty()
    } else {
        steps_text(steps.drop_last()) + painted(steps.last().text(), Rgb::white()) + " "@
    }
}

impl ScaleDefView {
    /// This pattern as it is shown, on a line of its own: its name, the word
    /// `scale:`, and the marks of its steps.
    pub open spec fn text(self) -> Seq<char> {
        painted(self.name, Rgb::white()) + " "@ + painted("scale: "@, Rgb::white()) + steps_text(
            self.steps,
        ) + "\n"@
    }
}

/// The number of scales in the catalogue.
pub const SCALE_COUNT: i8 = 17;

impl ScaleDef {
    /// The steps of the scale at a place of the catalogue.
    pub open spec fn pattern(index: int) -> Seq<Step> {
        let whole = Step::Whole;
        let half = Step::Half;
        let wide = Step::OneAndAHalf;

        if index == 0 {
            seq![whole, whole, half, whole, whole, whole, half]
        } else if index == 1 {
            seq![whole, whole, half, whole, whole, whole, half]
        } else if index == 2 {
            seq![whole, half, whole, whole, whole, half, whole]
        } else if index == 3 {
            seq![half, whole, whole, whole, half, whole, whole]
        } else if index == 4 {
            seq![whole, whole, whole, half, whole, whole, half]
        } else if index == 5 {
            seq![whole, whole, half, whole, whole, half, whole]
        } else if index == 6 {
            seq![whole, half, whole, whole, half, whole, whole]
        } else if index == 7 {
            seq![half, whole, whole, half, whole, whole, whole]
        } else if index == 8 {
            seq![whole, half, whole, whole, half, whole, whole]
        } else if index == 9 {
            seq![whole, half, whole, whole, half, wide, half]
        } else if index == 10 {
            seq![whole, half, whole, whole, whole, whole, half]
        } else if index == 11 {
            seq![whole, half, whole, whole, half, whole, whole]
        } else if index == 12 {
            seq![half, half, half, half, half, half, half, half, half, half, half, half]
        } else if index == 13 {
            seq![whole, whole, whole, whole, whole, whole]
        } else if index == 14 {
            seq![whole, whole, wide, whole, wide]
        } else if index == 15 {
            seq![wide, whole, whole, wide, whole]
        } else {
            seq![wide, whole, half, half, wide, whole]
        }
    }

    /// The name of the scale at a place of the catalogue.
    pub open spec fn title(index: int) -> Seq<char> {
        if index == 0 {
            "Major"@
        } else if index == 1 {
            "Ionian"@
        } else if index == 2 {
            "Dorian"@
        } else if index == 3 {
            "Phrygian"@
        } else if index == 4 {
            "Lydian"@
        } else if index == 5 {
            "Mixolydian"@
        } else if index == 6 {
            "Aeolian"@
        } else if index == 7 {
            "Locrian"@
        } else if index == 8 {
            "Natural Minor"@
        } else if index == 9 {
            "Harmonic Minor"@
        } else if index == 10 {
            "Melodic Minor Ascending"@
        } else if index == 11 {
            "Melodic Minor Descending"@
        } else if index == 12 {
            "Chromatic"@
        } else if index == 13 {
            "Whole Tone"@
        } else if index == 14 {
            "Major Pentatonic"@
        } else if index == 15 {
            "Minor Pentatonic"@
        } else {
            "Blues"@
        }
    }

    /// The scale at a place of the catalogue, counted from 0.
    pub open spec fn catalog(index: int) -> ScaleDefView {
        ScaleDefView { name: ScaleDef::title(index), steps: ScaleDef::pattern(index) }
    }

    /// The place in the catalogue of the scale that an upper-case name asks for.
    pub open spec fn place_of(keyword: Seq<char>) -> Option<int> {
        if keyword == "MAJOR"@ {
            Some(0int)
        } else if keyword == "IONIAN"@ {
            Some(1int)
        } else if keyword == "DORIAN"@ {
            Some(2int)
        } else if keyword == "PHRYGIAN"@ {
            Some(3int)
        } else if keyword == "LYDIAN"@ {
            Some(4int)
        } else if keyword == "MIXOLYDIAN"@ {
            Some(5int)
        } else if keyword == "AEOLIAN"@ {
            Some(6int)
        } else if keyword == "LOCRIAN"@ {
            Some(7int)
        } else if keyword == "NATURAL MINOR"@ {
            Some(8int)
        } else if keyword == "HARMONIC MINOR"@ {
            Some(9int)
        } else if keyword == "MELODIC MINOR ASCENDING"@ {
            Some(10int)
        } else if keyword == "MELODIC MINOR DESCENDING"@ {
            Some(11int)
        } else if keyword == "CHROMATIC"@ {
            Some(12int)
        } else if keyword == "WHOLE TONE"@ {
            Some(13int)
        } else if keyword == "MAJOR PENTATONIC"@ {
            Some(14int)
        } else if keyword == "MINOR PENTATONIC"@ {
            Some(15int)
        } else if keyword == "BLUES"@ {
            Some(16int)
        } else {
            None
        }
    }

    pub fn new_major() -> (definition: Self)
        ensures
            definition@ == ScaleDef::catalog(0),
    {
        let mut steps: Vec<Step> = Vec::new();
        steps.push(Step::new_whole());
        steps.push(Step::new_whole());
        steps.push(Step::new_half());
        steps.push(Step::new_whole());
        steps.push(Step::new_whole());
        steps.push(Step::new_whole());
        steps.push(Step::new_half());
        assert(steps@ =~= ScaleDef::pattern(0));
        ScaleDef { name: String::from_str("Major"), steps }
    }

    pub fn new_ionian() -> (definition: Self)
        ensures
            definition@ == ScaleDef::catalog(1),
    {
        let mut steps: Vec<Step> = Vec::new();
        steps.push(Step::new_whole());
        steps.push(Step::new_whole());
        steps.push(Step::new_half());
        steps.push(Step::new_whole());
        steps.push(Step::new_whole());
        steps.push(Step::new_whole());
        steps.push(Step::new_half());
        assert(steps@ =~= ScaleDef::pattern(1));
        ScaleDef { name: String::from_str("Ionian"), steps }
    }

    pub fn new_dorian() -> (definition: Self)
        ensures
            definition@ == ScaleDef::catalog(2),
    {
        let mut steps: Vec<Step> = Vec::new();
        steps.push(Step::new_whole());
        steps.push(Step::new_half());
        steps.push(Step::new_whole());
        steps.push(Step::new_whole());
        steps.push(Step::new_whole());
        steps.push(Step::new_half());
        steps.push(Step::new_whole());
        assert(steps@ =~= ScaleDef::pattern(2));
        ScaleDef { name: String::from_str("Dorian"), steps }
    }

    pub fn new_phrygian() -> (definition: Self)
        ensures
            definition@ == ScaleDef::catalog(3),
    {
        let mut steps: Vec<Step> = Vec::new();
        steps.push(Step::new_half());
        steps.push(Step::new_whole());
        steps.push(Step::new_whole());
        steps.push(Step::new_whole());
        steps.push(Step::new_half());
        steps.push(Step::new_whole());
        steps.push(Step::new_whole());
        assert(steps@ =~= ScaleDef::pattern(3));
        ScaleDef { name: String::from_str("Phrygian"), steps }
    }

    pub fn new_lydian() -> (definition: Self)
        ensures
            definition@ == ScaleDef::catalog(4),
    {
        let mut steps: Vec<Step> = Vec::new();
        steps.push(Step::new_whole());
        steps.push(Step::new_whole());
        steps.push(Step::new_whole());
        steps.push(Step::new_half());
        steps.push(Step::new_whole());
        steps.push(Step::new_whole());
        steps.push(Step::new_half());
        assert(steps@ =~= ScaleDef::pattern(4));
        ScaleDef { name: String::from_str("Lydian"), steps }
    }

    pub fn new_mixolydian() -> (definition: Self)
        ensures
            definition@ == ScaleDef::catalog(5),
    {
        let mut steps: Vec<Step> = Vec::new();
        steps.push(Step::new_whole());
        steps.push(Step::new_whole());
        steps.push(Step::new_half());
        steps.push(Step::new_whole());
        steps.push(Step::new_whole());
        steps.push(Step::new_half());
        steps.push(Step::new_whole());
        assert(steps@ =~= ScaleDef::pattern(5));
        ScaleDef { name: String::from_str("Mixolydian"), steps }
    }

    pub fn new_aeolian() -> (definition: Self)
        ensures
            definition@ == ScaleDef::catalog(6),
    {
        let mut steps: Vec<Step> = Vec::new();
        steps.push(Step::new_whole());
        steps.push(Step::new_half());
        steps.push(Step::new_whole());
        steps.push(Step::new_whole());
        steps.push(Step::new_half());
        steps.push(Step::new_whole());
        steps.push(Step::new_whole());
        assert(steps@ =~= ScaleDef::pattern(6));
        ScaleDef { name: String::from_str("Aeolian"), steps }
    }

    pub fn new_locrian() -> (definition: Self)
        ensures
            definition@ == ScaleDef::catalog(7),
    {
        let mut steps: Vec<Step> = Vec::new();
        steps.push(Step::new_half());
        steps.push(Step::new_whole());
        steps.push(Step::new_whole());
        steps.push(Step::new_half());
        steps.push(Step::new_whole());
        steps.push(Step::new_whole());
        steps.push(Step::new_whole());
        assert(steps@ =~= ScaleDef::pattern(7));
        ScaleDef { name: String::from_str("Locrian"), steps }
    }

    pub fn new_natural_minor() -> (definition: Self)
        ensures
            definition@ == ScaleDef::catalog(8),
    {
        let mut steps: Vec<Step> = Vec::new();
        steps.push(Step::new_whole());
        steps.push(Step::new_half());
        steps.push(Step::new_whole());
        steps.push(Step::new_whole());
        steps.push(Step::new_half());
        steps.push(Step::new_whole());
        steps.push(Step::new_whole());
        assert(steps@ =~= ScaleDef::pattern(8));
        ScaleDef { name: String::from_str("Natural Minor"), steps }
    }

    pub fn new_harmonic_minor() -> (definition: Self)
        ensures
            definition@ == ScaleDef::catalog(9),
    {
        let mut steps: Vec<Step> = Vec::new();
        steps.push(Step::new_whole());
        steps.push(Step::new_half());
        steps.push(Step::new_whole());
        steps.push(Step::new_whole());
        steps.push(Step::new_half());
        steps.push(Step::new_one_and_a_half());
        steps.push(Step::new_half());
        assert(steps@ =~= ScaleDef::pattern(9));
        ScaleDef { name: String::from_str("Harmonic Minor"), steps }
    }

    pub fn new_melodic_minor_ascending() -> (definition: Self)
        ensures
            definition@ == ScaleDef::catalog(10),
    {
        let mut steps: Vec<Step> = Vec::new();
        steps.push(Step::new_whole());
        steps.push(Step::new_half());
        steps.push(Step::new_whole());
        steps.push(Step::new_whole());
        steps.push(Step::new_whole());
        steps.push(Step::new_whole());
        steps.push(Step::new_half());
        assert(steps@ =~= ScaleDef::pattern(10));
        ScaleDef { name: String::from_str("Melodic Minor Ascending"), steps }
    }

    pub fn new_melodic_minor_descending() -> (definition: Self)
        ensures
            definition@ == ScaleDef::catalog(11),
    {
        let mut steps: Vec<Step> = Vec::new();
        steps.push(Step::new_whole());
        steps.push(Step::new_half());
        steps.push(Step::new_whole());
        steps.push(Step::new_whole());
        steps.push(Step::new_half());
        steps.push(Step::new_whole());
        steps.push(Step::new_whole());
        assert(steps@ =~= ScaleDef::pattern(11));
        ScaleDef { name: String::from_str("Melodic Minor Descending"), steps }
    }

    pub fn new_chromatic() -> (definition: Self)
        ensures
            definition@ == ScaleDef::catalog(12),
    {
        let mut steps: Vec<Step> = Vec::new();
        steps.push(Step::new_half());
        steps.push(Step::new_half());
        steps.push(Step::new_half());
        steps.push(Step::new_half());
        steps.push(Step::new_half());
        steps.push(Step::new_half());
        steps.push(Step::new_half());
        steps.push(Step::new_half());
        steps.push(Step::new_half());
        steps.push(Step::new_half());
        steps.push(Step::new_half());
        steps.push(Step::new_half());
        assert(steps@ =~= ScaleDef::pattern(12));
        ScaleDef { name: String::from_str("Chromatic"), steps }
    }

    pub fn new_whole_tone() -> (definition: Self)
        ensures
            definition@ == ScaleDef::catalog(13),
    {
        let mut steps: Vec<Step> = Vec::new();
        steps.push(Step::new_whole());
        steps.push(Step::new_whole());
        steps.push(Step::new_whole());
        steps.push(Step::new_whole());
        steps.push(Step::new_whole());
        steps.push(Step::new_whole());
        assert(steps@ =~= ScaleDef::pattern(13));
        ScaleDef { name: String::from_str("Whole Tone"), steps }
    }

    pub fn new_major_pentatonic() -> (definition: Self)
        ensures
            definition@ == ScaleDef::catalog(14),
    {
        let mut steps: Vec<Step> = Vec::new();
        steps.push(Step::new_whole());
        steps.push(Step::new_whole());
        steps.push(Step::new_one_and_a_half());
        steps.push(Step::new_whole());
        steps.push(Step::new_one_and_a_half());
        assert(steps@ =~= ScaleDef::pattern(14));
        ScaleDef { name: String::from_str("Major Pentatonic"), steps }
    }

    pub fn new_minor_pentatonic() -> (definition: Self)
        ensures
            definition@ == ScaleDef::catalog(15),
    {
        let mut steps: Vec<Step> = Vec::new();
        steps.push(Step::new_one_and_a_half());
        steps.push(Step::new_whole());
        steps.push(Step::new_whole());
        steps.push(Step::new_one_and_a_half());
        steps.push(Step::new_whole());
        assert(steps@ =~= ScaleDef::pattern(15));
        ScaleDef { name: String::from_str("Minor Pentatonic"), steps }
    }

    pub fn new_blues() -> (definition: Self)
        ensures
            definition@ == ScaleDef::catalog(16),
    {
        let mut steps: Vec<Step> = Vec::new();
        steps.push(Step::new_one_and_a_half());
        steps.push(Step::new_whole());
        steps.push(Step::new_half());
        steps.push(Step::new_half());
        steps.push(Step::new_one_and_a_half());
        steps.push(Step::new_whole());
        assert(steps@ =~= ScaleDef::pattern(16));
        ScaleDef { name: String::from_str("Blues"), steps }
    }

    /// Writes this pattern as it is shown.
    pub fn to_text(&self) -> (text: String)
        ensures
            text@ == self@.text(),
    {
        let white_rgb = Rgb { red: 255, green: 255, blue: 255 };
        let mut text: String = paint(self.name.as_str(), white_rgb);
        text.append(" ");
        text.append(paint("scale: ", white_rgb).as_str());
        let ghost head = text@;
        let mut at: usize = 0;
        while at < self.steps.len()
            invariant
                at <= self.steps.len(),
                white_rgb == Rgb::white(),
                text@ == head + steps_text(self.steps@.take(at as int)),
            decreases self.steps.len() - at,
        {
            let mark: String = self.steps[at].to_text();
            proof {
                let longer = self.steps@.take(at + 1);
                assert(longer.drop_last() =~= self.steps@.take(at as int));
                assert(longer.last() == self.steps@[at as int]);
            }
            text.append(paint(mark.as_str(), white_rgb).as_str());
            text.append(" ");
            at = at + 1;
            assert(text@ =~= head + steps_text(self.steps@.take(at as int)));
        }
        assert(self.steps@.take(at as int) =~= self.steps@);
        text.append("\n");
        assert(text@ =~= self@.text());
        text
    }

    /// The scale at a place of the catalogue, if the catalogue has that place.
    pub fn from_number(input: i8) -> (definition: Option<Self>)
        ensures
            definition is Some <==> 0 <= input < SCALE_COUNT,
            definition matches Some(found) ==> found@ == ScaleDef::catalog(input as int),
    {
        match input {
            0 => Some(ScaleDef::new_major()),
            1 => Some(ScaleDef::new_ionian()),
            2 => Some(ScaleDef::new_dorian()),
            3 => Some(ScaleDef::new_phrygian()),
            4 => Some(ScaleDef::new_lydian()),
            5 => Some(ScaleDef::new_mixolydian()),
            6 => Some(ScaleDef::new_aeolian()),
            7 => Some(ScaleDef::new_locrian()),
            8 => Some(ScaleDef::new_natural_minor()),
            9 => Some(ScaleDef::new_harmonic_minor()),
            10 => Some(ScaleDef::new_melodic_minor_ascending()),
            11 => Some(ScaleDef::new_melodic_minor_descending()),
            12 => Some(ScaleDef::new_chromatic()),
            13 => Some(ScaleDef::new_whole_tone()),
            14 => Some(ScaleDef::new_major_pentatonic()),
            15 => Some(ScaleDef::new_minor_pentatonic()),
            16 => Some(ScaleDef::new_blues()),
            _ => None,
        }
    }

    /// The place in the catalogue of the scale that an upper-case name asks for.
    pub fn find(keyword: &str) -> (place: Option<i8>)
        ensures
            place matches Some(index) ==> ScaleDef::place_of(keyword@) == Some(index as int),
            place is None ==> ScaleDef::place_of(keyword@) is None,
    {
        if same_text(keyword, "MAJOR") {
            Some(0)
        } else if same_text(keyword, "IONIAN") {
            Some(1)
        } else if same_text(keyword, "DORIAN") {
            Some(2)
        } else if same_text(keyword, "PHRYGIAN") {
            Some(3)
        } else if same_text(keyword, "LYDIAN") {
            Some(4)
        } else if same_text(keyword, "MIXOLYDIAN") {
            Some(5)
        } else if same_text(keyword, "AEOLIAN") {
            Some(6)
        } else if same_text(keyword, "LOCRIAN") {
            Some(7)
        } else if same_text(keyword, "NATURAL MINOR") {
            Some(8)
        } else if same_text(keyword, "HARMONIC MINOR") {
            Some(9)
        } else if same_text(keyword, "MELODIC MINOR ASCENDING") {
            Some(10)
        } else if same_text(keyword, "MELODIC MINOR DESCENDING") {
            Some(11)
        } else if same_text(keyword, "CHROMATIC") {
            Some(12)
        } else if same_text(keyword, "WHOLE TONE") {
            Some(13)
        } else if same_text(keyword, "MAJOR PENTATONIC") {
            Some(14)
        } else if same_text(keyword, "MINOR PENTATONIC") {
            Some(15)
        } else if same_text(keyword, "BLUES") {
            Some(16)
        } else {
            None
        }
    }
}

} // verus!
