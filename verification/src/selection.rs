//! The notes that a user has selected: kept in the order of their
//! semitones, added to, and taken away from.

use vstd::prelude::*;
use crate::note::NoteName;

verus! {

/// A run of notes in the order of their semitones with one more note put
/// in: after every note of the run that is not higher than it.
pub open spec fn inserted(run: Seq<NoteName>, note: NoteName) -> Seq<NoteName>
    decreases run.len(),
{
    if run.len() == 0 {
        seq![note]
    } else if run.last().semitone() <= note.semitone() {
        run.push(note)
    } else {
        inserted(run.drop_last(), note).push(run.last())
    }
}

/// The notes in the order of their semitones, from C upward. Notes of one
/// semitone keep the order in which they came.
pub open spec fn ordered(notes: Seq<NoteName>) -> Seq<NoteName>
    decreases notes.len(),
{
    if notes.len() == 0 {
        Seq::empty()
    } else {
        inserted(ordered(notes.drop_last()), notes.last())
    }
}

/// Whether no note of a run is followed by a note of a lower semitone.
pub open spec fn rising(notes: Seq<NoteName>) -> bool {
    forall|i: int, j: int|
        0 <= i <= j < notes.len() ==> (#[trigger] notes[i]).semitone() <= (
        #[trigger] notes[j]).semitone()
}

/// Putting a note into a run at the place behind which every note is
/// higher, and before which none is, is what `inserted` does.
pub proof fn lemma_inserted_at(run: Seq<NoteName>, note: NoteName, place: int)
    requires
        0 <= place <= run.len(),
        forall|i: int| place <= i < run.len() ==> (#[trigger] run[i]).semitone() > note.semitone(),
        place > 0 ==> run[place - 1].semitone() <= note.semitone(),
    ensures
        inserted(run, note) == run.insert(place, note),
    decreases run.len(),
{
    if place == run.len() {
        assert(run.insert(place, note) =~= run.push(note));
    } else {
        assert(run.last().semitone() > note.semitone());
        lemma_inserted_at(run.drop_last(), note, place);
        assert(run.drop_last().insert(place, note).push(run.last()) =~= run.insert(place, note));
    }
}

/// Putting a note into a rising run gives a rising run that holds the notes
/// of the run and the note, each as often as before.
pub proof fn lemma_inserted(run: Seq<NoteName>, note: NoteName)
    requires
        rising(run),
    ensures
        rising(inserted(run, note)),
        inserted(run, note).len() == run.len() + 1,
        inserted(run, note).to_multiset() == run.to_multiset().insert(note),
    decreases run.len(),
{
    broadcast use vstd::seq_lib::to_multiset_build;

    if run.len() == 0 {
        assert(seq![note] =~= run.push(note));
    } else if run.last().semitone() <= note.semitone() {
        let longer = run.push(note);
        assert forall|i: int, j: int| 0 <= i <= j < longer.len() implies (
        #[trigger] longer[i]).semitone() <= (#[trigger] longer[j]).semitone() by {
            if j == run.len() {
                if i < run.len() {
                    assert(run[i].semitone() <= run.last().semitone());
                }
            } else {
                assert(run[i].semitone() <= run[j].semitone());
            }
        }
    } else {
        let shorter = run.drop_last();
        assert forall|i: int, j: int| 0 <= i <= j < shorter.len() implies (
        #[trigger] shorter[i]).semitone() <= (#[trigger] shorter[j]).semitone() by {
            assert(run[i].semitone() <= run[j].semitone());
        }
        lemma_inserted(shorter, note);
        let inner = inserted(shorter, note);
        let longer = inner.push(run.last());
        assert(run =~= shorter.push(run.last()));
        assert(longer.to_multiset() =~= run.to_multiset().insert(note));
        assert forall|k: int| 0 <= k < inner.len() implies (#[trigger] inner[k]).semitone()
            <= run.last().semitone() by {
            assert(inner.to_multiset().count(inner[k]) > 0) by {
                inner.to_multiset_ensures();
                assert(inner.contains(inner[k]));
            }
            if inner[k] != note {
                assert(shorter.to_multiset().count(inner[k]) > 0);
                shorter.to_multiset_ensures();
                assert(shorter.contains(inner[k]));
                let at = choose|at: int| 0 <= at < shorter.len() && shorter[at] == inner[k];
                assert(run[at].semitone() <= run[run.len() - 1].semitone());
            }
        }
        assert forall|i: int, j: int| 0 <= i <= j < longer.len() implies (
        #[trigger] longer[i]).semitone() <= (#[trigger] longer[j]).semitone() by {
            if j < inner.len() {
                assert(inner[i].semitone() <= inner[j].semitone());
            } else if i < inner.len() {
                assert(inner[i].semitone() <= run.last().semitone());
            }
        }
    }
}

/// Ordering notes gives the same notes, each as often as before, in a run
/// in which no note is followed by a note of a lower semitone.
pub proof fn lemma_ordered(notes: Seq<NoteName>)
    ensures
        rising(ordered(notes)),
        ordered(notes).len() == notes.len(),
        ordered(notes).to_multiset() == notes.to_multiset(),
    decreases notes.len(),
{
    broadcast use vstd::seq_lib::to_multiset_build;

    if notes.len() > 0 {
        lemma_ordered(notes.drop_last());
        lemma_inserted(ordered(notes.drop_last()), notes.last());
        assert(notes =~= notes.drop_last().push(notes.last()));
    } else {
        assert(notes =~= Seq::<NoteName>::empty());
    }
}

/// Puts notes in the order of their semitones, from C upward. Notes of one
/// semitone keep the order in which they came.
pub fn sort_notes(notes: &Vec<NoteName>) -> (sorted: Vec<NoteName>)
    ensures
        sorted@ == ordered(notes@),
{
    let mut sorted: Vec<NoteName> = Vec::new();
    let mut at: usize = 0;
    while at < notes.len()
        invariant
            at <= notes.len(),
            sorted@ == ordered(notes@.take(at as int)),
        decreases notes.len() - at,
    {
        let note: NoteName = notes[at];
        let number: i8 = NoteName::to_number(&note);
        let mut place: usize = sorted.len();
        while place > 0 && NoteName::to_number(&sorted[place - 1]) > number
            invariant
                place <= sorted.len(),
                number == note.semitone(),
                forall|i: int|
                    place <= i < sorted@.len() ==> (#[trigger] sorted@[i]).semitone()
                        > note.semitone(),
            decreases place,
        {
            place = place - 1;
        }
        proof {
            lemma_inserted_at(sorted@, note, place as int);
            let longer = notes@.take(at + 1);
            assert(longer.drop_last() =~= notes@.take(at as int));
            assert(longer.last() == note);
        }
        sorted.insert(place, note);
        at = at + 1;
    }
    assert(notes@.take(at as int) =~= notes@);
    sorted
}

/// The place of the first note of a run that equals a note, spelling included.
pub open spec fn first_place(notes: Seq<NoteName>, note: NoteName) -> Option<int>
    decreases notes.len(),
{
    if notes.len() == 0 {
        None
    } else {
        match first_place(notes.drop_last(), note) {
            Some(place) => Some(place),
            None => if notes.last() == note {
                Some(notes.len() - 1)
            } else {
                None
            },
        }
    }
}

/// The first note of a run that equals a note stands where the note stands
/// and does not stand before; there is none where the note stands nowhere.
pub proof fn lemma_first_place(notes: Seq<NoteName>, note: NoteName)
    ensures
        match first_place(notes, note) {
            Some(place) => {
                &&& 0 <= place < notes.len()
                &&& notes[place] == note
                &&& forall|i: int| 0 <= i < place ==> notes[i] != note
            },
            None => forall|i: int| 0 <= i < notes.len() ==> notes[i] != note,
        },
    decreases notes.len(),
{
    if notes.len() > 0 {
        lemma_first_place(notes.drop_last(), note);
        let shorter = notes.drop_last();
        match first_place(shorter, note) {
            Some(place) => {
                assert(shorter[place] == notes[place]);
                assert forall|i: int| 0 <= i < place implies notes[i] != note by {
                    assert(shorter[i] == notes[i]);
                }
            },
            None => {
                assert forall|i: int| 0 <= i < notes.len() - 1 implies notes[i] != note by {
                    assert(shorter[i] == notes[i]);
                }
            },
        }
    }
}

/// Finds the first note of a run that equals a note, spelling included.
pub fn position_of(notes: &Vec<NoteName>, note: &NoteName) -> (place: Option<usize>)
    ensures
        match place {
            Some(at) => at < notes@.len() && first_place(notes@, *note) == Some(at as int),
            None => first_place(notes@, *note) is None,
        },
{
    let mut at: usize = 0;
    while at < notes.len()
        invariant
            at <= notes.len(),
            forall|i: int| 0 <= i < at ==> notes@[i] != *note,
        decreases notes.len() - at,
    {
        if notes[at] == *note {
            proof {
                lemma_first_place(notes@, *note);
            }
            return Some(at);
        }
        at = at + 1;
    }
    proof {
        lemma_first_place(notes@, *note);
    }
    None
}

/// Whether every wanted note stands among the notes, spelling included.
pub open spec fn holds_all(notes: Seq<NoteName>, wanted: Seq<NoteName>) -> bool {
    forall|k: int| 0 <= k < wanted.len() ==> notes.contains(#[trigger] wanted[k])
}

/// A note stands in a run just where the run has a first place for it.
pub proof fn lemma_contains(notes: Seq<NoteName>, note: NoteName)
    ensures
        notes.contains(note) <==> first_place(notes, note) is Some,
{
    lemma_first_place(notes, note);
}

/// Tells whether every wanted note stands among the notes, spelling included.
pub fn contains_all(notes: &Vec<NoteName>, wanted: &Vec<NoteName>) -> (all: bool)
    ensures
        all == holds_all(notes@, wanted@),
{
    let mut at: usize = 0;
    while at < wanted.len()
        invariant
            at <= wanted.len(),
            forall|k: int| 0 <= k < at ==> notes@.contains(#[trigger] wanted@[k]),
        decreases wanted.len() - at,
    {
        proof {
            lemma_contains(notes@, wanted@[at as int]);
        }
        match position_of(notes, &wanted[at]) {
            Some(_place) => {},
            None => {
                return false;
            },
        }
        at = at + 1;
    }
    true
}

/// The notes without the first one that equals a note, or all of them if none does.
pub open spec fn without_first(notes: Seq<NoteName>, note: NoteName) -> Seq<NoteName> {
    match first_place(notes, note) {
        Some(place) => notes.remove(place),
        None => notes,
    }
}

/// The notes that are left when notes are taken away one after the other,
/// each time the first that equals the one to take away.
pub open spec fn without(notes: Seq<NoteName>, taken: Seq<NoteName>) -> Seq<NoteName>
    decreases taken.len(),
{
    if taken.len() == 0 {
        notes
    } else {
        without_first(without(notes, taken.drop_last()), taken.last())
    }
}

/// The notes to take away that were not there when their turn came.
pub open spec fn not_found(notes: Seq<NoteName>, taken: Seq<NoteName>) -> Seq<NoteName>
    decreases taken.len(),
{
    if taken.len() == 0 {
        Seq::empty()
    } else if first_place(without(notes, taken.drop_last()), taken.last()) is Some {
        not_found(notes, taken.drop_last())
    } else {
        not_found(notes, taken.drop_last()).push(taken.last())
    }
}

/// Takes notes away from a run, one after the other, each time the first
/// that equals the one to take away, and gives back those that were not there.
pub fn remove_each(notes: &mut Vec<NoteName>, taken: &Vec<NoteName>) -> (absent: Vec<NoteName>)
    ensures
        final(notes)@ == without(old(notes)@, taken@),
        absent@ == not_found(old(notes)@, taken@),
{
    let mut absent: Vec<NoteName> = Vec::new();
    let mut at: usize = 0;
    while at < taken.len()
        invariant
            at <= taken.len(),
            notes@ == without(old(notes)@, taken@.take(at as int)),
            absent@ == not_found(old(notes)@, taken@.take(at as int)),
        decreases taken.len() - at,
    {
        proof {
            let longer = taken@.take(at + 1);
            assert(longer.drop_last() =~= taken@.take(at as int));
            assert(longer.last() == taken@[at as int]);
        }
        match position_of(notes, &taken[at]) {
            Some(index) => {
                notes.remove(index);
            },
            None => {
                absent.push(taken[at]);
            },
        }
        at = at + 1;
    }
    assert(taken@.take(at as int) =~= taken@);
    absent
}

} // verus!
