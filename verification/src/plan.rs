//! Which input objects a run works on, and why a second run finds none.

use crate::date::Day;
use crate::index::index_of;
use crate::index::ProcessedDateSet;
use crate::names::has_suffix;
use crate::names::input_date;
use crate::names::input_day;
use crate::names::input_suffix;
use crate::names::joined;
use crate::names::last_segment;
use crate::names::lemma_output_name_keeps_day;
use crate::names::output_day;
use crate::names::output_name_of;
use vstd::prelude::*;

verus! {

/// Whether an input object is passed over: its location carries a day, and
/// that day is done.
pub open spec fn skips(done: Set<Day>, location: Seq<char>) -> bool {
    match input_day(location) {
        Some(day) => done.contains(day),
        None => false,
    }
}

/// The input objects that are not passed over, in the order of the listing.
pub open spec fn outstanding(inputs: Seq<Seq<char>>, done: Set<Day>) -> Seq<Seq<char>>
    decreases inputs.len(),
{
    if inputs.len() == 0 {
        Seq::empty()
    } else {
        let before = outstanding(inputs.drop_last(), done);
        if skips(done, inputs.last()) {
            before
        } else {
            before.push(inputs.last())
        }
    }
}

/// Where the artifacts of a list of input objects are written under `prefix`.
pub open spec fn artifact_locations(prefix: Seq<char>, work: Seq<Seq<char>>) -> Seq<Seq<char>> {
    Seq::new(work.len(), |i: int| joined(prefix, output_name_of(work[i])))
}

/// Whether every item of `items` occurs in `listing`.
pub open spec fn holds_all(listing: Seq<Seq<char>>, items: Seq<Seq<char>>) -> bool {
    forall|i: int| 0 <= i < items.len() ==> listing.contains(#[trigger] items[i])
}

/// An input object whose location carries no date is never passed over,
/// whatever is done.
pub proof fn lemma_undated_input_is_never_skipped(done: Set<Day>, location: Seq<char>)
    requires
        input_day(location) is None,
    ensures
        !skips(done, location),
{
}

/// Every input object that is not passed over is outstanding, and every
/// outstanding one is an input object that is not passed over.
pub proof fn lemma_outstanding_members(inputs: Seq<Seq<char>>, done: Set<Day>)
    ensures
        forall|i: int|
            0 <= i < inputs.len() && !skips(done, #[trigger] inputs[i]) ==> outstanding(
                inputs,
                done,
            ).contains(inputs[i]),
        forall|j: int|
            0 <= j < outstanding(inputs, done).len() ==> inputs.contains(
                #[trigger] outstanding(inputs, done)[j],
            ) && !skips(done, outstanding(inputs, done)[j]),
    decreases inputs.len(),
{
    let work = outstanding(inputs, done);
    if inputs.len() > 0 {
        let shorter = inputs.drop_last();
        let before = outstanding(shorter, done);
        lemma_outstanding_members(shorter, done);
        assert forall|i: int| 0 <= i < inputs.len() && !skips(done, #[trigger] inputs[i]) implies work.contains(
            inputs[i],
        ) by {
            if i < shorter.len() {
                assert(shorter[i] == inputs[i]);
                let j = choose|j: int| 0 <= j < before.len() && before[j] == shorter[i];
                assert(work[j] == inputs[i]);
            } else {
                assert(work[work.len() - 1] == inputs[i]);
            }
        }
        assert forall|j: int| 0 <= j < work.len() implies inputs.contains(#[trigger] work[j]) && !skips(
            done,
            work[j],
        ) by {
            if j < before.len() {
                assert(work[j] == before[j]);
                let i = choose|i: int| 0 <= i < shorter.len() && shorter[i] == before[j];
                assert(inputs[i] == work[j]);
            } else {
                assert(inputs[inputs.len() - 1] == work[j]);
            }
        }
    }
}

/// Where every input object is passed over, nothing is outstanding.
pub proof fn lemma_all_skipped_leaves_nothing(inputs: Seq<Seq<char>>, done: Set<Day>)
    requires
        forall|i: int| 0 <= i < inputs.len() ==> skips(done, #[trigger] inputs[i]),
    ensures
        outstanding(inputs, done) == Seq::<Seq<char>>::empty(),
    decreases inputs.len(),
{
    if inputs.len() > 0 {
        let shorter = inputs.drop_last();
        assert forall|i: int| 0 <= i < shorter.len() implies skips(done, #[trigger] shorter[i]) by {
            assert(shorter[i] == inputs[i]);
        }
        lemma_all_skipped_leaves_nothing(shorter, done);
        assert(skips(done, inputs[inputs.len() - 1]));
    }
}

/// Idempotence. Let a run work on `inputs` against an output store that
/// lists `before`, and write each artifact under `prefix`. Where the output
/// store later lists all of `before` and all those artifacts, a run on the
/// same `inputs` finds nothing outstanding. This holds of input objects whose
/// locations carry a date: one that carries none is worked on in every run.
pub proof fn lemma_second_run_finds_nothing(
    inputs: Seq<Seq<char>>,
    before: Seq<Seq<char>>,
    prefix: Seq<char>,
    later: Seq<Seq<char>>,
)
    requires
        forall|i: int| 0 <= i < inputs.len() ==> input_day(#[trigger] inputs[i]) is Some,
        holds_all(later, before),
        holds_all(later, artifact_locations(prefix, outstanding(inputs, index_of(before)))),
    ensures
        outstanding(inputs, index_of(later)) == Seq::<Seq<char>>::empty(),
{
    let done = index_of(before);
    let work = outstanding(inputs, done);
    let written = artifact_locations(prefix, work);
    lemma_outstanding_members(inputs, done);
    assert forall|i: int| 0 <= i < inputs.len() implies skips(index_of(later), #[trigger] inputs[i]) by {
        let location = inputs[i];
        let day = input_day(location)->0;
        if skips(done, location) {
            let k = choose|k: int| 0 <= k < before.len() && output_day(#[trigger] before[k]) == Some(day);
            assert(later.contains(before[k]));
            let m = choose|m: int| 0 <= m < later.len() && later[m] == before[k];
            assert(output_day(later[m]) == Some(day));
        } else {
            let j = choose|j: int| 0 <= j < work.len() && work[j] == location;
            assert(written[j] == joined(prefix, output_name_of(location)));
            assert(later.contains(written[j]));
            let m = choose|m: int| 0 <= m < later.len() && later[m] == written[j];
            assert(has_suffix(last_segment(location), input_suffix()));
            lemma_output_name_keeps_day(location, prefix);
            assert(output_day(later[m]) == Some(day));
        }
    }
    lemma_all_skipped_leaves_nothing(inputs, index_of(later));
}

/// Whether an input object is passed over because its date is in the index.
pub fn is_processed(index: &ProcessedDateSet, location: &str) -> (r: bool)
    ensures
        r == skips(index@, location@),
{
    match input_date(location) {
        Some(key) => index.contains(&key),
        None => false,
    }
}

/// The input objects of a listing that a run would work on, in their order.
pub fn outstanding_work(inputs: &Vec<String>, index: &ProcessedDateSet) -> (r: Vec<String>)
    ensures
        r.deep_view() == outstanding(inputs.deep_view(), index@),
{
    let mut r: Vec<String> = Vec::new();
    let mut i: usize = 0;
    assert(r.deep_view() =~= outstanding(inputs.deep_view().take(0), index@));
    while i < inputs.len()
        invariant
            i <= inputs.len(),
            r.deep_view() == outstanding(inputs.deep_view().take(i as int), index@),
        decreases inputs.len() - i,
    {
        let ghost names = inputs.deep_view();
        let ghost found = r.deep_view();
        assert(names.take(i + 1).drop_last() =~= names.take(i as int));
        assert(names.take(i + 1).last() == inputs[i as int]@);
        if !is_processed(index, inputs[i].as_str()) {
            r.push(inputs[i].clone());
            assert(r.deep_view() =~= found.push(inputs[i as int]@));
        }
        i += 1;
    }
    assert(inputs.deep_view().take(i as int) =~= inputs.deep_view());
    r
}

} // verus!
