//! The dates for which an artifact already stands in the output store.

use crate::date::day_code;
use crate::date::lemma_day_code_tells_apart;
use crate::date::DateKey;
use crate::date::Day;
use crate::names::output_date;
use crate::names::output_day;
use std::collections::HashSet;
use vstd::prelude::*;

verus! {

broadcast use vstd::std_specs::hash::group_hash_axioms;

/// What a set of days becomes when one more output object is seen: the day
/// that its location carries joins the set; a location that carries none
/// changes nothing.
pub open spec fn recorded(done: Set<Day>, location: Seq<char>) -> Set<Day> {
    match output_day(location) {
        Some(day) => done.insert(day),
        None => done,
    }
}

/// The days that the locations of a listing carry.
pub open spec fn index_of(listing: Seq<Seq<char>>) -> Set<Day> {
    Set::new(
        |day: Day| exists|i: int| 0 <= i < listing.len() && output_day(#[trigger] listing[i]) == Some(day),
    )
}

/// Seeing one more object adds its day to those of the listing before it.
pub proof fn lemma_index_of_push(listing: Seq<Seq<char>>, location: Seq<char>)
    ensures
        index_of(listing.push(location)) == recorded(index_of(listing), location),
{
    let longer = listing.push(location);
    let last = listing.len() as int;
    assert forall|day: Day| index_of(longer).contains(day) implies recorded(
        index_of(listing),
        location,
    ).contains(day) by {
        let i = choose|i: int| 0 <= i < longer.len() && output_day(#[trigger] longer[i]) == Some(day);
        if i < last {
            assert(longer[i] == listing[i]);
        }
    }
    assert forall|day: Day| recorded(index_of(listing), location).contains(day) implies index_of(
        longer,
    ).contains(day) by {
        if index_of(listing).contains(day) {
            let i = choose|i: int| 0 <= i < listing.len() && output_day(#[trigger] listing[i]) == Some(day);
            assert(longer[i] == listing[i]);
        } else {
            assert(longer[last] == location);
        }
    }
    assert(index_of(longer) =~= recorded(index_of(listing), location));
}

/// An output object whose location carries no date leaves the days of a
/// listing as they were.
pub proof fn lemma_undated_output_changes_nothing(listing: Seq<Seq<char>>, location: Seq<char>)
    requires
        output_day(location) is None,
    ensures
        index_of(listing.push(location)) == index_of(listing),
{
    lemma_index_of_push(listing, location);
}

/// A set of dates, built once per run from the output store's listing.
pub struct ProcessedDateSet {
    codes: HashSet<i64>,
}

impl View for ProcessedDateSet {
    type V = Set<Day>;

    closed spec fn view(&self) -> Set<Day> {
        Set::new(
            |day: Day|
                day.is_calendar_date() && i32::MIN <= day.year <= i32::MAX && self.codes@.contains(
                    day_code(day) as i64,
                ),
        )
    }
}

impl ProcessedDateSet {
    /// The empty set.
    pub fn new() -> (r: ProcessedDateSet)
        ensures
            r@ == Set::<Day>::empty(),
    {
        let r = ProcessedDateSet { codes: HashSet::new() };
        assert(r@ =~= Set::<Day>::empty());
        r
    }

    /// Adds a date; one that is there already changes nothing.
    pub fn insert(&mut self, key: DateKey)
        ensures
            final(self)@ == old(self)@.insert(key@),
    {
        let code = key.code();
        self.codes.insert(code);
        proof {
            assert forall|day: Day| final(self)@.contains(day) implies old(self)@.insert(
                key@,
            ).contains(day) by {
                if day_code(day) == day_code(key@) {
                    lemma_day_code_tells_apart(day, key@);
                }
            }
            assert(final(self)@ =~= old(self)@.insert(key@));
        }
    }

    /// Whether the date is in the set.
    pub fn contains(&self, key: &DateKey) -> (r: bool)
        ensures
            r == self@.contains(key@),
    {
        let code = key.code();
        self.codes.contains(&code)
    }

    /// Takes note of one object of the output store's listing. A location
    /// that carries no date is passed over.
    pub fn record(&mut self, location: &str)
        ensures
            final(self)@ == recorded(old(self)@, location@),
    {
        match output_date(location) {
            Some(key) => self.insert(key),
            None => {},
        }
    }

    /// The set of dates that a listing of the output store carries.
    pub fn build(listing: &Vec<String>) -> (r: ProcessedDateSet)
        ensures
            r@ == index_of(listing.deep_view()),
    {
        let mut r = ProcessedDateSet::new();
        let mut i: usize = 0;
        assert(index_of(listing.deep_view().take(0)) =~= Set::<Day>::empty());
        while i < listing.len()
            invariant
                i <= listing.len(),
                r@ == index_of(listing.deep_view().take(i as int)),
            decreases listing.len() - i,
        {
            r.record(listing[i].as_str());
            proof {
                let names = listing.deep_view();
                lemma_index_of_push(names.take(i as int), names[i as int]);
                assert(names.take(i + 1) =~= names.take(i as int).push(names[i as int]));
                assert(names[i as int] == listing[i as int]@);
            }
            i += 1;
        }
        assert(listing.deep_view().take(i as int) =~= listing.deep_view());
        r
    }
}

} // verus!
