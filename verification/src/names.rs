//! Object names: the trailing path segment, its suffix, and the date it
//! carries. Input objects are named `<date>.csv.gz`, output objects
//! `<date>.parquet`, each under any path.

use crate::date::parsed_day;
use crate::date::DateKey;
use crate::date::Day;
use vstd::prelude::*;

verus! {

/// Where the trailing segment of `path` begins: just behind its last `/`, at
/// 0 where it has none.
pub open spec fn segment_start(path: Seq<char>) -> int
    decreases path.len(),
{
    if path.len() == 0 || path.last() == '/' {
        path.len() as int
    } else {
        segment_start(path.drop_last())
    }
}

/// The part of `path` behind its last `/`; all of it where it has none.
pub open spec fn last_segment(path: Seq<char>) -> Seq<char> {
    path.subrange(segment_start(path), path.len() as int)
}

/// Whether `name` ends in `suffix`.
pub open spec fn has_suffix(name: Seq<char>, suffix: Seq<char>) -> bool {
    &&& suffix.len() <= name.len()
    &&& name.subrange(name.len() - suffix.len(), name.len() as int) == suffix
}

/// `name` without `suffix` at its end; `None` where it does not end so.
pub open spec fn without_suffix(name: Seq<char>, suffix: Seq<char>) -> Option<Seq<char>> {
    if has_suffix(name, suffix) {
        Some(name.take(name.len() - suffix.len()))
    } else {
        None
    }
}

/// What the names of input objects end in.
pub open spec fn input_suffix() -> Seq<char> {
    ".csv.gz"@
}

/// What the names of output objects end in.
pub open spec fn output_suffix() -> Seq<char> {
    ".parquet"@
}

/// The day that an input object's location carries: its trailing segment
/// must end in `.csv.gz` and what stands before must spell a date.
pub open spec fn input_day(location: Seq<char>) -> Option<Day> {
    match without_suffix(last_segment(location), input_suffix()) {
        Some(stem) => parsed_day(stem),
        None => None,
    }
}

/// The day that an output object's location carries: its trailing segment
/// must end in `.parquet` and what stands before must spell a date.
pub open spec fn output_day(location: Seq<char>) -> Option<Day> {
    match without_suffix(last_segment(location), output_suffix()) {
        Some(stem) => parsed_day(stem),
        None => None,
    }
}

/// The name under which the artifact made from an input object is written:
/// the trailing segment with `.parquet` in place of a final `.csv.gz`, and
/// unchanged where it does not end in `.csv.gz`.
pub open spec fn output_name_of(location: Seq<char>) -> Seq<char> {
    let name = last_segment(location);
    match without_suffix(name, input_suffix()) {
        Some(stem) => stem + output_suffix(),
        None => name,
    }
}

/// `name` under `prefix`, with one `/` between them.
pub open spec fn joined(prefix: Seq<char>, name: Seq<char>) -> Seq<char> {
    prefix + seq!['/'] + name
}

/// `segment_start` is the one position that has a `/` before it, or is 0,
/// and no `/` from it on.
pub proof fn lemma_segment_start(path: Seq<char>)
    ensures
        0 <= segment_start(path) <= path.len(),
        segment_start(path) > 0 ==> path[segment_start(path) - 1] == '/',
        forall|i: int| segment_start(path) <= i < path.len() ==> path[i] != '/',
    decreases path.len(),
{
    if path.len() == 0 || path.last() == '/' {
    } else {
        let shorter = path.drop_last();
        lemma_segment_start(shorter);
        assert forall|i: int| segment_start(path) <= i < path.len() implies path[i] != '/' by {
            if i < shorter.len() {
                assert(path[i] == shorter[i]);
            }
        }
        if segment_start(path) > 0 {
            assert(path[segment_start(path) - 1] == shorter[segment_start(shorter) - 1]);
        }
    }
}

/// A position with a `/` before it, or 0, and no `/` from it on is
/// `segment_start`.
pub proof fn lemma_segment_start_is(path: Seq<char>, start: int)
    requires
        0 <= start <= path.len(),
        start > 0 ==> path[start - 1] == '/',
        forall|i: int| start <= i < path.len() ==> path[i] != '/',
    ensures
        segment_start(path) == start,
{
    lemma_segment_start(path);
    let found = segment_start(path);
    if found < start {
        assert(path[start - 1] == '/');
    } else if found > start {
        assert(path[found - 1] == '/');
    }
}

/// The characters of a text, in order.
fn chars_of(text: &str) -> (r: Vec<char>)
    ensures
        r@ == text@,
{
    let mut r: Vec<char> = Vec::new();
    for c in it: text.chars()
        invariant
            it.seq() == text@,
            r@ == text@.take(it.index()),
    {
        r.push(c);
        assert(text@.take(it.index() + 1) =~= text@.take(it.index()).push(c));
    }
    assert(text@.take(text@.len() as int) =~= text@);
    r
}

/// The trailing path segment of a location.
pub fn trailing_segment(location: &str) -> (r: &str)
    ensures
        r@ == last_segment(location@),
{
    let chars = chars_of(location);
    let n: usize = chars.len();
    let mut start: usize = n;
    while start > 0 && chars[start - 1] != '/'
        invariant
            chars@ == location@,
            n == chars@.len(),
            start <= n,
            forall|i: int| start <= i < n ==> chars@[i] != '/',
        decreases start,
    {
        start -= 1;
    }
    proof {
        lemma_segment_start_is(location@, start as int);
    }
    location.substring_char(start, n)
}

/// Whether `name` ends in `suffix`.
pub fn ends_with(name: &str, suffix: &str) -> (r: bool)
    ensures
        r == has_suffix(name@, suffix@),
{
    let text = chars_of(name);
    let tail = chars_of(suffix);
    let n: usize = text.len();
    let m: usize = tail.len();
    if m > n {
        return false;
    }
    let mut i: usize = 0;
    while i < m
        invariant
            text@ == name@,
            tail@ == suffix@,
            n == text@.len(),
            m == tail@.len(),
            m <= n,
            i <= m,
            forall|j: int| 0 <= j < i ==> text@[n - m + j] == tail@[j],
        decreases m - i,
    {
        if text[n - m + i] != tail[i] {
            assert(name@.subrange(n - m, n as int)[i as int] != suffix@[i as int]);
            return false;
        }
        i += 1;
    }
    assert(name@.subrange(n - m, n as int) =~= suffix@);
    true
}

/// `name` without `suffix` at its end, where it ends so.
pub fn strip_suffix<'a>(name: &'a str, suffix: &str) -> (r: Option<&'a str>)
    ensures
        r is Some <==> without_suffix(name@, suffix@) is Some,
        r matches Some(stem) ==> without_suffix(name@, suffix@) == Some(stem@),
{
    if ends_with(name, suffix) {
        let n: usize = name.unicode_len();
        let m: usize = suffix.unicode_len();
        Some(name.substring_char(0, n - m))
    } else {
        None
    }
}

/// The date that an input object's location carries, if it carries one.
pub fn input_date(location: &str) -> (r: Option<DateKey>)
    ensures
        r is Some <==> input_day(location@) is Some,
        r matches Some(key) ==> input_day(location@) == Some(key@),
{
    match strip_suffix(trailing_segment(location), ".csv.gz") {
        Some(stem) => DateKey::parse(stem),
        None => None,
    }
}

/// The date that an output object's location carries, if it carries one.
pub fn output_date(location: &str) -> (r: Option<DateKey>)
    ensures
        r is Some <==> output_day(location@) is Some,
        r matches Some(key) ==> output_day(location@) == Some(key@),
{
    match strip_suffix(trailing_segment(location), ".parquet") {
        Some(stem) => DateKey::parse(stem),
        None => None,
    }
}

/// The name under which the artifact made from an input object is written.
pub fn output_name(location: &str) -> (r: String)
    ensures
        r@ == output_name_of(location@),
{
    let name = trailing_segment(location);
    match strip_suffix(name, ".csv.gz") {
        Some(stem) => String::from_str(stem).concat(".parquet"),
        None => String::from_str(name),
    }
}

/// The location of `name` under `prefix`.
pub fn output_location(prefix: &str, name: &str) -> (r: String)
    ensures
        r@ == joined(prefix@, name@),
{
    let r = String::from_str(prefix).concat("/").concat(name);
    proof {
        reveal_strlit("/");
        assert("/"@ =~= seq!['/']);
    }
    r
}

/// A trailing segment holds no `/`.
pub proof fn lemma_last_segment_has_no_slash(path: Seq<char>)
    ensures
        forall|i: int| 0 <= i < last_segment(path).len() ==> last_segment(path)[i] != '/',
{
    lemma_segment_start(path);
}

/// A name without a `/` is its own trailing segment, and stays the trailing
/// segment under any prefix.
pub proof fn lemma_last_segment_of_joined(prefix: Seq<char>, name: Seq<char>)
    requires
        forall|i: int| 0 <= i < name.len() ==> name[i] != '/',
    ensures
        last_segment(name) == name,
        last_segment(joined(prefix, name)) == name,
{
    lemma_segment_start_is(name, 0);
    assert(name.subrange(0, name.len() as int) =~= name);
    let whole = joined(prefix, name);
    let start = prefix.len() as int + 1;
    assert(whole[start - 1] == '/');
    assert forall|i: int| start <= i < whole.len() implies whole[i] != '/' by {
        assert(whole[i] == name[i - start]);
    }
    lemma_segment_start_is(whole, start);
    assert(whole.subrange(start, whole.len() as int) =~= name);
}

/// Naming round trip: where an input object's name ends in `.csv.gz`, the
/// name of its artifact carries the date that the input's name carries, under
/// any prefix and under none.
pub proof fn lemma_output_name_keeps_day(location: Seq<char>, prefix: Seq<char>)
    requires
        has_suffix(last_segment(location), input_suffix()),
    ensures
        output_day(output_name_of(location)) == input_day(location),
        output_day(joined(prefix, output_name_of(location))) == input_day(location),
{
    let name = last_segment(location);
    let stem = without_suffix(name, input_suffix())->0;
    let out = output_name_of(location);
    reveal_strlit(".parquet");
    lemma_last_segment_has_no_slash(location);
    assert forall|i: int| 0 <= i < out.len() implies out[i] != '/' by {
        if i < stem.len() {
            assert(out[i] == name[i]);
        }
    }
    lemma_last_segment_of_joined(prefix, out);
    assert(out.subrange(out.len() - output_suffix().len(), out.len() as int) =~= output_suffix());
    assert(out.take(out.len() - output_suffix().len()) =~= stem);
}

} // verus!
