//! The header row of a CSV text, held against the columns of a schema. The
//! row is found as the reader finds it: behind a byte-order mark and, where
//! the schema has more than one column, behind leading line ends; it ends at
//! the first line feed outside quotes.

use crate::schema::columns_view;
use crate::schema::ColumnKind;
use crate::schema::ColumnSpec;
use vstd::prelude::*;
use vstd::slice::slice_subrange;
use vstd::string::StringSliceAdditionalSpecFns;
use vstd::utf8::encode_utf8;

verus! {

/// The byte that ends a line.
pub const LINE_FEED: u8 = 10;

/// The byte that may stand before a line feed.
pub const CARRIAGE_RETURN: u8 = 13;

/// The byte between two values of a row.
pub const COMMA: u8 = 44;

/// The byte that encloses a value.
pub const QUOTE: u8 = 34;

/// Whether a text begins with the UTF-8 byte-order mark.
pub open spec fn has_mark(text: Seq<u8>) -> bool {
    text.len() >= 3 && text[0] == 0xef && text[1] == 0xbb && text[2] == 0xbf
}

/// How many line feeds and carriage returns a text begins with.
pub open spec fn leading_line_ends(text: Seq<u8>) -> int
    decreases text.len(),
{
    if text.len() == 0 || !(text[0] == LINE_FEED || text[0] == CARRIAGE_RETURN) {
        0
    } else {
        1 + leading_line_ends(text.drop_first())
    }
}

/// Where the row that a text begins with ends: at its first line feed
/// outside quotes, at its end where it has none. Every quote byte turns
/// inside to outside and back; `inside` says where the text begins.
pub open spec fn row_end(text: Seq<u8>, inside: bool) -> int
    decreases text.len(),
{
    if text.len() == 0 {
        0
    } else {
        let within = if text[0] == QUOTE { !inside } else { inside };
        if !within && text[0] == LINE_FEED {
            0
        } else {
            1 + row_end(text.drop_first(), within)
        }
    }
}

/// Where the header row of a text begins, for a schema of so many columns.
pub open spec fn header_start(text: Seq<u8>, columns: nat) -> int {
    let marked: int = if has_mark(text) { 3 } else { 0 };
    if columns > 1 {
        marked + leading_line_ends(text.skip(marked))
    } else {
        marked
    }
}

/// The header row of a text, without the line feed that ends it and without
/// a carriage return before that.
pub open spec fn header_row(text: Seq<u8>, columns: nat) -> Seq<u8> {
    let rest = text.skip(header_start(text, columns));
    let row = rest.take(row_end(rest, false));
    if row.len() > 0 && row.last() == CARRIAGE_RETURN {
        row.drop_last()
    } else {
        row
    }
}

/// Whether `name` stands in `row` from position `at` on.
pub open spec fn stands_at(row: Seq<u8>, at: int, name: Seq<u8>) -> bool {
    0 <= at && at + name.len() <= row.len() && row.subrange(at, at + name.len()) == name
}

/// Where the value that spells `name` at position `at` of a row ends. A
/// value that begins with a quote must be the name between two quotes; any
/// other must be the name itself.
pub open spec fn value_end(row: Seq<u8>, at: int, name: Seq<u8>) -> Option<int> {
    if 0 <= at < row.len() && row[at] == QUOTE {
        if stands_at(row, at + 1, name) && at + 1 + name.len() < row.len() && row[at + 1
            + name.len()] == QUOTE {
            Some(at + name.len() + 2)
        } else {
            None
        }
    } else if stands_at(row, at, name) {
        Some(at + name.len())
    } else {
        None
    }
}

/// Whether a row spells, from position `at` on, the names of the columns
/// from the `i`-th on, in UTF-8, one value each, with a comma between two
/// values. Behind the last of them the row ends or goes on with a comma.
pub open spec fn names_follow(
    row: Seq<u8>,
    at: int,
    columns: Seq<(Seq<char>, ColumnKind)>,
    i: int,
) -> bool
    decreases columns.len() - i,
{
    if i < 0 || i >= columns.len() {
        true
    } else {
        match value_end(row, at, encode_utf8(columns[i].0)) {
            None => false,
            Some(end) => if i + 1 == columns.len() {
                end == row.len() || row[end] == COMMA
            } else {
                end < row.len() && row[end] == COMMA && names_follow(row, end + 1, columns, i + 1)
            },
        }
    }
}

/// Whether the header row of a text names the columns, in their order.
pub open spec fn header_names_columns(text: Seq<u8>, columns: Seq<(Seq<char>, ColumnKind)>) -> bool {
    names_follow(header_row(text, columns.len()), 0, columns, 0)
}

/// Where the header row of a text begins.
fn find_header_start(text: &[u8], columns: usize) -> (r: usize)
    ensures
        r == header_start(text@, columns as nat),
        r <= text@.len(),
{
    let marked: usize = if text.len() >= 3 && text[0] == 0xef && text[1] == 0xbb && text[2]
        == 0xbf {
        3
    } else {
        0
    };
    if columns <= 1 {
        return marked;
    }
    let mut at: usize = marked;
    while at < text.len() && (text[at] == LINE_FEED || text[at] == CARRIAGE_RETURN)
        invariant
            marked <= at <= text@.len(),
            leading_line_ends(text@.skip(marked as int)) == (at - marked) + leading_line_ends(
                text@.skip(at as int),
            ),
        decreases text@.len() - at,
    {
        assert(text@.skip(at as int)[0] == text@[at as int]);
        assert(text@.skip(at as int).drop_first() =~= text@.skip(at + 1));
        at += 1;
    }
    proof {
        if at < text@.len() {
            assert(text@.skip(at as int)[0] == text@[at as int]);
        }
    }
    at
}

/// Where the row that begins at `from` ends.
fn find_row_end(text: &[u8], from: usize) -> (r: usize)
    requires
        from <= text@.len(),
    ensures
        from <= r <= text@.len(),
        r - from == row_end(text@.skip(from as int), false),
{
    let mut at: usize = from;
    let mut inside: bool = false;
    while at < text.len()
        invariant
            from <= at <= text@.len(),
            row_end(text@.skip(from as int), false) == (at - from) + row_end(
                text@.skip(at as int),
                inside,
            ),
        decreases text@.len() - at,
    {
        assert(text@.skip(at as int)[0] == text@[at as int]);
        assert(text@.skip(at as int).drop_first() =~= text@.skip(at + 1));
        if text[at] == QUOTE {
            inside = !inside;
        }
        if !inside && text[at] == LINE_FEED {
            return at;
        }
        at += 1;
    }
    at
}

/// The header row of a text.
pub fn header_row_of(text: &[u8], columns: usize) -> (r: &[u8])
    ensures
        r@ == header_row(text@, columns as nat),
{
    let from = find_header_start(text, columns);
    let to = find_row_end(text, from);
    proof {
        let rest = text@.skip(from as int);
        assert(rest.take(to - from) =~= text@.subrange(from as int, to as int));
        if to > from {
            assert(text@.subrange(from as int, to as int).drop_last() =~= text@.subrange(
                from as int,
                to - 1,
            ));
        }
    }
    if to > from && text[to - 1] == CARRIAGE_RETURN {
        slice_subrange(text, from, to - 1)
    } else {
        slice_subrange(text, from, to)
    }
}

/// Whether `name` stands in `row` from position `at` on.
fn name_stands_at(row: &[u8], at: usize, name: &[u8]) -> (r: bool)
    ensures
        r == stands_at(row@, at as int, name@),
{
    if at > row.len() || name.len() > row.len() - at {
        return false;
    }
    let mut j: usize = 0;
    while j < name.len()
        invariant
            j <= name.len(),
            at + name.len() <= row.len(),
            forall|k: int| 0 <= k < j ==> row@[at + k] == name@[k],
        decreases name@.len() - j,
    {
        if row[at + j] != name[j] {
            assert(row@.subrange(at as int, at + name@.len())[j as int] == row@[at + j]);
            return false;
        }
        j += 1;
    }
    assert(row@.subrange(at as int, at + name@.len()) =~= name@);
    true
}

/// Where the value that spells `name` at position `at` of a row ends.
fn find_value_end(row: &[u8], at: usize, name: &[u8]) -> (r: Option<usize>)
    ensures
        r is Some <==> value_end(row@, at as int, name@) is Some,
        r matches Some(end) ==> value_end(row@, at as int, name@) == Some(end as int) && end
            <= row@.len(),
{
    if at < row.len() && row[at] == QUOTE {
        if name_stands_at(row, at + 1, name) && name.len() < row.len() - at - 1 && row[at + 1
            + name.len()] == QUOTE {
            Some(at + name.len() + 2)
        } else {
            None
        }
    } else if name_stands_at(row, at, name) {
        Some(at + name.len())
    } else {
        None
    }
}

/// Whether the header row of a text names the columns, in their order.
pub fn header_conforms(text: &[u8], columns: &Vec<ColumnSpec>) -> (r: bool)
    ensures
        r == header_names_columns(text@, columns_view(columns@)),
{
    let row = header_row_of(text, columns.len());
    let ghost listed = columns_view(columns@);
    let mut at: usize = 0;
    let mut i: usize = 0;
    while i < columns.len()
        invariant
            i <= columns.len(),
            at <= row@.len(),
            listed == columns_view(columns@),
            header_names_columns(text@, listed) == names_follow(
                row@,
                at as int,
                listed,
                i as int,
            ),
        decreases columns.len() - i,
    {
        let name = columns[i].name.as_str().as_bytes();
        assert(name@ == encode_utf8(listed[i as int].0));
        match find_value_end(row, at, name) {
            None => {
                return false;
            },
            Some(end) => {
                if i + 1 == columns.len() {
                    return end == row.len() || row[end] == COMMA;
                }
                if !(end < row.len() && row[end] == COMMA) {
                    return false;
                }
                at = end + 1;
            },
        }
        i += 1;
    }
    true
}

} // verus!
