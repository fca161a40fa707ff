//! What typing, deleting and breaking a line make of the text and the
//! cursor.

use crate::document::{
    after_delete, after_enter, after_insert, joins_above, joins_below, lemma_enter_then_delete,
    spaces,
};
use crate::motion::{settled, width_at};
use crate::text::{grapheme_clusters, least, segmented, split_left, width_of};
use crate::words::indent_of;
use vstd::prelude::*;

verus! {

/// The lines and the cursor after `c` is typed at `(x, y)`: the character
/// goes into the document and the cursor one column on.
pub open spec fn typed(lines: Seq<Seq<char>>, x: int, y: int, c: char) -> (
    Seq<Seq<char>>,
    int,
    int,
) {
    let text = after_insert(lines, c, x, y);
    (text, settled(text, x + 1, y).0, settled(text, x + 1, y).1)
}

/// The lines and the cursor after `c` is typed `count` times from `(x, y)`.
pub open spec fn typed_times(lines: Seq<Seq<char>>, x: int, y: int, c: char, count: nat) -> (
    Seq<Seq<char>>,
    int,
    int,
)
    decreases count,
{
    if count == 0 {
        (lines, x, y)
    } else {
        let before = typed_times(lines, x, y, c, (count - 1) as nat);
        typed(before.0, before.1, before.2, c)
    }
}

/// The lines and the cursor after a deletion at `(x, y)`.
///
/// Where the line is joined onto the line above, the cursor goes to where
/// that line ended. Where the line below is joined onto the line, or nothing
/// stands to the left, the cursor stays. Otherwise it goes one column back.
pub open spec fn erased(lines: Seq<Seq<char>>, x: int, y: int) -> (Seq<Seq<char>>, int, int) {
    let text = after_delete(lines, x, y);
    let aim = if joins_above(lines, x, y) {
        (width_at(lines, y - 1), y - 1)
    } else if joins_below(lines, x, y) || x <= 0 {
        (x, y)
    } else {
        (x - 1, y)
    };
    (text, settled(text, aim.0, aim.1).0, settled(text, aim.0, aim.1).1)
}

/// The number of blank columns that line `y` starts with or, if it starts
/// with none, the nearest line below it that starts with some; 0 if there is
/// no such line.
pub open spec fn indent_from(lines: Seq<Seq<char>>, y: int) -> int
    decreases lines.len() - y,
{
    if 0 <= y < lines.len() {
        if indent_of(grapheme_clusters(lines[y])) > 0 {
            indent_of(grapheme_clusters(lines[y]))
        } else {
            indent_from(lines, y + 1)
        }
    } else {
        0
    }
}

/// The lines and the cursor after line `y` is broken at `(x, y)`: the new
/// line below gets the indentation found from line `y` downwards, and the
/// cursor stands behind it. On a line that does not exist nothing changes.
pub open spec fn broken(lines: Seq<Seq<char>>, x: int, y: int) -> (Seq<Seq<char>>, int, int) {
    if 0 <= y < lines.len() {
        let split = after_enter(lines, x, y);
        let indent = indent_from(split, y);
        let text = split.update(y + 1, spaces(indent as nat) + split[y + 1]);
        (text, settled(text, indent, y + 1).0, settled(text, indent, y + 1).1)
    } else {
        (lines, settled(lines, x, y).0, settled(lines, x, y).1)
    }
}

/// Breaking a line and deleting at the start of the new line gives the
/// document back, with the cursor in the line that was broken, at the width
/// that its front part has. That is the column of the break wherever the
/// front part, cut off, still has the columns it had in the line.
pub proof fn lemma_enter_then_erase(lines: Seq<Seq<char>>, x: int, y: int)
    requires
        0 <= y < lines.len(),
        0 <= x <= width_of(lines[y]),
        segmented(lines[y]),
    ensures
        erased(after_enter(lines, x, y), 0, y + 1).0 == lines,
        erased(after_enter(lines, x, y), 0, y + 1).1 == least(
            width_of(split_left(lines[y], x)) as int,
            width_of(lines[y]) as int,
        ),
        erased(after_enter(lines, x, y), 0, y + 1).2 == y,
        width_of(split_left(lines[y], x)) == x ==> erased(after_enter(lines, x, y), 0, y + 1) == (
            lines,
            x,
            y,
        ),
{
    lemma_enter_then_delete(lines, x, y);
}

} // verus!
