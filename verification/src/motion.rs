//! Places in a document, and where the motion keys lead.

use crate::text::{grapheme_clusters, least, width_of};
use crate::words::{indent_of, next_word, word_start};
use vstd::prelude::*;

verus! {

/// The width of line `y`; 0 if there is no such line.
pub open spec fn width_at(lines: Seq<Seq<char>>, y: int) -> int {
    if 0 <= y < lines.len() {
        width_of(lines[y]) as int
    } else {
        0
    }
}

/// The clusters of line `y`; none if there is no such line.
pub open spec fn clusters_at(lines: Seq<Seq<char>>, y: int) -> Seq<Seq<char>> {
    if 0 <= y < lines.len() {
        grapheme_clusters(lines[y])
    } else {
        Seq::empty()
    }
}

/// The index of the last line; 0 in a document without lines.
pub open spec fn last_line(lines: Seq<Seq<char>>) -> int {
    if lines.len() == 0 {
        0
    } else {
        lines.len() - 1
    }
}

/// The column of the last cluster of line `y`; 0 on an empty line.
pub open spec fn end_of(lines: Seq<Seq<char>>, y: int) -> int {
    if width_at(lines, y) == 0 {
        0
    } else {
        width_at(lines, y) - 1
    }
}

/// Whether `(x, y)` is a place of the document: a line that exists and a
/// column of it or the place behind its last column. A document without lines
/// has the one place `(0, 0)`.
pub open spec fn valid_place(lines: Seq<Seq<char>>, x: int, y: int) -> bool {
    &&& 0 <= y <= last_line(lines)
    &&& 0 <= x <= width_at(lines, y)
}

/// The place nearest to `(x, y)`: the line is brought into the document,
/// then the column into that line.
pub open spec fn settled(lines: Seq<Seq<char>>, x: int, y: int) -> (int, int) {
    let line = least(y, last_line(lines));
    (least(x, width_at(lines, line)), line)
}

/// Whether the key `c` moves the cursor along the text in Normal mode.
pub open spec fn is_horizontal(c: char) -> bool {
    c == 'h' || c == 'l' || c == '0' || c == 's' || c == 'S' || c == 'w' || c == 'b'
}

/// Where the motion key `c` aims from `(x, y)`, before the place is settled.
///
/// `sticky` is the column that motions from line to line return to, and
/// `page` the number of lines that `J` and `K` move by.
///
/// - `k` and `j` aim one line up and down, `K` and `J` a page up and down,
///   `g` and `G` at the first and the last line; none leaves the document.
/// - `h` aims one column back, and from the start of a line at the last
///   column of the line above. `l` aims one column on, and from behind the
///   last column at the start of the line below.
/// - `0` aims at the start of the line, `s` at its last column and `S`
///   behind its leading blanks.
/// - `w` aims at the start of the next word of the line; where the line has
///   no further word, at the start of the line below, or at the last column
///   if there is no line below.
/// - `b` aims at the start of the word that the cursor is in or behind, and
///   from the start of a line at the last column of the line above.
///
/// Any other key aims at `(x, y)` itself.
pub open spec fn target(
    lines: Seq<Seq<char>>,
    x: int,
    y: int,
    sticky: int,
    page: int,
    c: char,
) -> (int, int) {
    let last = last_line(lines);
    if c == 'k' {
        (sticky, if y > 0 {
            y - 1
        } else {
            0
        })
    } else if c == 'j' {
        (sticky, if y < last {
            y + 1
        } else {
            y
        })
    } else if c == 'K' {
        (sticky, if y > page {
            y - page
        } else {
            0
        })
    } else if c == 'J' {
        (sticky, least(y + page, last))
    } else if c == 'g' {
        (sticky, 0)
    } else if c == 'G' {
        (sticky, last)
    } else if c == 'h' {
        if x > 0 {
            (x - 1, y)
        } else if y > 0 {
            (end_of(lines, y - 1), y - 1)
        } else {
            (x, y)
        }
    } else if c == 'l' {
        if x < width_at(lines, y) {
            (x + 1, y)
        } else if y < last {
            (0, y + 1)
        } else {
            (x, y)
        }
    } else if c == '0' {
        (0, y)
    } else if c == 's' {
        (end_of(lines, y), y)
    } else if c == 'S' {
        (indent_of(clusters_at(lines, y)), y)
    } else if c == 'w' {
        if next_word(clusters_at(lines, y), x) < width_at(lines, y) {
            (next_word(clusters_at(lines, y), x), y)
        } else if y < last {
            (0, y + 1)
        } else {
            (end_of(lines, y), y)
        }
    } else if c == 'b' {
        if x > 0 {
            (word_start(clusters_at(lines, y), x), y)
        } else if y > 0 {
            (end_of(lines, y - 1), y - 1)
        } else {
            (x, y)
        }
    } else {
        (x, y)
    }
}

/// The first column or line shown once the view of `extent` columns or lines
/// that starts at `offset` has followed the cursor to `at`.
pub open spec fn scrolled(offset: int, at: int, extent: int) -> int {
    if at < offset {
        at
    } else if at - offset >= extent {
        least(at - extent + 1, usize::MAX as int)
    } else {
        offset
    }
}

/// A view that has followed the cursor shows it, if it shows anything.
pub proof fn lemma_scrolled_shows(offset: int, at: int, extent: int)
    requires
        0 <= offset,
        0 <= at < usize::MAX,
        0 < extent,
    ensures
        scrolled(offset, at, extent) <= at < scrolled(offset, at, extent) + extent,
{
}

/// The settled place is a place of the document, and a place of the document
/// is settled where it is.
pub proof fn lemma_settled_is_valid(lines: Seq<Seq<char>>, x: int, y: int)
    requires
        0 <= x,
        0 <= y,
    ensures
        valid_place(lines, settled(lines, x, y).0, settled(lines, x, y).1),
        valid_place(lines, x, y) ==> settled(lines, x, y) == (x, y),
{
}

} // verus!
