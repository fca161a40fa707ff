//! Blank columns, words and indentation.
//!
//! A column is blank when its cluster starts with a white-space character. A
//! word is a run of columns that are not blank.

use vstd::prelude::*;

verus! {

/// Whether `c` has the Unicode property `White_Space`.
pub open spec fn is_whitespace(c: char) -> bool {
    let n = c as u32;
    ||| 0x09 <= n <= 0x0D
    ||| n == 0x20
    ||| n == 0x85
    ||| n == 0xA0
    ||| n == 0x1680
    ||| 0x2000 <= n <= 0x200A
    ||| n == 0x2028
    ||| n == 0x2029
    ||| n == 0x202F
    ||| n == 0x205F
    ||| n == 0x3000
}

/// Whether `c` is white space.
pub fn whitespace(c: char) -> (white: bool)
    ensures
        white == is_whitespace(c),
{
    let n: u32 = c as u32;
    (0x09 <= n && n <= 0x0D) || n == 0x20 || n == 0x85 || n == 0xA0 || n == 0x1680 || (0x2000 <= n
        && n <= 0x200A) || n == 0x2028 || n == 0x2029 || n == 0x202F || n == 0x205F || n == 0x3000
}

/// Whether a column that holds `cluster` is blank.
pub open spec fn is_blank(cluster: Seq<char>) -> bool {
    cluster.len() > 0 && is_whitespace(cluster[0])
}

/// Whether a column that holds `cluster` is blank.
pub fn blank(cluster: &str) -> (blank: bool)
    ensures
        blank == is_blank(cluster@),
{
    cluster.unicode_len() > 0 && whitespace(cluster.get_char(0))
}

/// The first column at or after `from` that is not blank (`blanks`) or is
/// blank (`!blanks`); the number of columns if there is none, and `from` if
/// it is no column.
pub open spec fn skip(clusters: Seq<Seq<char>>, from: int, blanks: bool) -> int
    decreases clusters.len() - from,
{
    if 0 <= from < clusters.len() && is_blank(clusters[from]) == blanks {
        skip(clusters, from + 1, blanks)
    } else {
        from
    }
}

/// The column where the run of blank (`blanks`) or not blank (`!blanks`)
/// columns that ends in front of `from` begins.
pub open spec fn skip_back(clusters: Seq<Seq<char>>, from: int, blanks: bool) -> int
    decreases from,
{
    if 0 < from <= clusters.len() && is_blank(clusters[from - 1]) == blanks {
        skip_back(clusters, from - 1, blanks)
    } else {
        from
    }
}

/// The column where the word after the one at `from` starts; the number of
/// columns if no word follows.
pub open spec fn next_word(clusters: Seq<Seq<char>>, from: int) -> int {
    skip(clusters, skip(clusters, from, false), true)
}

/// The column where the word that ends at or in front of `from` starts.
pub open spec fn word_start(clusters: Seq<Seq<char>>, from: int) -> int {
    skip_back(clusters, skip_back(clusters, from, true), false)
}

/// The number of blank columns at the start of a line.
pub open spec fn indent_of(clusters: Seq<Seq<char>>) -> int {
    skip(clusters, 0, true)
}

/// Skips forward from column `from` over blank or over not blank columns.
pub fn skip_forward(clusters: &Vec<String>, from: usize, blanks: bool) -> (column: usize)
    ensures
        column == skip(clusters.deep_view(), from as int, blanks),
{
    let mut i: usize = from;
    while i < clusters.len() && blank(clusters[i].as_str()) == blanks
        invariant
            skip(clusters.deep_view(), from as int, blanks) == skip(
                clusters.deep_view(),
                i as int,
                blanks,
            ),
        decreases clusters.len() - i,
    {
        i += 1;
    }
    i
}

/// Skips backwards from column `from` over blank or over not blank columns.
pub fn skip_backward(clusters: &Vec<String>, from: usize, blanks: bool) -> (column: usize)
    ensures
        column == skip_back(clusters.deep_view(), from as int, blanks),
{
    let mut i: usize = from;
    while 0 < i && i <= clusters.len() && blank(clusters[i - 1].as_str()) == blanks
        invariant
            skip_back(clusters.deep_view(), from as int, blanks) == skip_back(
                clusters.deep_view(),
                i as int,
                blanks,
            ),
        decreases i,
    {
        i -= 1;
    }
    i
}

} // verus!
