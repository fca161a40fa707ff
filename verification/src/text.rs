//! Text as a sequence of grapheme clusters.
//!
//! Columns are counted in extended grapheme clusters. The segmentation itself
//! is the work of the `unicode-segmentation` crate; this module names its
//! result and builds the column arithmetic on top of it.

use unicode_segmentation::UnicodeSegmentation;
use vstd::prelude::*;
use vstd::seq_lib::lemma_flatten_concat;

verus! {

/// The extended grapheme clusters of `text`, in order.
pub uninterp spec fn grapheme_clusters(text: Seq<char>) -> Seq<Seq<char>>;

/// `clusters` cuts `text` into consecutive, non-empty pieces.
pub open spec fn partitions(clusters: Seq<Seq<char>>, text: Seq<char>) -> bool {
    &&& clusters.flatten() == text
    &&& forall|i: int| 0 <= i < clusters.len() ==> (#[trigger] clusters[i]).len() > 0
}

/// Segments `text` with `UnicodeSegmentation::graphemes` (extended clusters).
///
/// Trusted: the result is what the crate's iterator yields, each cluster as an
/// owned string. The iterator hands out consecutive slices of its input, each
/// at least one character long, until the input is used up, so the clusters
/// partition the text.
#[verifier::external_body]
pub(crate) fn graphemes(text: &str) -> (clusters: Vec<String>)
    ensures
        clusters.deep_view() == grapheme_clusters(text@),
        partitions(clusters.deep_view(), text@),
{
    text.graphemes(true).map(String::from).collect()
}

/// Appends one character with `String::push`.
///
/// Trusted: the string afterwards is the string before followed by `c`.
#[verifier::external_body]
pub(crate) fn push_char(s: &mut String, c: char)
    ensures
        final(s)@ == old(s)@.push(c),
{
    s.push(c)
}

/// `text` in upper case, as `str::to_uppercase` gives it.
pub uninterp spec fn uppercased(text: Seq<char>) -> Seq<char>;

/// Upper-cases `text` with `str::to_uppercase`.
///
/// Trusted: the result is a function of the text alone, named `uppercased`.
#[verifier::external_body]
pub(crate) fn to_uppercase(text: &str) -> (upper: String)
    ensures
        upper@ == uppercased(text@),
{
    text.to_uppercase()
}

/// The number of columns of `text`.
pub open spec fn width_of(text: Seq<char>) -> nat {
    grapheme_clusters(text).len()
}

/// `text` has been segmented and its clusters partition it.
pub open spec fn segmented(text: Seq<char>) -> bool {
    partitions(grapheme_clusters(text), text)
}

/// The characters of the columns `[from, to)` of `text`.
pub open spec fn columns(text: Seq<char>, from: int, to: int) -> Seq<char> {
    grapheme_clusters(text).subrange(from, to).flatten()
}

/// Flattening the first `to + 1` clusters adds cluster `to` to the first `to`.
pub proof fn lemma_flatten_step(clusters: Seq<Seq<char>>, from: int, to: int)
    requires
        0 <= from <= to < clusters.len(),
    ensures
        clusters.subrange(from, to + 1).flatten() == clusters.subrange(from, to).flatten()
            + clusters[to],
{
    broadcast use Seq::lemma_flatten_push;
    assert(clusters.subrange(from, to + 1) =~= clusters.subrange(from, to).push(clusters[to]));
}

/// Concatenates the clusters `[from, to)`.
pub fn concat_range(clusters: &Vec<String>, from: usize, to: usize) -> (out: String)
    requires
        from <= to <= clusters.len(),
    ensures
        out@ == clusters.deep_view().subrange(from as int, to as int).flatten(),
{
    let mut out = String::new();
    let mut i: usize = from;
    assert(clusters.deep_view().subrange(from as int, from as int) =~= Seq::<Seq<char>>::empty());
    while i < to
        invariant
            from <= i <= to <= clusters.len(),
            out@ == clusters.deep_view().subrange(from as int, i as int).flatten(),
        decreases to - i,
    {
        proof {
            lemma_flatten_step(clusters.deep_view(), from as int, i as int);
        }
        out.append(clusters[i].as_str());
        i += 1;
    }
    out
}

/// Flattening distributes over cutting a sequence of clusters in two.
pub proof fn lemma_flatten_split(clusters: Seq<Seq<char>>, at: int)
    requires
        0 <= at <= clusters.len(),
    ensures
        clusters.flatten() == clusters.subrange(0, at).flatten() + clusters.subrange(
            at,
            clusters.len() as int,
        ).flatten(),
{
    lemma_flatten_concat(clusters.subrange(0, at), clusters.subrange(at, clusters.len() as int));
    assert(clusters =~= clusters.subrange(0, at) + clusters.subrange(at, clusters.len() as int));
}

/// The number of characters in the first `column` clusters.
pub fn offset_of(clusters: &Vec<String>, column: usize) -> (offset: usize)
    requires
        column <= clusters.len(),
        clusters.deep_view().flatten().len() <= usize::MAX,
    ensures
        offset == clusters.deep_view().subrange(0, column as int).flatten().len(),
{
    let mut offset: usize = 0;
    let mut i: usize = 0;
    assert(clusters.deep_view().subrange(0, 0) =~= Seq::<Seq<char>>::empty());
    while i < column
        invariant
            i <= column <= clusters.len(),
            clusters.deep_view().flatten().len() <= usize::MAX,
            offset == clusters.deep_view().subrange(0, i as int).flatten().len(),
        decreases column - i,
    {
        proof {
            lemma_flatten_step(clusters.deep_view(), 0, i as int);
            lemma_flatten_split(clusters.deep_view(), i + 1);
        }
        offset = offset + clusters[i].as_str().unicode_len();
        i += 1;
    }
    offset
}

/// The smaller of two numbers.
pub open spec fn least(a: int, b: int) -> int {
    if a <= b {
        a
    } else {
        b
    }
}

/// `text` with `ch` put in front of column `column`, or at the end when the
/// text has no such column.
pub open spec fn inserted(text: Seq<char>, column: int, ch: char) -> Seq<char> {
    let at = least(column, width_of(text) as int);
    columns(text, 0, at) + seq![ch] + columns(text, at, width_of(text) as int)
}

/// In front of column 0 is in front of the whole text.
pub proof fn lemma_insert_front(text: Seq<char>, ch: char)
    requires
        segmented(text),
    ensures
        inserted(text, 0, ch) == seq![ch] + text,
{
    let clusters = grapheme_clusters(text);
    assert(clusters.subrange(0, 0) =~= Seq::<Seq<char>>::empty());
    assert(clusters.subrange(0, clusters.len() as int) =~= clusters);
    assert(Seq::<char>::empty() + seq![ch] + text =~= seq![ch] + text);
}

/// `text` without column `column`; `text` itself when it has no such column.
pub open spec fn deleted(text: Seq<char>, column: int) -> Seq<char> {
    if 0 <= column < width_of(text) {
        columns(text, 0, column) + columns(text, column + 1, width_of(text) as int)
    } else {
        text
    }
}

/// What stays in a line that is split in front of column `column`.
pub open spec fn split_left(text: Seq<char>, column: int) -> Seq<char> {
    columns(text, 0, least(column, width_of(text) as int))
}

/// What a line that is split in front of column `column` gives away.
pub open spec fn split_right(text: Seq<char>, column: int) -> Seq<char> {
    columns(text, least(column, width_of(text) as int), width_of(text) as int)
}

/// The columns `[start, end)` of `text`, after `end` is clamped to the width
/// and `start` to `end`.
pub open spec fn rendered(text: Seq<char>, start: int, end: int) -> Seq<char> {
    let e = least(end, width_of(text) as int);
    let s = least(start, e);
    columns(text, s, e)
}

/// A line that is split in front of a column falls into two parts that
/// together are the line.
pub proof fn lemma_split_then_concat(text: Seq<char>, at: int)
    requires
        segmented(text),
        0 <= at,
    ensures
        split_left(text, at) + split_right(text, at) == text,
{
    lemma_flatten_split(grapheme_clusters(text), least(at, width_of(text) as int));
}

/// A column that the text does not have is no error: a deletion there
/// changes nothing, an insertion there adds to the end, and a rendering
/// that starts there is empty or ends with the text.
pub proof fn lemma_out_of_range(text: Seq<char>, x: int, ch: char)
    requires
        segmented(text),
        x >= width_of(text),
    ensures
        deleted(text, x) == text,
        inserted(text, x, ch) == text.push(ch),
        forall|end: int| end >= 0 ==> (#[trigger] rendered(text, x, end)).len() == 0,
        forall|start: int| #[trigger] rendered(text, start, x) == rendered(text, start, width_of(text) as int),
{
    let clusters = grapheme_clusters(text);
    let width = width_of(text) as int;
    assert(clusters.subrange(0, width) =~= clusters);
    assert(clusters.subrange(width, width) =~= Seq::<Seq<char>>::empty());
    assert(text + seq![ch] + Seq::<char>::empty() =~= text.push(ch));
    assert forall|end: int| end >= 0 implies (#[trigger] rendered(text, x, end)).len() == 0 by {
        let e = least(end, width);
        assert(clusters.subrange(e, e) =~= Seq::<Seq<char>>::empty());
    }
}

/// The characters of `s`, in order.
pub fn chars_of(s: &str) -> (out: Vec<char>)
    ensures
        out@ == s@,
{
    let mut out: Vec<char> = Vec::new();
    for c in it: s.chars()
        invariant
            it.seq() == s@,
            out@ == s@.take(it.index() as int),
    {
        out.push(c);
        assert(s@.take(it.index() + 1) =~= s@.take(it.index() as int).push(c));
    }
    assert(s@.take(s@.len() as int) =~= s@);
    out
}

} // verus!
