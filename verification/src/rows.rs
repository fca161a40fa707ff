//! A line of text kept as a string.

use crate::editor::Position;
use crate::text::{
    concat_range, graphemes, inserted, lemma_flatten_split, push_char, rendered, segmented,
    split_left, split_right, width_of,
};
use vstd::prelude::*;
use vstd::std_specs::convert::FromSpecImpl;
use vstd::string::StringExecFns;

verus! {

/// A line: its text, and the number of grapheme clusters of the text.
#[derive(Debug)]
pub struct Row {
    pub string: String,
    pub len: usize,
}

impl View for Row {
    type V = Seq<char>;

    open spec fn view(&self) -> Seq<char> {
        self.string@
    }
}

impl Default for Row {
    fn default() -> (row: Self)
        ensures
            row.wf(),
            row@ == Seq::<char>::empty(),
    {
        let mut row = Row { string: String::new(), len: 0 };
        row.update_len();
        row
    }
}

impl Clone for Row {
    fn clone(&self) -> (row: Self)
        ensures
            row@ == self@,
            row.len == self.len,
    {
        Row { string: self.string.clone(), len: self.len }
    }
}

impl From<&str> for Row {
    fn from(s: &str) -> (row: Self)
        ensures
            row.wf(),
            row@ == s@,
    {
        let mut row = Row { string: String::from_str(s), len: 0 };
        row.update_len();
        row
    }
}

impl FromSpecImpl<&str> for Row {
    open spec fn obeys_from_spec() -> bool {
        false
    }

    open spec fn from_spec(s: &str) -> Self {
        arbitrary()
    }
}

impl Row {
    /// The cached length is the number of clusters of the text, and those
    /// clusters partition the text.
    pub open spec fn wf(&self) -> bool {
        &&& segmented(self@)
        &&& self.len == width_of(self@)
    }

    /// The text of the columns `[start, end)`; `end` is clamped to the width
    /// and `start` to `end`.
    pub fn render(&self, start: usize, end: usize) -> (out: String)
        ensures
            out@ == rendered(self@, start as int, end as int),
    {
        let clusters = graphemes(self.string.as_str());
        let end = if end < clusters.len() {
            end
        } else {
            clusters.len()
        };
        let start = if start < end {
            start
        } else {
            end
        };
        concat_range(&clusters, start, end)
    }

    /// Splits the row in front of column `at`: the row keeps the columns
    /// before it and the result holds the rest. Together they are the old
    /// row.
    pub fn split(&mut self, at: usize) -> (rest: Self)
        ensures
            final(self).wf(),
            rest.wf(),
            final(self)@ == split_left(old(self)@, at as int),
            rest@ == split_right(old(self)@, at as int),
            final(self)@ + rest@ == old(self)@,
    {
        let clusters = graphemes(self.string.as_str());
        let at = if at < clusters.len() {
            at
        } else {
            clusters.len()
        };
        proof {
            lemma_flatten_split(clusters.deep_view(), at as int);
        }
        let beginning = concat_range(&clusters, 0, at);
        let remainder = concat_range(&clusters, at, clusters.len());
        self.string = beginning;
        self.update_len();
        let mut rest = Row { string: remainder, len: 0 };
        rest.update_len();
        rest
    }

    /// Recomputes the cached length from the text.
    pub fn update_len(&mut self)
        ensures
            final(self).wf(),
            final(self).string == old(self).string,
    {
        let clusters = graphemes(self.string.as_str());
        self.len = clusters.len();
    }

    /// The text.
    pub fn contents(&self) -> (text: String)
        ensures
            text@ == self@,
    {
        self.string.clone()
    }

    /// Puts `c` in front of column `at.x`; at the end when `at.x` is the
    /// width or more.
    pub fn insert(&mut self, at: &Position, c: char)
        ensures
            final(self).wf(),
            final(self)@ == inserted(old(self)@, at.x as int, c),
    {
        let clusters = graphemes(self.string.as_str());
        let x = if at.x < clusters.len() {
            at.x
        } else {
            clusters.len()
        };
        let mut result = concat_range(&clusters, 0, x);
        let remainder = concat_range(&clusters, x, clusters.len());
        push_char(&mut result, c);
        result.append(remainder.as_str());
        self.string = result;
        self.update_len();
    }
}

} // verus!
