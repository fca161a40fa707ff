//! One line of text, addressed by grapheme column.

use crate::text::{
    chars_of, columns, concat_range, deleted, graphemes, grapheme_clusters, inserted,
    lemma_flatten_split, offset_of, partitions, push_char, rendered, segmented, split_left,
    split_right, width_of,
};
use vstd::prelude::*;
use vstd::std_specs::convert::FromSpecImpl;

verus! {

/// A line: its characters, and the number of grapheme clusters they form.
pub struct GapBuffer {
    pub cur_pos: usize,
    pub chs: Vec<char>,
    pub len: usize,
}

impl View for GapBuffer {
    type V = Seq<char>;

    open spec fn view(&self) -> Seq<char> {
        self.chs@
    }
}

impl Default for GapBuffer {
    fn default() -> (line: Self)
        ensures
            line.wf(),
            line@ == Seq::<char>::empty(),
            line.cur_pos == 0,
    {
        let mut line = GapBuffer { cur_pos: 0, chs: Vec::new(), len: 0 };
        line.update_len();
        line
    }
}

impl Clone for GapBuffer {
    fn clone(&self) -> (line: Self)
        ensures
            line@ == self@,
            line.len == self.len,
            line.cur_pos == self.cur_pos,
    {
        GapBuffer { cur_pos: self.cur_pos, chs: self.chs.clone(), len: self.len }
    }
}

impl From<String> for GapBuffer {
    fn from(s: String) -> (line: Self)
        ensures
            line.wf(),
            line@ == s@,
            line.cur_pos == 0,
    {
        GapBuffer::new(s.as_str())
    }
}

impl FromSpecImpl<String> for GapBuffer {
    open spec fn obeys_from_spec() -> bool {
        false
    }

    open spec fn from_spec(s: String) -> Self {
        arbitrary()
    }
}

impl GapBuffer {
    /// The cached length is the number of clusters of the text, and those
    /// clusters partition the text.
    pub open spec fn wf(&self) -> bool {
        &&& segmented(self@)
        &&& self.len == width_of(self@)
    }

    /// The clusters of the line, one string each.
    pub fn graphemes(&self) -> (clusters: Vec<String>)
        ensures
            clusters.deep_view() == grapheme_clusters(self@),
            partitions(clusters.deep_view(), self@),
            clusters.len() == width_of(self@),
            clusters.deep_view().flatten().len() <= usize::MAX,
    {
        let line = self.line();
        let clusters = graphemes(line.as_str());
        assert(self.chs.len() <= usize::MAX);
        clusters
    }

    /// Whether the cached length is the number of clusters of the text.
    pub fn is_consistent(&self) -> (consistent: bool)
        ensures
            consistent == self.wf(),
    {
        let clusters = self.graphemes();
        self.len == clusters.len()
    }

    /// Recomputes the cached length from the text.
    pub fn update_len(&mut self)
        ensures
            final(self).wf(),
            final(self)@ == old(self)@,
            final(self).cur_pos == old(self).cur_pos,
    {
        let clusters = self.graphemes();
        self.len = clusters.len();
    }

    /// Whether the line holds no character.
    pub fn is_empty(&self) -> (empty: bool)
        ensures
            empty == (self@.len() == 0),
    {
        self.chs.is_empty()
    }

    /// A line that holds the characters of `chs`.
    pub fn new(chs: &str) -> (line: Self)
        ensures
            line.wf(),
            line@ == chs@,
            line.cur_pos == 0,
    {
        let mut line = GapBuffer { cur_pos: 0, chs: chars_of(chs), len: 0 };
        line.update_len();
        line
    }

    /// The number of columns.
    pub fn width(&self) -> (width: usize)
        requires
            self.wf(),
        ensures
            width == width_of(self@),
    {
        self.len
    }

    /// The text of the columns `[start, end)`; `end` is clamped to the width
    /// and `start` to `end`.
    pub fn render(&self, start: usize, end: usize) -> (out: String)
        ensures
            out@ == rendered(self@, start as int, end as int),
    {
        let clusters = self.graphemes();
        let end = if end < clusters.len() {
            end
        } else {
            clusters.len()
        };
        let start = if start < end {
            start
        } else {
            end
        };
        concat_range(&clusters, start, end)
    }

    /// The whole text.
    pub fn line(&self) -> (text: String)
        ensures
            text@ == self@,
    {
        let mut text = String::new();
        let mut i: usize = 0;
        while i < self.chs.len()
            invariant
                i <= self.chs.len(),
                text@ == self.chs@.take(i as int),
            decreases self.chs.len() - i,
        {
            push_char(&mut text, self.chs[i]);
            assert(self.chs@.take(i + 1) =~= self.chs@.take(i as int).push(self.chs@[i as int]));
            i += 1;
        }
        assert(self.chs@.take(self.chs.len() as int) =~= self.chs@);
        text
    }

    /// Puts `ch` in front of column `x`; at the end when `x` is the width or
    /// more.
    pub fn insert(&mut self, ch: char, x: usize)
        ensures
            final(self).wf(),
            final(self)@ == inserted(old(self)@, x as int, ch),
            final(self).cur_pos == old(self).cur_pos,
    {
        let clusters = self.graphemes();
        let at = if x < clusters.len() {
            x
        } else {
            clusters.len()
        };
        let offset = offset_of(&clusters, at);
        proof {
            lemma_flatten_split(clusters.deep_view(), at as int);
            assert(self.chs@.insert(offset as int, ch) =~= inserted(old(self)@, x as int, ch));
        }
        self.chs.insert(offset, ch);
        self.update_len();
    }

    /// Replaces the text by a single line feed.
    pub fn insert_newline(&mut self)
        ensures
            final(self).wf(),
            final(self)@ == seq!['\n'],
            final(self).cur_pos == old(self).cur_pos,
    {
        let mut chs: Vec<char> = Vec::new();
        chs.push('\n');
        self.chs = chs;
        self.update_len();
    }

    /// Does nothing: a line break is the document's business.
    pub fn enter(&mut self)
        ensures
            *final(self) == *old(self),
    {
    }

    /// Removes column `x`; nothing when the line has no such column.
    pub fn delete(&mut self, x: usize)
        ensures
            final(self).wf(),
            final(self)@ == deleted(old(self)@, x as int),
            final(self).cur_pos == old(self).cur_pos,
    {
        let clusters = self.graphemes();
        if x < clusters.len() {
            let from = offset_of(&clusters, x);
            let to = offset_of(&clusters, x + 1);
            proof {
                lemma_flatten_split(clusters.deep_view(), x as int);
                lemma_flatten_split(clusters.deep_view(), x + 1);
                crate::text::lemma_flatten_step(clusters.deep_view(), 0, x as int);
            }
            let mut tail = self.chs.split_off(to);
            self.chs.truncate(from);
            self.chs.append(&mut tail);
            assert(self.chs@ =~= deleted(old(self)@, x as int));
        }
        self.update_len();
    }

    /// Splits the line in front of column `at`: the line keeps the columns
    /// before it and the result holds the rest. Together they are the old
    /// line.
    pub fn split(&mut self, at: usize) -> (rest: Self)
        ensures
            final(self).wf(),
            rest.wf(),
            final(self)@ == split_left(old(self)@, at as int),
            rest@ == split_right(old(self)@, at as int),
            final(self)@ + rest@ == old(self)@,
            final(self).cur_pos == old(self).cur_pos,
            rest.cur_pos == 0,
    {
        let clusters = self.graphemes();
        let at = if at < clusters.len() {
            at
        } else {
            clusters.len()
        };
        let offset = offset_of(&clusters, at);
        proof {
            lemma_flatten_split(clusters.deep_view(), at as int);
        }
        let tail = self.chs.split_off(offset);
        assert(self.chs@ =~= clusters.deep_view().subrange(0, at as int).flatten());
        assert(tail@ =~= clusters.deep_view().subrange(at as int, clusters.len() as int).flatten());
        self.update_len();
        let mut rest = GapBuffer { cur_pos: 0, chs: tail, len: 0 };
        rest.update_len();
        rest
    }

    /// Joins the text of `other` onto the end of this line.
    pub fn append(&mut self, other: &GapBuffer)
        ensures
            final(self).wf(),
            final(self)@ == old(self)@ + other@,
            final(self).cur_pos == old(self).cur_pos,
    {
        let mut i: usize = 0;
        while i < other.chs.len()
            invariant
                i <= other.chs.len(),
                self.chs@ == old(self).chs@ + other.chs@.take(i as int),
                self.cur_pos == old(self).cur_pos,
            decreases other.chs.len() - i,
        {
            self.chs.push(other.chs[i]);
            assert(other.chs@.take(i + 1) =~= other.chs@.take(i as int).push(other.chs@[i as int]));
            i += 1;
        }
        assert(other.chs@.take(other.chs.len() as int) =~= other.chs@);
        self.update_len();
    }
}

} // verus!
