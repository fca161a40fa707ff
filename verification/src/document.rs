//! A document: lines in order, and the file they belong to.

use crate::editor::Position;
use crate::gap_buffer::GapBuffer;
use crate::text::{
    chars_of, deleted, inserted, lemma_insert_front, lemma_split_then_concat, push_char,
    segmented, split_left, split_right, width_of,
};
use vstd::prelude::*;

verus! {

/// Why a document cannot be written out.
#[derive(Clone, Copy, Debug, PartialEq, Eq, Structural)]
pub enum SaveError {
    /// The document is bound to no file.
    NoFilename,
    /// The file could not be written.
    WriteFailed,
}

/// An ordered sequence of lines, bound to a file name or to none.
pub struct Document {
    pub lines: Vec<GapBuffer>,
    pub filename: Option<String>,
}

impl View for Document {
    type V = Seq<Seq<char>>;

    open spec fn view(&self) -> Seq<Seq<char>> {
        Seq::new(self.lines@.len(), |i: int| self.lines@[i]@)
    }
}

impl Default for Document {
    fn default() -> (document: Self)
        ensures
            document.wf(),
            document@ == Seq::<Seq<char>>::empty(),
            document.filename is None,
    {
        let document = Document { lines: Vec::new(), filename: None };
        assert(document@ =~= Seq::<Seq<char>>::empty());
        document
    }
}

/// `lines` after a character is typed at column `x` of line `y`: an empty
/// document gets its first line, a line that exists gets the character, and
/// a line that does not exist changes nothing.
pub open spec fn after_insert(lines: Seq<Seq<char>>, ch: char, x: int, y: int) -> Seq<Seq<char>> {
    if lines.len() == 0 {
        seq![seq![ch]]
    } else if 0 <= y < lines.len() {
        lines.update(y, inserted(lines[y], x, ch))
    } else {
        lines
    }
}

/// Whether a deletion at column `x` of line `y` joins line `y` onto the line
/// above it.
pub open spec fn joins_above(lines: Seq<Seq<char>>, x: int, y: int) -> bool {
    x == 0 && 0 < y < lines.len()
}

/// Whether a deletion at column `x` of line `y` joins the line below onto
/// line `y`.
pub open spec fn joins_below(lines: Seq<Seq<char>>, x: int, y: int) -> bool {
    &&& !joins_above(lines, x, y)
    &&& 0 <= y
    &&& y + 1 < lines.len()
    &&& x == width_of(lines[y])
}

/// `lines` after a deletion at column `x` of line `y`.
///
/// At the start of a line that has a line above, the line is joined onto the
/// line above. Otherwise, at the end of a line that has a line below, the line
/// below is joined onto it. Otherwise the column to the left of `x` goes, if
/// the line has one.
pub open spec fn after_delete(lines: Seq<Seq<char>>, x: int, y: int) -> Seq<Seq<char>> {
    if joins_above(lines, x, y) {
        lines.update(y - 1, lines[y - 1] + lines[y]).remove(y)
    } else if joins_below(lines, x, y) {
        lines.update(y, lines[y] + lines[y + 1]).remove(y + 1)
    } else if 0 <= y < lines.len() && x > 0 {
        lines.update(y, deleted(lines[y], x - 1))
    } else {
        lines
    }
}

/// `lines` after line `y` is broken in front of column `x`.
pub open spec fn after_enter(lines: Seq<Seq<char>>, x: int, y: int) -> Seq<Seq<char>> {
    if 0 <= y < lines.len() {
        lines.update(y, split_left(lines[y], x)).insert(y + 1, split_right(lines[y], x))
    } else {
        lines
    }
}

/// The text of a file that holds `lines`: every line, each followed by a
/// line feed.
pub open spec fn serialized(lines: Seq<Seq<char>>) -> Seq<char> {
    lines.map_values(|line: Seq<char>| line.push('\n')).flatten()
}

/// `count` spaces.
pub open spec fn spaces(count: nat) -> Seq<char> {
    Seq::new(count, |i: int| ' ')
}

/// Whether `c` ends a line.
pub open spec fn is_terminator(c: char) -> bool {
    c == '\n' || c == '\r'
}

/// `line` without the line terminators at its end.
pub open spec fn stripped(line: Seq<char>) -> Seq<char>
    decreases line.len(),
{
    if line.len() > 0 && is_terminator(line.last()) {
        stripped(line.drop_last())
    } else {
        line
    }
}

/// The document that is opened from `lines`: each line without the line
/// terminators at its end.
pub open spec fn opened(lines: Seq<Seq<char>>) -> Seq<Seq<char>> {
    lines.map_values(|line: Seq<char>| stripped(line))
}

/// The index of the first line feed in `text`; the length of `text` if it
/// holds none.
pub open spec fn first_break(text: Seq<char>) -> int
    decreases text.len(),
{
    if text.len() == 0 || text[0] == '\n' {
        0
    } else {
        1 + first_break(text.drop_first())
    }
}

/// The lines of a file that holds `text`: what stands between its line
/// feeds, and what follows the last of them if anything does.
pub open spec fn lines_in(text: Seq<char>) -> Seq<Seq<char>>
    decreases text.len(),
    via lines_in_decreases
{
    if text.len() == 0 {
        Seq::empty()
    } else if first_break(text) < text.len() {
        seq![text.take(first_break(text))] + lines_in(text.skip(first_break(text) + 1))
    } else {
        seq![text]
    }
}

#[via_fn]
proof fn lines_in_decreases(text: Seq<char>) {
    lemma_first_break(text);
}

/// The first line feed is inside the text or at its end, and no line feed
/// stands before it.
pub proof fn lemma_first_break(text: Seq<char>)
    ensures
        0 <= first_break(text) <= text.len(),
        first_break(text) < text.len() ==> text[first_break(text)] == '\n',
        forall|i: int| 0 <= i < first_break(text) ==> text[i] != '\n',
    decreases text.len(),
{
    if text.len() == 0 || text[0] == '\n' {
    } else {
        lemma_first_break(text.drop_first());
        assert forall|i: int| 0 <= i < first_break(text) implies text[i] != '\n' by {
            if i > 0 {
                assert(text[i] == text.drop_first()[i - 1]);
            }
        }
    }
}

/// Whether `line` holds no line feed.
pub open spec fn is_one_line(line: Seq<char>) -> bool {
    forall|i: int| 0 <= i < line.len() ==> line[i] != '\n'
}

/// In a text that starts with a line and a line feed, the first line feed
/// is the one behind that line.
pub proof fn lemma_first_break_after_line(line: Seq<char>, rest: Seq<char>)
    requires
        is_one_line(line),
    ensures
        first_break(line.push('\n') + rest) == line.len(),
    decreases line.len(),
{
    let text = line.push('\n') + rest;
    if line.len() == 0 {
        assert(text[0] == '\n');
    } else {
        assert(text[0] == line[0]);
        assert(text.drop_first() =~= line.drop_first().push('\n') + rest);
        assert forall|i: int| 0 <= i < line.drop_first().len() implies line.drop_first()[i]
            != '\n' by {
            assert(line.drop_first()[i] == line[i + 1]);
        }
        lemma_first_break_after_line(line.drop_first(), rest);
    }
}

/// What is saved can be read back: the text of a file that holds `lines`
/// falls into those lines again, if each of them is one line.
pub proof fn lemma_save_then_read(lines: Seq<Seq<char>>)
    requires
        forall|i: int| 0 <= i < lines.len() ==> is_one_line(#[trigger] lines[i]),
    ensures
        lines_in(serialized(lines)) == lines,
    decreases lines.len(),
{
    let end = |line: Seq<char>| line.push('\n');
    if lines.len() == 0 {
        assert(lines =~= Seq::<Seq<char>>::empty());
    } else {
        let rest = lines.drop_first();
        let text = serialized(lines);
        assert(lines.map_values(end).drop_first() =~= rest.map_values(end));
        assert(text == lines[0].push('\n') + serialized(rest));
        lemma_first_break_after_line(lines[0], serialized(rest));
        assert(text.take(lines[0].len() as int) =~= lines[0]);
        assert(text.skip(lines[0].len() as int + 1) =~= serialized(rest));
        assert forall|i: int| 0 <= i < rest.len() implies is_one_line(#[trigger] rest[i]) by {
            assert(rest[i] == lines[i + 1]);
        }
        lemma_save_then_read(rest);
        assert(seq![lines[0]] + rest =~= lines);
    }
}

/// What is opened is saved line for line: the text written for the document
/// opened from `lines` is each of them without its terminators, followed by
/// one line feed, in order.
pub proof fn lemma_open_then_save(lines: Seq<Seq<char>>)
    ensures
        opened(lines).len() == lines.len(),
        forall|i: int| 0 <= i < lines.len() ==> (#[trigger] opened(lines)[i]) == stripped(lines[i]),
        serialized(opened(lines)) == lines.map_values(
            |line: Seq<char>| stripped(line).push('\n'),
        ).flatten(),
        (forall|i: int| 0 <= i < lines.len() ==> stripped(#[trigger] lines[i]) == lines[i])
            ==> opened(lines) == lines,
{
    assert(opened(lines).map_values(|line: Seq<char>| line.push('\n')) =~= lines.map_values(
        |line: Seq<char>| stripped(line).push('\n'),
    ));
    if forall|i: int| 0 <= i < lines.len() ==> stripped(#[trigger] lines[i]) == lines[i] {
        assert(opened(lines) =~= lines);
    }
}

/// Breaking a line and deleting at the start of the new line gives the
/// document back: the deletion joins the two halves again.
pub proof fn lemma_enter_then_delete(lines: Seq<Seq<char>>, x: int, y: int)
    requires
        0 <= y < lines.len(),
        0 <= x,
        segmented(lines[y]),
    ensures
        joins_above(after_enter(lines, x, y), 0, y + 1),
        after_delete(after_enter(lines, x, y), 0, y + 1) == lines,
{
    lemma_split_then_concat(lines[y], x);
    assert(after_delete(after_enter(lines, x, y), 0, y + 1) =~= lines);
}

/// A deletion at the end of the last line, or inside a line, takes the
/// column to the left of the cursor, and nothing at the very start of the
/// document.
pub proof fn lemma_delete_to_the_left(lines: Seq<Seq<char>>, x: int, y: int)
    requires
        0 <= y < lines.len(),
        0 <= x,
        !joins_above(lines, x, y),
        !joins_below(lines, x, y),
    ensures
        x > 0 ==> after_delete(lines, x, y) == lines.update(y, deleted(lines[y], x - 1)),
        x == 0 ==> after_delete(lines, x, y) == lines,
        after_delete(lines, x, y).len() == lines.len(),
{
}

/// A position on a line that the document does not have changes nothing, as
/// long as the document has a line at all.
pub proof fn lemma_no_such_line(lines: Seq<Seq<char>>, ch: char, x: int, y: int)
    requires
        y >= lines.len(),
    ensures
        lines.len() > 0 ==> after_insert(lines, ch, x, y) == lines,
        after_delete(lines, x, y) == lines,
        after_enter(lines, x, y) == lines,
{
}

/// Cuts the line terminators off the end of `line`.
fn strip_terminators(line: &str) -> (out: &str)
    ensures
        out@ == stripped(line@),
{
    let mut n: usize = line.unicode_len();
    assert(line@.take(n as int) =~= line@);
    while n > 0 && (line.get_char(n - 1) == '\n' || line.get_char(n - 1) == '\r')
        invariant
            n <= line@.len(),
            stripped(line@) == stripped(line@.take(n as int)),
        decreases n,
    {
        assert(line@.take(n as int).drop_last() =~= line@.take(n - 1));
        n -= 1;
    }
    line.substring_char(0, n)
}

/// Cuts the text of a file into its lines.
pub fn split_lines(text: &str) -> (lines: Vec<String>)
    ensures
        lines.deep_view() == lines_in(text@),
{
    let chars = chars_of(text);
    let mut lines: Vec<String> = Vec::new();
    let mut line = String::new();
    let mut start: usize = 0;
    let mut i: usize = 0;
    proof {
        lemma_first_break(chars@);
        assert(chars@.skip(0) =~= chars@);
    }
    while i < chars.len()
        invariant
            start <= i <= chars.len(),
            chars@ == text@,
            line@ == chars@.subrange(start as int, i as int),
            first_break(chars@.skip(start as int)) >= i - start,
            lines_in(text@) == lines.deep_view() + lines_in(chars@.skip(start as int)),
        decreases chars.len() - i,
    {
        let ghost tail = chars@.skip(start as int);
        proof {
            lemma_first_break(tail);
        }
        if chars[i] == '\n' {
            proof {
                assert(tail[i - start] == '\n');
                assert(first_break(tail) == i - start);
                assert(tail.take(i - start) =~= line@);
                assert(tail.skip(i - start + 1) =~= chars@.skip(i + 1));
                assert(lines.deep_view().push(line@) + lines_in(chars@.skip(i + 1))
                    =~= lines.deep_view() + (seq![line@] + lines_in(chars@.skip(i + 1))));
            }
            let ghost done = lines.deep_view();
            lines.push(line);
            assert(lines.deep_view() =~= done.push(line@));
            line = String::new();
            start = i + 1;
            proof {
                lemma_first_break(chars@.skip(start as int));
            }
        } else {
            proof {
                assert(tail[i - start] != '\n');
                assert(chars@.subrange(start as int, i + 1) =~= line@.push(chars@[i as int]));
            }
            push_char(&mut line, chars[i]);
        }
        i += 1;
    }
    let ghost tail = chars@.skip(start as int);
    proof {
        lemma_first_break(tail);
        assert(tail =~= line@);
    }
    if start < chars.len() {
        let ghost done = lines.deep_view();
        lines.push(line);
        assert(lines.deep_view() =~= done.push(line@));
        assert(done.push(line@) =~= done + seq![line@]);
    } else {
        assert(lines.deep_view() + Seq::<Seq<char>>::empty() =~= lines.deep_view());
    }
    lines
}

impl Document {
    /// Every line is well formed.
    pub open spec fn wf(&self) -> bool {
        forall|i: int| 0 <= i < self.lines@.len() ==> (#[trigger] self.lines@[i]).wf()
    }

    /// Whether every line's cached length is the number of clusters of its
    /// text.
    pub fn is_consistent(&self) -> (consistent: bool)
        ensures
            consistent == self.wf(),
    {
        let mut i: usize = 0;
        while i < self.lines.len()
            invariant
                i <= self.lines.len(),
                forall|k: int| 0 <= k < i ==> (#[trigger] self.lines@[k]).wf(),
            decreases self.lines.len() - i,
        {
            if !self.lines[i].is_consistent() {
                return false;
            }
            i += 1;
        }
        true
    }

    /// Whether the document has no line.
    pub fn is_empty(&self) -> (empty: bool)
        ensures
            empty == (self@.len() == 0),
    {
        self.lines.is_empty()
    }

    /// The number of lines.
    pub fn len(&self) -> (len: usize)
        ensures
            len == self@.len(),
    {
        self.lines.len()
    }

    /// Line `index`, if the document has it.
    pub fn buffer(&self, index: usize) -> (line: Option<&GapBuffer>)
        ensures
            index < self@.len() ==> line == Some(&self.lines@[index as int]),
            index >= self@.len() ==> line is None,
    {
        if index < self.lines.len() {
            Some(&self.lines[index])
        } else {
            None
        }
    }

    /// A document bound to `filename` that holds one line for each of
    /// `lines`, in order, each without the line terminators at its end.
    pub fn open(filename: String, lines: Vec<String>) -> (document: Self)
        ensures
            document.wf(),
            document@ == opened(lines.deep_view()),
            document.filename == Some(filename),
    {
        let mut buffers: Vec<GapBuffer> = Vec::new();
        let mut i: usize = 0;
        while i < lines.len()
            invariant
                i <= lines.len(),
                buffers@.len() == i,
                forall|k: int| 0 <= k < i ==> (#[trigger] buffers@[k]).wf(),
                forall|k: int| 0 <= k < i ==> (#[trigger] buffers@[k])@ == stripped(lines@[k]@),
            decreases lines.len() - i,
        {
            buffers.push(GapBuffer::new(strip_terminators(lines[i].as_str())));
            i += 1;
        }
        let document = Document { lines: buffers, filename: Some(filename) };
        assert(document@ =~= opened(lines.deep_view()));
        document
    }

    /// Line `index` for changing, if the document has it. The document is
    /// what it was, with that line as the caller leaves it.
    pub fn buffer_mut(&mut self, index: usize) -> (line: Option<&mut GapBuffer>)
        ensures
            index < old(self).lines@.len() ==> line is Some && *line->Some_0 == old(self).lines@[index as int]
                && final(self).lines@ == old(self).lines@.update(index as int, *final(line->Some_0)),
            index >= old(self).lines@.len() ==> line is None && final(self).lines@ == old(self).lines@,
            final(self).filename == old(self).filename,
    {
        if index < self.lines.len() {
            Some(&mut self.lines[index])
        } else {
            None
        }
    }

    /// Deletes at `at` and says whether that joined the line onto the line
    /// above it.
    pub fn delete(&mut self, at: &Position) -> (joined: bool)
        requires
            old(self).wf(),
        ensures
            final(self).wf(),
            final(self)@ == after_delete(old(self)@, at.x as int, at.y as int),
            joined == joins_above(old(self)@, at.x as int, at.y as int),
            final(self).filename == old(self).filename,
    {
        let height = self.lines.len();
        if at.y >= height {
            false
        } else if at.x == 0 && at.y > 0 {
            let current = self.lines.remove(at.y);
            self.lines[at.y - 1].append(&current);
            assert(self@ =~= after_delete(old(self)@, at.x as int, at.y as int));
            true
        } else if at.y + 1 < height && at.x == self.lines[at.y].width() {
            let below = self.lines.remove(at.y + 1);
            self.lines[at.y].append(&below);
            assert(self@ =~= after_delete(old(self)@, at.x as int, at.y as int));
            false
        } else if at.x > 0 {
            self.lines[at.y].delete(at.x - 1);
            assert(self@ =~= after_delete(old(self)@, at.x as int, at.y as int));
            false
        } else {
            false
        }
    }

    /// Breaks line `at.y` in front of column `at.x`: the line keeps what
    /// stands before it, and what follows becomes a new line below. A line
    /// that does not exist changes nothing.
    pub fn enter(&mut self, at: &Position)
        requires
            old(self).wf(),
        ensures
            final(self).wf(),
            final(self)@ == after_enter(old(self)@, at.x as int, at.y as int),
            final(self).filename == old(self).filename,
    {
        if at.y < self.lines.len() {
            let rest = self.lines[at.y].split(at.x);
            self.lines.insert(at.y + 1, rest);
            assert(self@ =~= after_enter(old(self)@, at.x as int, at.y as int));
        }
    }

    /// Puts `count` spaces in front of line `y`.
    pub fn indent(&mut self, y: usize, count: usize)
        requires
            old(self).wf(),
            y < old(self)@.len(),
        ensures
            final(self).wf(),
            final(self)@ == old(self)@.update(y as int, spaces(count as nat) + old(self)@[y as int]),
            final(self).filename == old(self).filename,
    {
        let mut i: usize = 0;
        assert(self@ =~= old(self)@.update(y as int, spaces(0) + old(self)@[y as int]));
        while i < count
            invariant
                i <= count,
                y < self.lines@.len() == old(self)@.len(),
                self.wf(),
                self@ == old(self)@.update(y as int, spaces(i as nat) + old(self)@[y as int]),
                self.filename == old(self).filename,
            decreases count - i,
        {
            let ghost before = self@;
            proof {
                assert(self.lines@[y as int].wf());
                lemma_insert_front(before[y as int], ' ');
                assert(seq![' '] + (spaces(i as nat) + old(self)@[y as int]) =~= spaces(
                    (i + 1) as nat,
                ) + old(self)@[y as int]);
            }
            self.lines[y].insert(' ', 0);
            assert(self@ =~= before.update(y as int, seq![' '] + before[y as int]));
            i += 1;
        }
    }

    /// The text to write to the bound file: every line followed by a line
    /// feed. Fails when the document is bound to no file.
    pub fn save_file(&self) -> (out: Result<String, SaveError>)
        ensures
            self.filename is None ==> out == Err::<String, SaveError>(SaveError::NoFilename),
            self.filename is Some ==> out is Ok && out->Ok_0@ == serialized(self@),
    {
        if self.filename.is_none() {
            return Err(SaveError::NoFilename);
        }
        let mut text = String::new();
        let mut i: usize = 0;
        assert(self@.take(0) =~= Seq::<Seq<char>>::empty());
        while i < self.lines.len()
            invariant
                i <= self.lines.len(),
                text@ == serialized(self@.take(i as int)),
            decreases self.lines.len() - i,
        {
            proof {
                broadcast use Seq::lemma_flatten_push;
                let end = |line: Seq<char>| line.push('\n');
                assert(self@.take(i + 1).map_values(end) =~= self@.take(i as int).map_values(
                    end,
                ).push(end(self@[i as int])));
            }
            let line = self.lines[i].line();
            text.append(line.as_str());
            push_char(&mut text, '\n');
            i += 1;
        }
        assert(self@.take(self.lines.len() as int) =~= self@);
        Ok(text)
    }

    /// Types `c` at `at`. In a document without lines the character becomes
    /// the first line; a position on a line that does not exist changes
    /// nothing.
    pub fn insert(&mut self, c: char, at: &Position)
        requires
            old(self).wf(),
        ensures
            final(self).wf(),
            final(self)@ == after_insert(old(self)@, c, at.x as int, at.y as int),
            final(self).filename == old(self).filename,
    {
        if self.lines.len() == 0 {
            let mut text = String::new();
            push_char(&mut text, c);
            self.lines.push(GapBuffer::new(text.as_str()));
            assert(self@ =~= after_insert(old(self)@, c, at.x as int, at.y as int));
        } else if at.y < self.lines.len() {
            self.lines[at.y].insert(c, at.x);
            assert(self@ =~= after_insert(old(self)@, c, at.x as int, at.y as int));
        }
    }
}

} // verus!
