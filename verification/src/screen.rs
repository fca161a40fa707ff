//! What the screen shows of the editor: the text of each row, the status bar
//! and the message bar.

use crate::document::spaces;
use crate::editor::Editor;
use crate::text::{least, push_char, rendered};
use vstd::prelude::*;
use vstd::string::StringExecFns;

verus! {

/// The number of characters of a file name that the status bar shows.
pub const NAME_SHOWN: usize = 21;

/// The first `count` characters of `text`, or all of it if it has fewer.
pub open spec fn cut(text: Seq<char>, count: int) -> Seq<char> {
    text.take(least(count, text.len() as int))
}

/// The first `count` characters of `text`, or all of it if it has fewer.
pub fn truncated(text: &str, count: usize) -> (out: String)
    ensures
        out@ == cut(text@, count as int),
{
    let len = text.unicode_len();
    let count = if count < len {
        count
    } else {
        len
    };
    String::from_str(text.substring_char(0, count))
}

/// The greeting shown in an empty document, for a screen of `width` columns:
/// a tilde, then the name and the version, moved towards the middle and cut
/// to the width.
pub open spec fn welcome(width: int, version: Seq<char>) -> Seq<char> {
    let message = "Hecto -- version "@ + version + seq!['\r'];
    let padding = if width > message.len() {
        (width - message.len()) / 2
    } else {
        0
    };
    let indent = if padding > 1 {
        padding - 1
    } else {
        0
    };
    cut(seq!['~'] + spaces(indent as nat) + message, width)
}

/// The text of the status bar in front of the line numbers: the mode, and
/// the start of the file name or a note that there is none.
pub open spec fn status_text(editor: Editor) -> Seq<char> {
    editor.mode.label() + " | "@ + match editor.document.filename {
        Some(name) => cut(name@, NAME_SHOWN as int),
        None => "[NO FILE OPENED]"@,
    }
}

/// What row `row` of a screen shows: the columns in view of the line in that
/// row; in an empty document the greeting, a third of the way down; and a
/// tilde in every other row below the document.
pub open spec fn row_text(editor: Editor, row: int, version: Seq<char>) -> Seq<char> {
    if editor.offset.y + row < editor.document@.len() {
        rendered(
            editor.document@[editor.offset.y + row],
            editor.offset.x as int,
            least(editor.offset.x + editor.terminal.area().width, usize::MAX as int),
        )
    } else if editor.document@.len() == 0 && row == editor.terminal.area().height / 3 {
        welcome(editor.terminal.area().width as int, version)
    } else {
        "~"@
    }
}

impl Editor {
    /// The greeting for an empty document.
    pub fn draw_welcome_message(&self, version: &str) -> (text: String)
        ensures
            text@ == welcome(self.terminal.area().width as int, version@),
    {
        let width: usize = self.terminal.size().width as usize;
        let message = String::from_str("Hecto -- version ").concat(version).concat("\r");
        proof {
            reveal_strlit("\r");
            assert("\r"@ =~= seq!['\r']);
        }
        let len = message.as_str().unicode_len();
        let padding = width.saturating_sub(len) / 2;
        let indent = padding.saturating_sub(1);
        let mut text = String::from_str("~");
        proof {
            reveal_strlit("~");
            assert("~"@ =~= seq!['~']);
            assert(seq!['~'] + spaces(0) =~= seq!['~']);
        }
        let mut i: usize = 0;
        while i < indent
            invariant
                i <= indent,
                text@ == seq!['~'] + spaces(i as nat),
            decreases indent - i,
        {
            push_char(&mut text, ' ');
            assert(seq!['~'] + spaces((i + 1) as nat) =~= (seq!['~'] + spaces(i as nat)).push(' '));
            i += 1;
        }
        text.append(message.as_str());
        truncated(text.as_str(), width)
    }

    /// The text of the status bar in front of the line numbers.
    pub fn draw_status_bar(&self) -> (text: String)
        ensures
            text@ == status_text(*self),
    {
        let name = match &self.document.filename {
            Some(name) => truncated(name.as_str(), NAME_SHOWN),
            None => String::from_str("[NO FILE OPENED]"),
        };
        self.mode.to_string().concat(" | ").concat(name.as_str())
    }

    /// The text of the message bar at the time `now`: the status message cut
    /// to the width of the screen while it is fresh, and nothing after that.
    pub fn draw_message_bar(&self, now: u64) -> (text: Option<String>)
        ensures
            self.status.fresh_at(now) ==> text is Some && text->Some_0@ == cut(
                self.status.text@,
                self.terminal.area().width as int,
            ),
            !self.status.fresh_at(now) ==> text is None,
    {
        if self.status.is_fresh(now) {
            Some(truncated(self.status.text.as_str(), self.terminal.size().width as usize))
        } else {
            None
        }
    }

    /// The text of every row of the screen, from the top.
    pub fn draw_rows(&self, version: &str) -> (rows: Vec<String>)
        ensures
            rows@.len() == self.terminal.area().height,
            forall|row: int|
                0 <= row < rows@.len() ==> (#[trigger] rows@[row])@ == row_text(
                    *self,
                    row,
                    version@,
                ),
    {
        let height: u16 = self.terminal.size().height;
        let mut rows: Vec<String> = Vec::new();
        let mut terminal_row: u16 = 0;
        while terminal_row < height
            invariant
                terminal_row <= height,
                height == self.terminal.area().height,
                rows@.len() == terminal_row,
                forall|row: int|
                    0 <= row < rows@.len() ==> (#[trigger] rows@[row])@ == row_text(
                        *self,
                        row,
                        version@,
                    ),
            decreases height - terminal_row,
        {
            let text = match self.draw_row(terminal_row as usize) {
                Some(text) => text,
                None => if self.document.is_empty() && terminal_row == height / 3 {
                    self.draw_welcome_message(version)
                } else {
                    String::from_str("~")
                },
            };
            rows.push(text);
            terminal_row += 1;
        }
        rows
    }
}

} // verus!
