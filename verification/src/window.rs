//! A framed box with one line of typed text.

use crate::editor::Position;
use crate::rows::Row;
use crate::text::{inserted, push_char};
use crate::ui::without_last;
use vstd::prelude::*;
use vstd::string::StringExecFns;

verus! {

/// A box on the screen, from column `x1` to `x2` and from row `y1` to `y2`,
/// and the text typed into it.
pub struct Window {
    pub name: String,
    pub x1: u16,
    pub x2: u16,
    pub y1: u16,
    pub y2: u16,
    pub cursor_position: Position,
    pub string: Option<String>,
    pub cur_pos_before: Position,
}

/// The first column that typed text may not reach in a box whose right edge
/// is at column `x2`.
pub open spec fn right_edge(x2: u16) -> int {
    if x2 >= 2 {
        x2 - 2
    } else {
        0
    }
}

impl Window {
    /// An empty box called `name` with the corners `(x1, y1)` and
    /// `(x2, y2)`.
    pub fn new(name: String, x1: u16, x2: u16, y1: u16, y2: u16) -> (window: Self)
        ensures
            window == (Window {
                name,
                x1,
                x2,
                y1,
                y2,
                cursor_position: Position { x: 0, y: 0 },
                string: None,
                cur_pos_before: Position { x: 0, y: 0 },
            }),
    {
        Window {
            name,
            x1,
            x2,
            y1,
            y2,
            cursor_position: Position { x: 0, y: 0 },
            string: None,
            cur_pos_before: Position { x: 0, y: 0 },
        }
    }

    /// Takes the last character of the typed text away and says how many
    /// characters went: 1, or 0 when there is no text.
    pub fn delete(&mut self) -> (count: usize)
        ensures
            count == if old(self).string is Some && old(self).string->Some_0@.len() > 0 {
                1usize
            } else {
                0usize
            },
            count == 1 ==> final(self).string is Some && final(self).string->Some_0@
                == without_last(old(self).string->Some_0@),
            count == 0 ==> final(self).string == old(self).string,
            *final(self) == (Window { string: final(self).string, ..*old(self) }),
    {
        let shortened: Option<String> = match &self.string {
            Some(string) => {
                let n: usize = string.as_str().unicode_len();
                if n > 0 {
                    Some(String::from_str(string.as_str().substring_char(0, n - 1)))
                } else {
                    None
                }
            },
            None => None,
        };
        match shortened {
            Some(text) => {
                self.string = Some(text);
                1
            },
            None => 0,
        }
    }

    /// Types `c` when the cursor column `pos_x` is left of the right edge,
    /// and says how many characters came: 1 or 0. The box's own cursor moves
    /// one column on, and the character goes in front of that column into
    /// the text, or becomes the text when there was none.
    pub fn insert(&mut self, c: char, pos_x: usize) -> (count: usize)
        ensures
            count == if pos_x < right_edge(old(self).x2) {
                1usize
            } else {
                0usize
            },
            count == 0 ==> *final(self) == *old(self),
            count == 1 ==> {
                &&& *final(self) == (Window {
                    string: final(self).string,
                    cursor_position: final(self).cursor_position,
                    ..*old(self)
                })
                &&& final(self).cursor_position.y == old(self).cursor_position.y
                &&& final(self).cursor_position.x == least_usize(
                    old(self).cursor_position.x + 1,
                )
                &&& final(self).string is Some
                &&& final(self).string->Some_0@ == match old(self).string {
                    Some(string) => inserted(string@, final(self).cursor_position.x as int, c),
                    None => seq![c],
                }
            },
    {
        let right_edge: usize = self.x2.saturating_sub(2) as usize;
        if pos_x < right_edge {
            self.cursor_position.x = self.cursor_position.x.saturating_add(1);
            let string = match &self.string {
                Some(string) => {
                    let mut text_entry = Row::from(string.as_str());
                    text_entry.insert(&self.cursor_position, c);
                    text_entry.string
                },
                None => {
                    let mut text = String::new();
                    push_char(&mut text, c);
                    text
                },
            };
            self.string = Some(string);
            1
        } else {
            0
        }
    }
}

/// `n`, or the largest `usize` if `n` is larger.
pub open spec fn least_usize(n: int) -> int {
    if n <= usize::MAX {
        n
    } else {
        usize::MAX as int
    }
}

} // verus!
