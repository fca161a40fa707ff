//! The modal input engine.

use crate::document::{opened, Document, SaveError};
use crate::editing::{broken, erased, indent_from, typed, typed_times};
use crate::event::{Key, KeyEvent, Mod};
use crate::modes::Mode;
use crate::motion::{
    end_of, is_horizontal, scrolled, settled, target, valid_place, width_at,
};
use crate::status_message::StatusMessage;
use crate::terminal::{text_area, Terminal};
use crate::text::{least, rendered};
use crate::ui::{command_read, palette_step, run_command_mode, App, Command, State};
use crate::words::{skip_backward, skip_forward};
use vstd::prelude::*;
use vstd::std_specs::convert::FromSpecImpl;
use vstd::string::StringExecFns;

verus! {

/// A place in a document: column `x` of line `y`.
#[derive(Clone, Copy, Debug, PartialEq, Eq, Structural)]
pub struct Position {
    pub x: usize,
    pub y: usize,
}

impl Default for Position {
    fn default() -> (position: Self)
        ensures
            position == (Position { x: 0, y: 0 }),
    {
        Position { x: 0, y: 0 }
    }
}

impl From<(u16, u16)> for Position {
    fn from(coord: (u16, u16)) -> (position: Self) {
        Position { x: coord.0 as usize, y: coord.1 as usize }
    }
}

impl FromSpecImpl<(u16, u16)> for Position {
    open spec fn obeys_from_spec() -> bool {
        true
    }

    open spec fn from_spec(coord: (u16, u16)) -> Self {
        Position { x: coord.0 as usize, y: coord.1 as usize }
    }
}

impl From<(usize, usize)> for Position {
    fn from(coord: (usize, usize)) -> (position: Self) {
        Position { x: coord.0, y: coord.1 }
    }
}

impl FromSpecImpl<(usize, usize)> for Position {
    open spec fn obeys_from_spec() -> bool {
        true
    }

    open spec fn from_spec(coord: (usize, usize)) -> Self {
        Position { x: coord.0, y: coord.1 }
    }
}

/// A value that is shown by its debug text.
#[derive(Debug)]
pub struct Object<T: core::fmt::Debug> {
    pub obj: T,
}

impl Position {
    /// The position at column `x` of line `y`.
    pub fn new(x: usize, y: usize) -> (position: Self)
        ensures
            position == (Position { x, y }),
    {
        Position { x, y }
    }
}

/// How long a `g` waits for a second one, in milliseconds.
pub const SECOND_KEY_WAIT: u64 = 500;

/// What the key press `key` asks the owner for in Normal mode.
pub open spec fn request_of(key: KeyEvent) -> Request {
    if key.code == Key::Char('w') && key.modifiers.alt {
        Request::Save
    } else {
        Request::Nothing
    }
}

/// What the owner of the editor is asked to do after a key press.
#[derive(Clone, Copy, Debug, PartialEq, Eq, Structural)]
pub enum Request {
    /// Nothing.
    Nothing,
    /// Write the document to its file.
    Save,
}

/// The editor: a document, the cursor in it, and the mode that key presses
/// are read in.
pub struct Editor {
    pub mode: Mode,
    pub offset: Position,
    pub document: Document,
    pub terminal: Terminal,
    pub cursor_position: Position,
    pub sticky_column: usize,
    pub should_quit: bool,
    pub status: StatusMessage,
    pub app: App,
    pub prev_cursor_position: Position,
}

impl Editor {
    /// The document is well formed.
    pub open spec fn wf(&self) -> bool {
        self.document.wf()
    }

    /// The cursor is at a place of the document.
    pub open spec fn cursor_valid(&self) -> bool {
        valid_place(self.document@, self.cursor_position.x as int, self.cursor_position.y as int)
    }

    /// The number of lines that a page motion moves by.
    pub open spec fn page(&self) -> int {
        self.terminal.area().height as int
    }

    /// The editor with the cursor at the place nearest to `(x, y)`.
    pub open spec fn at(self, x: int, y: int) -> Editor {
        Editor {
            cursor_position: Position {
                x: settled(self.document@, x, y).0 as usize,
                y: settled(self.document@, x, y).1 as usize,
            },
            ..self
        }
    }

    /// The editor with the cursor at the place nearest to `(x, y)`, and that
    /// column remembered for motions from line to line.
    pub open spec fn along(self, x: int, y: int) -> Editor {
        Editor { sticky_column: settled(self.document@, x, y).0 as usize, ..self.at(x, y) }
    }

    /// The editor after the motion key `c`.
    pub open spec fn moved(self, c: char) -> Editor {
        let aim = target(
            self.document@,
            self.cursor_position.x as int,
            self.cursor_position.y as int,
            self.sticky_column as int,
            self.page(),
            c,
        );
        if is_horizontal(c) {
            self.along(aim.0, aim.1)
        } else {
            self.at(aim.0, aim.1)
        }
    }


    /// The editor after the key press `key` in Normal mode.
    ///
    /// Control-q asks to quit. `i`, `a` and `A` change to Insert mode: where
    /// the cursor is, one column on, and at the end of the line. `:` changes
    /// to Command mode and remembers the cursor. Every other character is a
    /// motion, or nothing. The document stays as it is, and the cursor is
    /// settled in it whatever the key.
    pub open spec fn after_normal(self, key: KeyEvent) -> Editor {
        let x = self.cursor_position.x as int;
        let y = self.cursor_position.y as int;
        match key.code {
            Key::Char(c) => if c == 'q' && key.modifiers.control {
                Editor { should_quit: true, ..self.at(x, y) }
            } else if c == 'w' && key.modifiers.alt {
                self.at(x, y)
            } else if c == 'i' {
                Editor { mode: Mode::Insert, ..self.at(x, y) }
            } else if c == 'a' {
                Editor { mode: Mode::Insert, ..self.along(x + 1, y) }
            } else if c == 'A' {
                Editor { mode: Mode::Insert, ..self.along(width_at(self.document@, y), y) }
            } else if c == ':' {
                Editor {
                    mode: Mode::Command,
                    prev_cursor_position: self.cursor_position,
                    ..self.at(x, y)
                }
            } else {
                self.moved(c)
            },
            _ => self.at(x, y),
        }
    }

    /// `after` is the editor with the text and the cursor of `page`, that
    /// column remembered, and nothing else changed.
    pub open spec fn edited(self, page: (Seq<Seq<char>>, int, int), after: Editor) -> bool {
        &&& after.document@ == page.0
        &&& after.document.wf()
        &&& after.document.filename == self.document.filename
        &&& after.cursor_position.x == page.1
        &&& after.cursor_position.y == page.2
        &&& after.sticky_column == page.1
        &&& after.mode == self.mode
        &&& after.offset == self.offset
        &&& after.terminal == self.terminal
        &&& after.should_quit == self.should_quit
        &&& after.status == self.status
        &&& after.app == self.app
        &&& after.prev_cursor_position == self.prev_cursor_position
    }

    /// How the key press `key` changes the editor in Insert mode.
    ///
    /// The arrows move as `h`, `l`, `k` and `j` do. Escape changes to Normal
    /// mode, one column back. Backspace deletes, Enter breaks the line, Tab
    /// types four spaces and a character types itself. Any other key only
    /// settles the cursor.
    pub open spec fn insert_step(self, key: KeyEvent, after: Editor) -> bool {
        let lines = self.document@;
        let x = self.cursor_position.x as int;
        let y = self.cursor_position.y as int;
        match key.code {
            Key::Left => after == self.moved('h'),
            Key::Right => after == self.moved('l'),
            Key::Up => after == self.moved('k'),
            Key::Down => after == self.moved('j'),
            Key::Esc => after == (Editor {
                mode: Mode::Normal,
                ..self.along(if x > 0 {
                    x - 1
                } else {
                    0
                }, y)
            }),
            Key::Backspace => self.edited(erased(lines, x, y), after),
            Key::Enter => self.edited(broken(lines, x, y), after),
            Key::Tab => self.edited(typed_times(lines, x, y, ' ', 4), after),
            Key::Char(c) => self.edited(typed(lines, x, y, c), after),
            _ => after == self.at(x, y),
        }
    }

    /// How the key press `key` changes the editor in Command mode.
    ///
    /// The palette reads the key. Escape changes to Normal mode and puts the
    /// cursor back where it was when Command mode was entered. A command
    /// that Enter calls up is carried out: the editor changes to the mode
    /// that it names and handles its key press there. Any other key only
    /// settles the cursor.
    pub open spec fn command_step(self, key: KeyEvent, after: Editor) -> bool {
        &&& palette_step(self.app, key, after.app)
        &&& after == match key.code {
            Key::Esc => Editor {
                mode: Mode::Normal,
                app: after.app,
                ..self.at(self.prev_cursor_position.x as int, self.prev_cursor_position.y as int)
            },
            _ => match command_read(self.app.input@, key) {
                Command::Instruction(mode, press) => Editor {
                    app: after.app,
                    ..(Editor { mode, ..self }).after_normal(press)
                },
                Command::Nothing => Editor {
                    app: after.app,
                    ..self.at(self.cursor_position.x as int, self.cursor_position.y as int)
                },
            },
        }
    }

    /// What the key press `key` asks the owner for in Command mode.
    pub open spec fn request_read(self, key: KeyEvent) -> Request {
        match command_read(self.app.input@, key) {
            Command::Instruction(mode, press) => request_of(press),
            Command::Nothing => Request::Nothing,
        }
    }

    /// What the key press `key` asks the owner for in the editor's mode.
    pub open spec fn request_in(self, key: KeyEvent) -> Request {
        match self.mode {
            Mode::Normal => request_of(key),
            Mode::Insert => Request::Nothing,
            Mode::Command => self.request_read(key),
        }
    }

    /// How the key press `key` changes the editor, by its mode.
    pub open spec fn step(self, key: KeyEvent, after: Editor) -> bool {
        match self.mode {
            Mode::Normal => after == self.after_normal(key),
            Mode::Insert => self.insert_step(key, after),
            Mode::Command => self.command_step(key, after),
        }
    }

    /// The editor with the view moved so that it shows the cursor.
    pub open spec fn in_view(self) -> Editor {
        Editor {
            offset: Position {
                x: scrolled(
                    self.offset.x as int,
                    self.cursor_position.x as int,
                    self.terminal.area().width as int,
                ) as usize,
                y: scrolled(
                    self.offset.y as int,
                    self.cursor_position.y as int,
                    self.terminal.area().height as int,
                ) as usize,
            },
            ..self
        }
    }

    /// The width of line `y`; 0 if there is no such line.
    fn line_width(&self, y: usize) -> (width: usize)
        requires
            self.wf(),
        ensures
            width == width_at(self.document@, y as int),
    {
        if y < self.document.lines.len() {
            self.document.lines[y].width()
        } else {
            0
        }
    }

    /// The column of the last cluster of line `y`.
    fn line_end(&self, y: usize) -> (column: usize)
        requires
            self.wf(),
        ensures
            column == end_of(self.document@, y as int),
    {
        self.line_width(y).saturating_sub(1)
    }

    /// Puts the cursor at the place nearest to `(x, y)`.
    fn place(&mut self, x: usize, y: usize)
        requires
            old(self).wf(),
        ensures
            *final(self) == old(self).at(x as int, y as int),
            final(self).cursor_valid(),
    {
        let last = self.document.lines.len().saturating_sub(1);
        let y = if y < last {
            y
        } else {
            last
        };
        let width = self.line_width(y);
        let x = if x < width {
            x
        } else {
            width
        };
        self.cursor_position = Position { x, y };
    }

    /// Where the motion key `c` aims.
    fn aim(&self, c: char) -> (aim: (usize, usize))
        requires
            self.wf(),
        ensures
            (aim.0 as int, aim.1 as int) == settled(
                self.document@,
                target(
                    self.document@,
                    self.cursor_position.x as int,
                    self.cursor_position.y as int,
                    self.sticky_column as int,
                    self.page(),
                    c,
                ).0,
                target(
                    self.document@,
                    self.cursor_position.x as int,
                    self.cursor_position.y as int,
                    self.sticky_column as int,
                    self.page(),
                    c,
                ).1,
            ),
    {
        let x = self.cursor_position.x;
        let y = self.cursor_position.y;
        let sticky = self.sticky_column;
        let page: usize = self.terminal.size().height as usize;
        let last = self.document.lines.len().saturating_sub(1);
        let aim: (usize, usize) = if c == 'k' {
            (sticky, y.saturating_sub(1))
        } else if c == 'j' {
            (sticky, if y < last {
                y + 1
            } else {
                y
            })
        } else if c == 'K' {
            (sticky, y.saturating_sub(page))
        } else if c == 'J' {
            (sticky, y.saturating_add(page))
        } else if c == 'g' {
            (sticky, 0)
        } else if c == 'G' {
            (sticky, last)
        } else if c == 'h' {
            if x > 0 {
                (x - 1, y)
            } else if y > 0 {
                (self.line_end(y - 1), y - 1)
            } else {
                (x, y)
            }
        } else if c == 'l' {
            if x < self.line_width(y) {
                (x + 1, y)
            } else if y < last {
                (0, y + 1)
            } else {
                (x, y)
            }
        } else if c == '0' {
            (0, y)
        } else if c == 's' {
            (self.line_end(y), y)
        } else if c == 'S' {
            if y < self.document.lines.len() {
                let clusters = self.document.lines[y].graphemes();
                (skip_forward(&clusters, 0, true), y)
            } else {
                (0, y)
            }
        } else if c == 'w' {
            let next: usize = if y < self.document.lines.len() {
                let clusters = self.document.lines[y].graphemes();
                skip_forward(&clusters, skip_forward(&clusters, x, false), true)
            } else {
                x
            };
            if next < self.line_width(y) {
                (next, y)
            } else if y < last {
                (0, y + 1)
            } else {
                (self.line_end(y), y)
            }
        } else if c == 'b' {
            if x > 0 {
                if y < self.document.lines.len() {
                    let clusters = self.document.lines[y].graphemes();
                    (skip_backward(&clusters, skip_backward(&clusters, x, true), false), y)
                } else {
                    (x, y)
                }
            } else if y > 0 {
                (self.line_end(y - 1), y - 1)
            } else {
                (x, y)
            }
        } else {
            (x, y)
        };
        let line = if aim.1 < last {
            aim.1
        } else {
            last
        };
        let width = self.line_width(line);
        (if aim.0 < width {
            aim.0
        } else {
            width
        }, line)
    }
    /// Whether the document's cached lengths are right.
    pub fn is_consistent(&self) -> (consistent: bool)
        ensures
            consistent == self.wf(),
    {
        self.document.is_consistent()
    }

    /// The editor at start-up, in Normal mode at the top of its document.
    ///
    /// `path` is the file named on start-up, if any, and `lines` what was
    /// read from it, if it could be read. A file that was read is opened. With
    /// no file, or one that could not be read, the document is empty and
    /// bound to no file; for the file that could not be read the status line
    /// says so. The screen has `columns` by `rows`, and `now` is the time.
    pub fn new(
        path: Option<String>,
        lines: Option<Vec<String>>,
        columns: u16,
        rows: u16,
        now: u64,
    ) -> (editor: Self)
        ensures
            editor.wf(),
            editor.cursor_valid(),
            editor.mode == Mode::Normal,
            !editor.should_quit,
            editor.cursor_position == (Position { x: 0, y: 0 }),
            editor.prev_cursor_position == (Position { x: 0, y: 0 }),
            editor.offset == (Position { x: 0, y: 0 }),
            editor.sticky_column == 0,
            editor.terminal.area() == text_area(columns, rows),
            editor.app.input@ == Seq::<char>::empty(),
            editor.app.current_command@ == Seq::<char>::empty(),
            editor.app.state == State::Fine,
            editor.app.commands.selected is None,
            editor.app.commands.items.deep_view() == seq!["SAVE FILE"@, "QUIT"@],
            editor.status.time == now,
            match (path, lines) {
                (Some(name), Some(text)) => {
                    &&& editor.document@ == opened(text.deep_view())
                    &&& editor.document.filename == Some(name)
                    &&& editor.status.text@ == "Press CTRL + Q to QUIT."@
                },
                (Some(name), None) => {
                    &&& editor.document@ == Seq::<Seq<char>>::empty()
                    &&& editor.document.filename is None
                    &&& editor.status.text@ == "ERR: Could not open file: "@ + name@
                },
                (None, _) => {
                    &&& editor.document@ == Seq::<Seq<char>>::empty()
                    &&& editor.document.filename is None
                    &&& editor.status.text@ == "Press CTRL + Q to QUIT."@
                },
            },
    {
        let mut initial_status = String::from_str("Press CTRL + Q to QUIT.");
        let document = match path {
            Some(name) => match lines {
                Some(text) => Document::open(name, text),
                None => {
                    initial_status = String::from_str("ERR: Could not open file: ").concat(
                        name.as_str(),
                    );
                    Document::default()
                },
            },
            None => Document::default(),
        };
        Editor {
            mode: Mode::Normal,
            offset: Position { x: 0, y: 0 },
            document,
            terminal: Terminal::new(columns, rows),
            cursor_position: Position { x: 0, y: 0 },
            sticky_column: 0,
            should_quit: false,
            status: StatusMessage::new(initial_status, now),
            app: App::default(),
            prev_cursor_position: Position { x: 0, y: 0 },
        }
    }

    /// Posts how writing the document went, at the time `now`.
    pub fn report_save(&mut self, outcome: Result<(), SaveError>, now: u64)
        ensures
            *final(self) == (Editor { status: final(self).status, ..*old(self) }),
            final(self).status.time == now,
            final(self).status.text@ == match outcome {
                Ok(_) => "File written."@,
                Err(SaveError::NoFilename) => "ERR: No file name to write to."@,
                Err(SaveError::WriteFailed) => "ERR: Could not write file."@,
            },
    {
        let text = match outcome {
            Ok(_) => String::from_str("File written."),
            Err(SaveError::NoFilename) => String::from_str("ERR: No file name to write to."),
            Err(SaveError::WriteFailed) => String::from_str("ERR: Could not write file."),
        };
        self.status = StatusMessage::new(text, now);
    }

    /// Carries out the motion key `c`.
    fn move_cursor(&mut self, c: char)
        requires
            old(self).wf(),
        ensures
            *final(self) == old(self).moved(c),
            final(self).cursor_valid(),
    {
        let aim = self.aim(c);
        self.cursor_position = Position { x: aim.0, y: aim.1 };
        if c == 'h' || c == 'l' || c == '0' || c == 's' || c == 'S' || c == 'w' || c == 'b' {
            self.sticky_column = aim.0;
        }
    }

    /// Puts the cursor at the place nearest to `(x, y)` and remembers the
    /// column.
    fn place_along(&mut self, x: usize, y: usize)
        requires
            old(self).wf(),
        ensures
            *final(self) == old(self).along(x as int, y as int),
            final(self).cursor_valid(),
    {
        self.place(x, y);
        self.sticky_column = self.cursor_position.x;
    }

    /// Changes the mode.
    pub fn change_mode(&mut self, change_to: Mode)
        ensures
            *final(self) == (Editor { mode: change_to, ..*old(self) }),
    {
        self.mode = change_to;
    }

    /// The key press of `key` with the modifiers `modifier`.
    pub fn create_event(&self, key: Key, modifier: Mod) -> (event: KeyEvent)
        ensures
            event == (KeyEvent { code: key, modifiers: modifier }),
    {
        KeyEvent { code: key, modifiers: modifier }
    }

    /// Handles a key press in Normal mode and says what it asks the owner
    /// for: alt-w asks to save the document.
    pub fn normal_mode(&mut self, key: KeyEvent) -> (request: Request)
        requires
            old(self).wf(),
        ensures
            *final(self) == old(self).after_normal(key),
            request == request_of(key),
            final(self).wf(),
            final(self).cursor_valid(),
    {
        let at = self.cursor_position;
        match key.code {
            Key::Char(c) => {
                if c == 'q' && key.modifiers.control {
                    self.should_quit = true;
                    self.place(at.x, at.y);
                    Request::Nothing
                } else if c == 'w' && key.modifiers.alt {
                    self.place(at.x, at.y);
                    Request::Save
                } else if c == 'i' {
                    self.mode = Mode::Insert;
                    self.place(at.x, at.y);
                    Request::Nothing
                } else if c == 'a' {
                    self.mode = Mode::Insert;
                    self.place_along(at.x.saturating_add(1), at.y);
                    Request::Nothing
                } else if c == 'A' {
                    self.mode = Mode::Insert;
                    let width = self.line_width(at.y);
                    self.place_along(width, at.y);
                    Request::Nothing
                } else if c == ':' {
                    self.mode = Mode::Command;
                    self.prev_cursor_position = at;
                    self.place(at.x, at.y);
                    Request::Nothing
                } else {
                    self.move_cursor(c);
                    Request::Nothing
                }
            },
            _ => {
                self.place(at.x, at.y);
                Request::Nothing
            },
        }
    }

    /// The indentation for a line under line `y`: the number of blank
    /// columns that line `y` starts with or, if it starts with none, the
    /// nearest line below it that starts with some.
    pub fn check_current_then_below_for_whitespace(&self, y: usize) -> (indent: usize)
        ensures
            indent == indent_from(self.document@, y as int),
    {
        let mut i: usize = y;
        while i < self.document.lines.len()
            invariant
                indent_from(self.document@, y as int) == indent_from(self.document@, i as int),
            decreases self.document.lines.len() - i,
        {
            let clusters = self.document.lines[i].graphemes();
            let indent = skip_forward(&clusters, 0, true);
            if indent > 0 {
                return indent;
            }
            i += 1;
        }
        0
    }

    /// Types `c` at the cursor.
    fn type_char(&mut self, c: char)
        requires
            old(self).wf(),
        ensures
            old(self).edited(
                typed(
                    old(self).document@,
                    old(self).cursor_position.x as int,
                    old(self).cursor_position.y as int,
                    c,
                ),
                *final(self),
            ),
            final(self).cursor_valid(),
    {
        let at = self.cursor_position;
        self.document.insert(c, &at);
        self.place_along(at.x.saturating_add(1), at.y);
    }

    /// Deletes at the cursor.
    fn erase(&mut self)
        requires
            old(self).wf(),
        ensures
            old(self).edited(
                erased(
                    old(self).document@,
                    old(self).cursor_position.x as int,
                    old(self).cursor_position.y as int,
                ),
                *final(self),
            ),
            final(self).cursor_valid(),
    {
        let at = self.cursor_position;
        let height = self.document.lines.len();
        let above: usize = if at.y > 0 {
            self.line_width(at.y - 1)
        } else {
            0
        };
        let below: bool = !(at.x == 0 && at.y > 0) && at.y < height && at.y + 1 < height && at.x
            == self.line_width(at.y);
        let joined = self.document.delete(&at);
        if joined {
            self.place_along(above, at.y - 1);
        } else if below || at.x == 0 {
            self.place_along(at.x, at.y);
        } else {
            self.place_along(at.x - 1, at.y);
        }
    }

    /// Breaks the line at the cursor.
    fn break_line(&mut self)
        requires
            old(self).wf(),
        ensures
            old(self).edited(
                broken(
                    old(self).document@,
                    old(self).cursor_position.x as int,
                    old(self).cursor_position.y as int,
                ),
                *final(self),
            ),
            final(self).cursor_valid(),
    {
        let at = self.cursor_position;
        if at.y < self.document.lines.len() {
            self.document.enter(&at);
            let indent = self.check_current_then_below_for_whitespace(at.y);
            self.document.indent(at.y + 1, indent);
            self.place_along(indent, at.y + 1);
        } else {
            self.place_along(at.x, at.y);
        }
    }

    /// Handles a key press in Insert mode.
    pub fn insert_mode(&mut self, key: KeyEvent)
        requires
            old(self).wf(),
        ensures
            old(self).insert_step(key, *final(self)),
            final(self).wf(),
            final(self).cursor_valid(),
    {
        let at = self.cursor_position;
        match key.code {
            Key::Left => self.move_cursor('h'),
            Key::Right => self.move_cursor('l'),
            Key::Up => self.move_cursor('k'),
            Key::Down => self.move_cursor('j'),
            Key::Esc => {
                self.mode = Mode::Normal;
                self.place_along(at.x.saturating_sub(1), at.y);
            },
            Key::Backspace => self.erase(),
            Key::Enter => self.break_line(),
            Key::Tab => {
                let mut i: usize = 0;
                while i < 4
                    invariant
                        i <= 4,
                        self.wf(),
                        i > 0 ==> self.cursor_valid(),
                        i == 0 ==> *self == *old(self),
                        i > 0 ==> old(self).edited(
                            typed_times(
                                old(self).document@,
                                old(self).cursor_position.x as int,
                                old(self).cursor_position.y as int,
                                ' ',
                                i as nat,
                            ),
                            *self,
                        ),
                    decreases 4 - i,
                {
                    let ghost before = typed_times(
                        old(self).document@,
                        old(self).cursor_position.x as int,
                        old(self).cursor_position.y as int,
                        ' ',
                        i as nat,
                    );
                    self.type_char(' ');
                    i += 1;
                    assert(typed_times(
                        old(self).document@,
                        old(self).cursor_position.x as int,
                        old(self).cursor_position.y as int,
                        ' ',
                        i as nat,
                    ) == typed(before.0, before.1, before.2, ' '));
                }
            },
            Key::Char(c) => self.type_char(c),
            _ => self.place(at.x, at.y),
        }
    }

    /// Handles a key press in Command mode and says what it asks the owner
    /// for.
    pub fn command_mode(&mut self, key: KeyEvent) -> (request: Request)
        requires
            old(self).wf(),
        ensures
            old(self).command_step(key, *final(self)),
            request == old(self).request_read(key),
            final(self).wf(),
            final(self).cursor_valid(),
    {
        let command = run_command_mode(&mut self.app, key);
        match key.code {
            Key::Esc => {
                self.mode = Mode::Normal;
                let prev = self.prev_cursor_position;
                self.place(prev.x, prev.y);
                Request::Nothing
            },
            _ => match command {
                Command::Instruction(mode, press) => {
                    self.change_mode(mode);
                    self.normal_mode(press)
                },
                Command::Nothing => {
                    let at = self.cursor_position;
                    self.place(at.x, at.y);
                    Request::Nothing
                },
            },
        }
    }

    /// Hands a key press to the handler of the editor's mode.
    pub fn check_mode(&mut self, key: KeyEvent) -> (request: Request)
        requires
            old(self).wf(),
        ensures
            old(self).step(key, *final(self)),
            request == old(self).request_in(key),
            final(self).wf(),
            final(self).cursor_valid(),
    {
        match self.mode {
            Mode::Normal => self.normal_mode(key),
            Mode::Command => self.command_mode(key),
            Mode::Insert => {
                self.insert_mode(key);
                Request::Nothing
            },
        }
    }

    /// Moves the view so that it shows the cursor.
    pub fn scroll(&mut self)
        ensures
            *final(self) == old(self).in_view(),
    {
        let at = self.cursor_position;
        let width: usize = self.terminal.size().width as usize;
        let height: usize = self.terminal.size().height as usize;
        let mut offset = self.offset;
        if at.y < offset.y {
            offset.y = at.y;
        } else if at.y - offset.y >= height {
            offset.y = (at.y - height).saturating_add(1);
        }
        if at.x < offset.x {
            offset.x = at.x;
        } else if at.x - offset.x >= width {
            offset.x = (at.x - width).saturating_add(1);
        }
        self.offset = offset;
    }

    /// Whether the owner is to wait, for up to `SECOND_KEY_WAIT` milliseconds,
    /// for a second key before it hands `key` over: in Normal mode a `g` may
    /// be the first of two. Alone or doubled it goes to the start of the
    /// document, so the key is handed over whatever the wait brought.
    pub fn awaits_second_key(&self, key: KeyEvent) -> (awaits: bool)
        ensures
            awaits == (self.mode == Mode::Normal && key.code == Key::Char('g')),
    {
        match self.mode {
            Mode::Normal => match key.code {
                Key::Char(c) => c == 'g',
                _ => false,
            },
            _ => false,
        }
    }

    /// Where the cursor stands on the screen, counted from the first column
    /// and line shown.
    pub fn screen_cursor(&self) -> (place: Position)
        ensures
            place.x == if self.cursor_position.x >= self.offset.x {
                self.cursor_position.x - self.offset.x
            } else {
                0
            },
            place.y == if self.cursor_position.y >= self.offset.y {
                self.cursor_position.y - self.offset.y
            } else {
                0
            },
    {
        Position {
            x: self.cursor_position.x.saturating_sub(self.offset.x),
            y: self.cursor_position.y.saturating_sub(self.offset.y),
        }
    }

    /// What row `row` of the screen shows of the document: the columns in
    /// view of the line in that row, or nothing when the document ends above
    /// it.
    pub fn draw_row(&self, row: usize) -> (text: Option<String>)
        ensures
            match text {
                Some(text) => {
                    &&& self.offset.y + row < self.document@.len()
                    &&& text@ == rendered(
                        self.document@[self.offset.y + row],
                        self.offset.x as int,
                        least(self.offset.x + self.terminal.area().width, usize::MAX as int),
                    )
                },
                None => self.offset.y + row >= self.document@.len(),
            },
    {
        let width: usize = self.terminal.size().width as usize;
        assert(self.document.lines.len() <= usize::MAX);
        match self.offset.y.checked_add(row) {
            Some(line) => match self.document.buffer(line) {
                Some(buffer) => {
                    assert(self.document@[line as int] == buffer@);
                    Some(buffer.render(self.offset.x, self.offset.x.saturating_add(width)))
                },
                None => None,
            },
            None => None,
        }
    }

    /// Handles one key press: the handler of the mode reads it, then the
    /// view follows the cursor. Says what the key press asks the owner for.
    pub fn process_keypress(&mut self, key: KeyEvent) -> (request: Request)
        requires
            old(self).wf(),
        ensures
            old(self).step(key, (Editor { offset: old(self).offset, ..*final(self) })),
            *final(self) == (Editor { offset: old(self).offset, ..*final(self) }).in_view(),
            request == old(self).request_in(key),
            final(self).wf(),
            final(self).cursor_valid(),
    {
        let request = self.check_mode(key);
        self.scroll();
        request
    }
}

} // verus!