//! The command palette: the text typed in Command mode and what it means.

use crate::event::{Key, KeyEvent, Mod};
use crate::modes::Mode;
use crate::text::{push_char, to_uppercase, uppercased};
use vstd::prelude::*;
use vstd::string::StringExecFns;

verus! {

/// What the editor is to do once a command was read.
#[derive(Clone, Copy, Debug, PartialEq, Eq, Structural)]
pub enum Command {
    /// Change to the mode and handle the key press there.
    Instruction(Mode, KeyEvent),
    /// Nothing.
    Nothing,
}

/// How the palette took the last command.
#[derive(Clone, Copy, Debug, PartialEq, Eq, Structural)]
pub enum State {
    Fine,
    Success,
    InvalidCommand,
}

/// The index that follows `selected` in a list of `count` items, going round
/// to the first after the last.
pub open spec fn index_after(selected: Option<usize>, count: nat) -> usize {
    match selected {
        Some(i) => if i + 1 >= count {
            0
        } else {
            (i + 1) as usize
        },
        None => 0,
    }
}

/// The index before `selected` in a list of `count` items, going round to the
/// last before the first.
pub open spec fn index_before(selected: Option<usize>, count: nat) -> usize {
    match selected {
        Some(i) => if i == 0 {
            if count == 0 {
                0
            } else {
                (count - 1) as usize
            }
        } else {
            (i - 1) as usize
        },
        None => 0,
    }
}

/// The commands on offer, one of them selected or none.
pub struct StatefulList {
    pub selected: Option<usize>,
    pub items: Vec<String>,
}

impl Default for StatefulList {
    fn default() -> (list: Self)
        ensures
            list.selected is None,
            list.items.deep_view() == seq!["SAVE FILE"@, "QUIT"@],
    {
        let mut items: Vec<String> = Vec::new();
        items.push(String::from_str("SAVE FILE"));
        items.push(String::from_str("QUIT"));
        let list = StatefulList { selected: None, items };
        assert(list.items.deep_view() =~= seq!["SAVE FILE"@, "QUIT"@]);
        list
    }
}

impl StatefulList {
    /// Selects the item after the selected one, or the first.
    pub fn next(&mut self)
        ensures
            final(self).selected == Some(index_after(old(self).selected, old(self).items@.len())),
            final(self).items == old(self).items,
    {
        let i: usize = match self.selected {
            Some(i) => if i >= self.items.len() || i + 1 >= self.items.len() {
                0
            } else {
                i + 1
            },
            None => 0,
        };
        self.selected = Some(i);
    }

    /// Selects the item before the selected one, or the first.
    pub fn previous(&mut self)
        ensures
            final(self).selected == Some(index_before(old(self).selected, old(self).items@.len())),
            final(self).items == old(self).items,
    {
        let i: usize = match self.selected {
            Some(i) => if i == 0 {
                self.items.len().saturating_sub(1)
            } else {
                i - 1
            },
            None => 0,
        };
        self.selected = Some(i);
    }

    /// Selects nothing.
    pub fn unselect(&mut self)
        ensures
            final(self).selected is None,
            final(self).items == old(self).items,
    {
        self.selected = None;
    }
}

/// The state of the palette.
pub struct App {
    pub input: String,
    pub commands: StatefulList,
    pub state: State,
    pub current_command: String,
}

impl Default for App {
    fn default() -> (app: Self)
        ensures
            app.input@ == Seq::<char>::empty(),
            app.commands.selected is None,
            app.commands.items.deep_view() == seq!["SAVE FILE"@, "QUIT"@],
            app.state == State::Fine,
            app.current_command@ == Seq::<char>::empty(),
    {
        App {
            input: String::new(),
            commands: StatefulList::default(),
            state: State::Fine,
            current_command: String::new(),
        }
    }
}

/// The key press that saves the file in Normal mode.
pub open spec fn save_key() -> KeyEvent {
    KeyEvent { code: Key::Char('w'), modifiers: Mod { control: false, alt: true } }
}

/// The key press that quits in Normal mode.
pub open spec fn quit_key() -> KeyEvent {
    KeyEvent { code: Key::Char('q'), modifiers: Mod { control: true, alt: false } }
}

/// What the command `name` asks for. A name is matched letter for letter.
pub open spec fn command_of(name: Seq<char>) -> Command {
    if name == "SAVE FILE"@ {
        Command::Instruction(Mode::Normal, save_key())
    } else if name == "QUIT"@ {
        Command::Instruction(Mode::Normal, quit_key())
    } else {
        Command::Nothing
    }
}

/// Looks `name` up in the table of commands.
pub fn lookup_command(name: &str) -> (command: Command)
    ensures
        command == command_of(name@),
{
    let name = String::from_str(name);
    if name == String::from_str("SAVE FILE") {
        Command::Instruction(Mode::Normal, KeyEvent { code: Key::Char('w'), modifiers: Mod::alt() })
    } else if name == String::from_str("QUIT") {
        Command::Instruction(
            Mode::Normal,
            KeyEvent { code: Key::Char('q'), modifiers: Mod::control() },
        )
    } else {
        Command::Nothing
    }
}

/// `text` without its last character.
pub open spec fn without_last(text: Seq<char>) -> Seq<char> {
    if text.len() > 0 {
        text.drop_last()
    } else {
        text
    }
}

/// The command that the key press `key` calls up when `input` has been
/// typed: Enter looks the input up in upper case, no other key calls up one.
pub open spec fn command_read(input: Seq<char>, key: KeyEvent) -> Command {
    if key.code == Key::Enter {
        command_of(uppercased(input))
    } else {
        Command::Nothing
    }
}

/// How the key press `key` changes the palette from `before` to `after`.
///
/// Control-j selects the next command of the list. Any other character is
/// added to the input and marks the palette fine. Backspace takes the last
/// character away, Escape all of them. Enter keeps the input as the current
/// command and clears it, and marks the palette invalid unless the input
/// names a command. No other key changes anything.
pub open spec fn palette_step(before: App, key: KeyEvent, after: App) -> bool {
    &&& after.commands.items == before.commands.items
    &&& match key.code {
        Key::Char(c) => {
            &&& after.current_command == before.current_command
            &&& if c == 'j' && key.modifiers.control {
                &&& after.input == before.input
                &&& after.state == before.state
                &&& after.commands.selected == Some(
                    index_after(before.commands.selected, before.commands.items@.len()),
                )
            } else {
                &&& after.input@ == before.input@.push(c)
                &&& after.state == State::Fine
                &&& after.commands.selected == before.commands.selected
            }
        },
        Key::Backspace => {
            &&& after.input@ == without_last(before.input@)
            &&& after.state == before.state
            &&& after.commands.selected == before.commands.selected
            &&& after.current_command == before.current_command
        },
        Key::Esc => {
            &&& after.input@ == Seq::<char>::empty()
            &&& after.state == before.state
            &&& after.commands.selected == before.commands.selected
            &&& after.current_command == before.current_command
        },
        Key::Enter => {
            &&& after.input@ == Seq::<char>::empty()
            &&& after.current_command@ == before.input@
            &&& after.state == if command_read(before.input@, key) == Command::Nothing {
                State::InvalidCommand
            } else {
                State::Fine
            }
            &&& after.commands.selected == before.commands.selected
        },
        _ => after == before,
    }
}

/// Reads one key press in Command mode and hands back the command that it
/// calls up.
pub fn run_command_mode(app: &mut App, key: KeyEvent) -> (command: Command)
    ensures
        palette_step(*old(app), key, *final(app)),
        command == command_read(old(app).input@, key),
{
    match key.code {
        Key::Char(c) => {
            if c == 'j' && key.modifiers.control {
                app.commands.next();
            } else {
                app.state = State::Fine;
                push_char(&mut app.input, c);
            }
            Command::Nothing
        },
        Key::Backspace => {
            let n: usize = app.input.as_str().unicode_len();
            if n > 0 {
                app.input = String::from_str(app.input.as_str().substring_char(0, n - 1));
            }
            Command::Nothing
        },
        Key::Esc => {
            app.input = String::new();
            Command::Nothing
        },
        Key::Enter => {
            let name = to_uppercase(app.input.as_str());
            let command = lookup_command(name.as_str());
            app.current_command = app.input.clone();
            app.input = String::new();
            match command {
                Command::Nothing => {
                    app.state = State::InvalidCommand;
                },
                _ => {
                    app.state = State::Fine;
                },
            }
            command
        },
        _ => Command::Nothing,
    }
}

} // verus!
