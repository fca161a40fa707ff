//! The modes of the editor.

use vstd::prelude::*;
use vstd::string::StringExecFns;

verus! {

/// How key presses are read.
#[derive(Clone, Copy, Debug, PartialEq, Eq, Structural)]
pub enum Mode {
    Insert,
    Normal,
    Command,
}

impl Mode {
    /// The text that the status bar shows for the mode.
    pub open spec fn label(self) -> Seq<char> {
        match self {
            Mode::Insert => "MODE: INSERT"@,
            Mode::Normal => "MODE: NORMAL"@,
            Mode::Command => "MODE: COMMAND"@,
        }
    }

    /// The mode, spelled out for the status bar.
    pub fn to_string(&self) -> (text: String)
        ensures
            text@ == self.label(),
    {
        match self {
            Mode::Insert => String::from_str("MODE: INSERT"),
            Mode::Normal => String::from_str("MODE: NORMAL"),
            Mode::Command => String::from_str("MODE: COMMAND"),
        }
    }
}

} // verus!
