//! A modal, line-oriented text-editing engine.
//!
//! Lines are indexed by grapheme cluster, a document is an ordered sequence of
//! lines, and the editor interprets key presses in Normal, Insert and Command
//! mode. Every function carries a contract that Verus proves.

pub mod document;
pub mod editing;
pub mod editor;
pub mod event;
pub mod gap_buffer;
pub mod modes;
pub mod motion;
pub mod rows;
pub mod screen;
pub mod status_message;
pub mod terminal;
pub mod text;
pub mod ui;
pub mod window;
pub mod words;
