use hecto::document::{Document, SaveError};
use hecto::editor::{Editor, Position, Request};
use hecto::event::{Key, KeyEvent, Mod};
use hecto::modes::Mode;
use hecto::ui::State;

fn editor(lines: &[&str]) -> Editor {
    Editor::new(
        Some(String::from("notes.txt")),
        Some(lines.iter().map(|line| line.to_string()).collect()),
        80,
        24,
        0,
    )
}

fn lines(editor: &Editor) -> Vec<String> {
    editor.document.lines.iter().map(|line| line.line()).collect()
}

fn key(code: Key) -> KeyEvent {
    KeyEvent { code, modifiers: Mod::none() }
}

fn press(editor: &mut Editor, c: char) -> Request {
    editor.process_keypress(key(Key::Char(c)))
}

fn type_text(editor: &mut Editor, text: &str) {
    for c in text.chars() {
        press(editor, c);
    }
}

fn at(editor: &mut Editor, x: usize, y: usize) {
    editor.cursor_position = Position { x, y };
    editor.sticky_column = x;
}

#[test]
fn w_then_b_returns_to_the_start_of_the_word() {
    let mut editor = editor(&["foo bar"]);
    at(&mut editor, 4, 0);
    press(&mut editor, 'w');
    assert_eq!(editor.cursor_position, Position { x: 6, y: 0 });
    press(&mut editor, 'b');
    assert_eq!(editor.cursor_position, Position { x: 4, y: 0 });
}

#[test]
fn w_goes_to_the_next_word() {
    let mut editor = editor(&["foo  bar baz", "next"]);
    press(&mut editor, 'w');
    assert_eq!(editor.cursor_position, Position { x: 5, y: 0 });
    press(&mut editor, 'w');
    assert_eq!(editor.cursor_position, Position { x: 9, y: 0 });
    // no word follows on the line: on to the next line
    press(&mut editor, 'w');
    assert_eq!(editor.cursor_position, Position { x: 0, y: 1 });
    // no word and no line follows: to the end of the line
    press(&mut editor, 'w');
    assert_eq!(editor.cursor_position, Position { x: 3, y: 1 });
    press(&mut editor, 'w');
    assert_eq!(editor.cursor_position, Position { x: 3, y: 1 });
}

#[test]
fn w_from_a_blank_goes_to_the_word_behind_it() {
    let mut editor = editor(&["a   b"]);
    at(&mut editor, 2, 0);
    press(&mut editor, 'w');
    assert_eq!(editor.cursor_position, Position { x: 4, y: 0 });
}

#[test]
fn b_goes_to_the_start_of_the_word() {
    let mut editor = editor(&["one", "foo  bar baz"]);
    at(&mut editor, 11, 1);
    press(&mut editor, 'b');
    assert_eq!(editor.cursor_position, Position { x: 9, y: 1 });
    press(&mut editor, 'b');
    assert_eq!(editor.cursor_position, Position { x: 5, y: 1 });
    press(&mut editor, 'b');
    assert_eq!(editor.cursor_position, Position { x: 0, y: 1 });
    // at the start of the line: to the end of the line above
    press(&mut editor, 'b');
    assert_eq!(editor.cursor_position, Position { x: 2, y: 0 });
    press(&mut editor, 'b');
    assert_eq!(editor.cursor_position, Position { x: 0, y: 0 });
    press(&mut editor, 'b');
    assert_eq!(editor.cursor_position, Position { x: 0, y: 0 });
}

#[test]
fn b_inside_a_word_goes_to_its_start() {
    let mut editor = editor(&["foo bar"]);
    at(&mut editor, 6, 0);
    press(&mut editor, 'b');
    assert_eq!(editor.cursor_position, Position { x: 4, y: 0 });
}

#[test]
fn enter_breaks_the_line_at_the_cursor() {
    let mut editor = editor(&["hello", "world"]);
    press(&mut editor, 'i');
    at(&mut editor, 5, 0);
    editor.process_keypress(key(Key::Enter));
    assert_eq!(lines(&editor), ["hello", "", "world"]);
    assert_eq!(editor.cursor_position, Position { x: 0, y: 1 });
    assert_eq!(editor.mode, Mode::Insert);
}

#[test]
fn enter_in_the_middle_of_a_line() {
    let mut editor = editor(&["hello-world"]);
    press(&mut editor, 'i');
    at(&mut editor, 5, 0);
    editor.process_keypress(key(Key::Enter));
    assert_eq!(lines(&editor), ["hello", "-world"]);
    assert_eq!(editor.cursor_position, Position { x: 0, y: 1 });
}

#[test]
fn enter_in_front_of_a_blank_indents_by_it() {
    // the new line starts with a blank, and no line above it is indented:
    // that blank is the indentation found, and as much is put in front
    let mut editor = editor(&["hello world"]);
    press(&mut editor, 'i');
    at(&mut editor, 5, 0);
    editor.process_keypress(key(Key::Enter));
    assert_eq!(lines(&editor), ["hello", "  world"]);
    assert_eq!(editor.cursor_position, Position { x: 1, y: 1 });
}

#[test]
fn enter_inherits_the_indentation_of_the_line() {
    let mut editor = editor(&["    let x = 1;", "end"]);
    press(&mut editor, 'A');
    editor.process_keypress(key(Key::Enter));
    assert_eq!(lines(&editor), ["    let x = 1;", "    ", "end"]);
    assert_eq!(editor.cursor_position, Position { x: 4, y: 1 });
    assert_eq!(editor.sticky_column, 4);
}

#[test]
fn enter_inherits_the_indentation_of_a_line_below() {
    let mut editor = editor(&["fn main() {", "", "\t\tbody", "}"]);
    press(&mut editor, 'A');
    editor.process_keypress(key(Key::Enter));
    assert_eq!(lines(&editor), ["fn main() {", "  ", "", "\t\tbody", "}"]);
    assert_eq!(editor.cursor_position, Position { x: 2, y: 1 });
}

#[test]
fn indentation_is_sought_downwards() {
    let editor = editor(&["a", "", "   b", " c", "d"]);
    assert_eq!(editor.check_current_then_below_for_whitespace(0), 3);
    assert_eq!(editor.check_current_then_below_for_whitespace(2), 3);
    assert_eq!(editor.check_current_then_below_for_whitespace(3), 1);
    assert_eq!(editor.check_current_then_below_for_whitespace(4), 0);
    assert_eq!(editor.check_current_then_below_for_whitespace(5), 0);
    assert_eq!(editor.check_current_then_below_for_whitespace(usize::MAX), 0);
}

#[test]
fn enter_in_an_empty_document_changes_nothing() {
    let mut editor = Editor::new(None, None, 80, 24, 0);
    press(&mut editor, 'i');
    editor.process_keypress(key(Key::Enter));
    assert!(editor.document.is_empty());
    assert_eq!(editor.cursor_position, Position { x: 0, y: 0 });
}

#[test]
fn backspace_at_the_very_start_is_a_no_op() {
    let mut editor = editor(&["ab"]);
    press(&mut editor, 'i');
    editor.process_keypress(key(Key::Backspace));
    assert_eq!(lines(&editor), ["ab"]);
    assert_eq!(editor.cursor_position, Position { x: 0, y: 0 });
}

#[test]
fn backspace_at_line_start_joins_the_lines() {
    let mut editor = editor(&["ab", "cd"]);
    press(&mut editor, 'i');
    at(&mut editor, 0, 1);
    editor.process_keypress(key(Key::Backspace));
    assert_eq!(lines(&editor), ["abcd"]);
    assert_eq!(editor.cursor_position, Position { x: 2, y: 0 });
    assert_eq!(editor.sticky_column, 2);
}

#[test]
fn backspace_deletes_to_the_left() {
    let mut editor = editor(&["abc"]);
    press(&mut editor, 'i');
    at(&mut editor, 2, 0);
    editor.process_keypress(key(Key::Backspace));
    assert_eq!(lines(&editor), ["ac"]);
    assert_eq!(editor.cursor_position, Position { x: 1, y: 0 });
    at(&mut editor, 2, 0);
    editor.process_keypress(key(Key::Backspace));
    assert_eq!(lines(&editor), ["a"]);
    assert_eq!(editor.cursor_position, Position { x: 1, y: 0 });
}

#[test]
fn backspace_at_the_end_of_a_line_joins_the_line_below() {
    let mut editor = editor(&["ab", "cd"]);
    press(&mut editor, 'i');
    at(&mut editor, 2, 0);
    editor.process_keypress(key(Key::Backspace));
    assert_eq!(lines(&editor), ["abcd"]);
    assert_eq!(editor.cursor_position, Position { x: 2, y: 0 });
}

#[test]
fn enter_then_backspace_restores_line_and_cursor() {
    let mut editor = editor(&["hello-world", "next"]);
    press(&mut editor, 'i');
    at(&mut editor, 5, 0);
    editor.process_keypress(key(Key::Enter));
    assert_eq!(editor.cursor_position, Position { x: 0, y: 1 });
    editor.process_keypress(key(Key::Backspace));
    assert_eq!(lines(&editor), ["hello-world", "next"]);
    assert_eq!(editor.cursor_position, Position { x: 5, y: 0 });
}

#[test]
fn typing_inserts_and_moves_on() {
    let mut editor = editor(&["ad"]);
    press(&mut editor, 'i');
    at(&mut editor, 1, 0);
    type_text(&mut editor, "bc");
    assert_eq!(lines(&editor), ["abcd"]);
    assert_eq!(editor.cursor_position, Position { x: 3, y: 0 });
    assert_eq!(editor.sticky_column, 3);
    assert_eq!(editor.mode, Mode::Insert);
}

#[test]
fn typing_into_an_empty_document_makes_the_first_line() {
    let mut editor = Editor::new(None, None, 80, 24, 0);
    assert!(editor.document.is_empty());
    press(&mut editor, 'i');
    type_text(&mut editor, "hi");
    assert_eq!(lines(&editor), ["hi"]);
    assert_eq!(editor.cursor_position, Position { x: 2, y: 0 });
}

#[test]
fn typing_a_combining_mark_keeps_the_cursor_in_the_line() {
    let mut editor = editor(&["e"]);
    press(&mut editor, 'A');
    press(&mut editor, '\u{301}');
    assert_eq!(lines(&editor), ["e\u{301}"]);
    // the line has one column, so the cursor cannot stand at column 2
    assert_eq!(editor.cursor_position, Position { x: 1, y: 0 });
}

#[test]
fn tab_types_four_spaces() {
    let mut editor = editor(&["ab"]);
    press(&mut editor, 'i');
    at(&mut editor, 1, 0);
    editor.process_keypress(key(Key::Tab));
    assert_eq!(lines(&editor), ["a    b"]);
    assert_eq!(editor.cursor_position, Position { x: 5, y: 0 });
}

#[test]
fn i_enters_insert_mode() {
    let mut editor = editor(&["abc"]);
    at(&mut editor, 1, 0);
    assert_eq!(editor.mode, Mode::Normal);
    press(&mut editor, 'i');
    assert_eq!(editor.mode, Mode::Insert);
    assert_eq!(editor.cursor_position, Position { x: 1, y: 0 });
}

#[test]
fn a_enters_insert_mode_one_column_on() {
    let mut editor = editor(&["abc"]);
    at(&mut editor, 1, 0);
    press(&mut editor, 'a');
    assert_eq!(editor.mode, Mode::Insert);
    assert_eq!(editor.cursor_position, Position { x: 2, y: 0 });
    let mut editor = editor_at_end();
    press(&mut editor, 'a');
    assert_eq!(editor.cursor_position, Position { x: 3, y: 0 });
}

fn editor_at_end() -> Editor {
    let mut editor = editor(&["abc"]);
    at(&mut editor, 3, 0);
    editor
}

#[test]
fn capital_a_enters_insert_mode_at_the_end() {
    let mut editor = editor(&["abc", "de"]);
    press(&mut editor, 'A');
    assert_eq!(editor.mode, Mode::Insert);
    assert_eq!(editor.cursor_position, Position { x: 3, y: 0 });
}

#[test]
fn escape_leaves_insert_mode_one_column_back() {
    let mut editor = editor(&["abc"]);
    press(&mut editor, 'i');
    at(&mut editor, 2, 0);
    editor.process_keypress(key(Key::Esc));
    assert_eq!(editor.mode, Mode::Normal);
    assert_eq!(editor.cursor_position, Position { x: 1, y: 0 });
    press(&mut editor, 'i');
    at(&mut editor, 0, 0);
    editor.process_keypress(key(Key::Esc));
    assert_eq!(editor.mode, Mode::Normal);
    assert_eq!(editor.cursor_position, Position { x: 0, y: 0 });
}

#[test]
fn escape_in_normal_mode_changes_nothing() {
    let mut editor = editor(&["abc"]);
    at(&mut editor, 2, 0);
    editor.process_keypress(key(Key::Esc));
    assert_eq!(editor.mode, Mode::Normal);
    assert_eq!(editor.cursor_position, Position { x: 2, y: 0 });
}

#[test]
fn colon_quit_enter_sets_the_quit_flag() {
    let mut editor = editor(&["abc"]);
    press(&mut editor, ':');
    assert_eq!(editor.mode, Mode::Command);
    type_text(&mut editor, "quit");
    assert_eq!(editor.app.input, "quit");
    assert!(!editor.should_quit);
    let request = editor.process_keypress(key(Key::Enter));
    assert!(editor.should_quit);
    assert_eq!(request, Request::Nothing);
    assert_eq!(editor.mode, Mode::Normal);
    assert_eq!(editor.app.input, "");
    assert_eq!(editor.app.state, State::Fine);
}

#[test]
fn commands_are_matched_without_regard_to_case() {
    for name in ["QUIT", "Quit", "qUiT"] {
        let mut editor = editor(&["abc"]);
        press(&mut editor, ':');
        type_text(&mut editor, name);
        editor.process_keypress(key(Key::Enter));
        assert!(editor.should_quit, "{}", name);
    }
}

#[test]
fn an_unknown_command_is_invalid() {
    let mut editor = editor(&["abc", "def"]);
    at(&mut editor, 2, 1);
    press(&mut editor, ':');
    type_text(&mut editor, "xyz");
    let request = editor.process_keypress(key(Key::Enter));
    assert_eq!(request, Request::Nothing);
    assert_eq!(editor.app.state, State::InvalidCommand);
    assert_eq!(editor.app.current_command, "xyz");
    assert_eq!(editor.app.input, "");
    assert_eq!(editor.mode, Mode::Command);
    assert!(!editor.should_quit);
    assert_eq!(lines(&editor), ["abc", "def"]);
    assert_eq!(editor.cursor_position, Position { x: 2, y: 1 });
}

#[test]
fn a_command_must_match_exactly() {
    for name in ["quit ", " quit", "qui", "quitt", "savefile", "save", ""] {
        let mut editor = editor(&["abc"]);
        press(&mut editor, ':');
        type_text(&mut editor, name);
        let request = editor.process_keypress(key(Key::Enter));
        assert_eq!(request, Request::Nothing, "{:?}", name);
        assert_eq!(editor.app.state, State::InvalidCommand, "{:?}", name);
        assert!(!editor.should_quit, "{:?}", name);
    }
}

#[test]
fn typing_after_an_invalid_command_clears_the_mark() {
    let mut editor = editor(&["abc"]);
    press(&mut editor, ':');
    type_text(&mut editor, "xyz");
    editor.process_keypress(key(Key::Enter));
    assert_eq!(editor.app.state, State::InvalidCommand);
    press(&mut editor, 'q');
    assert_eq!(editor.app.state, State::Fine);
    assert_eq!(editor.app.input, "q");
}

#[test]
fn save_file_asks_the_owner_to_save() {
    let mut editor = editor(&["abc"]);
    press(&mut editor, ':');
    type_text(&mut editor, "save file");
    let request = editor.process_keypress(key(Key::Enter));
    assert_eq!(request, Request::Save);
    assert_eq!(editor.mode, Mode::Normal);
    assert!(!editor.should_quit);
    assert_eq!(editor.document.save_file(), Ok(String::from("abc\n")));
}

#[test]
fn alt_w_asks_the_owner_to_save() {
    let mut editor = editor(&["abc"]);
    let request = editor.process_keypress(KeyEvent { code: Key::Char('w'), modifiers: Mod::alt() });
    assert_eq!(request, Request::Save);
    assert_eq!(editor.cursor_position, Position { x: 0, y: 0 });
    // in Insert mode it is a character
    press(&mut editor, 'i');
    let request = editor.process_keypress(KeyEvent { code: Key::Char('w'), modifiers: Mod::alt() });
    assert_eq!(request, Request::Nothing);
    assert_eq!(lines(&editor), ["wabc"]);
}

#[test]
fn control_q_quits_in_normal_mode_only() {
    let mut editor = editor(&["abc"]);
    press(&mut editor, 'q');
    assert!(!editor.should_quit);
    press(&mut editor, 'i');
    editor.process_keypress(KeyEvent { code: Key::Char('q'), modifiers: Mod::control() });
    assert!(!editor.should_quit);
    assert_eq!(lines(&editor), ["qabc"]);
    editor.process_keypress(key(Key::Esc));
    editor.process_keypress(KeyEvent { code: Key::Char('q'), modifiers: Mod::control() });
    assert!(editor.should_quit);
}

#[test]
fn escape_leaves_command_mode_and_restores_the_cursor() {
    let mut editor = editor(&["abc", "def"]);
    at(&mut editor, 2, 1);
    press(&mut editor, ':');
    assert_eq!(editor.prev_cursor_position, Position { x: 2, y: 1 });
    type_text(&mut editor, "qu");
    editor.cursor_position = Position { x: 0, y: 0 };
    editor.process_keypress(key(Key::Esc));
    assert_eq!(editor.mode, Mode::Normal);
    assert_eq!(editor.app.input, "");
    assert_eq!(editor.cursor_position, Position { x: 2, y: 1 });
    assert!(!editor.should_quit);
}

#[test]
fn backspace_in_command_mode_edits_the_input() {
    let mut editor = editor(&["abc"]);
    press(&mut editor, ':');
    type_text(&mut editor, "quix");
    editor.process_keypress(key(Key::Backspace));
    assert_eq!(editor.app.input, "qui");
    press(&mut editor, 't');
    editor.process_keypress(key(Key::Enter));
    assert!(editor.should_quit);
    assert_eq!(lines(&editor), ["abc"]);
}

#[test]
fn j_and_k_move_between_lines() {
    let mut editor = editor(&["one", "two", "three"]);
    press(&mut editor, 'k');
    assert_eq!(editor.cursor_position, Position { x: 0, y: 0 });
    press(&mut editor, 'j');
    assert_eq!(editor.cursor_position, Position { x: 0, y: 1 });
    press(&mut editor, 'j');
    press(&mut editor, 'j');
    press(&mut editor, 'j');
    assert_eq!(editor.cursor_position, Position { x: 0, y: 2 });
    press(&mut editor, 'k');
    assert_eq!(editor.cursor_position, Position { x: 0, y: 1 });
}

#[test]
fn the_column_is_remembered_across_shorter_lines() {
    let mut editor = editor(&["a long line", "ab", "", "another long one"]);
    at(&mut editor, 8, 0);
    press(&mut editor, 'j');
    assert_eq!(editor.cursor_position, Position { x: 2, y: 1 });
    assert_eq!(editor.sticky_column, 8);
    press(&mut editor, 'j');
    assert_eq!(editor.cursor_position, Position { x: 0, y: 2 });
    press(&mut editor, 'j');
    assert_eq!(editor.cursor_position, Position { x: 8, y: 3 });
    press(&mut editor, 'k');
    press(&mut editor, 'k');
    press(&mut editor, 'h');
    assert_eq!(editor.cursor_position, Position { x: 1, y: 1 });
    assert_eq!(editor.sticky_column, 1);
    press(&mut editor, 'k');
    assert_eq!(editor.cursor_position, Position { x: 1, y: 0 });
}

#[test]
fn h_and_l_move_along_the_line_and_wrap() {
    let mut editor = editor(&["ab", "cd"]);
    press(&mut editor, 'h');
    assert_eq!(editor.cursor_position, Position { x: 0, y: 0 });
    press(&mut editor, 'l');
    assert_eq!(editor.cursor_position, Position { x: 1, y: 0 });
    press(&mut editor, 'l');
    assert_eq!(editor.cursor_position, Position { x: 2, y: 0 });
    press(&mut editor, 'l');
    assert_eq!(editor.cursor_position, Position { x: 0, y: 1 });
    press(&mut editor, 'h');
    assert_eq!(editor.cursor_position, Position { x: 1, y: 0 });
    at(&mut editor, 2, 1);
    press(&mut editor, 'l');
    assert_eq!(editor.cursor_position, Position { x: 2, y: 1 });
}

#[test]
fn zero_s_and_capital_s_set_the_column() {
    let mut editor = editor(&["   indented", "", "    "]);
    at(&mut editor, 5, 0);
    press(&mut editor, '0');
    assert_eq!(editor.cursor_position, Position { x: 0, y: 0 });
    press(&mut editor, 's');
    assert_eq!(editor.cursor_position, Position { x: 10, y: 0 });
    press(&mut editor, 'S');
    assert_eq!(editor.cursor_position, Position { x: 3, y: 0 });
    assert_eq!(editor.sticky_column, 3);
    at(&mut editor, 0, 1);
    press(&mut editor, 's');
    assert_eq!(editor.cursor_position, Position { x: 0, y: 1 });
    press(&mut editor, 'S');
    assert_eq!(editor.cursor_position, Position { x: 0, y: 1 });
    at(&mut editor, 0, 2);
    press(&mut editor, 'S');
    assert_eq!(editor.cursor_position, Position { x: 4, y: 2 });
}

#[test]
fn pages_move_by_the_height_of_the_text_area() {
    let text: Vec<String> = (0..100).map(|i| format!("line {}", i)).collect();
    let mut editor = Editor::new(Some(String::from("f")), Some(text), 80, 24, 0);
    assert_eq!(editor.terminal.size().height, 21);
    press(&mut editor, 'J');
    assert_eq!(editor.cursor_position.y, 21);
    press(&mut editor, 'J');
    assert_eq!(editor.cursor_position.y, 42);
    press(&mut editor, 'K');
    assert_eq!(editor.cursor_position.y, 21);
    press(&mut editor, 'K');
    assert_eq!(editor.cursor_position.y, 0);
    press(&mut editor, 'K');
    assert_eq!(editor.cursor_position.y, 0);
    at(&mut editor, 0, 90);
    press(&mut editor, 'J');
    assert_eq!(editor.cursor_position.y, 99);
}

#[test]
fn g_and_capital_g_go_to_the_ends_of_the_document() {
    let mut editor = editor(&["one", "two", "three"]);
    press(&mut editor, 'G');
    assert_eq!(editor.cursor_position, Position { x: 0, y: 2 });
    press(&mut editor, 'g');
    assert_eq!(editor.cursor_position, Position { x: 0, y: 0 });
}

#[test]
fn motions_in_an_empty_document_stay_at_the_origin() {
    for c in ['h', 'j', 'k', 'l', 'w', 'b', '0', 's', 'S', 'J', 'K', 'g', 'G', 'a', 'A', 'x'] {
        let mut editor = Editor::new(None, None, 80, 24, 0);
        press(&mut editor, c);
        assert_eq!(editor.cursor_position, Position { x: 0, y: 0 }, "{}", c);
        assert!(editor.document.is_empty());
    }
}

#[test]
fn a_cursor_out_of_range_is_brought_back() {
    for c in ['h', 'j', 'k', 'l', 'w', 'b', '0', 's', 'S', 'J', 'K', 'g', 'G', 'i', 'a', 'A', ':'] {
        let mut editor = editor(&["ab", "cde"]);
        editor.cursor_position = Position { x: usize::MAX, y: usize::MAX };
        editor.sticky_column = usize::MAX;
        press(&mut editor, c);
        let Position { x, y } = editor.cursor_position;
        assert!(y < 2, "{}", c);
        assert!(x <= editor.document.lines[y].width(), "{}", c);
        assert_eq!(lines(&editor), ["ab", "cde"]);
    }
    for code in [Key::Enter, Key::Backspace, Key::Tab, Key::Char('x'), Key::Left, Key::Up, Key::Null] {
        let mut editor = editor(&["ab", "cde"]);
        press(&mut editor, 'i');
        editor.cursor_position = Position { x: usize::MAX, y: usize::MAX };
        editor.process_keypress(key(code));
        let Position { x, y } = editor.cursor_position;
        assert!(y < editor.document.len());
        assert!(x <= editor.document.lines[y].width());
    }
}

#[test]
fn arrows_move_in_insert_mode() {
    let mut editor = editor(&["ab", "cd"]);
    press(&mut editor, 'i');
    editor.process_keypress(key(Key::Right));
    assert_eq!(editor.cursor_position, Position { x: 1, y: 0 });
    editor.process_keypress(key(Key::Down));
    assert_eq!(editor.cursor_position, Position { x: 1, y: 1 });
    editor.process_keypress(key(Key::Left));
    assert_eq!(editor.cursor_position, Position { x: 0, y: 1 });
    editor.process_keypress(key(Key::Up));
    assert_eq!(editor.cursor_position, Position { x: 0, y: 0 });
    assert_eq!(editor.mode, Mode::Insert);
    assert_eq!(lines(&editor), ["ab", "cd"]);
}

#[test]
fn the_view_follows_the_cursor() {
    let text: Vec<String> = (0..100).map(|_| "x".repeat(200)).collect();
    let mut editor = Editor::new(Some(String::from("f")), Some(text), 80, 24, 0);
    // 79 columns and 21 rows of text
    assert_eq!(editor.offset, Position { x: 0, y: 0 });
    press(&mut editor, 'G');
    assert_eq!(editor.offset, Position { x: 0, y: 79 });
    at(&mut editor, 100, 99);
    press(&mut editor, 'l');
    assert_eq!(editor.cursor_position, Position { x: 101, y: 99 });
    assert_eq!(editor.offset, Position { x: 23, y: 79 });
    press(&mut editor, 'g');
    press(&mut editor, '0');
    assert_eq!(editor.offset, Position { x: 0, y: 0 });
    at(&mut editor, 50, 10);
    editor.scroll();
    assert_eq!(editor.offset, Position { x: 0, y: 0 });
}

#[test]
fn scroll_without_a_text_area() {
    let mut editor = Editor::new(Some(String::from("f")), Some(vec![String::from("abc")]), 1, 3, 0);
    assert_eq!(editor.terminal.dim(), (0, 0));
    at(&mut editor, 2, 0);
    editor.scroll();
    assert_eq!(editor.offset, Position { x: 3, y: 1 });
}

#[test]
fn new_without_a_file() {
    let editor = Editor::new(None, None, 80, 24, 7);
    assert!(editor.document.is_empty());
    assert_eq!(editor.document.filename, None);
    assert_eq!(editor.status.text, "Press CTRL + Q to QUIT.");
    assert_eq!(editor.status.time, 7);
    assert_eq!(editor.mode, Mode::Normal);
    assert!(!editor.should_quit);
    assert_eq!(editor.cursor_position, Position { x: 0, y: 0 });
    assert_eq!(editor.terminal.dim(), (79, 21));
    assert_eq!(editor.app.input, "");
}

#[test]
fn new_with_a_file() {
    let editor = editor(&["ab\n", "cd"]);
    assert_eq!(lines(&editor), ["ab", "cd"]);
    assert_eq!(editor.document.filename.as_deref(), Some("notes.txt"));
    assert_eq!(editor.status.text, "Press CTRL + Q to QUIT.");
}

#[test]
fn new_with_an_unreadable_file() {
    let editor = Editor::new(Some(String::from("gone.txt")), None, 80, 24, 3);
    assert!(editor.document.is_empty());
    assert_eq!(editor.document.filename, None);
    assert_eq!(editor.status.text, "ERR: Could not open file: gone.txt");
    assert_eq!(editor.status.time, 3);
}

#[test]
fn report_save_posts_the_outcome() {
    let mut editor = editor(&["abc"]);
    editor.report_save(Ok(()), 10);
    assert_eq!(editor.status.text, "File written.");
    assert_eq!(editor.status.time, 10);
    editor.report_save(Err(SaveError::NoFilename), 11);
    assert_eq!(editor.status.text, "ERR: No file name to write to.");
    editor.report_save(Err(SaveError::WriteFailed), 12);
    assert_eq!(editor.status.text, "ERR: Could not write file.");
    assert_eq!(editor.status.time, 12);
    assert_eq!(lines(&editor), ["abc"]);
}

#[test]
fn saving_a_document_without_a_file_name() {
    let mut editor = Editor::new(None, None, 80, 24, 0);
    press(&mut editor, 'i');
    type_text(&mut editor, "abc");
    editor.process_keypress(key(Key::Esc));
    let request = editor.process_keypress(KeyEvent { code: Key::Char('w'), modifiers: Mod::alt() });
    assert_eq!(request, Request::Save);
    let outcome = editor.document.save_file().map(|_| ());
    assert_eq!(outcome, Err(SaveError::NoFilename));
    editor.report_save(outcome, 5);
    assert_eq!(editor.status.text, "ERR: No file name to write to.");
}

#[test]
fn change_mode_and_create_event() {
    let mut editor = editor(&["abc"]);
    editor.change_mode(Mode::Command);
    assert_eq!(editor.mode, Mode::Command);
    let event = editor.create_event(Key::Char('h'), Mod::none());
    assert_eq!(event, KeyEvent { code: Key::Char('h'), modifiers: Mod { control: false, alt: false } });
    assert_eq!(Mod::control(), Mod { control: true, alt: false });
    assert_eq!(Mod::alt(), Mod { control: false, alt: true });
}

#[test]
fn position_from_pairs() {
    assert_eq!(Position::from((3u16, 4u16)), Position { x: 3, y: 4 });
    assert_eq!(Position::from((3usize, 4usize)), Position { x: 3, y: 4 });
    assert_eq!(Position::new(5, 6), Position { x: 5, y: 6 });
    assert_eq!(Position::default(), Position { x: 0, y: 0 });
}

#[test]
fn a_whole_session() {
    let mut editor = Editor::new(None, None, 80, 24, 0);
    press(&mut editor, 'i');
    type_text(&mut editor, "hello");
    editor.process_keypress(key(Key::Enter));
    type_text(&mut editor, "  world");
    editor.process_keypress(key(Key::Enter));
    type_text(&mut editor, "x");
    assert_eq!(lines(&editor), ["hello", "  world", "  x"]);
    editor.process_keypress(key(Key::Esc));
    assert_eq!(editor.cursor_position, Position { x: 2, y: 2 });
    press(&mut editor, 'g');
    press(&mut editor, 's');
    assert_eq!(editor.cursor_position, Position { x: 4, y: 0 });
    let _ = Document::default();
}

#[test]
fn only_g_in_normal_mode_awaits_a_second_key() {
    let mut editor = editor(&["abc"]);
    assert!(editor.awaits_second_key(key(Key::Char('g'))));
    assert!(!editor.awaits_second_key(key(Key::Char('G'))));
    assert!(!editor.awaits_second_key(key(Key::Enter)));
    press(&mut editor, 'i');
    assert!(!editor.awaits_second_key(key(Key::Char('g'))));
    editor.change_mode(Mode::Command);
    assert!(!editor.awaits_second_key(key(Key::Char('g'))));
    assert_eq!(hecto::editor::SECOND_KEY_WAIT, 500);
}
