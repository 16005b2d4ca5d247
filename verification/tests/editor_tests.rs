use slimy_widgets::DefaultConstrains;
use slimy_widgets::Key;
use slimy_widgets::TextInputConstrains;
use slimy_widgets::TextInputValue;
use slimy_widgets::TickInput;
use slimy_widgets::editor::finish_tick;
use slimy_widgets::editor::tick_edits;

fn text(s: &str) -> TextInputValue {
    TextInputValue(s.chars().collect())
}

fn as_string(v: &TextInputValue) -> String {
    v.0.iter().collect()
}

fn quiet() -> TickInput {
    TickInput::from_events(&Vec::new(), &Vec::new())
}

fn no_constrains() -> TextInputConstrains {
    TextInputConstrains(Vec::new())
}

/// One whole tick without Up/Down: edits, typed characters, validation.
fn run_tick(
    value: &TextInputValue,
    cursor: usize,
    input: &TickInput,
    constrains: &TextInputConstrains,
) -> (TextInputValue, usize, bool) {
    let (worked, worked_cursor) = tick_edits(value, cursor, input);
    let out = finish_tick(value, cursor, worked, worked_cursor, &input.typed, constrains);
    (out.value, out.cursor, out.committed)
}

#[test]
fn from_events_classifies_characters() {
    let keys = vec![Key::Left, Key::Home];
    let chars = vec!['a', '\u{8}', 'b', '\r', '\u{16}'];
    let input = TickInput::from_events(&keys, &chars);
    assert!(input.backspace);
    assert!(input.line_break);
    assert!(input.paste);
    assert!(!input.delete);
    assert!(!input.move_to_start);
    assert!(!input.move_to_end);
    assert!(input.left);
    assert!(input.home);
    assert!(!input.right);
    assert!(!input.up);
    assert!(!input.down);
    assert!(!input.end);
    assert_eq!(input.typed, vec!['a', 'b']);
    assert!(input.clipboard.is_none());
}

#[test]
fn control_classification_matches_char_is_control() {
    // The C0 and C1 ranges count as commands, exactly as the standard
    // library classifies control characters.
    for c in ['\u{0}', '\u{8}', '\u{1f}', '\u{7f}', '\u{80}', '\u{9f}', '\r', '\n'] {
        assert!(slimy_widgets::editor::char_is_control(c));
        assert!(c.is_control());
    }
    for c in [' ', 'a', '~', '\u{a0}', 'é'] {
        assert!(!slimy_widgets::editor::char_is_control(c));
        assert!(!c.is_control());
    }
}

#[test]
fn typing_appends_at_cursor() {
    let mut input = quiet();
    input.typed = vec!['x', 'y'];
    let (v, c, committed) = run_tick(&text("ab"), 1, &input, &no_constrains());
    assert_eq!(as_string(&v), "axyb");
    assert_eq!(c, 3);
    assert!(committed);
}

#[test]
fn typed_scenario_thirteen_characters_then_reject() {
    // value = "", MaxLength(13) and no line breaks; "Hello, world!"
    // typed one character per tick lands whole; a fourteenth character
    // is rejected and changes nothing.
    let chain = TextInputConstrains(vec![
        DefaultConstrains::MaxLength(13),
        DefaultConstrains::DisallowedCharacters(vec!['\n']),
    ]);
    let mut v = text("");
    let mut c = 0usize;
    for ch in "Hello, world!".chars() {
        let mut input = quiet();
        input.typed = vec![ch];
        let (nv, nc, committed) = run_tick(&v, c, &input, &chain);
        assert!(committed);
        v = nv;
        c = nc;
    }
    assert_eq!(as_string(&v), "Hello, world!");
    assert_eq!(c, 13);
    let mut input = quiet();
    input.typed = vec!['!'];
    let (nv, nc, committed) = run_tick(&v, c, &input, &chain);
    assert!(!committed);
    assert_eq!(as_string(&nv), "Hello, world!");
    assert_eq!(nc, 13);
}

#[test]
fn backspace_at_start_is_noop() {
    let mut input = quiet();
    input.backspace = true;
    let (v, c, committed) = run_tick(&text("abc"), 0, &input, &no_constrains());
    assert_eq!(as_string(&v), "abc");
    assert_eq!(c, 0);
    assert!(!committed);
}

#[test]
fn forward_delete_at_end_is_noop() {
    let mut input = quiet();
    input.delete = true;
    let (v, c, committed) = run_tick(&text("abc"), 3, &input, &no_constrains());
    assert_eq!(as_string(&v), "abc");
    assert_eq!(c, 3);
    assert!(!committed);
}

#[test]
fn backspace_removes_before_cursor() {
    let mut input = quiet();
    input.backspace = true;
    let (v, c, committed) = run_tick(&text("abc"), 2, &input, &no_constrains());
    assert_eq!(as_string(&v), "ac");
    assert_eq!(c, 1);
    assert!(committed);
}

#[test]
fn forward_delete_removes_at_cursor() {
    let mut input = quiet();
    input.delete = true;
    let (v, c, committed) = run_tick(&text("abc"), 1, &input, &no_constrains());
    assert_eq!(as_string(&v), "ac");
    assert_eq!(c, 1);
    assert!(committed);
}

#[test]
fn line_break_inserts_and_advances() {
    let mut input = quiet();
    input.line_break = true;
    let (v, c, committed) = run_tick(&text("ab"), 1, &input, &no_constrains());
    assert_eq!(as_string(&v), "a\nb");
    assert_eq!(c, 2);
    assert!(committed);
}

#[test]
fn paste_inserts_clipboard_text() {
    let mut input = quiet();
    input.paste = true;
    input.clipboard = Some(vec!['x', 'y']);
    let (v, c, committed) = run_tick(&text("ab"), 1, &input, &no_constrains());
    assert_eq!(as_string(&v), "axyb");
    assert_eq!(c, 3);
    assert!(committed);
}

#[test]
fn unavailable_clipboard_skips_paste_only() {
    // Paste fired but the clipboard read failed: the paste step alone
    // is skipped, the other queued operations still apply.
    let mut input = quiet();
    input.paste = true;
    input.clipboard = None;
    input.typed = vec!['z'];
    let (v, c, committed) = run_tick(&text("ab"), 1, &input, &no_constrains());
    assert_eq!(as_string(&v), "azb");
    assert_eq!(c, 2);
    assert!(committed);
}

#[test]
fn left_and_right_step_with_bounds() {
    let mut input = quiet();
    input.left = true;
    let (_, c, _) = run_tick(&text("ab"), 0, &input, &no_constrains());
    assert_eq!(c, 0);
    let (_, c, _) = run_tick(&text("ab"), 2, &input, &no_constrains());
    assert_eq!(c, 1);
    let mut input = quiet();
    input.right = true;
    let (_, c, _) = run_tick(&text("ab"), 2, &input, &no_constrains());
    assert_eq!(c, 2);
    let (_, c, _) = run_tick(&text("ab"), 0, &input, &no_constrains());
    assert_eq!(c, 1);
}

#[test]
fn home_and_end_target_the_cursor_line() {
    let mut home = quiet();
    home.home = true;
    let (_, c, _) = run_tick(&text("ab\ncd"), 4, &home, &no_constrains());
    assert_eq!(c, 3);
    let (_, c0, _) = run_tick(&text("ab\ncd"), 1, &home, &no_constrains());
    assert_eq!(c0, 0);
    let mut endk = quiet();
    endk.end = true;
    let (_, c, _) = run_tick(&text("ab\ncd"), 0, &endk, &no_constrains());
    assert_eq!(c, 2);
    let (_, c, _) = run_tick(&text("ab\ncd"), 4, &endk, &no_constrains());
    assert_eq!(c, 5);
}

#[test]
fn home_twice_in_successive_ticks_is_idempotent() {
    let mut home = quiet();
    home.home = true;
    let v = text("ab\ncd");
    let (v1, c1, _) = run_tick(&v, 4, &home, &no_constrains());
    let (v2, c2, committed) = run_tick(&v1, c1, &home, &no_constrains());
    assert_eq!(c2, c1);
    assert_eq!(as_string(&v2), as_string(&v1));
    // The second tick changes nothing, so nothing is committed.
    assert!(!committed);
}

#[test]
fn end_twice_in_successive_ticks_is_idempotent() {
    let mut endk = quiet();
    endk.end = true;
    let v = text("ab\ncd");
    let (v1, c1, _) = run_tick(&v, 0, &endk, &no_constrains());
    let (_, c2, committed) = run_tick(&v1, c1, &endk, &no_constrains());
    assert_eq!(c2, c1);
    assert!(!committed);
}

#[test]
fn insert_then_backspace_round_trip() {
    // Paste "xy" at position 2, then backspace twice: back where we
    // began, value and cursor alike.
    let mut paste = quiet();
    paste.paste = true;
    paste.clipboard = Some(vec!['x', 'y']);
    let mut back = quiet();
    back.backspace = true;
    let start = text("hello");
    let (v1, c1, _) = run_tick(&start, 2, &paste, &no_constrains());
    assert_eq!(as_string(&v1), "hexyllo");
    assert_eq!(c1, 4);
    let (v2, c2, _) = run_tick(&v1, c1, &back, &no_constrains());
    let (v3, c3, _) = run_tick(&v2, c2, &back, &no_constrains());
    assert_eq!(as_string(&v3), "hello");
    assert_eq!(c3, 2);
}

#[test]
fn cursor_only_change_is_validated_too() {
    // A pure cursor move is validated like any other change: with a
    // stored value that violates the chain, the move is discarded.
    let chain = TextInputConstrains(vec![DefaultConstrains::MaxLength(1)]);
    let mut input = quiet();
    input.left = true;
    let (v, c, committed) = run_tick(&text("abc"), 2, &input, &chain);
    assert_eq!(as_string(&v), "abc");
    assert_eq!(c, 2);
    assert!(!committed);
    // Under a chain that accepts the value, the same move commits.
    let ok_chain = TextInputConstrains(vec![DefaultConstrains::MaxLength(3)]);
    let (v, c, committed) = run_tick(&text("abc"), 2, &input, &ok_chain);
    assert_eq!(as_string(&v), "abc");
    assert_eq!(c, 1);
    assert!(committed);
}

#[test]
fn rejected_tick_reverts_value_and_cursor() {
    // The candidate fails the chain: the whole tick's changes are
    // discarded, the cursor movement of the same tick too.
    let chain = TextInputConstrains(vec![DefaultConstrains::MaxLength(2)]);
    let mut input = quiet();
    input.typed = vec!['z'];
    input.left = true;
    let (v, c, committed) = run_tick(&text("ab"), 2, &input, &chain);
    assert_eq!(as_string(&v), "ab");
    assert_eq!(c, 2);
    assert!(!committed);
}

#[test]
fn steps_compose_in_fixed_order() {
    // Line break first, then backspace removes it again, then the
    // typed text lands: deterministic composition within one tick.
    let mut input = quiet();
    input.line_break = true;
    input.backspace = true;
    input.typed = vec!['q'];
    let (v, c, committed) = run_tick(&text("ab"), 1, &input, &no_constrains());
    assert_eq!(as_string(&v), "aqb");
    assert_eq!(c, 2);
    assert!(committed);
}
