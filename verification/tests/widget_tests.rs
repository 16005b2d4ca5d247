use slimy_widgets::BlinkingTimer;
use slimy_widgets::CursorBlinkingInterval;
use slimy_widgets::TextCursorStyle;
use slimy_widgets::TextInputBundle;
use slimy_widgets::TextInputFocus;
use slimy_widgets::TextInputValue;
use slimy_widgets::caret::caret_geometry;
use slimy_widgets::display::display_text;
use slimy_widgets::display::placeholder_visible;
use slimy_widgets::editor::finish_tick;
use slimy_widgets::editor::tick_edits;

fn text(s: &str) -> TextInputValue {
    TextInputValue(s.chars().collect())
}

#[test]
fn click_focuses_at_end_of_text() {
    // An unfocused widget clicked directly: the cursor appears at the
    // end of the text.
    let mut f = TextInputFocus::unfocused();
    f.resolve_click(true, true, 5);
    assert_eq!(f.0, Some(5));
    // A later click elsewhere unfocuses it again.
    f.resolve_click(true, false, 5);
    assert_eq!(f.0, None);
}

#[test]
fn no_click_keeps_focus() {
    let mut f = TextInputFocus(Some(3));
    f.resolve_click(false, false, 9);
    assert_eq!(f.0, Some(3));
}

#[test]
fn click_moving_between_widgets_lands_in_one_tick() {
    // The same tick's click unfocuses the first widget and focuses the
    // second: unfocus resolves before focus.
    let mut first = TextInputFocus(Some(2));
    let mut second = TextInputFocus::unfocused();
    first.resolve_click(true, false, 4);
    second.resolve_click(true, true, 7);
    assert_eq!(first.0, None);
    assert_eq!(second.0, Some(7));
}

#[test]
fn default_interval_is_750_ms() {
    assert_eq!(CursorBlinkingInterval::default().0, 750);
}

#[test]
fn blink_toggles_on_reaching_interval() {
    let mut t = BlinkingTimer::new(CursorBlinkingInterval(750));
    assert!(t.visible);
    t.tick(700);
    assert!(t.visible);
    assert_eq!(t.elapsed_ms, 700);
    t.tick(50);
    assert!(!t.visible);
    assert_eq!(t.elapsed_ms, 0);
    t.tick(800);
    assert!(t.visible);
    assert_eq!(t.elapsed_ms, 0);
}

#[test]
fn blink_reset_makes_caret_visible() {
    let mut t = BlinkingTimer::new(CursorBlinkingInterval(100));
    t.tick(100);
    assert!(!t.visible);
    t.tick(40);
    t.reset();
    assert!(t.visible);
    assert_eq!(t.elapsed_ms, 0);
    assert_eq!(t.interval_ms, 100);
}

#[test]
fn default_cursor_style_follows_font_size() {
    let s = TextCursorStyle::default(24);
    assert_eq!(s.width, Some(2));
    assert_eq!(s.height, Some(24));
}

#[test]
fn caret_geometry_composes_measures() {
    // "ab\ncd", cursor on the first line: one full line lies below.
    let v = text("ab\ncd");
    let style = TextCursorStyle { width: None, height: None };
    let g = caret_geometry(&v, 1, 16, 9, 3, 14, &style);
    assert_eq!(g.x, 9);
    assert_eq!(g.y, 16);
    assert_eq!(g.width, 3);
    assert_eq!(g.height, 14);
    // Cursor on the last line: the caret sits on the baseline.
    let g = caret_geometry(&v, 4, 16, 7, 3, 14, &style);
    assert_eq!(g.y, 0);
    // Explicit caret sizes override the glyph bounds.
    let style = TextCursorStyle { width: Some(2), height: Some(20) };
    let g = caret_geometry(&v, 4, 16, 7, 3, 14, &style);
    assert_eq!(g.width, 2);
    assert_eq!(g.height, 20);
}

#[test]
fn caret_reference_char_is_cursor_or_space() {
    let v = text("ab");
    assert_eq!(v.caret_reference_char(0), 'a');
    assert_eq!(v.caret_reference_char(1), 'b');
    assert_eq!(v.caret_reference_char(2), ' ');
}

#[test]
fn caret_line_prefix_is_cursor_line_before_cursor() {
    let v = text("ab\ncd");
    assert_eq!(v.caret_line_prefix(4), vec!['c']);
    assert_eq!(v.caret_line_prefix(1), vec!['a']);
    assert_eq!(v.caret_line_prefix(3), Vec::<char>::new());
}

#[test]
fn placeholder_shows_only_while_empty() {
    assert!(placeholder_visible(&text("")));
    assert!(!placeholder_visible(&text("a")));
}

#[test]
fn display_adds_trailing_blank_after_line_break() {
    assert_eq!(display_text(&text("ab\n")), vec!['a', 'b', '\n', ' ']);
    assert_eq!(display_text(&text("ab")), vec!['a', 'b']);
    assert_eq!(display_text(&text("")), Vec::<char>::new());
    // The break must end the value; one in the middle adds nothing.
    assert_eq!(display_text(&text("a\nb")), vec!['a', '\n', 'b']);
}

#[test]
fn default_widget_is_empty_and_unfocused() {
    let w = TextInputBundle::default();
    assert!(w.value.0.is_empty());
    assert_eq!(w.focus.0, None);
    assert_eq!(w.cursor_blinking_interval.0, 750);
    assert_eq!(w.constrains.0.len(), 1);
    assert!(w.timer.visible);
}

#[test]
fn default_widget_rejects_line_breaks() {
    // The default chain disallows '\n': a line-break tick is reverted.
    let mut w = TextInputBundle::default();
    w.resolve_click(true, true);
    assert_eq!(w.focus.0, Some(0));
    let mut input = slimy_widgets::TickInput::from_events(&Vec::new(), &Vec::new());
    input.line_break = true;
    let (worked, worked_cursor) = tick_edits(&w.value, 0, &input);
    let out = finish_tick(&w.value, 0, worked, worked_cursor, &input.typed, &w.constrains);
    assert!(!out.committed);
    w.apply_outcome(out);
    assert!(w.value.0.is_empty());
    assert_eq!(w.focus.0, Some(0));
}

#[test]
fn committed_tick_resets_blink_through_widget() {
    let mut w = TextInputBundle::default();
    w.resolve_click(true, true);
    w.blink_tick(700);
    let mut input = slimy_widgets::TickInput::from_events(&Vec::new(), &Vec::new());
    input.typed = vec!['h'];
    let (worked, worked_cursor) = tick_edits(&w.value, 0, &input);
    let out = finish_tick(&w.value, 0, worked, worked_cursor, &input.typed, &w.constrains);
    assert!(out.committed);
    w.apply_outcome(out);
    assert_eq!(w.value.0, vec!['h']);
    assert_eq!(w.focus.0, Some(1));
    assert_eq!(w.timer.elapsed_ms, 0);
    assert!(w.timer.visible);
}

#[test]
fn unfocused_widget_does_not_blink() {
    let mut w = TextInputBundle::default();
    w.blink_tick(10_000);
    assert!(w.timer.visible);
    assert_eq!(w.timer.elapsed_ms, 0);
}
