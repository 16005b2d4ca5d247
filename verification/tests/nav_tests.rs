use slimy_widgets::NavMeasure;
use slimy_widgets::TextInputValue;
use slimy_widgets::nav::closest_boundary;

fn text(s: &str) -> TextInputValue {
    TextInputValue(s.chars().collect())
}

/// Widths of every prefix of `line`, one unit per scalar unit, as a
/// strictly monospace font would measure them.
fn mono_widths(line: &[char]) -> Vec<u64> {
    (0..=line.len()).map(|i| i as u64).collect()
}

fn mono_measure(req: &slimy_widgets::MeasureRequest) -> NavMeasure {
    NavMeasure {
        target: req.reference.len() as u64,
        prefix_widths: mono_widths(&req.line),
    }
}

#[test]
fn closest_boundary_picks_minimum() {
    assert_eq!(closest_boundary(&vec![0, 10, 20], 14), 1);
    assert_eq!(closest_boundary(&vec![0, 10, 20], 16), 2);
    assert_eq!(closest_boundary(&vec![0, 10, 20], 0), 0);
    assert_eq!(closest_boundary(&vec![7], 100), 0);
}

#[test]
fn closest_boundary_breaks_ties_first() {
    // 5 lies as far from 0 as from 10: the first boundary wins.
    assert_eq!(closest_boundary(&vec![0, 10], 5), 0);
    assert_eq!(closest_boundary(&vec![4, 10, 4], 4), 0);
}

#[test]
fn up_lands_on_matching_column() {
    // value = "ab\ncd", cursor at the end: Up lands at index 2, the
    // end of "ab", the same column as the cursor held on "cd".
    let v = text("ab\ncd");
    let req = v.up_request(5).expect("a line lies above");
    assert_eq!(req.reference, vec!['c', 'd']);
    assert_eq!(req.line, vec!['a', 'b']);
    let m = mono_measure(&req);
    let c1 = v.apply_up(5, Some(&m));
    assert_eq!(c1, 2);
    // Down fired again from index 2 lands back at index 5.
    let req = v.down_request(c1).expect("a line lies below");
    assert_eq!(req.reference, vec!['a', 'b']);
    assert_eq!(req.line, vec!['c', 'd']);
    let m = mono_measure(&req);
    let c2 = v.apply_down(c1, Some(&m));
    assert_eq!(c2, 5);
}

#[test]
fn up_without_line_above_goes_to_start() {
    let v = text("abc\ndef");
    assert!(v.up_request(2).is_none());
    assert_eq!(v.apply_up(2, None), 0);
}

#[test]
fn down_without_line_below_goes_to_end() {
    let v = text("abc\ndef");
    assert!(v.down_request(5).is_none());
    assert_eq!(v.apply_down(5, None), 7);
}

#[test]
fn up_clamps_to_shorter_line() {
    // From the end of "longer" (column 6), Up onto "ab" clamps to the
    // nearest boundary of the shorter line: its end, index 2.
    let v = text("ab\nlonger");
    let req = v.up_request(9).expect("a line lies above");
    assert_eq!(req.reference, vec!['l', 'o', 'n', 'g', 'e', 'r']);
    assert_eq!(req.line, vec!['a', 'b']);
    let m = mono_measure(&req);
    assert_eq!(v.apply_up(9, Some(&m)), 2);
}

#[test]
fn down_then_up_returns_to_same_line() {
    // Down from the middle line, then Up: back on the middle line,
    // clamped to an available boundary.
    let v = text("ab\ncdef\ng");
    let cursor = 7; // end of "cdef"
    let req = v.down_request(cursor).expect("a line lies below");
    let m = mono_measure(&req);
    let c1 = v.apply_down(cursor, Some(&m));
    assert_eq!(c1, 9); // end of "g", nearest to column 4
    let req = v.up_request(c1).expect("a line lies above");
    let m = mono_measure(&req);
    let c2 = v.apply_up(c1, Some(&m));
    // Lands on "cdef" (indices 3..=7), at the column nearest to 1.
    assert_eq!(c2, 4);
}

#[test]
fn up_uses_widths_not_columns() {
    // A wide first character on the line above: the visually nearest
    // boundary is not the same column count.
    let v = text("Wi\nil");
    // Cursor after "il" (index 5): reference "il", narrow.
    let req = v.up_request(5).expect("a line lies above");
    assert_eq!(req.line, vec!['W', 'i']);
    // Hand-measured widths: "" = 0, "W" = 10, "Wi" = 12; target "il" = 4.
    let m = NavMeasure { target: 4, prefix_widths: vec![0, 10, 12] };
    // Nearest to 4 is the empty prefix (distance 4 against 6 and 8).
    assert_eq!(v.apply_up(5, Some(&m)), 0);
}
