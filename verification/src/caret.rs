//! Caret placement: the logical cursor index translated into a visual
//! offset and a caret box, in the host's integer units. The advance
//! width of the text before the cursor on its line, and the bounds of
//! the glyph at the cursor, are measured by the host's font stack; this
//! module decides what to measure and how the measures compose.

use vstd::prelude::*;

use crate::buffer::TextInputValue;
use crate::lines::count_char;
use crate::lines::lemma_count_char_le_len;
use crate::lines::lemma_count_char_take_all;
use crate::lines::lemma_count_char_take_le;
use crate::lines::lemma_line_start_bounds;
use crate::lines::line_start;

verus! {

/// Marker for the blinking caret node spawned under a focused input.
#[derive(Clone, Copy, Debug, Default)]
pub struct TextCursor;

/// A blinking thing that appears when you focus on a text input: the
/// caret's size overrides, in the host's integer units. `None` lets the
/// glyph at the cursor set the measure.
#[derive(Clone, Copy, Debug)]
pub struct TextCursorStyle {
    /// Caret width override.
    pub width: Option<u64>,
    /// Caret height override.
    pub height: Option<u64>,
}

impl TextCursorStyle {
    /// The default blinking cursor for a font size: one twelfth of the
    /// font size wide and one font size tall.
    pub fn default(font_size: u64) -> (r: Self)
        ensures
            r.width == Some(font_size / 12),
            r.height == Some(font_size),
    {
        TextCursorStyle { width: Some(font_size / 12), height: Some(font_size) }
    }
}

/// Where the caret stands and how big its box is, in the host's integer
/// units. `y` is measured upward from the input's baseline: a caret on
/// the last line has `y == 0`.
#[derive(Clone, Copy, Debug)]
pub struct CaretGeometry {
    /// Advance width of the cursor's line before the cursor.
    pub x: u64,
    /// Height of the full lines below the cursor's line.
    pub y: u64,
    /// Width of the caret box.
    pub width: u64,
    /// Height of the caret box.
    pub height: u64,
}

/// How many full lines lie below the cursor's line: the line breaks of
/// the whole text that do not precede the cursor.
pub open spec fn lines_below(s: Seq<char>, c: int) -> int {
    count_char(s, '\n') - count_char(s.take(c), '\n')
}

impl TextInputValue {
    /// The scalar unit whose glyph sizes the caret: the one at the
    /// cursor, or a space when the cursor is at or past the end of the
    /// text.
    pub fn caret_reference_char(&self, cursor: usize) -> (r: char)
        ensures
            cursor < self@.len() ==> r == self@[cursor as int],
            cursor >= self@.len() ==> r == ' ',
    {
        if cursor < self.len() {
            self.char_at(cursor)
        } else {
            ' '
        }
    }

    /// The cursor's line up to the cursor; its advance width is the
    /// caret's `x` offset.
    pub fn caret_line_prefix(&self, cursor: usize) -> (r: Vec<char>)
        requires
            cursor <= self@.len(),
        ensures
            r@ == self@.subrange(line_start(self@, cursor as int), cursor as int),
    {
        proof {
            lemma_line_start_bounds(self@, cursor as int);
        }
        let ls = self.find_line_start(cursor);
        self.slice_range(ls, cursor)
    }
}

/// Composes the caret's visual placement from the host's measures:
/// `prefix_width` is the advance width of the cursor's line before the
/// cursor, `line_height` the font's line height, and the glyph bounds
/// size the caret box wherever the style does not override them.
pub fn caret_geometry(
    value: &TextInputValue,
    cursor: usize,
    line_height: u64,
    prefix_width: u64,
    glyph_width: u64,
    glyph_height: u64,
    style: &TextCursorStyle,
) -> (r: CaretGeometry)
    requires
        cursor <= value@.len(),
        value@.len() < usize::MAX,
        line_height * lines_below(value@, cursor as int) <= u64::MAX,
    ensures
        r.x == prefix_width,
        r.y == line_height * lines_below(value@, cursor as int),
        r.width == (match style.width {
            Some(w) => w,
            None => glyph_width,
        }),
        r.height == (match style.height {
            Some(h) => h,
            None => glyph_height,
        }),
{
    let total = value.total_lines();
    let before = value.lines_before(cursor);
    proof {
        lemma_count_char_take_le(value@, '\n', cursor as int, value@.len() as int);
        lemma_count_char_take_all(value@, '\n');
        lemma_count_char_le_len(value@, '\n');
    }
    let below = total - before;
    let y = line_height * (below as u64);
    CaretGeometry {
        x: prefix_width,
        y,
        width: match style.width {
            Some(w) => w,
            None => glyph_width,
        },
        height: match style.height {
            Some(h) => h,
            None => glyph_height,
        },
    }
}

} // verus!
