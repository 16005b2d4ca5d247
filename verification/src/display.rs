//! What the two text children of an input display: the placeholder is
//! shown exactly while the value is empty, and the live value text gains
//! one trailing blank when the value ends in a line break, so the break
//! is visually apparent. The blank is display-only and never leaks into
//! the stored value.

use vstd::prelude::*;

use crate::buffer::TextInputValue;

verus! {

/// Marker for the node that displays the placeholder text.
#[derive(Clone, Copy, Debug)]
pub struct TextInputPlaceholder;

/// Marker for the node that displays the live value text.
#[derive(Clone, Copy, Debug)]
pub struct TextInputInner;

/// Text that will be displayed when the input is empty.
#[derive(Clone, Debug)]
pub struct PlaceholderText(pub Vec<char>);

/// Whether the placeholder node is visible: exactly while the value is
/// empty.
pub fn placeholder_visible(value: &TextInputValue) -> (r: bool)
    ensures
        r == (value@.len() == 0),
{
    value.is_empty()
}

/// What the value node displays: the value itself, with one trailing
/// blank when the value ends in a line break.
pub open spec fn display_spec(s: Seq<char>) -> Seq<char> {
    if s.len() > 0 && s.last() == '\n' {
        s.push(' ')
    } else {
        s
    }
}

/// The text the value node displays for the stored value.
pub fn display_text(value: &TextInputValue) -> (r: Vec<char>)
    ensures
        r@ == display_spec(value@),
{
    let copy = value.duplicate();
    let mut out = copy.0;
    if value.len() > 0 && value.char_at(value.len() - 1) == '\n' {
        out.push(' ');
    }
    out
}

} // verus!
