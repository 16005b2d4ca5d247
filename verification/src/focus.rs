//! Focus transitions driven by pointer clicks: a click anywhere first
//! drops every focus, then a click directly on a widget grants it the
//! focus with the cursor at the end of the text. Unfocus resolves before
//! focus, so clicking straight from one input into another lands within
//! one tick.

use vstd::prelude::*;

verus! {

/// If the text input is focused, it will hold the cursor index.
#[derive(Clone, Debug)]
pub struct TextInputFocus(pub Option<usize>);

/// Where the focus stands after one tick's pointer events: any click
/// first unfocuses, then a click directly on the widget focuses it with
/// the cursor at the end of the text.
pub open spec fn focus_after_click(
    f: Option<usize>,
    clicked: bool,
    on_widget: bool,
    len: usize,
) -> Option<usize> {
    if clicked {
        if on_widget {
            Some(len)
        } else {
            None
        }
    } else {
        f
    }
}

impl TextInputFocus {
    /// An unfocused input.
    pub fn unfocused() -> (r: Self)
        ensures
            r.0 is None,
    {
        TextInputFocus(None)
    }

    /// Drops the focus, as any click does first.
    pub fn unfocus(&mut self)
        ensures
            final(self).0 is None,
    {
        self.0 = None;
    }

    /// Grants the focus with the cursor at the end of the text, as a
    /// click directly on the widget does.
    pub fn focus_at_end(&mut self, len: usize)
        ensures
            final(self).0 == Some(len),
    {
        self.0 = Some(len);
    }

    /// Resolves one tick's pointer events for this widget: `clicked`
    /// says whether any click fired this tick, `on_widget` whether it
    /// hit this widget, and `len` is the length of the widget's text.
    pub fn resolve_click(&mut self, clicked: bool, on_widget: bool, len: usize)
        ensures
            final(self).0 == focus_after_click(old(self).0, clicked, on_widget, len),
    {
        if clicked {
            self.unfocus();
            if on_widget {
                self.focus_at_end(len);
            }
        }
    }
}

} // verus!
