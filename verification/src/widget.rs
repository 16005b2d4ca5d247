//! The widget itself: one text input owns exactly one value, one focus
//! state with its cursor, one constraint chain, one style, one caret
//! style, and one blink timer. The per-tick pieces — focus resolution,
//! the edit command processor, caret placement, the blink — compose
//! through the methods here.

use vstd::prelude::*;

use crate::blink::BlinkingTimer;
use crate::blink::CursorBlinkingInterval;
use crate::blink::blink_tick_spec;
use crate::buffer::TextInputValue;
use crate::caret::TextCursorStyle;
use crate::constrains::DefaultConstrains;
use crate::constrains::TextInputConstrains;
use crate::display::PlaceholderText;
use crate::editor::TickOutcome;
use crate::focus::TextInputFocus;
use crate::focus::focus_after_click;

verus! {

/// Style of the input text: the font's identity in the host's asset
/// store, and the font size in the host's integer units.
#[derive(Clone, Copy, Debug)]
pub struct InputTextStyle {
    /// The font's identity.
    pub font: u64,
    /// The font size.
    pub font_size: u64,
}

/// A text input field: focused on click, edited one atomic transaction
/// per tick, its caret blinking while focused.
pub struct TextInputBundle {
    /// Text that will be displayed when the input is empty.
    pub placeholder: PlaceholderText,
    /// Style of the input text.
    pub text_style: InputTextStyle,
    /// The character(s) won't be added to the input if any of these
    /// returns false.
    pub constrains: TextInputConstrains,
    /// Whether the text input is focused, and at which cursor index.
    pub focus: TextInputFocus,
    /// The caret's size overrides.
    pub cursor: TextCursorStyle,
    /// Text field's value, the text that is typed in here.
    pub value: TextInputValue,
    /// Text cursor blinking interval.
    pub cursor_blinking_interval: CursorBlinkingInterval,
    /// The caret blink timer, advanced only while focused.
    pub timer: BlinkingTimer,
}

impl TextInputBundle {
    /// A widget is well formed when its cursor, if any, is a valid
    /// boundary of its value and its blink timer runs on its configured
    /// interval.
    pub open spec fn wf(&self) -> bool {
        &&& self.timer.wf()
        &&& self.timer.interval_ms == self.cursor_blinking_interval.0
        &&& match self.focus.0 {
            Some(c) => c <= self.value@.len(),
            None => true,
        }
    }
}

impl Default for TextInputBundle {
    /// An empty, unfocused input that disallows line breaks, with the
    /// default font size and blink interval.
    fn default() -> (r: Self)
        ensures
            r.wf(),
            r.value@.len() == 0,
            r.focus.0 is None,
            r.placeholder.0@.len() == 0,
            r.constrains.0@.len() == 1,
            (r.constrains.0@[0] matches DefaultConstrains::DisallowedCharacters(cs) && cs@
                == seq!['\n']),
            r.cursor_blinking_interval.0 == 750,
            r.text_style.font_size == 12,
            r.cursor.width == Some(1u64),
            r.cursor.height == Some(12u64),
            r.timer.elapsed_ms == 0,
            r.timer.visible,
    {
        let interval = CursorBlinkingInterval(750);
        let chain = TextInputConstrains(
            vec![DefaultConstrains::DisallowedCharacters(vec!['\n'])],
        );
        proof {
            assert(chain.0@[0] matches DefaultConstrains::DisallowedCharacters(cs) && cs@
                =~= seq!['\n']);
        }
        TextInputBundle {
            placeholder: PlaceholderText(Vec::new()),
            text_style: InputTextStyle { font: 0, font_size: 12 },
            constrains: chain,
            focus: TextInputFocus(None),
            cursor: TextCursorStyle::default(12),
            value: TextInputValue::new(),
            cursor_blinking_interval: interval,
            timer: BlinkingTimer::new(interval),
        }
    }
}

impl TextInputBundle {
    /// Resolves this tick's pointer events for this widget: any click
    /// first unfocuses, a click directly on the widget then focuses it
    /// with the cursor at the end of the text. Gaining the focus starts
    /// the blink over with the caret visible.
    pub fn resolve_click(&mut self, clicked: bool, on_widget: bool)
        requires
            old(self).wf(),
        ensures
            final(self).wf(),
            final(self).focus.0 == focus_after_click(
                old(self).focus.0,
                clicked,
                on_widget,
                old(self).value@.len() as usize,
            ),
            final(self).value == old(self).value,
            (clicked && on_widget && old(self).focus.0 is None) ==> (final(self).timer.elapsed_ms
                == 0 && final(self).timer.visible),
            !(clicked && on_widget && old(self).focus.0 is None) ==> final(self).timer
                == old(self).timer,
            final(self).timer.interval_ms == old(self).timer.interval_ms,
    {
        let gained = clicked && on_widget && self.focus.0.is_none();
        let len = self.value.len();
        self.focus.resolve_click(clicked, on_widget, len);
        if gained {
            self.timer.reset();
        }
    }

    /// Advances the caret blink by `delta_ms` milliseconds. An
    /// unfocused input has no caret to blink, so its timer stands
    /// still.
    pub fn blink_tick(&mut self, delta_ms: u64)
        requires
            old(self).wf(),
        ensures
            final(self).wf(),
            final(self).value == old(self).value,
            final(self).focus.0 == old(self).focus.0,
            old(self).focus.0 is Some ==> final(self).timer == blink_tick_spec(
                old(self).timer,
                delta_ms,
            ),
            old(self).focus.0 is None ==> final(self).timer == old(self).timer,
    {
        if self.focus.0.is_some() {
            self.timer.tick(delta_ms);
        }
    }

    /// Takes over a tick's outcome: a committed tick replaces the value
    /// and the cursor and starts the blink over with the caret visible;
    /// a discarded one leaves the widget as it was.
    pub fn apply_outcome(&mut self, outcome: TickOutcome)
        requires
            old(self).wf(),
            outcome.committed ==> outcome.cursor <= outcome.value@.len(),
        ensures
            final(self).wf(),
            outcome.committed ==> (final(self).value@ == outcome.value@ && final(self).focus.0
                == Some(outcome.cursor) && final(self).timer.elapsed_ms == 0
                && final(self).timer.visible),
            !outcome.committed ==> (final(self).value == old(self).value && final(self).focus.0
                == old(self).focus.0 && final(self).timer == old(self).timer),
            final(self).timer.interval_ms == old(self).timer.interval_ms,
    {
        if outcome.committed {
            self.value = outcome.value;
            self.focus.0 = Some(outcome.cursor);
            self.timer.reset();
        }
    }
}

} // verus!
