//! Core of a reusable text-input widget: an owned text value, a cursor
//! position, a focus state, and a chain of edit-acceptance constraints.
//! Raw per-tick input events (key presses, typed characters, pasted text,
//! pointer clicks) are composed into one atomic transaction per tick,
//! validated against the constraint chain, and committed or discarded as a
//! whole.
//!
//! Everything that can be stated over plain values is verified here: the
//! text buffer and its splice operations, the per-tick edit algorithm,
//! multi-line cursor navigation, focus transitions, the caret blink timer,
//! and the caret placement arithmetic. Font metrics are consumed as integer
//! advance widths supplied by the host (a host measures text with its font
//! stack and hands the widths in), and the system clipboard is consumed as
//! an optional already-read string, so that both stay at the interface
//! boundary.

pub mod blink;
pub mod buffer;
pub mod caret;
pub mod constrains;
pub mod display;
pub mod editor;
pub mod focus;
pub mod lines;
pub mod nav;
pub mod widget;

pub use blink::BlinkingTimer;
pub use blink::CursorBlinkingInterval;
pub use buffer::TextInputValue;
pub use caret::CaretGeometry;
pub use caret::TextCursor;
pub use caret::TextCursorStyle;
pub use constrains::DefaultConstrains;
pub use constrains::TextInputConstrain;
pub use constrains::TextInputConstrains;
pub use display::PlaceholderText;
pub use display::TextInputInner;
pub use display::TextInputPlaceholder;
pub use editor::Key;
pub use editor::TickInput;
pub use editor::TickOutcome;
pub use focus::TextInputFocus;
pub use nav::MeasureRequest;
pub use nav::NavMeasure;
pub use widget::InputTextStyle;
pub use widget::TextInputBundle;
