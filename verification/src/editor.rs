//! The edit command processor: turns one tick's worth of raw input into a
//! candidate value and cursor, in a fixed step order, and commits the
//! candidate only when the whole transaction passes the constraint chain.

use vstd::prelude::*;

use crate::buffer::TextInputValue;
use crate::buffer::insert_at;
use crate::buffer::remove_range;
use crate::buffer::text_eq;
use crate::constrains::DefaultConstrains;
use crate::constrains::TextInputConstrains;
use crate::constrains::chain_passes;
use crate::constrains::contains_char;
use crate::lines::line_end;
use crate::lines::line_start;
use crate::lines::lemma_end_idempotent;
use crate::lines::lemma_home_idempotent;
use crate::lines::lemma_line_end_bounds;
use crate::lines::lemma_line_start_bounds;

verus! {

/// A navigation key consumed by the edit algorithm.
#[derive(Clone, Copy, Debug, PartialEq, Eq, Structural)]
pub enum Key {
    Left,
    Right,
    Up,
    Down,
    Home,
    End,
}

/// Whether `keys` holds the key `k`.
pub fn contains_key(keys: &Vec<Key>, k: Key) -> (r: bool)
    ensures
        r == keys@.contains(k),
{
    let mut i: usize = 0;
    while i < keys.len()
        invariant
            i <= keys@.len(),
            forall|j: int| 0 <= j < i ==> keys@[j] != k,
        decreases keys@.len() - i,
    {
        if keys[i] == k {
            return true;
        }
        i = i + 1;
    }
    false
}

/// Whether `c` is a control character (the C0 and C1 control ranges), the
/// classification under which a committed character counts as an editing
/// command rather than as printable text.
pub open spec fn is_control(c: char) -> bool {
    (c as u32) < 32 || (127 <= (c as u32) && (c as u32) < 160)
}

/// Returns true if `c` is a control character.
pub fn char_is_control(c: char) -> (r: bool)
    ensures
        r == is_control(c),
{
    let u = c as u32;
    u < 32 || (127 <= u && u < 160)
}

/// The printable characters of a committed-character event stream, in
/// event order: the control characters are commands, the rest is the
/// text typed this tick.
pub open spec fn printable_text(s: Seq<char>) -> Seq<char>
    decreases s.len(),
{
    if s.len() == 0 {
        Seq::empty()
    } else {
        let rest = printable_text(s.drop_last());
        if is_control(s.last()) {
            rest
        } else {
            rest.push(s.last())
        }
    }
}

/// One tick's worth of raw input, collected before the edit algorithm
/// runs: which editing combinations fired, which navigation keys fired,
/// the printable characters committed this tick in event order, and the
/// clipboard text, already read by the host in case the paste combination
/// fired (`None` when the clipboard was unavailable or paste did not
/// fire; the paste step is then skipped while every other step still
/// applies).
pub struct TickInput {
    /// A line-break combination fired (carriage return received).
    pub line_break: bool,
    /// The move-to-start combination fired.
    pub move_to_start: bool,
    /// The move-to-end combination fired.
    pub move_to_end: bool,
    /// The backspace key fired.
    pub backspace: bool,
    /// The forward-delete key fired.
    pub delete: bool,
    /// The paste combination fired.
    pub paste: bool,
    /// The Left arrow fired.
    pub left: bool,
    /// The Right arrow fired.
    pub right: bool,
    /// The Home key fired.
    pub home: bool,
    /// The End key fired.
    pub end: bool,
    /// The Up arrow fired.
    pub up: bool,
    /// The Down arrow fired.
    pub down: bool,
    /// The printable characters committed this tick, in event order.
    pub typed: Vec<char>,
    /// The clipboard text, if paste fired and the read succeeded.
    pub clipboard: Option<Vec<char>>,
}

/// How many scalar units the paste step would insert.
pub open spec fn clip_len(input: TickInput) -> int {
    match input.clipboard {
        Some(t) => t@.len() as int,
        None => 0,
    }
}

impl TickInput {
    /// Collects a tick's raw events: pressed navigation keys and committed
    /// characters. Control characters select editing commands; the rest
    /// are kept, in order, as the text typed this tick. The clipboard is
    /// left unread (`None`): a host that sees `paste` set reads it and
    /// stores the text in `clipboard`.
    pub fn from_events(keys: &Vec<Key>, chars: &Vec<char>) -> (r: TickInput)
        ensures
            r.line_break == chars@.contains('\r'),
            r.move_to_start == chars@.contains('\u{1}'),
            r.move_to_end == chars@.contains('\u{5}'),
            r.backspace == chars@.contains('\u{8}'),
            r.delete == chars@.contains('\u{7f}'),
            r.paste == chars@.contains('\u{16}'),
            r.left == keys@.contains(Key::Left),
            r.right == keys@.contains(Key::Right),
            r.home == keys@.contains(Key::Home),
            r.end == keys@.contains(Key::End),
            r.up == keys@.contains(Key::Up),
            r.down == keys@.contains(Key::Down),
            r.typed@ == printable_text(chars@),
            r.clipboard is None,
    {
        let mut typed: Vec<char> = Vec::new();
        let mut i: usize = 0;
        while i < chars.len()
            invariant
                i <= chars@.len(),
                typed@ == printable_text(chars@.take(i as int)),
            decreases chars@.len() - i,
        {
            proof {
                assert(chars@.take(i + 1).drop_last() =~= chars@.take(i as int));
                assert(chars@.take(i + 1).last() == chars@[i as int]);
            }
            if !char_is_control(chars[i]) {
                typed.push(chars[i]);
            }
            i = i + 1;
        }
        proof {
            assert(chars@.take(chars@.len() as int) =~= chars@);
        }
        TickInput {
            line_break: contains_char(chars, '\r'),
            move_to_start: contains_char(chars, '\u{1}'),
            move_to_end: contains_char(chars, '\u{5}'),
            backspace: contains_char(chars, '\u{8}'),
            delete: contains_char(chars, '\u{7f}'),
            paste: contains_char(chars, '\u{16}'),
            left: contains_key(keys, Key::Left),
            right: contains_key(keys, Key::Right),
            home: contains_key(keys, Key::Home),
            end: contains_key(keys, Key::End),
            up: contains_key(keys, Key::Up),
            down: contains_key(keys, Key::Down),
            typed,
            clipboard: None,
        }
    }
}

/// The line-break step: a line break is inserted at the cursor and the
/// cursor advances past it.
pub open spec fn line_break_step(v: Seq<char>, c: int, fire: bool) -> (Seq<char>, int) {
    if fire {
        (insert_at(v, c, seq!['\n']), c + 1)
    } else {
        (v, c)
    }
}

/// The move-to-start step: the cursor jumps to the start of the text.
pub open spec fn move_start_step(v: Seq<char>, c: int, fire: bool) -> (Seq<char>, int) {
    if fire {
        (v, 0)
    } else {
        (v, c)
    }
}

/// The move-to-end step: the cursor jumps to the end of the text.
pub open spec fn move_end_step(v: Seq<char>, c: int, fire: bool) -> (Seq<char>, int) {
    if fire {
        (v, v.len() as int)
    } else {
        (v, c)
    }
}

/// The paste step: with clipboard text at hand, it is inserted at the
/// cursor and the cursor advances past it. An unavailable clipboard
/// skips this step only.
pub open spec fn paste_step(v: Seq<char>, c: int, fire: bool, clip: Option<Vec<char>>) -> (
    Seq<char>,
    int,
) {
    match clip {
        Some(t) => if fire {
            (insert_at(v, c, t@), c + t@.len())
        } else {
            (v, c)
        },
        None => (v, c),
    }
}

/// The Left-arrow step: the cursor steps back one scalar unit, if any.
pub open spec fn left_step(v: Seq<char>, c: int, fire: bool) -> (Seq<char>, int) {
    if fire && c > 0 {
        (v, c - 1)
    } else {
        (v, c)
    }
}

/// The Right-arrow step: the cursor steps forward one scalar unit, if any.
pub open spec fn right_step(v: Seq<char>, c: int, fire: bool) -> (Seq<char>, int) {
    if fire && c < v.len() {
        (v, c + 1)
    } else {
        (v, c)
    }
}

/// The Home step: the cursor jumps to the start of its line.
pub open spec fn home_step(v: Seq<char>, c: int, fire: bool) -> (Seq<char>, int) {
    if fire {
        (v, line_start(v, c))
    } else {
        (v, c)
    }
}

/// The End step: the cursor jumps to the end of its line.
pub open spec fn end_step(v: Seq<char>, c: int, fire: bool) -> (Seq<char>, int) {
    if fire {
        (v, line_end(v, c))
    } else {
        (v, c)
    }
}

/// The backspace step: with the cursor past the start, the scalar unit
/// before the cursor is removed and the cursor steps back.
pub open spec fn backspace_step(v: Seq<char>, c: int, fire: bool) -> (Seq<char>, int) {
    if fire && c > 0 {
        (remove_range(v, c - 1, 1), c - 1)
    } else {
        (v, c)
    }
}

/// The forward-delete step: with the cursor before the end, the scalar
/// unit at the cursor is removed and the cursor stays.
pub open spec fn delete_step(v: Seq<char>, c: int, fire: bool) -> (Seq<char>, int) {
    if fire && c < v.len() {
        (remove_range(v, c, 1), c)
    } else {
        (v, c)
    }
}

/// Backspace with the cursor at the start of the value changes nothing,
/// whether or not it fired.
pub proof fn lemma_backspace_at_start_noop(v: Seq<char>, fire: bool)
    ensures
        backspace_step(v, 0, fire) == (v, 0int),
{
}

/// Forward-delete with the cursor at the end of the value changes
/// nothing, whether or not it fired.
pub proof fn lemma_delete_at_end_noop(v: Seq<char>, fire: bool)
    ensures
        delete_step(v, v.len() as int, fire) == (v, v.len() as int),
{
}

/// The value and cursor after `k` ticks that each fire only backspace.
pub open spec fn backspaces(v: Seq<char>, c: int, k: nat) -> (Seq<char>, int)
    decreases k,
{
    if k == 0 {
        (v, c)
    } else {
        let s = backspace_step(v, c, true);
        backspaces(s.0, s.1, (k - 1) as nat)
    }
}

/// Inserting text at a boundary and then backspacing once per inserted
/// scalar unit returns the value to what it was and the cursor to the
/// insertion point: an insertion immediately undone is a round trip.
pub proof fn lemma_insert_backspace_round_trip(s: Seq<char>, i: int, t: Seq<char>)
    requires
        0 <= i <= s.len(),
    ensures
        backspaces(insert_at(s, i, t), i + t.len(), t.len()) == (s, i),
    decreases t.len(),
{
    if t.len() == 0 {
        assert(insert_at(s, i, t) =~= s);
    } else {
        let v1 = remove_range(insert_at(s, i, t), i + t.len() - 1, 1);
        assert(v1 =~= insert_at(s, i, t.drop_last()));
        lemma_insert_backspace_round_trip(s, i, t.drop_last());
    }
}

/// The working value and cursor after the ordered edit steps of one tick:
/// line break, move to start, move to end, backspace, forward delete,
/// paste, Left, Right, Home, End. (The Up and Down movement and the typed
/// characters follow; they need font metrics and the constraint chain.)
pub open spec fn edits_spec(v0: Seq<char>, c0: int, input: TickInput) -> (Seq<char>, int) {
    let m = mutation_steps_spec(v0, c0, input);
    let s7 = left_step(m.0, m.1, input.left);
    let s8 = right_step(s7.0, s7.1, input.right);
    let s9 = home_step(s8.0, s8.1, input.home);
    end_step(s9.0, s9.1, input.end)
}

/// The value-changing steps of a tick, in order: line break, move to
/// start, move to end, backspace, forward delete, paste.
pub open spec fn mutation_steps_spec(v0: Seq<char>, c0: int, input: TickInput) -> (
    Seq<char>,
    int,
) {
    let s1 = line_break_step(v0, c0, input.line_break);
    let s2 = move_start_step(s1.0, s1.1, input.move_to_start);
    let s3 = move_end_step(s2.0, s2.1, input.move_to_end);
    let s4 = backspace_step(s3.0, s3.1, input.backspace);
    let s5 = delete_step(s4.0, s4.1, input.delete);
    paste_step(s5.0, s5.1, input.paste, input.clipboard)
}

/// Applies the ordered edit steps of one tick to a working copy of the
/// value and cursor. Navigation and mutation from the same tick compose
/// in this fixed order, so that simultaneous input gives one
/// deterministic, reproducible result.
pub fn tick_edits(value: &TextInputValue, cursor: usize, input: &TickInput) -> (r: (
    TextInputValue,
    usize,
))
    requires
        cursor <= value@.len(),
        value@.len() + clip_len(*input) + 1 <= usize::MAX,
    ensures
        (r.0@, r.1 as int) == edits_spec(value@, cursor as int, *input),
        r.1 <= r.0@.len(),
{
    let (v, c) = tick_mutations(value, cursor, input);
    let c = tick_cursor_moves(&v, c, input);
    (v, c)
}

/// Applies the value-changing steps of a tick to a working copy of the
/// value and cursor.
#[verifier::rlimit(100)]
fn tick_mutations(value: &TextInputValue, cursor: usize, input: &TickInput) -> (r: (
    TextInputValue,
    usize,
))
    requires
        cursor <= value@.len(),
        value@.len() + clip_len(*input) + 1 <= usize::MAX,
    ensures
        (r.0@, r.1 as int) == mutation_steps_spec(value@, cursor as int, *input),
        r.1 <= r.0@.len(),
{
    let ghost v0 = value@;
    let ghost c0 = cursor as int;
    let mut v = value.duplicate();
    let mut c = cursor;
    if input.line_break {
        v.insert_char(c, '\n');
        c = c + 1;
    }
    let ghost s1 = line_break_step(v0, c0, input.line_break);
    proof {
        assert(v@ == s1.0);
        assert(c as int == s1.1);
        assert(c <= v@.len());
    }
    if input.move_to_start {
        c = 0;
    }
    let ghost s2 = move_start_step(s1.0, s1.1, input.move_to_start);
    proof {
        assert(v@ == s2.0);
        assert(c as int == s2.1);
    }
    if input.move_to_end {
        c = v.len();
    }
    let ghost s3 = move_end_step(s2.0, s2.1, input.move_to_end);
    proof {
        assert(v@ == s3.0);
        assert(c as int == s3.1);
    }
    if input.backspace && c > 0 {
        v.remove_char(c - 1);
        c = c - 1;
    }
    let ghost s4 = backspace_step(s3.0, s3.1, input.backspace);
    proof {
        assert(v@ == s4.0);
        assert(c as int == s4.1);
        assert(c <= v@.len());
    }
    if input.delete && c < v.len() {
        v.remove_char(c);
    }
    let ghost s5 = delete_step(s4.0, s4.1, input.delete);
    proof {
        assert(v@ == s5.0);
        assert(c as int == s5.1);
        assert(c <= v@.len());
        assert(v@.len() <= v0.len() + 1);
    }
    if input.paste {
        match &input.clipboard {
            Some(t) => {
                v.insert_text(c, t);
                c = c + t.len();
            },
            None => {},
        }
    }
    proof {
        let ghost s6 = paste_step(s5.0, s5.1, input.paste, input.clipboard);
        assert(v@ == s6.0);
        assert(c as int == s6.1);
        assert(c <= v@.len());
    }
    (v, c)
}

/// Applies the cursor-movement steps of a tick: Left, Right, Home, End.
fn tick_cursor_moves(value: &TextInputValue, cursor: usize, input: &TickInput) -> (r: usize)
    requires
        cursor <= value@.len(),
    ensures
        ({
            let s7 = left_step(value@, cursor as int, input.left);
            let s8 = right_step(s7.0, s7.1, input.right);
            let s9 = home_step(s8.0, s8.1, input.home);
            r as int == end_step(s9.0, s9.1, input.end).1
        }),
        r <= value@.len(),
{
    let ghost v0 = value@;
    let ghost c0 = cursor as int;
    let mut c = cursor;
    if input.left && c > 0 {
        c = c - 1;
    }
    let ghost s7 = left_step(v0, c0, input.left);
    proof {
        assert(c as int == s7.1);
    }
    if input.right && c < value.len() {
        c = c + 1;
    }
    let ghost s8 = right_step(s7.0, s7.1, input.right);
    proof {
        assert(c as int == s8.1);
    }
    if input.home {
        proof {
            lemma_line_start_bounds(v0, c as int);
        }
        c = value.find_line_start(c);
    }
    let ghost s9 = home_step(s8.0, s8.1, input.home);
    proof {
        assert(c as int == s9.1);
    }
    if input.end {
        proof {
            lemma_line_end_bounds(v0, c as int);
        }
        c = value.find_line_end(c);
    }
    proof {
        assert(c as int == end_step(s9.0, s9.1, input.end).1);
        if input.end {
            lemma_line_end_bounds(s9.0, s9.1);
        }
    }
    c
}

/// Home is idempotent across ticks: a tick in which only Home fired
/// moves the cursor to the start of its line, and a second such tick
/// yields the same cursor as the first, for any fixed value.
pub proof fn lemma_home_tick_idempotent(v: Seq<char>, c: int, input: TickInput)
    requires
        0 <= c <= v.len(),
        input.home,
        !input.line_break,
        !input.move_to_start,
        !input.move_to_end,
        !input.backspace,
        !input.delete,
        input.clipboard is None,
        !input.left,
        !input.right,
        !input.end,
    ensures
        edits_spec(v, c, input) == (v, line_start(v, c)),
        edits_spec(v, line_start(v, c), input) == (v, line_start(v, c)),
{
    lemma_line_start_bounds(v, c);
    lemma_home_idempotent(v, c);
}

/// End is idempotent across ticks: a tick in which only End fired moves
/// the cursor to the end of its line, and a second such tick yields the
/// same cursor as the first, for any fixed value.
pub proof fn lemma_end_tick_idempotent(v: Seq<char>, c: int, input: TickInput)
    requires
        0 <= c <= v.len(),
        input.end,
        !input.line_break,
        !input.move_to_start,
        !input.move_to_end,
        !input.backspace,
        !input.delete,
        input.clipboard is None,
        !input.left,
        !input.right,
        !input.home,
    ensures
        edits_spec(v, c, input) == (v, line_end(v, c)),
        edits_spec(v, line_end(v, c), input) == (v, line_end(v, c)),
{
    lemma_line_end_bounds(v, c);
    lemma_end_idempotent(v, c);
}

/// What one tick leaves behind: the value and cursor the widget holds
/// after the tick, and whether a change was committed (the caret blink
/// timer is reset exactly then).
pub struct TickOutcome {
    /// The value the widget holds after the tick.
    pub value: TextInputValue,
    /// The cursor the widget holds after the tick.
    pub cursor: usize,
    /// Whether the tick's transaction was committed.
    pub committed: bool,
}

/// Whether a tick whose candidate is (`cand_v`, `cand_c`) commits against
/// the stored (`v0`, `c0`): something must have changed — the value or
/// the cursor — and the candidate value must pass every constraint of
/// the chain, evaluated with the stored value as "old". A tick that
/// only moves the cursor is validated like any other.
pub open spec fn tick_commits(
    v0: Seq<char>,
    c0: int,
    cand_v: Seq<char>,
    cand_c: int,
    cs: Seq<DefaultConstrains>,
) -> bool {
    &&& (cand_v != v0 || cand_c != c0)
    &&& chain_passes(cs, v0, cand_v)
}

/// Finishes a tick: appends the characters typed this tick at the worked
/// cursor, then validates the result against the constraint chain with
/// the stored value as "old" and commits, or discards the whole tick's
/// changes. The stored value never transiently violates a constraint,
/// even with several edits merged into one tick.
pub fn finish_tick(
    stored: &TextInputValue,
    stored_cursor: usize,
    worked: TextInputValue,
    worked_cursor: usize,
    typed: &Vec<char>,
    constrains: &TextInputConstrains,
) -> (r: TickOutcome)
    requires
        worked_cursor <= worked@.len(),
        worked@.len() + typed@.len() <= usize::MAX,
    ensures
        ({
            let cand_v = insert_at(worked@, worked_cursor as int, typed@);
            let cand_c = worked_cursor + typed@.len();
            &&& r.committed == tick_commits(
                stored@,
                stored_cursor as int,
                cand_v,
                cand_c,
                constrains.0@,
            )
            &&& r.committed ==> (r.value@, r.cursor as int) == (cand_v, cand_c)
            &&& !r.committed ==> (r.value@, r.cursor as int) == (
                stored@,
                stored_cursor as int,
            )
        }),
{
    let mut cand = worked;
    cand.insert_text(worked_cursor, typed);
    let cand_cursor = worked_cursor + typed.len();
    let value_changed = !text_eq(&cand, stored);
    if !value_changed && cand_cursor == stored_cursor {
        return TickOutcome {
            value: stored.duplicate(),
            cursor: stored_cursor,
            committed: false,
        };
    }
    if !constrains.test(stored, &cand) {
        return TickOutcome {
            value: stored.duplicate(),
            cursor: stored_cursor,
            committed: false,
        };
    }
    TickOutcome { value: cand, cursor: cand_cursor, committed: true }
}

} // verus!
