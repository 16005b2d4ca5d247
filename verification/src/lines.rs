//! Line structure of a multi-line value: where the line holding a position
//! starts and ends, and how many line breaks a prefix holds. These are the
//! cursor targets of the Home and End keys and the scaffolding of the
//! Up and Down movement.

use vstd::prelude::*;

use crate::buffer::TextInputValue;

verus! {

/// Start of the line holding position `i`: the position right after the
/// last line break strictly before `i`, or `0` when there is none.
pub open spec fn line_start(s: Seq<char>, i: int) -> int
    decreases i,
{
    if i <= 0 {
        0
    } else if s[i - 1] == '\n' {
        i
    } else {
        line_start(s, i - 1)
    }
}

/// End of the line holding position `i`: the position of the first line
/// break at or after `i`, or `s.len()` when there is none.
pub open spec fn line_end(s: Seq<char>, i: int) -> int
    decreases s.len() - i,
{
    if i >= s.len() {
        s.len() as int
    } else if s[i] == '\n' {
        i
    } else {
        line_end(s, i + 1)
    }
}

/// How many occurrences of `c` the text `s` holds.
pub open spec fn count_char(s: Seq<char>, c: char) -> nat
    decreases s.len(),
{
    if s.len() == 0 {
        0
    } else {
        count_char(s.drop_last(), c) + (if s.last() == c {
            1nat
        } else {
            0nat
        })
    }
}

/// Which line (counted from zero) position `i` lies on.
pub open spec fn line_index(s: Seq<char>, i: int) -> nat {
    count_char(s.take(i), '\n')
}

pub proof fn lemma_line_start_bounds(s: Seq<char>, i: int)
    requires
        0 <= i <= s.len(),
    ensures
        0 <= line_start(s, i) <= i,
        line_start(s, i) > 0 ==> s[line_start(s, i) - 1] == '\n',
        forall|j: int| line_start(s, i) <= j < i ==> s[j] != '\n',
    decreases i,
{
    if i <= 0 {
    } else if s[i - 1] == '\n' {
    } else {
        lemma_line_start_bounds(s, i - 1);
    }
}

pub proof fn lemma_line_end_bounds(s: Seq<char>, i: int)
    requires
        0 <= i <= s.len(),
    ensures
        i <= line_end(s, i) <= s.len(),
        line_end(s, i) < s.len() ==> s[line_end(s, i)] == '\n',
        forall|j: int| i <= j < line_end(s, i) ==> s[j] != '\n',
    decreases s.len() - i,
{
    if i >= s.len() {
    } else if s[i] == '\n' {
    } else {
        lemma_line_end_bounds(s, i + 1);
    }
}

/// The Home target is a fixed point: moving to the start of a line and
/// moving again lands on the same position.
pub proof fn lemma_home_idempotent(s: Seq<char>, i: int)
    requires
        0 <= i <= s.len(),
    ensures
        line_start(s, line_start(s, i)) == line_start(s, i),
{
    lemma_line_start_bounds(s, i);
}

/// The End target is a fixed point: moving to the end of a line and moving
/// again lands on the same position.
pub proof fn lemma_end_idempotent(s: Seq<char>, i: int)
    requires
        0 <= i <= s.len(),
    ensures
        line_end(s, line_end(s, i)) == line_end(s, i),
{
    lemma_line_end_bounds(s, i);
}

/// Every position of one line has the same line start.
pub proof fn lemma_line_start_stable(s: Seq<char>, i: int, j: int)
    requires
        0 <= i <= s.len(),
        line_start(s, i) <= j <= i,
    ensures
        line_start(s, j) == line_start(s, i),
    decreases i,
{
    lemma_line_start_bounds(s, i);
    if j < i {
        lemma_line_start_stable(s, i - 1, j);
    }
}

/// A span without line breaks stays on one line.
pub proof fn lemma_line_index_stable(s: Seq<char>, i: int, j: int)
    requires
        0 <= i <= j <= s.len(),
        forall|k: int| i <= k < j ==> s[k] != '\n',
    ensures
        line_index(s, j) == line_index(s, i),
    decreases j - i,
{
    if i < j {
        assert(s.take(j).drop_last() =~= s.take(j - 1));
        assert(s.take(j).last() == s[j - 1]);
        lemma_line_index_stable(s, i, j - 1);
    }
}

/// A longer prefix never holds fewer occurrences.
pub proof fn lemma_count_char_take_le(s: Seq<char>, c: char, i: int, j: int)
    requires
        0 <= i <= j <= s.len(),
    ensures
        count_char(s.take(i), c) <= count_char(s.take(j), c),
    decreases j - i,
{
    if i < j {
        assert(s.take(j).drop_last() =~= s.take(j - 1));
        lemma_count_char_take_le(s, c, i, j - 1);
    }
}

/// A text cannot hold more occurrences than scalar units.
pub proof fn lemma_count_char_le_len(s: Seq<char>, c: char)
    ensures
        count_char(s, c) <= s.len(),
    decreases s.len(),
{
    if s.len() > 0 {
        lemma_count_char_le_len(s.drop_last(), c);
    }
}

/// The whole text is its own full prefix.
pub proof fn lemma_count_char_take_all(s: Seq<char>, c: char)
    ensures
        count_char(s.take(s.len() as int), c) == count_char(s, c),
{
    assert(s.take(s.len() as int) =~= s);
}

impl TextInputValue {
    /// Start of the line holding position `i`.
    pub fn find_line_start(&self, i: usize) -> (r: usize)
        requires
            i <= self@.len(),
        ensures
            r == line_start(self@, i as int),
    {
        let mut j: usize = i;
        while j > 0
            invariant
                j <= i <= self@.len(),
                line_start(self@, i as int) == line_start(self@, j as int),
            decreases j,
        {
            if self.char_at(j - 1) == '\n' {
                return j;
            }
            j = j - 1;
        }
        0
    }

    /// End of the line holding position `i`.
    pub fn find_line_end(&self, i: usize) -> (r: usize)
        requires
            i <= self@.len(),
        ensures
            r == line_end(self@, i as int),
    {
        let mut j: usize = i;
        while j < self.len()
            invariant
                i <= j <= self@.len(),
                line_end(self@, i as int) == line_end(self@, j as int),
            decreases self@.len() - j,
        {
            if self.char_at(j) == '\n' {
                return j;
            }
            j = j + 1;
        }
        j
    }

    /// How many occurrences of `c` the first `end` scalar units hold.
    pub fn count_char_upto(&self, end: usize, c: char) -> (r: usize)
        requires
            end <= self@.len(),
        ensures
            r == count_char(self@.take(end as int), c),
    {
        let mut cnt: usize = 0;
        let mut k: usize = 0;
        while k < end
            invariant
                k <= end <= self@.len(),
                cnt <= k,
                cnt == count_char(self@.take(k as int), c),
            decreases end - k,
        {
            proof {
                assert(self@.take(k + 1).drop_last() =~= self@.take(k as int));
                assert(self@.take(k + 1).last() == self@[k as int]);
            }
            if self.char_at(k) == c {
                cnt = cnt + 1;
            }
            k = k + 1;
        }
        cnt
    }

    /// How many lines the text before position `i` spans.
    pub fn lines_before(&self, i: usize) -> (r: usize)
        requires
            i <= self@.len(),
            self@.len() < usize::MAX,
        ensures
            r == line_index(self@, i as int) + 1,
    {
        let n = self.count_char_upto(i, '\n');
        proof {
            lemma_count_char_le_len(self@.take(i as int), '\n');
        }
        n + 1
    }

    /// How many lines the whole text spans.
    pub fn total_lines(&self) -> (r: usize)
        requires
            self@.len() < usize::MAX,
        ensures
            r == count_char(self@, '\n') + 1,
    {
        let n = self.count_char_upto(self.len(), '\n');
        proof {
            lemma_count_char_take_all(self@, '\n');
            lemma_count_char_le_len(self@, '\n');
        }
        n + 1
    }
}

} // verus!
