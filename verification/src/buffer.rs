//! The text buffer owned by a text input, and the splice operations that
//! every edit of a tick is built from.

use vstd::prelude::*;

verus! {

/// Text typed into an input field, kept as one Unicode scalar value per
/// slot, so that every cursor index in `0..=len` is a valid boundary and
/// insertion and removal always act on whole scalar units.
#[derive(Clone, Debug)]
pub struct TextInputValue(pub Vec<char>);

impl View for TextInputValue {
    type V = Seq<char>;

    open spec fn view(&self) -> Seq<char> {
        self.0@
    }
}

/// `s` with `t` spliced in immediately before position `i`.
pub open spec fn insert_at(s: Seq<char>, i: int, t: Seq<char>) -> Seq<char> {
    s.take(i) + t + s.skip(i)
}

/// `s` with the `n` scalar units starting at position `i` removed.
pub open spec fn remove_range(s: Seq<char>, i: int, n: int) -> Seq<char> {
    s.take(i) + s.skip(i + n)
}

impl TextInputValue {
    /// An empty buffer.
    pub fn new() -> (r: Self)
        ensures
            r@ == Seq::<char>::empty(),
    {
        TextInputValue(Vec::new())
    }

    /// The length of the buffer in scalar units.
    pub fn len(&self) -> (r: usize)
        ensures
            r == self@.len(),
    {
        self.0.len()
    }

    /// Whether the buffer holds no text.
    pub fn is_empty(&self) -> (r: bool)
        ensures
            r == (self@.len() == 0),
    {
        self.0.len() == 0
    }

    /// The scalar unit at position `i`.
    pub fn char_at(&self, i: usize) -> (r: char)
        requires
            i < self@.len(),
        ensures
            r == self@[i as int],
    {
        self.0[i]
    }

    /// Inserts one scalar unit immediately before position `i`.
    pub fn insert_char(&mut self, i: usize, c: char)
        requires
            i <= old(self)@.len(),
        ensures
            final(self)@ == insert_at(old(self)@, i as int, seq![c]),
    {
        self.0.insert(i, c);
        proof {
            assert(self@ =~= insert_at(old(self)@, i as int, seq![c]));
        }
    }

    /// Inserts a run of text immediately before position `i`.
    pub fn insert_text(&mut self, i: usize, t: &Vec<char>)
        requires
            i <= old(self)@.len(),
            old(self)@.len() + t@.len() <= usize::MAX,
        ensures
            final(self)@ == insert_at(old(self)@, i as int, t@),
    {
        let ghost orig = self@;
        let mut k: usize = 0;
        while k < t.len()
            invariant
                k <= t@.len(),
                i <= orig.len(),
                orig.len() + t@.len() <= usize::MAX,
                self@ == insert_at(orig, i as int, t@.take(k as int)),
            decreases t@.len() - k,
        {
            self.0.insert(i + k, t[k]);
            proof {
                assert(self@ =~= insert_at(orig, i as int, t@.take(k + 1)));
            }
            k = k + 1;
        }
        proof {
            assert(t@.take(t@.len() as int) =~= t@);
        }
    }

    /// A copy of the buffer with the same contents, fit to serve as the
    /// working value of a tick.
    pub fn duplicate(&self) -> (r: Self)
        ensures
            r@ == self@,
    {
        let mut v: Vec<char> = Vec::new();
        let mut k: usize = 0;
        while k < self.0.len()
            invariant
                k <= self@.len(),
                v@ == self@.take(k as int),
            decreases self@.len() - k,
        {
            v.push(self.0[k]);
            proof {
                assert(v@ =~= self@.take(k + 1));
            }
            k = k + 1;
        }
        proof {
            assert(self@.take(self@.len() as int) =~= self@);
        }
        TextInputValue(v)
    }

    /// The scalar units of positions `from..to`, as their own vector.
    pub fn slice_range(&self, from: usize, to: usize) -> (r: Vec<char>)
        requires
            from <= to <= self@.len(),
        ensures
            r@ == self@.subrange(from as int, to as int),
    {
        let mut out: Vec<char> = Vec::new();
        let mut k: usize = from;
        while k < to
            invariant
                from <= k <= to <= self@.len(),
                out@ == self@.subrange(from as int, k as int),
            decreases to - k,
        {
            out.push(self.0[k]);
            proof {
                assert(out@ =~= self@.subrange(from as int, k + 1));
            }
            k = k + 1;
        }
        out
    }

    /// Removes the scalar unit at position `i`.
    pub fn remove_char(&mut self, i: usize)
        requires
            i < old(self)@.len(),
        ensures
            final(self)@ == remove_range(old(self)@, i as int, 1),
    {
        self.0.remove(i);
        proof {
            assert(self@ =~= remove_range(old(self)@, i as int, 1));
        }
    }
}

/// Whether two buffers hold the same text.
pub fn text_eq(a: &TextInputValue, b: &TextInputValue) -> (r: bool)
    ensures
        r <==> a@ == b@,
{
    if a.0.len() != b.0.len() {
        return false;
    }
    let mut k: usize = 0;
    while k < a.0.len()
        invariant
            k <= a@.len(),
            a@.len() == b@.len(),
            forall|j: int| 0 <= j < k ==> a@[j] == b@[j],
        decreases a@.len() - k,
    {
        if a.0[k] != b.0[k] {
            return false;
        }
        k = k + 1;
    }
    proof {
        assert(a@ =~= b@);
    }
    true
}

/// Inserting text at a boundary and then removing the same span returns the
/// buffer to its original contents: a spliced-in run leaves the rest of the
/// text untouched.
pub proof fn lemma_insert_remove_round_trip(s: Seq<char>, i: int, t: Seq<char>)
    requires
        0 <= i <= s.len(),
    ensures
        remove_range(insert_at(s, i, t), i, t.len() as int) == s,
{
    assert(remove_range(insert_at(s, i, t), i, t.len() as int) =~= s);
}

} // verus!
