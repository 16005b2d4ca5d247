//! Edit-acceptance rules: pure predicates over the old value and the
//! candidate value of a tick. A candidate is evaluated as a whole, never
//! per character, so rules about the complete string (a length cap, a
//! forbidden character anywhere) hold exactly.

use vstd::prelude::*;

use crate::buffer::TextInputValue;

verus! {

/// A pure acceptance predicate over (old value, candidate value).
pub trait TextInputConstrain {
    /// What the predicate holds of the old text and the candidate text.
    spec fn spec_test(&self, prev: Seq<char>, candidate: Seq<char>) -> bool;

    /// Returns true if the candidate may replace the old value.
    fn test(&self, prev: &TextInputValue, candidate: &TextInputValue) -> (r: bool)
        ensures
            r == self.spec_test(prev@, candidate@),
    ;
}

/// The built-in text input constraints.
#[derive(Clone, Debug)]
pub enum DefaultConstrains {
    /// Only allow these characters.
    AllowedCharacters(Vec<char>),
    /// Disallow these characters.
    DisallowedCharacters(Vec<char>),
    /// Max input length, in scalar units.
    MaxLength(usize),
}

/// Whether `set` holds the scalar unit `c`.
pub fn contains_char(set: &Vec<char>, c: char) -> (r: bool)
    ensures
        r == set@.contains(c),
{
    let mut k: usize = 0;
    while k < set.len()
        invariant
            k <= set@.len(),
            forall|j: int| 0 <= j < k ==> set@[j] != c,
        decreases set@.len() - k,
    {
        if set[k] == c {
            return true;
        }
        k = k + 1;
    }
    false
}

impl TextInputConstrain for DefaultConstrains {
    open spec fn spec_test(&self, prev: Seq<char>, candidate: Seq<char>) -> bool {
        match self {
            DefaultConstrains::AllowedCharacters(cs) => forall|i: int|
                0 <= i < candidate.len() ==> cs@.contains(#[trigger] candidate[i]),
            DefaultConstrains::DisallowedCharacters(cs) => forall|i: int|
                0 <= i < candidate.len() ==> !cs@.contains(#[trigger] candidate[i]),
            DefaultConstrains::MaxLength(n) => candidate.len() <= *n,
        }
    }

    #[verifier::loop_isolation(false)]
    fn test(&self, prev: &TextInputValue, candidate: &TextInputValue) -> (r: bool) {
        match self {
            DefaultConstrains::AllowedCharacters(cs) => {
                let mut k: usize = 0;
                while k < candidate.len()
                    invariant
                        k <= candidate@.len(),
                        forall|j: int| 0 <= j < k ==> cs@.contains(#[trigger] candidate@[j]),
                    decreases candidate@.len() - k,
                {
                    if !contains_char(cs, candidate.char_at(k)) {
                        return false;
                    }
                    k = k + 1;
                }
                true
            },
            DefaultConstrains::DisallowedCharacters(cs) => {
                let mut k: usize = 0;
                while k < candidate.len()
                    invariant
                        k <= candidate@.len(),
                        forall|j: int| 0 <= j < k ==> !cs@.contains(#[trigger] candidate@[j]),
                    decreases candidate@.len() - k,
                {
                    if contains_char(cs, candidate.char_at(k)) {
                        return false;
                    }
                    k = k + 1;
                }
                true
            },
            DefaultConstrains::MaxLength(n) => candidate.len() <= *n,
        }
    }
}

/// An ordered chain of constraints. The character(s) won't be added to the
/// input if any of these returns false.
pub struct TextInputConstrains(pub Vec<DefaultConstrains>);

/// Whether every constraint of the chain accepts the candidate.
pub open spec fn chain_passes(
    cs: Seq<DefaultConstrains>,
    prev: Seq<char>,
    candidate: Seq<char>,
) -> bool {
    forall|i: int| 0 <= i < cs.len() ==> (#[trigger] cs[i]).spec_test(prev, candidate)
}

impl TextInputConstrains {
    /// Returns true if the candidate passes every constraint of the chain.
    pub fn test(&self, prev: &TextInputValue, candidate: &TextInputValue) -> (r: bool)
        ensures
            r == chain_passes(self.0@, prev@, candidate@),
    {
        let mut k: usize = 0;
        while k < self.0.len()
            invariant
                k <= self.0@.len(),
                forall|j: int| 0 <= j < k ==> (#[trigger] self.0@[j]).spec_test(prev@, candidate@),
            decreases self.0@.len() - k,
        {
            if !self.0[k].test(prev, candidate) {
                return false;
            }
            k = k + 1;
        }
        true
    }
}

/// A single failing constraint blocks the whole chain, wherever it stands
/// and however the other constraints vote.
pub proof fn lemma_single_failure_blocks(
    cs: Seq<DefaultConstrains>,
    prev: Seq<char>,
    candidate: Seq<char>,
    j: int,
)
    requires
        0 <= j < cs.len(),
        !cs[j].spec_test(prev, candidate),
    ensures
        !chain_passes(cs, prev, candidate),
{
}

} // verus!
