use vstd::prelude::*;

verus! {

/// Number of passwords tried before giving up on the entropy target.
pub const MAX_ATTEMPTS: u32 = 10;

/// How much longer each new attempt is than the one before it.
pub const LENGTH_STEP: usize = 2;

/// State of the search for a password that meets a minimum entropy.
///
/// The caller generates a password of `length` characters, estimates its entropy and
/// reports through [`EntropySearch::record`] whether the target was met, until
/// `finished` is set. Once finished, `length` is the length of the last password tried.
#[derive(Clone, Copy, Debug, PartialEq, Eq, Structural)]
pub struct EntropySearch {
    pub requested_length: usize,
    pub length: usize,
    pub failed_attempts: u32,
    pub finished: bool,
    pub reached_min_entropy: bool,
}

/// Length of the password tried on attempt `n` (counting from zero).
pub open spec fn attempt_length(requested: nat, n: nat) -> nat {
    (requested + LENGTH_STEP * n) as nat
}

impl EntropySearch {
    pub open spec fn wf(self) -> bool {
        &&& self.failed_attempts <= MAX_ATTEMPTS
        &&& self.length == attempt_length(
            self.requested_length as nat,
            if self.failed_attempts == MAX_ATTEMPTS {
                (MAX_ATTEMPTS - 1) as nat
            } else {
                self.failed_attempts as nat
            },
        )
        &&& self.requested_length + LENGTH_STEP * (MAX_ATTEMPTS - 1) <= usize::MAX
        &&& (self.reached_min_entropy ==> self.finished)
        &&& (self.finished <==> (self.reached_min_entropy || self.failed_attempts == MAX_ATTEMPTS))
    }

    /// Starts a search at the requested length.
    pub fn new(length: usize) -> (r: EntropySearch)
        requires
            length + LENGTH_STEP * (MAX_ATTEMPTS - 1) <= usize::MAX,
        ensures
            r.wf(),
            r == (EntropySearch {
                requested_length: length,
                length,
                failed_attempts: 0,
                finished: false,
                reached_min_entropy: false,
            }),
    {
        EntropySearch {
            requested_length: length,
            length,
            failed_attempts: 0,
            finished: false,
            reached_min_entropy: false,
        }
    }

    /// Records whether the password of the current length met the target.
    ///
    /// Success ends the search. A shortfall either ends it, after the last allowed
    /// attempt, or moves on to a password `LENGTH_STEP` characters longer.
    pub fn record(&self, met: bool) -> (r: EntropySearch)
        requires
            self.wf(),
            !self.finished,
        ensures
            r.wf(),
            r.requested_length == self.requested_length,
            met ==> r == (EntropySearch { finished: true, reached_min_entropy: true, ..*self }),
            !met ==> r.failed_attempts == self.failed_attempts + 1 && !r.reached_min_entropy,
            !met && r.failed_attempts < MAX_ATTEMPTS ==> !r.finished && r.length == self.length
                + LENGTH_STEP,
            !met && r.failed_attempts == MAX_ATTEMPTS ==> r.finished && r.length == self.length,
    {
        if met {
            EntropySearch { finished: true, reached_min_entropy: true, ..*self }
        } else if self.failed_attempts + 1 == MAX_ATTEMPTS {
            EntropySearch { failed_attempts: MAX_ATTEMPTS, finished: true, ..*self }
        } else {
            EntropySearch {
                length: self.length + LENGTH_STEP,
                failed_attempts: self.failed_attempts + 1,
                ..*self
            }
        }
    }
}

/// A search that never meets its target ends after the last allowed attempt, at the
/// length of that attempt.
pub proof fn lemma_exhausted_search(s: EntropySearch)
    requires
        s.wf(),
        s.finished,
        !s.reached_min_entropy,
    ensures
        s.failed_attempts == MAX_ATTEMPTS,
        s.length == s.requested_length + LENGTH_STEP * (MAX_ATTEMPTS - 1),
{
}

/// While the search goes on, each attempt asks for a password at least as long as the
/// one requested.
pub proof fn lemma_length_never_shrinks(s: EntropySearch)
    requires
        s.wf(),
    ensures
        s.length >= s.requested_length,
{
}

} // verus!
