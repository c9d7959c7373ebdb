//! The future of the runtime's introductory example: it says something a given number of
//! times, one time per poll, asking to be polled again until it is done.
use vstd::prelude::*;

verus! {

/// Says `to_say` `n` times, one time per poll.
pub struct SayNTimes {
    to_say: String,
    n: usize,
    done: usize,
}

impl SayNTimes {
    pub closed spec fn spec_n(&self) -> usize {
        self.n
    }

    /// How many times it has spoken so far.
    pub closed spec fn spec_done(&self) -> usize {
        self.done
    }

    pub closed spec fn spec_to_say(&self) -> Seq<char> {
        self.to_say@
    }

    pub fn new(to_say: String, n: usize) -> (s: Self)
        ensures
            s.spec_to_say() == to_say@,
            s.spec_n() == n,
            s.spec_done() == 0,
    {
        SayNTimes { to_say, n, done: 0 }
    }

    /// What it says.
    pub fn to_say(&self) -> (s: &str)
        ensures
            s@ == self.spec_to_say(),
    {
        self.to_say.as_str()
    }

    /// How many times it has spoken so far.
    pub fn done(&self) -> (d: usize)
        ensures
            d == self.spec_done(),
    {
        self.done
    }

    /// Counts one more time said, and tells whether that was the `n`-th, in which case
    /// the future is ready; otherwise it wants to be polled again.
    pub fn said_once_more(&mut self) -> (finished: bool)
        requires
            old(self).spec_done() < usize::MAX,
        ensures
            final(self).spec_done() == old(self).spec_done() + 1,
            final(self).spec_n() == old(self).spec_n(),
            final(self).spec_to_say() == old(self).spec_to_say(),
            finished == (final(self).spec_done() == final(self).spec_n()),
    {
        self.done = self.done + 1;
        self.done == self.n
    }
}

} // verus!
