//! Bounded busy-polling: waiting for a condition of the adapter with a
//! bound on the number of looks, so that no wait can go on for ever.

use vstd::prelude::*;

verus! {

/// A wait gave up: the condition was not seen within the bound.
#[derive(Clone, Copy, Debug, PartialEq, Eq, Structural)]
pub struct Timeout;

/// What a look at the condition amounts to.
#[derive(Clone, Copy, Debug, PartialEq, Eq, Structural)]
pub enum Verdict {
    /// The condition holds: the wait is over.
    Ready,
    /// The condition does not hold yet: look again.
    Again,
    /// The condition does not hold and the bound is reached: give up.
    TimedOut,
}

/// A wait in progress: the bound, and the looks taken so far.
#[derive(Clone, Copy, Debug, PartialEq, Eq, Structural)]
pub struct Poll {
    pub bound: u32,
    pub looks: u32,
}

/// The wait and the verdict after a look that found the condition `ready`.
/// A wait whose looks are used up takes no look and is timed out; else a
/// look that finds the condition ends the wait, and one that does not is
/// counted, and is the last if it reaches the bound.
pub open spec fn observed(p: Poll, ready: bool) -> (Poll, Verdict) {
    if p.looks >= p.bound {
        (p, Verdict::TimedOut)
    } else if ready {
        (p, Verdict::Ready)
    } else if p.looks + 1 >= p.bound {
        (Poll { looks: (p.looks + 1) as u32, ..p }, Verdict::TimedOut)
    } else {
        (Poll { looks: (p.looks + 1) as u32, ..p }, Verdict::Again)
    }
}

impl Poll {
    /// A wait of at most `bound` looks, none taken yet.
    pub fn new(bound: u32) -> (p: Poll)
        ensures
            p == (Poll { bound, looks: 0 }),
    {
        Poll { bound, looks: 0 }
    }

    /// Takes a look into account.
    pub fn observe(self, ready: bool) -> (r: (Poll, Verdict))
        ensures
            r == observed(self, ready),
            r.1 is Again ==> r.0.looks == self.looks + 1 && r.0.looks < self.bound,
    {
        if self.looks >= self.bound {
            (self, Verdict::TimedOut)
        } else if ready {
            (self, Verdict::Ready)
        } else {
            let looks: u32 = self.looks + 1;
            let p = Poll { bound: self.bound, looks };
            if looks >= self.bound {
                (p, Verdict::TimedOut)
            } else {
                (p, Verdict::Again)
            }
        }
    }
}

/// Whether none of the first `n` looks finds the condition. A look behind
/// the end of `looks` finds nothing.
pub open spec fn none_ready(looks: Seq<bool>, n: int) -> bool {
    forall|j: int| 0 <= j < n && j < looks.len() ==> !#[trigger] looks[j]
}

/// Waits for the condition over a given course of looks: `looks[i]` says
/// what the look of number `i` finds. Returns the number of the first look
/// that finds the condition, if it is among the first `bound`; else gives up
/// with `Timeout`, after `bound` looks at most.
pub fn poll_until(looks: &[bool], bound: u32) -> (r: Result<u32, Timeout>)
    ensures
        match r {
            Ok(i) => i < bound && i < looks@.len() && looks@[i as int] && none_ready(
                looks@,
                i as int,
            ),
            Err(_) => none_ready(looks@, bound as int),
        },
        r.is_err() <==> none_ready(looks@, bound as int),
{
    let mut p = Poll::new(bound);
    loop
        invariant
            p.bound == bound,
            p.looks <= bound,
            none_ready(looks@, p.looks as int),
        decreases bound - p.looks,
    {
        let at: u32 = p.looks;
        let ready: bool = (at as usize) < looks.len() && at < bound && looks[at as usize];
        let (next, verdict) = p.observe(ready);
        match verdict {
            Verdict::Ready => {
                return Ok(at);
            },
            Verdict::TimedOut => {
                return Err(Timeout);
            },
            Verdict::Again => {
                p = next;
            },
        }
    }
}

/// A wait that never sees the condition ends with `Timeout`: it cannot go
/// on for ever, whatever the bound.
pub proof fn lemma_poll_times_out(p: Poll)
    requires
        p.looks <= p.bound,
    ensures
        observed(p, false).1 != Verdict::Ready,
        observed(p, false).1 is Again ==> observed(p, false).0.looks == p.looks + 1 && observed(
            p,
            false,
        ).0.looks < p.bound,
        p.looks + 1 >= p.bound ==> observed(p, false).1 is TimedOut,
{
}

} // verus!
