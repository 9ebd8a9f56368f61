//! The per-connection countdown generator: a finite, non-restartable
//! sequence of events with values N, N-1, ..., 1, one generator per
//! connection, no shared state.
//!
//! The generator itself is a pure state machine; the caller that turns
//! it into a timed stream sleeps before a step exactly when
//! `needs_delay` says so, which makes the first event immediate and
//! every later one follow its delay.

use vstd::prelude::*;
use crate::event::Event;

verus! {

/// The values a countdown from `n` emits: n, n-1, ..., 1.
pub open spec fn countdown_seq(n: nat) -> Seq<nat> {
    Seq::new(n, |i: int| (n - i) as nat)
}

/// Per-connection countdown state: how many values remain, and whether
/// a value has been emitted yet (which decides the inter-event delay).
#[derive(Clone, Copy, Debug, PartialEq, Eq, Structural)]
pub struct CountdownGenerator {
    pub remaining: u32,
    pub started: bool,
}

impl CountdownGenerator {
    /// Opens a countdown from `n`. No value has been emitted yet, so
    /// the first step is taken without delay.
    pub fn new(n: u32) -> (g: CountdownGenerator)
        ensures
            g.remaining == n,
            !g.started,
    {
        CountdownGenerator { remaining: n, started: false }
    }

    /// Whether the caller must wait out the inter-event delay before
    /// stepping: false only before the first event.
    pub fn needs_delay(&self) -> (r: bool)
        ensures
            r == self.started,
    {
        self.started
    }

    /// Emits the next event, or `None` once the countdown is spent.
    ///
    /// A step from a positive counter emits exactly that counter as the
    /// event value and decrements it; the values still to come are the
    /// emitted value followed by the values of the new state, so a full
    /// run from `n` emits `countdown_seq(n)` and then ends. Zero is
    /// never emitted: the step from zero returns `None` and changes
    /// nothing.
    pub fn step(&mut self) -> (r: Option<Event>)
        ensures
            old(self).remaining > 0 ==> {
                &&& r matches Some(e) && e.value == old(self).remaining
                &&& final(self).remaining == old(self).remaining - 1
                &&& final(self).started
                &&& countdown_seq(old(self).remaining as nat) == seq![
                    old(self).remaining as nat,
                ] + countdown_seq(final(self).remaining as nat)
            },
            old(self).remaining == 0 ==> r is None && *final(self) == *old(self),
    {
        if self.remaining > 0 {
            let v = self.remaining;
            self.remaining = self.remaining - 1;
            self.started = true;
            proof {
                assert(countdown_seq(v as nat) =~= seq![v as nat] + countdown_seq(
                    (v - 1) as nat,
                ));
            }
            Some(Event { value: v })
        } else {
            None
        }
    }
}

/// A countdown from `n` emits exactly `n` values: the first is `n`,
/// each is one less than the one before it, and the last is 1.
pub proof fn lemma_countdown_seq(n: nat)
    ensures
        countdown_seq(n).len() == n,
        forall|i: int| 0 <= i < n ==> #[trigger] countdown_seq(n)[i] == n - i,
        forall|i: int|
            0 < i < n ==> #[trigger] countdown_seq(n)[i] == countdown_seq(n)[i - 1] - 1,
        n > 0 ==> countdown_seq(n)[0] == n && countdown_seq(n)[n - 1] == 1,
        forall|i: int| 0 <= i < n ==> #[trigger] countdown_seq(n)[i] >= 1,
{
}

/// Runs a whole countdown from `n` eagerly and returns every emitted
/// event: exactly `n` of them, with values n, n-1, ..., 1.
pub fn collect_countdown(n: u32) -> (r: Vec<Event>)
    ensures
        r@.len() == n,
        forall|i: int| 0 <= i < n ==> #[trigger] r@[i].value == n - i,
{
    let mut g = CountdownGenerator::new(n);
    let mut out: Vec<Event> = Vec::new();
    loop
        invariant
            g.remaining <= n,
            out@.len() == n - g.remaining,
            forall|i: int| 0 <= i < out@.len() ==> #[trigger] out@[i].value == n - i,
        decreases g.remaining,
    {
        match g.step() {
            Some(e) => out.push(e),
            None => {
                return out;
            },
        }
    }
}

} // verus!
