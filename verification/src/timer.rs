//! The broadcast countdown timer: a detached background task that,
//! started with N, publishes N-1, N-2, ..., 0 to the shared channel,
//! one value per fixed interval.
//!
//! The task here is the pure state machine; the caller that runs it as
//! a background task publishes each value and then waits out the
//! interval. Several tasks may run at once on one channel: a step
//! depends on nothing but the task's own counter, so concurrent tasks
//! interleave their publications without ever waiting on each other.

use vstd::prelude::*;
use crate::broadcast::BroadcastChannel;
use crate::decimal::dec_bytes;

verus! {

/// The values a broadcast countdown started with `n` publishes:
/// n-1, n-2, ..., 0.
pub open spec fn publish_seq(n: nat) -> Seq<nat> {
    Seq::new(n, |i: int| (n - 1 - i) as nat)
}

/// One broadcast countdown in flight: how many values are still to be
/// published (the next value is always one less than this counter).
#[derive(Clone, Copy, Debug, PartialEq, Eq, Structural)]
pub struct BroadcastTimerTask {
    pub remaining: u32,
}

impl BroadcastTimerTask {
    /// Starts a countdown that will publish `n` values: n-1 down to 0.
    pub fn new(n: u32) -> (t: BroadcastTimerTask)
        ensures
            t.remaining == n,
    {
        BroadcastTimerTask { remaining: n }
    }

    /// Yields the next value to publish, or `None` once every value
    /// down to 0 has been produced.
    ///
    /// A step from a positive counter yields exactly counter - 1 and
    /// decrements; the values still to come are the yielded value
    /// followed by those of the new state, so a full run from `n`
    /// yields `publish_seq(n)` and then stops. The step reads and
    /// writes nothing but the countdown's own counter.
    pub fn next_value(&mut self) -> (r: Option<u32>)
        ensures
            old(self).remaining > 0 ==> {
                &&& r == Some((old(self).remaining - 1) as u32)
                &&& final(self).remaining == old(self).remaining - 1
                &&& publish_seq(old(self).remaining as nat) == seq![
                    (old(self).remaining - 1) as nat,
                ] + publish_seq(final(self).remaining as nat)
            },
            old(self).remaining == 0 ==> r is None && *final(self) == *old(self),
    {
        if self.remaining > 0 {
            self.remaining = self.remaining - 1;
            proof {
                assert(publish_seq((self.remaining + 1) as nat) =~= seq![
                    self.remaining as nat,
                ] + publish_seq(self.remaining as nat));
            }
            Some(self.remaining)
        } else {
            None
        }
    }

    /// Takes one timed step: publishes the next value to the channel
    /// and reports it, or reports `None` when the countdown is done.
    /// Publishing never blocks and never fails the countdown: a
    /// channel with no subscribers simply drops the value.
    pub fn publish_next(&mut self, channel: &BroadcastChannel) -> (r: Option<u32>)
        ensures
            old(self).remaining > 0 ==> r == Some((old(self).remaining - 1) as u32)
                && final(self).remaining == old(self).remaining - 1,
            old(self).remaining == 0 ==> r is None && *final(self) == *old(self),
    {
        match self.next_value() {
            Some(v) => {
                let _ = channel.publish(v);
                Some(v)
            },
            None => None,
        }
    }
}

/// A broadcast countdown started with `n` publishes exactly `n`
/// values: the first is n-1, each is one less than the one before it,
/// and the last is 0.
pub proof fn lemma_publish_seq(n: nat)
    ensures
        publish_seq(n).len() == n,
        forall|i: int| 0 <= i < n ==> #[trigger] publish_seq(n)[i] == n - 1 - i,
        forall|i: int|
            0 < i < n ==> #[trigger] publish_seq(n)[i] == publish_seq(n)[i - 1] - 1,
        n > 0 ==> publish_seq(n)[0] == n - 1 && publish_seq(n)[n - 1] == 0,
{
}

/// The bytes of the prefix "good: ".
pub open spec fn ack_prefix() -> Seq<u8> {
    seq![103u8, 111u8, 111u8, 100u8, 58u8, 32u8]
}

/// The acknowledgement body for a countdown started with `n`:
/// "good: " followed by the decimal digits of `n`.
pub open spec fn ack_bytes(n: nat) -> Seq<u8> {
    ack_prefix() + dec_bytes(n)
}

/// Builds the immediate acknowledgement body for a start request. It
/// depends on `n` alone — not on the channel, its subscribers, or any
/// value published so far — so the response to the caller is fixed
/// before the countdown publishes anything.
pub fn ack_message(n: u32) -> (r: Vec<u8>)
    ensures
        r@ == ack_bytes(n as nat),
{
    let mut out: Vec<u8> = Vec::new();
    out.push(103);
    out.push(111);
    out.push(111);
    out.push(100);
    out.push(58);
    out.push(32);
    let mut digits = crate::decimal::u32_to_dec(n);
    out.append(&mut digits);
    proof {
        assert(out@ =~= ack_bytes(n as nat));
    }
    out
}

} // verus!
