//! Countdown events and their SSE wire framing.
//!
//! An event carries one countdown value; its event name is always
//! "countdown" and its id is the decimal string of the value, so the
//! value alone determines the whole frame.

use vstd::prelude::*;
use crate::decimal::{dec_bytes, u32_to_dec};

verus! {

/// One countdown event: the value doubles as the SSE `id` and `data`.
#[derive(Clone, Copy, Debug, PartialEq, Eq, Structural)]
pub struct Event {
    pub value: u32,
}

/// The bytes of the event name "countdown", shared by every event.
pub open spec fn event_name() -> Seq<u8> {
    seq![99u8, 111u8, 117u8, 110u8, 116u8, 100u8, 111u8, 119u8, 110u8]
}

/// The bytes of the line "event: countdown\n".
pub open spec fn event_line() -> Seq<u8> {
    seq![101u8, 118u8, 101u8, 110u8, 116u8, 58u8, 32u8] + event_name() + seq![10u8]
}

/// The event name "countdown" as bytes.
pub fn name_bytes() -> (r: Vec<u8>)
    ensures
        r@ == event_name(),
{
    let mut out: Vec<u8> = Vec::new();
    out.push(99);
    out.push(111);
    out.push(117);
    out.push(110);
    out.push(116);
    out.push(100);
    out.push(111);
    out.push(119);
    out.push(110);
    proof {
        assert(out@ =~= event_name());
    }
    out
}

/// The bytes of the prefix "id: ".
pub open spec fn id_prefix() -> Seq<u8> {
    seq![105u8, 100u8, 58u8, 32u8]
}

/// The bytes of the prefix "data: ".
pub open spec fn data_prefix() -> Seq<u8> {
    seq![100u8, 97u8, 116u8, 97u8, 58u8, 32u8]
}

/// The full SSE frame for the countdown value `v`: an `event:` line,
/// an `id:` line and a `data:` line carrying the decimal digits of
/// `v`, closed by a blank line.
pub open spec fn frame_bytes(v: nat) -> Seq<u8> {
    event_line() + id_prefix() + dec_bytes(v) + seq![10u8] + data_prefix() + dec_bytes(v) + seq![
        10u8,
        10u8,
    ]
}

impl Event {
    /// Builds the event for the countdown value `value`.
    pub fn new(value: u32) -> (e: Event)
        ensures
            e.value == value,
    {
        Event { value }
    }

    /// The decimal digits of the value, used as both `id` and `data`.
    pub fn id_bytes(&self) -> (r: Vec<u8>)
        ensures
            r@ == dec_bytes(self.value as nat),
    {
        u32_to_dec(self.value)
    }

    /// Encodes the event as one SSE frame.
    pub fn encode(&self) -> (r: Vec<u8>)
        ensures
            r@ == frame_bytes(self.value as nat),
    {
        let mut out: Vec<u8> = Vec::new();
        out.push(101);
        out.push(118);
        out.push(101);
        out.push(110);
        out.push(116);
        out.push(58);
        out.push(32);
        out.push(99);
        out.push(111);
        out.push(117);
        out.push(110);
        out.push(116);
        out.push(100);
        out.push(111);
        out.push(119);
        out.push(110);
        out.push(10);
        out.push(105);
        out.push(100);
        out.push(58);
        out.push(32);
        let mut id = u32_to_dec(self.value);
        out.append(&mut id);
        out.push(10);
        out.push(100);
        out.push(97);
        out.push(116);
        out.push(97);
        out.push(58);
        out.push(32);
        let mut data = u32_to_dec(self.value);
        out.append(&mut data);
        out.push(10);
        out.push(10);
        proof {
            assert(out@ =~= frame_bytes(self.value as nat));
        }
        out
    }
}

} // verus!
