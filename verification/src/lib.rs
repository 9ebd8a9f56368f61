//! Server-sent-event countdown streams: a per-connection countdown
//! generator, decimal formatting and parsing for path parameters and
//! event ids, SSE event framing, and a timer-driven broadcast countdown
//! fanned out over a `tokio` broadcast channel.

pub mod broadcast;
pub mod countdown;
pub mod decimal;
pub mod event;
pub mod timer;

use vstd::prelude::*;

verus! {

/// The greeting prefix "Hello " as bytes.
pub open spec fn hello_prefix() -> Seq<u8> {
    seq![72u8, 101u8, 108u8, 108u8, 111u8, 32u8]
}

/// The greeting for `name`: "Hello " followed by the name and "!".
pub open spec fn greeting_bytes(name: Seq<u8>) -> Seq<u8> {
    hello_prefix() + name + seq![33u8]
}

/// Builds the plain-text greeting body for a caller-supplied name.
pub fn greet(name: &[u8]) -> (r: Vec<u8>)
    ensures
        r@ == greeting_bytes(name@),
{
    let mut out: Vec<u8> = Vec::new();
    out.push(72);
    out.push(101);
    out.push(108);
    out.push(108);
    out.push(111);
    out.push(32);
    let mut i: usize = 0;
    while i < name.len()
        invariant
            i <= name.len(),
            out@ == hello_prefix() + name@.subrange(0, i as int),
        decreases name.len() - i,
    {
        out.push(name[i]);
        proof {
            assert(out@ == hello_prefix() + name@.subrange(0, i + 1));
        }
        i = i + 1;
    }
    proof {
        assert(name@.subrange(0, name@.len() as int) == name@);
    }
    out.push(33);
    proof {
        assert(out@ == greeting_bytes(name@));
    }
    out
}

} // verus!
