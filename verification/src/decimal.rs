//! Decimal formatting and parsing over ASCII bytes: the countdown
//! values travel as decimal strings in SSE `id:` and `data:` fields,
//! and numeric path segments are validated as digit strings.

use vstd::prelude::*;

verus! {

/// The decimal digit string of `n`, most significant digit first.
pub open spec fn dec_bytes(n: nat) -> Seq<u8>
    decreases n,
{
    if n < 10 {
        seq![(48 + n) as u8]
    } else {
        dec_bytes(n / 10).push((48 + n % 10) as u8)
    }
}

/// Whether `b` is an ASCII decimal digit.
pub open spec fn is_dec_digit(b: u8) -> bool {
    48 <= b <= 57
}

/// Whether every byte of `s` is an ASCII decimal digit.
pub open spec fn all_digits(s: Seq<u8>) -> bool {
    forall|i: int| 0 <= i < s.len() ==> is_dec_digit(#[trigger] s[i])
}

/// The numeric value of the digit string `s`.
pub open spec fn dec_value(s: Seq<u8>) -> nat
    decreases s.len(),
{
    if s.len() == 0 {
        0
    } else {
        (dec_value(s.drop_last()) * 10 + (s.last() - 48)) as nat
    }
}

/// Appends the decimal digits of `n` to `out`.
fn push_dec(n: u32, out: &mut Vec<u8>)
    ensures
        final(out)@ == old(out)@ + dec_bytes(n as nat),
    decreases n,
{
    if n >= 10 {
        push_dec(n / 10, out);
    }
    let d: u8 = (n % 10) as u8;
    out.push(48 + d);
    proof {
        if n >= 10 {
            assert(out@ == old(out)@ + dec_bytes(n as nat / 10) + seq![(48 + n as nat % 10) as u8]);
            assert(out@ == old(out)@ + dec_bytes(n as nat));
        } else {
            assert(out@ == old(out)@ + dec_bytes(n as nat));
        }
    }
}

/// Formats `n` as its decimal digit string.
pub fn u32_to_dec(n: u32) -> (r: Vec<u8>)
    ensures
        r@ == dec_bytes(n as nat),
{
    let mut out: Vec<u8> = Vec::new();
    push_dec(n, &mut out);
    out
}

/// The value of a digit string grows (weakly) as digits are appended.
proof fn lemma_dec_value_prefix_le(s: Seq<u8>, i: int, j: int)
    requires
        0 <= i <= j <= s.len(),
        all_digits(s),
    ensures
        dec_value(s.subrange(0, i)) <= dec_value(s.subrange(0, j)),
    decreases j - i,
{
    if i < j {
        lemma_dec_value_prefix_le(s, i, j - 1);
        let p = s.subrange(0, j);
        assert(p.drop_last() == s.subrange(0, j - 1));
        assert(is_dec_digit(s[j - 1]));
        assert(dec_value(p) == dec_value(s.subrange(0, j - 1)) * 10 + (s[j - 1] - 48));
    }
}

/// Parses an all-digit byte string as a `u32`.
///
/// Returns the value exactly when the input is non-empty, consists of
/// decimal digits only, and denotes a value that fits in a `u32`;
/// every other input is rejected.
pub fn parse_u32(s: &[u8]) -> (r: Option<u32>)
    ensures
        r is Some <==> s@.len() > 0 && all_digits(s@) && dec_value(s@) <= u32::MAX,
        r matches Some(v) ==> v as nat == dec_value(s@),
{
    if s.len() == 0 {
        return None;
    }
    let mut acc: u64 = 0;
    let mut i: usize = 0;
    while i < s.len()
        invariant
            0 < s@.len(),
            i <= s.len(),
            all_digits(s@.subrange(0, i as int)),
            acc as nat == dec_value(s@.subrange(0, i as int)),
            acc <= u32::MAX,
        decreases s.len() - i,
    {
        let b = s[i];
        if b < 48 || b > 57 {
            proof {
                assert(!is_dec_digit(s@[i as int]));
            }
            return None;
        }
        let d: u64 = (b - 48) as u64;
        let next: u64 = acc * 10 + d;
        proof {
            assert(s@.subrange(0, i + 1).drop_last() == s@.subrange(0, i as int));
            assert(s@.subrange(0, i + 1).last() == s@[i as int]);
            assert(next as nat == dec_value(s@.subrange(0, i + 1)));
        }
        if next > 0xffff_ffff {
            proof {
                assert(all_digits(s@) ==> dec_value(s@) > u32::MAX) by {
                    if all_digits(s@) {
                        lemma_dec_value_prefix_le(s@, i + 1, s@.len() as int);
                        assert(s@.subrange(0, s@.len() as int) == s@);
                    }
                }
            }
            return None;
        }
        acc = next;
        i = i + 1;
    }
    proof {
        assert(s@.subrange(0, s@.len() as int) == s@);
    }
    Some(acc as u32)
}

/// Round trip: formatting a value and parsing the digits back is the
/// identity, and a formatted value is always a non-empty digit string.
pub proof fn lemma_dec_roundtrip(n: nat)
    ensures
        dec_bytes(n).len() >= 1,
        all_digits(dec_bytes(n)),
        dec_value(dec_bytes(n)) == n,
    decreases n,
{
    if n < 10 {
        let s = dec_bytes(n);
        assert(s.drop_last() =~= Seq::<u8>::empty());
        assert(s.last() == (48 + n) as u8);
        assert((48 + n) as u8 == 48 + n);
        assert(dec_value(s) == dec_value(Seq::<u8>::empty()) * 10 + (s.last() - 48));
        assert(dec_value(s) == n);
    } else {
        lemma_dec_roundtrip(n / 10);
        let s = dec_bytes(n);
        assert(s.drop_last() == dec_bytes(n / 10));
        assert(s.last() == (48 + n % 10) as u8);
        assert(dec_value(s) == (n / 10) * 10 + n % 10);
    }
}

} // verus!
