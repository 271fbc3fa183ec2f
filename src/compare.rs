//! Equality of token strings without an early exit on the first differing byte.
use vstd::prelude::*;
use vstd::utf8::encode_utf8_decode_utf8;

verus! {

/// The byte of `s` at `i`, or zero past its end.
pub open spec fn byte_or_zero(s: Seq<u8>, i: int) -> u8 {
    if 0 <= i < s.len() {
        s[i]
    } else {
        0
    }
}

proof fn lemma_xor_zero(x: u8, y: u8)
    ensures
        (x ^ y == 0) == (x == y),
{
    assert((x ^ y == 0) == (x == y)) by (bit_vector);
}

proof fn lemma_or_zero(x: u8, y: u8)
    ensures
        (x | y == 0) == (x == 0 && y == 0),
{
    assert((x | y == 0) == (x == 0 && y == 0)) by (bit_vector);
}

/// Compares two strings byte by byte. Every byte of `a` is visited whatever
/// the contents, so the time taken does not depend on where the strings first
/// differ.
pub fn constant_time_eq(a: &str, b: &str) -> (r: bool)
    ensures
        r == (a@ == b@),
{
    let ab = a.as_bytes();
    let bb = b.as_bytes();
    let la: usize = ab.len();
    let lb: usize = bb.len();
    let mut acc: u8 = if la == lb {
        0
    } else {
        1
    };
    let mut i: usize = 0;
    while i < la
        invariant
            la == ab@.len(),
            lb == bb@.len(),
            i <= la,
            (acc == 0) == (la == lb && forall|j: int| 0 <= j < i ==> ab@[j] == byte_or_zero(bb@, j)),
        decreases la - i,
    {
        let y: u8 = if i < lb {
            bb[i]
        } else {
            0
        };
        let d: u8 = ab[i] ^ y;
        proof {
            lemma_xor_zero(ab@[i as int], y);
            lemma_or_zero(acc, d);
            if acc | d == 0 {
                assert forall|j: int| 0 <= j < i + 1 implies ab@[j] == byte_or_zero(bb@, j) by {
                    if j < i {
                    }
                }
            }
        }
        acc = acc | d;
        i = i + 1;
    }
    let r: bool = acc == 0;
    proof {
        if r {
            assert(ab@ =~= bb@);
            encode_utf8_decode_utf8(a@);
            encode_utf8_decode_utf8(b@);
        }
    }
    r
}

} // verus!
