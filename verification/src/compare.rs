//! Comparison of secrets without an early exit.

use vstd::prelude::*;
use vstd::utf8::{encode_utf8, encode_utf8_decode_utf8};

verus! {

/// Folding one more pair of bytes into the gathered value keeps it zero
/// exactly when it was zero and the two bytes are the same.
proof fn lemma_fold_step(acc: u8, x: u8, y: u8)
    ensures
        (acc | (x ^ y)) == 0 <==> (acc == 0 && x == y),
{
    assert((acc | (x ^ y)) == 0 <==> (acc == 0 && x == y)) by (bit_vector);
}

/// Two strings are equal exactly when their bytes are.
pub proof fn lemma_equal_by_bytes(a: Seq<char>, b: Seq<char>)
    ensures
        encode_utf8(a) == encode_utf8(b) <==> a == b,
{
    if encode_utf8(a) == encode_utf8(b) {
        encode_utf8_decode_utf8(a);
        encode_utf8_decode_utf8(b);
    }
}

/// Tells whether two strings are equal, without an early exit.
///
/// Every pair of bytes that both strings have is looked at, wherever the
/// first difference stands: the differences are gathered with XOR and OR,
/// together with whether the lengths differ, and only the gathered value is
/// tested. Strings of different length are never equal.
pub fn constant_time_compare(a: &str, b: &str) -> (same: bool)
    ensures
        same == (a@ == b@),
{
    let x = a.as_bytes();
    let y = b.as_bytes();
    let same_length = x.len() == y.len();
    let n: usize = if x.len() < y.len() { x.len() } else { y.len() };
    let mut acc: u8 = if same_length { 0 } else { 1 };
    let mut i: usize = 0;
    while i < n
        invariant
            i <= n,
            n <= x@.len(),
            n <= y@.len(),
            acc == 0 <==> (same_length && forall|j: int| 0 <= j < i ==> x@[j] == y@[j]),
        decreases n - i,
    {
        proof {
            lemma_fold_step(acc, x@[i as int], y@[i as int]);
        }
        acc = acc | (x[i] ^ y[i]);
        i = i + 1;
    }
    proof {
        lemma_equal_by_bytes(a@, b@);
        if acc == 0 {
            assert(x@ =~= y@);
        }
    }
    acc == 0
}

} // verus!
