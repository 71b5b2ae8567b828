use vstd::prelude::*;
use vstd::arithmetic::div_mod::{
    lemma_add_mod_noop, lemma_fundamental_div_mod_converse, lemma_mul_mod_noop_left, lemma_small_mod,
};

verus! {

/// Number of distinct values of a `u128`: the modulus of wrapping arithmetic.
pub open spec fn word_range() -> int {
    u128::MAX as int + 1
}

/// The unsigned number that the bytes `s` encode, least significant byte first.
pub open spec fn le_value(s: Seq<u8>) -> nat
    decreases s.len(),
{
    if s.len() == 0 {
        0
    } else {
        s[0] as nat + 256 * le_value(s.drop_first())
    }
}

/// Sum of the little-endian values of the consecutive 16-byte chunks of `d`.
pub open spec fn chunk_sum(d: Seq<u8>) -> nat
    decreases d.len(),
{
    if d.len() < 16 {
        0
    } else {
        chunk_sum(d.subrange(0, d.len() - 16)) + le_value(d.subrange(d.len() - 16, d.len() as int))
    }
}

/// The roll outcome in `1..=100` that a digest determines: the chunk sum, reduced
/// modulo 2^128 as a wrapping `u128` accumulator would, then modulo 100, plus one.
pub open spec fn outcome_of_digest(d: Seq<u8>) -> int {
    (chunk_sum(d) as int % word_range()) % 100 + 1
}

proof fn lemma_wrapping_add_mod(x: u128, y: u128)
    ensures
        x.wrapping_add(y) as int == (x as int + y as int) % word_range(),
{
    let t = x as int + y as int;
    if t > u128::MAX {
        lemma_fundamental_div_mod_converse(t, word_range(), 1, t - word_range());
    } else {
        lemma_fundamental_div_mod_converse(t, word_range(), 0, t);
    }
}

/// The 16 bytes of `d` from `start` on, read as a little-endian `u128`.
fn chunk_value(d: &[u8; 32], start: usize) -> (r: u128)
    requires
        start + 16 <= 32,
    ensures
        r as int == le_value(d@.subrange(start as int, start + 16)) as int % word_range(),
{
    let mut acc: u128 = 0;
    let mut i: usize = 16;
    assert(d@.subrange(start + 16, start + 16) =~= Seq::<u8>::empty());
    assert(le_value(Seq::<u8>::empty()) == 0);
    proof {
        lemma_small_mod(0, word_range() as nat);
    }
    while i > 0
        invariant
            i <= 16,
            start + 16 <= 32,
            acc as int == le_value(d@.subrange(start + i, start + 16)) as int % word_range(),
        decreases i,
    {
        i = i - 1;
        let b: u8 = d[start + i];
        let ghost tail = d@.subrange(start + i + 1, start + 16);
        let ghost whole = d@.subrange(start + i, start + 16);
        assert(whole.drop_first() =~= tail);
        assert(le_value(whole) == b as nat + 256 * le_value(tail));
        let m = acc.wrapping_mul(256);
        proof {
            lemma_mul_mod_noop_left(le_value(tail) as int, 256, word_range());
            assert(m as int == (le_value(tail) as int * 256) % word_range());
            lemma_wrapping_add_mod(m, b as u128);
            lemma_add_mod_noop(le_value(tail) as int * 256, b as int, word_range());
            assert((b as int) % word_range() == b as int);
        }
        acc = m.wrapping_add(b as u128);
    }
    acc
}

/// Derives the outcome in `1..=100` from a 32-byte digest: its two 16-byte chunks
/// are read as little-endian `u128`s and summed with wrapping addition; the sum is
/// reduced modulo 100, plus one.
pub fn outcome_from_digest(digest: &[u8; 32]) -> (r: u8)
    ensures
        r as int == outcome_of_digest(digest@),
        1 <= r <= 100,
{
    let mut acc: u128 = 0;
    let mut j: usize = 0;
    assert(digest@.subrange(0, 0) =~= Seq::<u8>::empty());
    assert(chunk_sum(Seq::<u8>::empty()) == 0);
    proof {
        lemma_small_mod(0, word_range() as nat);
    }
    while j < 2
        invariant
            j <= 2,
            acc as int == chunk_sum(digest@.subrange(0, 16 * j as int)) as int % word_range(),
        decreases 2 - j,
    {
        let c = chunk_value(digest, 16 * j);
        let ghost pre = digest@.subrange(0, 16 * j as int);
        let ghost next = digest@.subrange(0, 16 * (j + 1) as int);
        assert(next.subrange(0, next.len() - 16) =~= pre);
        assert(next.subrange(next.len() - 16, next.len() as int)
            =~= digest@.subrange(16 * j as int, 16 * j + 16));
        proof {
            lemma_wrapping_add_mod(acc, c);
            lemma_add_mod_noop(chunk_sum(pre) as int,
                le_value(digest@.subrange(16 * j as int, 16 * j + 16)) as int, word_range());
        }
        acc = acc.wrapping_add(c);
        j = j + 1;
    }
    assert(digest@.subrange(0, 32) =~= digest@);
    ((acc % 100) + 1) as u8
}

} // verus!
