use vstd::prelude::*;
use vstd::arithmetic::div_mod::{lemma_mod_breakdown, lemma_small_mod};

use crate::outcome::le_value;

verus! {

/// The terms of a wager, fixed when it was placed.
#[derive(Debug, Clone, Copy)]
pub struct Bet {
    /// The player's public key.
    pub player: [u8; 32],
    /// Identifies the bet among the bets of one vault.
    pub seed: u128,
    /// The slot in which the bet was placed.
    pub slot: u64,
    /// The wager.
    pub amount: u64,
    /// The chosen threshold in `1..=99`: the player wins above it.
    pub roll: u8,
    /// The bump of the bet account's address derivation.
    pub bump: u8,
}

/// `256^n`.
pub open spec fn pow256(n: nat) -> nat
    decreases n,
{
    if n == 0 {
        1
    } else {
        256 * pow256((n - 1) as nat)
    }
}

/// The `n` low bytes of `v`, least significant first.
pub open spec fn le_bytes(v: nat, n: nat) -> Seq<u8>
    decreases n,
{
    if n == 0 {
        Seq::empty()
    } else {
        seq![(v % 256) as u8] + le_bytes(v / 256, (n - 1) as nat)
    }
}

/// The canonical encoding of a bet, which the house signs: the player's key,
/// then seed, slot and amount in little-endian order, then roll and bump.
pub open spec fn bet_message(b: Bet) -> Seq<u8> {
    b.player@ + le_bytes(b.seed as nat, 16) + le_bytes(b.slot as nat, 8) + le_bytes(b.amount as nat, 8)
        + seq![b.roll, b.bump]
}

/// Appends the `n` low bytes of `v` to `out`, least significant first.
fn push_le(out: &mut Vec<u8>, v: u128, n: usize)
    ensures
        final(out)@ == old(out)@ + le_bytes(v as nat, n as nat),
{
    let mut x: u128 = v;
    let mut i: usize = 0;
    while i < n
        invariant
            i <= n,
            out@ + le_bytes(x as nat, (n - i) as nat) == old(out)@ + le_bytes(v as nat, n as nat),
        decreases n - i,
    {
        let ghost before = out@;
        let ghost k = (n - i) as nat;
        assert(le_bytes(x as nat, k) == seq![(x % 256) as u8] + le_bytes((x / 256) as nat, (k - 1) as nat));
        out.push((x % 256) as u8);
        assert(out@ + le_bytes((x / 256) as nat, (k - 1) as nat)
            =~= before + le_bytes(x as nat, k));
        x = x / 256;
        i = i + 1;
    }
    assert(le_bytes(x as nat, 0) =~= Seq::<u8>::empty());
    assert(out@ =~= out@ + le_bytes(x as nat, 0));
}

impl Bet {
    /// The canonical encoding of the bet, as the house signed it.
    pub fn to_slice(&self) -> (r: Vec<u8>)
        ensures
            r@ == bet_message(*self),
    {
        let mut out: Vec<u8> = Vec::new();
        let mut i: usize = 0;
        while i < 32
            invariant
                i <= 32,
                out@ == self.player@.subrange(0, i as int),
            decreases 32 - i,
        {
            out.push(self.player[i]);
            i = i + 1;
            assert(out@ =~= self.player@.subrange(0, i as int));
        }
        assert(self.player@.subrange(0, 32) =~= self.player@);
        push_le(&mut out, self.seed, 16);
        push_le(&mut out, self.slot as u128, 8);
        push_le(&mut out, self.amount as u128, 8);
        out.push(self.roll);
        out.push(self.bump);
        assert(out@ =~= bet_message(*self));
        out
    }
}

proof fn lemma_le_bytes_len(v: nat, n: nat)
    ensures
        le_bytes(v, n).len() == n,
    decreases n,
{
    if n > 0 {
        lemma_le_bytes_len(v / 256, (n - 1) as nat);
    }
}

/// Reading back `n` encoded bytes gives `v` modulo `256^n`.
proof fn lemma_le_round_trip(v: nat, n: nat)
    ensures
        le_value(le_bytes(v, n)) == v % pow256(n),
    decreases n,
{
    if n == 0 {
        assert(le_bytes(v, 0) =~= Seq::<u8>::empty());
    } else {
        let s = le_bytes(v, n);
        lemma_le_round_trip(v / 256, (n - 1) as nat);
        assert(s.drop_first() =~= le_bytes(v / 256, (n - 1) as nat));
        lemma_pow256_positive((n - 1) as nat);
        lemma_mod_breakdown(v as int, 256, pow256((n - 1) as nat) as int);
    }
}

proof fn lemma_pow256_positive(n: nat)
    ensures
        pow256(n) > 0,
    decreases n,
{
    if n > 0 {
        lemma_pow256_positive((n - 1) as nat);
    }
}

/// A value below `256^n` is recovered from its `n`-byte encoding.
proof fn lemma_le_bytes_injective(a: nat, b: nat, n: nat)
    requires
        a < pow256(n),
        b < pow256(n),
        le_bytes(a, n) == le_bytes(b, n),
    ensures
        a == b,
{
    lemma_le_round_trip(a, n);
    lemma_le_round_trip(b, n);
    lemma_small_mod(a, pow256(n));
    lemma_small_mod(b, pow256(n));
}

/// The canonical encoding determines every field of a bet: two bets that differ
/// in any field have different encodings, so a signature over one never matches
/// the other.
pub proof fn lemma_bet_message_injective(b1: Bet, b2: Bet)
    requires
        bet_message(b1) == bet_message(b2),
    ensures
        b1 == b2,
{
    let m1 = bet_message(b1);
    let m2 = bet_message(b2);
    lemma_le_bytes_len(b1.seed as nat, 16);
    lemma_le_bytes_len(b2.seed as nat, 16);
    lemma_le_bytes_len(b1.slot as nat, 8);
    lemma_le_bytes_len(b2.slot as nat, 8);
    lemma_le_bytes_len(b1.amount as nat, 8);
    lemma_le_bytes_len(b2.amount as nat, 8);
    assert(m1.subrange(0, 32) =~= b1.player@);
    assert(m2.subrange(0, 32) =~= b2.player@);
    assert(b1.player@ =~= b2.player@);
    assert(m1.subrange(32, 48) =~= le_bytes(b1.seed as nat, 16));
    assert(m2.subrange(32, 48) =~= le_bytes(b2.seed as nat, 16));
    assert(m1.subrange(48, 56) =~= le_bytes(b1.slot as nat, 8));
    assert(m2.subrange(48, 56) =~= le_bytes(b2.slot as nat, 8));
    assert(m1.subrange(56, 64) =~= le_bytes(b1.amount as nat, 8));
    assert(m2.subrange(56, 64) =~= le_bytes(b2.amount as nat, 8));
    assert(m1[64] == b1.roll && m2[64] == b2.roll);
    assert(m1[65] == b1.bump && m2[65] == b2.bump);
    assert(pow256(8) == 0x1_0000_0000_0000_0000) by {
        reveal_with_fuel(pow256, 9);
    }
    assert(pow256(16) == 0x1_0000_0000_0000_0000_0000_0000_0000_0000) by {
        reveal_with_fuel(pow256, 17);
    }
    lemma_le_bytes_injective(b1.seed as nat, b2.seed as nat, 16);
    lemma_le_bytes_injective(b1.slot as nat, b2.slot as nat, 8);
    lemma_le_bytes_injective(b1.amount as nat, b2.amount as nat, 8);
    assert(b1.player == b2.player);
}

} // verus!
