use vstd::prelude::*;

use crate::error::DiceError;
use vstd::arithmetic::div_mod::{lemma_div_is_ordered, lemma_div_is_ordered_by_denominator};

verus! {

/// The player wins when the outcome is strictly above the chosen roll.
pub open spec fn wins(outcome: int, roll: int) -> bool {
    outcome > roll
}

/// The payout on a win: the wager times 10000, divided by the roll, then by 100,
/// each division rounding down.
pub open spec fn payout_value(amount: u64, roll: u8) -> int
    recommends
        roll > 0,
{
    (amount as int * 10000) / (roll as int) / 100
}

/// What `payout` returns: `Overflow` where the division by the roll is undefined
/// or the result exceeds a `u64`, else the payout.
pub open spec fn payout_result(amount: u64, roll: u8) -> Result<u64, DiceError> {
    if roll == 0 || payout_value(amount, roll) > u64::MAX {
        Err(DiceError::Overflow)
    } else {
        Ok(payout_value(amount, roll) as u64)
    }
}

/// Computes the payout of a winning bet in `u128` arithmetic, checking every step.
pub fn payout(amount: u64, roll: u8) -> (r: Result<u64, DiceError>)
    ensures
        r == payout_result(amount, roll),
{
    let scaled = match (amount as u128).checked_mul(10000) {
        Some(v) => v,
        None => return Err(DiceError::Overflow),
    };
    let per_roll = match scaled.checked_div(roll as u128) {
        Some(v) => v,
        None => return Err(DiceError::Overflow),
    };
    let value = match per_roll.checked_div(100) {
        Some(v) => v,
        None => return Err(DiceError::Overflow),
    };
    if value > u64::MAX as u128 {
        Err(DiceError::Overflow)
    } else {
        Ok(value as u64)
    }
}

/// What settling a bet of `amount` on `roll` pays for a given outcome: nothing on
/// a loss, the payout (or its failure) on a win.
pub open spec fn settlement_of(outcome: int, amount: u64, roll: u8) -> Result<Option<u64>, DiceError> {
    if wins(outcome, roll as int) {
        match payout_result(amount, roll) {
            Ok(p) => Ok(Some(p)),
            Err(e) => Err(e),
        }
    } else {
        Ok(None)
    }
}

/// Decides the settlement of a bet for a drawn outcome: `Some(payout)` on a win,
/// `None` on a loss.
pub fn settle_outcome(outcome: u8, amount: u64, roll: u8) -> (r: Result<Option<u64>, DiceError>)
    ensures
        r == settlement_of(outcome as int, amount, roll),
{
    if outcome > roll {
        match payout(amount, roll) {
            Ok(p) => Ok(Some(p)),
            Err(e) => Err(e),
        }
    } else {
        Ok(None)
    }
}

/// The payout falls as the roll rises: a lower threshold, less likely to be beaten,
/// pays at least as much.
pub proof fn lemma_payout_monotonic(amount: u64, r1: u8, r2: u8)
    requires
        1 <= r1 <= r2,
    ensures
        payout_value(amount, r2) <= payout_value(amount, r1),
{
    lemma_div_is_ordered_by_denominator(amount as int * 10000, r1 as int, r2 as int);
    lemma_div_is_ordered((amount as int * 10000) / (r2 as int), (amount as int * 10000) / (r1 as int), 100);
}

/// For every roll in `1..=99` the payout lies between the wager (a roll of 99 pays
/// just over it) and 100 times the wager, which a roll of 1 pays exactly.
pub proof fn lemma_payout_bounds(amount: u64, roll: u8)
    requires
        1 <= roll <= 99,
    ensures
        amount <= payout_value(amount, roll) <= 100 * amount,
        payout_value(amount, 1) == 100 * amount,
{
    let a = amount as int;
    lemma_payout_monotonic(amount, 1, roll);
    lemma_payout_monotonic(amount, roll, 99);
    assert((a * 10000) / 1 == a * 10000);
    assert((a * 10000) / 100 == a * 100) by (nonlinear_arith);
    assert(a * 101 * 99 <= a * 10000) by (nonlinear_arith)
        requires a >= 0;
    assert((a * 101 * 99) / 99 == a * 101) by (nonlinear_arith);
    lemma_div_is_ordered(a * 101 * 99, a * 10000, 99);
    assert((a * 101) / 100 >= a) by (nonlinear_arith)
        requires a >= 0;
    lemma_div_is_ordered(a * 101, (a * 10000) / 99, 100);
}

/// Winning needs an outcome strictly above the roll: an outcome equal to the roll,
/// or an outcome of 1, settles as a loss with nothing paid, and 100 beats a roll
/// of 99.
pub proof fn lemma_win_boundary(amount: u64, roll: u8)
    requires
        roll >= 1,
    ensures
        settlement_of(roll as int, amount, roll) == Ok::<Option<u64>, DiceError>(None),
        settlement_of(1, amount, roll) == Ok::<Option<u64>, DiceError>(None),
        wins(100, 99),
{
}

} // verus!
