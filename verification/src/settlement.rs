//! Settlement arithmetic: the 90/10 split of a wager's pooled stake.
//!
//! The pooled total is twice the stake. The winner receives 90% and the
//! commission sink 10%, both by truncating integer division on the same
//! total; when the total is not a multiple of ten, one unit is lost to
//! rounding and paid to nobody. The loss is surfaced by [`rounding_loss`]
//! and pinned down by [`lemma_split_conservation`].

use vstd::arithmetic::div_mod::{
    lemma_basic_div, lemma_div_denominator, lemma_div_multiples_vanish,
    lemma_div_multiples_vanish_fancy, lemma_fundamental_div_mod, lemma_fundamental_div_mod_converse,
    lemma_mod_division_less_than_divisor,
};
use vstd::prelude::*;

verus! {

/// The pooled value of a wager: both participants stake the same amount.
pub open spec fn pooled_total(amount: u64) -> int {
    2 * amount
}

/// The winner's share: 90% of the pooled total, truncated.
pub open spec fn winner_share(amount: u64) -> int {
    pooled_total(amount) * 90 / 100
}

/// The commission sink's share: 10% of the pooled total, truncated.
pub open spec fn commission_share(amount: u64) -> int {
    pooled_total(amount) * 10 / 100
}

/// What the two truncating shares fail to cover of the pooled total.
pub open spec fn split_loss(amount: u64) -> int {
    pooled_total(amount) - winner_share(amount) - commission_share(amount)
}

/// The two payout amounts of one settlement.
#[derive(Clone, Copy, Debug, PartialEq, Eq, Structural)]
pub struct Split {
    pub winner_amount: u64,
    pub commission_amount: u64,
}

/// Computes the exact payout amounts for a wager of the given stake.
pub fn compute_split(amount: u64) -> (r: Split)
    requires
        2 * amount <= u64::MAX,
    ensures
        r.winner_amount == winner_share(amount),
        r.commission_amount == commission_share(amount),
{
    let total: u64 = amount * 2;
    let w128: u128 = (total as u128) * 90 / 100;
    let c128: u128 = (total as u128) * 10 / 100;
    proof {
        assert((total as int) * 90 / 100 <= total as int && (total as int) * 10 / 100
            <= total as int) by (nonlinear_arith)
            requires
                0 <= total <= u64::MAX,
        ;
    }
    Split { winner_amount: w128 as u64, commission_amount: c128 as u64 }
}

/// The split conserves the pooled total up to a rounding loss of at most one
/// unit: the two truncating shares sum to the total exactly when the total is
/// a multiple of ten, and fall one unit short otherwise. The lost unit is
/// paid to nobody.
pub proof fn lemma_split_conservation(amount: u64)
    requires
        2 * amount <= u64::MAX,
    ensures
        winner_share(amount) + commission_share(amount) + split_loss(amount) == pooled_total(
            amount,
        ),
        split_loss(amount) == if pooled_total(amount) % 10 == 0 {
            0int
        } else {
            1int
        },
        0 <= winner_share(amount),
        0 <= commission_share(amount),
        winner_share(amount) + commission_share(amount) <= pooled_total(amount),
{
    let t = pooled_total(amount);
    let q = t / 10;
    let r = t % 10;
    lemma_fundamental_div_mod(t, 10);
    lemma_mod_division_less_than_divisor(t, 10);
    // winner_share(amount) == (9 * t) / 10
    lemma_div_denominator(t * 90, 10, 10);
    assert(t * 90 == 10 * (9 * t));
    lemma_div_multiples_vanish(9 * t, 10);
    assert(winner_share(amount) == 9 * t / 10);
    // commission_share(amount) == t / 10 == q
    lemma_div_denominator(t * 10, 10, 10);
    assert(t * 10 == 10 * t);
    lemma_div_multiples_vanish(t, 10);
    assert(commission_share(amount) == q);
    // (9 * t) / 10 == 9 * q + (9 * r) / 10
    let w9 = 9 * r / 10;
    let rem = 9 * r % 10;
    lemma_fundamental_div_mod(9 * r, 10);
    lemma_mod_division_less_than_divisor(9 * r, 10);
    assert(9 * t == 10 * (9 * q + w9) + rem);
    lemma_div_multiples_vanish_fancy(9 * q + w9, rem, 10);
    assert(9 * t / 10 == 9 * q + w9);
    // (9 * r) / 10 drops exactly one unit of r unless r is zero
    if r == 0 {
        lemma_basic_div(9 * r, 10);
        assert(w9 == 0);
    } else {
        lemma_fundamental_div_mod_converse(9 * r, 10, r - 1, 10 - r);
        assert(w9 == r - 1);
    }
}

/// What the settlement of a wager with the given stake fails to pay out: the
/// pooled total minus both truncated shares. At most one unit, and zero
/// exactly when the pooled total is a multiple of ten.
pub fn rounding_loss(amount: u64) -> (r: u64)
    requires
        2 * amount <= u64::MAX,
    ensures
        r == split_loss(amount),
        r <= 1,
        r == 0 <==> pooled_total(amount) % 10 == 0,
{
    proof {
        lemma_split_conservation(amount);
    }
    let split = compute_split(amount);
    let total: u64 = amount * 2;
    total - split.winner_amount - split.commission_amount
}

} // verus!
