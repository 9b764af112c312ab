//! Percentage split of an amount among three payees.

use crate::pubkey::Pubkey;
use vstd::prelude::*;

verus! {

/// The part of `amount` that a payee with `share` percent receives,
/// rounded down.
pub open spec fn share_of(amount: nat, share: nat) -> nat {
    amount * share / 100
}

/// What is left of `amount` once the first two payees have their parts.
pub open spec fn remainder_of(amount: nat, share_a: nat, share_b: nat) -> int {
    amount - share_of(amount, share_a) - share_of(amount, share_b)
}

/// The two rounded-down parts never exceed the whole while the two
/// percentages stay within one hundred.
pub proof fn lemma_shares_fit(amount: nat, share_a: nat, share_b: nat)
    requires
        share_a + share_b <= 100,
    ensures
        share_of(amount, share_a) <= amount,
        share_of(amount, share_b) <= amount,
        share_of(amount, share_a) + share_of(amount, share_b) <= amount,
        remainder_of(amount, share_a, share_b) >= 0,
{
    assert(amount * share_a + amount * share_b == amount * (share_a + share_b))
        by (nonlinear_arith);
    assert(amount * (share_a + share_b) <= amount * 100) by (nonlinear_arith)
        requires
            share_a + share_b <= 100,
    ;
    assert(amount * share_a >= 0 && amount * share_b >= 0) by (nonlinear_arith);
    let x = amount * share_a;
    let y = amount * share_b;
    assert(x / 100 + y / 100 <= (x + y) / 100);
    assert((amount * 100) / 100 == amount);
}

/// Splits `amount` three ways. The first payee receives `share_a` percent
/// and the second `share_b` percent, each rounded down; the third receives
/// whatever is left, so that the three parts always add up to `amount`.
pub fn split(amount: u64, share_a: u8, share_b: u8) -> (parts: (u64, u64, u64))
    requires
        share_a + share_b <= 100,
    ensures
        parts.0 == share_of(amount as nat, share_a as nat),
        parts.1 == share_of(amount as nat, share_b as nat),
        parts.2 == remainder_of(amount as nat, share_a as nat, share_b as nat),
        parts.0 + parts.1 + parts.2 == amount,
{
    proof {
        lemma_shares_fit(amount as nat, share_a as nat, share_b as nat);
        assert(amount * share_a <= u64::MAX * 100) by (nonlinear_arith)
            requires
                amount <= u64::MAX,
                share_a <= 100,
        ;
        assert(amount * share_b <= u64::MAX * 100) by (nonlinear_arith)
            requires
                amount <= u64::MAX,
                share_b <= 100,
        ;
    }
    let wide: u128 = amount as u128;
    let first: u64 = (wide * (share_a as u128) / 100) as u64;
    let second: u64 = (wide * (share_b as u128) / 100) as u64;
    let third: u64 = amount - first - second;
    (first, second, third)
}

/// The audit entry of one split: who the beneficiary was, the amount that
/// was split, and what each payee received. It is written once.
#[derive(Clone, Copy, Debug, PartialEq, Eq)]
pub struct DistributionRecord {
    pub distribution_id: Pubkey,
    pub creator: Pubkey,
    pub total_amount: u64,
    pub creator_amount: u64,
    pub platform_amount: u64,
    pub treasury_amount: u64,
    pub timestamp: i64,
}

impl DistributionRecord {
    /// The three parts add up to the total.
    pub open spec fn wf(self) -> bool {
        self.creator_amount + self.platform_amount + self.treasury_amount == self.total_amount
    }
}

/// The audit entry of splitting `amount` by `share_a` and `share_b` percent
/// for the beneficiary `creator` at `now`.
pub open spec fn record_of_split(
    distribution_id: Pubkey,
    creator: Pubkey,
    amount: u64,
    share_a: u8,
    share_b: u8,
    now: i64,
) -> DistributionRecord {
    DistributionRecord {
        distribution_id,
        creator,
        total_amount: amount,
        creator_amount: share_of(amount as nat, share_a as nat) as u64,
        platform_amount: share_of(amount as nat, share_b as nat) as u64,
        treasury_amount: remainder_of(amount as nat, share_a as nat, share_b as nat) as u64,
        timestamp: now,
    }
}

/// The audit entry of a split is well-formed: nothing of the amount is
/// lost and nothing is added.
pub proof fn lemma_record_of_split_wf(
    distribution_id: Pubkey,
    creator: Pubkey,
    amount: u64,
    share_a: u8,
    share_b: u8,
    now: i64,
)
    requires
        share_a + share_b <= 100,
    ensures
        record_of_split(distribution_id, creator, amount, share_a, share_b, now).wf(),
{
    lemma_shares_fit(amount as nat, share_a as nat, share_b as nat);
}

} // verus!
