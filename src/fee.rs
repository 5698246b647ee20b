use vstd::prelude::*;
use vstd::arithmetic::div_mod::{lemma_fundamental_div_mod, lemma_fundamental_div_mod_converse_div};

verus! {

/// Basis points in one whole: a fee of this many basis points takes everything.
pub const FEE_SCALE: u16 = 10000;

/// The payout left after a fee of `fee_bps` basis points is held back from `amount`,
/// rounded toward zero.
pub open spec fn net_of_fee(amount: int, fee_bps: int) -> int {
    amount * (FEE_SCALE as int - fee_bps) / (FEE_SCALE as int)
}

/// The net-of-fee payout `amount * (10000 - fee_bps) / 10000`.
///
/// The product is never formed: the amount is split into whole ten-thousandths and a
/// remainder, so every `u128` amount is accepted.
pub fn compute_net(amount: u128, fee_bps: u16) -> (net: u128)
    requires
        fee_bps <= FEE_SCALE,
    ensures
        net == net_of_fee(amount as int, fee_bps as int),
{
    let keep: u128 = (FEE_SCALE - fee_bps) as u128;
    let whole: u128 = amount / 10000;
    let rem: u128 = amount % 10000;
    proof {
        let a = amount as int;
        let k = keep as int;
        let q = whole as int;
        let r = rem as int;
        lemma_fundamental_div_mod(a, 10000);
        lemma_fundamental_div_mod(r * k, 10000);
        assert(q * k + r <= a) by (nonlinear_arith)
            requires 0 <= k <= 10000, a == 10000 * q + r, 0 <= r, 0 <= q;
        assert(r * k < 100000000) by (nonlinear_arith)
            requires 0 <= k <= 10000, 0 <= r < 10000;
        assert(a * k == (q * k + (r * k) / 10000) * 10000 + (r * k) % 10000) by (nonlinear_arith)
            requires
                a == 10000 * q + r,
                r * k == 10000 * ((r * k) / 10000) + (r * k) % 10000;
        lemma_fundamental_div_mod_converse_div(a * k, 10000, q * k + (r * k) / 10000, (r * k) % 10000);
        assert((r * k) / 10000 <= r) by (nonlinear_arith)
            requires 0 <= k <= 10000, 0 <= r, r * k == 10000 * ((r * k) / 10000) + (r * k) % 10000, 0 <= (r * k) % 10000;
    }
    whole * keep + (rem * keep) / 10000
}

/// The payout never goes below zero nor above the amount, for every fee from nothing
/// to the whole. It is a function of the amount and the fee alone: `compute_net`
/// returns exactly `net_of_fee`.
pub proof fn lemma_net_within_amount(amount: int, fee_bps: int)
    requires
        0 <= amount,
        0 <= fee_bps <= FEE_SCALE,
    ensures
        0 <= net_of_fee(amount, fee_bps) <= amount,
{
    let k = FEE_SCALE as int - fee_bps;
    assert(0 <= amount * k <= amount * 10000) by (nonlinear_arith)
        requires 0 <= k <= 10000, 0 <= amount;
    assert(amount * k / 10000 <= amount * 10000 / 10000) by (nonlinear_arith)
        requires 0 <= amount * k <= amount * 10000;
    assert(amount * 10000 / 10000 == amount) by (nonlinear_arith);
    assert(0 <= amount * k / 10000) by (nonlinear_arith)
        requires 0 <= amount * k;
}

} // verus!
