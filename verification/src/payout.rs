//! The ordered fee/bounty/payout split of a settled raffle's revenue.
//!
//! The protocol fee is a basis-point share of the total, rounded down; the
//! bounty is capped at what remains after the fee; the payee receives the
//! rest. No amount is created or destroyed: the three parts always sum to
//! the total exactly.

use vstd::prelude::*;
use vstd::arithmetic::div_mod::{
    lemma_div_multiples_vanish_fancy, lemma_div_pos_is_pos, lemma_fundamental_div_mod,
    lemma_mod_bound,
};

use crate::error::RaffleError;
use crate::types::{Coin, CoinModel, opt_coin_view};

verus! {

/// Basis points in a whole: the fee denominator.
pub const BPS_DENOMINATOR: u128 = 10_000;

/// How a settled raffle's total revenue is divided.
#[derive(Clone, Copy, Debug, PartialEq, Eq, Structural)]
pub struct PayoutSplit {
    /// Protocol fee, paid to the admin.
    pub fee: u128,
    /// Bounty, paid to whoever executed the settlement.
    pub bounty_paid: u128,
    /// Remainder, paid to the raffle's payee.
    pub payout: u128,
}

/// The protocol fee owed on a total: the basis-point share, rounded down.
pub open spec fn spec_fee(total: u128, fee_bps: u16) -> int {
    (total as int) * (fee_bps as int) / (BPS_DENOMINATOR as int)
}

/// The bounty owed out of what remains after the fee: the configured amount,
/// capped at the remainder, and only when the bounty's denomination matches
/// the raffle's and both the amount and the remainder are nonzero.
pub open spec fn spec_bounty_paid(
    remaining: int,
    bounty: Option<CoinModel>,
    denom: Seq<char>,
) -> int {
    match bounty {
        Some(b) => if b.denom == denom && b.amount > 0 {
            if b.amount as int <= remaining {
                b.amount as int
            } else {
                remaining
            }
        } else {
            0
        },
        None => 0,
    }
}

/// The full split of a total: the fee, then the capped bounty, then the
/// payee's remainder. Fails when the fee exceeds the representable range,
/// or when it exceeds the total itself (a fee rate above the whole).
pub open spec fn split_spec(
    total: u128,
    fee_bps: u16,
    bounty: Option<CoinModel>,
    denom: Seq<char>,
) -> Result<PayoutSplit, RaffleError> {
    let fee = spec_fee(total, fee_bps);
    if fee > u128::MAX as int {
        Err(RaffleError::Overflow)
    } else if fee > total as int {
        Err(RaffleError::FeeExceedsTotal)
    } else {
        let bp = spec_bounty_paid(total as int - fee, bounty, denom);
        Ok(
            PayoutSplit {
                fee: fee as u128,
                bounty_paid: bp as u128,
                payout: (total as int - fee - bp) as u128,
            },
        )
    }
}

/// The fee share splits over the quotient and remainder of the total by the
/// denominator: this is what lets the fee be computed without widening past
/// 128 bits.
proof fn lemma_fee_decomposition(total: u128, b: u128)
    ensures
        (total as int) * (b as int) / (BPS_DENOMINATOR as int) == (total as int
            / (BPS_DENOMINATOR as int)) * (b as int) + ((total as int % (BPS_DENOMINATOR as int))
            * (b as int)) / (BPS_DENOMINATOR as int),
{
    let d = BPS_DENOMINATOR as int;
    let t = total as int;
    let bb = b as int;
    let q = t / d;
    let r = t % d;
    lemma_fundamental_div_mod(t, d);
    lemma_mod_bound(t, d);
    assert(t * bb == d * (q * bb) + r * bb) by (nonlinear_arith)
        requires
            t == d * q + r,
    ;
    let s = (r * bb) / d;
    let u = (r * bb) % d;
    lemma_fundamental_div_mod(r * bb, d);
    lemma_mod_bound(r * bb, d);
    assert(r * bb >= 0) by (nonlinear_arith)
        requires
            r >= 0 && bb >= 0,
    ;
    assert(t * bb == d * (q * bb + s) + u);
    lemma_div_multiples_vanish_fancy(q * bb + s, u, d);
}

/// Compute the split of `total` under the given fee rate and bounty
/// configuration. Returns exactly what [`split_spec`] states; on success the
/// three parts sum to `total` with nothing lost or created.
pub fn compute_split(total: u128, fee_bps: u16, bounty: &Option<Coin>, denom: &String) -> (r:
    Result<PayoutSplit, RaffleError>)
    ensures
        r == split_spec(total, fee_bps, opt_coin_view(*bounty), denom@),
        match r {
            Ok(p) => p.fee + p.bounty_paid + p.payout == total,
            Err(_) => true,
        },
{
    let q = total / (BPS_DENOMINATOR as u128);
    let rem = total % (BPS_DENOMINATOR as u128);
    let b = fee_bps as u128;
    proof {
        lemma_fee_decomposition(total, b);
    }
    let qb = match q.checked_mul(b) {
        Some(v) => v,
        None => {
            proof {
                assert((rem as int) * (b as int) >= 0) by (nonlinear_arith)
                    requires
                        rem >= 0 && b >= 0,
                ;
                lemma_div_pos_is_pos((rem as int) * (b as int), BPS_DENOMINATOR as int);
            }
            return Err(RaffleError::Overflow);
        },
    };
    proof {
        lemma_mod_bound(total as int, BPS_DENOMINATOR as int);
        assert((rem as int) * (b as int) < 0x100000000) by (nonlinear_arith)
            requires
                0 <= rem < 10000 && 0 <= b < 0x10000,
        ;
    }
    let rb = rem * b;
    let s = rb / (BPS_DENOMINATOR as u128);
    let fee = match qb.checked_add(s) {
        Some(v) => v,
        None => {
            return Err(RaffleError::Overflow);
        },
    };
    if fee > total {
        return Err(RaffleError::FeeExceedsTotal);
    }
    let remaining = total - fee;
    let bounty_paid: u128 = match bounty {
        Some(bc) => {
            if bc.denom.eq(denom) && bc.amount > 0 {
                if bc.amount <= remaining {
                    bc.amount
                } else {
                    remaining
                }
            } else {
                0
            }
        },
        None => 0,
    };
    let payout = remaining - bounty_paid;
    Ok(PayoutSplit { fee, bounty_paid, payout })
}

} // verus!
