//! System-wide laws, each proved once and for all inputs.

use vstd::prelude::*;
use vstd::arithmetic::div_mod::{
    lemma_div_is_ordered, lemma_div_multiples_vanish_fancy, lemma_div_pos_is_pos,
};
use vstd::arithmetic::mul::lemma_mul_inequality;

use crate::lifecycle::winner_index_spec;
use crate::payout::{spec_fee, split_spec};
use crate::state::{StateModel, has_raffle, record_of, state_wf};
use crate::types::CoinModel;

verus! {

/// In every well-formed state, each raffle's ticket indices are exactly
/// `0 .. total_sold`: index `i` holds a ticket precisely when it lies below
/// the sold total, with no gaps and no duplicates.
pub proof fn lemma_ticket_contiguity(s: StateModel, raffle_id: u64)
    requires
        state_wf(s),
        has_raffle(s, raffle_id),
    ensures
        record_of(s, raffle_id).tickets.len() == record_of(s, raffle_id).raffle.total_sold,
{
    assert(crate::state::record_wf(s.raffles[raffle_id - 1]));
}

/// Winner selection is a pure function of the randomness bytes and the sold
/// total: equal inputs give the identical index, and the index always lies
/// below the sold total.
pub proof fn lemma_winner_selection_deterministic(
    rnd1: Seq<u8>,
    rnd2: Seq<u8>,
    sold1: u64,
    sold2: u64,
)
    requires
        rnd1 == rnd2,
        sold1 == sold2,
        sold1 > 0,
    ensures
        winner_index_spec(rnd1, sold1) == winner_index_spec(rnd2, sold2),
        winner_index_spec(rnd1, sold1) < sold1,
{
}

/// The split conserves the total exactly: for every fee rate up to the whole
/// (ten thousand basis points) and every bounty configuration, the split
/// succeeds and its fee, bounty and payout sum to the total, with nothing
/// lost or created.
pub proof fn lemma_split_conserves_total(
    total: u128,
    fee_bps: u16,
    bounty: Option<CoinModel>,
    denom: Seq<char>,
)
    requires
        fee_bps <= 10000,
    ensures
        split_spec(total, fee_bps, bounty, denom) matches Ok(p) && p.fee + p.bounty_paid + p.payout
            == total,
{
    let t = total as int;
    let b = fee_bps as int;
    assert(t * b >= 0) by (nonlinear_arith)
        requires
            t >= 0 && b >= 0,
    ;
    lemma_div_pos_is_pos(t * b, 10000);
    lemma_mul_inequality(b, 10000, t);
    assert(b * t == t * b) by (nonlinear_arith);
    assert(10000 * t == t * 10000) by (nonlinear_arith);
    lemma_div_is_ordered(t * b, 10000 * t, 10000);
    lemma_div_multiples_vanish_fancy(t, 0, 10000);
    assert(spec_fee(total, fee_bps) <= t);
}

} // verus!
