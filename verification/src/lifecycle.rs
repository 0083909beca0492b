//! The raffle lifecycle: initialize the system, create a raffle, cancel it,
//! and administer the configuration.
//!
//! Every operation is atomic: it either applies its whole effect or reports
//! an error and leaves the state exactly as it was.

use vstd::prelude::*;
use vstd::string::StringSliceAdditionalSpecFns;

use crate::error::RaffleError;
use crate::msg::{BuyTicketsCw20Msg, CreateRaffleNftMsg, ExecuteMsg, InstantiateMsg};
use crate::payment::{must_pay, payment_spec};
use crate::payout::{PayoutSplit, compute_split, split_spec};
use crate::randomness::{
    chars_bytes, hex_decode, hex_decoded, seed_from_randomness, seed_of, verify_beacon_spec,
    verify_drand_signature,
};
use crate::state::{
    BuyerCount, Config, ConfigModel, ContractState, Raffle, RaffleModel, RaffleRecord,
    RaffleStatus, RecordModel, StateModel, counts_unique, has_raffle, record_of, record_wf,
};
use crate::types::{
    Coin, CoinModel, TransferMsg, coins_view, msgs_view, opt_coin_view, opt_string_view,
    seconds_of, timestamp_seconds,
};

verus! {

/// Initialize the system: no raffles yet, ids start at one, and the given
/// configuration with no round length configured. The admin defaults to the
/// caller.
pub fn instantiate(sender: String, msg: InstantiateMsg) -> (s: ContractState)
    ensures
        s.wf(),
        s@.next_id == 1,
        s@.raffles.len() == 0,
        s@.config == (ConfigModel {
            admin: match msg.admin {
                Some(a) => a@,
                None => sender@,
            },
            protocol_fee_bps: msg.protocol_fee_bps,
            bounty_amount: opt_coin_view(msg.bounty_amount),
            drand_pubkey: opt_string_view(msg.drand_pubkey),
            drand_round_seconds: None,
        }),
{
    let admin = match msg.admin {
        Some(a) => a,
        None => sender,
    };
    ContractState {
        config: Config {
            admin,
            protocol_fee_bps: msg.protocol_fee_bps,
            bounty_amount: msg.bounty_amount,
            drand_pubkey: msg.drand_pubkey,
            drand_round_seconds: None,
        },
        next_id: 1,
        raffles: Vec::new(),
    }
}

/// Why a creation request is rejected: the end time must lie strictly in the
/// future, and a given start time must lie strictly before the end time.
pub open spec fn create_error_spec(now: u64, start_time: Option<u64>, end_time: u64) -> Option<
    RaffleError,
> {
    if end_time <= now {
        Some(RaffleError::EndTimeNotFuture)
    } else if start_time matches Some(st) && st >= end_time {
        Some(RaffleError::StartNotBeforeEnd)
    } else {
        None
    }
}

/// The record a creation request adds: the next id, the given parameters, no
/// tickets sold, active, no winner; the payee defaults to the creator.
pub open spec fn new_record_spec(
    s: StateModel,
    creator: Seq<char>,
    nft_contract: Seq<char>,
    token_id: Seq<char>,
    price: CoinModel,
    max_tickets: u64,
    start_time: Option<u64>,
    end_time: u64,
    revenue_address: Option<Seq<char>>,
    payment_cw20: Option<Seq<char>>,
) -> RecordModel {
    RecordModel {
        raffle: RaffleModel {
            id: s.next_id,
            creator: creator,
            nft_contract: nft_contract,
            token_id: token_id,
            price: price,
            max_tickets: max_tickets,
            total_sold: 0,
            start_time: start_time,
            end_time: end_time,
            revenue_address: match revenue_address {
                Some(a) => a,
                None => creator,
            },
            payment_cw20: payment_cw20,
            status: RaffleStatus::Active,
            winner: None,
        },
        tickets: Seq::empty(),
        buyer_counts: Seq::empty(),
        used_rounds: Seq::empty(),
    }
}

/// The state after a creation: the record appended, the id counter advanced.
pub open spec fn apply_create(s: StateModel, rec: RecordModel) -> StateModel {
    StateModel { config: s.config, next_id: (s.next_id + 1) as u64, raffles: s.raffles.push(rec) }
}

/// Open a new raffle. On success returns the assigned id, stores the new
/// active record, and advances the id counter; on failure changes nothing.
pub fn create_raffle(
    state: &mut ContractState,
    now: u64,
    sender: String,
    nft_contract: String,
    token_id: String,
    price: Coin,
    max_tickets: u64,
    start_time: Option<u64>,
    end_time: u64,
    revenue_address: Option<String>,
    payment_cw20: Option<String>,
) -> (r: Result<u64, RaffleError>)
    requires
        old(state).wf(),
        old(state).next_id < u64::MAX,
    ensures
        final(state).wf(),
        match r {
            Ok(id) => {
                &&& create_error_spec(now, start_time, end_time) is None
                &&& id == old(state)@.next_id
                &&& final(state)@ == apply_create(
                    old(state)@,
                    new_record_spec(
                        old(state)@,
                        sender@,
                        nft_contract@,
                        token_id@,
                        price@,
                        max_tickets,
                        start_time,
                        end_time,
                        opt_string_view(revenue_address),
                        opt_string_view(payment_cw20),
                    ),
                )
            },
            Err(e) => {
                &&& create_error_spec(now, start_time, end_time) == Some(e)
                &&& final(state)@ == old(state)@
            },
        },
{
    if end_time <= now {
        return Err(RaffleError::EndTimeNotFuture);
    }
    if let Some(st) = start_time {
        if st >= end_time {
            return Err(RaffleError::StartNotBeforeEnd);
        }
    }
    let id = state.next_id;
    let revenue = match revenue_address {
        Some(a) => a,
        None => sender.clone(),
    };
    let record = RaffleRecord {
        raffle: Raffle {
            id,
            creator: sender,
            nft_contract,
            token_id,
            price,
            max_tickets,
            total_sold: 0,
            start_time,
            end_time,
            revenue_address: revenue,
            payment_cw20,
            status: RaffleStatus::Active,
            winner: None,
        },
        tickets: Vec::new(),
        buyer_counts: Vec::new(),
        used_rounds: Vec::new(),
    };
    state.raffles.push(record);
    state.next_id = id + 1;
    proof {
        let applied = apply_create(
            old(state)@,
            new_record_spec(
                old(state)@,
                sender@,
                nft_contract@,
                token_id@,
                price@,
                max_tickets,
                start_time,
                end_time,
                opt_string_view(revenue_address),
                opt_string_view(payment_cw20),
            ),
        );
        assert(state@.raffles =~~= applied.raffles);
        assert(state@ =~~= applied);
        assert forall|i: int| 0 <= i < state@.raffles.len() implies crate::state::record_wf(
            #[trigger] state@.raffles[i],
        ) by {
            if i < old(state)@.raffles.len() {
                assert(state@.raffles[i] == old(state)@.raffles[i]);
            }
        }
    }
    Ok(id)
}

/// Why a cancellation is rejected: only the creator may cancel, only while
/// the raffle is still active, never once it is sold out, and never once a
/// configured start time has passed.
pub open spec fn cancel_error_spec(
    s: StateModel,
    now: u64,
    sender: Seq<char>,
    raffle_id: u64,
) -> Option<RaffleError> {
    if !has_raffle(s, raffle_id) {
        Some(RaffleError::RaffleNotFound)
    } else {
        let r = record_of(s, raffle_id).raffle;
        if sender != r.creator {
            Some(RaffleError::Unauthorized)
        } else if !(r.status is Active) {
            Some(RaffleError::RaffleNotActive)
        } else if r.total_sold >= r.max_tickets {
            Some(RaffleError::CannotCancelSoldOut)
        } else if r.start_time matches Some(st) && now >= st {
            Some(RaffleError::CannotCancelAfterStart)
        } else {
            None
        }
    }
}

/// The state after a cancellation: the one raffle's status becomes
/// cancelled; everything else is untouched.
pub open spec fn apply_cancel(s: StateModel, raffle_id: u64) -> StateModel {
    let rec = record_of(s, raffle_id);
    StateModel {
        raffles: s.raffles.update(
            raffle_id - 1,
            RecordModel {
                raffle: RaffleModel { status: RaffleStatus::Cancelled, ..rec.raffle },
                ..rec
            },
        ),
        ..s
    }
}

/// Cancel an active raffle before its sale opens. The status moves to the
/// terminal cancelled state; no funds move.
pub fn cancel_raffle(state: &mut ContractState, now: u64, sender: String, raffle_id: u64) -> (r:
    Result<(), RaffleError>)
    requires
        old(state).wf(),
    ensures
        final(state).wf(),
        match r {
            Ok(_) => {
                &&& cancel_error_spec(old(state)@, now, sender@, raffle_id) is None
                &&& final(state)@ == apply_cancel(old(state)@, raffle_id)
            },
            Err(e) => {
                &&& cancel_error_spec(old(state)@, now, sender@, raffle_id) == Some(e)
                &&& final(state)@ == old(state)@
            },
        },
{
    if raffle_id < 1 || raffle_id > state.raffles.len() as u64 {
        return Err(RaffleError::RaffleNotFound);
    }
    let idx: usize = (raffle_id - 1) as usize;
    if !sender.eq(&state.raffles[idx].raffle.creator) {
        return Err(RaffleError::Unauthorized);
    }
    match state.raffles[idx].raffle.status {
        RaffleStatus::Active => {},
        _ => {
            return Err(RaffleError::RaffleNotActive);
        },
    }
    if state.raffles[idx].raffle.total_sold >= state.raffles[idx].raffle.max_tickets {
        return Err(RaffleError::CannotCancelSoldOut);
    }
    if let Some(st) = state.raffles[idx].raffle.start_time {
        if now >= st {
            return Err(RaffleError::CannotCancelAfterStart);
        }
    }
    state.raffles[idx].raffle.status = RaffleStatus::Cancelled;
    proof {
        assert(state@.raffles =~~= apply_cancel(old(state)@, raffle_id).raffles);
        assert(state@ =~~= apply_cancel(old(state)@, raffle_id));
    }
    Ok(())
}

/// The configuration after an update: each given field replaces the old
/// value; absent fields are kept.
pub open spec fn apply_update_config(
    c: ConfigModel,
    fee_bps: Option<u16>,
    bounty: Option<CoinModel>,
    drand_pubkey: Option<Seq<char>>,
    drand_round_seconds: Option<u64>,
) -> ConfigModel {
    ConfigModel {
        admin: c.admin,
        protocol_fee_bps: match fee_bps {
            Some(v) => v,
            None => c.protocol_fee_bps,
        },
        bounty_amount: if bounty is Some {
            bounty
        } else {
            c.bounty_amount
        },
        drand_pubkey: if drand_pubkey is Some {
            drand_pubkey
        } else {
            c.drand_pubkey
        },
        drand_round_seconds: if drand_round_seconds is Some {
            drand_round_seconds
        } else {
            c.drand_round_seconds
        },
    }
}

/// Update the configuration. Only the admin may do so; each given field
/// replaces the stored one; raffles are untouched.
pub fn update_config(
    state: &mut ContractState,
    sender: String,
    fee_bps: Option<u16>,
    bounty: Option<Coin>,
    drand_pubkey: Option<String>,
    drand_round_seconds: Option<u64>,
) -> (r: Result<(), RaffleError>)
    requires
        old(state).wf(),
    ensures
        final(state).wf(),
        match r {
            Ok(_) => {
                &&& sender@ == old(state)@.config.admin
                &&& final(state)@ == (StateModel {
                    config: apply_update_config(
                        old(state)@.config,
                        fee_bps,
                        opt_coin_view(bounty),
                        opt_string_view(drand_pubkey),
                        drand_round_seconds,
                    ),
                    ..old(state)@
                })
            },
            Err(e) => {
                &&& e == RaffleError::Unauthorized
                &&& sender@ != old(state)@.config.admin
                &&& final(state)@ == old(state)@
            },
        },
{
    if !sender.eq(&state.config.admin) {
        return Err(RaffleError::Unauthorized);
    }
    if let Some(v) = fee_bps {
        state.config.protocol_fee_bps = v;
    }
    if bounty.is_some() {
        state.config.bounty_amount = bounty;
    }
    if drand_pubkey.is_some() {
        state.config.drand_pubkey = drand_pubkey;
    }
    if drand_round_seconds.is_some() {
        state.config.drand_round_seconds = drand_round_seconds;
    }
    proof {
        assert(state@ =~~= (StateModel {
            config: apply_update_config(
                old(state)@.config,
                fee_bps,
                opt_coin_view(bounty),
                opt_string_view(drand_pubkey),
                drand_round_seconds,
            ),
            ..old(state)@
        }));
    }
    Ok(())
}

/// The buyer-count table after a purchase: the buyer's entry grows by the
/// bought count, or a new entry is appended for a first-time buyer.
pub open spec fn counts_add(counts: Seq<(Seq<char>, u64)>, buyer: Seq<char>, add: u64) -> Seq<
    (Seq<char>, u64),
> {
    if exists|i: int| 0 <= i < counts.len() && counts[i].0 == buyer {
        let i = choose|i: int| 0 <= i < counts.len() && counts[i].0 == buyer;
        counts.update(i, (buyer, (counts[i].1 + add) as u64))
    } else {
        counts.push((buyer, add))
    }
}

/// One record after a purchase of `count` tickets by `buyer`: the ledger
/// grows by `count` entries owned by the buyer, the sold total and the
/// buyer's count grow by `count`, and nothing else changes.
pub open spec fn record_purchase_model(rec: RecordModel, buyer: Seq<char>, count: u64) -> RecordModel {
    RecordModel {
        raffle: RaffleModel {
            total_sold: (rec.raffle.total_sold + count) as u64,
            ..rec.raffle
        },
        tickets: rec.tickets + Seq::new(count as nat, |i: int| buyer),
        buyer_counts: counts_add(rec.buyer_counts, buyer, count),
        used_rounds: rec.used_rounds,
    }
}

/// Append `count` tickets owned by `buyer` to a record and update its
/// counters, preserving the record invariant.
fn record_apply_purchase(rec: &mut RaffleRecord, buyer: &String, count: u64)
    requires
        record_wf(old(rec)@),
        old(rec)@.raffle.total_sold + count <= old(rec)@.raffle.max_tickets,
    ensures
        final(rec)@ == record_purchase_model(old(rec)@, buyer@, count),
        record_wf(final(rec)@),
{
    let ghost orig = rec@;
    let sold = rec.raffle.total_sold;
    let mut i: u64 = 0;
    while i < count
        invariant
            i <= count,
            rec.raffle == old(rec).raffle,
            rec.buyer_counts == old(rec).buyer_counts,
            rec.used_rounds == old(rec).used_rounds,
            rec.tickets@ =~= old(rec).tickets@ + Seq::new(i as nat, |j: int| *buyer),
        decreases count - i,
    {
        rec.tickets.push(buyer.clone());
        i = i + 1;
    }
    proof {
        assert(rec@.tickets =~= orig.tickets + Seq::new(count as nat, |j: int| buyer@));
    }
    rec.raffle.total_sold = sold + count;
    let ghost target = record_purchase_model(orig, buyer@, count);
    let n = rec.buyer_counts.len();
    let mut k: usize = 0;
    while k < n
        invariant
            k <= n,
            n == rec.buyer_counts@.len(),
            orig == old(rec)@,
            record_wf(orig),
            orig.raffle.total_sold + count <= orig.raffle.max_tickets,
            target == record_purchase_model(orig, buyer@, count),
            rec.raffle@ == target.raffle,
            rec.buyer_counts == old(rec).buyer_counts,
            rec@.buyer_counts =~= orig.buyer_counts,
            rec@.used_rounds == orig.used_rounds,
            rec@.tickets =~= target.tickets,
            forall|j: int| 0 <= j < k ==> (#[trigger] rec@.buyer_counts[j]).0 != buyer@,
        decreases n - k,
    {
        proof {
            assert(orig.buyer_counts[k as int] == (rec.buyer_counts@[k as int].buyer@, rec.buyer_counts@[k as int].count));
            assert(orig.buyer_counts[k as int].1 <= orig.raffle.total_sold);
        }
        if rec.buyer_counts[k].buyer.eq(buyer) {
            let cur = rec.buyer_counts[k].count;
            rec.buyer_counts[k] = BuyerCount { buyer: buyer.clone(), count: cur + count };
            proof {
                let cs = orig.buyer_counts;
                assert(cs[k as int].0 == buyer@);
                assert(exists|i2: int| 0 <= i2 < cs.len() && cs[i2].0 == buyer@);
                let ci = choose|i2: int| 0 <= i2 < cs.len() && cs[i2].0 == buyer@;
                assert(ci == k as int) by {
                    if ci < k as int {
                        assert(cs[ci].0 != cs[k as int].0);
                    }
                    if ci > k as int {
                        assert(cs[k as int].0 != cs[ci].0);
                    }
                }
                assert(rec@.buyer_counts =~= cs.update(
                    ci,
                    (buyer@, (cs[ci].1 + count) as u64),
                ));
                assert(rec@ =~~= target);
                assert forall|j: int|
                    0 <= j < rec@.buyer_counts.len() implies (#[trigger] rec@.buyer_counts[j]).1
                    <= rec@.raffle.total_sold by {
                    if j != ci {
                        assert(rec@.buyer_counts[j] == cs[j]);
                        assert(cs[j].1 <= orig.raffle.total_sold);
                    }
                }
                assert(counts_unique(rec@.buyer_counts)) by {
                    assert forall|a: int, b: int|
                        0 <= a < b < rec@.buyer_counts.len() implies rec@.buyer_counts[a].0
                        != rec@.buyer_counts[b].0 by {
                        assert(rec@.buyer_counts[a].0 == cs[a].0);
                        assert(rec@.buyer_counts[b].0 == cs[b].0);
                    }
                }
            }
            return ;
        }
        k = k + 1;
    }
    rec.buyer_counts.push(BuyerCount { buyer: buyer.clone(), count: count });
    proof {
        let cs = orig.buyer_counts;
        assert(!(exists|i2: int| 0 <= i2 < cs.len() && cs[i2].0 == buyer@));
        assert(rec@.buyer_counts =~= cs.push((buyer@, count)));
        assert(rec@ =~~= target);
        assert forall|j: int|
            0 <= j < rec@.buyer_counts.len() implies (#[trigger] rec@.buyer_counts[j]).1
            <= rec@.raffle.total_sold by {
            if j < cs.len() {
                assert(rec@.buyer_counts[j] == cs[j]);
                assert(cs[j].1 <= orig.raffle.total_sold);
            }
        }
        assert(counts_unique(rec@.buyer_counts)) by {
            assert forall|a: int, b: int|
                0 <= a < b < rec@.buyer_counts.len() implies rec@.buyer_counts[a].0
                != rec@.buyer_counts[b].0 by {
                if b < cs.len() {
                    assert(rec@.buyer_counts[a].0 == cs[a].0);
                    assert(rec@.buyer_counts[b].0 == cs[b].0);
                } else {
                    assert(rec@.buyer_counts[a].0 == cs[a].0);
                }
            }
        }
    }
}

/// Why a purchase of `count` tickets is rejected, payment aside: the count
/// must be nonzero, the raffle must exist and be active, the sale window
/// must be open, and capacity must not be exceeded.
pub open spec fn buy_count_error(s: StateModel, now: u64, raffle_id: u64, count: u64) -> Option<
    RaffleError,
> {
    if count == 0 {
        Some(RaffleError::ZeroTicketCount)
    } else if !has_raffle(s, raffle_id) {
        Some(RaffleError::RaffleNotFound)
    } else {
        let r = record_of(s, raffle_id).raffle;
        if !(r.status is Active) {
            Some(RaffleError::RaffleNotActive)
        } else if r.start_time matches Some(st) && now < st {
            Some(RaffleError::SaleNotStarted)
        } else if now > r.end_time {
            Some(RaffleError::SaleEnded)
        } else if r.total_sold + count > r.max_tickets {
            Some(RaffleError::ExceedsMaxTickets)
        } else {
            None
        }
    }
}

/// The state after a purchase: the one record updated as
/// [`record_purchase_model`] says; everything else untouched.
pub open spec fn apply_buy(s: StateModel, raffle_id: u64, buyer: Seq<char>, count: u64) -> StateModel {
    StateModel {
        raffles: s.raffles.update(
            raffle_id - 1,
            record_purchase_model(record_of(s, raffle_id), buyer, count),
        ),
        ..s
    }
}

/// Record a purchase whose payment was already settled elsewhere (the token
/// purchase path): all checks of [`buy_count_error`], then the atomic ledger
/// update of [`apply_buy`].
pub fn buy_tickets_with_count(
    state: &mut ContractState,
    now: u64,
    buyer: String,
    raffle_id: u64,
    count: u64,
) -> (r: Result<(), RaffleError>)
    requires
        old(state).wf(),
    ensures
        final(state).wf(),
        match r {
            Ok(_) => {
                &&& buy_count_error(old(state)@, now, raffle_id, count) is None
                &&& final(state)@ == apply_buy(old(state)@, raffle_id, buyer@, count)
            },
            Err(e) => {
                &&& buy_count_error(old(state)@, now, raffle_id, count) == Some(e)
                &&& final(state)@ == old(state)@
            },
        },
{
    if count == 0 {
        return Err(RaffleError::ZeroTicketCount);
    }
    if raffle_id < 1 || raffle_id > state.raffles.len() as u64 {
        return Err(RaffleError::RaffleNotFound);
    }
    let idx: usize = (raffle_id - 1) as usize;
    match state.raffles[idx].raffle.status {
        RaffleStatus::Active => {},
        _ => {
            return Err(RaffleError::RaffleNotActive);
        },
    }
    if let Some(st) = state.raffles[idx].raffle.start_time {
        if now < st {
            return Err(RaffleError::SaleNotStarted);
        }
    }
    if now > state.raffles[idx].raffle.end_time {
        return Err(RaffleError::SaleEnded);
    }
    proof {
        assert(record_wf(old(state)@.raffles[idx as int]));
    }
    let sold = state.raffles[idx].raffle.total_sold;
    let maxt = state.raffles[idx].raffle.max_tickets;
    if count > maxt - sold {
        return Err(RaffleError::ExceedsMaxTickets);
    }
    record_apply_purchase(&mut state.raffles[idx], &buyer, count);
    proof {
        assert(state@.raffles =~~= apply_buy(old(state)@, raffle_id, buyer@, count).raffles);
        assert(state@ =~~= apply_buy(old(state)@, raffle_id, buyer@, count));
        assert forall|i: int| 0 <= i < state@.raffles.len() implies record_wf(
            #[trigger] state@.raffles[i],
        ) by {
            if i != idx as int {
                assert(state@.raffles[i] == old(state)@.raffles[i]);
            }
        }
    }
    Ok(())
}

/// Why a native purchase is rejected: the checks of [`buy_count_error`],
/// then the payment rule, then exact coverage of price times count.
pub open spec fn buy_error_spec(
    s: StateModel,
    now: u64,
    funds: Seq<CoinModel>,
    raffle_id: u64,
    count: u64,
) -> Option<RaffleError> {
    match buy_count_error(s, now, raffle_id, count) {
        Some(e) => Some(e),
        None => {
            let price = record_of(s, raffle_id).raffle.price;
            match payment_spec(funds, price.denom) {
                Err(e) => Some(e),
                Ok(paid) => if price.amount * count > u128::MAX as int {
                    Some(RaffleError::Overflow)
                } else if (paid as int) < price.amount * count {
                    Some(RaffleError::InsufficientPayment)
                } else {
                    None
                },
            }
        },
    }
}

/// Buy tickets with an attached native payment. The payment must be a single
/// coin of the raffle's denomination covering price times count (surplus is
/// accepted and kept); on success the ledger updates as [`apply_buy`] says.
pub fn buy_tickets(
    state: &mut ContractState,
    now: u64,
    sender: String,
    funds: &Vec<Coin>,
    raffle_id: u64,
    count: u64,
) -> (r: Result<(), RaffleError>)
    requires
        old(state).wf(),
    ensures
        final(state).wf(),
        match r {
            Ok(_) => {
                &&& buy_error_spec(old(state)@, now, coins_view(funds@), raffle_id, count) is None
                &&& final(state)@ == apply_buy(old(state)@, raffle_id, sender@, count)
            },
            Err(e) => {
                &&& buy_error_spec(old(state)@, now, coins_view(funds@), raffle_id, count) == Some(
                    e,
                )
                &&& final(state)@ == old(state)@
            },
        },
{
    if count == 0 {
        return Err(RaffleError::ZeroTicketCount);
    }
    if raffle_id < 1 || raffle_id > state.raffles.len() as u64 {
        return Err(RaffleError::RaffleNotFound);
    }
    let idx: usize = (raffle_id - 1) as usize;
    match state.raffles[idx].raffle.status {
        RaffleStatus::Active => {},
        _ => {
            return Err(RaffleError::RaffleNotActive);
        },
    }
    if let Some(st) = state.raffles[idx].raffle.start_time {
        if now < st {
            return Err(RaffleError::SaleNotStarted);
        }
    }
    if now > state.raffles[idx].raffle.end_time {
        return Err(RaffleError::SaleEnded);
    }
    proof {
        assert(record_wf(old(state)@.raffles[idx as int]));
    }
    let sold = state.raffles[idx].raffle.total_sold;
    let maxt = state.raffles[idx].raffle.max_tickets;
    if count > maxt - sold {
        return Err(RaffleError::ExceedsMaxTickets);
    }
    let paid = match must_pay(funds, &state.raffles[idx].raffle.price.denom) {
        Ok(p) => p,
        Err(e) => {
            return Err(e);
        },
    };
    let required = match state.raffles[idx].raffle.price.amount.checked_mul(count as u128) {
        Some(v) => v,
        None => {
            return Err(RaffleError::Overflow);
        },
    };
    if paid < required {
        return Err(RaffleError::InsufficientPayment);
    }
    record_apply_purchase(&mut state.raffles[idx], &sender, count);
    proof {
        assert(state@.raffles =~~= apply_buy(old(state)@, raffle_id, sender@, count).raffles);
        assert(state@ =~~= apply_buy(old(state)@, raffle_id, sender@, count));
        assert forall|i: int| 0 <= i < state@.raffles.len() implies record_wf(
            #[trigger] state@.raffles[i],
        ) by {
            if i != idx as int {
                assert(state@.raffles[i] == old(state)@.raffles[i]);
            }
        }
    }
    Ok(())
}

/// Everything a settlement reports back: the drawn winner, how the raffle
/// closed, the revenue, its split, and the ordered transfer instructions.
#[derive(Debug)]
pub struct EndSummary {
    /// The owner of the drawn ticket.
    pub winner: String,
    /// The drawn ticket index.
    pub winner_index: u64,
    /// Whether the raffle closed by sellout rather than by time.
    pub sold_out: bool,
    /// The collected revenue: price times tickets sold.
    pub total: u128,
    /// How the revenue divides between fee, bounty, and payee.
    pub split: PayoutSplit,
    /// The prize transfer followed by the nonzero fund transfers, in order.
    pub messages: Vec<TransferMsg>,
}

/// Why a settlement is rejected: the raffle must exist, be active, and be
/// closable (end time reached or sold out) with at least one ticket sold;
/// the round must postdate the close when a round length is configured, must
/// be fresh to this raffle, and the beacon triple must verify; finally the
/// revenue and its split must be computable.
pub open spec fn end_error_spec(
    s: StateModel,
    now: u64,
    raffle_id: u64,
    round: u64,
    rnd: Seq<u8>,
    sig: Seq<u8>,
) -> Option<RaffleError> {
    if !has_raffle(s, raffle_id) {
        Some(RaffleError::RaffleNotFound)
    } else {
        let rec = record_of(s, raffle_id);
        let r = rec.raffle;
        let cfg = s.config;
        if !(r.status is Active) {
            Some(RaffleError::RaffleNotActive)
        } else if !(now >= r.end_time || r.total_sold >= r.max_tickets) {
            Some(RaffleError::NotReadyToEnd)
        } else if r.total_sold == 0 {
            Some(RaffleError::NoTicketsSold)
        } else if cfg.drand_round_seconds matches Some(rs) && round <= seconds_of(r.end_time)
            / rs {
            Some(RaffleError::RoundBeforeClose)
        } else if rec.used_rounds.contains(round) {
            Some(RaffleError::RoundAlreadyUsed)
        } else if cfg.drand_pubkey is None || rnd.len() == 0 || sig.len() == 0 {
            Some(RaffleError::InvalidBeaconInput)
        } else {
            match verify_beacon_spec(
                seconds_of(now),
                chars_bytes(cfg.drand_pubkey.unwrap()),
                round,
                rnd,
                sig,
            ) {
                Err(e) => Some(e),
                Ok(valid) => if !valid {
                    Some(RaffleError::InvalidBeaconSignature)
                } else {
                    let total = r.price.amount * r.total_sold;
                    if total > u128::MAX as int {
                        Some(RaffleError::Overflow)
                    } else {
                        match split_spec(
                            total as u128,
                            cfg.protocol_fee_bps,
                            cfg.bounty_amount,
                            r.price.denom,
                        ) {
                            Err(e) => Some(e),
                            Ok(_) => None,
                        }
                    }
                },
            }
        }
    }
}

/// The winning ticket index: the seed drawn from the randomness bytes,
/// reduced modulo the number of tickets sold. A pure function of the two.
pub open spec fn winner_index_spec(rnd_bytes: Seq<u8>, total_sold: u64) -> u64
    recommends
        total_sold > 0,
{
    (seed_of(rnd_bytes) % total_sold) as u64
}

/// The state after a settlement: the raffle completed with its winner
/// recorded, and the consumed round remembered; everything else untouched.
pub open spec fn apply_end(
    s: StateModel,
    raffle_id: u64,
    round: u64,
    winner: Seq<char>,
) -> StateModel {
    let rec = record_of(s, raffle_id);
    StateModel {
        raffles: s.raffles.update(
            raffle_id - 1,
            RecordModel {
                raffle: RaffleModel {
                    status: RaffleStatus::Completed,
                    winner: Some(winner),
                    ..rec.raffle
                },
                used_rounds: rec.used_rounds.push(round),
                ..rec
            },
        ),
        ..s
    }
}

/// The transfer instructions a settlement emits, in order: the prize to the
/// winner, then the fee to the admin, the bounty to the executor, and the
/// payout to the payee, each only when nonzero.
pub open spec fn end_messages_spec(
    r: RaffleModel,
    admin: Seq<char>,
    executor: Seq<char>,
    winner: Seq<char>,
    split: PayoutSplit,
) -> Seq<crate::types::TransferModel> {
    let m0 = seq![
        crate::types::TransferModel::Prize {
            contract: r.nft_contract,
            token_id: r.token_id,
            recipient: winner,
        },
    ];
    let m1 = if split.fee > 0 {
        m0.push(
            crate::types::TransferModel::Funds {
                to: admin,
                denom: r.price.denom,
                amount: split.fee,
            },
        )
    } else {
        m0
    };
    let m2 = if split.bounty_paid > 0 {
        m1.push(
            crate::types::TransferModel::Funds {
                to: executor,
                denom: r.price.denom,
                amount: split.bounty_paid,
            },
        )
    } else {
        m1
    };
    if split.payout > 0 {
        m2.push(
            crate::types::TransferModel::Funds {
                to: r.revenue_address,
                denom: r.price.denom,
                amount: split.payout,
            },
        )
    } else {
        m2
    }
}

/// Whether a round was already consumed for this record.
fn rounds_contain(rounds: &Vec<u64>, round: u64) -> (b: bool)
    ensures
        b == rounds@.contains(round),
{
    let n = rounds.len();
    let mut i: usize = 0;
    while i < n
        invariant
            i <= n,
            n == rounds@.len(),
            forall|j: int| 0 <= j < i ==> rounds@[j] != round,
        decreases n - i,
    {
        if rounds[i] == round {
            return true;
        }
        i = i + 1;
    }
    false
}

/// Settle an active raffle with a validated beacon triple: draw the winner,
/// complete the raffle, consume the round, and emit the prize transfer and
/// the exact fee/bounty/payout split. Any failure leaves the state as it
/// was. Whoever calls this receives the bounty.
#[verifier::rlimit(60)]
pub fn end_raffle(
    state: &mut ContractState,
    now: u64,
    sender: String,
    raffle_id: u64,
    drand_round: u64,
    randomness: &str,
    signature: &str,
) -> (r: Result<EndSummary, RaffleError>)
    requires
        old(state).wf(),
        old(state).config.drand_round_seconds matches Some(rs) ==> rs > 0,
    ensures
        final(state).wf(),
        match r {
            Ok(summary) => {
                let rec = record_of(old(state)@, raffle_id);
                let rnd_bytes = hex_decoded(randomness.spec_bytes());
                &&& end_error_spec(
                    old(state)@,
                    now,
                    raffle_id,
                    drand_round,
                    randomness.spec_bytes(),
                    signature.spec_bytes(),
                ) is None
                &&& summary.winner_index == winner_index_spec(rnd_bytes, rec.raffle.total_sold)
                &&& summary.winner@ == rec.tickets[summary.winner_index as int]
                &&& summary.sold_out == (rec.raffle.total_sold >= rec.raffle.max_tickets)
                &&& summary.total == rec.raffle.price.amount * rec.raffle.total_sold
                &&& Ok::<PayoutSplit, RaffleError>(summary.split) == split_spec(
                    summary.total,
                    old(state)@.config.protocol_fee_bps,
                    old(state)@.config.bounty_amount,
                    rec.raffle.price.denom,
                )
                &&& summary.split.fee + summary.split.bounty_paid + summary.split.payout
                    == summary.total
                &&& msgs_view(summary.messages@) == end_messages_spec(
                    rec.raffle,
                    old(state)@.config.admin,
                    sender@,
                    summary.winner@,
                    summary.split,
                )
                &&& final(state)@ == apply_end(old(state)@, raffle_id, drand_round, summary.winner@)
            },
            Err(e) => {
                &&& end_error_spec(
                    old(state)@,
                    now,
                    raffle_id,
                    drand_round,
                    randomness.spec_bytes(),
                    signature.spec_bytes(),
                ) == Some(e)
                &&& final(state)@ == old(state)@
            },
        },
{
    if raffle_id < 1 || raffle_id > state.raffles.len() as u64 {
        return Err(RaffleError::RaffleNotFound);
    }
    let idx: usize = (raffle_id - 1) as usize;
    proof {
        assert(record_wf(old(state)@.raffles[idx as int]));
    }
    match state.raffles[idx].raffle.status {
        RaffleStatus::Active => {},
        _ => {
            return Err(RaffleError::RaffleNotActive);
        },
    }
    let time_end = now >= state.raffles[idx].raffle.end_time;
    let sold_out = state.raffles[idx].raffle.total_sold >= state.raffles[idx].raffle.max_tickets;
    if !(time_end || sold_out) {
        return Err(RaffleError::NotReadyToEnd);
    }
    let total_sold = state.raffles[idx].raffle.total_sold;
    if total_sold == 0 {
        return Err(RaffleError::NoTicketsSold);
    }
    if let Some(rs) = state.config.drand_round_seconds {
        let min_round = timestamp_seconds(state.raffles[idx].raffle.end_time) / rs;
        if drand_round <= min_round {
            return Err(RaffleError::RoundBeforeClose);
        }
    }
    if rounds_contain(&state.raffles[idx].used_rounds, drand_round) {
        return Err(RaffleError::RoundAlreadyUsed);
    }
    if randomness.as_bytes().len() == 0 || signature.as_bytes().len() == 0 {
        return Err(RaffleError::InvalidBeaconInput);
    }
    let valid = match &state.config.drand_pubkey {
        Some(pk) => {
            match verify_drand_signature(
                timestamp_seconds(now),
                pk.as_str(),
                drand_round,
                randomness,
                signature,
            ) {
                Ok(v) => v,
                Err(e) => {
                    return Err(e);
                },
            }
        },
        None => {
            return Err(RaffleError::InvalidBeaconInput);
        },
    };
    if !valid {
        return Err(RaffleError::InvalidBeaconSignature);
    }
    let rnd_bytes = match hex_decode(randomness) {
        Some(v) => v,
        None => {
            return Err(RaffleError::RandomnessBadHex);
        },
    };
    let seed = seed_from_randomness(&rnd_bytes);
    let winner_index = seed % total_sold;
    let tlen = state.raffles[idx].tickets.len();
    proof {
        assert(old(state)@.raffles[idx as int].tickets.len() == total_sold);
        assert(tlen == state.raffles@[idx as int].tickets@.len());
        assert(tlen as u64 == total_sold);
        assert(winner_index < total_sold);
    }
    let widx: usize = winner_index as usize;
    let winner = state.raffles[idx].tickets[widx].clone();
    proof {
        assert(old(state)@.raffles[idx as int].tickets[winner_index as int] == state.raffles@[idx as int].tickets@[winner_index as int]@);
        assert(winner@ == old(state)@.raffles[idx as int].tickets[winner_index as int]);
    }
    let total = match state.raffles[idx].raffle.price.amount.checked_mul(total_sold as u128) {
        Some(v) => v,
        None => {
            return Err(RaffleError::Overflow);
        },
    };
    let split = match compute_split(
        total,
        state.config.protocol_fee_bps,
        &state.config.bounty_amount,
        &state.raffles[idx].raffle.price.denom,
    ) {
        Ok(sp) => sp,
        Err(e) => {
            return Err(e);
        },
    };
    let denom = state.raffles[idx].raffle.price.denom.clone();
    state.raffles[idx].raffle.status = RaffleStatus::Completed;
    state.raffles[idx].raffle.winner = Some(winner.clone());
    state.raffles[idx].used_rounds.push(drand_round);
    let mut messages: Vec<TransferMsg> = Vec::new();
    messages.push(
        TransferMsg::Prize {
            contract: state.raffles[idx].raffle.nft_contract.clone(),
            token_id: state.raffles[idx].raffle.token_id.clone(),
            recipient: winner.clone(),
        },
    );
    if split.fee > 0 {
        messages.push(
            TransferMsg::Funds { to: state.config.admin.clone(), denom: denom.clone(), amount: split.fee },
        );
    }
    if split.bounty_paid > 0 {
        messages.push(
            TransferMsg::Funds { to: sender.clone(), denom: denom.clone(), amount: split.bounty_paid },
        );
    }
    if split.payout > 0 {
        messages.push(
            TransferMsg::Funds {
                to: state.raffles[idx].raffle.revenue_address.clone(),
                denom: denom.clone(),
                amount: split.payout,
            },
        );
    }
    proof {
        assert(state@.raffles =~~= apply_end(old(state)@, raffle_id, drand_round, winner@).raffles);
        assert(state@ =~~= apply_end(old(state)@, raffle_id, drand_round, winner@));
        assert forall|i: int| 0 <= i < state@.raffles.len() implies record_wf(
            #[trigger] state@.raffles[i],
        ) by {
            if i != idx as int {
                assert(state@.raffles[i] == old(state)@.raffles[i]);
            }
        }
        assert(msgs_view(messages@) =~~= end_messages_spec(
            record_of(old(state)@, raffle_id).raffle,
            old(state)@.config.admin,
            sender@,
            winner@,
            split,
        ));
    }
    Ok(
        EndSummary {
            winner,
            winner_index,
            sold_out,
            total,
            split,
            messages,
        },
    )
}

/// Fee withdrawal: a placeholder that performs no state change and always
/// succeeds, as fees are paid out at settlement.
pub fn withdraw_fees(state: &ContractState) -> (r: Result<(), RaffleError>)
    ensures
        r is Ok,
{
    let _ = state;
    Ok(())
}

/// A prize asset arrived: open a raffle for it on the depositor's behalf.
/// The calling asset contract becomes the raffle's prize reference.
pub fn receive_nft(
    state: &mut ContractState,
    now: u64,
    nft_contract: String,
    sender: String,
    token_id: String,
    msg: CreateRaffleNftMsg,
) -> (r: Result<u64, RaffleError>)
    requires
        old(state).wf(),
        old(state).next_id < u64::MAX,
    ensures
        final(state).wf(),
        match r {
            Ok(id) => {
                &&& create_error_spec(now, msg.start_time, msg.end_time) is None
                &&& id == old(state)@.next_id
                &&& final(state)@ == apply_create(
                    old(state)@,
                    new_record_spec(
                        old(state)@,
                        sender@,
                        nft_contract@,
                        token_id@,
                        msg.price@,
                        msg.max_tickets,
                        msg.start_time,
                        msg.end_time,
                        opt_string_view(msg.revenue_address),
                        opt_string_view(msg.payment_cw20),
                    ),
                )
            },
            Err(e) => {
                &&& create_error_spec(now, msg.start_time, msg.end_time) == Some(e)
                &&& final(state)@ == old(state)@
            },
        },
{
    create_raffle(
        state,
        now,
        sender,
        nft_contract,
        token_id,
        msg.price,
        msg.max_tickets,
        msg.start_time,
        msg.end_time,
        msg.revenue_address,
        msg.payment_cw20,
    )
}

/// How many tickets a token payment buys: the amount divided by the price.
pub open spec fn cw20_count_spec(price: u128, amount: u128) -> u64 {
    ((amount as int) / (price as int)) as u64
}

/// Why a token purchase is rejected: the raffle must exist and be paid in a
/// token, the paying token contract must be the configured one, the amount
/// must be a nonzero exact multiple of the price that fits the ticket range,
/// and the checks of [`buy_count_error`] must pass for the bought count.
pub open spec fn cw20_error_spec(
    s: StateModel,
    now: u64,
    token: Seq<char>,
    amount: u128,
    raffle_id: u64,
) -> Option<RaffleError> {
    if !has_raffle(s, raffle_id) {
        Some(RaffleError::RaffleNotFound)
    } else {
        let r = record_of(s, raffle_id).raffle;
        match r.payment_cw20 {
            None => Some(RaffleError::ExpectsNativePayment),
            Some(expected) => if expected != token {
                Some(RaffleError::WrongPaymentToken)
            } else if r.price.amount == 0 {
                Some(RaffleError::InvalidTokenAmount)
            } else if amount % r.price.amount != 0 {
                Some(RaffleError::InvalidTokenAmount)
            } else if amount / r.price.amount > u64::MAX as u128 {
                Some(RaffleError::InvalidTokenAmount)
            } else {
                buy_count_error(s, now, raffle_id, cw20_count_spec(r.price.amount, amount))
            },
        }
    }
}

/// A token payment arrived: buy as many tickets for the payer as the amount
/// covers, exactly. The paying token contract must be the raffle's
/// configured payment token.
pub fn receive_cw20(
    state: &mut ContractState,
    now: u64,
    token_contract: String,
    sender: String,
    amount: u128,
    msg: BuyTicketsCw20Msg,
) -> (r: Result<(), RaffleError>)
    requires
        old(state).wf(),
    ensures
        final(state).wf(),
        match r {
            Ok(_) => {
                &&& cw20_error_spec(old(state)@, now, token_contract@, amount, msg.raffle_id)
                    is None
                &&& final(state)@ == apply_buy(
                    old(state)@,
                    msg.raffle_id,
                    sender@,
                    cw20_count_spec(
                        record_of(old(state)@, msg.raffle_id).raffle.price.amount,
                        amount,
                    ),
                )
            },
            Err(e) => {
                &&& cw20_error_spec(old(state)@, now, token_contract@, amount, msg.raffle_id)
                    == Some(e)
                &&& final(state)@ == old(state)@
            },
        },
{
    let raffle_id = msg.raffle_id;
    if raffle_id < 1 || raffle_id > state.raffles.len() as u64 {
        return Err(RaffleError::RaffleNotFound);
    }
    let idx: usize = (raffle_id - 1) as usize;
    match &state.raffles[idx].raffle.payment_cw20 {
        None => {
            return Err(RaffleError::ExpectsNativePayment);
        },
        Some(expected) => {
            if !expected.eq(&token_contract) {
                return Err(RaffleError::WrongPaymentToken);
            }
        },
    }
    let price = state.raffles[idx].raffle.price.amount;
    if price == 0 {
        return Err(RaffleError::InvalidTokenAmount);
    }
    if amount % price != 0 {
        return Err(RaffleError::InvalidTokenAmount);
    }
    let count_wide = amount / price;
    if count_wide > u64::MAX as u128 {
        return Err(RaffleError::InvalidTokenAmount);
    }
    let count = count_wide as u64;
    buy_tickets_with_count(state, now, sender, raffle_id, count)
}

/// What a successful operation reports back.
pub enum ExecOutcome {
    /// A raffle was opened, with this id.
    Created { raffle_id: u64 },
    /// Tickets were recorded for the buyer.
    TicketsBought,
    /// The raffle settled; the summary carries the winner and transfers.
    Ended(EndSummary),
    /// The raffle was cancelled.
    Cancelled,
    /// The configuration was updated.
    ConfigUpdated,
    /// The fee-withdrawal placeholder ran.
    FeesWithdrawn,
}

/// Dispatch one mutating operation. Each variant behaves exactly as the
/// operation it names: see [`create_raffle`], [`buy_tickets`],
/// [`receive_nft`], [`receive_cw20`], [`end_raffle`], [`cancel_raffle`],
/// [`update_config`] and [`withdraw_fees`] for the full statements; their
/// error conditions and effects are restated here per variant.
pub fn execute(
    state: &mut ContractState,
    now: u64,
    sender: String,
    funds: &Vec<Coin>,
    msg: ExecuteMsg,
) -> (r: Result<ExecOutcome, RaffleError>)
    requires
        old(state).wf(),
        old(state).next_id < u64::MAX,
        old(state).config.drand_round_seconds matches Some(rs) ==> rs > 0,
    ensures
        final(state).wf(),
        r is Err ==> final(state)@ == old(state)@,
        match msg {
            ExecuteMsg::CreateRaffle {
                nft_contract,
                token_id,
                price,
                max_tickets,
                start_time,
                end_time,
                revenue_address,
                payment_cw20,
            } => match r {
                Ok(o) => {
                    &&& o == ExecOutcome::Created { raffle_id: old(state)@.next_id }
                    &&& create_error_spec(now, start_time, end_time) is None
                    &&& final(state)@ == apply_create(
                        old(state)@,
                        new_record_spec(
                            old(state)@,
                            sender@,
                            nft_contract@,
                            token_id@,
                            price@,
                            max_tickets,
                            start_time,
                            end_time,
                            opt_string_view(revenue_address),
                            opt_string_view(payment_cw20),
                        ),
                    )
                },
                Err(e) => create_error_spec(now, start_time, end_time) == Some(e),
            },
            ExecuteMsg::ReceiveNft { sender: depositor, token_id, create: hook } => match r {
                Ok(o) => {
                    &&& o == ExecOutcome::Created { raffle_id: old(state)@.next_id }
                    &&& create_error_spec(now, hook.start_time, hook.end_time) is None
                    &&& final(state)@ == apply_create(
                        old(state)@,
                        new_record_spec(
                            old(state)@,
                            depositor@,
                            sender@,
                            token_id@,
                            hook.price@,
                            hook.max_tickets,
                            hook.start_time,
                            hook.end_time,
                            opt_string_view(hook.revenue_address),
                            opt_string_view(hook.payment_cw20),
                        ),
                    )
                },
                Err(e) => create_error_spec(now, hook.start_time, hook.end_time) == Some(e),
            },
            ExecuteMsg::Receive { sender: payer, amount, buy: hook } => match r {
                Ok(o) => {
                    &&& o == ExecOutcome::TicketsBought
                    &&& cw20_error_spec(old(state)@, now, sender@, amount, hook.raffle_id) is None
                    &&& final(state)@ == apply_buy(
                        old(state)@,
                        hook.raffle_id,
                        payer@,
                        cw20_count_spec(
                            record_of(old(state)@, hook.raffle_id).raffle.price.amount,
                            amount,
                        ),
                    )
                },
                Err(e) => cw20_error_spec(old(state)@, now, sender@, amount, hook.raffle_id)
                    == Some(e),
            },
            ExecuteMsg::BuyTickets { raffle_id, count } => match r {
                Ok(o) => {
                    &&& o == ExecOutcome::TicketsBought
                    &&& buy_error_spec(old(state)@, now, coins_view(funds@), raffle_id, count)
                        is None
                    &&& final(state)@ == apply_buy(old(state)@, raffle_id, sender@, count)
                },
                Err(e) => buy_error_spec(old(state)@, now, coins_view(funds@), raffle_id, count)
                    == Some(e),
            },
            ExecuteMsg::EndRaffle { raffle_id, drand_round, randomness, signature } => match r {
                Ok(o) => {
                    let rec = record_of(old(state)@, raffle_id);
                    let rnd_bytes = hex_decoded(chars_bytes(randomness@));
                    &&& o matches ExecOutcome::Ended(summary)
                    &&& end_error_spec(
                        old(state)@,
                        now,
                        raffle_id,
                        drand_round,
                        chars_bytes(randomness@),
                        chars_bytes(signature@),
                    ) is None
                    &&& (o matches ExecOutcome::Ended(summary) ==> {
                        &&& summary.winner_index == winner_index_spec(
                            rnd_bytes,
                            rec.raffle.total_sold,
                        )
                        &&& summary.winner@ == rec.tickets[summary.winner_index as int]
                        &&& summary.sold_out == (rec.raffle.total_sold >= rec.raffle.max_tickets)
                        &&& summary.total == rec.raffle.price.amount * rec.raffle.total_sold
                        &&& Ok::<PayoutSplit, RaffleError>(summary.split) == split_spec(
                            summary.total,
                            old(state)@.config.protocol_fee_bps,
                            old(state)@.config.bounty_amount,
                            rec.raffle.price.denom,
                        )
                        &&& summary.split.fee + summary.split.bounty_paid + summary.split.payout
                            == summary.total
                        &&& msgs_view(summary.messages@) == end_messages_spec(
                            rec.raffle,
                            old(state)@.config.admin,
                            sender@,
                            summary.winner@,
                            summary.split,
                        )
                        &&& final(state)@ == apply_end(
                            old(state)@,
                            raffle_id,
                            drand_round,
                            summary.winner@,
                        )
                    })
                },
                Err(e) => end_error_spec(
                    old(state)@,
                    now,
                    raffle_id,
                    drand_round,
                    chars_bytes(randomness@),
                    chars_bytes(signature@),
                ) == Some(e),
            },
            ExecuteMsg::CancelRaffle { raffle_id } => match r {
                Ok(o) => {
                    &&& o == ExecOutcome::Cancelled
                    &&& cancel_error_spec(old(state)@, now, sender@, raffle_id) is None
                    &&& final(state)@ == apply_cancel(old(state)@, raffle_id)
                },
                Err(e) => cancel_error_spec(old(state)@, now, sender@, raffle_id) == Some(e),
            },
            ExecuteMsg::UpdateConfig { fee_bps, bounty, drand_pubkey, drand_round_seconds } => match r {
                Ok(o) => {
                    &&& o == ExecOutcome::ConfigUpdated
                    &&& sender@ == old(state)@.config.admin
                    &&& final(state)@ == (StateModel {
                        config: apply_update_config(
                            old(state)@.config,
                            fee_bps,
                            opt_coin_view(bounty),
                            opt_string_view(drand_pubkey),
                            drand_round_seconds,
                        ),
                        ..old(state)@
                    })
                },
                Err(e) => e == RaffleError::Unauthorized && sender@ != old(state)@.config.admin,
            },
            ExecuteMsg::WithdrawFees { to } => r == Ok::<ExecOutcome, RaffleError>(
                ExecOutcome::FeesWithdrawn,
            ) && final(state)@ == old(state)@,
        },
{
    match msg {
        ExecuteMsg::ReceiveNft { sender: depositor, token_id, create: hook } => {
            match receive_nft(state, now, sender, depositor, token_id, hook) {
                Ok(id) => Ok(ExecOutcome::Created { raffle_id: id }),
                Err(e) => Err(e),
            }
        },
        ExecuteMsg::Receive { sender: payer, amount, buy: hook } => {
            match receive_cw20(state, now, sender, payer, amount, hook) {
                Ok(_) => Ok(ExecOutcome::TicketsBought),
                Err(e) => Err(e),
            }
        },
        ExecuteMsg::CreateRaffle {
            nft_contract,
            token_id,
            price,
            max_tickets,
            start_time,
            end_time,
            revenue_address,
            payment_cw20,
        } => {
            match create_raffle(
                state,
                now,
                sender,
                nft_contract,
                token_id,
                price,
                max_tickets,
                start_time,
                end_time,
                revenue_address,
                payment_cw20,
            ) {
                Ok(id) => Ok(ExecOutcome::Created { raffle_id: id }),
                Err(e) => Err(e),
            }
        },
        ExecuteMsg::BuyTickets { raffle_id, count } => {
            match buy_tickets(state, now, sender, funds, raffle_id, count) {
                Ok(_) => Ok(ExecOutcome::TicketsBought),
                Err(e) => Err(e),
            }
        },
        ExecuteMsg::EndRaffle { raffle_id, drand_round, randomness, signature } => {
            match end_raffle(
                state,
                now,
                sender,
                raffle_id,
                drand_round,
                randomness.as_str(),
                signature.as_str(),
            ) {
                Ok(summary) => Ok(ExecOutcome::Ended(summary)),
                Err(e) => Err(e),
            }
        },
        ExecuteMsg::CancelRaffle { raffle_id } => {
            match cancel_raffle(state, now, sender, raffle_id) {
                Ok(_) => Ok(ExecOutcome::Cancelled),
                Err(e) => Err(e),
            }
        },
        ExecuteMsg::UpdateConfig { fee_bps, bounty, drand_pubkey, drand_round_seconds } => {
            match update_config(state, sender, fee_bps, bounty, drand_pubkey, drand_round_seconds) {
                Ok(_) => Ok(ExecOutcome::ConfigUpdated),
                Err(e) => Err(e),
            }
        },
        ExecuteMsg::WithdrawFees { to } => {
            let _ = to;
            match withdraw_fees(state) {
                Ok(_) => Ok(ExecOutcome::FeesWithdrawn),
                Err(e) => Err(e),
            }
        },
    }
}

} // verus!
