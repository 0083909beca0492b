//! The raffle records, the singleton configuration, and the whole mutable
//! state of the system, together with its well-formedness invariant.

use vstd::prelude::*;

use crate::types::{Coin, CoinModel, opt_coin_view, opt_string_view};

verus! {

/// Lifecycle state of a raffle. `Active` can move to either terminal state;
/// nothing leaves `Completed` or `Cancelled`.
#[derive(Clone, Copy, Debug, PartialEq, Eq, Structural)]
pub enum RaffleStatus {
    Active,
    Completed,
    Cancelled,
}

/// Process-wide configuration: admin identity, protocol fee, optional
/// execution bounty, optional beacon key and round length.
pub struct Config {
    pub admin: String,
    pub protocol_fee_bps: u16,
    pub bounty_amount: Option<Coin>,
    pub drand_pubkey: Option<String>,
    pub drand_round_seconds: Option<u64>,
}

/// Model of a [`Config`].
#[verifier::ext_equal]
pub ghost struct ConfigModel {
    pub admin: Seq<char>,
    pub protocol_fee_bps: u16,
    pub bounty_amount: Option<CoinModel>,
    pub drand_pubkey: Option<Seq<char>>,
    pub drand_round_seconds: Option<u64>,
}

impl View for Config {
    type V = ConfigModel;

    open spec fn view(&self) -> ConfigModel {
        ConfigModel {
            admin: self.admin@,
            protocol_fee_bps: self.protocol_fee_bps,
            bounty_amount: opt_coin_view(self.bounty_amount),
            drand_pubkey: opt_string_view(self.drand_pubkey),
            drand_round_seconds: self.drand_round_seconds,
        }
    }
}

/// A raffle record: identity, prize reference, pricing, capacity, schedule,
/// payee, payment method, lifecycle status, and winner (once completed).
pub struct Raffle {
    pub id: u64,
    pub creator: String,
    pub nft_contract: String,
    pub token_id: String,
    pub price: Coin,
    pub max_tickets: u64,
    pub total_sold: u64,
    pub start_time: Option<u64>,
    pub end_time: u64,
    pub revenue_address: String,
    pub payment_cw20: Option<String>,
    pub status: RaffleStatus,
    pub winner: Option<String>,
}

/// Model of a [`Raffle`].
#[verifier::ext_equal]
pub ghost struct RaffleModel {
    pub id: u64,
    pub creator: Seq<char>,
    pub nft_contract: Seq<char>,
    pub token_id: Seq<char>,
    pub price: CoinModel,
    pub max_tickets: u64,
    pub total_sold: u64,
    pub start_time: Option<u64>,
    pub end_time: u64,
    pub revenue_address: Seq<char>,
    pub payment_cw20: Option<Seq<char>>,
    pub status: RaffleStatus,
    pub winner: Option<Seq<char>>,
}

impl View for Raffle {
    type V = RaffleModel;

    open spec fn view(&self) -> RaffleModel {
        RaffleModel {
            id: self.id,
            creator: self.creator@,
            nft_contract: self.nft_contract@,
            token_id: self.token_id@,
            price: self.price@,
            max_tickets: self.max_tickets,
            total_sold: self.total_sold,
            start_time: self.start_time,
            end_time: self.end_time,
            revenue_address: self.revenue_address@,
            payment_cw20: opt_string_view(self.payment_cw20),
            status: self.status,
            winner: opt_string_view(self.winner),
        }
    }
}

/// One buyer's cumulative ticket count within a raffle.
pub struct BuyerCount {
    pub buyer: String,
    pub count: u64,
}

impl View for BuyerCount {
    type V = (Seq<char>, u64);

    open spec fn view(&self) -> (Seq<char>, u64) {
        (self.buyer@, self.count)
    }
}

/// A raffle together with its ticket ledger, per-buyer counts, and the
/// beacon rounds already consumed for it.
pub struct RaffleRecord {
    pub raffle: Raffle,
    /// Owner of ticket index `i`, for every `i < total_sold`: the ledger is
    /// contiguous and append-only by construction.
    pub tickets: Vec<String>,
    pub buyer_counts: Vec<BuyerCount>,
    pub used_rounds: Vec<u64>,
}

/// Model of a [`RaffleRecord`].
#[verifier::ext_equal]
pub ghost struct RecordModel {
    pub raffle: RaffleModel,
    pub tickets: Seq<Seq<char>>,
    pub buyer_counts: Seq<(Seq<char>, u64)>,
    pub used_rounds: Seq<u64>,
}

impl View for RaffleRecord {
    type V = RecordModel;

    open spec fn view(&self) -> RecordModel {
        RecordModel {
            raffle: self.raffle@,
            tickets: Seq::new(self.tickets@.len(), |i: int| self.tickets@[i]@),
            buyer_counts: Seq::new(self.buyer_counts@.len(), |i: int| self.buyer_counts@[i]@),
            used_rounds: self.used_rounds@,
        }
    }
}

/// The whole state: configuration, the next raffle id to assign, and all
/// raffle records, where the record of raffle id `k` sits at index `k - 1`.
pub struct ContractState {
    pub config: Config,
    pub next_id: u64,
    pub raffles: Vec<RaffleRecord>,
}

/// Model of a [`ContractState`].
#[verifier::ext_equal]
pub ghost struct StateModel {
    pub config: ConfigModel,
    pub next_id: u64,
    pub raffles: Seq<RecordModel>,
}

impl View for ContractState {
    type V = StateModel;

    open spec fn view(&self) -> StateModel {
        StateModel {
            config: self.config@,
            next_id: self.next_id,
            raffles: Seq::new(self.raffles@.len(), |i: int| self.raffles@[i]@),
        }
    }
}

/// The buyer-count table holds at most one entry per buyer.
pub open spec fn counts_unique(counts: Seq<(Seq<char>, u64)>) -> bool {
    forall|i: int, j: int|
        0 <= i < j < counts.len() ==> counts[i].0 != counts[j].0
}

/// Well-formedness of one record. The ticket ledger holds exactly the
/// indices `0 .. total_sold`; capacity and schedule invariants hold; the
/// winner is set exactly on completion.
pub open spec fn record_wf(r: RecordModel) -> bool {
    &&& r.tickets.len() == r.raffle.total_sold
    &&& r.raffle.total_sold <= r.raffle.max_tickets
    &&& (match r.raffle.start_time {
        Some(st) => st < r.raffle.end_time,
        None => true,
    })
    &&& (r.raffle.winner is Some <==> r.raffle.status is Completed)
    &&& counts_unique(r.buyer_counts)
    &&& forall|k: int|
        0 <= k < r.buyer_counts.len() ==> (#[trigger] r.buyer_counts[k]).1 <= r.raffle.total_sold
}

/// Well-formedness of the whole state: ids are assigned sequentially from 1
/// with the record of id `k` at index `k - 1`, and every record is
/// well-formed.
pub open spec fn state_wf(s: StateModel) -> bool {
    &&& s.next_id == s.raffles.len() + 1
    &&& forall|i: int| 0 <= i < s.raffles.len() ==> (#[trigger] s.raffles[i]).raffle.id == i + 1
    &&& forall|i: int| 0 <= i < s.raffles.len() ==> record_wf(#[trigger] s.raffles[i])
}

/// Whether a raffle with this id exists.
pub open spec fn has_raffle(s: StateModel, raffle_id: u64) -> bool {
    1 <= raffle_id <= s.raffles.len()
}

/// The record of an existing raffle id.
pub open spec fn record_of(s: StateModel, raffle_id: u64) -> RecordModel
    recommends
        has_raffle(s, raffle_id),
{
    s.raffles[raffle_id - 1]
}

impl ContractState {
    /// The stated invariant, as a predicate on the state's model.
    pub open spec fn wf(&self) -> bool {
        state_wf(self@)
    }
}

/// The cumulative ticket count recorded for a buyer, zero when absent: the
/// first entry under the buyer's key (the only one, under the invariant).
pub open spec fn count_of(counts: Seq<(Seq<char>, u64)>, buyer: Seq<char>) -> u64
    decreases counts.len(),
{
    if counts.len() == 0 {
        0
    } else if counts[0].0 == buyer {
        counts[0].1
    } else {
        count_of(counts.drop_first(), buyer)
    }
}

} // verus!
