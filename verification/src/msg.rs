//! Request and response shapes of the system's operations.

use vstd::prelude::*;

use crate::types::Coin;

verus! {

/// Initialization parameters: the admin (defaulting to the caller), the
/// protocol fee, and the optional bounty and beacon key.
pub struct InstantiateMsg {
    pub admin: Option<String>,
    pub protocol_fee_bps: u16,
    pub bounty_amount: Option<Coin>,
    pub drand_pubkey: Option<String>,
}

/// The creation parameters carried along a prize-asset deposit.
pub struct CreateRaffleNftMsg {
    pub price: Coin,
    pub max_tickets: u64,
    pub start_time: Option<u64>,
    pub end_time: u64,
    pub revenue_address: Option<String>,
    pub payment_cw20: Option<String>,
}

/// The purchase parameters carried along a token payment.
pub struct BuyTicketsCw20Msg {
    pub raffle_id: u64,
    pub count: u64,
}

/// Every mutating operation the system accepts.
pub enum ExecuteMsg {
    /// A prize asset arrived: open a raffle for it. `sender` is the
    /// depositor, who becomes the creator; the calling asset contract is
    /// passed separately to [`crate::lifecycle::execute`].
    ReceiveNft { sender: String, token_id: String, create: CreateRaffleNftMsg },
    /// A token payment arrived: buy as many tickets as it covers. `sender`
    /// is the payer, who becomes the buyer.
    Receive { sender: String, amount: u128, buy: BuyTicketsCw20Msg },
    CreateRaffle {
        nft_contract: String,
        token_id: String,
        price: Coin,
        max_tickets: u64,
        start_time: Option<u64>,
        end_time: u64,
        revenue_address: Option<String>,
        payment_cw20: Option<String>,
    },
    BuyTickets { raffle_id: u64, count: u64 },
    EndRaffle { raffle_id: u64, drand_round: u64, randomness: String, signature: String },
    CancelRaffle { raffle_id: u64 },
    UpdateConfig {
        fee_bps: Option<u16>,
        bounty: Option<Coin>,
        drand_pubkey: Option<String>,
        drand_round_seconds: Option<u64>,
    },
    WithdrawFees { to: String },
}

/// Every read-only query the system answers.
pub enum QueryMsg {
    Raffle { raffle_id: u64 },
    Raffles { start_after: Option<String>, limit: Option<u32> },
    Participant { raffle_id: u64, address: String },
    Participants { raffle_id: u64, start_after: Option<String>, limit: Option<u32> },
    Config {},
}

/// A raffle as reported to callers, with the status spelled out.
pub struct RaffleView {
    pub id: u64,
    pub creator: String,
    pub nft_contract: String,
    pub token_id: String,
    pub price: Coin,
    pub max_tickets: u64,
    pub total_sold: u64,
    pub start_time: Option<u64>,
    pub end_time: u64,
    pub status: String,
    pub winner: Option<String>,
}

/// One raffle, if it exists.
pub struct RaffleResponse {
    pub raffle: Option<RaffleView>,
}

/// A page of raffles in ascending id order.
pub struct RaffleListResponse {
    pub raffles: Vec<RaffleView>,
}

/// One buyer's cumulative ticket count in one raffle.
pub struct ParticipantResponse {
    pub raffle_id: u64,
    pub address: String,
    pub ticket_count: u32,
}

/// A page of per-ticket owner entries, one `(owner, 1)` pair per ticket.
pub struct ParticipantsResponse {
    pub raffle_id: u64,
    pub participants: Vec<(String, u64)>,
}

/// The current configuration.
pub struct ConfigResponse {
    pub admin: String,
    pub protocol_fee_bps: u16,
    pub bounty_amount: Option<Coin>,
    pub drand_pubkey: Option<String>,
    pub drand_round_seconds: Option<u64>,
}

} // verus!
