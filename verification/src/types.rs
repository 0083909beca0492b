//! Plain value types shared by the raffle operations, with their
//! mathematical models.
//!
//! Addresses and denominations are carried as strings (address validation is
//! an external collaborator's concern); amounts are 128-bit integers; times
//! are 64-bit nanosecond counts.

use vstd::prelude::*;

verus! {

/// An amount of a native denomination.
#[derive(Debug)]
pub struct Coin {
    pub denom: String,
    pub amount: u128,
}

/// Model of a [`Coin`]: the denomination as a character sequence.
#[verifier::ext_equal]
pub ghost struct CoinModel {
    pub denom: Seq<char>,
    pub amount: u128,
}

impl View for Coin {
    type V = CoinModel;

    open spec fn view(&self) -> CoinModel {
        CoinModel { denom: self.denom@, amount: self.amount }
    }
}

impl Coin {
    /// An identical copy of the coin.
    pub fn duplicate(&self) -> (r: Coin)
        ensures
            r@ == self@,
    {
        Coin { denom: self.denom.clone(), amount: self.amount }
    }
}

/// Model of an optional string as an optional character sequence.
pub open spec fn opt_string_view(o: Option<String>) -> Option<Seq<char>> {
    match o {
        Some(s) => Some(s@),
        None => None,
    }
}

/// Model of an optional coin.
pub open spec fn opt_coin_view(o: Option<Coin>) -> Option<CoinModel> {
    match o {
        Some(c) => Some(c@),
        None => None,
    }
}

/// Model of a sequence of coins.
pub open spec fn coins_view(s: Seq<Coin>) -> Seq<CoinModel> {
    Seq::new(s.len(), |i: int| s[i]@)
}

/// Model of a sequence of transfer instructions.
pub open spec fn msgs_view(s: Seq<TransferMsg>) -> Seq<TransferModel> {
    Seq::new(s.len(), |i: int| s[i]@)
}

/// Nanoseconds per second, for turning timestamps into whole seconds.
pub const NANOS_PER_SECOND: u64 = 1_000_000_000;

/// The whole-second part of a nanosecond timestamp.
pub open spec fn seconds_of(nanos: u64) -> u64 {
    nanos / NANOS_PER_SECOND
}

/// Executable counterpart of [`seconds_of`].
pub fn timestamp_seconds(nanos: u64) -> (s: u64)
    ensures
        s == seconds_of(nanos),
{
    nanos / NANOS_PER_SECOND
}

/// A single outbound instruction emitted by a settlement: either the prize
/// asset moving to the winner, or funds moving to a recipient.
#[derive(Debug)]
pub enum TransferMsg {
    /// Ask the prize-asset contract to transfer the token to the recipient.
    Prize { contract: String, token_id: String, recipient: String },
    /// Send an amount of a native denomination to the recipient.
    Funds { to: String, denom: String, amount: u128 },
}

/// Model of a [`TransferMsg`].
#[verifier::ext_equal]
pub ghost enum TransferModel {
    Prize { contract: Seq<char>, token_id: Seq<char>, recipient: Seq<char> },
    Funds { to: Seq<char>, denom: Seq<char>, amount: u128 },
}

impl View for TransferMsg {
    type V = TransferModel;

    open spec fn view(&self) -> TransferModel {
        match self {
            TransferMsg::Prize { contract, token_id, recipient } => TransferModel::Prize {
                contract: contract@,
                token_id: token_id@,
                recipient: recipient@,
            },
            TransferMsg::Funds { to, denom, amount } => TransferModel::Funds {
                to: to@,
                denom: denom@,
                amount: *amount,
            },
        }
    }
}

} // verus!
