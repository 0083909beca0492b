//! The payment rule for native purchases: exactly one coin must be attached,
//! of the raffle's denomination, with a nonzero amount.

use vstd::prelude::*;

use crate::error::RaffleError;
use crate::types::{Coin, CoinModel, coins_view};

verus! {

/// The amount a purchase attaches, or why it is rejected: no funds (or a
/// zero amount), more than one denomination, or the wrong denomination.
pub open spec fn payment_spec(funds: Seq<CoinModel>, denom: Seq<char>) -> Result<
    u128,
    RaffleError,
> {
    if funds.len() == 0 {
        Err(RaffleError::PaymentNoFunds)
    } else if funds.len() == 1 {
        if funds[0].amount == 0 {
            Err(RaffleError::PaymentNoFunds)
        } else if funds[0].denom != denom {
            Err(RaffleError::PaymentMissingDenom)
        } else {
            Ok(funds[0].amount)
        }
    } else {
        Err(RaffleError::PaymentMultipleDenoms)
    }
}

/// The attached payment in the required denomination, per [`payment_spec`].
pub fn must_pay(funds: &Vec<Coin>, denom: &String) -> (r: Result<u128, RaffleError>)
    ensures
        r == payment_spec(coins_view(funds@), denom@),
{
    if funds.len() == 0 {
        Err(RaffleError::PaymentNoFunds)
    } else if funds.len() == 1 {
        let coin = &funds[0];
        if coin.amount == 0 {
            Err(RaffleError::PaymentNoFunds)
        } else if !coin.denom.eq(denom) {
            Err(RaffleError::PaymentMissingDenom)
        } else {
            Ok(coin.amount)
        }
    } else {
        Err(RaffleError::PaymentMultipleDenoms)
    }
}

} // verus!
