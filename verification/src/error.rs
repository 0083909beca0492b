//! Error kinds reported by the raffle operations.

use vstd::prelude::*;

verus! {

/// Every failure an operation can report. Each operation's contract states
/// exactly which inputs produce which variant; any failure leaves the state
/// untouched.
#[derive(Clone, Copy, Debug, PartialEq, Eq, Structural)]
pub enum RaffleError {
    /// Create: the closing time is not strictly in the future.
    EndTimeNotFuture,
    /// Create: a start time was given that is not before the end time.
    StartNotBeforeEnd,
    /// The requested raffle id does not exist.
    RaffleNotFound,
    /// The raffle is not in the Active state.
    RaffleNotActive,
    /// Buy: the ticket count is zero.
    ZeroTicketCount,
    /// Buy: the sale has not started yet.
    SaleNotStarted,
    /// Buy: the sale end time has passed.
    SaleEnded,
    /// Buy: the purchase would exceed the maximum ticket count.
    ExceedsMaxTickets,
    /// Buy: no payment coin of the required denomination was attached.
    PaymentNoFunds,
    /// Buy: more than one coin denomination was attached.
    PaymentMultipleDenoms,
    /// Buy: the single attached coin has the wrong denomination.
    PaymentMissingDenom,
    /// Buy: the attached payment does not cover the ticket price times count.
    InsufficientPayment,
    /// Token purchase: the raffle is paid in a native coin, not a token.
    ExpectsNativePayment,
    /// Token purchase: the sending token contract is not the configured one.
    WrongPaymentToken,
    /// Token purchase: the amount is zero, or not a multiple of the price.
    InvalidTokenAmount,
    /// End: neither the end time has passed nor is the raffle sold out.
    NotReadyToEnd,
    /// End: no tickets were sold, so no winner can be drawn.
    NoTicketsSold,
    /// End: the beacon round does not postdate the raffle close, per the
    /// configured round length.
    RoundBeforeClose,
    /// End: this beacon round was already consumed for this raffle.
    RoundAlreadyUsed,
    /// End: no beacon key is configured, or randomness/signature is empty.
    InvalidBeaconInput,
    /// Verify: the configured key is not the recognized network key.
    UnrecognizedBeaconKey,
    /// Verify: the configured key is not valid hex.
    BeaconKeyBadHex,
    /// Verify: the configured key does not decode to 48 bytes.
    BeaconKeyBadLength,
    /// Verify: the key bytes are not a valid first-group curve point.
    BeaconKeyBadPoint,
    /// Verify: the signature is not valid hex.
    SignatureBadHex,
    /// Verify: the signature does not decode to 96 bytes.
    SignatureBadLength,
    /// Verify: the signature bytes are not a valid second-group curve point.
    SignatureBadPoint,
    /// Verify: the round is older than the freshness window allows.
    RoundTooOld,
    /// Verify: the round is further in the future than the window allows.
    RoundTooNew,
    /// Verify: the randomness is not valid hex.
    RandomnessBadHex,
    /// Verify: the randomness does not decode to 32 bytes.
    RandomnessBadLength,
    /// Verify: the randomness does not equal the hash of the signature.
    RandomnessMismatch,
    /// End: the beacon triple failed verification without a specific cause.
    InvalidBeaconSignature,
    /// Cancel or config update: the caller lacks the required identity.
    Unauthorized,
    /// Cancel: the raffle is sold out and can no longer be cancelled.
    CannotCancelSoldOut,
    /// Cancel: the configured start time has passed.
    CannotCancelAfterStart,
    /// Arithmetic: a revenue or fee computation exceeds the integer range.
    Overflow,
    /// Payout: the protocol fee exceeds the collected total.
    FeeExceedsTotal,
}

} // verus!
