//! A verifiable-randomness raffle: participants buy numbered tickets for an
//! escrowed prize asset; at closing time a winner is drawn from an externally
//! supplied random beacon value, and the proceeds are split between a protocol
//! fee, an execution bounty, and the raffle's payee.

pub mod error;
pub mod laws;
pub mod lifecycle;
pub mod msg;
pub mod payment;
pub mod payout;
pub mod queries;
pub mod randomness;
pub mod state;
pub mod types;

pub use error::RaffleError;
