//! An escrow contract for a Soroban host: a buyer pays an amount of a token
//! into the contract, which releases it to the seller on confirmed delivery,
//! settles disputes through an optional arbitrator, and refunds the buyer once
//! the deadline has passed.
pub mod contract;
pub mod errors;
pub mod events;
pub mod host;
pub mod laws;
pub mod lifecycle;
pub mod storage;
pub mod types;

pub use contract::EscrowContract;
pub use errors::ContractError;
pub use host::AccountId;
pub use storage::DataKey;
pub use types::{Escrow, EscrowState};
