//! Custody engine for a single program-controlled vault.
//!
//! The vault is a keyless authority whose address is derived from a fixed
//! label. It holds native balance, which depositors may take back at any
//! time, and a token balance, which is locked for a fixed number of ledger
//! ticks after initialization.
pub mod address;
pub mod error;
pub mod state;
pub mod native;
pub mod policy;
pub mod setup;
pub mod token;
pub mod laws;

pub use error::ErrorCode;
pub use native::{deposit_sol, withdraw_sol, DepositSol, WithdrawSol};
pub use setup::{initialize, Initialize};
pub use state::ProgramState;
pub use token::{deposit_token, withdraw_token, DepositToken, WithdrawToken};
