//! Accounting core of a collateralized lending pool.
//!
//! One market holds two pools: depositors supply collateral and hold shares of
//! the deposit pool; borrowers draw a second asset against that collateral up
//! to a loan-to-value limit and hold shares of the debt, which grows by
//! fixed-rate simple interest. The library computes; it moves no asset and
//! reads no clock. Each operation names the transfer it calls for, takes the
//! current time and the transfer's outcome as plain values, and changes the
//! market and the position only when every step succeeded.

pub mod accrual;
pub mod conservation;
pub mod error;
pub mod instructions;
pub mod ledger;
pub mod math;
pub mod risk;
pub mod shares;
pub mod state;
pub mod transfer;

pub use error::{ErrorCode, TransferError};
pub use state::market::Market;
pub use state::position::UserPosition;
pub use state::AccountKey;
