//! A dead man's switch escrow.
//!
//! A depositor locks an amount of an asset for a beneficiary and must signal
//! liveness ("ping") within a timeout window measured on a monotonic counter.
//! Once the window has elapsed since the last ping, anyone may release the
//! whole amount to the beneficiary.
//!
//! The engine here holds no I/O: the host reads the clock, checks caller
//! authorization and moves the asset, and hands the outcomes to the engine,
//! which decides every transition.
pub mod error;
pub mod vault;
pub mod engine;
pub mod laws;

pub use error::{EscrowError, TransferError};
pub use vault::{Vault, VaultRecord};
pub use engine::{Inheritance, Payout};
