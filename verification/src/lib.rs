//! Share-based pooled-vault accounting.
//!
//! Users deposit a base asset and receive proportional ownership shares;
//! later they redeem shares for a proportional slice of the vault's total
//! underlying value, which may be split across swap-routed receipt-token
//! positions. This crate holds the verified core: the ledger, the share
//! issuance/redemption arithmetic, the multi-pool valuation, and the
//! instruction sequences handed back to the host for execution.

pub mod contract;
pub mod error;
pub mod ledger;
pub mod msg;
pub mod state;
