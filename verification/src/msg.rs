//! Inbound request shapes and the outbound instructions the engine emits.
//!
//! Identities appear as numeric ids that the host assigned to validated
//! addresses. Where a request field is an address the host may have failed
//! to validate, the field is an `Option`: `None` means the host refused it.

use vstd::prelude::*;

verus! {

/// Initializes a vault. `routing` is present for the multi-pool variant
/// and absent for the single-pool variant.
#[derive(Clone, Copy, Debug, PartialEq, Eq, Structural)]
pub struct InstantiateMsg {
    pub owner_addr: Option<u64>,
    pub token_addr: Option<u64>,
    pub routing: Option<RoutingMsg>,
}

/// The routing identities of a multi-pool vault, each `None` where the
/// host refused to validate the corresponding address.
#[derive(Clone, Copy, Debug, PartialEq, Eq, Structural)]
pub struct RoutingMsg {
    pub lp_pool_1: Option<u64>,
    pub lp_pool_2: Option<u64>,
    pub rec_token1: Option<u64>,
    pub rec_token2: Option<u64>,
}

/// An inbound state-changing request.
#[derive(Clone, Copy, Debug, PartialEq, Eq, Structural)]
pub enum ExecuteMsg {
    Deposit { amount: u128 },
    Withdraw { share: u128 },
}

/// An inbound read-only query.
#[derive(Clone, Copy, Debug, PartialEq, Eq, Structural)]
pub enum QueryMsg {
    GetTotalSupply {},
    GetBalanceOf { address: u64 },
}

/// A response body carrying a single string value.
#[derive(Debug, PartialEq, Eq)]
pub struct CustomResponse {
    val: String,
}

/// A migration request. It carries nothing: no migration behaviour is
/// defined for this contract.
#[derive(Clone, Copy, Debug, PartialEq, Eq, Structural)]
pub struct MigrateMsg {}

/// Which of a pool's two assets a swap feeds in.
#[derive(Clone, Copy, Debug, PartialEq, Eq, Structural)]
pub enum TokenSelect {
    Token1,
    Token2,
}

/// An external-call instruction emitted to the host. The core only
/// computes and orders these; the host executes them after the core's own
/// state change is committed, inside the same atomic transaction.
#[derive(Clone, Copy, Debug, PartialEq, Eq, Structural)]
pub enum Instruction {
    /// Grant `spender` the right to pull up to `amount` of `token`.
    IncreaseAllowance { token: u64, spender: u64, amount: u128 },
    /// Pull `amount` of `token` from `owner` to `recipient`.
    TransferFrom { token: u64, owner: u64, recipient: u64, amount: u128 },
    /// Push `amount` of `token` to `recipient`.
    Transfer { token: u64, recipient: u64, amount: u128 },
    /// Swap `input_amount` of the selected input asset at `pool`.
    Swap { pool: u64, input_token: TokenSelect, input_amount: u128, min_output: u128 },
}

/// The oracle readings a withdraw needs: the vault's redeemable value at
/// this instant. `Direct` reads the vault's own underlying-token balance;
/// `Routed` reads each receipt-token balance and what the originating pool
/// would currently pay for it.
#[derive(Clone, Copy, Debug, PartialEq, Eq, Structural)]
pub enum Valuation {
    Direct { balance: u128 },
    Routed { rec_1_balance: u128, converted_1: u128, rec_2_balance: u128, converted_2: u128 },
}

} // verus!
