//! Vault state: the immutable configuration, the optional routing table of
//! the multi-pool variant, and the ledger.
//!
//! Identities (owner, tokens, pools) are carried as plain numeric ids: the
//! host validates the textual addresses it receives and hands the core one
//! id per validated address.

use vstd::prelude::*;
use crate::ledger::Ledger;

verus! {

/// Immutable-after-init configuration: the underlying token and the owner.
#[derive(Clone, Copy, Debug, PartialEq, Eq, Structural)]
pub struct Config {
    pub token: u64,
    pub owner: u64,
}

/// The two swap pools and their receipt tokens that a multi-pool vault's
/// capital is split into. Set once at creation, read-only afterwards.
#[derive(Clone, Copy, Debug, PartialEq, Eq, Structural)]
pub struct Swapvar {
    pub lp_pool_1: u64,
    pub rec_token_1: u64,
    pub lp_pool_2: u64,
    pub rec_token_2: u64,
}

/// One vault instance: configuration, routing (present only in the
/// multi-pool variant) and the share ledger.
#[derive(Debug)]
pub struct Vault {
    pub config: Config,
    pub routing: Option<Swapvar>,
    pub ledger: Ledger,
}

impl Vault {
    /// The engine's invariant: the ledger entries are well formed and the
    /// total supply equals the sum of all holders' share balances.
    pub open spec fn wf(&self) -> bool {
        &&& self.ledger.wf()
        &&& self.ledger.spec_total_supply() == self.ledger.spec_sum()
    }

    /// The outstanding total share supply.
    pub open spec fn total_supply(&self) -> u128 {
        self.ledger.spec_total_supply()
    }

    /// A holder's share balance (zero when the holder has no entry).
    pub open spec fn balance_of(&self, holder: u64) -> u128 {
        self.ledger.spec_balance_of(holder)
    }
}

} // verus!
