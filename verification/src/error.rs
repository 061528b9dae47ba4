use vstd::prelude::*;

verus! {

/// Why a vault operation was rejected. Every error aborts the whole
/// operation: the ledger and the total supply are left untouched and no
/// external instruction is emitted.
#[derive(Clone, Copy, Debug, PartialEq, Eq, Structural)]
pub enum ContractError {
    /// A request argument was malformed: an identity the host refused to
    /// validate at instantiation, or a zero deposit/withdraw amount.
    Validation,
    /// A withdraw request asked for more shares than the holder owns.
    InsufficientShares,
    /// Overflow on multiply/add, underflow on subtract, or division by
    /// zero: a pricing/state inconsistency, never silently clamped.
    Arithmetic,
    /// An external collaborator (token or pool) was unreachable or
    /// returned malformed data, so no valuation reading was available.
    ExternalQuery,
}

impl ContractError {
    /// A short human-readable description of the error.
    pub fn describe(&self) -> (r: &'static str)
        ensures
            r@ == self.describe_spec(),
    {
        match self {
            ContractError::Validation => "invalid request argument",
            ContractError::InsufficientShares => "insufficient shares",
            ContractError::Arithmetic => "arithmetic overflow or division by zero",
            ContractError::ExternalQuery => "external query failed",
        }
    }

    /// What `describe` returns, for use in contracts.
    pub open spec fn describe_spec(&self) -> Seq<char> {
        match self {
            ContractError::Validation => "invalid request argument"@,
            ContractError::InsufficientShares => "insufficient shares"@,
            ContractError::Arithmetic => "arithmetic overflow or division by zero"@,
            ContractError::ExternalQuery => "external query failed"@,
        }
    }
}

} // verus!
