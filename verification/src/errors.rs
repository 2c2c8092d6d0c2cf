//! Error kinds of the accounting engine.
//!
//! Every error aborts the whole enclosing operation: no function of this
//! library persists a partial state change alongside an error.

use vstd::prelude::*;

verus! {

/// Why an accounting operation was rejected.
#[derive(Clone, Copy, Debug, PartialEq, Eq, Structural)]
pub enum StorageError {
    /// The candidate principal identifier is not well formed.
    InvalidPrincipal,
    /// The principal has no ledger entry.
    NotFound,
    /// The attached deposit is less than the minimum storage balance.
    InsufficientDeposit,
    /// The requested withdrawal exceeds the escrowed balance.
    InsufficientBalance,
    /// Committed usage priced at the current byte cost would exceed the
    /// escrowed balance: the collateralization invariant would break.
    StorageNotCovered,
    /// The entry still has committed usage and the unregistration was not
    /// forced.
    StorageNotEmpty,
    /// A release larger than the committed usage, or a stored entry whose
    /// available balance can no longer be computed: a programming-invariant
    /// breach, fatal and never expected in correct operation.
    InternalAccountingError,
}

impl StorageError {
    /// A short description of the error, for reporting outside the engine.
    pub fn message(&self) -> (r: String)
        ensures
            r@.len() > 0,
            r@ == match self {
                StorageError::InvalidPrincipal => "Invalid account id"@,
                StorageError::NotFound => "Account not found"@,
                StorageError::InsufficientDeposit => "The attached deposit is less than the minimum storage balance"@,
                StorageError::InsufficientBalance => "Insufficient storage balance"@,
                StorageError::StorageNotCovered => "Not enough storage balance"@,
                StorageError::StorageNotEmpty => "Storage must be empty or the unregistration forced"@,
                StorageError::InternalAccountingError => "Internal storage accounting bug"@,
            },
    {
        proof {
            reveal_strlit("Invalid account id");
            reveal_strlit("Account not found");
            reveal_strlit("The attached deposit is less than the minimum storage balance");
            reveal_strlit("Insufficient storage balance");
            reveal_strlit("Not enough storage balance");
            reveal_strlit("Storage must be empty or the unregistration forced");
            reveal_strlit("Internal storage accounting bug");
        }
        match self {
            StorageError::InvalidPrincipal => "Invalid account id".to_owned(),
            StorageError::NotFound => "Account not found".to_owned(),
            StorageError::InsufficientDeposit => "The attached deposit is less than the minimum storage balance".to_owned(),
            StorageError::InsufficientBalance => "Insufficient storage balance".to_owned(),
            StorageError::StorageNotCovered => "Not enough storage balance".to_owned(),
            StorageError::StorageNotEmpty => "Storage must be empty or the unregistration forced".to_owned(),
            StorageError::InternalAccountingError => "Internal storage accounting bug".to_owned(),
        }
    }
}

} // verus!
