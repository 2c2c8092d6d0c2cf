//! Laws of the accounting engine, stated and proved over the mathematical
//! models of its operations.
//!
//! The ledger-wide collateralization invariant is carried by the `ensures`
//! clauses of the engine's mutating operations themselves: each one states
//! that a ledger whose entries are all covered stays that way, and that on
//! any error the ledger is left exactly as it was. The laws here state what
//! holds of a single entry's reconciliation.

use vstd::prelude::*;

use crate::account::Account;
use crate::errors::StorageError;
use vstd::arithmetic::mul::lemma_mul_inequality;

verus! {

/// Every entry that a successful reconciliation produces is covered at the
/// price it was reconciled with, provided the entry was covered beforehand
/// or the scope made a net addition (which the reconciliation itself
/// checks).
pub proof fn lemma_reconcile_preserves_coverage(account: Account, byte_cost: u128)
    requires
        account.spec_reconcile(byte_cost) is Ok,
        account.covered(byte_cost) || account.net_delta() > 0,
    ensures
        account.spec_reconcile(byte_cost)->Ok_0.covered(byte_cost),
{
    let result = account.spec_reconcile(byte_cost)->Ok_0;
    if account.net_delta() > 0 {
        lemma_mul_inequality(
            result.used_bytes as int,
            account.used_bytes + account.net_delta(),
            byte_cost as int,
        );
    } else {
        lemma_mul_inequality(result.used_bytes as int, account.used_bytes as int, byte_cost as int);
    }
}

/// Reconciliation is idempotent: reconciling the entry that a successful
/// reconciliation produced changes nothing — in particular neither
/// `used_bytes` nor `storage_balance` — because the meter's counters were
/// given up the first time.
pub proof fn lemma_reconcile_idempotent(account: Account, byte_cost: u128)
    requires
        account.spec_reconcile(byte_cost) is Ok,
    ensures
        ({
            let once = account.spec_reconcile(byte_cost)->Ok_0;
            once.spec_reconcile(byte_cost) == Ok::<Account, StorageError>(once)
        }),
{
}

/// Storing an entry twice reconciles it only once: the entry a successful
/// store persists reconciles to itself, so storing it again with no
/// intervening scope leaves the ledger — `used_bytes` and `storage_balance`
/// included — exactly as the first store left it.
pub proof fn lemma_store_idempotent(
    ledger: Map<Seq<char>, Account>,
    principal: Seq<char>,
    account: Account,
    byte_cost: u128,
)
    requires
        account.spec_reconcile(byte_cost) is Ok,
    ensures
        ({
            let once = account.spec_reconcile(byte_cost)->Ok_0;
            &&& once.spec_reconcile(byte_cost) == Ok::<Account, StorageError>(once)
            &&& ledger.insert(principal, once).insert(principal, once) == ledger.insert(
                principal,
                once,
            )
        }),
{
    let once = account.spec_reconcile(byte_cost)->Ok_0;
    assert(ledger.insert(principal, once).insert(principal, once) =~= ledger.insert(
        principal,
        once,
    ));
}

/// A measurement scope with zero net external-store change records nothing:
/// opening and closing a clear meter at one and the same usage reading
/// leaves both counters at zero, and reconciling the entry afterwards is a
/// no-op.
pub proof fn lemma_zero_net_scope_is_noop(account: Account, usage: u64, byte_cost: u128)
    requires
        account.storage_tracker.is_clear(),
    ensures
        ({
            let tracker = account.storage_tracker.spec_start(usage).spec_stop(usage);
            let measured = Account { storage_tracker: tracker, ..account };
            &&& tracker.bytes_added == 0
            &&& tracker.bytes_released == 0
            &&& measured.spec_reconcile(byte_cost) == Ok::<Account, StorageError>(measured)
        }),
{
}

/// Net release bound: when a scope released more than it added,
/// reconciliation fails as a fatal accounting breach exactly when the net
/// release exceeds the committed usage, and otherwise reduces `used_bytes`
/// by exactly the net release and leaves the balance untouched.
pub proof fn lemma_release_bound(account: Account, byte_cost: u128)
    requires
        account.storage_tracker.bytes_released > account.storage_tracker.bytes_added,
    ensures
        ({
            let freed = account.storage_tracker.bytes_released
                - account.storage_tracker.bytes_added;
            &&& (account.used_bytes < freed ==> account.spec_reconcile(byte_cost) == Err::<
                Account,
                StorageError,
            >(StorageError::InternalAccountingError))
            &&& (account.used_bytes >= freed ==> account.spec_reconcile(byte_cost) is Ok
                && account.spec_reconcile(byte_cost)->Ok_0.used_bytes == account.used_bytes - freed
                && account.spec_reconcile(byte_cost)->Ok_0.storage_balance
                == account.storage_balance)
        }),
{
}

} // verus!
