//! Integration surface for domain operations.
//!
//! A domain collaborator wraps any external-store mutation that must be paid
//! for in a measurement scope: `begin_scope` before the mutation,
//! `end_scope_and_reconcile` after it. The external store's total-usage
//! readings are passed in by the host; reconciliation folds the measured
//! delta into the principal's entry and enforces the collateralization
//! invariant before anything is persisted.

use vstd::prelude::*;

use crate::account::Account;
use crate::errors::StorageError;
use crate::Contract;

verus! {

impl Contract {
    /// Opens a measurement scope on the principal's entry at the given
    /// total-usage reading of the external store. Opening a scope while one
    /// is already open on the entry is a logic error and is excluded by
    /// precondition.
    pub fn begin_scope(&mut self, account_id: &str, usage: u64) -> (r: Result<(), StorageError>)
        requires
            old(self)@.contains_key(account_id@)
                ==> old(self)@[account_id@].storage_tracker.baseline is None,
        ensures
            !old(self)@.contains_key(account_id@) ==> r == Err::<(), StorageError>(
                StorageError::NotFound,
            ) && final(self)@ == old(self)@,
            old(self)@.contains_key(account_id@) ==> r == Ok::<(), StorageError>(())
                && final(self)@ == old(self)@.insert(
                account_id@,
                (Account {
                    storage_tracker: old(self)@[account_id@].storage_tracker.spec_start(usage),
                    ..old(self)@[account_id@]
                }),
            ),
            old(self).wf() ==> final(self).wf(),
            forall|c: u128| old(self).all_covered(c) ==> final(self).all_covered(c),
    {
        let mut account = match self.internal_get_account(account_id) {
            Ok(account) => account,
            Err(e) => {
                return Err(e);
            },
        };
        account.start_storage_tracker(usage);
        self.accounts.insert(account_id.to_owned(), account);
        proof {
            if old(self).wf() {
                assert forall|p: Seq<char>| #[trigger] self@.contains_key(p) implies self@[p].storage_tracker.counters_zero() by {
                    if p != account_id@ {
                        assert(old(self)@.contains_key(p));
                    }
                }
            }
            assert forall|c: u128| old(self).all_covered(c) implies self.all_covered(c) by {
                assert forall|p: Seq<char>| #[trigger] self@.contains_key(p) implies self@[p].covered(
                    c,
                ) by {
                    if p != account_id@ {
                        assert(old(self)@.contains_key(p));
                    }
                }
            }
        }
        Ok(())
    }

    /// Closes the open measurement scope on the principal's entry at the
    /// given total-usage reading, reconciles the measured delta into the
    /// entry and persists it. On any error — an unknown principal, a net
    /// release exceeding committed usage, or a net addition the escrow does
    /// not cover — the ledger is left unchanged, discarding the scope's
    /// effects. Closing without an open scope is a logic error and is
    /// excluded by precondition.
    pub fn end_scope_and_reconcile(&mut self, account_id: &str, usage: u64, byte_cost: u128) -> (r:
        Result<(), StorageError>)
        requires
            old(self).wf(),
            old(self)@.contains_key(account_id@)
                ==> old(self)@[account_id@].storage_tracker.baseline is Some,
            old(self)@.contains_key(account_id@) ==> old(self)@[account_id@].used_bytes + usage
                - old(self)@[account_id@].storage_tracker.baseline->0 <= u64::MAX,
        ensures
            !old(self)@.contains_key(account_id@) ==> r == Err::<(), StorageError>(
                StorageError::NotFound,
            ) && final(self)@ == old(self)@,
            old(self)@.contains_key(account_id@) ==> ({
                let stopped = Account {
                    storage_tracker: old(self)@[account_id@].storage_tracker.spec_stop(usage),
                    ..old(self)@[account_id@]
                };
                match stopped.spec_reconcile(byte_cost) {
                    Ok(entry) => r == Ok::<(), StorageError>(())
                        && final(self)@ == old(self)@.insert(account_id@, entry),
                    Err(e) => r == Err::<(), StorageError>(e) && final(self)@ == old(self)@,
                }
            }),
            final(self).wf(),
            r is Ok && old(self).all_covered(byte_cost) ==> final(self).all_covered(byte_cost),
    {
        let mut account = match self.internal_get_account(account_id) {
            Ok(account) => account,
            Err(e) => {
                return Err(e);
            },
        };
        account.stop_storage_tracker(usage);
        match self.internal_set_account(account_id, account, byte_cost) {
            Ok(_) => Ok(()),
            Err(e) => Err(e),
        }
    }
}

} // verus!
