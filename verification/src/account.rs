//! Ledger entries and their reconciliation.
//!
//! An `Account` is the per-principal record of escrowed balance and committed
//! byte usage. It owns one `StorageTracker` for the duration of operations
//! performed on its behalf; the meter is never persisted. Reconciliation
//! folds the meter's deltas into `used_bytes` and enforces the
//! collateralization invariant before an entry may be stored.

use vstd::prelude::*;

use crate::errors::StorageError;
use crate::principal::is_valid_principal;
use crate::principal::valid_principal;
use crate::storage_tracker::StorageTracker;
use crate::Contract;

verus! {

/// Minimum byte allotment every registered principal must be able to afford.
pub const MIN_STORAGE_BYTES: u64 = 2000;

/// The minimum escrow required to register, at price `byte_cost` per byte.
pub open spec fn spec_min_balance(byte_cost: u128) -> int {
    MIN_STORAGE_BYTES * byte_cost
}

/// Per-principal ledger entry: escrowed balance, committed byte usage, and
/// the transient meter of the operation currently running on its behalf.
#[derive(Clone, Copy)]
pub struct Account {
    /// Escrowed value, in the smallest unit.
    pub storage_balance: u128,
    /// Committed, reconciled byte usage.
    pub used_bytes: u64,
    /// Transient meter; excluded from durable state and clear on load.
    pub storage_tracker: StorageTracker,
}

impl Account {
    /// The collateralization invariant: committed usage priced at `byte_cost`
    /// never exceeds the escrowed balance.
    pub open spec fn covered(self, byte_cost: u128) -> bool {
        self.used_bytes * byte_cost <= self.storage_balance
    }

    /// Net byte delta recorded by the meter; negative when more was released
    /// than added.
    pub open spec fn net_delta(self) -> int {
        self.storage_tracker.bytes_added - self.storage_tracker.bytes_released
    }

    /// The escrow still available above the cost of committed usage.
    pub open spec fn spec_available(self, byte_cost: u128) -> int {
        self.storage_balance - self.used_bytes * byte_cost
    }

    /// Outcome of reconciling the meter into committed usage at price
    /// `byte_cost`:
    /// - a net release larger than the committed usage is a fatal accounting
    ///   breach;
    /// - a net addition must leave the entry covered, else the whole
    ///   operation is rejected;
    /// - otherwise `used_bytes` moves by exactly the net delta and the
    ///   meter's counters are given up.
    pub open spec fn spec_reconcile(self, byte_cost: u128) -> Result<Account, StorageError> {
        let used = self.used_bytes + self.net_delta();
        if used < 0 {
            Err(StorageError::InternalAccountingError)
        } else if self.net_delta() > 0 && used * byte_cost > self.storage_balance {
            Err(StorageError::StorageNotCovered)
        } else {
            Ok(
                Account {
                    storage_balance: self.storage_balance,
                    used_bytes: used as u64,
                    storage_tracker: StorageTracker {
                        bytes_added: 0,
                        bytes_released: 0,
                        baseline: self.storage_tracker.baseline,
                    },
                },
            )
        }
    }

    /// Creates an empty entry: no escrow, no committed usage, clear meter.
    pub fn new() -> (a: Account)
        ensures
            a.storage_balance == 0,
            a.used_bytes == 0,
            a.storage_tracker.is_clear(),
    {
        Account { storage_balance: 0, used_bytes: 0, storage_tracker: StorageTracker::new() }
    }

    /// Opens a measurement scope on this entry's meter at the given usage
    /// reading of the external store.
    pub fn start_storage_tracker(&mut self, usage: u64)
        requires
            old(self).storage_tracker.baseline is None,
        ensures
            *final(self) == (Account {
                storage_tracker: old(self).storage_tracker.spec_start(usage),
                ..*old(self)
            }),
    {
        self.storage_tracker.start(usage);
    }

    /// Closes the open measurement scope on this entry's meter at the given
    /// usage reading of the external store.
    pub fn stop_storage_tracker(&mut self, usage: u64)
        requires
            old(self).storage_tracker.baseline is Some,
            usage >= old(self).storage_tracker.baseline->0 ==> old(self).storage_tracker.bytes_added
                + (usage - old(self).storage_tracker.baseline->0) <= u64::MAX,
            usage < old(self).storage_tracker.baseline->0 ==> old(
                self,
            ).storage_tracker.bytes_released + (old(self).storage_tracker.baseline->0 - usage)
                <= u64::MAX,
        ensures
            *final(self) == (Account {
                storage_tracker: old(self).storage_tracker.spec_stop(usage),
                ..*old(self)
            }),
    {
        self.storage_tracker.stop(usage);
    }

    /// Checks the collateralization invariant at price `byte_cost`.
    pub fn check_storage_covered(&self, byte_cost: u128) -> (r: Result<(), StorageError>)
        ensures
            r is Ok <==> self.covered(byte_cost),
            r is Err ==> r == Err::<(), StorageError>(StorageError::StorageNotCovered),
    {
        match (self.used_bytes as u128).checked_mul(byte_cost) {
            Some(needed) => {
                if needed <= self.storage_balance {
                    Ok(())
                } else {
                    Err(StorageError::StorageNotCovered)
                }
            },
            None => Err(StorageError::StorageNotCovered),
        }
    }
}

impl Contract {
    /// Fetches the principal's ledger entry from the store.
    pub fn internal_get_account(&self, account_id: &str) -> (r: Result<Account, StorageError>)
        ensures
            self@.contains_key(account_id@) ==> r == Ok::<Account, StorageError>(
                self@[account_id@],
            ),
            !self@.contains_key(account_id@) ==> r == Err::<Account, StorageError>(
                StorageError::NotFound,
            ),
    {
        match self.accounts.get(account_id) {
            Some(account) => Ok(*account),
            None => Err(StorageError::NotFound),
        }
    }

    /// Creates and persists a fresh ledger entry for the principal. The
    /// deposit must reach the minimum storage balance; with
    /// `registration_only` the entry's balance is capped at that minimum and
    /// the returned remainder is owed back to the depositing party.
    pub fn internal_create_account(
        &mut self,
        account_id: &str,
        storage_deposit: u128,
        registration_only: bool,
        byte_cost: u128,
    ) -> (r: Result<u128, StorageError>)
        requires
            spec_min_balance(byte_cost) <= u128::MAX,
        ensures
            storage_deposit < spec_min_balance(byte_cost) ==> r == Err::<u128, StorageError>(
                StorageError::InsufficientDeposit,
            ) && final(self)@ == old(self)@,
            storage_deposit >= spec_min_balance(byte_cost) ==> {
                &&& r is Ok
                &&& r->Ok_0 == if registration_only {
                    storage_deposit - spec_min_balance(byte_cost)
                } else {
                    0int
                }
                &&& final(self)@ == old(self)@.insert(
                    account_id@,
                    (Account {
                        storage_balance: (if registration_only {
                            spec_min_balance(byte_cost) as u128
                        } else {
                            storage_deposit
                        }),
                        used_bytes: 0,
                        storage_tracker: (StorageTracker {
                            bytes_added: 0,
                            bytes_released: 0,
                            baseline: None,
                        }),
                    }),
                )
            },
            old(self).wf() ==> final(self).wf(),
            old(self).all_covered(byte_cost) ==> final(self).all_covered(byte_cost),
    {
        let min_balance = (MIN_STORAGE_BYTES as u128) * byte_cost;
        if storage_deposit < min_balance {
            return Err(StorageError::InsufficientDeposit);
        }
        let mut account = Account::new();
        let mut refund: u128 = 0;
        if registration_only {
            refund = storage_deposit - min_balance;
            account.storage_balance = min_balance;
        } else {
            account.storage_balance = storage_deposit;
        }
        match self.internal_set_account(account_id, account, byte_cost) {
            Ok(_) => Ok(refund),
            Err(e) => Err(e),
        }
    }

    /// Fetches the principal's entry, creating one from the deposit if none
    /// exists yet; for an existing entry the deposit is added to the returned
    /// copy's balance, which is persisted only by a later store. The two
    /// paths are deliberately distinct: only first-time creation checks the
    /// minimum storage balance here.
    pub fn internal_unwrap_account_or_create(
        &mut self,
        account_id: &str,
        storage_deposit: u128,
        byte_cost: u128,
    ) -> (r: Result<Account, StorageError>)
        requires
            spec_min_balance(byte_cost) <= u128::MAX,
            old(self)@.contains_key(account_id@) ==> old(self)@[account_id@].storage_balance
                + storage_deposit <= u128::MAX,
        ensures
            !valid_principal(account_id@) ==> r == Err::<Account, StorageError>(
                StorageError::InvalidPrincipal,
            ) && final(self)@ == old(self)@,
            valid_principal(account_id@) && old(self)@.contains_key(account_id@) ==> {
                &&& r is Ok
                &&& r->Ok_0 == (Account {
                    storage_balance: (old(self)@[account_id@].storage_balance
                        + storage_deposit) as u128,
                    ..old(self)@[account_id@]
                })
                &&& final(self)@ == old(self)@
            },
            valid_principal(account_id@) && !old(self)@.contains_key(account_id@)
                && storage_deposit < spec_min_balance(byte_cost) ==> r == Err::<
                Account,
                StorageError,
            >(StorageError::InsufficientDeposit) && final(self)@ == old(self)@,
            valid_principal(account_id@) && !old(self)@.contains_key(account_id@)
                && storage_deposit >= spec_min_balance(byte_cost) ==> {
                &&& r is Ok
                &&& r->Ok_0 == (Account {
                    storage_balance: storage_deposit,
                    used_bytes: 0,
                    storage_tracker: (StorageTracker {
                        bytes_added: 0,
                        bytes_released: 0,
                        baseline: None,
                    }),
                })
                &&& final(self)@ == old(self)@.insert(account_id@, r->Ok_0)
            },
            old(self).wf() ==> final(self).wf(),
            old(self).all_covered(byte_cost) ==> final(self).all_covered(byte_cost),
    {
        if !is_valid_principal(account_id) {
            return Err(StorageError::InvalidPrincipal);
        }
        if !self.accounts.contains_key(account_id) {
            match self.internal_create_account(account_id, storage_deposit, false, byte_cost) {
                Ok(_) => (),
                Err(e) => {
                    return Err(e);
                },
            }
            self.internal_get_account(account_id)
        } else {
            let mut account = match self.internal_get_account(account_id) {
                Ok(account) => account,
                Err(e) => {
                    return Err(e);
                },
            };
            account.storage_balance = account.storage_balance + storage_deposit;
            Ok(account)
        }
    }

    /// Reconciles the entry's meter into its committed usage and persists the
    /// entry, the central invariant-enforcing step:
    /// a net addition must leave the entry covered at `byte_cost`, a net
    /// release must not exceed the committed usage, and the meter's counters
    /// are reset. On any error nothing is stored. Returns whether an entry
    /// for the principal already existed.
    pub fn internal_set_account(
        &mut self,
        account_id: &str,
        account: Account,
        byte_cost: u128,
    ) -> (r: Result<bool, StorageError>)
        requires
            account.used_bytes + account.storage_tracker.bytes_added
                - account.storage_tracker.bytes_released <= u64::MAX,
        ensures
            account.spec_reconcile(byte_cost) is Ok ==> {
                &&& r is Ok
                &&& r->Ok_0 == old(self)@.contains_key(account_id@)
                &&& final(self)@ == old(self)@.insert(
                    account_id@,
                    account.spec_reconcile(byte_cost)->Ok_0,
                )
            },
            account.spec_reconcile(byte_cost) is Err ==> {
                &&& r is Err
                &&& r->Err_0 == account.spec_reconcile(byte_cost)->Err_0
                &&& final(self)@ == old(self)@
            },
            old(self).wf() ==> final(self).wf(),
            r is Ok && (account.covered(byte_cost) || account.net_delta() > 0)
                ==> final(self)@[account_id@].covered(byte_cost),
            r is Ok && old(self).all_covered(byte_cost) && (account.covered(byte_cost)
                || account.net_delta() > 0) ==> final(self).all_covered(byte_cost),
    {
        let mut account = account;
        let ghost orig = account;
        let added = account.storage_tracker.bytes_added;
        let released = account.storage_tracker.bytes_released;
        if added > released {
            let extra_bytes_used = added - released;
            account.used_bytes = account.used_bytes + extra_bytes_used;
            match account.check_storage_covered(byte_cost) {
                Ok(_) => (),
                Err(e) => {
                    return Err(e);
                },
            }
        } else if added < released {
            let bytes_released = released - added;
            if account.used_bytes < bytes_released {
                return Err(StorageError::InternalAccountingError);
            }
            account.used_bytes = account.used_bytes - bytes_released;
        }
        account.storage_tracker.bytes_added = 0;
        account.storage_tracker.bytes_released = 0;
        proof {
            // A net release can only shrink the priced usage.
            if account.used_bytes <= orig.used_bytes {
                vstd::arithmetic::mul::lemma_mul_inequality(
                    account.used_bytes as int,
                    orig.used_bytes as int,
                    byte_cost as int,
                );
            }
        }
        let existed = self.accounts.contains_key(account_id);
        self.accounts.insert(account_id.to_owned(), account);
        proof {
            if orig.covered(byte_cost) || orig.net_delta() > 0 {
                assert(account.covered(byte_cost));
            }
            if old(self).all_covered(byte_cost) && (orig.covered(byte_cost) || orig.net_delta()
                > 0) {
                assert forall|p: Seq<char>| #[trigger] self@.contains_key(p) implies self@[p].covered(
                    byte_cost,
                ) by {
                    if p == account_id@ {
                    } else {
                        assert(old(self)@.contains_key(p));
                    }
                }
                assert(self.all_covered(byte_cost));
            }
        }
        Ok(existed)
    }
}

} // verus!
