//! The management surface of the accounting engine.
//!
//! Deposit, withdrawal, unregistration and the balance views, as exposed to
//! callers. The caller's identity, the attached payment and the price per
//! byte are injected as arguments; every amount the host must transfer back
//! to a principal (a registration refund, a withdrawal) is returned as a
//! plain value for the surrounding host code to pay out.

use vstd::prelude::*;

use crate::account::spec_min_balance;
use crate::account::Account;
use crate::account::MIN_STORAGE_BYTES;
use crate::errors::StorageError;
use crate::principal::valid_principal;
use crate::storage_tracker::StorageTracker;
use crate::Contract;

verus! {

/// Total and still-available escrowed balance of one ledger entry.
#[derive(Clone, Copy, Debug, PartialEq, Eq, Structural)]
pub struct StorageBalance {
    /// The whole escrowed balance.
    pub total: u128,
    /// What remains above the cost of committed usage.
    pub available: u128,
}

/// The bounds on acceptable escrow: a minimum to register, and no maximum.
#[derive(Clone, Copy, Debug)]
pub struct StorageBalanceBounds {
    /// The minimum escrow required to register.
    pub min: u128,
    /// No upper bound on escrow is imposed.
    pub max: Option<u128>,
}

/// The principal a deposit targets: the named account, else the caller.
pub open spec fn spec_target(caller: &str, account_id: Option<&str>) -> Seq<char> {
    match account_id {
        Some(id) => id@,
        None => caller@,
    }
}

/// Outcome of a deposit against the ledger `m`: either an error, with the
/// ledger unchanged, or the updated entry for `user` together with the refund
/// owed back to the depositing party. A deposit below the minimum storage
/// balance is rejected; with `registration_only` the entry's balance is set
/// to exactly that minimum and the rest refunded, otherwise the deposit is
/// added to the prior balance (zero for a fresh entry). An entry whose
/// committed usage the resulting balance would no longer cover is rejected
/// and nothing is persisted.
pub open spec fn spec_deposit(
    m: Map<Seq<char>, Account>,
    user: Seq<char>,
    registration_only: bool,
    attached_deposit: u128,
    byte_cost: u128,
) -> Result<(Account, u128), StorageError> {
    let min = spec_min_balance(byte_cost);
    if attached_deposit < min {
        Err(StorageError::InsufficientDeposit)
    } else if !valid_principal(user) {
        Err(StorageError::InvalidPrincipal)
    } else {
        let prior = if m.contains_key(user) {
            m[user]
        } else {
            Account {
                storage_balance: 0,
                used_bytes: 0,
                storage_tracker: StorageTracker {
                    bytes_added: 0,
                    bytes_released: 0,
                    baseline: None,
                },
            }
        };
        let entry = Account {
            storage_balance: if registration_only {
                min as u128
            } else {
                (prior.storage_balance + attached_deposit) as u128
            },
            ..prior
        };
        let refund = if registration_only {
            (attached_deposit - min) as u128
        } else {
            0u128
        };
        if !entry.covered(byte_cost) {
            Err(StorageError::StorageNotCovered)
        } else {
            Ok((entry, refund))
        }
    }
}

/// Outcome of a withdrawal against the ledger `m`: either an error, with the
/// ledger unchanged, or the caller's entry with the amount taken off its
/// balance. A withdrawal whose remaining balance would no longer cover the
/// committed usage is rejected and nothing is persisted.
pub open spec fn spec_withdraw(
    m: Map<Seq<char>, Account>,
    user: Seq<char>,
    amount: u128,
    byte_cost: u128,
) -> Result<Account, StorageError> {
    if !m.contains_key(user) {
        Err(StorageError::NotFound)
    } else {
        let prior = m[user];
        if prior.storage_balance < amount {
            Err(StorageError::InsufficientBalance)
        } else {
            let entry = Account {
                storage_balance: (prior.storage_balance - amount) as u128,
                ..prior
            };
            if !entry.covered(byte_cost) {
                Err(StorageError::StorageNotCovered)
            } else {
                Ok(entry)
            }
        }
    }
}

impl Contract {
    /// Deposits the attached payment into the target principal's entry,
    /// creating the entry if none exists. Returns the resulting balance pair
    /// and the refund owed back to the depositing party (zero unless
    /// `registration_only` leaves a remainder). Errors leave the ledger
    /// unchanged.
    pub fn storage_deposit(
        &mut self,
        caller: &str,
        account_id: Option<&str>,
        registration_only: Option<bool>,
        attached_deposit: u128,
        byte_cost: u128,
    ) -> (r: Result<(StorageBalance, u128), StorageError>)
        requires
            old(self).wf(),
            spec_min_balance(byte_cost) <= u128::MAX,
            old(self)@.contains_key(spec_target(caller, account_id)) ==> old(self)@[spec_target(
                caller,
                account_id,
            )].storage_balance + attached_deposit <= u128::MAX,
        ensures
            ({
                let user = spec_target(caller, account_id);
                let reg = match registration_only {
                    Some(b) => b,
                    None => false,
                };
                match spec_deposit(old(self)@, user, reg, attached_deposit, byte_cost) {
                    Err(e) => r is Err && r->Err_0 == e && final(self)@ == old(self)@,
                    Ok((entry, refund)) => {
                        &&& r is Ok
                        &&& r->Ok_0.0 == (StorageBalance {
                            total: entry.storage_balance,
                            available: entry.spec_available(byte_cost) as u128,
                        })
                        &&& r->Ok_0.1 == refund
                        &&& final(self)@ == old(self)@.insert(user, entry)
                    },
                }
            }),
            final(self).wf(),
            r is Ok && old(self).all_covered(byte_cost) ==> final(self).all_covered(byte_cost),
    {
        let user = match account_id {
            Some(id) => id,
            None => caller,
        };
        let registration_only = match registration_only {
            Some(b) => b,
            None => false,
        };
        let min_balance = (MIN_STORAGE_BYTES as u128) * byte_cost;
        if attached_deposit < min_balance {
            return Err(StorageError::InsufficientDeposit);
        }
        let mut account = match self.internal_unwrap_account_or_create(
            user,
            attached_deposit,
            byte_cost,
        ) {
            Ok(account) => account,
            Err(e) => {
                return Err(e);
            },
        };
        let mut refund: u128 = 0;
        if registration_only {
            refund = attached_deposit - min_balance;
            account.storage_balance = min_balance;
        }
        // The resulting balance must still cover the committed usage, whose
        // cost the available balance read out below carries; nothing may be
        // persisted otherwise.
        match account.check_storage_covered(byte_cost) {
            Ok(_) => (),
            Err(e) => {
                return Err(e);
            },
        }
        match self.internal_set_account(user, account, byte_cost) {
            Ok(_) => (),
            Err(e) => {
                return Err(e);
            },
        }
        proof {
            assert(self@ =~= old(self)@.insert(spec_target(caller, account_id), account));
            if old(self).all_covered(byte_cost) {
                assert forall|p: Seq<char>| #[trigger] self@.contains_key(p) implies self@[p].covered(
                    byte_cost,
                ) by {
                    if p != spec_target(caller, account_id) {
                        assert(old(self)@.contains_key(p));
                    }
                }
            }
        }
        let needed = (account.used_bytes as u128) * byte_cost;
        Ok(
            (
                StorageBalance {
                    total: account.storage_balance,
                    available: account.storage_balance - needed,
                },
                refund,
            ),
        )
    }

    /// Takes `amount` off the calling principal's escrowed balance and
    /// returns the resulting balance pair together with the amount the host
    /// must transfer back to the caller. Errors leave the ledger unchanged.
    /// A withdrawal whose remaining balance would no longer cover the
    /// committed usage is rejected as not covered.
    pub fn storage_withdraw(
        &mut self,
        caller: &str,
        amount: Option<u128>,
        byte_cost: u128,
    ) -> (r: Result<(StorageBalance, u128), StorageError>)
        requires
            old(self).wf(),
            amount is Some,
        ensures
            ({
                match spec_withdraw(old(self)@, caller@, amount->0, byte_cost) {
                    Err(e) => r is Err && r->Err_0 == e && final(self)@ == old(self)@,
                    Ok(entry) => {
                        &&& r is Ok
                        &&& r->Ok_0.0 == (StorageBalance {
                            total: entry.storage_balance,
                            available: entry.spec_available(byte_cost) as u128,
                        })
                        &&& r->Ok_0.1 == amount->0
                        &&& final(self)@ == old(self)@.insert(caller@, entry)
                    },
                }
            }),
            final(self).wf(),
            r is Ok && old(self).all_covered(byte_cost) ==> final(self).all_covered(byte_cost),
    {
        let amount_to_withdraw = amount.unwrap();
        let mut account = match self.internal_get_account(caller) {
            Ok(account) => account,
            Err(e) => {
                return Err(e);
            },
        };
        if account.storage_balance < amount_to_withdraw {
            return Err(StorageError::InsufficientBalance);
        }
        account.storage_balance = account.storage_balance - amount_to_withdraw;
        // The remaining balance must still cover the committed usage, whose
        // cost the available balance read out below carries; nothing may be
        // persisted otherwise.
        match account.check_storage_covered(byte_cost) {
            Ok(_) => (),
            Err(e) => {
                return Err(e);
            },
        }
        match self.internal_set_account(caller, account, byte_cost) {
            Ok(_) => (),
            Err(e) => {
                return Err(e);
            },
        }
        proof {
            if old(self).all_covered(byte_cost) {
                assert forall|p: Seq<char>| #[trigger] self@.contains_key(p) implies self@[p].covered(
                    byte_cost,
                ) by {
                    if p != caller@ {
                        assert(old(self)@.contains_key(p));
                    }
                }
            }
        }
        let needed = (account.used_bytes as u128) * byte_cost;
        Ok(
            (
                StorageBalance {
                    total: account.storage_balance,
                    available: account.storage_balance - needed,
                },
                amount_to_withdraw,
            ),
        )
    }

    /// Removes the calling principal's entry. With committed usage left, the
    /// removal must be forced; a forced removal abandons the bytes still
    /// allocated in the external store, and their cost is not clawed back.
    pub fn storage_unregister(&mut self, caller: &str, force: Option<bool>) -> (r: Result<
        bool,
        StorageError,
    >)
        ensures
            !old(self)@.contains_key(caller@) ==> r == Err::<bool, StorageError>(
                StorageError::NotFound,
            ) && final(self)@ == old(self)@,
            ({
                let ledger = old(self)@;
                let forced = match force {
                    Some(b) => b,
                    None => false,
                };
                &&& (ledger.contains_key(caller@) && !forced && ledger[caller@].used_bytes > 0
                    ==> r == Err::<bool, StorageError>(StorageError::StorageNotEmpty)
                    && final(self)@ == ledger)
                &&& (ledger.contains_key(caller@) && (forced || ledger[caller@].used_bytes == 0)
                    ==> r == Ok::<bool, StorageError>(true) && final(self)@ == ledger.remove(
                    caller@,
                ))
            }),
            old(self).wf() ==> final(self).wf(),
            forall|c: u128| old(self).all_covered(c) ==> final(self).all_covered(c),
    {
        let force_unregister = match force {
            Some(b) => b,
            None => false,
        };
        let account = match self.internal_get_account(caller) {
            Ok(account) => account,
            Err(e) => {
                return Err(e);
            },
        };
        if !force_unregister && account.used_bytes > 0 {
            return Err(StorageError::StorageNotEmpty);
        }
        self.accounts.remove(caller);
        Ok(true)
    }

    /// The bounds on acceptable escrow at price `byte_cost`: the minimum
    /// storage balance, and no maximum.
    pub fn storage_balance_bounds(&self, byte_cost: u128) -> (b: StorageBalanceBounds)
        requires
            spec_min_balance(byte_cost) <= u128::MAX,
        ensures
            b.min == spec_min_balance(byte_cost),
            b.max is None,
    {
        StorageBalanceBounds { min: (MIN_STORAGE_BYTES as u128) * byte_cost, max: None }
    }

    /// The balance pair of the principal's entry, or `None` for an absent
    /// principal. An entry whose available balance would be negative is a
    /// fatal breach, reported as such rather than clamped.
    pub fn storage_balance_of(&self, account_id: &str, byte_cost: u128) -> (r: Result<
        Option<StorageBalance>,
        StorageError,
    >)
        ensures
            !self@.contains_key(account_id@) ==> r == Ok::<Option<StorageBalance>, StorageError>(
                None,
            ),
            self@.contains_key(account_id@) && self@[account_id@].covered(byte_cost) ==> r == Ok::<
                Option<StorageBalance>,
                StorageError,
            >(
                Some(
                    StorageBalance {
                        total: self@[account_id@].storage_balance,
                        available: self@[account_id@].spec_available(byte_cost) as u128,
                    },
                ),
            ),
            self@.contains_key(account_id@) && !self@[account_id@].covered(byte_cost) ==> r
                == Err::<Option<StorageBalance>, StorageError>(StorageError::InternalAccountingError),
    {
        let account = match self.internal_get_account(account_id) {
            Ok(account) => account,
            Err(_) => {
                return Ok(None);
            },
        };
        match account.check_storage_covered(byte_cost) {
            Ok(_) => (),
            Err(_) => {
                return Err(StorageError::InternalAccountingError);
            },
        }
        let needed = (account.used_bytes as u128) * byte_cost;
        Ok(
            Some(
                StorageBalance {
                    total: account.storage_balance,
                    available: account.storage_balance - needed,
                },
            ),
        )
    }
}

} // verus!
