//! Per-principal storage-rent accounting.
//!
//! The engine meters how many bytes of persistent state each principal causes
//! the external store to allocate or free during a scoped operation, and
//! enforces that every principal's escrowed storage balance covers its
//! committed byte usage at the externally supplied price per byte.
//!
//! Host facilities are injected as plain values: the external store's
//! total-usage readings, the price per byte, the caller's identity and the
//! attached payment come in as arguments, and every amount the host must
//! transfer back to a principal goes out as a result. The durable per-principal
//! ledger is held behind a string-keyed map abstraction.

use vstd::prelude::*;

pub mod account;
pub mod errors;
pub mod laws;
pub mod principal;
pub mod scope;
pub mod storage_management;
pub mod storage_tracker;

use crate::account::Account;
use vstd::hash_map::StringHashMap;

verus! {

/// The accounting engine: at most one ledger entry per principal identifier,
/// addressed by the principal's unique identifier string.
pub struct Contract {
    pub(crate) accounts: StringHashMap<Account>,
}

impl View for Contract {
    type V = Map<Seq<char>, Account>;

    /// The ledger as a map from principal identifier to its entry.
    closed spec fn view(&self) -> Map<Seq<char>, Account> {
        self.accounts@
    }
}

impl Contract {
    /// Every stored entry carries an empty meter: byte deltas are reconciled
    /// into `used_bytes` whenever an entry is persisted, never stored raw.
    pub open spec fn wf(self) -> bool {
        forall|p: Seq<char>| #[trigger]
            self@.contains_key(p) ==> self@[p].storage_tracker.counters_zero()
    }

    /// The collateralization invariant over the whole ledger: every stored
    /// entry's committed usage, priced at `byte_cost`, is covered by its
    /// escrowed balance.
    pub open spec fn all_covered(self, byte_cost: u128) -> bool {
        forall|p: Seq<char>| #[trigger] self@.contains_key(p) ==> self@[p].covered(byte_cost)
    }

    /// Creates an engine with an empty ledger.
    pub fn new() -> (c: Contract)
        ensures
            c@ == Map::<Seq<char>, Account>::empty(),
            c.wf(),
    {
        Contract { accounts: StringHashMap::new() }
    }
}

impl Default for Contract {
    /// An engine with an empty ledger.
    fn default() -> (c: Contract)
        ensures
            c@ == Map::<Seq<char>, Account>::empty(),
            c.wf(),
    {
        Contract::new()
    }
}

} // verus!
