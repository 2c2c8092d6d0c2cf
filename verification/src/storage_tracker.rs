//! Scoped byte-delta meter.
//!
//! A `StorageTracker` measures the net change in bytes consumed by the
//! external store across one scoped operation. The store's total-usage
//! readings are supplied by the caller; the meter itself is purely arithmetic
//! and has no external effects.

use vstd::prelude::*;

verus! {

/// Meters the byte delta of one measurement scope.
///
/// Between `start` and the matching `stop` exactly one baseline reading is
/// held. Growth is accumulated into `bytes_added`, shrinkage into
/// `bytes_released`. The meter is never persisted: a freshly loaded ledger
/// entry always carries a clear meter.
#[derive(Clone, Copy)]
pub struct StorageTracker {
    /// Bytes the measured scopes added to the external store, in total.
    pub bytes_added: u64,
    /// Bytes the measured scopes released from the external store, in total.
    pub bytes_released: u64,
    /// Usage reading taken at scope start; `None` while no scope is open.
    pub baseline: Option<u64>,
}

impl StorageTracker {
    /// Both counters empty and no scope open: the state of a freshly created
    /// or just-reconciled meter.
    pub open spec fn is_clear(self) -> bool {
        self.bytes_added == 0 && self.bytes_released == 0 && self.baseline is None
    }

    /// Both delta counters are zero; a scope may still be open.
    pub open spec fn counters_zero(self) -> bool {
        self.bytes_added == 0 && self.bytes_released == 0
    }

    /// The meter after a scope is opened at usage reading `usage`.
    pub open spec fn spec_start(self, usage: u64) -> StorageTracker {
        StorageTracker { baseline: Some(usage), ..self }
    }

    /// The meter after the open scope is closed at usage reading `usage`:
    /// growth since the baseline goes to `bytes_added`, shrinkage to
    /// `bytes_released`, and the baseline is given up.
    pub open spec fn spec_stop(self, usage: u64) -> StorageTracker {
        let base = self.baseline->0;
        if usage >= base {
            StorageTracker {
                bytes_added: (self.bytes_added + (usage - base)) as u64,
                bytes_released: self.bytes_released,
                baseline: None,
            }
        } else {
            StorageTracker {
                bytes_added: self.bytes_added,
                bytes_released: (self.bytes_released + (base - usage)) as u64,
                baseline: None,
            }
        }
    }

    /// Creates a clear meter.
    pub fn new() -> (t: StorageTracker)
        ensures
            t.is_clear(),
    {
        StorageTracker { bytes_added: 0, bytes_released: 0, baseline: None }
    }

    /// Opens a measurement scope by recording the current total byte usage of
    /// the external store as the baseline. Opening a scope while one is
    /// already open is a logic error and is excluded by precondition.
    pub fn start(&mut self, usage: u64)
        requires
            old(self).baseline is None,
        ensures
            *final(self) == old(self).spec_start(usage),
    {
        self.baseline = Some(usage);
    }

    /// Closes the open measurement scope at the current total byte usage of
    /// the external store, accumulating the delta against the baseline.
    /// A net-zero scope is valid and leaves both counters unchanged.
    /// Closing while no scope is open is a logic error and is excluded by
    /// precondition.
    pub fn stop(&mut self, usage: u64)
        requires
            old(self).baseline is Some,
            usage >= old(self).baseline->0 ==> old(self).bytes_added + (usage
                - old(self).baseline->0) <= u64::MAX,
            usage < old(self).baseline->0 ==> old(self).bytes_released + (old(self).baseline->0
                - usage) <= u64::MAX,
        ensures
            *final(self) == old(self).spec_stop(usage),
    {
        let base = self.baseline.unwrap();
        if usage >= base {
            self.bytes_added = self.bytes_added + (usage - base);
        } else {
            self.bytes_released = self.bytes_released + (base - usage);
        }
        self.baseline = None;
    }
}

impl Default for StorageTracker {
    /// A clear meter, as a freshly created ledger entry carries.
    fn default() -> (t: StorageTracker)
        ensures
            t.is_clear(),
    {
        StorageTracker::new()
    }
}

} // verus!
