//! Unit tests for the byte-delta meter, ledger entries and principal
//! identifier validation.

use storage_rent::account::Account;
use storage_rent::errors::StorageError;
use storage_rent::principal::is_valid_principal;
use storage_rent::storage_tracker::StorageTracker;

/// A fresh meter is clear.
#[test]
fn fresh_meter_is_clear() {
    let tracker = StorageTracker::new();
    assert_eq!(tracker.bytes_added, 0);
    assert_eq!(tracker.bytes_released, 0);
    assert!(tracker.baseline.is_none());
    let by_default = StorageTracker::default();
    assert_eq!(by_default.bytes_added, 0);
    assert_eq!(by_default.bytes_released, 0);
    assert!(by_default.baseline.is_none());
}

/// Growth since the baseline is accumulated into the added counter.
#[test]
fn meter_records_growth() {
    let mut tracker = StorageTracker::new();
    tracker.start(1_000);
    tracker.stop(1_750);
    assert_eq!(tracker.bytes_added, 750);
    assert_eq!(tracker.bytes_released, 0);
    assert!(tracker.baseline.is_none());
}

/// Shrinkage since the baseline is accumulated into the released counter.
#[test]
fn meter_records_shrinkage() {
    let mut tracker = StorageTracker::new();
    tracker.start(1_000);
    tracker.stop(400);
    assert_eq!(tracker.bytes_added, 0);
    assert_eq!(tracker.bytes_released, 600);
}

/// A net-zero scope is valid and records nothing.
#[test]
fn meter_zero_net_scope() {
    let mut tracker = StorageTracker::new();
    tracker.start(123);
    tracker.stop(123);
    assert_eq!(tracker.bytes_added, 0);
    assert_eq!(tracker.bytes_released, 0);
}

/// Two scopes accumulate into the same counters.
#[test]
fn meter_accumulates_over_scopes() {
    let mut tracker = StorageTracker::new();
    tracker.start(0);
    tracker.stop(100);
    tracker.start(100);
    tracker.stop(40);
    assert_eq!(tracker.bytes_added, 100);
    assert_eq!(tracker.bytes_released, 60);
}

/// A fresh ledger entry has no escrow, no usage and a clear meter.
#[test]
fn fresh_account_is_empty() {
    let account = Account::new();
    assert_eq!(account.storage_balance, 0);
    assert_eq!(account.used_bytes, 0);
    assert_eq!(account.storage_tracker.bytes_added, 0);
    assert_eq!(account.storage_tracker.bytes_released, 0);
    assert!(account.storage_tracker.baseline.is_none());
}

/// The entry's scope helpers drive its own meter.
#[test]
fn account_scope_helpers() {
    let mut account = Account::new();
    account.start_storage_tracker(500);
    account.stop_storage_tracker(700);
    assert_eq!(account.storage_tracker.bytes_added, 200);
}

/// Well-formed principal identifiers are accepted.
#[test]
fn principal_accepts_well_formed() {
    assert!(is_valid_principal("alice"));
    assert!(is_valid_principal("ab"));
    assert!(is_valid_principal("a-b_c"));
    assert!(is_valid_principal("alice21"));
    assert!(is_valid_principal("0x12af"));
    assert!(is_valid_principal("alice.near"));
    assert!(is_valid_principal("sub.alice.near"));
    assert!(is_valid_principal(&"a".repeat(64)));
}

/// Ill-formed principal identifiers are rejected.
#[test]
fn principal_rejects_ill_formed() {
    assert!(!is_valid_principal(""));
    assert!(!is_valid_principal("a"));
    assert!(!is_valid_principal(&"a".repeat(65)));
    assert!(!is_valid_principal("Alice"));
    assert!(!is_valid_principal("al ice"));
    assert!(!is_valid_principal("-alice"));
    assert!(!is_valid_principal("alice-"));
    assert!(!is_valid_principal(".alice"));
    assert!(!is_valid_principal("alice."));
    assert!(!is_valid_principal("al--ice"));
    assert!(!is_valid_principal("al_-ice"));
    assert!(!is_valid_principal("al..ice"));
    assert!(!is_valid_principal("al.-ice"));
    assert!(!is_valid_principal("al,ice"));
    assert!(!is_valid_principal("ålice"));
}

/// Every error kind carries a distinct, non-empty description.
#[test]
fn error_messages_distinct() {
    let kinds = vec![
        StorageError::InvalidPrincipal,
        StorageError::NotFound,
        StorageError::InsufficientDeposit,
        StorageError::InsufficientBalance,
        StorageError::StorageNotCovered,
        StorageError::StorageNotEmpty,
        StorageError::InternalAccountingError,
    ];
    for (i, a) in kinds.iter().enumerate() {
        assert!(!a.message().is_empty());
        for (j, b) in kinds.iter().enumerate() {
            if i != j {
                assert_ne!(a.message(), b.message());
            }
        }
    }
}
