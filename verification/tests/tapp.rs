use terachat_core::crypto::error::CryptoError;
use terachat_core::store::error::StoreError;
use terachat_core::tapp::abi::{NegotiationResult, SchemaVersion};
use terachat_core::tapp::error::TappError;

#[test]
fn test_version_compatibility() {
    let v1_0 = SchemaVersion { major: 1, minor: 0, patch: 0 };
    let v1_1 = SchemaVersion { major: 1, minor: 1, patch: 0 };
    let v2_0 = SchemaVersion { major: 2, minor: 0, patch: 0 };

    assert!(v1_0.is_compatible_with(&v1_1));
    assert!(!v1_0.is_compatible_with(&v2_0));
}

#[test]
fn test_version_negotiation() {
    let host = SchemaVersion::current();

    assert_eq!(host.negotiate(&host), NegotiationResult::Compatible);

    let guest_newer = SchemaVersion { major: 1, minor: 1, patch: 0 };
    match host.negotiate(&guest_newer) {
        NegotiationResult::GuestNewer { .. } => {}
        other => panic!("expected GuestNewer, got {:?}", other),
    }

    let guest_v2 = SchemaVersion { major: 2, minor: 0, patch: 0 };
    match host.negotiate(&guest_v2) {
        NegotiationResult::IncompatibleMajor { .. } => {}
        other => panic!("expected IncompatibleMajor, got {:?}", other),
    }
}

#[test]
fn negotiation_exact_results() {
    let host = SchemaVersion { major: 1, minor: 3, patch: 7 };
    assert_eq!(
        host.negotiate(&SchemaVersion { major: 1, minor: 5, patch: 0 }),
        NegotiationResult::GuestNewer { host_minor: 3, guest_minor: 5 }
    );
    assert_eq!(
        host.negotiate(&SchemaVersion { major: 1, minor: 2, patch: 9 }),
        NegotiationResult::Compatible
    );
    assert_eq!(
        host.negotiate(&SchemaVersion { major: 0, minor: 9, patch: 0 }),
        NegotiationResult::IncompatibleMajor { host_major: 1, guest_major: 0 }
    );
    assert_eq!(SchemaVersion::current(), SchemaVersion { major: 1, minor: 0, patch: 0 });
}

#[test]
fn compatibility_is_symmetric_on_examples() {
    let a = SchemaVersion { major: 3, minor: 0, patch: 1 };
    let b = SchemaVersion { major: 3, minor: 9, patch: 0 };
    let c = SchemaVersion { major: 4, minor: 0, patch: 1 };
    assert!(a.is_compatible_with(&a));
    assert_eq!(a.is_compatible_with(&b), b.is_compatible_with(&a));
    assert_eq!(a.is_compatible_with(&c), c.is_compatible_with(&a));
}

#[test]
fn tapp_error_conversions() {
    assert!(matches!(TappError::from(CryptoError::EnclaveUnavailable), TappError::Crypto(CryptoError::EnclaveUnavailable)));
    assert!(matches!(
        TappError::from(StoreError::WalCheckpointFailed),
        TappError::Store(StoreError::WalCheckpointFailed)
    ));
    assert!(matches!(StoreError::from(CryptoError::KeyNotFound), StoreError::Crypto(CryptoError::KeyNotFound)));
    let sqlite = StoreError::from(rusqlite::Error::InvalidQuery);
    assert!(matches!(sqlite, StoreError::Sqlite(rusqlite::Error::InvalidQuery)));
}
