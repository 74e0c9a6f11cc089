use std::time::Duration;
use terachat_core::crypto::error::CryptoError;
use terachat_core::mesh::error::MeshError;
use terachat_core::mesh::multiplexer::{MeshPriority, MultiplexerConfig};
use terachat_core::mesh::peer::{MeshPeer, MeshRole};

#[test]
fn test_priority_ordering() {
    assert!(MeshPriority::Critical < MeshPriority::Standard);
    assert!(MeshPriority::Standard < MeshPriority::Bulk);
}

#[test]
fn test_default_config() {
    let config = MultiplexerConfig::default();
    assert_eq!(config.backpressure_engage_rtt, Duration::from_millis(200));
    assert_eq!(config.backpressure_release_rtt, Duration::from_millis(100));
}

#[test]
fn default_config_release_sustain_is_five_seconds() {
    let config = MultiplexerConfig::default();
    assert_eq!(config.backpressure_release_sustain, Duration::from_secs(5));
}

#[test]
fn test_ios_peer_election_weight_zero() {
    let peer = MeshPeer::new_ios_peer([0xAA; 32]);
    assert_eq!(peer.election_weight, 0, "iOS election_weight MUST be 0");
    assert_eq!(peer.role, MeshRole::Peer);
}

#[test]
fn ios_peer_reachability() {
    let peer = MeshPeer::new_ios_peer([0x01; 32]);
    assert_eq!(peer.device_fingerprint, [0x01; 32]);
    assert!(peer.is_ble_reachable);
    assert!(!peer.is_wifi_direct_reachable);
}

#[test]
fn mesh_error_from_crypto_error() {
    let e = MeshError::from(CryptoError::KeyNotFound);
    assert!(matches!(e, MeshError::Crypto(CryptoError::KeyNotFound)));
}
