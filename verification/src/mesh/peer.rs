//! Mesh peer management.

use vstd::prelude::*;

verus! {

/// Peer role in the mesh network.
#[derive(Debug, Clone, Copy, PartialEq, Eq, Structural)]
pub enum MeshRole {
    /// Mesh coordinator: manages the routing table.
    Coordinator,
    /// Regular peer: participates in store-and-forward.
    Peer,
    /// Border node: bridges the mesh to the internet when available.
    BorderNode,
}

/// Peer identity in the mesh network.
#[derive(Debug, Clone)]
pub struct MeshPeer {
    /// Device identity key fingerprint (derived from the Secure Enclave key).
    pub device_fingerprint: [u8; 32],
    /// Current mesh role.
    pub role: MeshRole,
    /// Election weight: always 0 for iOS.
    pub election_weight: u8,
    /// Whether this peer is reachable via BLE.
    pub is_ble_reachable: bool,
    /// Whether this peer is reachable via Wi-Fi Direct.
    pub is_wifi_direct_reachable: bool,
}

/// What an iOS peer is.
pub open spec fn ios_peer_post(device_fingerprint: [u8; 32], p: MeshPeer) -> bool {
    &&& p.device_fingerprint == device_fingerprint
    &&& p.role == MeshRole::Peer
    &&& p.election_weight == 0
    &&& p.is_ble_reachable
    &&& !p.is_wifi_direct_reachable
}

/// An iOS device never coordinates the mesh: its peer is a regular peer
/// (neither coordinator nor border node) with election weight 0, reachable
/// over BLE and not over Wi-Fi Direct, identified by its own fingerprint.
pub proof fn law_ios_peer_never_coordinates(device_fingerprint: [u8; 32], p: MeshPeer)
    requires
        ios_peer_post(device_fingerprint, p),
    ensures
        p.election_weight == 0,
        !(p.role is Coordinator) && !(p.role is BorderNode),
        p.is_ble_reachable && !p.is_wifi_direct_reachable,
        p.device_fingerprint == device_fingerprint,
{
}

impl MeshPeer {
    /// An iOS peer: a regular peer reachable over BLE only, with election
    /// weight 0. iOS cannot coordinate the mesh, because AWDL is disabled
    /// while Personal Hotspot is active.
    pub fn new_ios_peer(device_fingerprint: [u8; 32]) -> (p: Self)
        ensures
            p.device_fingerprint == device_fingerprint,
            p.role == MeshRole::Peer,
            p.election_weight == 0,
            p.is_ble_reachable,
            !p.is_wifi_direct_reachable,
            ios_peer_post(device_fingerprint, p),
    {
        MeshPeer {
            device_fingerprint,
            role: MeshRole::Peer,
            election_weight: 0,
            is_ble_reachable: true,
            is_wifi_direct_reachable: false,
        }
    }
}

} // verus!
