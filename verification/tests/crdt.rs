use terachat_core::crdt::dag::{DagNode, DagNodeType};
use terachat_core::crdt::error::SyncError;
use terachat_core::crypto::error::CryptoError;
use uuid::Uuid;

#[test]
fn test_dag_node_creation() {
    let workspace = Uuid::now_v7();
    let payload = b"encrypted content".to_vec();
    let node = DagNode::new(workspace.as_u128(), vec![], DagNodeType::Message, payload.clone(), 1);

    assert!(!Uuid::from_u128(node.id).is_nil());
    assert_eq!(node.parents.len(), 0);
    assert_eq!(node.workspace_id, workspace.as_u128());
    assert_eq!(node.node_type, DagNodeType::Message);
    let expected_hash = blake3::hash(&payload);
    assert_eq!(&node.content_hash, expected_hash.as_bytes());
}

#[test]
fn test_dag_node_with_parents() {
    let workspace = Uuid::now_v7();
    let parent = Uuid::now_v7();
    let node = DagNode::new(
        workspace.as_u128(),
        vec![parent.as_u128()],
        DagNodeType::Edit,
        b"edited".to_vec(),
        2,
    );

    assert_eq!(node.parents, vec![parent.as_u128()]);
    assert_eq!(node.node_type, DagNodeType::Edit);
}

#[test]
fn dag_node_id_is_uuid_v7() {
    let node = DagNode::new(7, vec![1, 2], DagNodeType::Tombstone, vec![], 9);
    let id = Uuid::from_u128(node.id);
    assert_eq!(id.get_version_num(), 7);
    assert_eq!(id.get_variant(), uuid::Variant::RFC4122);
    assert_eq!(node.encrypted_payload, Vec::<u8>::new());
    assert_eq!(node.monotonic_tick, 9);
    assert_eq!(node.parents, vec![1, 2]);
}

#[test]
fn dag_content_hash_exact_values() {
    let node = DagNode::new(1, vec![], DagNodeType::Message, vec![], 0);
    // BLAKE3 of the empty input.
    let expected: [u8; 32] = [
        0xaf, 0x13, 0x49, 0xb9, 0xf5, 0xf9, 0xa1, 0xa6, 0xa0, 0x40, 0x4d, 0xea, 0x36, 0xdc, 0xc9, 0x49,
        0x9b, 0xcb, 0x25, 0xc9, 0xad, 0xc1, 0x12, 0xb7, 0xcc, 0x9a, 0x93, 0xca, 0xe4, 0x1f, 0x32, 0x62,
    ];
    assert_eq!(node.content_hash, expected);
    // Equal payloads give equal hashes; the identifiers still differ.
    let a = DagNode::new(1, vec![], DagNodeType::Presence, b"same".to_vec(), 1);
    let b = DagNode::new(2, vec![], DagNodeType::SystemEvent, b"same".to_vec(), 2);
    assert_eq!(a.content_hash, b.content_hash);
    assert_ne!(a.id, b.id);
    let c = DagNode::new(1, vec![], DagNodeType::Message, b"other".to_vec(), 1);
    assert_ne!(a.content_hash, c.content_hash);
}

#[test]
fn dag_node_from_parts_keeps_fields() {
    let node = DagNode::from_parts(5, [3; 32], 6, vec![8], DagNodeType::Edit, vec![1, 2, 3], 4);
    assert_eq!(node.id, 5);
    assert_eq!(node.content_hash, [3; 32]);
    assert_eq!(node.workspace_id, 6);
    assert_eq!(node.parents, vec![8]);
    assert_eq!(node.encrypted_payload, vec![1, 2, 3]);
    assert_eq!(node.monotonic_tick, 4);
}

#[test]
fn sync_error_from_crypto_error() {
    let e = SyncError::from(CryptoError::DecryptionFailed);
    assert!(matches!(e, SyncError::Crypto(CryptoError::DecryptionFailed)));
}
