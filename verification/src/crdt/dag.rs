//! CRDT DAG node: the core record of the append-only message DAG.
//!
//! Each node references its parents, forming a directed acyclic graph. Node
//! identifiers are version 7 UUIDs (time-ordered), held as their big-endian
//! 128-bit value, and every node carries the BLAKE3 hash of its payload for
//! content addressing.

use vstd::prelude::*;

verus! {

/// Type discriminator for DAG nodes.
#[derive(Debug, Clone, Copy, PartialEq, Eq, Structural)]
pub enum DagNodeType {
    /// Chat message.
    Message,
    /// Message edit (references the original via a parent).
    Edit,
    /// Tombstone (soft delete; the original content is retained for audit).
    Tombstone,
    /// Presence update.
    Presence,
    /// System event (MLS epoch rotation, key update).
    SystemEvent,
}

/// A node in the CRDT DAG.
///
/// Each message, edit or tombstone is a node; nodes reference their parents
/// to form a DAG that merges without central coordination.
#[derive(Debug, Clone)]
pub struct DagNode {
    /// UUID v7 (time-ordered, globally unique), as its 128-bit value.
    pub id: u128,
    /// Parent node IDs: empty for root nodes.
    pub parents: Vec<u128>,
    /// BLAKE3 hash of the node content (used for deduplication).
    pub content_hash: [u8; 32],
    /// Workspace ID this node belongs to.
    pub workspace_id: u128,
    /// Node type discriminator.
    pub node_type: DagNodeType,
    /// Encrypted payload: plaintext is never stored.
    pub encrypted_payload: Vec<u8>,
    /// Timestamp (monotonic, not wall-clock).
    pub monotonic_tick: u64,
}

/// The version field of a UUID: the high nibble of its seventh byte.
pub open spec fn uuid_version(id: u128) -> u128 {
    (id >> 76u128) & 0xfu128
}

/// The variant field of a UUID: the top two bits of its ninth byte.
pub open spec fn uuid_variant(id: u128) -> u128 {
    (id >> 62u128) & 0x3u128
}

/// A version 7 UUID of the RFC 4122 variant.
pub open spec fn is_uuid_v7(id: u128) -> bool {
    uuid_version(id) == 7 && uuid_variant(id) == 2
}

/// The BLAKE3 digest of `input`, as `blake3::hash` computes it.
pub uninterp spec fn blake3_digest(input: Seq<u8>) -> Seq<u8>;

/// Hashes `input` with `blake3::hash` and returns the 32 bytes of the
/// digest. The contract names the digest; it is a function of the input
/// alone.
#[verifier::external_body]
fn blake3_hash(input: &[u8]) -> (digest: [u8; 32])
    ensures
        digest@ == blake3_digest(input@),
{
    *blake3::hash(input).as_bytes()
}

/// A fresh identifier from `uuid::Uuid::now_v7`, as the UUID's big-endian
/// 128-bit value. The uuid crate's source writes 7 into the version nibble
/// and the RFC 4122 variant (binary 10) into the variant bits; the other bits
/// hold the current Unix time in milliseconds, a counter and random bits, of
/// which nothing is stated. The crate panics when the system clock reads
/// before the Unix epoch or the operating system yields no random bytes;
/// those are conditions of the machine, which no precondition can name.
#[verifier::external_body]
fn new_v7_id() -> (id: u128)
    ensures
        is_uuid_v7(id),
{
    uuid::Uuid::now_v7().as_u128()
}

/// A version 7 UUID is never the nil UUID.
pub proof fn lemma_v7_id_not_nil(id: u128)
    requires
        is_uuid_v7(id),
    ensures
        id != 0,
{
    assert(((id >> 76u128) & 0xfu128) == 7 ==> id != 0) by (bit_vector);
}

/// Content addressing: the content hash is a function of the payload alone,
/// so nodes with equal payloads carry equal hashes and deduplicate.
pub proof fn law_equal_payloads_equal_hashes(a: DagNode, b: DagNode)
    requires
        a.content_hash@ == blake3_digest(a.encrypted_payload@),
        b.content_hash@ == blake3_digest(b.encrypted_payload@),
        a.encrypted_payload@ == b.encrypted_payload@,
    ensures
        a.content_hash == b.content_hash,
{
    assert(a.content_hash@ =~= b.content_hash@);
}

/// What a newly created node holds: a UUID v7 identifier, the BLAKE3 hash
/// of its payload, and its inputs unchanged.
pub open spec fn new_node_post(
    workspace_id: u128,
    parents: Seq<u128>,
    node_type: DagNodeType,
    payload: Seq<u8>,
    tick: u64,
    node: DagNode,
) -> bool {
    &&& is_uuid_v7(node.id)
    &&& node.content_hash@ == blake3_digest(payload)
    &&& node.workspace_id == workspace_id
    &&& node.parents@ == parents
    &&& node.node_type == node_type
    &&& node.encrypted_payload@ == payload
    &&& node.monotonic_tick == tick
}

/// Content addressing for new nodes: two nodes created from equal payloads
/// carry equal hashes whatever their workspace, parents, type and tick, and
/// each hash is the BLAKE3 digest of the payload the node stores. Every new
/// node has a non-nil identifier and keeps its workspace, parents, type,
/// payload and tick.
pub proof fn law_new_nodes_address_content(
    w1: u128,
    parents1: Seq<u128>,
    type1: DagNodeType,
    payload1: Seq<u8>,
    tick1: u64,
    n1: DagNode,
    w2: u128,
    parents2: Seq<u128>,
    type2: DagNodeType,
    payload2: Seq<u8>,
    tick2: u64,
    n2: DagNode,
)
    requires
        new_node_post(w1, parents1, type1, payload1, tick1, n1),
        new_node_post(w2, parents2, type2, payload2, tick2, n2),
    ensures
        payload1 == payload2 ==> n1.content_hash == n2.content_hash,
        n1.content_hash@ == blake3_digest(n1.encrypted_payload@),
        n1.id != 0,
        n1.workspace_id == w1 && n1.parents@ == parents1 && n1.node_type == type1,
        n1.encrypted_payload@ == payload1 && n1.monotonic_tick == tick1,
{
    lemma_v7_id_not_nil(n1.id);
    if payload1 == payload2 {
        assert(n1.content_hash@ =~= n2.content_hash@);
    }
}

impl DagNode {
    /// Builds a node from an identifier and a content hash computed by the
    /// caller; every other field is taken as given.
    pub fn from_parts(
        id: u128,
        content_hash: [u8; 32],
        workspace_id: u128,
        parents: Vec<u128>,
        node_type: DagNodeType,
        encrypted_payload: Vec<u8>,
        monotonic_tick: u64,
    ) -> (node: Self)
        ensures
            node.id == id,
            node.content_hash == content_hash,
            node.workspace_id == workspace_id,
            node.parents == parents,
            node.node_type == node_type,
            node.encrypted_payload == encrypted_payload,
            node.monotonic_tick == monotonic_tick,
    {
        DagNode {
            id,
            parents,
            content_hash,
            workspace_id,
            node_type,
            encrypted_payload,
            monotonic_tick,
        }
    }

    /// Creates a new DAG node with a fresh UUID v7 identifier and the BLAKE3
    /// hash of its encrypted payload.
    pub fn new(
        workspace_id: u128,
        parents: Vec<u128>,
        node_type: DagNodeType,
        encrypted_payload: Vec<u8>,
        monotonic_tick: u64,
    ) -> (node: Self)
        ensures
            is_uuid_v7(node.id),
            node.id != 0,
            node.content_hash@ == blake3_digest(encrypted_payload@),
            node.workspace_id == workspace_id,
            node.parents == parents,
            node.node_type == node_type,
            node.encrypted_payload == encrypted_payload,
            node.monotonic_tick == monotonic_tick,
            new_node_post(
                workspace_id,
                parents@,
                node_type,
                encrypted_payload@,
                monotonic_tick,
                node,
            ),
    {
        let content_hash = blake3_hash(encrypted_payload.as_slice());
        let id = new_v7_id();
        proof {
            lemma_v7_id_not_nil(id);
        }
        DagNode::from_parts(
            id,
            content_hash,
            workspace_id,
            parents,
            node_type,
            encrypted_payload,
            monotonic_tick,
        )
    }
}

} // verus!
