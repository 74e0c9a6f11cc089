//! Key management through opaque key handles.
//!
//! Consumers reference keys only through [`KeyHandle`]s; the material itself
//! lives in the arena. Material is zeroized with the `zeroize` crate before
//! it is released.

use vstd::prelude::*;

verus! {

/// Opaque handle to a key stored in the key arena: the arena slot index and
/// the generation stamped on the key when it was stored.
#[derive(Debug, Clone, Copy, PartialEq, Eq, Structural, Hash)]
pub struct KeyHandle {
    /// Arena slot index.
    slot: u32,
    /// Generation counter: prevents use-after-free of recycled slots.
    generation: u32,
}

impl View for KeyHandle {
    /// The slot index and the generation.
    type V = (u32, u32);

    closed spec fn view(&self) -> (u32, u32) {
        (self.slot, self.generation)
    }
}

/// Two handles are equal exactly when they name the same slot and the same
/// generation.
pub proof fn lemma_handle_equality(a: KeyHandle, b: KeyHandle)
    ensures
        (a == b) <==> (a@ == b@),
{
}

impl KeyHandle {
    /// Creates a handle to arena slot `slot` with generation `generation`.
    pub fn new(slot: u32, generation: u32) -> (h: Self)
        ensures
            h@ == (slot, generation),
    {
        KeyHandle { slot, generation }
    }

    /// The arena slot index.
    pub fn slot(&self) -> (r: u32)
        ensures
            r == self@.0,
    {
        self.slot
    }

    /// The generation counter.
    pub fn generation(&self) -> (r: u32)
        ensures
            r == self@.1,
    {
        self.generation
    }
}

/// Key material. It is zeroized whenever it is dropped, and the arena also
/// zeroizes every entry it releases ([`KeyMaterial::zeroize`]). It has no
/// `Debug`, so its bytes are never printed.
pub enum KeyMaterial {
    /// AES-256-GCM symmetric key (32 bytes).
    Symmetric([u8; 32]),
    /// Ed25519 signing key (32-byte seed).
    Signing([u8; 32]),
    /// X25519 key agreement key (32 bytes).
    KeyAgreement([u8; 32]),
    /// HKDF-derived key material (variable length, at most 64 bytes).
    Derived(Vec<u8>),
}

/// Zeroized material holds no secret byte: each of a fixed-size key's 32
/// bytes is 0, and derived material holds no bytes at all.
pub proof fn law_zeroized_material_is_blank(m: KeyMaterial)
    requires
        m.is_zeroized(),
    ensures
        m matches KeyMaterial::Symmetric(b) ==> b@.len() == 32 && forall|i: int| 0 <= i < 32 ==> #[trigger] b@[i] == 0,
        m matches KeyMaterial::Signing(b) ==> b@.len() == 32 && forall|i: int| 0 <= i < 32 ==> #[trigger] b@[i] == 0,
        m matches KeyMaterial::KeyAgreement(b) ==> b@.len() == 32 && forall|i: int| 0 <= i < 32 ==> #[trigger] b@[i] == 0,
        m matches KeyMaterial::Derived(v) ==> v@.len() == 0,
{
}

/// Thirty-two zero bytes.
pub open spec fn zero_bytes() -> Seq<u8> {
    Seq::new(32, |i: int| 0u8)
}

impl KeyMaterial {
    /// The material holds no secret any more: a fixed-size key is all zero
    /// bytes, derived material is empty.
    pub open spec fn is_zeroized(&self) -> bool {
        match self {
            KeyMaterial::Symmetric(b) => b@ == zero_bytes(),
            KeyMaterial::Signing(b) => b@ == zero_bytes(),
            KeyMaterial::KeyAgreement(b) => b@ == zero_bytes(),
            KeyMaterial::Derived(v) => v@.len() == 0,
        }
    }

    /// Both values are of the same kind of key.
    pub open spec fn same_kind(&self, other: &KeyMaterial) -> bool {
        match (self, other) {
            (KeyMaterial::Symmetric(_), KeyMaterial::Symmetric(_)) => true,
            (KeyMaterial::Signing(_), KeyMaterial::Signing(_)) => true,
            (KeyMaterial::KeyAgreement(_), KeyMaterial::KeyAgreement(_)) => true,
            (KeyMaterial::Derived(_), KeyMaterial::Derived(_)) => true,
            _ => false,
        }
    }

    /// Overwrites the key bytes with zeros (and empties derived material),
    /// keeping the kind of key.
    pub fn zeroize(&mut self)
        ensures
            final(self).is_zeroized(),
            final(self).same_kind(old(self)),
        opens_invariants none
        no_unwind
    {
        match self {
            KeyMaterial::Symmetric(b) => zeroize_key_bytes(b),
            KeyMaterial::Signing(b) => zeroize_key_bytes(b),
            KeyMaterial::KeyAgreement(b) => zeroize_key_bytes(b),
            KeyMaterial::Derived(v) => zeroize_byte_vec(v),
        }
    }
}

impl Drop for KeyMaterial {
    /// Zeroizes the material before its memory is released.
    fn drop(&mut self)
        opens_invariants none
        no_unwind
    {
        self.zeroize();
    }
}

/// Zeroizes a 32-byte key with `zeroize::Zeroize::zeroize` on `[u8; 32]`.
/// The crate's impl for arrays zeroizes each element, and its impl for `u8`
/// writes the default value, zero, with a volatile write; nothing in it can
/// panic.
#[verifier::external_body]
fn zeroize_key_bytes(bytes: &mut [u8; 32])
    ensures
        final(bytes)@ == zero_bytes(),
    opens_invariants none
    no_unwind
{
    zeroize::Zeroize::zeroize(bytes)
}

/// Zeroizes derived material with `zeroize::Zeroize::zeroize` on `Vec<u8>`.
/// The crate's impl zeroizes the spare capacity and every element, then
/// calls `clear`, so the vector is left empty. Its only panics are
/// assertions that the capacity in bytes fits in an `isize`, which every
/// vector's allocation satisfies.
#[verifier::external_body]
fn zeroize_byte_vec(bytes: &mut Vec<u8>)
    ensures
        final(bytes)@.len() == 0,
    opens_invariants none
    no_unwind
{
    zeroize::Zeroize::zeroize(bytes)
}

/// Key purpose tag: determines which operations are allowed.
#[derive(Debug, Clone, Copy, PartialEq, Eq, Structural)]
pub enum KeyPurpose {
    /// MLS session encryption.
    SessionEncryption,
    /// Message signing (Ed25519).
    MessageSigning,
    /// Key agreement (X25519).
    KeyAgreement,
    /// Key derivation (HKDF root).
    Derivation,
    /// Audit trail signing.
    AuditSigning,
}

/// A key in the arena with its metadata.
pub struct KeyEntry {
    pub material: KeyMaterial,
    pub purpose: KeyPurpose,
    pub generation: u32,
    /// Whether this key is hardware-backed (Secure Enclave, StrongBox, TPM).
    pub is_hardware_backed: bool,
}

impl Drop for KeyEntry {
    /// Clears the generation counter, so that nothing of a handle to the key
    /// survives; the material zeroizes itself when it is dropped.
    fn drop(&mut self)
        opens_invariants none
        no_unwind
    {
        self.generation = 0;
    }
}

impl KeyEntry {
    /// Clears the entry before it is released: zeroizes the material and
    /// clears the generation counter, so that nothing of the key or of a
    /// handle to it survives.
    pub fn scrub(&mut self)
        ensures
            final(self).material.is_zeroized(),
            final(self).material.same_kind(&old(self).material),
            final(self).generation == 0,
            final(self).purpose == old(self).purpose,
            final(self).is_hardware_backed == old(self).is_hardware_backed,
    {
        self.material.zeroize();
        self.generation = 0;
    }
}

} // verus!
