//! Host ABI versioning.
//!
//! Every MessagePack payload exchanged between the host (Rust core) and a
//! guest (`.tapp` WASM module) carries a [`SchemaVersion`] in its header.
//! The host rejects payloads whose major version differs from its own.

use vstd::prelude::*;

verus! {

/// ABI schema version for host and guest MessagePack payloads.
///
/// - Major: breaking change, rejected if mismatched;
/// - Minor: backward-compatible addition, allowed if the major matches;
/// - Patch: bug fix, always compatible.
#[derive(Debug, Clone, Copy, PartialEq, Eq, Structural)]
pub struct SchemaVersion {
    pub major: u16,
    pub minor: u16,
    pub patch: u16,
}

/// Version negotiation handshake result.
#[derive(Debug, Clone, Copy, PartialEq, Eq, Structural)]
pub enum NegotiationResult {
    /// Versions are compatible: proceed.
    Compatible,
    /// Major version mismatch: reject the `.tapp`.
    IncompatibleMajor { host_major: u16, guest_major: u16 },
    /// The guest has a newer minor version: the host warns but allows it.
    GuestNewer { host_minor: u16, guest_minor: u16 },
}

/// Two versions are compatible exactly when their majors are equal.
pub open spec fn compatible(a: SchemaVersion, b: SchemaVersion) -> bool {
    a.major == b.major
}

/// The outcome of negotiating a host version with a guest version.
pub open spec fn negotiation(host: SchemaVersion, guest: SchemaVersion) -> NegotiationResult {
    if host.major != guest.major {
        NegotiationResult::IncompatibleMajor { host_major: host.major, guest_major: guest.major }
    } else if guest.minor > host.minor {
        NegotiationResult::GuestNewer { host_minor: host.minor, guest_minor: guest.minor }
    } else {
        NegotiationResult::Compatible
    }
}

impl SchemaVersion {
    /// Current ABI version, 1.0.0.
    pub fn current() -> (v: SchemaVersion)
        ensures
            v == (SchemaVersion { major: 1, minor: 0, patch: 0 }),
    {
        SchemaVersion { major: 1, minor: 0, patch: 0 }
    }

    /// Checks whether this version is compatible with `other`: the majors
    /// must match, minor and patch differences are tolerated.
    pub fn is_compatible_with(&self, other: &Self) -> (r: bool)
        ensures
            r == compatible(*self, *other),
    {
        self.major == other.major
    }

    /// Performs version negotiation between this host version and `guest`.
    pub fn negotiate(&self, guest: &Self) -> (r: NegotiationResult)
        ensures
            r == negotiation(*self, *guest),
    {
        if self.major != guest.major {
            NegotiationResult::IncompatibleMajor { host_major: self.major, guest_major: guest.major }
        } else if guest.minor > self.minor {
            NegotiationResult::GuestNewer { host_minor: self.minor, guest_minor: guest.minor }
        } else {
            NegotiationResult::Compatible
        }
    }
}

/// Compatibility is an equivalence: every version is compatible with itself,
/// compatibility is symmetric, and it is transitive.
pub proof fn law_compatibility_is_equivalence(a: SchemaVersion, b: SchemaVersion, c: SchemaVersion)
    ensures
        compatible(a, a),
        compatible(a, b) == compatible(b, a),
        compatible(a, b) && compatible(b, c) ==> compatible(a, c),
{
}

/// Negotiation rejects exactly the incompatible versions: the result is
/// `IncompatibleMajor` if and only if the versions are not compatible, and
/// `GuestNewer` only for a compatible guest with a newer minor version.
pub proof fn law_negotiation_rejects_exactly_incompatible(host: SchemaVersion, guest: SchemaVersion)
    ensures
        (negotiation(host, guest) is IncompatibleMajor) == !compatible(host, guest),
        negotiation(host, guest) is GuestNewer ==> compatible(host, guest) && guest.minor > host.minor,
        negotiation(host, guest) is Compatible ==> compatible(host, guest) && guest.minor <= host.minor,
{
}

/// Compatibility looks at the majors only: equal majors are compatible,
/// different majors are not, whatever the minor and patch numbers.
pub proof fn law_compatibility_is_major_match(a: SchemaVersion, b: SchemaVersion)
    ensures
        a.major == b.major ==> compatible(a, b),
        a.major != b.major ==> !compatible(a, b),
{
}

/// Negotiation reports the versions it compared: a rejection carries the
/// host's and the guest's majors, which differ; a newer guest carries the
/// host's and the guest's minors, the guest's being greater; and a compatible
/// answer needs equal majors and a guest minor no greater than the host's.
pub proof fn law_negotiation_reports_its_inputs(host: SchemaVersion, guest: SchemaVersion)
    ensures
        host.major != guest.major ==> negotiation(host, guest) == (NegotiationResult::IncompatibleMajor {
            host_major: host.major,
            guest_major: guest.major,
        }),
        negotiation(host, guest) matches NegotiationResult::IncompatibleMajor { host_major, guest_major }
            ==> host_major == host.major && guest_major == guest.major && host_major != guest_major,
        negotiation(host, guest) matches NegotiationResult::GuestNewer { host_minor, guest_minor }
            ==> host.major == guest.major && host_minor == host.minor && guest_minor == guest.minor
            && guest_minor > host_minor,
        negotiation(host, guest) is Compatible ==> host.major == guest.major && guest.minor <= host.minor,
        host.major == guest.major && guest.minor > host.minor ==> negotiation(host, guest) == (
        NegotiationResult::GuestNewer { host_minor: host.minor, guest_minor: guest.minor }),
{
}

/// A version negotiated with itself is compatible.
pub proof fn law_negotiation_with_self_is_compatible(v: SchemaVersion)
    ensures
        negotiation(v, v) == NegotiationResult::Compatible,
{
}

/// Header prepended to every host and guest MessagePack payload. The host
/// reads it first and rejects the payload on a version mismatch.
#[derive(Debug, Clone)]
pub struct AbiHeader {
    /// Schema version of this payload.
    pub schema_version: SchemaVersion,
    /// Trace ID for distributed tracing.
    pub trace_id: [u8; 16],
    /// Workspace ID scope.
    pub workspace_id: [u8; 16],
    /// Whether this is a first-party `.tapp` (skips version negotiation).
    pub is_first_party: bool,
}

} // verus!
