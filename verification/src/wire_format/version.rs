//! SCP relay wire protocol version.
use vstd::prelude::*;

verus! {

/// SCP relay wire protocol version.
///
/// Currently only V1 exists. Negotiation picks min(local, remote).
#[derive(Debug, Clone, Copy, PartialEq, Eq, Structural, PartialOrd, Ord)]
pub enum WireVersion {
    V1,
}

/// The version number that a version carries on the wire.
pub open spec fn wire_version_number(v: WireVersion) -> u8 {
    match v {
        WireVersion::V1 => 1,
    }
}

impl WireVersion {
    /// The version number that this version carries on the wire.
    pub fn number(&self) -> (n: u8)
        ensures
            n == wire_version_number(*self),
    {
        match self {
            WireVersion::V1 => 1,
        }
    }

    /// Negotiate the wire version to use given local and remote capabilities.
    /// Uses the lower of the two — conservative compatibility.
    pub fn negotiate(local: Self, remote: Self) -> (v: Self)
        ensures
            v == (if wire_version_number(local) <= wire_version_number(remote) {
                local
            } else {
                remote
            }),
    {
        if local.number() <= remote.number() {
            local
        } else {
            remote
        }
    }

    pub fn current() -> (v: Self)
        ensures
            v == WireVersion::V1,
    {
        WireVersion::V1
    }
}

/// Negotiation never picks a version newer than either side supports, and
/// picks the same version whichever side asks.
pub proof fn lemma_negotiate_is_min(local: WireVersion, remote: WireVersion)
    ensures
        ({
            let v = if wire_version_number(local) <= wire_version_number(remote) {
                local
            } else {
                remote
            };
            let w = if wire_version_number(remote) <= wire_version_number(local) {
                remote
            } else {
                local
            };
            &&& wire_version_number(v) <= wire_version_number(local)
            &&& wire_version_number(v) <= wire_version_number(remote)
            &&& v == local || v == remote
            &&& wire_version_number(v) == wire_version_number(w)
        }),
{
}

} // verus!
