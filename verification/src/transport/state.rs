//! Transport-layer interface to the sovereign state layer.
use crate::transport::flash::PublishedHandshakeKey;
use vstd::prelude::*;

verus! {

/// Transport-layer interface to the sovereign state layer.
///
/// An implementation answers from its current state: revocation status of an
/// operational key, and the valid handshake ephemeral (if any) published for
/// it at a given time.
pub trait StateProvider {
    /// Whether this provider records `ops_pub` as revoked.
    spec fn spec_is_revoked(&self, ops_pub: Seq<u8>) -> bool;

    /// The handshake ephemeral this provider serves for `ops_pub` at `now`.
    spec fn spec_handshake_ephemeral(&self, ops_pub: Seq<u8>, now: u64) -> Option<
        PublishedHandshakeKey,
    >;

    fn is_revoked(&self, ops_pub: &[u8; 32]) -> (r: bool)
        ensures
            r == self.spec_is_revoked(ops_pub@),
    ;

    fn get_handshake_ephemeral(&self, ops_pub: &[u8; 32], now: u64) -> (r: Option<
        PublishedHandshakeKey,
    >)
        ensures
            r == self.spec_handshake_ephemeral(ops_pub@, now),
    ;
}

/// Stub — always non-revoked, no published ephemeral.
pub struct StubStateProvider;

impl StateProvider for StubStateProvider {
    open spec fn spec_is_revoked(&self, ops_pub: Seq<u8>) -> bool {
        false
    }

    open spec fn spec_handshake_ephemeral(&self, ops_pub: Seq<u8>, now: u64) -> Option<
        PublishedHandshakeKey,
    > {
        None
    }

    fn is_revoked(&self, ops_pub: &[u8; 32]) -> (r: bool) {
        false
    }

    fn get_handshake_ephemeral(&self, ops_pub: &[u8; 32], now: u64) -> (r: Option<
        PublishedHandshakeKey,
    >) {
        None
    }
}

} // verus!
