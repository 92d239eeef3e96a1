//! The relay mesh's bootstrap list, relay nodes and endpoint schemes.
use vstd::prelude::*;
use vstd::string::StringSliceAdditionalSpecFns;

verus! {

/// A single node in the oblivious relay mesh.
#[derive(Debug, Clone)]
pub struct RelayNode {
    pub id: [u8; 16],
    pub endpoint: String,
}

impl RelayNode {
    /// A field-for-field copy of this node.
    pub fn copy_node(&self) -> (n: RelayNode)
        ensures
            n == *self,
    {
        RelayNode { id: self.id, endpoint: self.endpoint.clone() }
    }
}

#[derive(Debug, Clone, Copy, PartialEq, Eq, Structural)]
pub enum MeshError {
    /// No relay path available.
    NoRoute,
    /// Relay refused connection.
    RelayRefused,
    /// Transmission timeout.
    Timeout,
}

/// How a relay endpoint string is to be reached.
#[derive(Debug, Clone, Copy, PartialEq, Eq, Structural)]
pub enum RelayScheme {
    /// `local://...`: local-direct simulation.
    Local,
    /// `noise://<ip:port>`: Noise-encrypted TCP to the address after the prefix.
    Noise,
    /// Anything else: plaintext TCP to the whole string as an address.
    Plain,
}

/// `local://`.
pub const LOCAL_SCHEME_PREFIX: [u8; 8] = [0x6cu8, 0x6f, 0x63, 0x61, 0x6c, 0x3a, 0x2f, 0x2f];

/// `noise://`.
pub const NOISE_SCHEME_PREFIX: [u8; 8] = [0x6eu8, 0x6f, 0x69, 0x73, 0x65, 0x3a, 0x2f, 0x2f];

/// Whether `s` starts with `prefix`.
pub open spec fn starts_with_bytes(s: Seq<u8>, prefix: Seq<u8>) -> bool {
    prefix.len() <= s.len() && s.subrange(0, prefix.len() as int) == prefix
}

/// The scheme of an endpoint whose UTF-8 bytes are `b`.
pub open spec fn spec_scheme(b: Seq<u8>) -> RelayScheme {
    if starts_with_bytes(b, LOCAL_SCHEME_PREFIX@) {
        RelayScheme::Local
    } else if starts_with_bytes(b, NOISE_SCHEME_PREFIX@) {
        RelayScheme::Noise
    } else {
        RelayScheme::Plain
    }
}

fn has_prefix(s: &[u8], prefix: &[u8; 8]) -> (b: bool)
    ensures
        b == starts_with_bytes(s@, prefix@),
{
    if s.len() < 8 {
        return false;
    }
    let mut i: usize = 0;
    while i < 8
        invariant
            0 <= i <= 8,
            s@.len() >= 8,
            prefix@.len() == 8,
            forall|j: int| 0 <= j < i ==> s@[j] == prefix@[j],
        decreases 8 - i,
    {
        if s[i] != prefix[i] {
            assert(s@.subrange(0, 8)[i as int] != prefix@[i as int]);
            return false;
        }
        i += 1;
    }
    assert(s@.subrange(0, 8) =~= prefix@);
    true
}

/// The scheme of a relay endpoint string.
pub fn relay_scheme(endpoint: &str) -> (s: RelayScheme)
    ensures
        s == spec_scheme(endpoint.spec_bytes()),
{
    let b = endpoint.as_bytes();
    let local = LOCAL_SCHEME_PREFIX;
    let noise = NOISE_SCHEME_PREFIX;
    if has_prefix(b, &local) {
        RelayScheme::Local
    } else if has_prefix(b, &noise) {
        RelayScheme::Noise
    } else {
        RelayScheme::Plain
    }
}

/// Shuffle `list` in place with the thread-local generator
/// (`SliceRandom::shuffle`). Trusted: the result is a permutation of the
/// input.
#[verifier::external_body]
fn shuffle_nodes(list: &mut Vec<RelayNode>)
    ensures
        final(list)@.len() == old(list)@.len(),
        final(list)@.to_multiset() == old(list)@.to_multiset(),
{
    rand::seq::SliceRandom::shuffle(list.as_mut_slice(), &mut rand::thread_rng());
}

/// Static bootstrap relay list with randomized selection: a fresh order on
/// every call, so no relay affinity accumulates.
pub struct BootstrapConfig {
    relays: Vec<RelayNode>,
}

impl BootstrapConfig {
    pub closed spec fn spec_relays(&self) -> Seq<RelayNode> {
        self.relays@
    }

    /// Single local-only relay (id all zero, endpoint `local://loopback`)
    /// for simulation and testing.
    pub fn local_only() -> (c: Self)
        ensures
            c.spec_relays().len() == 1,
            c.spec_relays()[0].id@ == Seq::new(16, |i: int| 0u8),
            c.spec_relays()[0].endpoint@ == "local://loopback"@,
    {
        let mut relays: Vec<RelayNode> = Vec::new();
        let id: [u8; 16] = [0u8; 16];
        assert(id@ =~= Seq::new(16, |i: int| 0u8));
        relays.push(RelayNode { id, endpoint: "local://loopback".to_owned() });
        BootstrapConfig { relays }
    }

    pub fn with_relays(relays: Vec<RelayNode>) -> (c: Self)
        ensures
            c.spec_relays() == relays@,
    {
        BootstrapConfig { relays }
    }

    /// All known relays in a fresh random order.
    pub fn shuffled_relays(&self) -> (list: Vec<RelayNode>)
        ensures
            list@.len() == self.spec_relays().len(),
            list@.to_multiset() == self.spec_relays().to_multiset(),
    {
        let mut list: Vec<RelayNode> = Vec::new();
        let mut i: usize = 0;
        while i < self.relays.len()
            invariant
                0 <= i <= self.relays@.len(),
                list@ == self.relays@.subrange(0, i as int),
            decreases self.relays@.len() - i,
        {
            list.push(self.relays[i].copy_node());
            i += 1;
            assert(list@ =~= self.relays@.subrange(0, i as int));
        }
        assert(list@ =~= self.relays@);
        shuffle_nodes(&mut list);
        list
    }
}

/// Discover available relay nodes: the local bootstrap list in a fresh
/// random order.
pub fn discover_relays() -> (r: Result<Vec<RelayNode>, MeshError>)
    ensures
        r matches Ok(list) && list@.len() == 1 && list@[0].endpoint@ == "local://loopback"@,
{
    let config = BootstrapConfig::local_only();
    let list = config.shuffled_relays();
    proof {
        let x = config.spec_relays()[0];
        assert(config.spec_relays() =~= seq![x]);
        assert(config.spec_relays().to_multiset().count(x) == 1) by {
            broadcast use {vstd::seq_lib::group_to_multiset_ensures, vstd::multiset::group_multiset_axioms};
            assert(seq![x] =~= Seq::<RelayNode>::empty().push(x));
        }
        assert(list@.to_multiset().count(x) == 1);
        broadcast use vstd::seq_lib::group_to_multiset_ensures;
        assert(list@.contains(x));
    }
    Ok(list)
}

} // verus!
