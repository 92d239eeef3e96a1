//! Per-session identifiers and keys.
use crate::crypto::keys::os_random_bytes;
use vstd::prelude::*;

verus! {

/// Opaque ephemeral symmetric session key (32 bytes).
#[derive(Clone)]
pub struct SessionKey(pub [u8; 32]);

/// Unique, single-use route identifier for a flash session.
#[derive(Debug, Clone, PartialEq, Eq)]
pub struct RouteId(pub [u8; 16]);

/// Replay-prevention nonce bound to a single burst transmission.
///
/// Each nonce is drawn from the OS RNG — not monotonic, so no clock
/// dependency or sequence-number leak into transport metadata.
#[derive(Debug, Clone, PartialEq, Eq, Structural)]
pub struct FreshnessNonce(pub u64);

impl RouteId {
    /// A fresh random route identifier.
    pub fn generate() -> Self {
        RouteId(os_random_bytes())
    }
}

impl FreshnessNonce {
    /// A cryptographically random nonce: eight OS-RNG bytes read as a
    /// little-endian u64.
    pub fn generate() -> (n: Self)
        ensures
            exists|b: Seq<u8>|
                b.len() == 8 && n.0 == crate::bytes::le_value(b),
    {
        let buf: [u8; 8] = os_random_bytes();
        let mut v: u64 = 0;
        let mut i: usize = 8;
        proof {
            assert(buf@.skip(8) =~= Seq::<u8>::empty());
        }
        while i > 0
            invariant
                0 <= i <= 8,
                buf@.len() == 8,
                v == crate::bytes::le_value(buf@.skip(i as int)),
                v < crate::bytes::pow256((8 - i) as nat),
            decreases i,
        {
            i = i - 1;
            proof {
                let s = buf@.skip(i as int);
                assert(s.drop_first() =~= buf@.skip(i + 1));
                assert(s[0] == buf@[i as int]);
                assert(crate::bytes::pow256((8 - i) as nat) == 256 * crate::bytes::pow256(
                    (8 - i - 1) as nat,
                ));
                crate::bytes::lemma_pow256_values();
                assert(crate::bytes::pow256((8 - i) as nat) <= 0x1_0000_0000_0000_0000) by {
                    lemma_pow256_mono((8 - i) as nat, 8);
                }
                assert(buf@[i as int] + 256 * v < 256 * crate::bytes::pow256((8 - i - 1) as nat))
                    by (nonlinear_arith)
                    requires
                        buf@[i as int] < 256,
                        v < crate::bytes::pow256((8 - i - 1) as nat),
                ;
            }
            v = buf[i] as u64 + 256 * v;
        }
        proof {
            assert(buf@.skip(0) =~= buf@);
        }
        FreshnessNonce(v)
    }
}

proof fn lemma_pow256_mono(a: nat, b: nat)
    requires
        a <= b,
    ensures
        crate::bytes::pow256(a) <= crate::bytes::pow256(b),
    decreases b,
{
    if a < b {
        lemma_pow256_mono(a, (b - 1) as nat);
    }
}

} // verus!
