//! Uniform integer draws from a source of random 64-bit words.
use vstd::prelude::*;

verus! {

/// A source of random 64-bit words.
pub trait RandomSource {
    fn next_u64(&mut self) -> u64;
}

/// The operating-system generator.
pub struct OsRandom;

/// One random word from the operating-system generator
/// (`OsRng::next_u64`). Nothing is claimed of it.
#[verifier::external_body]
fn os_next_u64() -> u64 {
    rand_core::RngCore::next_u64(&mut rand_core::OsRng)
}

impl RandomSource for OsRandom {
    fn next_u64(&mut self) -> u64 {
        os_next_u64()
    }
}

/// 2^64.
pub open spec fn two64() -> int {
    0x1_0000_0000_0000_0000
}

/// The value Lemire's method derives from the word `x` for `[0, range)`:
/// the high word of `x * range`.
pub open spec fn lemire_value(x: u64, range: u64) -> int {
    (x * range) / two64()
}

/// Whether Lemire's method accepts the word `x` for `[0, range)`: the low
/// word of `x * range` is at least `range`, or at least `2^64 mod range`.
pub open spec fn lemire_accepts(x: u64, range: u64) -> bool {
    let l = (x * range) % two64();
    range == 0 || l >= range || l >= (two64() - range) % (range as int)
}

/// The high word never exceeds the range, and is below it when the range
/// is not empty.
pub proof fn lemma_lemire_value_bound(x: u64, range: u64)
    ensures
        0 <= lemire_value(x, range) <= range,
        range > 0 ==> lemire_value(x, range) < range,
        x * range < 0x1_0000_0000_0000_0000_0000_0000_0000_0000,
{
    assert(x * range <= 0xffff_ffff_ffff_ffff * 0xffff_ffff_ffff_ffff) by (nonlinear_arith)
        requires
            x <= 0xffff_ffff_ffff_ffff,
            range <= 0xffff_ffff_ffff_ffff,
    ;
    assert(0 <= (x * range) / 0x1_0000_0000_0000_0000 <= range) by (nonlinear_arith)
        requires
            x < 0x1_0000_0000_0000_0000,
            0 <= range,
    ;
    assert(range > 0 ==> (x * range) / 0x1_0000_0000_0000_0000 < range) by (nonlinear_arith)
        requires
            x < 0x1_0000_0000_0000_0000,
            0 <= range,
    ;
}

/// The decision Lemire's method takes on the word `x`: the value if the
/// word is accepted.
pub fn lemire_candidate(x: u64, range: u64) -> (r: Option<u64>)
    ensures
        r == (if lemire_accepts(x, range) { Some(lemire_value(x, range) as u64) } else { None::<u64> }),
        r matches Some(v) ==> (range > 0 ==> v < range) && (range == 0 ==> v == 0),
{
    proof {
        lemma_lemire_value_bound(x, range);
    }
    let m: u128 = (x as u128) * (range as u128);
    let l: u128 = m % 0x1_0000_0000_0000_0000u128;
    let hi: u128 = m / 0x1_0000_0000_0000_0000u128;
    proof {
        assert(hi <= range) by (nonlinear_arith)
            requires
                m == x * range,
                hi == m / 0x1_0000_0000_0000_0000,
                x < 0x1_0000_0000_0000_0000,
        ;
        assert(range > 0 ==> hi < range) by (nonlinear_arith)
            requires
                m == x * range,
                hi == m / 0x1_0000_0000_0000_0000,
                x < 0x1_0000_0000_0000_0000,
        ;
        assert(range == 0 ==> hi == 0) by (nonlinear_arith)
            requires
                m == x * range,
                hi == m / 0x1_0000_0000_0000_0000,
        ;
    }
    if range == 0 || l >= range as u128 {
        return Some(hi as u64);
    }
    let t: u128 = (0x1_0000_0000_0000_0000u128 - range as u128) % (range as u128);
    if l < t {
        None
    } else {
        Some(hi as u64)
    }
}

/// Lemire's nearly-divisionless uniform integer in `[0, range)` (zero when
/// `range` is zero): draws words until one is accepted. The redraws are
/// bounded at `u64::MAX`; past that the last word's value is taken.
pub fn lemire_uniform<R: RandomSource>(rng: &mut R, range: u64) -> (r: u64)
    ensures
        range > 0 ==> r < range,
        range == 0 ==> r == 0,
        exists|x: u64| r == lemire_value(x, range),
{
    let mut x = rng.next_u64();
    let mut tries: u64 = u64::MAX;
    loop
        decreases tries,
    {
        match lemire_candidate(x, range) {
            Some(v) => {
                proof {
                    lemma_lemire_value_bound(x, range);
                    assert(v == lemire_value(x, range));
                }
                return v;
            },
            None => {},
        }
        if tries == 0 {
            proof {
                lemma_lemire_value_bound(x, range);
            }
            let m: u128 = (x as u128) * (range as u128);
            let hi: u128 = m / 0x1_0000_0000_0000_0000u128;
            proof {
                assert(range > 0 ==> hi < range) by (nonlinear_arith)
                    requires
                        m == x * range,
                        hi == m / 0x1_0000_0000_0000_0000,
                        x < 0x1_0000_0000_0000_0000,
                ;
                assert(range == 0 ==> hi == 0) by (nonlinear_arith)
                    requires
                        m == x * range,
                        hi == m / 0x1_0000_0000_0000_0000,
                ;
            }
            assert(hi == lemire_value(x, range));
            return hi as u64;
        }
        tries = tries - 1;
        x = rng.next_u64();
    }
}

} // verus!
