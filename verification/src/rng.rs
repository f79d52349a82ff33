//! The injected source of uniform random values: a seedable generator
//! wrapped behind contracts that state only the ranges the documentation
//! promises. Nothing is assumed about which value comes out.

use vstd::prelude::*;
use rand::Rng;
use rand::SeedableRng;

verus! {

#[verifier::external_type_specification]
#[verifier::external_body]
pub struct ExStdRng(rand::rngs::StdRng);

/// Relies on rand's `StdRng::seed_from_u64` (via `SeedableRng`): builds a
/// generator from a word-sized seed.
#[verifier::external_body]
fn std_rng_from_seed(seed: u64) -> rand::rngs::StdRng {
    rand::rngs::StdRng::seed_from_u64(seed)
}

/// Relies on rand's `StdRng::from_entropy` (via `SeedableRng`): builds a
/// generator seeded from the system entropy source. The source documents
/// that this panics only if the operating system's entropy source fails —
/// an environmental fault no precondition can exclude; the library itself
/// never calls it, only the runner does.
#[verifier::external_body]
fn std_rng_from_entropy() -> rand::rngs::StdRng {
    rand::rngs::StdRng::from_entropy()
}

/// Relies on rand's `Rng::gen_range` on `lo..hi`: returns a uniform value
/// in the half-open range, and panics only when the range is empty, which
/// the precondition rules out.
#[verifier::external_body]
fn std_rng_range(rng: &mut rand::rngs::StdRng, lo: u64, hi: u64) -> (r: u64)
    requires
        lo < hi,
    ensures
        lo <= r < hi,
{
    rng.gen_range(lo..hi)
}

/// Relies on rand's `Rng::gen::<u64>`: returns some word; nothing more can
/// be promised of a random draw.
#[verifier::external_body]
fn std_rng_next(rng: &mut rand::rngs::StdRng) -> u64 {
    rng.gen()
}

/// A capability handing out uniform random values. Two sources built from
/// the same seed hand out the same stream, which is what makes generation
/// reproducible under test.
pub struct AuditRng {
    inner: rand::rngs::StdRng,
}

impl AuditRng {
    /// A deterministic source: the same seed gives the same stream.
    pub fn from_seed(seed: u64) -> AuditRng {
        AuditRng { inner: std_rng_from_seed(seed) }
    }

    /// A source seeded from the system, for ordinary runs.
    pub fn from_entropy() -> AuditRng {
        AuditRng { inner: std_rng_from_entropy() }
    }

    /// A uniform value in `[lo, hi)`.
    pub fn next_between(&mut self, lo: u64, hi: u64) -> (r: u64)
        requires
            lo < hi,
        ensures
            lo <= r < hi,
    {
        std_rng_range(&mut self.inner, lo, hi)
    }

    /// An arbitrary word.
    pub fn next_word(&mut self) -> u64 {
        std_rng_next(&mut self.inner)
    }
}

} // verus!
