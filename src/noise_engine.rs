//! The noise engine that the renderer samples, and its reconfiguration.

use vstd::prelude::*;

use noise::{MultiFractal, Seedable};

verus! {

#[verifier::external_type_specification]
#[verifier::external_body]
#[verifier::reject_recursive_types(T)]
pub struct ExBasicMulti<T>(noise::BasicMulti<T>);

#[verifier::external_type_specification]
#[verifier::external_body]
pub struct ExPerlin(noise::Perlin);

/// Seed of the noise generator.
pub const PERLIN_NOISE_SEED: u32 = 100;

/// The largest octave count that the generator takes; larger requests are
/// lowered to it, and a request of zero is raised to one.
pub const MAX_OCTAVES: usize = 32;

/// The octave count that the generator settles on for a request of `n`.
pub open spec fn clamp_octaves(n: usize) -> usize {
    if n < 1 {
        1
    } else if n > MAX_OCTAVES {
        MAX_OCTAVES
    } else {
        n
    }
}

/// The generator's octave count: its public `octaves` field.
pub uninterp spec fn generator_octaves(g: noise::BasicMulti<noise::Perlin>) -> usize;

/// The seed that the generator was built with.
pub uninterp spec fn generator_seed(g: noise::BasicMulti<noise::Perlin>) -> u32;

/// Relies on noise::BasicMulti::new and MultiFractal::set_octaves: a
/// generator seeded with `seed` whose octave count is `octaves` clamped to
/// `1..=MAX_OCTAVES`. Each octave's source is seeded with `seed` plus its
/// index, which must not overflow.
#[verifier::external_body]
fn seeded_generator(seed: u32, octaves: usize) -> (r: noise::BasicMulti<noise::Perlin>)
    requires
        seed as int + MAX_OCTAVES <= u32::MAX,
    ensures
        generator_octaves(r) == clamp_octaves(octaves),
        generator_seed(r) == seed,
{
    noise::BasicMulti::<noise::Perlin>::new(seed).set_octaves(octaves)
}

/// Reads the generator's public `octaves` field.
#[verifier::external_body]
fn octaves_field(g: &noise::BasicMulti<noise::Perlin>) -> (r: usize)
    ensures
        r == generator_octaves(*g),
{
    g.octaves
}

/// Relies on Seedable::seed of noise::BasicMulti: the seed it was built with.
#[verifier::external_body]
fn seed_of(g: &noise::BasicMulti<noise::Perlin>) -> (r: u32)
    ensures
        r == generator_seed(*g),
{
    g.seed()
}

/// The fractal noise generator, with the octave counts it has been asked for.
/// It is always seeded with `PERLIN_NOISE_SEED`.
pub struct NoiseEngine {
    generator: noise::BasicMulti<noise::Perlin>,
    requests: Ghost<Seq<usize>>,
}

impl NoiseEngine {
    #[verifier::type_invariant]
    spec fn seeded(&self) -> bool {
        generator_seed(self.generator) == PERLIN_NOISE_SEED
    }

    /// Every octave count asked of this engine, oldest first.
    pub closed spec fn requests(&self) -> Seq<usize> {
        self.requests@
    }

    /// The generator's octave count.
    pub closed spec fn octave_count(&self) -> usize {
        generator_octaves(self.generator)
    }

    /// The generator's seed.
    pub closed spec fn seed_value(&self) -> u32 {
        generator_seed(self.generator)
    }

    /// A generator seeded with `PERLIN_NOISE_SEED` and set to `octaves`.
    pub fn new(octaves: usize) -> (r: NoiseEngine)
        ensures
            r.requests() == seq![octaves],
            r.octave_count() == clamp_octaves(octaves),
            r.seed_value() == PERLIN_NOISE_SEED,
    {
        let generator = seeded_generator(PERLIN_NOISE_SEED, octaves);
        let ghost first = seq![octaves];
        NoiseEngine { generator, requests: Ghost(first) }
    }

    /// Reconfigures the generator's octave count; the generator is otherwise
    /// the same as before (same seed, default frequency, lacunarity and
    /// persistence).
    pub fn set_octaves(&mut self, octaves: usize)
        ensures
            final(self).requests() == old(self).requests().push(octaves),
            final(self).octave_count() == clamp_octaves(octaves),
            final(self).seed_value() == old(self).seed_value(),
    {
        proof {
            use_type_invariant(&*self);
        }
        let generator = seeded_generator(PERLIN_NOISE_SEED, octaves);
        let ghost requests = self.requests@.push(octaves);
        *self = NoiseEngine { generator, requests: Ghost(requests) };
    }

    /// The generator's octave count.
    pub fn octaves(&self) -> (r: usize)
        ensures
            r == self.octave_count(),
    {
        octaves_field(&self.generator)
    }

    /// The generator's seed.
    pub fn seed(&self) -> (r: u32)
        ensures
            r == self.seed_value(),
    {
        seed_of(&self.generator)
    }

    /// The generator, for sampling.
    pub fn generator(&self) -> &noise::BasicMulti<noise::Perlin> {
        &self.generator
    }
}

} // verus!
