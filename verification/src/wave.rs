use vstd::prelude::*;

verus! {

use crate::math::{Dir2, Scalar, Vec2};

/// A displaced boundary in the plane: an origin, an "up" direction, and an
/// ordered series of height functions. The boundary runs along the
/// tangential axis (the up direction turned a quarter turn); at tangential
/// coordinate t it is displaced along up by the sum of the series at t.
/// The rendering layer evaluates the sum; this record fixes what is
/// summed, and in what order.
pub struct Wave {
    pub origin: Vec2,
    pub up: Dir2,
    pub series: Vec<HeightFn>,
}

/// A scalar displacement as a function of one tangential coordinate.
#[derive(Clone, Copy, Debug, PartialEq, Eq, Structural)]
pub enum HeightFn {
    /// A fixed displacement, for flat boundaries.
    Const(Scalar),
    /// One sine harmonic.
    Sine(SineWave),
    /// One octave of seeded gradient noise.
    Perlin(PerlinWave),
}

impl HeightFn {
    pub fn new_const(val: Scalar) -> (r: HeightFn)
        ensures
            r == HeightFn::Const(val),
    {
        HeightFn::Const(val)
    }

    pub fn new_sine(amplitude: Scalar, wavelength: Scalar, phase: Scalar) -> (r: HeightFn)
        ensures
            r == HeightFn::Sine(SineWave { amplitude, wavelength, phase }),
    {
        HeightFn::Sine(SineWave::new(amplitude, wavelength, phase))
    }

    pub fn new_perlin(amplitude: Scalar, wavelength: Scalar, phase: Scalar, seed: u32) -> (r:
        HeightFn)
        ensures
            r == HeightFn::Perlin(PerlinWave { amplitude, wavelength, phase, seed }),
    {
        HeightFn::Perlin(PerlinWave::new(amplitude, wavelength, phase, seed))
    }
}

/// One sine harmonic: amplitude * sin(tau * t / wavelength + phase).
/// The rendering layer reduces both the phase (once, before this record
/// is built) and the evaluation argument with the Euclidean remainder by
/// tau, so the angle handed to the sine never comes from a negative
/// remainder.
#[derive(Clone, Copy, Debug, PartialEq, Eq, Structural)]
pub struct SineWave {
    pub amplitude: Scalar,
    pub wavelength: Scalar,
    pub phase: Scalar,
}

impl SineWave {
    /// Builds the harmonic; the three parameters are stored as handed in.
    pub fn new(amplitude: Scalar, wavelength: Scalar, phase: Scalar) -> (r: SineWave)
        ensures
            r == (SineWave { amplitude, wavelength, phase }),
    {
        SineWave { amplitude, wavelength, phase }
    }

    /// The phase, as stored.
    pub fn phase(&self) -> (r: Scalar)
        ensures
            r == self.phase,
    {
        self.phase
    }
}

/// One octave of gradient noise: amplitude * noise((t + phase) /
/// wavelength), where the noise field is a pure function keyed by the
/// seed alone. Holding the seed, rather than a generator, keeps the
/// record a plain value: the rendering layer builds the generator from
/// the seed, and the same seed always yields the same field.
#[derive(Clone, Copy, Debug, PartialEq, Eq, Structural)]
pub struct PerlinWave {
    pub amplitude: Scalar,
    pub wavelength: Scalar,
    pub phase: Scalar,
    pub seed: u32,
}

impl PerlinWave {
    /// Builds the octave; the parameters are stored as handed in.
    pub fn new(amplitude: Scalar, wavelength: Scalar, phase: Scalar, seed: u32) -> (r: PerlinWave)
        ensures
            r == (PerlinWave { amplitude, wavelength, phase, seed }),
    {
        PerlinWave { amplitude, wavelength, phase, seed }
    }
}

} // verus!
