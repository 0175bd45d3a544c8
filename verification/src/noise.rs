use vstd::prelude::*;

use crate::fixed::FP_ONE;

verus! {

/// The noise algorithm a field is configured with.
#[derive(Clone, Copy, PartialEq, Eq, Structural, Debug)]
pub enum NoiseKind {
    OpenSimplex2,
    OpenSimplex2S,
    Cellular,
    Perlin,
    ValueCubic,
    Value,
}

/// The fractal layering a field is configured with.
#[derive(Clone, Copy, PartialEq, Eq, Structural, Debug)]
pub enum FractalKind {
    Off,
    FBm,
    Ridged,
    PingPong,
}

/// The distance function of a cellular noise field.
#[derive(Clone, Copy, PartialEq, Eq, Structural, Debug)]
pub enum CellularDistanceKind {
    Euclidean,
    EuclideanSq,
    Manhattan,
    Hybrid,
}

/// The configuration of one procedural noise field, in plain values. The
/// noise provider itself evaluates the field outside this library; it is a
/// deterministic scalar function of this configuration and the sample
/// coordinates, with values in `[-FP_ONE, FP_ONE]` once scaled to fixed
/// point. Fixed-point fields count 1/65536ths; `frequency == -1` keeps the
/// provider's own default frequency, which is not representable in fixed
/// point.
#[derive(Clone, Copy, PartialEq, Eq, Structural, Debug)]
pub struct NoiseConfig {
    pub kind: NoiseKind,
    pub seed: i32,
    pub frequency: i64,
    pub fractal: FractalKind,
    pub octaves: i32,
    pub lacunarity: i64,
    pub gain: i64,
    pub cellular_distance: CellularDistanceKind,
}

/// The configuration a freshly seeded noise field carries: the provider's
/// defaults (OpenSimplex2, no fractal layering, 3 octaves, lacunarity 2.0,
/// gain 0.5, cellular distance EuclideanSq).
pub open spec fn spec_default_config(seed: i32) -> NoiseConfig {
    NoiseConfig {
        kind: NoiseKind::OpenSimplex2,
        seed,
        frequency: (-1) as i64,
        fractal: FractalKind::Off,
        octaves: 3,
        lacunarity: (2 * FP_ONE) as i64,
        gain: (FP_ONE / 2) as i64,
        cellular_distance: CellularDistanceKind::EuclideanSq,
    }
}

impl NoiseConfig {
    /// A configuration with the given seed and the provider's defaults.
    pub fn with_seed(seed: i32) -> (r: NoiseConfig)
        ensures
            r == spec_default_config(seed),
    {
        NoiseConfig {
            kind: NoiseKind::OpenSimplex2,
            seed,
            frequency: -1,
            fractal: FractalKind::Off,
            octaves: 3,
            lacunarity: 131072,
            gain: 32768,
            cellular_distance: CellularDistanceKind::EuclideanSq,
        }
    }

    pub fn set_kind(&mut self, kind: NoiseKind)
        ensures
            *final(self) == (NoiseConfig { kind, ..*old(self) }),
    {
        self.kind = kind;
    }

    /// Set the sampling frequency, in fixed point.
    pub fn set_frequency(&mut self, frequency: i64)
        requires
            0 <= frequency <= 0x100_0000,
        ensures
            *final(self) == (NoiseConfig { frequency, ..*old(self) }),
    {
        self.frequency = frequency;
    }

    pub fn set_fractal(&mut self, fractal: FractalKind)
        ensures
            *final(self) == (NoiseConfig { fractal, ..*old(self) }),
    {
        self.fractal = fractal;
    }

    pub fn set_octaves(&mut self, octaves: i32)
        requires
            0 <= octaves <= 32,
        ensures
            *final(self) == (NoiseConfig { octaves, ..*old(self) }),
    {
        self.octaves = octaves;
    }

    /// Set the fractal lacunarity, in fixed point.
    pub fn set_lacunarity(&mut self, lacunarity: i64)
        requires
            0 <= lacunarity <= 0x100_0000,
        ensures
            *final(self) == (NoiseConfig { lacunarity, ..*old(self) }),
    {
        self.lacunarity = lacunarity;
    }

    /// Set the fractal gain, in fixed point.
    pub fn set_gain(&mut self, gain: i64)
        requires
            0 <= gain <= 0x100_0000,
        ensures
            *final(self) == (NoiseConfig { gain, ..*old(self) }),
    {
        self.gain = gain;
    }

    pub fn set_cellular_distance(&mut self, cellular_distance: CellularDistanceKind)
        ensures
            *final(self) == (NoiseConfig { cellular_distance, ..*old(self) }),
    {
        self.cellular_distance = cellular_distance;
    }
}

} // verus!
