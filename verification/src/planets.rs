use vstd::prelude::*;

use crate::noise::{CellularDistanceKind, FractalKind, NoiseConfig, NoiseKind, spec_default_config};

verus! {

/// The noise field of the skybox uniforms: seed 0, provider defaults.
pub fn create_default_noise() -> (r: NoiseConfig)
    ensures
        r == spec_default_config(0),
{
    NoiseConfig::with_seed(0)
}

pub open spec fn spec_noise(
    kind: NoiseKind,
    seed: i32,
    frequency: i64,
    fractal: FractalKind,
    octaves: i32,
) -> NoiseConfig {
    NoiseConfig { kind, frequency, fractal, octaves, ..spec_default_config(seed) }
}

fn make_noise(kind: NoiseKind, seed: i32, frequency: i64, fractal: FractalKind, octaves: i32) -> (r:
    NoiseConfig)
    requires
        0 <= frequency <= 0x100_0000,
        0 <= octaves <= 32,
    ensures
        r == spec_noise(kind, seed, frequency, fractal, octaves),
{
    let mut n = NoiseConfig::with_seed(seed);
    n.set_kind(kind);
    n.set_frequency(frequency);
    n.set_fractal(fractal);
    n.set_octaves(octaves);
    n
}

/// The five noise fields of the land/water/cloud body: mountains, hills,
/// fine detail, clouds, and a low-frequency atmosphere layer.
pub fn create_earth_noises() -> (r: Vec<NoiseConfig>)
    ensures
        r@.len() == 5,
        r@[0] == spec_noise(NoiseKind::Perlin, 42, 65536, FractalKind::FBm, 5),
        r@[1] == spec_noise(NoiseKind::Perlin, 1337, 163840, FractalKind::FBm, 4),
        r@[2] == spec_noise(NoiseKind::Perlin, 2021, 327680, FractalKind::FBm, 3),
        r@[3] == spec_noise(NoiseKind::Perlin, 40, 327680, FractalKind::FBm, 1),
        r@[4] == (NoiseConfig {
            lacunarity: 196608,
            ..spec_noise(NoiseKind::Perlin, 40, 655, FractalKind::FBm, 2)
        }),
{
    let mountain_noise = make_noise(NoiseKind::Perlin, 42, 65536, FractalKind::FBm, 5);
    let hill_noise = make_noise(NoiseKind::Perlin, 1337, 163840, FractalKind::FBm, 4);
    let detail_noise = make_noise(NoiseKind::Perlin, 2021, 327680, FractalKind::FBm, 3);
    let cloud_noise = make_noise(NoiseKind::Perlin, 40, 327680, FractalKind::FBm, 1);
    let mut atmosphere_noise = make_noise(NoiseKind::Perlin, 40, 655, FractalKind::FBm, 2);
    atmosphere_noise.set_lacunarity(196608);
    atmosphere_noise.set_gain(32768);
    let mut v: Vec<NoiseConfig> = Vec::new();
    v.push(mountain_noise);
    v.push(hill_noise);
    v.push(detail_noise);
    v.push(cloud_noise);
    v.push(atmosphere_noise);
    v
}

/// The three noise fields of the banded gas giant: bands, high-altitude
/// clouds and deep atmosphere.
pub fn create_jupiter_noise() -> (r: Vec<NoiseConfig>)
    ensures
        r@.len() == 3,
        r@[0] == spec_noise(NoiseKind::OpenSimplex2, 1337, 327680, FractalKind::FBm, 3),
        r@[1] == spec_noise(NoiseKind::OpenSimplex2, 42, 196608, FractalKind::FBm, 2),
        r@[2] == spec_noise(NoiseKind::Perlin, 56, 98304, FractalKind::FBm, 4),
{
    let band_noise = make_noise(NoiseKind::OpenSimplex2, 1337, 327680, FractalKind::FBm, 3);
    let high_altitude_clouds = make_noise(NoiseKind::OpenSimplex2, 42, 196608, FractalKind::FBm, 2);
    let deep_atmospheric = make_noise(NoiseKind::Perlin, 56, 98304, FractalKind::FBm, 4);
    let mut v: Vec<NoiseConfig> = Vec::new();
    v.push(band_noise);
    v.push(high_altitude_clouds);
    v.push(deep_atmospheric);
    v
}

/// The three noise fields of the moon: large patches, mid detail, fine
/// detail.
pub fn create_moon_noises() -> (r: Vec<NoiseConfig>)
    ensures
        r@.len() == 3,
        r@[0] == spec_noise(NoiseKind::Perlin, 345, 65536, FractalKind::FBm, 4),
        r@[1] == spec_noise(NoiseKind::Perlin, 678, 327680, FractalKind::FBm, 3),
        r@[2] == spec_noise(NoiseKind::Perlin, 910, 655360, FractalKind::FBm, 2),
{
    let noise1 = make_noise(NoiseKind::Perlin, 345, 65536, FractalKind::FBm, 4);
    let noise2 = make_noise(NoiseKind::Perlin, 678, 327680, FractalKind::FBm, 3);
    let noise3 = make_noise(NoiseKind::Perlin, 910, 655360, FractalKind::FBm, 2);
    let mut v: Vec<NoiseConfig> = Vec::new();
    v.push(noise1);
    v.push(noise2);
    v.push(noise3);
    v
}

/// The two noise fields of the hazy yellow body: surface and atmosphere.
pub fn create_venus_noises() -> (r: Vec<NoiseConfig>)
    ensures
        r@.len() == 2,
        r@[0] == spec_noise(NoiseKind::OpenSimplex2, 1337, 327680, FractalKind::FBm, 3),
        r@[1] == spec_noise(NoiseKind::Perlin, 235, 32768, FractalKind::FBm, 4),
{
    let surface_noise = make_noise(NoiseKind::OpenSimplex2, 1337, 327680, FractalKind::FBm, 3);
    let atmosphere_noise = make_noise(NoiseKind::Perlin, 235, 32768, FractalKind::FBm, 4);
    let mut v: Vec<NoiseConfig> = Vec::new();
    v.push(surface_noise);
    v.push(atmosphere_noise);
    v
}

/// The three noise fields of the cratered body: Manhattan-cellular craters,
/// ridged texture, and low-frequency undulations.
pub fn create_mercury_noises() -> (r: Vec<NoiseConfig>)
    ensures
        r@.len() == 3,
        r@[0] == (NoiseConfig {
            cellular_distance: CellularDistanceKind::Manhattan,
            ..spec_noise(NoiseKind::Cellular, 2341, 32768, FractalKind::FBm, 4)
        }),
        r@[1] == spec_noise(NoiseKind::Perlin, 4567, 131072, FractalKind::Ridged, 3),
        r@[2] == spec_noise(NoiseKind::Perlin, 7890, 6554, FractalKind::FBm, 2),
{
    let mut crater_noise = make_noise(NoiseKind::Cellular, 2341, 32768, FractalKind::FBm, 4);
    crater_noise.set_cellular_distance(CellularDistanceKind::Manhattan);
    let texture_noise = make_noise(NoiseKind::Perlin, 4567, 131072, FractalKind::Ridged, 3);
    let undulation_noise = make_noise(NoiseKind::Perlin, 7890, 6554, FractalKind::FBm, 2);
    let mut v: Vec<NoiseConfig> = Vec::new();
    v.push(crater_noise);
    v.push(texture_noise);
    v.push(undulation_noise);
    v
}

} // verus!
