use vstd::prelude::*;

verus! {

/// The kinds of body the scene draws; each selects a shader and a trail colour.
#[derive(Clone, Copy, Debug, PartialEq, Eq, Structural)]
pub enum PlanetType {
    Sun,
    RockyPlanet,
    Earth,
    CrystalPlanet,
    FirePlanet,
    WaterPlanet,
    CloudPlanet,
    Moon,
    Asteroid,
    Spaceship,
    Trail,
}

/// The `0xAARRGGBB` colour of the trail particles a body of this kind leaves.
pub open spec fn spec_trail_color(planet_type: PlanetType) -> u32 {
    match planet_type {
        PlanetType::Sun => 0xFFFFA500,
        PlanetType::RockyPlanet => 0xFFD2B48C,
        PlanetType::Earth => 0xFF32CD32,
        PlanetType::CrystalPlanet => 0xFFFF00FF,
        PlanetType::FirePlanet => 0xFFFF4500,
        PlanetType::WaterPlanet => 0xFF40E0D0,
        PlanetType::CloudPlanet => 0xFFFFD700,
        PlanetType::Moon => 0xFF9370DB,
        PlanetType::Asteroid => 0xFFFFA500,
        PlanetType::Spaceship => 0xFFFFFFFF,
        PlanetType::Trail => 0xFF888888,
    }
}

/// Trail colour of a body: an opaque (`alpha == 0xFF`) colour chosen by its kind alone.
pub fn trail_color(planet_type: &PlanetType) -> (c: u32)
    ensures
        c == spec_trail_color(*planet_type),
        c >= 0xFF00_0000,
{
    match planet_type {
        PlanetType::Sun => 0xFFFFA500,
        PlanetType::RockyPlanet => 0xFFD2B48C,
        PlanetType::Earth => 0xFF32CD32,
        PlanetType::CrystalPlanet => 0xFFFF00FF,
        PlanetType::FirePlanet => 0xFFFF4500,
        PlanetType::WaterPlanet => 0xFF40E0D0,
        PlanetType::CloudPlanet => 0xFFFFD700,
        PlanetType::Moon => 0xFF9370DB,
        PlanetType::Asteroid => 0xFFFFA500,
        PlanetType::Spaceship => 0xFFFFFFFF,
        PlanetType::Trail => 0xFF888888,
    }
}

/// Whether a body of this kind is the moon (its trail is short-lived and thin).
pub fn is_moon(planet_type: &PlanetType) -> (b: bool)
    ensures
        b == (*planet_type == PlanetType::Moon),
{
    match planet_type {
        PlanetType::Moon => true,
        _ => false,
    }
}

} // verus!
