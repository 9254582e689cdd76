use solar_system::color::{blend_layers, Color};
use solar_system::planet::{is_moon, trail_color, PlanetType};

#[test]
fn blend_layers_matches_rounded_halfway_lerp() {
    for a in 0u16..=255 {
        for b in 0u16..=255 {
            let (a8, b8) = (a as u8, b as u8);
            let expected = (a8 as f32 + (b8 as f32 - a8 as f32) * 0.5).round() as u8;
            let c = blend_layers(Color::new(a8, 0, 255), Color::new(b8, 255, 0));
            assert_eq!(c.r, expected);
        }
    }
}

#[test]
fn blend_layers_exact_values() {
    let c = blend_layers(Color::new(100, 100, 255), Color::new(1, 0, 200));
    assert_eq!(c, Color::new(51, 50, 228));
    let same = Color::new(30, 97, 145);
    assert_eq!(blend_layers(same, same), same);
    let x = Color::new(0, 255, 7);
    let y = Color::new(255, 0, 8);
    assert_eq!(blend_layers(x, y), blend_layers(y, x));
    assert_eq!(blend_layers(x, y), Color::new(128, 128, 8));
}

#[test]
fn to_hex_packs_rgb() {
    assert_eq!(Color::new(0x12, 0x34, 0x56).to_hex(), 0x123456);
    assert_eq!(Color::new(255, 255, 255).to_hex(), 0xFFFFFF);
    assert_eq!(Color::new(0, 0, 0).to_hex(), 0);
    let c = Color::new(192, 192, 192);
    assert_eq!(c.to_hex() >> 16, 192);
}

#[test]
fn trail_colors_by_planet_type() {
    assert_eq!(trail_color(&PlanetType::Sun), 0xFFFFA500);
    assert_eq!(trail_color(&PlanetType::RockyPlanet), 0xFFD2B48C);
    assert_eq!(trail_color(&PlanetType::Earth), 0xFF32CD32);
    assert_eq!(trail_color(&PlanetType::CrystalPlanet), 0xFFFF00FF);
    assert_eq!(trail_color(&PlanetType::FirePlanet), 0xFFFF4500);
    assert_eq!(trail_color(&PlanetType::WaterPlanet), 0xFF40E0D0);
    assert_eq!(trail_color(&PlanetType::CloudPlanet), 0xFFFFD700);
    assert_eq!(trail_color(&PlanetType::Moon), 0xFF9370DB);
    assert_eq!(trail_color(&PlanetType::Asteroid), 0xFFFFA500);
    assert_eq!(trail_color(&PlanetType::Spaceship), 0xFFFFFFFF);
    assert_eq!(trail_color(&PlanetType::Trail), 0xFF888888);
}

#[test]
fn trail_colors_are_opaque() {
    let all = [
        PlanetType::Sun,
        PlanetType::RockyPlanet,
        PlanetType::Earth,
        PlanetType::CrystalPlanet,
        PlanetType::FirePlanet,
        PlanetType::WaterPlanet,
        PlanetType::CloudPlanet,
        PlanetType::Moon,
        PlanetType::Asteroid,
        PlanetType::Spaceship,
        PlanetType::Trail,
    ];
    for p in all.iter() {
        assert_eq!(trail_color(p) >> 24, 0xFF);
        assert_eq!(is_moon(p), *p == PlanetType::Moon);
    }
}
