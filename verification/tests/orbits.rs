use std::cell::Cell;

use solar_renderer::fixed::Fixed;
use solar_renderer::linalg::Vec3;
use solar_renderer::orbit::GasPlanet;
use solar_renderer::orbit::Moon;
use solar_renderer::orbit::OrbitingBody;
use solar_renderer::orbit::RockyPlanet;
use solar_renderer::orbit::Spaceship;
use solar_renderer::orbit::Star;
use solar_renderer::orbit::Startplanet;
use solar_renderer::orbit::Sun;

fn n(i: i32) -> Fixed {
    Fixed::from_int(i)
}

fn origin() -> Vec3 {
    Vec3::new(n(0), n(0), n(0))
}

#[test]
fn the_bodies_start_at_rest() {
    let moon: Moon = OrbitingBody::moon();
    let sun: Sun = OrbitingBody::sun();
    let gas: GasPlanet = OrbitingBody::gas_planet();
    let star: Star = OrbitingBody::star();
    let rocky: RockyPlanet = OrbitingBody::rocky_planet();
    let outer: Startplanet = OrbitingBody::start_planet();
    let expected = [
        (moon, 19660, 2, 1310),
        (sun, 32768, 3, 983),
        (gas, 39321, 4, 524),
        (star, 45875, 5, 393),
        (rocky, 55705, 6, 262),
        (outer, 55705, 8, 262),
    ];
    for (body, scale, radius, speed) in expected {
        assert_eq!(body.position, origin());
        assert_eq!(body.rotation, origin());
        assert_eq!(body.orbit_angle, n(0));
        assert_eq!(body.scale.raw, scale);
        assert_eq!(body.orbit_radius, n(radius));
        assert_eq!(body.orbit_speed.raw, speed);
    }
}

#[test]
fn the_spaceship_starts_off_its_circle() {
    let ship: Spaceship = OrbitingBody::spaceship();
    assert_eq!(ship.position, Vec3::new(n(2), n(0), n(-5)));
    assert_eq!(ship.rotation, origin());
    assert_eq!(ship.scale, n(1));
    assert_eq!(ship.orbit_angle, n(0));
    assert_eq!(ship.orbit_radius, n(9));
    assert_eq!(ship.orbit_speed.raw, 655);
}

#[test]
fn a_step_puts_the_body_on_its_circle() {
    let mut moon = OrbitingBody::moon();
    moon.position.y = n(7);
    assert_eq!(moon.next_angle().raw, 1310);
    moon.update_with(Fixed::from_ratio(1, 2), Fixed::from_ratio(-1, 2));
    assert_eq!(moon.position, Vec3::new(n(-1), n(7), n(1)));
    assert_eq!(moon.orbit_angle.raw, 1310);
    assert_eq!(moon.rotation, Vec3::new(n(0), Fixed::from_raw(655), n(0)));
    assert_eq!(moon.orbit_radius, n(2));
    assert_eq!(moon.scale.raw, 19660);
    assert_eq!(moon.orbit_speed.raw, 1310);
    assert_eq!(moon.next_angle().raw, 2620);
    moon.update_with(n(1), n(0));
    assert_eq!(moon.position, Vec3::new(n(0), n(7), n(2)));
    assert_eq!(moon.orbit_angle.raw, 2620);
    assert_eq!(moon.rotation, Vec3::new(n(0), Fixed::from_raw(1310), n(0)));
}

#[test]
fn a_step_asks_for_the_angle_it_moves_to() {
    let mut ship = OrbitingBody::spaceship();
    let asked = Cell::new(Fixed::from_raw(-1));
    let sin_cos = |angle: Fixed| {
        asked.set(angle);
        (n(0), n(1))
    };
    ship.update(&sin_cos);
    assert_eq!(asked.get().raw, 655);
    assert_eq!(ship.position, Vec3::new(n(9), n(0), n(0)));
    assert_eq!(ship.orbit_angle.raw, 655);
    ship.update(&sin_cos);
    assert_eq!(asked.get().raw, 1310);
    assert_eq!(ship.rotation.y.raw, 1310);
}

#[test]
fn the_angle_stops_at_the_largest_number() {
    let mut body = OrbitingBody::moon();
    body.orbit_angle = Fixed::from_raw(i32::MAX - 10);
    assert_eq!(body.next_angle(), Fixed::infinity());
    body.update_with(n(0), n(1));
    assert_eq!(body.orbit_angle, Fixed::infinity());
}
