//! The bodies of the scene and their circular orbits.
//!
//! A body circles the origin in the plane of x and z and spins about its own y axis. Sines and
//! cosines are not computed here: a step takes them from the caller, for the angle that the
//! step moves the body to.

use vstd::prelude::*;
use crate::fixed::Fixed;
use crate::linalg::Vec3;

verus! {

/// A body on a circular orbit.
#[derive(Clone, Copy, Debug, PartialEq, Eq, Structural)]
pub struct OrbitingBody {
    pub position: Vec3,
    pub scale: Fixed,
    /// The Euler angles of the body's own rotation.
    pub rotation: Vec3,
    pub orbit_angle: Fixed,
    pub orbit_radius: Fixed,
    /// How far the orbit angle moves in one step.
    pub orbit_speed: Fixed,
}

pub type Moon = OrbitingBody;

pub type Sun = OrbitingBody;

pub type GasPlanet = OrbitingBody;

pub type Star = OrbitingBody;

pub type RockyPlanet = OrbitingBody;

pub type Startplanet = OrbitingBody;

pub type Spaceship = OrbitingBody;

/// How far a body spins about its own axis in one step: a hundredth.
pub open spec fn spin_step() -> Fixed {
    Fixed::spec_from_ratio(1, 100)
}

impl OrbitingBody {
    /// A body at rest at `position`, with orbit angle zero.
    pub open spec fn at_rest(
        position: Vec3,
        scale: Fixed,
        orbit_radius: Fixed,
        orbit_speed: Fixed,
    ) -> OrbitingBody {
        OrbitingBody {
            position,
            scale,
            rotation: Vec3 { x: Fixed::zero(), y: Fixed::zero(), z: Fixed::zero() },
            orbit_angle: Fixed::zero(),
            orbit_radius,
            orbit_speed,
        }
    }

    /// The orbit angle after the next step.
    pub open spec fn spec_next_angle(self) -> Fixed {
        self.orbit_angle.spec_plus(self.orbit_speed)
    }

    /// The body after one step, given the sine and cosine of the angle that the step moves it
    /// to: it stands on its circle at that angle, at the height it had, and has spun on by one
    /// spin step.
    pub open spec fn stepped(self, sin: Fixed, cos: Fixed) -> OrbitingBody {
        OrbitingBody {
            position: Vec3 {
                x: cos.spec_times(self.orbit_radius),
                y: self.position.y,
                z: sin.spec_times(self.orbit_radius),
            },
            rotation: Vec3 {
                x: self.rotation.x,
                y: self.rotation.y.spec_plus(spin_step()),
                z: self.rotation.z,
            },
            orbit_angle: self.spec_next_angle(),
            ..self
        }
    }

    fn resting(position: Vec3, scale: Fixed, orbit_radius: Fixed, orbit_speed: Fixed) -> (body:
        OrbitingBody)
        ensures
            body == OrbitingBody::at_rest(position, scale, orbit_radius, orbit_speed),
    {
        let o: Fixed = Fixed::zero();
        OrbitingBody {
            position,
            scale,
            rotation: Vec3 { x: o, y: o, z: o },
            orbit_angle: o,
            orbit_radius,
            orbit_speed,
        }
    }

    fn origin() -> (p: Vec3)
        ensures
            p == (Vec3 { x: Fixed::zero(), y: Fixed::zero(), z: Fixed::zero() }),
    {
        Vec3 { x: Fixed::zero(), y: Fixed::zero(), z: Fixed::zero() }
    }

    /// The moon: three tenths in size, on a circle of radius 2, a fiftieth per step.
    pub fn moon() -> (body: Moon)
        ensures
            body == OrbitingBody::at_rest(
                Vec3 { x: Fixed::zero(), y: Fixed::zero(), z: Fixed::zero() },
                Fixed::spec_from_ratio(3, 10),
                Fixed::spec_from_int(2),
                Fixed::spec_from_ratio(2, 100),
            ),
    {
        OrbitingBody::resting(
            OrbitingBody::origin(),
            Fixed::from_ratio(3, 10),
            Fixed::from_int(2),
            Fixed::from_ratio(2, 100),
        )
    }

    /// The sun: half in size, on a circle of radius 3, fifteen thousandths per step.
    pub fn sun() -> (body: Sun)
        ensures
            body == OrbitingBody::at_rest(
                Vec3 { x: Fixed::zero(), y: Fixed::zero(), z: Fixed::zero() },
                Fixed::spec_from_ratio(1, 2),
                Fixed::spec_from_int(3),
                Fixed::spec_from_ratio(15, 1000),
            ),
    {
        OrbitingBody::resting(
            OrbitingBody::origin(),
            Fixed::from_ratio(1, 2),
            Fixed::from_int(3),
            Fixed::from_ratio(15, 1000),
        )
    }

    /// The gas planet: six tenths in size, on a circle of radius 4, eight thousandths per step.
    pub fn gas_planet() -> (body: GasPlanet)
        ensures
            body == OrbitingBody::at_rest(
                Vec3 { x: Fixed::zero(), y: Fixed::zero(), z: Fixed::zero() },
                Fixed::spec_from_ratio(6, 10),
                Fixed::spec_from_int(4),
                Fixed::spec_from_ratio(8, 1000),
            ),
    {
        OrbitingBody::resting(
            OrbitingBody::origin(),
            Fixed::from_ratio(6, 10),
            Fixed::from_int(4),
            Fixed::from_ratio(8, 1000),
        )
    }

    /// The star: seven tenths in size, on a circle of radius 5, six thousandths per step.
    pub fn star() -> (body: Star)
        ensures
            body == OrbitingBody::at_rest(
                Vec3 { x: Fixed::zero(), y: Fixed::zero(), z: Fixed::zero() },
                Fixed::spec_from_ratio(7, 10),
                Fixed::spec_from_int(5),
                Fixed::spec_from_ratio(6, 1000),
            ),
    {
        OrbitingBody::resting(
            OrbitingBody::origin(),
            Fixed::from_ratio(7, 10),
            Fixed::from_int(5),
            Fixed::from_ratio(6, 1000),
        )
    }

    /// The rocky planet: 0.85 in size, on a circle of radius 6, four thousandths per step.
    pub fn rocky_planet() -> (body: RockyPlanet)
        ensures
            body == OrbitingBody::at_rest(
                Vec3 { x: Fixed::zero(), y: Fixed::zero(), z: Fixed::zero() },
                Fixed::spec_from_ratio(85, 100),
                Fixed::spec_from_int(6),
                Fixed::spec_from_ratio(4, 1000),
            ),
    {
        OrbitingBody::resting(
            OrbitingBody::origin(),
            Fixed::from_ratio(85, 100),
            Fixed::from_int(6),
            Fixed::from_ratio(4, 1000),
        )
    }

    /// The outer planet: 0.85 in size, on a circle of radius 8, four thousandths per step.
    pub fn start_planet() -> (body: Startplanet)
        ensures
            body == OrbitingBody::at_rest(
                Vec3 { x: Fixed::zero(), y: Fixed::zero(), z: Fixed::zero() },
                Fixed::spec_from_ratio(85, 100),
                Fixed::spec_from_int(8),
                Fixed::spec_from_ratio(4, 1000),
            ),
    {
        OrbitingBody::resting(
            OrbitingBody::origin(),
            Fixed::from_ratio(85, 100),
            Fixed::from_int(8),
            Fixed::from_ratio(4, 1000),
        )
    }

    /// The spaceship: full size, starting off its circle at `(2, 0, -5)`; the circle has
    /// radius 9, and the ship moves a hundredth per step.
    pub fn spaceship() -> (body: Spaceship)
        ensures
            body == OrbitingBody::at_rest(
                Vec3 {
                    x: Fixed::spec_from_int(2),
                    y: Fixed::zero(),
                    z: Fixed::spec_from_int(-5i32),
                },
                Fixed::one(),
                Fixed::spec_from_int(9),
                Fixed::spec_from_ratio(1, 100),
            ),
    {
        OrbitingBody::resting(
            Vec3 { x: Fixed::from_int(2), y: Fixed::zero(), z: Fixed::from_int(-5) },
            Fixed::one(),
            Fixed::from_int(9),
            Fixed::from_ratio(1, 100),
        )
    }

    /// The orbit angle after the next step: the angle whose sine and cosine the step needs.
    #[verifier::when_used_as_spec(spec_next_angle)]
    pub fn next_angle(self) -> (angle: Fixed)
        ensures
            angle == self.spec_next_angle(),
    {
        self.orbit_angle.plus(self.orbit_speed)
    }

    /// Moves the body one step along its orbit, given the sine and cosine of `next_angle()`.
    pub fn update_with(&mut self, sin: Fixed, cos: Fixed)
        ensures
            *final(self) == old(self).stepped(sin, cos),
    {
        self.orbit_angle = self.orbit_angle.plus(self.orbit_speed);
        self.position.x = cos.times(self.orbit_radius);
        self.position.z = sin.times(self.orbit_radius);
        self.rotation.y = self.rotation.y.plus(Fixed::from_ratio(1, 100));
    }

    /// Moves the body one step along its orbit, asking `sin_cos` for the sine and cosine of the
    /// angle it moves to.
    pub fn update<T: Fn(Fixed) -> (Fixed, Fixed)>(&mut self, sin_cos: &T)
        requires
            call_requires(*sin_cos, (old(self).spec_next_angle(),)),
        ensures
            exists|sin: Fixed, cos: Fixed|
                call_ensures(*sin_cos, (old(self).spec_next_angle(),), (sin, cos)) && *final(self)
                    == #[trigger] old(self).stepped(sin, cos),
    {
        let (sin, cos): (Fixed, Fixed) = sin_cos(self.next_angle());
        self.update_with(sin, cos);
    }
}

} // verus!
