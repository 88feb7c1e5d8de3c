//! Where and how fast particles are spawned.
//!
//! A particle is spawned on a ring: at a radius drawn from
//! `[SPAWN_RADIUS_MIN, SPAWN_RADIUS_MAX)`, in a direction that the caller
//! supplies as the cosine and the sine of an angle. Cosine and sine are
//! brought from `[-1, 1]` to `[0, 1]`, scaled by the radius and shifted, so
//! that the cluster sits in the middle of the unit square.

use crate::fixed::{half_of, halve, plus, sat_add, sat_mul, times, ONE};
use crate::particle::ParticleView;
use crate::random::draw_between;
use crate::simulation::{Simulation, DOMAIN_MODE};
use crate::vector::{Vec2, Vec2View};
use vstd::prelude::*;

verus! {

/// The smallest radius at which a particle is spawned: 0.6.
pub const SPAWN_RADIUS_MIN: i128 = 600_000_000_000_000_000;

/// The bound below which every spawn radius lies: 0.7.
pub const SPAWN_RADIUS_MAX: i128 = 700_000_000_000_000_000;

/// The offset that centres the spawn cluster in the unit square: 0.15.
pub const SPAWN_SHIFT: i128 = 150_000_000_000_000_000;

/// A cosine or sine, which lies between -1 and 1, brought between 0 and 1.
pub open spec fn remap_trig(value: int) -> int {
    half_of(sat_add(value, ONE as int))
}

/// The spawn position at radius `r` in the direction whose cosine and sine
/// are the components of `direction`.
pub open spec fn spawn_point(direction: Vec2View, r: int) -> Vec2View {
    Vec2View {
        x: sat_add(sat_mul(remap_trig(direction.x), r), SPAWN_SHIFT as int),
        y: sat_add(sat_mul(remap_trig(direction.y), r), SPAWN_SHIFT as int),
    }
}

/// Whether `v` is a velocity component as it is spawned under the bound
/// `max_spawn_velocity`: a value of `[-max_spawn_velocity, max_spawn_velocity)`
/// or, where the bound is not positive and that range is empty, zero.
pub open spec fn spawn_speed(v: int, max_spawn_velocity: int) -> bool {
    if max_spawn_velocity > 0 {
        -max_spawn_velocity <= v < max_spawn_velocity
    } else {
        v == 0
    }
}

/// Whether `p` is a particle as it is spawned in the given direction: at a
/// radius from the spawn range, with spawn speeds under the bound
/// `max_spawn_velocity` as its velocity components, and at rest in the force
/// field.
pub open spec fn spawned(
    p: ParticleView,
    direction: Vec2View,
    max_spawn_velocity: int,
    mode: DOMAIN_MODE,
) -> bool {
    &&& exists|r: int|
        SPAWN_RADIUS_MIN <= r < SPAWN_RADIUS_MAX && p.position == #[trigger] spawn_point(
            direction,
            r,
        )
    &&& spawn_speed(p.velocity.x, max_spawn_velocity)
    &&& spawn_speed(p.velocity.y, max_spawn_velocity)
    &&& p.acceleration == Vec2View::zero()
    &&& p.new_acceleration == Vec2View::zero()
    &&& p.domain_wrap == mode
}

impl Simulation {
    /// Brings a cosine or sine from between -1 and 1 to between 0 and 1.
    pub fn remap_trig(value: i128) -> (r: i128)
        ensures
            r == remap_trig(value as int),
    {
        halve(plus(value, ONE))
    }

    /// The spawn position at radius `r` in the direction whose cosine and
    /// sine are the components of `direction`.
    pub fn spawn_coord(direction: &Vec2, r: i128) -> (p: Vec2)
        ensures
            p@ == spawn_point(direction@, r as int),
    {
        Vec2 {
            x: plus(times(Self::remap_trig(direction.x), r), SPAWN_SHIFT),
            y: plus(times(Self::remap_trig(direction.y), r), SPAWN_SHIFT),
        }
    }

    /// A spawn position in the given direction, at a radius drawn from the
    /// spawn range.
    pub fn rand_coord(rng: &mut rand::rngs::ThreadRng, direction: &Vec2) -> (p: Vec2)
        ensures
            exists|r: int|
                SPAWN_RADIUS_MIN <= r < SPAWN_RADIUS_MAX && p@ == #[trigger] spawn_point(
                    direction@,
                    r,
                ),
    {
        let r: i128 = draw_between(rng, SPAWN_RADIUS_MIN, SPAWN_RADIUS_MAX);
        let p = Self::spawn_coord(direction, r);
        assert(p@ == spawn_point(direction@, r as int));
        p
    }

    /// A spawn velocity: each component is drawn from
    /// `[-max_spawn_velocity, max_spawn_velocity)`. A bound that is not
    /// positive leaves nothing to draw from and gives the velocity zero.
    pub fn rand_velocity(rng: &mut rand::rngs::ThreadRng, max_spawn_velocity: i128) -> (v: Vec2)
        ensures
            spawn_speed(v.x as int, max_spawn_velocity as int),
            spawn_speed(v.y as int, max_spawn_velocity as int),
    {
        if max_spawn_velocity > 0 {
            Vec2::new(
                draw_between(rng, -max_spawn_velocity, max_spawn_velocity),
                draw_between(rng, -max_spawn_velocity, max_spawn_velocity),
            )
        } else {
            Vec2::zero()
        }
    }
}

} // verus!
