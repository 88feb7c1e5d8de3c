//! A single particle: its state, velocity-Verlet integration and the
//! treatment of the domain's edge.

use crate::fixed::{negate, sat_mul, sat_neg, times, HALF, ONE};
use crate::simulation::DOMAIN_MODE;
use crate::vector::{Vec2, Vec2View};
use vstd::prelude::*;

verus! {

/// The mathematical value of a [`Particle`].
pub struct ParticleView {
    pub position: Vec2View,
    pub velocity: Vec2View,
    pub acceleration: Vec2View,
    pub new_acceleration: Vec2View,
    pub domain_wrap: DOMAIN_MODE,
}

/// A coordinate under `WRAP`: past the upper edge it restarts at the lower
/// edge, past the lower edge at the upper one, whatever the overshoot.
pub open spec fn wrapped_coordinate(x: int) -> int {
    if x > ONE {
        0
    } else if x < 0 {
        ONE as int
    } else {
        x
    }
}

/// A coordinate under `WALL`: held on the edge it crossed.
pub open spec fn walled_coordinate(x: int) -> int {
    if x > ONE {
        ONE as int
    } else if x < 0 {
        0
    } else {
        x
    }
}

/// Whether a coordinate has left the unit interval. The two ends of the
/// interval are inside.
pub open spec fn is_outside(x: int) -> bool {
    x > ONE || x < 0
}

/// A velocity component under `WALL`: reversed when the coordinate `x` it
/// belongs to has left the unit interval.
pub open spec fn walled_speed(x: int, v: int) -> int {
    if is_outside(x) {
        sat_neg(v)
    } else {
        v
    }
}

impl ParticleView {
    /// One velocity-Verlet step of length `dt`, before the edge is enforced.
    ///
    /// The position advances by the velocity and by half the acceleration of
    /// the previous step; the velocity advances by the mean of that
    /// acceleration and the pending one; the pending acceleration becomes the
    /// current one and stays in the accumulator.
    pub open spec fn integrated(self, dt: int) -> ParticleView {
        let half_dt_squared = sat_mul(sat_mul(dt, dt), HALF as int);
        let half_dt = sat_mul(dt, HALF as int);
        ParticleView {
            position: self.position.plus(self.velocity.scaled(dt)).plus(
                self.acceleration.scaled(half_dt_squared),
            ),
            velocity: self.velocity.plus(
                self.acceleration.plus(self.new_acceleration).scaled(half_dt),
            ),
            acceleration: self.new_acceleration,
            new_acceleration: self.new_acceleration,
            domain_wrap: self.domain_wrap,
        }
    }

    /// The particle after its domain mode has dealt with the edge.
    pub open spec fn confined(self) -> ParticleView {
        match self.domain_wrap {
            DOMAIN_MODE::WRAP => ParticleView {
                position: Vec2View {
                    x: wrapped_coordinate(self.position.x),
                    y: wrapped_coordinate(self.position.y),
                },
                ..self
            },
            DOMAIN_MODE::WALL => ParticleView {
                position: Vec2View {
                    x: walled_coordinate(self.position.x),
                    y: walled_coordinate(self.position.y),
                },
                velocity: Vec2View {
                    x: walled_speed(self.position.x, self.velocity.x),
                    y: walled_speed(self.position.y, self.velocity.y),
                },
                ..self
            },
            DOMAIN_MODE::INFINITE => self,
        }
    }

    /// One full update: integration, then the edge.
    pub open spec fn updated(self, dt: int) -> ParticleView {
        self.integrated(dt).confined()
    }
}

/// A point mass in the unit square.
#[derive(Clone, Copy, Debug)]
pub struct Particle {
    /// Where the particle is, in the coordinates of the unit square.
    pub position: Vec2,
    pub velocity: Vec2,
    /// The acceleration that acted during the last completed step.
    pub acceleration: Vec2,
    /// The accumulator for the step in progress. An update reads it and
    /// leaves it as it is; whoever gathers forces empties it first.
    pub new_acceleration: Vec2,
    /// What the particle does at the edge of the unit square.
    pub domain_wrap: DOMAIN_MODE,
}

impl View for Particle {
    type V = ParticleView;

    open spec fn view(&self) -> ParticleView {
        ParticleView {
            position: self.position@,
            velocity: self.velocity@,
            acceleration: self.acceleration@,
            new_acceleration: self.new_acceleration@,
            domain_wrap: self.domain_wrap,
        }
    }
}

impl Particle {
    /// A particle at rest in the force field: both accelerations are zero.
    pub fn new(position: Vec2, velocity: Vec2, domain_wrap: DOMAIN_MODE) -> (r: Self)
        ensures
            r@ == (ParticleView {
                position: position@,
                velocity: velocity@,
                acceleration: Vec2View::zero(),
                new_acceleration: Vec2View::zero(),
                domain_wrap,
            }),
    {
        Self {
            position,
            velocity,
            acceleration: Vec2::zero(),
            new_acceleration: Vec2::zero(),
            domain_wrap,
        }
    }

    /// The position as the two entries this particle contributes to a packed
    /// position buffer.
    pub fn to_flat(&self) -> (r: Vec<i128>)
        ensures
            r@ == seq![self.position.x, self.position.y],
    {
        let mut flat: Vec<i128> = Vec::new();
        flat.push(self.position.x);
        flat.push(self.position.y);
        assert(flat@ =~= seq![self.position.x, self.position.y]);
        flat
    }

    /// Advances the particle by one step of length `dt` and enforces the edge
    /// of the domain.
    pub fn update(&mut self, dt: i128)
        ensures
            final(self)@ == old(self)@.updated(dt as int),
    {
        let half_dt_squared: i128 = times(times(dt, dt), HALF);
        let half_dt: i128 = times(dt, HALF);
        let new_pos = self.position.plus(&self.velocity.scaled(dt)).plus(
            &self.acceleration.scaled(half_dt_squared),
        );
        let new_vel = self.velocity.plus(
            &self.acceleration.plus(&self.new_acceleration).scaled(half_dt),
        );
        self.position = new_pos;
        self.velocity = new_vel;
        self.acceleration = self.new_acceleration;

        match self.domain_wrap {
            DOMAIN_MODE::WRAP => {
                if self.position.x > ONE {
                    self.position.x = 0;
                } else if self.position.x < 0 {
                    self.position.x = ONE;
                }
                if self.position.y > ONE {
                    self.position.y = 0;
                } else if self.position.y < 0 {
                    self.position.y = ONE;
                }
            },
            DOMAIN_MODE::WALL => {
                if self.position.x > ONE {
                    self.position.x = ONE;
                    self.velocity.x = negate(self.velocity.x);
                } else if self.position.x < 0 {
                    self.position.x = 0;
                    self.velocity.x = negate(self.velocity.x);
                }
                if self.position.y > ONE {
                    self.position.y = ONE;
                    self.velocity.y = negate(self.velocity.y);
                } else if self.position.y < 0 {
                    self.position.y = 0;
                    self.velocity.y = negate(self.velocity.y);
                }
            },
            DOMAIN_MODE::INFINITE => {},
        }
    }
}

} // verus!
