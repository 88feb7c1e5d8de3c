//! The force model: potentials along one axis and the accelerations that
//! particles, the pointer and drag produce.
//!
//! A force between two points is not taken along the line that joins them.
//! Each axis is treated on its own: the potential is evaluated at the
//! separation along that axis, multiplied by the force's magnitude, and given
//! the sign of the separation.

use crate::fixed::{
    invert, lemma_mul_nonnegative, minus, negate, plus, recip, sat_add, sat_mul, sat_neg,
    sat_sub, times, EPSILON, FOUR,
};
use crate::simulation::{Simulation, FORCE_TYPE, MOUSE_STATE};
use crate::vector::{Vec2, Vec2View};
use vstd::prelude::*;

verus! {

/// The sixth power of a separation, built from its square.
pub open spec fn sixth_power(r: int) -> int {
    let r2 = sat_mul(r, r);
    sat_mul(sat_mul(r2, r2), r2)
}

/// The inverse-square-law potential `1 / (r^2 + EPSILON)`.
pub open spec fn isl_potential(r: int) -> int {
    recip(sat_add(sat_mul(r, r), EPSILON as int))
}

/// The Lennard-Jones-style potential `4 * (q^2 - q)` with
/// `q = 1 / (r^6 + EPSILON)`.
pub open spec fn lj_potential(r: int) -> int {
    let q = recip(sat_add(sixth_power(r), EPSILON as int));
    sat_mul(FOUR as int, sat_sub(sat_mul(q, q), q))
}

/// The potential that a pairwise force kind assigns to the signed
/// separation `distance` along one axis. Kinds that do not act between
/// pairs have none.
pub open spec fn pair_potential(kind: FORCE_TYPE, distance: int) -> int {
    match kind {
        FORCE_TYPE::ISL => sat_neg(isl_potential(distance)),
        FORCE_TYPE::LJ => lj_potential(distance),
        _ => 0,
    }
}

/// The acceleration along one axis: the force times the potential, with the
/// sign reversed when the signed separation is negative.
pub open spec fn axis_pull(force: int, potential: int, distance: int) -> int {
    let a = sat_mul(force, potential);
    if distance < 0 {
        sat_neg(a)
    } else {
        a
    }
}

/// The acceleration that the particle at `other` gives the particle at `me`.
/// Each axis is treated on its own, from the separation along that axis.
pub open spec fn pair_pull(
    kind: FORCE_TYPE,
    force: int,
    me: Vec2View,
    other: Vec2View,
) -> Vec2View {
    let d = other.minus(me);
    Vec2View {
        x: axis_pull(force, pair_potential(kind, d.x), d.x),
        y: axis_pull(force, pair_potential(kind, d.y), d.y),
    }
}

/// The potential of the pointer along one axis: Lennard-Jones-style,
/// reversed when the pointer repels.
pub open spec fn mouse_potential(state: MOUSE_STATE, distance: int) -> int {
    if state == MOUSE_STATE::REPULSIVE {
        sat_neg(lj_potential(distance))
    } else {
        lj_potential(distance)
    }
}

/// The acceleration that the pointer at `mouse` gives the particle at `me`.
pub open spec fn mouse_pull(
    state: MOUSE_STATE,
    force: int,
    me: Vec2View,
    mouse: Vec2View,
) -> Vec2View {
    let d = mouse.minus(me);
    Vec2View {
        x: axis_pull(force, mouse_potential(state, d.x), d.x),
        y: axis_pull(force, mouse_potential(state, d.y), d.y),
    }
}

/// The deceleration that quadratic drag takes from a velocity component:
/// `sign(v) * drag * v^2`.
pub open spec fn drag_pull(drag: int, v: int) -> int {
    sat_mul(
        if v < 0 {
            sat_neg(drag)
        } else {
            drag
        },
        sat_mul(v, v),
    )
}

/// The acceleration along one axis from a force, a potential and the signed
/// separation the potential was taken at.
pub fn axis_acceleration(force: i128, potential: i128, distance: i128) -> (r: i128)
    ensures
        r == axis_pull(force as int, potential as int, distance as int),
{
    let a: i128 = times(force, potential);
    if distance < 0 {
        negate(a)
    } else {
        a
    }
}

/// The deceleration that quadratic drag takes from a velocity component.
pub fn drag_deceleration(drag: i128, v: i128) -> (r: i128)
    ensures
        r == drag_pull(drag as int, v as int),
{
    let signed_drag: i128 = if v < 0 {
        negate(drag)
    } else {
        drag
    };
    times(signed_drag, times(v, v))
}

impl Simulation {
    /// The Lennard-Jones-style potential at the signed separation `r`.
    pub fn lj_potential(r: i128) -> (p: i128)
        ensures
            p == lj_potential(r as int),
    {
        let r2: i128 = times(r, r);
        let r4: i128 = times(r2, r2);
        let r6: i128 = times(r4, r2);
        proof {
            lemma_mul_nonnegative(r as int, r as int);
            lemma_mul_nonnegative(r2 as int, r2 as int);
            lemma_mul_nonnegative(r4 as int, r2 as int);
        }
        let q: i128 = invert(plus(r6, EPSILON));
        times(FOUR, minus(times(q, q), q))
    }

    /// The inverse-square-law potential at the signed separation `r`.
    pub fn isl_potential(r: i128) -> (p: i128)
        ensures
            p == isl_potential(r as int),
    {
        proof {
            lemma_mul_nonnegative(r as int, r as int);
        }
        invert(plus(times(r, r), EPSILON))
    }

    /// The acceleration that a particle at `other` gives a particle at `me`
    /// under a pairwise force kind.
    pub fn pair_acceleration(
        kind: FORCE_TYPE,
        force: i128,
        me: &Vec2,
        other: &Vec2,
    ) -> (r: Vec2)
        ensures
            r@ == pair_pull(kind, force as int, me@, other@),
    {
        let distance = other.minus(me);
        let mut potential = Vec2::zero();
        match kind {
            FORCE_TYPE::ISL => {
                potential.x = negate(Self::isl_potential(distance.x));
                potential.y = negate(Self::isl_potential(distance.y));
            },
            FORCE_TYPE::LJ => {
                potential.x = Self::lj_potential(distance.x);
                potential.y = Self::lj_potential(distance.y);
            },
            _ => {},
        }
        Vec2 {
            x: axis_acceleration(force, potential.x, distance.x),
            y: axis_acceleration(force, potential.y, distance.y),
        }
    }

    /// The acceleration that the pointer at `mouse` gives a particle at `me`.
    pub fn mouse_acceleration(
        state: MOUSE_STATE,
        force: i128,
        me: &Vec2,
        mouse: &Vec2,
    ) -> (r: Vec2)
        ensures
            r@ == mouse_pull(state, force as int, me@, mouse@),
    {
        let distance = mouse.minus(me);
        let lj_x: i128 = Self::lj_potential(distance.x);
        let lj_y: i128 = Self::lj_potential(distance.y);
        let potential = if state == MOUSE_STATE::REPULSIVE {
            Vec2 { x: negate(lj_x), y: negate(lj_y) }
        } else {
            Vec2 { x: lj_x, y: lj_y }
        };
        Vec2 {
            x: axis_acceleration(force, potential.x, distance.x),
            y: axis_acceleration(force, potential.y, distance.y),
        }
    }
}

} // verus!
