//! Pairs of fixed-point scalars: positions, velocities and accelerations.

use crate::fixed::{minus, negate, plus, sat_add, sat_mul, sat_neg, sat_sub, times};
use vstd::prelude::*;

verus! {

/// The mathematical value of a [`Vec2`]: two raw scalars.
pub struct Vec2View {
    pub x: int,
    pub y: int,
}

impl Vec2View {
    /// The vector with both components zero.
    pub open spec fn zero() -> Vec2View {
        Vec2View { x: 0, y: 0 }
    }

    /// The component-wise saturating sum.
    pub open spec fn plus(self, other: Vec2View) -> Vec2View {
        Vec2View { x: sat_add(self.x, other.x), y: sat_add(self.y, other.y) }
    }

    /// The component-wise saturating difference `self - other`.
    pub open spec fn minus(self, other: Vec2View) -> Vec2View {
        Vec2View { x: sat_sub(self.x, other.x), y: sat_sub(self.y, other.y) }
    }

    /// Both components multiplied by the scalar `k`.
    pub open spec fn scaled(self, k: int) -> Vec2View {
        Vec2View { x: sat_mul(self.x, k), y: sat_mul(self.y, k) }
    }

    /// Both components negated.
    pub open spec fn negated(self) -> Vec2View {
        Vec2View { x: sat_neg(self.x), y: sat_neg(self.y) }
    }
}

/// A vector of two fixed-point scalars, each counted in units of 1e-18.
#[derive(Clone, Copy, Debug, PartialEq, Eq, Structural)]
pub struct Vec2 {
    pub x: i128,
    pub y: i128,
}

impl View for Vec2 {
    type V = Vec2View;

    open spec fn view(&self) -> Vec2View {
        Vec2View { x: self.x as int, y: self.y as int }
    }
}

impl Vec2 {
    /// The vector with the raw components `x` and `y`.
    pub fn new(x: i128, y: i128) -> (r: Vec2)
        ensures
            r.x == x,
            r.y == y,
    {
        Vec2 { x, y }
    }

    /// The vector with both components zero.
    pub fn zero() -> (r: Vec2)
        ensures
            r@ == Vec2View::zero(),
    {
        Vec2 { x: 0, y: 0 }
    }

    /// The component-wise sum of two vectors.
    pub fn plus(&self, other: &Vec2) -> (r: Vec2)
        ensures
            r@ == self@.plus(other@),
    {
        Vec2 { x: plus(self.x, other.x), y: plus(self.y, other.y) }
    }

    /// The component-wise difference `self - other`.
    pub fn minus(&self, other: &Vec2) -> (r: Vec2)
        ensures
            r@ == self@.minus(other@),
    {
        Vec2 { x: minus(self.x, other.x), y: minus(self.y, other.y) }
    }

    /// The vector with both components multiplied by the scalar `k`.
    pub fn scaled(&self, k: i128) -> (r: Vec2)
        ensures
            r@ == self@.scaled(k as int),
    {
        Vec2 { x: times(self.x, k), y: times(self.y, k) }
    }

    /// The vector with both components negated.
    pub fn negated(&self) -> (r: Vec2)
        ensures
            r@ == self@.negated(),
    {
        Vec2 { x: negate(self.x), y: negate(self.y) }
    }
}

} // verus!
