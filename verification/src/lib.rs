//! A two-dimensional particle simulation on saturating fixed-point numbers.
//!
//! An ensemble of point masses moves in the unit square under pairwise
//! forces, drag, gravity and the force of a pointer. One step of the
//! ensemble is a fixed number of micro-steps; a micro-step gathers every
//! force into each particle's accumulator and then advances each particle by
//! one velocity-Verlet step, after which the particle's domain mode deals
//! with the edge of the square.
//!
//! All quantities are scalars of [`fixed`], counted in units of 1e-18, so
//! that a run is the same on every machine. Each data type has a
//! mathematical value over unbounded integers, and every function states
//! its result as a function of those values. [`laws`] holds what follows
//! for every particle and every ensemble.
//!
//! Two things come from outside: the clock reading, which the caller hands
//! to [`simulation::Simulation::new`] and to every step, and the random
//! draws of [`random`], of which only the range is known.

pub mod fixed;
pub mod force;
pub mod laws;
pub mod particle;
pub mod random;
pub mod simulation;
pub mod spawn;
pub mod vector;
