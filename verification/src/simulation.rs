//! The particle ensemble: forces, micro-steps and interactive controls.

use crate::fixed::{minus, sat_sub};
use crate::force::{drag_deceleration, drag_pull, mouse_pull, pair_pull};
use crate::particle::{Particle, ParticleView};
use crate::spawn::spawned;
use crate::vector::{Vec2, Vec2View};
use vstd::prelude::*;

verus! {

/// The kinds of force that can be accumulated onto the ensemble.
#[allow(non_camel_case_types)]
#[derive(Clone, Copy, Debug, PartialEq, Eq, Structural)]
pub enum FORCE_TYPE {
    /// Pairwise inverse-square-law force.
    ISL,
    /// Pairwise Lennard-Jones-style force.
    LJ,
    /// Quadratic drag opposing each particle's own motion.
    PROPORTIONAL,
    /// The force exerted by the pointer.
    MOUSE,
    /// A uniform downward field.
    GRAVITY,
}

/// Whether the pointer pulls particles in or pushes them away.
#[allow(non_camel_case_types)]
#[derive(Clone, Copy, Debug, PartialEq, Eq, Structural)]
pub enum MOUSE_STATE {
    /// The pointer's potential is taken as it is.
    ATTRACTIVE,
    /// The pointer's potential is taken with its sign reversed.
    REPULSIVE,
}

/// What happens to a particle at the edge of the unit square.
#[allow(non_camel_case_types)]
#[derive(Clone, Copy, Debug, PartialEq, Eq, Structural)]
pub enum DOMAIN_MODE {
    /// A coordinate that leaves the square re-enters at the opposite edge.
    WRAP,
    /// The square has no edge; particles may leave it for good.
    INFINITE,
    /// A coordinate that leaves the square is put back on the edge it
    /// crossed and the matching velocity component is reversed.
    WALL,
}

/// The magnitude of the gravitational field: 1e7.
pub const GRAVITY_FORCE: i128 = 10_000_000_000_000_000_000_000_000;

/// The magnitude of the pointer's force: 0.001.
pub const MOUSE_FORCE: i128 = 1_000_000_000_000_000;

/// The number of particles in the default ensemble.
pub const DEFAULT_PARTICLES: usize = 200;

/// The default length of a micro-step: 1e-5.
pub const DEFAULT_DT: i128 = 10_000_000_000_000;

/// The default magnitude of the inverse-square-law force: 0.001.
pub const DEFAULT_ATTRACTIVE_FORCE: i128 = 1_000_000_000_000_000;

/// The default magnitude of the Lennard-Jones-style force: 2e-6.
pub const DEFAULT_REPULSIVE_FORCE: i128 = 2_000_000_000_000;

/// The default drag coefficient: 0.5.
pub const DEFAULT_DRAG: i128 = 500_000_000_000_000_000;

/// The default bound on a spawn velocity component: 10.
pub const DEFAULT_SPAWN_VELOCITY: i128 = 10_000_000_000_000_000_000;

/// The mathematical value of a [`Simulation`].
pub struct SimulationView {
    pub particles: Seq<ParticleView>,
    pub t_start: int,
    pub t: int,
    pub dt: int,
    pub attractive_force: int,
    pub repulsive_force: int,
    pub drag: int,
    pub microsteps: int,
    pub mouse_position: Vec2View,
    pub mouse_state: MOUSE_STATE,
    pub mouse_active: bool,
    pub gravity: bool,
}

impl SimulationView {
    /// The accumulator `start` of particle `i` after the particles before
    /// index `upto` have acted on it, in ensemble order. A particle does not
    /// act on itself.
    pub open spec fn pairwise_sum(
        self,
        i: int,
        upto: int,
        force: int,
        kind: FORCE_TYPE,
        start: Vec2View,
    ) -> Vec2View
        decreases upto,
    {
        if upto <= 0 {
            start
        } else {
            let before = self.pairwise_sum(i, upto - 1, force, kind, start);
            if upto - 1 == i {
                before
            } else {
                before.plus(
                    pair_pull(
                        kind,
                        force,
                        self.particles[i].position,
                        self.particles[upto - 1].position,
                    ),
                )
            }
        }
    }

    /// The accumulator of particle `i` after a force of the given kind and
    /// magnitude has been added to it.
    pub open spec fn accumulated(self, i: int, force: int, kind: FORCE_TYPE) -> Vec2View {
        let p = self.particles[i];
        match kind {
            FORCE_TYPE::PROPORTIONAL => Vec2View {
                x: sat_sub(p.new_acceleration.x, drag_pull(self.drag, p.velocity.x)),
                y: sat_sub(p.new_acceleration.y, drag_pull(self.drag, p.velocity.y)),
            },
            FORCE_TYPE::GRAVITY => Vec2View {
                x: p.new_acceleration.x,
                y: sat_sub(p.new_acceleration.y, force),
            },
            FORCE_TYPE::MOUSE => if self.mouse_active {
                p.new_acceleration.plus(
                    mouse_pull(self.mouse_state, force, p.position, self.mouse_position),
                )
            } else {
                p.new_acceleration
            },
            _ => self.pairwise_sum(i, self.particles.len() as int, force, kind, p.new_acceleration),
        }
    }

    /// Particle `i` with the force added to its accumulator.
    pub open spec fn forced(self, i: int, force: int, kind: FORCE_TYPE) -> ParticleView {
        ParticleView {
            new_acceleration: self.accumulated(i, force, kind),
            ..self.particles[i]
        }
    }

    /// The ensemble after a force of the given kind and magnitude has been
    /// added to every particle's accumulator. Nothing else changes.
    pub open spec fn with_force(self, force: int, kind: FORCE_TYPE) -> SimulationView {
        SimulationView {
            particles: Seq::new(self.particles.len(), |i: int| self.forced(i, force, kind)),
            ..self
        }
    }

    /// The ensemble after the clock has been read as `now` milliseconds.
    /// Elapsed time is the reading less the reading at construction; a
    /// reading that would move elapsed time backwards is ignored.
    pub open spec fn clocked(self, now: int) -> SimulationView {
        SimulationView {
            t: if now - self.t_start > self.t {
                now - self.t_start
            } else {
                self.t
            },
            ..self
        }
    }

    /// The ensemble with every accumulator emptied.
    pub open spec fn cleared(self) -> SimulationView {
        SimulationView {
            particles: Seq::new(
                self.particles.len(),
                |i: int| ParticleView { new_acceleration: Vec2View::zero(), ..self.particles[i] },
            ),
            ..self
        }
    }

    /// The ensemble after every particle has been updated by one step of
    /// length `dt`.
    pub open spec fn integrated(self) -> SimulationView {
        SimulationView {
            particles: Seq::new(
                self.particles.len(),
                |i: int| self.particles[i].updated(self.dt),
            ),
            ..self
        }
    }

    /// The ensemble after the forces of one micro-step have been gathered:
    /// inverse-square, Lennard-Jones, gravity if it is enabled, drag and the
    /// pointer, in this order, onto emptied accumulators.
    pub open spec fn loaded(self) -> SimulationView {
        let s0 = self.cleared();
        let s1 = s0.with_force(s0.attractive_force, FORCE_TYPE::ISL);
        let s2 = s1.with_force(s1.repulsive_force, FORCE_TYPE::LJ);
        let s3 = if s2.gravity {
            s2.with_force(GRAVITY_FORCE as int, FORCE_TYPE::GRAVITY)
        } else {
            s2
        };
        let s4 = s3.with_force(s3.drag, FORCE_TYPE::PROPORTIONAL);
        s4.with_force(MOUSE_FORCE as int, FORCE_TYPE::MOUSE)
    }

    /// The ensemble after one micro-step: the clock is read, the forces are
    /// gathered, and every particle is updated.
    pub open spec fn microstepped(self, now: int) -> SimulationView {
        self.clocked(now).loaded().integrated()
    }

    /// The ensemble after `k` micro-steps in a row.
    pub open spec fn stepped(self, now: int, k: nat) -> SimulationView
        decreases k,
    {
        if k == 0 {
            self
        } else {
            self.stepped(now, (k - 1) as nat).microstepped(now)
        }
    }

    /// The number of micro-steps that one step performs.
    pub open spec fn rounds(self) -> nat {
        if self.microsteps > 0 {
            self.microsteps as nat
        } else {
            0
        }
    }

    /// The ensemble after the pointer has been clicked.
    pub open spec fn clicked(self) -> SimulationView {
        SimulationView { mouse_active: !self.mouse_active, ..self }
    }

    /// The ensemble after the pointer's mode has been switched.
    pub open spec fn switched(self) -> SimulationView {
        SimulationView {
            mouse_state: if self.mouse_state == MOUSE_STATE::ATTRACTIVE {
                MOUSE_STATE::REPULSIVE
            } else {
                MOUSE_STATE::ATTRACTIVE
            },
            ..self
        }
    }

    /// Whether this is an ensemble as it is constructed at the clock reading
    /// `now`: one spawned particle for each direction, no time elapsed, the
    /// pointer idle at the origin and set to attract.
    pub open spec fn fresh(
        self,
        dt: int,
        attractive_force: int,
        repulsive_force: int,
        drag: int,
        max_spawn_velocity: int,
        directions: Seq<Vec2>,
        microsteps: int,
        gravity: bool,
        mode: DOMAIN_MODE,
        now: int,
    ) -> bool {
        &&& self == (SimulationView {
            particles: self.particles,
            t_start: now,
            t: 0,
            dt,
            attractive_force,
            repulsive_force,
            drag,
            microsteps,
            mouse_position: Vec2View::zero(),
            mouse_state: MOUSE_STATE::ATTRACTIVE,
            mouse_active: false,
            gravity,
        })
        &&& self.particles.len() == directions.len()
        &&& forall|i: int|
            0 <= i < directions.len() ==> spawned(
                #[trigger] self.particles[i],
                directions[i]@,
                max_spawn_velocity,
                mode,
            )
    }

    /// The position buffer: the `x` and `y` of every particle, in ensemble
    /// order.
    pub open spec fn packed(self) -> Seq<int> {
        Seq::new(
            2 * self.particles.len(),
            |k: int|
                if k % 2 == 0 {
                    self.particles[k / 2].position.x
                } else {
                    self.particles[k / 2].position.y
                },
        )
    }
}

/// An ensemble of particles with the forces that act on it.
pub struct Simulation {
    /// The particles; an index is a particle's identity.
    pub particles: Vec<Particle>,
    /// The clock reading at construction, in milliseconds.
    pub t_start: u64,
    /// The time elapsed since construction, in milliseconds.
    pub t: u64,
    /// The length of one micro-step.
    pub dt: i128,
    /// The magnitude of the inverse-square-law force.
    pub attractive_force: i128,
    /// The magnitude of the Lennard-Jones-style force.
    pub repulsive_force: i128,
    /// The coefficient of quadratic drag.
    pub drag: i128,
    /// The number of micro-steps in one step.
    pub microsteps: i32,
    /// The pointer, in the coordinates of the unit square.
    pub mouse_position: Vec2,
    /// Whether the pointer attracts or repels.
    pub mouse_state: MOUSE_STATE,
    /// Whether the pointer exerts its force at all.
    pub mouse_active: bool,
    /// Whether the downward field is switched on.
    pub gravity: bool,
}

impl View for Simulation {
    type V = SimulationView;

    open spec fn view(&self) -> SimulationView {
        SimulationView {
            particles: Seq::new(self.particles@.len(), |i: int| self.particles@[i]@),
            t_start: self.t_start as int,
            t: self.t as int,
            dt: self.dt as int,
            attractive_force: self.attractive_force as int,
            repulsive_force: self.repulsive_force as int,
            drag: self.drag as int,
            microsteps: self.microsteps as int,
            mouse_position: self.mouse_position@,
            mouse_state: self.mouse_state,
            mouse_active: self.mouse_active,
            gravity: self.gravity,
        }
    }
}

impl Simulation {
    /// Whether the particles of this ensemble are, index by index, those of
    /// `v`. The value of the ensemble says as much; said this way, a fact
    /// about one particle is at hand wherever that particle is named.
    pub open spec fn particles_are(&self, v: SimulationView) -> bool {
        &&& self.particles.len() == v.particles.len()
        &&& forall|i: int|
            0 <= i < self.particles.len() ==> (#[trigger] self.particles[i])@ == v.particles[i]
    }

    /// An ensemble of the given particles, with no time elapsed since the
    /// clock reading `now` and with the pointer idle at the origin and set to
    /// attract.
    pub fn with_particles(
        dt: i128,
        attractive_force: i128,
        repulsive_force: i128,
        drag: i128,
        particles: Vec<Particle>,
        microsteps: i32,
        gravity: bool,
        now: u64,
    ) -> (s: Self)
        ensures
            s.particles == particles,
            s.t_start == now,
            s.t == 0,
            s.dt == dt,
            s.attractive_force == attractive_force,
            s.repulsive_force == repulsive_force,
            s.drag == drag,
            s.microsteps == microsteps,
            s.mouse_position@ == Vec2View::zero(),
            s.mouse_state == MOUSE_STATE::ATTRACTIVE,
            s.mouse_active == false,
            s.gravity == gravity,
    {
        Self {
            particles,
            t: 0,
            t_start: now,
            dt,
            attractive_force,
            repulsive_force,
            drag,
            microsteps,
            mouse_position: Vec2::zero(),
            mouse_state: MOUSE_STATE::ATTRACTIVE,
            mouse_active: false,
            gravity,
        }
    }

    /// An ensemble with one particle for each entry of `directions`, which
    /// holds the cosine and the sine of that particle's spawn angle.
    ///
    /// Each particle gets a spawn position in its direction and a spawn
    /// velocity under the bound `max_spawn_velocity`. `now` is the clock
    /// reading, in milliseconds, from which elapsed time is counted.
    #[verifier::loop_isolation(false)]
    pub fn new(
        dt: i128,
        attractive_force: i128,
        repulsive_force: i128,
        drag: i128,
        max_spawn_velocity: i128,
        directions: &Vec<Vec2>,
        microsteps: i32,
        gravity: bool,
        domain_mode: DOMAIN_MODE,
        now: u64,
    ) -> (s: Self)
        ensures
            s@.fresh(
                dt as int,
                attractive_force as int,
                repulsive_force as int,
                drag as int,
                max_spawn_velocity as int,
                directions@,
                microsteps as int,
                gravity,
                domain_mode,
                now as int,
            ),
            s.particles.len() == directions.len(),
            forall|i: int|
                0 <= i < directions.len() ==> spawned(
                    (#[trigger] s.particles[i])@,
                    directions[i]@,
                    max_spawn_velocity as int,
                    domain_mode,
                ),
    {
        let mut rng = rand::thread_rng();
        let mut initial_state: Vec<Particle> = Vec::new();
        let n = directions.len();
        for i in 0..n
            invariant
                initial_state.len() == i,
                forall|k: int|
                    0 <= k < i ==> spawned(
                        #[trigger] initial_state[k]@,
                        directions[k]@,
                        max_spawn_velocity as int,
                        domain_mode,
                    ),
        {
            let position = Self::rand_coord(&mut rng, &directions[i]);
            let velocity = Self::rand_velocity(&mut rng, max_spawn_velocity);
            initial_state.push(Particle::new(position, velocity, domain_mode));
        }
        Self::with_particles(
            dt,
            attractive_force,
            repulsive_force,
            drag,
            initial_state,
            microsteps,
            gravity,
            now,
        )
    }

    /// The default ensemble: walled, without gravity, one micro-step per
    /// step, with the default step length, forces, drag and spawn velocity.
    pub fn default(directions: &Vec<Vec2>, now: u64) -> (s: Self)
        ensures
            s@.fresh(
                DEFAULT_DT as int,
                DEFAULT_ATTRACTIVE_FORCE as int,
                DEFAULT_REPULSIVE_FORCE as int,
                DEFAULT_DRAG as int,
                DEFAULT_SPAWN_VELOCITY as int,
                directions@,
                1,
                false,
                DOMAIN_MODE::WALL,
                now as int,
            ),
            s.particles.len() == directions.len(),
            forall|i: int|
                0 <= i < directions.len() ==> spawned(
                    (#[trigger] s.particles[i])@,
                    directions[i]@,
                    DEFAULT_SPAWN_VELOCITY as int,
                    DOMAIN_MODE::WALL,
                ),
    {
        Self::new(
            DEFAULT_DT,
            DEFAULT_ATTRACTIVE_FORCE,
            DEFAULT_REPULSIVE_FORCE,
            DEFAULT_DRAG,
            DEFAULT_SPAWN_VELOCITY,
            directions,
            1,
            false,
            DOMAIN_MODE::WALL,
            now,
        )
    }

    /// Stores the pointer's position, given in the coordinates of the unit
    /// square. No force is applied before the next step.
    pub fn set_mouse_position(&mut self, x: i128, y: i128)
        ensures
            final(self)@ == (SimulationView {
                mouse_position: Vec2View { x: x as int, y: y as int },
                ..old(self)@
            }),
            final(self).particles == old(self).particles,
    {
        self.mouse_position = Vec2::new(x, y);
    }

    /// Turns the pointer's force on if it was off, and off if it was on.
    pub fn on_mouse_click(&mut self)
        ensures
            final(self)@ == old(self)@.clicked(),
            final(self).particles == old(self).particles,
    {
        self.mouse_active = !self.mouse_active;
    }

    /// Switches the pointer between attracting and repelling.
    pub fn next_mouse_mode(&mut self)
        ensures
            final(self)@ == old(self)@.switched(),
            final(self).particles == old(self).particles,
    {
        self.mouse_state = if self.mouse_state == MOUSE_STATE::ATTRACTIVE {
            MOUSE_STATE::REPULSIVE
        } else {
            MOUSE_STATE::ATTRACTIVE
        };
    }

    /// Adds a force of the given kind to every particle's accumulator,
    /// on top of what the accumulator already holds.
    ///
    /// `force` is the magnitude for the pairwise kinds, for gravity and for
    /// the pointer; drag takes its coefficient from the ensemble. The pointer
    /// acts only while it is active.
    #[verifier::loop_isolation(false)]
    pub fn apply_force(&mut self, force: i128, force_type: FORCE_TYPE)
        ensures
            final(self)@ == old(self)@.with_force(force as int, force_type),
            final(self).particles_are(old(self)@.with_force(force as int, force_type)),
    {
        let n = self.particles.len();
        let ghost before = self@;
        for i in 0..n
            invariant
                n == self.particles.len(),
                before == old(self)@,
                before.particles.len() == n,
                self@ == (SimulationView { particles: self@.particles, ..before }),
                forall|k: int|
                    0 <= k < i ==> self.particles[k]@ == before.forced(k, force as int, force_type),
                forall|k: int| i <= k < n ==> self.particles[k]@ == before.particles[k],
                forall|k: int|
                    0 <= k < n ==> self.particles[k]@.position == before.particles[k].position,
        {
            let me = self.particles[i];
            match force_type {
                FORCE_TYPE::PROPORTIONAL => {
                    self.particles[i].new_acceleration.x = minus(
                        me.new_acceleration.x,
                        drag_deceleration(self.drag, me.velocity.x),
                    );
                    self.particles[i].new_acceleration.y = minus(
                        me.new_acceleration.y,
                        drag_deceleration(self.drag, me.velocity.y),
                    );
                },
                FORCE_TYPE::GRAVITY => {
                    self.particles[i].new_acceleration.y = minus(me.new_acceleration.y, force);
                },
                FORCE_TYPE::MOUSE => {
                    if self.mouse_active {
                        let a = Self::mouse_acceleration(
                            self.mouse_state,
                            force,
                            &me.position,
                            &self.mouse_position,
                        );
                        self.particles[i].new_acceleration = me.new_acceleration.plus(&a);
                    }
                },
                _ => {
                    let mut sum = me.new_acceleration;
                    for j in 0..n
                        invariant
                            me@ == before.particles[i as int],
                            forall|k: int|
                                0 <= k < n ==> self.particles[k]@.position
                                    == before.particles[k].position,
                            sum@ == before.pairwise_sum(
                                i as int,
                                j as int,
                                force as int,
                                force_type,
                                me@.new_acceleration,
                            ),
                    {
                        if i != j {
                            let a = Self::pair_acceleration(
                                force_type,
                                force,
                                &me.position,
                                &self.particles[j].position,
                            );
                            sum = sum.plus(&a);
                        }
                    }
                    self.particles[i].new_acceleration = sum;
                },
            }
            assert(self.particles[i as int]@ == before.forced(i as int, force as int, force_type));
        }
        assert(self@.particles =~= before.with_force(force as int, force_type).particles);
    }

    /// Empties every particle's accumulator.
    #[verifier::loop_isolation(false)]
    pub fn clear_forces(&mut self)
        ensures
            final(self)@ == old(self)@.cleared(),
            final(self).particles_are(old(self)@.cleared()),
    {
        let n = self.particles.len();
        let ghost before = self@;
        for i in 0..n
            invariant
                n == self.particles.len(),
                before.particles.len() == n,
                self@ == (SimulationView { particles: self@.particles, ..before }),
                forall|k: int| 0 <= k < i ==> self.particles[k]@ == before.cleared().particles[k],
                forall|k: int| i <= k < n ==> self.particles[k]@ == before.particles[k],
        {
            self.particles[i].new_acceleration = Vec2::zero();
        }
        assert(self@.particles =~= before.cleared().particles);
    }

    /// Updates every particle by one step of length `dt`.
    #[verifier::loop_isolation(false)]
    pub fn integrate(&mut self)
        ensures
            final(self)@ == old(self)@.integrated(),
            final(self).particles_are(old(self)@.integrated()),
    {
        let n = self.particles.len();
        let dt = self.dt;
        let ghost before = self@;
        for i in 0..n
            invariant
                n == self.particles.len(),
                before.particles.len() == n,
                self@ == (SimulationView { particles: self@.particles, ..before }),
                forall|k: int|
                    0 <= k < i ==> self.particles[k]@ == before.integrated().particles[k],
                forall|k: int| i <= k < n ==> self.particles[k]@ == before.particles[k],
        {
            self.particles[i].update(dt);
        }
        assert(self@.particles =~= before.integrated().particles);
    }

    /// Performs one micro-step with the clock reading `now`, in milliseconds.
    pub fn microstep(&mut self, now: u64)
        ensures
            final(self)@ == old(self)@.microstepped(now as int),
            final(self).particles_are(old(self)@.microstepped(now as int)),
    {
        if now >= self.t_start && now - self.t_start > self.t {
            self.t = now - self.t_start;
        }
        self.clear_forces();
        self.apply_force(self.attractive_force, FORCE_TYPE::ISL);
        self.apply_force(self.repulsive_force, FORCE_TYPE::LJ);
        if self.gravity {
            self.apply_force(GRAVITY_FORCE, FORCE_TYPE::GRAVITY);
        }
        self.apply_force(self.drag, FORCE_TYPE::PROPORTIONAL);
        self.apply_force(MOUSE_FORCE, FORCE_TYPE::MOUSE);
        self.integrate();
    }

    /// Advances the ensemble by one frame: `microsteps` micro-steps in a
    /// row, each with the clock reading `now`, in milliseconds.
    #[verifier::loop_isolation(false)]
    pub fn step(&mut self, now: u64)
        ensures
            final(self)@ == old(self)@.stepped(now as int, old(self)@.rounds()),
            final(self).particles_are(old(self)@.stepped(now as int, old(self)@.rounds())),
            old(self).microsteps <= 0 ==> final(self)@ == old(self)@,
            old(self).microsteps > 0 ==> final(self)@ == old(self)@.stepped(
                now as int,
                (old(self).microsteps - 1) as nat,
            ).microstepped(now as int),
    {
        let rounds = self.microsteps;
        let ghost before = self@;
        let mut done: i32 = 0;
        while done < rounds
            invariant
                0 <= done,
                done <= rounds || done == 0,
                self.microsteps == rounds,
                self@ == before.stepped(now as int, done as nat),
            decreases rounds - done,
        {
            self.microstep(now);
            done = done + 1;
        }
    }

    /// The position buffer: the `x` and `y` of every particle, in ensemble
    /// order.
    #[verifier::loop_isolation(false)]
    pub fn pack(&self) -> (r: Vec<i128>)
        ensures
            r.len() == self@.packed().len(),
            forall|k: int| 0 <= k < r.len() ==> r[k] == self@.packed()[k],
            r.len() == 2 * self.particles.len(),
            forall|i: int|
                0 <= i < self.particles.len() ==> {
                    &&& r[2 * i] == (#[trigger] self.particles[i]).position.x
                    &&& r[2 * i + 1] == self.particles[i].position.y
                },
    {
        let n = self.particles.len();
        let mut buffer: Vec<i128> = Vec::new();
        for i in 0..n
            invariant
                buffer.len() == 2 * i,
                forall|k: int| 0 <= k < buffer.len() ==> buffer[k] == self@.packed()[k],
        {
            let mut flat = self.particles[i].to_flat();
            buffer.append(&mut flat);
        }
        buffer
    }
}

} // verus!
