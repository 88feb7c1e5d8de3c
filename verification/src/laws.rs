//! What holds of every particle and every ensemble, proved from the
//! definitions of the other modules.

use crate::fixed::{
    in_range, lemma_mul_nonnegative, lemma_mul_odd, lemma_mul_zero, lemma_product_sign, recip,
    sat_add, sat_mul, sat_sub, EPSILON, FOUR, HALF, LIMIT, ONE,
};
use crate::force::{
    drag_pull, isl_potential, lj_potential, mouse_pull, pair_potential, pair_pull, sixth_power,
};
use crate::particle::{is_outside, ParticleView};
use crate::simulation::{SimulationView, DOMAIN_MODE, FORCE_TYPE, MOUSE_FORCE, MOUSE_STATE};
use crate::spawn::{remap_trig, spawn_point, SPAWN_RADIUS_MAX, SPAWN_RADIUS_MIN, SPAWN_SHIFT};
use crate::vector::Vec2View;
use vstd::prelude::*;

verus! {

/// The position and the velocity that integration produces lie inside the
/// scalar range, so that reversing such a velocity is exact.
pub proof fn lemma_integrated_in_range(p: ParticleView, dt: int)
    ensures
        in_range(p.integrated(dt).position.x),
        in_range(p.integrated(dt).position.y),
        in_range(p.integrated(dt).velocity.x),
        in_range(p.integrated(dt).velocity.y),
{
}

/// Under `WALL`, a coordinate that integration carries past an edge of the
/// unit square ends the update exactly on that edge, and the velocity along
/// that axis ends it as the exact negative of what integration produced.
pub proof fn law_wall_reflects(p: ParticleView, dt: int)
    requires
        p.domain_wrap == DOMAIN_MODE::WALL,
    ensures
        ({
            let moved = p.integrated(dt);
            let after = p.updated(dt);
            &&& moved.position.x > ONE ==> after.position.x == ONE
            &&& moved.position.x < 0 ==> after.position.x == 0
            &&& moved.position.y > ONE ==> after.position.y == ONE
            &&& moved.position.y < 0 ==> after.position.y == 0
            &&& is_outside(moved.position.x) ==> after.velocity.x == -moved.velocity.x
            &&& is_outside(moved.position.y) ==> after.velocity.y == -moved.velocity.y
            &&& !is_outside(moved.position.x) ==> after.velocity.x == moved.velocity.x
            &&& !is_outside(moved.position.y) ==> after.velocity.y == moved.velocity.y
        }),
{
    lemma_integrated_in_range(p, dt);
}

/// Under `WALL`, a particle on which no acceleration acts leaves an update
/// that carried it past an edge with the exact negative, along that axis,
/// of the velocity it entered with.
pub proof fn law_wall_reverses_free_particle(p: ParticleView, dt: int)
    requires
        p.domain_wrap == DOMAIN_MODE::WALL,
        p.acceleration == Vec2View::zero(),
        p.new_acceleration == Vec2View::zero(),
        in_range(p.velocity.x),
        in_range(p.velocity.y),
    ensures
        is_outside(p.integrated(dt).position.x) ==> p.updated(dt).velocity.x == -p.velocity.x,
        is_outside(p.integrated(dt).position.y) ==> p.updated(dt).velocity.y == -p.velocity.y,
{
    lemma_mul_zero(sat_mul(dt, HALF as int));
}

/// Under `WRAP`, a coordinate that integration carries above 1 ends the
/// update at exactly 0 and one carried below 0 at exactly 1, however far it
/// went; the velocity is what integration produced.
pub proof fn law_wrap_resets(p: ParticleView, dt: int)
    requires
        p.domain_wrap == DOMAIN_MODE::WRAP,
    ensures
        p.integrated(dt).position.x > ONE ==> p.updated(dt).position.x == 0,
        p.integrated(dt).position.x < 0 ==> p.updated(dt).position.x == ONE,
        p.integrated(dt).position.y > ONE ==> p.updated(dt).position.y == 0,
        p.integrated(dt).position.y < 0 ==> p.updated(dt).position.y == ONE,
        p.updated(dt).velocity == p.integrated(dt).velocity,
{
}

/// Under `INFINITE` the update is integration alone: no position is ever
/// moved back, whatever its magnitude.
pub proof fn law_infinite_is_unconfined(p: ParticleView, dt: int)
    requires
        p.domain_wrap == DOMAIN_MODE::INFINITE,
    ensures
        p.updated(dt) == p.integrated(dt),
{
}

/// Under `WALL` and under `WRAP` a particle ends every update inside the
/// unit square, wherever it started and however fast it was.
pub proof fn law_edge_confines(p: ParticleView, dt: int)
    requires
        p.domain_wrap != DOMAIN_MODE::INFINITE,
    ensures
        0 <= p.updated(dt).position.x <= ONE,
        0 <= p.updated(dt).position.y <= ONE,
{
}

/// After a micro-step every particle that has an edge lies inside the unit
/// square.
pub proof fn law_microstep_confines(s: SimulationView, now: int, i: int)
    requires
        0 <= i < s.particles.len(),
        s.particles[i].domain_wrap != DOMAIN_MODE::INFINITE,
    ensures
        0 <= s.microstepped(now).particles[i].position.x <= ONE,
        0 <= s.microstepped(now).particles[i].position.y <= ONE,
{
    let loaded = s.clocked(now).loaded();
    assert(loaded.particles[i].domain_wrap == s.particles[i].domain_wrap);
    law_edge_confines(loaded.particles[i], s.dt);
}

/// Whatever the mode, a particle that integration leaves inside the unit
/// square is not touched by the edge.
pub proof fn law_inside_is_untouched(p: ParticleView, dt: int)
    requires
        0 <= p.integrated(dt).position.x <= ONE,
        0 <= p.integrated(dt).position.y <= ONE,
    ensures
        p.updated(dt) == p.integrated(dt),
{
}

/// The largest value of a reciprocal in the potentials: 1e9, the reciprocal
/// of `EPSILON`.
pub open spec fn peak() -> int {
    1_000_000_000_000_000_000_000_000_000
}

/// The reciprocal of a scalar that is at least `EPSILON` lies between 0 and
/// the peak.
pub proof fn lemma_recip_is_capped(a: int)
    requires
        a >= EPSILON,
    ensures
        0 <= recip(a) <= peak(),
{
    assert(0 <= 1_000_000_000_000_000_000_000_000_000_000_000_000int / a
        <= 1_000_000_000_000_000_000_000_000_000int) by (nonlinear_arith)
        requires
            a >= 1_000_000_000,
    ;
}

/// No separation makes a potential singular. The inverse-square-law
/// potential lies between 0 and the peak, which it takes where the
/// separation vanishes; the Lennard-Jones-style potential lies between -4
/// and four times the square of the peak.
pub proof fn law_potentials_are_capped(r: int)
    ensures
        0 <= isl_potential(r) <= peak(),
        isl_potential(0) == peak(),
        -FOUR <= lj_potential(r) <= 4 * peak() * 1_000_000_000,
{
    lemma_mul_nonnegative(r, r);
    lemma_recip_is_capped(sat_add(sat_mul(r, r), EPSILON as int));
    lemma_mul_zero(0);
    assert(ONE * ONE == 1_000_000_000_000_000_000_000_000_000_000_000_000int) by (nonlinear_arith)
        requires
            ONE == 1_000_000_000_000_000_000int,
    ;
    assert(isl_potential(0) == recip(EPSILON as int));
    let r2 = sat_mul(r, r);
    lemma_mul_nonnegative(r2, r2);
    lemma_mul_nonnegative(sat_mul(r2, r2), r2);
    let q = recip(sat_add(sixth_power(r), EPSILON as int));
    lemma_recip_is_capped(sat_add(sixth_power(r), EPSILON as int));
    lemma_square_brackets(q);
    let inner = sat_sub(sat_mul(q, q), q);
    assert(-ONE <= inner <= peak() * 1_000_000_000);
    lemma_times_four(inner);
}

/// The fixed-point square of a scalar `q` between 0 and the peak is at
/// least `q` where `q` is at least 1, and at most the square of the peak.
proof fn lemma_square_brackets(q: int)
    requires
        0 <= q <= peak(),
    ensures
        0 <= sat_mul(q, q) <= peak() * 1_000_000_000,
        q >= ONE ==> sat_mul(q, q) >= q,
{
    assert(0 <= q * q <= peak() * peak()) by (nonlinear_arith)
        requires
            0 <= q <= peak(),
    ;
    if q >= ONE {
        assert(q * q >= q * ONE) by (nonlinear_arith)
            requires
                q >= ONE,
                ONE > 0,
        ;
    }
}

/// Four times a scalar, where the scalar is small enough for the product to
/// stay inside the scalar range.
proof fn lemma_times_four(x: int)
    requires
        -ONE <= x <= peak() * 1_000_000_000,
    ensures
        -FOUR <= sat_mul(FOUR as int, x) <= 4 * peak() * 1_000_000_000,
{
    assert(FOUR * x == 4 * (ONE * x)) by (nonlinear_arith)
        requires
            FOUR == 4 * ONE,
    ;
    assert(-(ONE * ONE) <= ONE * x <= ONE * (peak() * 1_000_000_000)) by (nonlinear_arith)
        requires
            -ONE <= x <= peak() * 1_000_000_000,
            ONE > 0,
    ;
}

/// Drag with a coefficient that is not negative opposes motion: what it
/// takes from a velocity component has the sign of that component, and it
/// takes nothing from a component that is zero.
pub proof fn law_drag_opposes_motion(drag: int, v: int)
    requires
        0 <= drag <= LIMIT,
    ensures
        v > 0 ==> drag_pull(drag, v) >= 0,
        v < 0 ==> drag_pull(drag, v) <= 0,
        v == 0 ==> drag_pull(drag, v) == 0,
        drag_pull(drag, -v) == -drag_pull(drag, v),
{
    lemma_mul_nonnegative(v, v);
    lemma_mul_odd(v, v);
    lemma_mul_odd(-v, v);
    let square = sat_mul(v, v);
    assert(sat_mul(-v, -v) == square);
    lemma_mul_odd(drag, square);
    lemma_product_sign(drag, square);
    lemma_product_sign(-drag, square);
    lemma_mul_zero(drag);
    lemma_mul_zero(-drag);
    if v == 0 {
        lemma_product_sign(v, v);
    }
}

/// A pointer that repels gives every particle the exact negative of the
/// acceleration that it would give if it attracted.
pub proof fn law_repulsion_mirrors_attraction(force: int, me: Vec2View, mouse: Vec2View)
    ensures
        mouse_pull(MOUSE_STATE::REPULSIVE, force, me, mouse).x == -mouse_pull(
            MOUSE_STATE::ATTRACTIVE,
            force,
            me,
            mouse,
        ).x,
        mouse_pull(MOUSE_STATE::REPULSIVE, force, me, mouse).y == -mouse_pull(
            MOUSE_STATE::ATTRACTIVE,
            force,
            me,
            mouse,
        ).y,
{
    let d = mouse.minus(me);
    law_potentials_are_capped(d.x);
    law_potentials_are_capped(d.y);
    lemma_mul_odd(force, lj_potential(d.x));
    lemma_mul_odd(force, lj_potential(d.y));
}

/// Applying a force changes accumulators and nothing else: every particle
/// keeps its position, velocity, acceleration and domain mode, and the
/// ensemble keeps its size, its parameters, its clock and its pointer. The
/// pointer's force does not even change an accumulator while the pointer
/// is idle.
pub proof fn law_force_moves_nothing(s: SimulationView, force: int, kind: FORCE_TYPE)
    ensures
        s.with_force(force, kind) == (SimulationView {
            particles: s.with_force(force, kind).particles,
            ..s
        }),
        s.with_force(force, kind).particles.len() == s.particles.len(),
        forall|i: int|
            0 <= i < s.particles.len() ==> (#[trigger] s.with_force(force, kind).particles[i])
                == (ParticleView {
                new_acceleration: s.with_force(force, kind).particles[i].new_acceleration,
                ..s.particles[i]
            }),
        kind == FORCE_TYPE::MOUSE && !s.mouse_active ==> s.with_force(force, kind) == s,
{
    if kind == FORCE_TYPE::MOUSE && !s.mouse_active {
        assert(s.with_force(force, kind).particles =~= s.particles);
    }
}

/// A pairwise potential depends on the size of the separation only, not on
/// its sign, and lies inside the scalar range.
pub proof fn lemma_potential_is_even(kind: FORCE_TYPE, distance: int)
    ensures
        pair_potential(kind, -distance) == pair_potential(kind, distance),
{
    lemma_mul_odd(distance, distance);
    lemma_mul_odd(-distance, distance);
    assert(sat_mul(-distance, -distance) == sat_mul(distance, distance));
    assert(sixth_power(-distance) == sixth_power(distance));
    assert(isl_potential(-distance) == isl_potential(distance));
    assert(lj_potential(-distance) == lj_potential(distance));
}

/// Along each axis on which two particles are apart, the acceleration that
/// the second gives the first is the exact negative of the one that the
/// first gives the second. Along an axis on which they coincide both
/// receive the same acceleration, since neither separation is negative.
pub proof fn law_pair_pull_is_antisymmetric(
    kind: FORCE_TYPE,
    force: int,
    a: Vec2View,
    b: Vec2View,
)
    ensures
        a.x != b.x ==> pair_pull(kind, force, a, b).x == -pair_pull(kind, force, b, a).x,
        a.y != b.y ==> pair_pull(kind, force, a, b).y == -pair_pull(kind, force, b, a).y,
        a.x == b.x ==> pair_pull(kind, force, a, b).x == pair_pull(kind, force, b, a).x,
        a.y == b.y ==> pair_pull(kind, force, a, b).y == pair_pull(kind, force, b, a).y,
        in_range(pair_pull(kind, force, a, b).x),
        in_range(pair_pull(kind, force, a, b).y),
{
    let dx = sat_sub(b.x, a.x);
    let dy = sat_sub(b.y, a.y);
    assert(sat_sub(a.x, b.x) == -dx);
    assert(sat_sub(a.y, b.y) == -dy);
    lemma_potential_is_even(kind, dx);
    lemma_potential_is_even(kind, dy);
    lemma_mul_odd(force, pair_potential(kind, dx));
    lemma_mul_odd(force, pair_potential(kind, dy));
}

/// In an ensemble of two particles whose accumulators are empty, one
/// application of the inverse-square-law force, or of the Lennard-Jones-style
/// force, leaves the two accumulators equal in magnitude and opposite in
/// sign along each axis on which the particles are apart. Along an axis on
/// which they coincide the two accumulators are equal.
pub proof fn law_pair_forces_oppose(s: SimulationView, force: int, kind: FORCE_TYPE)
    requires
        s.particles.len() == 2,
        kind == FORCE_TYPE::ISL || kind == FORCE_TYPE::LJ,
        s.particles[0].new_acceleration == Vec2View::zero(),
        s.particles[1].new_acceleration == Vec2View::zero(),
    ensures
        ({
            let on_left = s.with_force(force, kind).particles[0].new_acceleration;
            let on_right = s.with_force(force, kind).particles[1].new_acceleration;
            let left = s.particles[0].position;
            let right = s.particles[1].position;
            &&& left.x != right.x ==> on_left.x == -on_right.x
            &&& left.y != right.y ==> on_left.y == -on_right.y
            &&& left.x == right.x ==> on_left.x == on_right.x
            &&& left.y == right.y ==> on_left.y == on_right.y
        }),
{
    let left = s.particles[0].position;
    let right = s.particles[1].position;
    let zero = Vec2View::zero();
    let rightward = pair_pull(kind, force, left, right);
    let leftward = pair_pull(kind, force, right, left);
    law_pair_pull_is_antisymmetric(kind, force, left, right);
    law_pair_pull_is_antisymmetric(kind, force, right, left);
    assert(s.pairwise_sum(0, 0, force, kind, zero) == zero);
    assert(s.pairwise_sum(0, 1, force, kind, zero) == zero);
    assert(s.pairwise_sum(0, 2, force, kind, zero) == zero.plus(rightward));
    assert(s.pairwise_sum(1, 0, force, kind, zero) == zero);
    assert(s.pairwise_sum(1, 1, force, kind, zero) == zero.plus(leftward));
    assert(s.pairwise_sum(1, 2, force, kind, zero) == zero.plus(leftward));
}

/// Whether no force acts between particles or from outside: both pairwise
/// magnitudes are zero, gravity is off and the pointer is idle.
pub open spec fn is_quiet(s: SimulationView) -> bool {
    &&& s.attractive_force == 0
    &&& s.repulsive_force == 0
    &&& !s.gravity
    &&& !s.mouse_active
}

/// Whether a particle moves freely under the drag coefficient `drag`: drag
/// takes nothing from its velocity, the last step left it no acceleration,
/// and its velocity lies inside the scalar range.
pub open spec fn is_coasting(p: ParticleView, drag: int) -> bool {
    &&& drag_pull(drag, p.velocity.x) == 0
    &&& drag_pull(drag, p.velocity.y) == 0
    &&& p.acceleration == Vec2View::zero()
    &&& in_range(p.velocity.x)
    &&& in_range(p.velocity.y)
}

/// The point that a particle reaches after `k` micro-steps of length `dt`
/// on the straight line through its position along its velocity.
pub open spec fn free_path(p: ParticleView, dt: int, k: int) -> Vec2View {
    Vec2View {
        x: p.position.x + k * sat_mul(p.velocity.x, dt),
        y: p.position.y + k * sat_mul(p.velocity.y, dt),
    }
}

/// Whether the `k`-th point of the straight line is one that the particle
/// can occupy undisturbed: inside the scalar range and, unless the domain
/// has no edge, inside the unit square.
pub open spec fn path_is_clear(p: ParticleView, dt: int, k: int) -> bool {
    let at = free_path(p, dt, k);
    &&& in_range(at.x)
    &&& in_range(at.y)
    &&& p.domain_wrap == DOMAIN_MODE::INFINITE || (0 <= at.x <= ONE && 0 <= at.y <= ONE)
}

/// A pairwise force of magnitude zero adds nothing to an empty accumulator,
/// whatever the positions.
pub proof fn lemma_zero_force_sums_to_zero(s: SimulationView, i: int, upto: int, kind: FORCE_TYPE)
    ensures
        s.pairwise_sum(i, upto, 0, kind, Vec2View::zero()) == Vec2View::zero(),
    decreases upto,
{
    if upto > 0 {
        lemma_zero_force_sums_to_zero(s, i, upto - 1, kind);
        if upto - 1 != i {
            let me = s.particles[i].position;
            let other = s.particles[upto - 1].position;
            let d = other.minus(me);
            lemma_mul_zero(pair_potential(kind, d.x));
            lemma_mul_zero(pair_potential(kind, d.y));
            assert(pair_pull(kind, 0, me, other) == Vec2View::zero());
        }
    }
}

/// One micro-step of a quiet ensemble moves a coasting particle one point
/// along its straight line and changes nothing else of it.
pub proof fn lemma_quiet_microstep(s: SimulationView, now: int, i: int)
    requires
        0 <= i < s.particles.len(),
        is_quiet(s),
        is_coasting(s.particles[i], s.drag),
        path_is_clear(s.particles[i], s.dt, 1),
    ensures
        s.microstepped(now).particles.len() == s.particles.len(),
        is_quiet(s.microstepped(now)),
        s.microstepped(now).dt == s.dt,
        s.microstepped(now).drag == s.drag,
        s.microstepped(now).particles[i].position == free_path(s.particles[i], s.dt, 1),
        s.microstepped(now).particles[i].velocity == s.particles[i].velocity,
        s.microstepped(now).particles[i].acceleration == Vec2View::zero(),
        s.microstepped(now).particles[i].domain_wrap == s.particles[i].domain_wrap,
{
    let p = s.particles[i];
    let zero = Vec2View::zero();
    let n = s.particles.len() as int;
    let s0 = s.clocked(now).cleared();
    let s1 = s0.with_force(0, FORCE_TYPE::ISL);
    let s2 = s1.with_force(0, FORCE_TYPE::LJ);
    let s4 = s2.with_force(s.drag, FORCE_TYPE::PROPORTIONAL);
    let s5 = s4.with_force(MOUSE_FORCE as int, FORCE_TYPE::MOUSE);
    assert(s0.particles[i] == ParticleView { new_acceleration: zero, ..p });
    lemma_zero_force_sums_to_zero(s0, i, n, FORCE_TYPE::ISL);
    assert(s1.particles[i] == s0.particles[i]);
    lemma_zero_force_sums_to_zero(s1, i, n, FORCE_TYPE::LJ);
    assert(s2.particles[i] == s0.particles[i]);
    assert(s4.particles[i] == s0.particles[i]);
    assert(s5.particles[i] == s0.particles[i]);
    assert(s.clocked(now).loaded() == s5);
    let q = s5.particles[i];
    lemma_mul_zero(sat_mul(sat_mul(s.dt, s.dt), HALF as int));
    lemma_mul_zero(sat_mul(s.dt, HALF as int));
    assert(q.integrated(s.dt).position == free_path(p, s.dt, 1));
    assert(q.integrated(s.dt).velocity == p.velocity);
    assert(q.updated(s.dt) == q.integrated(s.dt));
    assert(s.microstepped(now).particles[i] == q.updated(s.dt));
}

/// In a quiet ensemble a coasting particle moves on a straight line: as
/// long as every point of the line up to the `n`-th is clear, `n`
/// micro-steps of length `dt` take the particle from its position to
/// exactly that position plus `n` times its velocity times `dt`, and leave
/// its velocity as it was. The other particles may be anywhere.
pub proof fn law_free_motion_is_linear(s: SimulationView, now: int, n: nat, i: int)
    requires
        0 <= i < s.particles.len(),
        is_quiet(s),
        is_coasting(s.particles[i], s.drag),
        forall|k: int| 1 <= k <= n ==> path_is_clear(s.particles[i], s.dt, k),
    ensures
        s.stepped(now, n).particles.len() == s.particles.len(),
        is_quiet(s.stepped(now, n)),
        s.stepped(now, n).dt == s.dt,
        s.stepped(now, n).drag == s.drag,
        s.stepped(now, n).particles[i].position == free_path(s.particles[i], s.dt, n as int),
        s.stepped(now, n).particles[i].velocity == s.particles[i].velocity,
        is_coasting(s.stepped(now, n).particles[i], s.drag),
        s.stepped(now, n).particles[i].domain_wrap == s.particles[i].domain_wrap,
    decreases n,
{
    if n > 0 {
        let m = (n - 1) as nat;
        law_free_motion_is_linear(s, now, m, i);
        let before = s.stepped(now, m);
        let p = s.particles[i];
        let q = before.particles[i];
        let dx = sat_mul(p.velocity.x, s.dt);
        let dy = sat_mul(p.velocity.y, s.dt);
        assert(path_is_clear(p, s.dt, n as int));
        assert(m * dx + dx == n * dx) by (nonlinear_arith)
            requires
                m + 1 == n,
        ;
        assert(m * dy + dy == n * dy) by (nonlinear_arith)
            requires
                m + 1 == n,
        ;
        assert(free_path(q, s.dt, 1) == free_path(p, s.dt, n as int));
        lemma_quiet_microstep(before, now, i);
    }
}

/// Whether `after` is `before` with nothing changed but the state of its
/// particles and the elapsed time, which has not gone backwards: the
/// ensemble has the same size, every particle keeps its domain mode, and the
/// parameters and the pointer are as they were.
pub open spec fn is_later(before: SimulationView, after: SimulationView) -> bool {
    &&& after == (SimulationView { particles: after.particles, t: after.t, ..before })
    &&& after.t >= before.t
    &&& after.particles.len() == before.particles.len()
    &&& forall|i: int|
        0 <= i < before.particles.len() ==> (#[trigger] after.particles[i]).domain_wrap
            == before.particles[i].domain_wrap
}

/// A micro-step keeps the size of the ensemble, every particle's domain
/// mode, the parameters and the pointer, and never moves elapsed time
/// backwards. Once the clock reading has reached the elapsed time, elapsed
/// time is the reading less the reading at construction.
pub proof fn law_microstep_keeps_ensemble(s: SimulationView, now: int)
    ensures
        is_later(s, s.microstepped(now)),
        now - s.t_start >= s.t ==> s.microstepped(now).t == now - s.t_start,
{
}

/// A step of any number of micro-steps keeps what a single micro-step keeps.
pub proof fn law_step_keeps_ensemble(s: SimulationView, now: int, k: nat)
    ensures
        is_later(s, s.stepped(now, k)),
    decreases k,
{
    if k > 0 {
        law_step_keeps_ensemble(s, now, (k - 1) as nat);
        law_microstep_keeps_ensemble(s.stepped(now, (k - 1) as nat), now);
    }
}

/// A step of `a + b` micro-steps is a step of `a` micro-steps followed by a
/// step of `b`: only the total number of micro-steps counts.
pub proof fn law_steps_compose(s: SimulationView, now: int, a: nat, b: nat)
    ensures
        s.stepped(now, a + b) == s.stepped(now, a).stepped(now, b),
    decreases b,
{
    if b > 0 {
        law_steps_compose(s, now, a, (b - 1) as nat);
        assert((a + b - 1) as nat == a + (b - 1) as nat);
    }
}

/// A spawn position whose direction has its cosine and sine between -1 and
/// 1, and whose radius comes from the spawn range, lies in the unit square,
/// at least the spawn offset away from its lower edges and from its upper
/// edges.
pub proof fn law_spawn_is_inside(direction: Vec2View, r: int)
    requires
        -ONE <= direction.x <= ONE,
        -ONE <= direction.y <= ONE,
        SPAWN_RADIUS_MIN <= r < SPAWN_RADIUS_MAX,
    ensures
        SPAWN_SHIFT <= spawn_point(direction, r).x <= ONE - SPAWN_SHIFT,
        SPAWN_SHIFT <= spawn_point(direction, r).y <= ONE - SPAWN_SHIFT,
{
    lemma_scaled_fraction(remap_trig(direction.x), r);
    lemma_scaled_fraction(remap_trig(direction.y), r);
}

/// The product of a scalar between 0 and 1 with a scalar between 0 and 1
/// lies between 0 and the second factor.
pub proof fn lemma_scaled_fraction(c: int, r: int)
    requires
        0 <= c <= ONE,
        0 <= r <= ONE,
    ensures
        0 <= sat_mul(c, r) <= r,
{
    assert(0 <= c * r <= ONE * r) by (nonlinear_arith)
        requires
            0 <= c <= ONE,
            0 <= r <= ONE,
    ;
}

/// Clicking the pointer twice leaves the ensemble as it was.
pub proof fn law_click_twice(s: SimulationView)
    ensures
        s.clicked().clicked() == s,
{
}

/// Switching the pointer's mode twice leaves the ensemble as it was.
pub proof fn law_switch_twice(s: SimulationView)
    ensures
        s.switched().switched() == s,
{
}

} // verus!
