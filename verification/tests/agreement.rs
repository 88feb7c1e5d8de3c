//! The fixed-point results, held against the same formulas in floating point.

use callisto::fixed::{invert, times, ONE};
use callisto::force::drag_deceleration;
use callisto::particle::Particle;
use callisto::simulation::{Simulation, DOMAIN_MODE, FORCE_TYPE};
use callisto::vector::Vec2;

const EPS: f64 = 1e-9;

fn as_float(raw: i128) -> f64 {
    raw as f64 / ONE as f64
}

fn as_raw(x: f64) -> i128 {
    (x * ONE as f64).round() as i128
}

fn close(got: f64, want: f64, tolerance: f64) -> bool {
    (got - want).abs() <= tolerance * want.abs().max(1.0)
}

fn float_isl(r: f64) -> f64 {
    1.0 / (r * r + EPS)
}

fn float_lj(r: f64) -> f64 {
    let q = 1.0 / (r.powi(6) + EPS);
    4.0 * (q * q - q)
}

fn float_axis(force: f64, potential: f64, distance: f64) -> f64 {
    if distance < 0.0 {
        -(force * potential)
    } else {
        force * potential
    }
}

#[derive(Clone, Copy)]
struct Body {
    pos: [f64; 2],
    vel: [f64; 2],
    acc: [f64; 2],
    pending: [f64; 2],
}

struct FloatEnsemble {
    bodies: Vec<Body>,
    dt: f64,
    attractive: f64,
    repulsive: f64,
    drag: f64,
    gravity: bool,
    mouse: Option<([f64; 2], bool)>,
}

impl FloatEnsemble {
    fn pairwise(&mut self, force: f64, lj: bool) {
        let at: Vec<[f64; 2]> = self.bodies.iter().map(|b| b.pos).collect();
        for (i, b) in self.bodies.iter_mut().enumerate() {
            for (j, other) in at.iter().enumerate() {
                if i != j {
                    for k in 0..2 {
                        let d = other[k] - b.pos[k];
                        let potential = if lj { float_lj(d) } else { -float_isl(d) };
                        b.pending[k] += float_axis(force, potential, d);
                    }
                }
            }
        }
    }

    fn microstep(&mut self) {
        for b in self.bodies.iter_mut() {
            b.pending = [0.0, 0.0];
        }
        self.pairwise(self.attractive, false);
        self.pairwise(self.repulsive, true);
        for b in self.bodies.iter_mut() {
            if self.gravity {
                b.pending[1] -= 1e7;
            }
            for k in 0..2 {
                let sign = if b.vel[k] < 0.0 { -1.0 } else { 1.0 };
                b.pending[k] -= sign * self.drag * b.vel[k] * b.vel[k];
            }
            if let Some((at, repels)) = self.mouse {
                for k in 0..2 {
                    let d = at[k] - b.pos[k];
                    let potential = if repels { -float_lj(d) } else { float_lj(d) };
                    b.pending[k] += float_axis(1e-3, potential, d);
                }
            }
        }
        let dt = self.dt;
        for b in self.bodies.iter_mut() {
            for k in 0..2 {
                b.pos[k] = b.pos[k] + b.vel[k] * dt + b.acc[k] * (dt * dt * 0.5);
                b.vel[k] = b.vel[k] + (b.acc[k] + b.pending[k]) * (dt * 0.5);
                b.acc[k] = b.pending[k];
                if b.pos[k] > 1.0 {
                    b.pos[k] = 1.0;
                    b.vel[k] = -b.vel[k];
                } else if b.pos[k] < 0.0 {
                    b.pos[k] = 0.0;
                    b.vel[k] = -b.vel[k];
                }
            }
        }
    }
}

fn starts() -> Vec<([f64; 2], [f64; 2])> {
    vec![
        ([0.11, 0.23], [1.0, -1.5]),
        ([0.72, 0.51], [-2.0, 0.5]),
        ([0.43, 0.88], [0.25, 3.0]),
        ([0.58, 0.07], [-0.75, 2.0]),
    ]
}

#[test]
fn product_and_reciprocal_agree_with_floating_point() {
    let samples = [1e-7, 3.5e-4, 0.013, 0.5, 1.0, 7.25, 1234.5, 9.9e6];
    for a in samples {
        for b in samples {
            assert!(close(as_float(times(as_raw(a), as_raw(b))), a * b, 1e-9));
            assert!(close(as_float(times(as_raw(-a), as_raw(b))), -a * b, 1e-9));
        }
        assert!(close(as_float(invert(as_raw(a))), 1.0 / a, 1e-9));
    }
}

#[test]
fn potentials_agree_with_floating_point() {
    for k in 0..=400 {
        let r = k as f64 * 0.0025;
        let isl = as_float(Simulation::isl_potential(as_raw(r)));
        assert!(close(isl, float_isl(r), 1e-7));
        let lj = as_float(Simulation::lj_potential(as_raw(r)));
        assert!(close(lj, float_lj(r), 1e-7));
        assert_eq!(
            Simulation::lj_potential(as_raw(-r)),
            Simulation::lj_potential(as_raw(r))
        );
    }
}

#[test]
fn drag_agrees_with_floating_point() {
    for v in [-3.0, -0.5, 0.0, 0.25, 2.0, 10.0] {
        let sign = if v < 0.0 { -1.0 } else { 1.0 };
        let got = as_float(drag_deceleration(as_raw(0.5), as_raw(v)));
        assert!(close(got, sign * 0.5 * v * v, 1e-12));
    }
}

fn fixed_ensemble() -> Simulation {
    Simulation::with_particles(
        as_raw(1e-5),
        as_raw(1e-3),
        as_raw(2e-6),
        as_raw(0.5),
        starts()
            .iter()
            .map(|(pos, vel)| {
                Particle::new(
                    Vec2::new(as_raw(pos[0]), as_raw(pos[1])),
                    Vec2::new(as_raw(vel[0]), as_raw(vel[1])),
                    DOMAIN_MODE::WALL,
                )
            })
            .collect(),
        1,
        false,
        0,
    )
}

fn float_ensemble(mouse: Option<([f64; 2], bool)>) -> FloatEnsemble {
    FloatEnsemble {
        bodies: starts()
            .iter()
            .map(|(pos, vel)| Body {
                pos: *pos,
                vel: *vel,
                acc: [0.0, 0.0],
                pending: [0.0, 0.0],
            })
            .collect(),
        dt: 1e-5,
        attractive: 1e-3,
        repulsive: 2e-6,
        drag: 0.5,
        gravity: false,
        mouse,
    }
}

fn march_together(sim: &mut Simulation, floats: &mut FloatEnsemble, steps: usize) {
    for _ in 0..steps {
        sim.step(0);
        floats.microstep();
        for (p, b) in sim.particles.iter().zip(floats.bodies.iter()) {
            assert!(close(as_float(p.position.x), b.pos[0], 1e-9));
            assert!(close(as_float(p.position.y), b.pos[1], 1e-9));
            assert!(close(as_float(p.velocity.x), b.vel[0], 1e-9));
            assert!(close(as_float(p.velocity.y), b.vel[1], 1e-9));
            assert!(close(as_float(p.acceleration.x), b.acc[0], 1e-9));
            assert!(close(as_float(p.acceleration.y), b.acc[1], 1e-9));
        }
    }
}

#[test]
fn microsteps_agree_with_floating_point() {
    let mut sim = fixed_ensemble();
    let mut floats = float_ensemble(None);
    march_together(&mut sim, &mut floats, 40);
    assert!(sim.particles[0].velocity.x != as_raw(1.0));
}

#[test]
fn microsteps_under_the_pointer_agree_with_floating_point() {
    let mut sim = fixed_ensemble();
    sim.set_mouse_position(as_raw(0.27), as_raw(0.70));
    sim.on_mouse_click();
    sim.next_mouse_mode();
    let mut floats = float_ensemble(Some(([0.27, 0.70], true)));
    march_together(&mut sim, &mut floats, 10);
    let mut attracted = fixed_ensemble();
    attracted.set_mouse_position(as_raw(0.27), as_raw(0.70));
    attracted.on_mouse_click();
    let mut floats = float_ensemble(Some(([0.27, 0.70], false)));
    march_together(&mut attracted, &mut floats, 10);
}

#[test]
fn single_force_pass_agrees_with_floating_point() {
    let mut sim = fixed_ensemble();
    sim.apply_force(as_raw(2e-6), FORCE_TYPE::LJ);
    let at: Vec<[f64; 2]> = starts().iter().map(|(pos, _)| *pos).collect();
    for (i, p) in sim.particles.iter().enumerate() {
        let mut want = [0.0, 0.0];
        for (j, other) in at.iter().enumerate() {
            if i != j {
                for k in 0..2 {
                    let d = other[k] - at[i][k];
                    want[k] += float_axis(2e-6, float_lj(d), d);
                }
            }
        }
        assert!(close(as_float(p.new_acceleration.x), want[0], 1e-7));
        assert!(close(as_float(p.new_acceleration.y), want[1], 1e-7));
    }
}
