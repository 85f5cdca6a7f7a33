//! The particle record and its per-tick simulation step.
//!
//! The step follows the compute stage's model: accelerate toward the
//! attractor, clamp the speed, damp, integrate, and clamp the position into
//! the simulation box. All state is fixed-point (`FX_ONE` units), so every
//! step is exact integer arithmetic: divisions truncate toward zero and the
//! square roots are the integer floor/ceiling roots. Damping is a fixed
//! per-tick rate (98/100 each tick), independent of the tick's wall-clock
//! length.

use vstd::prelude::*;

verus! {

use crate::fixed::{
    FX_ONE, abs_i, tdiv, sqrt_floor, sqrt_ceil, is_sqrt_floor, spec_clamp,
    isqrt, isqrt_ceil, clamp_i64, mul_div,
    lemma_sqrt_floor_is_sqrt, lemma_tdiv_bounds, lemma_square_monotone,
    lemma_mul_abs_range,
};
use vstd::arithmetic::div_mod::{
    lemma_div_is_ordered, lemma_div_is_ordered_by_denominator,
    lemma_div_by_multiple, lemma_div_pos_is_pos, lemma_div_of0,
};
use vstd::arithmetic::mul::{lemma_mul_inequality, lemma_mul_inequality_converse};

/// Top speed, in `FX_ONE` units (5 world units per second).
pub const MAX_VEL_FX: i64 = 327680;

/// Damping applied once per tick: velocity is scaled by 98/100.
pub const DAMPING_NUM: i64 = 98;

/// Denominator of the per-tick damping factor.
pub const DAMPING_DEN: i64 = 100;

/// Softening constant of the attraction law, 0.1 world units in fixed
/// point, rounded to nearest.
pub const EPS_FX: i64 = 6554;

/// Left edge of the simulation box (-2 world units).
pub const X_MIN_FX: i64 = -131072;

/// Right edge of the simulation box (2 world units).
pub const X_MAX_FX: i64 = 131072;

/// Bottom edge of the simulation box (-1 world unit).
pub const Y_MIN_FX: i64 = -65536;

/// Top edge of the simulation box (1 world unit).
pub const Y_MAX_FX: i64 = 65536;

/// Longest accepted tick (16 seconds); keeps the integration arithmetic
/// inside `i64`.
pub const TIMESTEP_MAX_FX: i64 = 1048576;

/// Largest accepted attractor coordinate magnitude (64 world units); keeps
/// the distance arithmetic inside `i64`.
pub const ATTRACTOR_LIMIT_FX: i64 = 4194304;

/// Largest accepted incoming velocity component magnitude (2^30); keeps the
/// squared magnitude inside `i64`.
pub const VEL_LIMIT_FX: i64 = 1073741824;

/// A two-component fixed-point vector.
#[derive(Clone, Copy, Debug, PartialEq, Eq, Structural)]
pub struct Vec2 {
    pub x: i64,
    pub y: i64,
}

impl Vec2 {
    pub fn new(x: i64, y: i64) -> (r: Vec2)
        ensures
            r == (Vec2 { x, y }),
    {
        Vec2 { x, y }
    }
}

/// One simulated record: position and velocity, both in fixed point.
#[derive(Clone, Copy, Debug, PartialEq, Eq, Structural)]
pub struct Particle {
    pub pos: Vec2,
    pub vel: Vec2,
}

/// The per-tick parameter block handed to each compute dispatch.
#[derive(Clone, Copy, Debug, PartialEq, Eq, Structural)]
pub struct PushConstants {
    pub enabled: bool,
    pub attractor: Vec2,
    pub timestep: i64,
}

/// Squaring, written out.
pub open spec fn sq(a: int) -> int {
    a * a
}

/// Squared magnitude of a vector.
pub open spec fn mag2(v: Vec2) -> int {
    sq(v.x as int) + sq(v.y as int)
}

/// The position lies inside the simulation box.
pub open spec fn pos_in_bounds(p: Vec2) -> bool {
    X_MIN_FX <= p.x <= X_MAX_FX && Y_MIN_FX <= p.y <= Y_MAX_FX
}

/// The velocity components are small enough for the step's arithmetic.
pub open spec fn vel_admissible(v: Vec2) -> bool {
    abs_i(v.x as int) <= VEL_LIMIT_FX && abs_i(v.y as int) <= VEL_LIMIT_FX
}

/// The per-tick parameters are inside the arithmetic envelope.
pub open spec fn push_constants_valid(c: PushConstants) -> bool {
    &&& 0 <= c.timestep <= TIMESTEP_MAX_FX
    &&& abs_i(c.attractor.x as int) <= ATTRACTOR_LIMIT_FX
    &&& abs_i(c.attractor.y as int) <= ATTRACTOR_LIMIT_FX
}

/// Unit direction (in `FX_ONE` units) of the offset `(dx, dy)`; zero when
/// the offset is zero.
pub open spec fn spec_dir(dx: int, dy: int) -> (int, int) {
    let len = sqrt_floor(sq(dx) + sq(dy));
    if len == 0 {
        (0, 0)
    } else {
        (tdiv(dx * FX_ONE, len), tdiv(dy * FX_ONE, len))
    }
}

/// Acceleration toward the attractor: the unit direction divided by the
/// softened squared distance.
pub open spec fn spec_accel(dx: int, dy: int) -> (int, int) {
    let denom = (sq(dx) + sq(dy)) / (FX_ONE as int) + EPS_FX;
    let dir = spec_dir(dx, dy);
    (tdiv(dir.0 * FX_ONE, denom), tdiv(dir.1 * FX_ONE, denom))
}

/// Velocity after the optional attraction step.
pub open spec fn spec_vel_attracted(p: Particle, c: PushConstants) -> (int, int) {
    if c.enabled {
        let dx = c.attractor.x - p.pos.x;
        let dy = c.attractor.y - p.pos.y;
        let a = spec_accel(dx, dy);
        (p.vel.x + tdiv(a.0 * c.timestep, FX_ONE as int), p.vel.y + tdiv(a.1 * c.timestep, FX_ONE as int))
    } else {
        (p.vel.x as int, p.vel.y as int)
    }
}

/// Velocity clamped to `MAX_VEL_FX` by rescaling with the ceiling root of
/// the squared magnitude, which can only shrink the vector.
pub open spec fn spec_clamp_vel(vx: int, vy: int) -> (int, int) {
    let m2 = sq(vx) + sq(vy);
    if m2 > sq(MAX_VEL_FX as int) {
        let n = sqrt_ceil(m2);
        (tdiv(vx * MAX_VEL_FX, n), tdiv(vy * MAX_VEL_FX, n))
    } else {
        (vx, vy)
    }
}

/// Exponential damping, applied every tick.
pub open spec fn spec_damp(vx: int, vy: int) -> (int, int) {
    (tdiv(vx * DAMPING_NUM, DAMPING_DEN as int), tdiv(vy * DAMPING_NUM, DAMPING_DEN as int))
}

/// The velocity at the end of a tick.
pub open spec fn spec_step_vel(p: Particle, c: PushConstants) -> (int, int) {
    let v = spec_vel_attracted(p, c);
    let w = spec_clamp_vel(v.0, v.1);
    spec_damp(w.0, w.1)
}

/// The position at the end of a tick: integrated with the new velocity and
/// clamped into the simulation box, independently per axis.
pub open spec fn spec_step_pos(p: Particle, vx: int, vy: int, dt: int) -> (int, int) {
    (
        spec_clamp(p.pos.x + tdiv(vx * dt, FX_ONE as int), X_MIN_FX as int, X_MAX_FX as int),
        spec_clamp(p.pos.y + tdiv(vy * dt, FX_ONE as int), Y_MIN_FX as int, Y_MAX_FX as int),
    )
}

/// One full simulation tick of a single record.
pub open spec fn spec_integrate(p: Particle, c: PushConstants) -> Particle {
    let v = spec_step_vel(p, c);
    let q = spec_step_pos(p, v.0, v.1, c.timestep as int);
    Particle {
        pos: Vec2 { x: q.0 as i64, y: q.1 as i64 },
        vel: Vec2 { x: v.0 as i64, y: v.1 as i64 },
    }
}

/// `n` consecutive ticks with the same parameters.
pub open spec fn spec_integrate_n(p: Particle, c: PushConstants, n: nat) -> Particle
    decreases n,
{
    if n == 0 {
        p
    } else {
        spec_integrate(spec_integrate_n(p, c, (n - 1) as nat), c)
    }
}

/// A square is never negative.
proof fn lemma_sq_nonneg(a: int)
    ensures
        sq(a) >= 0,
{
    assert(a * a >= 0) by (nonlinear_arith);
}

/// Squaring ignores sign.
proof fn lemma_sq_abs(a: int)
    ensures
        sq(a) == sq(abs_i(a)),
{
    assert(a * a == (-a) * (-a)) by (nonlinear_arith);
}

/// A square below a square bounds the magnitude.
proof fn lemma_abs_le_of_sq_le(a: int, b: int)
    requires
        b >= 0,
        sq(a) <= sq(b),
    ensures
        abs_i(a) <= b,
{
    assert(abs_i(a) <= b) by (nonlinear_arith)
        requires
            b >= 0,
            a * a <= b * b,
    ;
}

/// A square strictly below the next square bounds the magnitude.
proof fn lemma_abs_le_of_sq_lt(a: int, b: int)
    requires
        b >= 0,
        sq(a) < sq(b + 1),
    ensures
        abs_i(a) <= b,
{
    assert(abs_i(a) <= b) by (nonlinear_arith)
        requires
            b >= 0,
            a * a < (b + 1) * (b + 1),
    ;
}

/// Rescaling a vector of magnitude at most `n` by `m / n` leaves a vector of
/// magnitude at most `m`, component magnitudes included.
proof fn lemma_scale_down(vx: int, vy: int, n: int, m: int)
    requires
        n >= 1,
        m >= 0,
        sq(vx) + sq(vy) <= sq(n),
    ensures
        sq(tdiv(vx * m, n)) + sq(tdiv(vy * m, n)) <= sq(m),
        abs_i(tdiv(vx * m, n)) <= m,
        abs_i(tdiv(vy * m, n)) <= m,
{
    let ax = abs_i(vx);
    let ay = abs_i(vy);
    let qx = abs_i(tdiv(vx * m, n));
    let qy = abs_i(tdiv(vy * m, n));
    lemma_tdiv_bounds(vx * m, n);
    lemma_tdiv_bounds(vy * m, n);
    assert(abs_i(vx * m) == ax * m) by (nonlinear_arith)
        requires
            m >= 0,
            ax == abs_i(vx),
    ;
    assert(abs_i(vy * m) == ay * m) by (nonlinear_arith)
        requires
            m >= 0,
            ay == abs_i(vy),
    ;
    // qx * n <= ax * m and qy * n <= ay * m
    assert(qx * n <= ax * m);
    assert(qy * n <= ay * m);
    lemma_sq_abs(vx);
    lemma_sq_abs(vy);
    assert(sq(ax) + sq(ay) <= sq(n));
    // ax <= n and ay <= n
    lemma_sq_nonneg(ay);
    lemma_sq_nonneg(ax);
    lemma_abs_le_of_sq_le(ax, n);
    lemma_abs_le_of_sq_le(ay, n);
    // component bound: qx * n <= ax * m <= n * m, so qx <= m
    lemma_mul_inequality(ax, n, m);
    lemma_mul_inequality(ay, n, m);
    lemma_mul_inequality_converse(qx, m, n);
    lemma_mul_inequality_converse(qy, m, n);
    // squared bound
    assert(qx * qx + qy * qy <= m * m) by (nonlinear_arith)
        requires
            n >= 1,
            m >= 0,
            qx >= 0,
            qy >= 0,
            ax >= 0,
            ay >= 0,
            qx * n <= ax * m,
            qy * n <= ay * m,
            ax * ax + ay * ay <= n * n,
    ;
    assert(sq(tdiv(vx * m, n)) == sq(qx)) by {
        lemma_sq_abs(tdiv(vx * m, n));
    }
    assert(sq(tdiv(vy * m, n)) == sq(qy)) by {
        lemma_sq_abs(tdiv(vy * m, n));
    }
}

/// Damping never grows a component's magnitude.
proof fn lemma_damp_shrinks(v: int)
    ensures
        abs_i(tdiv(v * DAMPING_NUM, DAMPING_DEN as int)) <= abs_i(v),
        sq(tdiv(v * DAMPING_NUM, DAMPING_DEN as int)) <= sq(v),
{
    let a = abs_i(v);
    lemma_tdiv_bounds(v * DAMPING_NUM, DAMPING_DEN as int);
    assert(abs_i(v * DAMPING_NUM) == a * DAMPING_NUM) by (nonlinear_arith)
        requires
            a == abs_i(v),
    ;
    assert(a * DAMPING_NUM <= a * DAMPING_DEN);
    lemma_div_is_ordered(a * DAMPING_NUM, a * DAMPING_DEN, DAMPING_DEN as int);
    lemma_div_by_multiple(a, DAMPING_DEN as int);
    assert(abs_i(tdiv(v * DAMPING_NUM, DAMPING_DEN as int)) <= a);
    lemma_sq_abs(v);
    lemma_sq_abs(tdiv(v * DAMPING_NUM, DAMPING_DEN as int));
    lemma_square_monotone(abs_i(tdiv(v * DAMPING_NUM, DAMPING_DEN as int)), a);
}

/// The clamp step caps the squared magnitude at `MAX_VEL_FX^2`, never grows
/// the vector, and bounds each component by `MAX_VEL_FX`.
proof fn lemma_clamp_vel_bounds(vx: int, vy: int)
    ensures
        sq(spec_clamp_vel(vx, vy).0) + sq(spec_clamp_vel(vx, vy).1) <= sq(MAX_VEL_FX as int),
        sq(spec_clamp_vel(vx, vy).0) + sq(spec_clamp_vel(vx, vy).1) <= sq(vx) + sq(vy),
        abs_i(spec_clamp_vel(vx, vy).0) <= MAX_VEL_FX,
        abs_i(spec_clamp_vel(vx, vy).1) <= MAX_VEL_FX,
{
    let m2 = sq(vx) + sq(vy);
    lemma_sq_nonneg(vx);
    lemma_sq_nonneg(vy);
    if m2 > sq(MAX_VEL_FX as int) {
        let n = sqrt_ceil(m2);
        lemma_sqrt_floor_is_sqrt(m2);
        assert(n >= 1);
        assert(sq(n) >= m2) by {
            if sqrt_floor(m2) * sqrt_floor(m2) == m2 {
            } else {
                assert(is_sqrt_floor(m2, sqrt_floor(m2)));
            }
        }
        lemma_scale_down(vx, vy, n, MAX_VEL_FX as int);
    } else {
        lemma_abs_le_of_sq_le(vx, MAX_VEL_FX as int);
        lemma_abs_le_of_sq_le(vy, MAX_VEL_FX as int);
    }
}

/// After any tick the velocity obeys the speed cap, and with attraction off
/// a tick never increases the squared speed.
pub proof fn lemma_step_vel_bounds(p: Particle, c: PushConstants)
    ensures
        sq(spec_step_vel(p, c).0) + sq(spec_step_vel(p, c).1) <= sq(MAX_VEL_FX as int),
        abs_i(spec_step_vel(p, c).0) <= MAX_VEL_FX,
        abs_i(spec_step_vel(p, c).1) <= MAX_VEL_FX,
        !c.enabled ==> sq(spec_step_vel(p, c).0) + sq(spec_step_vel(p, c).1) <= mag2(p.vel),
{
    let v = spec_vel_attracted(p, c);
    let w = spec_clamp_vel(v.0, v.1);
    lemma_clamp_vel_bounds(v.0, v.1);
    lemma_damp_shrinks(w.0);
    lemma_damp_shrinks(w.1);
    lemma_sq_abs(spec_damp(w.0, w.1).0);
    lemma_sq_abs(spec_damp(w.0, w.1).1);
    lemma_sq_abs(w.0);
    lemma_sq_abs(w.1);
    lemma_square_monotone(abs_i(spec_damp(w.0, w.1).0), abs_i(w.0));
    lemma_square_monotone(abs_i(spec_damp(w.0, w.1).1), abs_i(w.1));
}

/// The integrated particle: velocity capped, position inside the box, and
/// the fixed-width fields carry the model values exactly.
pub proof fn lemma_integrate_fits(p: Particle, c: PushConstants)
    ensures
        spec_integrate(p, c).vel.x == spec_step_vel(p, c).0,
        spec_integrate(p, c).vel.y == spec_step_vel(p, c).1,
        spec_integrate(p, c).pos.x == spec_step_pos(
            p,
            spec_step_vel(p, c).0,
            spec_step_vel(p, c).1,
            c.timestep as int,
        ).0,
        spec_integrate(p, c).pos.y == spec_step_pos(
            p,
            spec_step_vel(p, c).0,
            spec_step_vel(p, c).1,
            c.timestep as int,
        ).1,
        mag2(spec_integrate(p, c).vel) <= sq(MAX_VEL_FX as int),
        abs_i(spec_integrate(p, c).vel.x as int) <= MAX_VEL_FX,
        abs_i(spec_integrate(p, c).vel.y as int) <= MAX_VEL_FX,
        pos_in_bounds(spec_integrate(p, c).pos),
        vel_admissible(spec_integrate(p, c).vel),
        !c.enabled ==> mag2(spec_integrate(p, c).vel) <= mag2(p.vel),
{
    lemma_step_vel_bounds(p, c);
    let v = spec_step_vel(p, c);
    assert(abs_i(v.0) <= MAX_VEL_FX && abs_i(v.1) <= MAX_VEL_FX);
    lemma_sq_abs(v.0 as i64 as int);
    lemma_sq_abs(v.0);
    lemma_sq_abs(v.1);
}

/// After any positive number of ticks the speed cap holds, whatever the
/// record held before.
pub proof fn lemma_velocity_bounded(p: Particle, c: PushConstants, n: nat)
    requires
        n >= 1,
    ensures
        mag2(spec_integrate_n(p, c, n).vel) <= sq(MAX_VEL_FX as int),
    decreases n,
{
    lemma_integrate_fits(spec_integrate_n(p, c, (n - 1) as nat), c);
}

/// After any positive number of ticks the position lies inside the
/// simulation box, whatever the record held before.
pub proof fn lemma_position_bounded(p: Particle, c: PushConstants, n: nat)
    requires
        n >= 1,
    ensures
        pos_in_bounds(spec_integrate_n(p, c, n).pos),
    decreases n,
{
    lemma_integrate_fits(spec_integrate_n(p, c, (n - 1) as nat), c);
}

/// With attraction disabled, the squared speed decays monotonically
/// tick-over-tick.
pub proof fn lemma_damping_monotone(p: Particle, c: PushConstants, n: nat)
    requires
        !c.enabled,
    ensures
        mag2(spec_integrate_n(p, c, (n + 1) as nat).vel) <= mag2(spec_integrate_n(p, c, n).vel),
{
    let q = spec_integrate_n(p, c, n);
    lemma_integrate_fits(q, c);
    assert(spec_integrate_n(p, c, (n + 1) as nat) == spec_integrate(q, c));
}

/// A record at rest with attraction disabled is a fixed point of the tick:
/// its position and velocity come out unchanged, bit for bit.
pub proof fn lemma_rest_is_fixed(p: Particle, c: PushConstants)
    requires
        !c.enabled,
        p.vel == (Vec2 { x: 0, y: 0 }),
        pos_in_bounds(p.pos),
    ensures
        spec_integrate(p, c) == p,
{
    lemma_div_of0(DAMPING_DEN as int);
    assert(spec_vel_attracted(p, c) == (0int, 0int));
    assert(sq(0) == 0) by (nonlinear_arith);
    assert(spec_clamp_vel(0, 0) == (0int, 0int)) by {
        assert(sq(MAX_VEL_FX as int) > 0) by (nonlinear_arith)
            requires
                MAX_VEL_FX > 0,
        ;
    }
    assert(tdiv(0 * DAMPING_NUM, DAMPING_DEN as int) == 0);
    lemma_div_of0(FX_ONE as int);
    assert(tdiv(0 * c.timestep, FX_ONE as int) == 0);
    assert(spec_step_pos(p, 0, 0, c.timestep as int) == (p.pos.x as int, p.pos.y as int));
}

impl Particle {
    /// A record resting at `pos`.
    pub fn at(pos: Vec2) -> (r: Particle)
        ensures
            r.pos == pos,
            r.vel == (Vec2 { x: 0, y: 0 }),
    {
        Particle { pos, vel: Vec2 { x: 0, y: 0 } }
    }

    /// Advance this record by one simulation tick.
    pub fn integrate(&mut self, constants: &PushConstants)
        requires
            pos_in_bounds(old(self).pos),
            vel_admissible(old(self).vel),
            push_constants_valid(*constants),
        ensures
            *final(self) == spec_integrate(*old(self), *constants),
            mag2(final(self).vel) <= sq(MAX_VEL_FX as int),
            pos_in_bounds(final(self).pos),
            vel_admissible(final(self).vel),
            !constants.enabled ==> mag2(final(self).vel) <= mag2(old(self).vel),
    {
        let ghost p: Particle = *self;
        let mut vx: i64 = self.vel.x;
        let mut vy: i64 = self.vel.y;
        if constants.enabled {
            let a: (i64, i64) = acceleration(self.pos, constants.attractor);
            proof {
                lemma_mul_abs_range(a.0 as int, constants.timestep as int, 655360, TIMESTEP_MAX_FX as int);
                lemma_mul_abs_range(a.1 as int, constants.timestep as int, 655360, TIMESTEP_MAX_FX as int);
            }
            let dvx: i64 = mul_div(a.0, constants.timestep, FX_ONE);
            let dvy: i64 = mul_div(a.1, constants.timestep, FX_ONE);
            proof {
                lemma_tdiv_bounds(a.0 * constants.timestep, FX_ONE as int);
                lemma_tdiv_bounds(a.1 * constants.timestep, FX_ONE as int);
                lemma_div_is_ordered(
                    abs_i(a.0 * constants.timestep),
                    655360 * (TIMESTEP_MAX_FX as int),
                    FX_ONE as int,
                );
            }
            vx = vx + dvx;
            vy = vy + dvy;
        }
        assert((vx as int, vy as int) == spec_vel_attracted(p, *constants));
        assert(abs_i(vx as int) <= 1_200_000_000 && abs_i(vy as int) <= 1_200_000_000);
        let v: (i64, i64) = clamp_velocity(vx, vy);
        proof {
            lemma_mul_abs_range(v.0 as int, DAMPING_NUM as int, MAX_VEL_FX as int, DAMPING_NUM as int);
            lemma_mul_abs_range(v.1 as int, DAMPING_NUM as int, MAX_VEL_FX as int, DAMPING_NUM as int);
        }
        let vdx: i64 = mul_div(v.0, DAMPING_NUM, DAMPING_DEN);
        let vdy: i64 = mul_div(v.1, DAMPING_NUM, DAMPING_DEN);
        proof {
            lemma_damp_shrinks(v.0 as int);
            lemma_damp_shrinks(v.1 as int);
            lemma_mul_abs_range(vdx as int, constants.timestep as int, MAX_VEL_FX as int, TIMESTEP_MAX_FX as int);
            lemma_mul_abs_range(vdy as int, constants.timestep as int, MAX_VEL_FX as int, TIMESTEP_MAX_FX as int);
        }
        let dpx: i64 = mul_div(vdx, constants.timestep, FX_ONE);
        let dpy: i64 = mul_div(vdy, constants.timestep, FX_ONE);
        proof {
            lemma_tdiv_bounds(vdx * constants.timestep, FX_ONE as int);
            lemma_tdiv_bounds(vdy * constants.timestep, FX_ONE as int);
            lemma_div_is_ordered(
                abs_i(vdx * constants.timestep),
                (MAX_VEL_FX as int) * (TIMESTEP_MAX_FX as int),
                FX_ONE as int,
            );
            lemma_div_is_ordered(
                abs_i(vdy * constants.timestep),
                (MAX_VEL_FX as int) * (TIMESTEP_MAX_FX as int),
                FX_ONE as int,
            );
        }
        let px: i64 = clamp_i64(self.pos.x + dpx, X_MIN_FX, X_MAX_FX);
        let py: i64 = clamp_i64(self.pos.y + dpy, Y_MIN_FX, Y_MAX_FX);
        self.vel = Vec2 { x: vdx, y: vdy };
        self.pos = Vec2 { x: px, y: py };
        proof {
            lemma_integrate_fits(p, *constants);
        }
    }
}

/// Acceleration toward `attractor`, exactly `spec_accel` of the offset.
fn acceleration(pos: Vec2, attractor: Vec2) -> (a: (i64, i64))
    requires
        pos_in_bounds(pos),
        abs_i(attractor.x as int) <= ATTRACTOR_LIMIT_FX,
        abs_i(attractor.y as int) <= ATTRACTOR_LIMIT_FX,
    ensures
        a.0 == spec_accel(attractor.x - pos.x, attractor.y - pos.y).0,
        a.1 == spec_accel(attractor.x - pos.x, attractor.y - pos.y).1,
        abs_i(a.0 as int) <= 655360,
        abs_i(a.1 as int) <= 655360,
{
    let dx: i64 = attractor.x - pos.x;
    let dy: i64 = attractor.y - pos.y;
    proof {
        lemma_mul_abs_range(dx as int, dx as int, 4325376, 4325376);
        lemma_mul_abs_range(dy as int, dy as int, 4325376, 4325376);
        lemma_sq_nonneg(dx as int);
        lemma_sq_nonneg(dy as int);
    }
    let d2: i64 = dx * dx + dy * dy;
    let len: u64 = isqrt(d2 as u64);
    let denom: i64 = d2 / FX_ONE + EPS_FX;
    proof {
        lemma_div_pos_is_pos(d2 as int, FX_ONE as int);
    }
    if len == 0 {
        proof {
            lemma_div_of0(denom as int);
            assert(tdiv(0 * FX_ONE, denom as int) == 0);
        }
        (0, 0)
    } else {
        proof {
            // |dx| <= len, because dx^2 <= d2 < (len + 1)^2
            lemma_abs_le_of_sq_lt(dx as int, len as int);
            lemma_abs_le_of_sq_lt(dy as int, len as int);
            lemma_mul_abs_range(dx as int, FX_ONE as int, len as int, FX_ONE as int);
            lemma_mul_abs_range(dy as int, FX_ONE as int, len as int, FX_ONE as int);
        }
        let leni: i64 = len as i64;
        let dirx: i64 = mul_div(dx, FX_ONE, leni);
        let diry: i64 = mul_div(dy, FX_ONE, leni);
        proof {
            // |dir| <= FX_ONE: (|dx| * FX_ONE) / len <= (len * FX_ONE) / len
            lemma_tdiv_bounds(dx * FX_ONE, leni as int);
            lemma_tdiv_bounds(dy * FX_ONE, leni as int);
            lemma_div_is_ordered(
                abs_i(dx * FX_ONE),
                (leni as int) * (FX_ONE as int),
                leni as int,
            );
            lemma_div_is_ordered(
                abs_i(dy * FX_ONE),
                (leni as int) * (FX_ONE as int),
                leni as int,
            );
            lemma_div_by_multiple(FX_ONE as int, leni as int);
            assert(abs_i(dirx as int) <= FX_ONE);
            assert(abs_i(diry as int) <= FX_ONE);
            lemma_mul_abs_range(dirx as int, FX_ONE as int, FX_ONE as int, FX_ONE as int);
            lemma_mul_abs_range(diry as int, FX_ONE as int, FX_ONE as int, FX_ONE as int);
        }
        let ax: i64 = mul_div(dirx, FX_ONE, denom);
        let ay: i64 = mul_div(diry, FX_ONE, denom);
        proof {
            // |a| <= (FX_ONE * FX_ONE) / EPS_FX <= 655360
            lemma_tdiv_bounds(dirx * FX_ONE, denom as int);
            lemma_tdiv_bounds(diry * FX_ONE, denom as int);
            lemma_div_is_ordered(
                abs_i(dirx * FX_ONE),
                (FX_ONE as int) * (FX_ONE as int),
                denom as int,
            );
            lemma_div_is_ordered(
                abs_i(diry * FX_ONE),
                (FX_ONE as int) * (FX_ONE as int),
                denom as int,
            );
            lemma_div_is_ordered_by_denominator(
                (FX_ONE as int) * (FX_ONE as int),
                EPS_FX as int,
                denom as int,
            );
        }
        (ax, ay)
    }
}

/// Clamp the velocity's magnitude to `MAX_VEL_FX`, preserving direction.
fn clamp_velocity(vx: i64, vy: i64) -> (r: (i64, i64))
    requires
        abs_i(vx as int) <= 1_200_000_000,
        abs_i(vy as int) <= 1_200_000_000,
    ensures
        r.0 == spec_clamp_vel(vx as int, vy as int).0,
        r.1 == spec_clamp_vel(vx as int, vy as int).1,
        abs_i(r.0 as int) <= MAX_VEL_FX,
        abs_i(r.1 as int) <= MAX_VEL_FX,
{
    proof {
        lemma_mul_abs_range(vx as int, vx as int, 1_200_000_000, 1_200_000_000);
        lemma_mul_abs_range(vy as int, vy as int, 1_200_000_000, 1_200_000_000);
        lemma_sq_nonneg(vx as int);
        lemma_sq_nonneg(vy as int);
        lemma_clamp_vel_bounds(vx as int, vy as int);
    }
    let m2: i64 = vx * vx + vy * vy;
    if m2 > MAX_VEL_FX * MAX_VEL_FX {
        let n: i64 = isqrt_ceil(m2 as u64) as i64;
        proof {
            lemma_mul_abs_range(vx as int, MAX_VEL_FX as int, 1_200_000_000, MAX_VEL_FX as int);
            lemma_mul_abs_range(vy as int, MAX_VEL_FX as int, 1_200_000_000, MAX_VEL_FX as int);
        }
        (mul_div(vx, MAX_VEL_FX, n), mul_div(vy, MAX_VEL_FX, n))
    } else {
        (vx, vy)
    }
}

} // verus!

