use particle_field::fixed::FX_ONE;
use particle_field::particle::{Particle, PushConstants, Vec2, MAX_VEL_FX};

fn tick(p: &mut Particle, enabled: bool, ax: i64, ay: i64, dt: i64) {
    let constants = PushConstants { enabled, attractor: Vec2::new(ax, ay), timestep: dt };
    p.integrate(&constants);
}

#[test]
fn at_rests_the_record() {
    let p = Particle::at(Vec2::new(123, -456));
    assert_eq!(p.pos, Vec2::new(123, -456));
    assert_eq!(p.vel, Vec2::new(0, 0));
}

#[test]
fn four_records_at_rest_are_unchanged_by_a_disabled_tick() {
    // angles 0, pi/2, pi, 3*pi/2 at radius 1.0, zero velocity; one tick
    // with attraction off and timestep 1.0 must leave the positions
    // bit-identical and the velocities zero
    let starts = [
        Vec2::new(FX_ONE, 0),
        Vec2::new(0, FX_ONE),
        Vec2::new(-FX_ONE, 0),
        Vec2::new(0, -FX_ONE),
    ];
    for s in starts {
        let mut p = Particle::at(s);
        tick(&mut p, false, 0, 0, FX_ONE);
        assert_eq!(p.pos, s);
        assert_eq!(p.vel, Vec2::new(0, 0));
    }
}

#[test]
fn single_record_is_pulled_toward_the_attractor() {
    // a record at (1, 0) with the attractor at the origin gains a velocity
    // component pointing at the origin after one enabled tick of 0.1
    let mut p = Particle::at(Vec2::new(FX_ONE, 0));
    tick(&mut p, true, 0, 0, 6554);
    assert!(p.vel.x < 0);
    assert_eq!(p.vel, Vec2::new(-5838, 0));
    assert_eq!(p.pos, Vec2::new(64953, 0));
}

#[test]
fn record_on_the_edge_is_clamped_not_ejected() {
    // seeded on the right edge moving outward at top speed: the position
    // must stay on the edge, not leave the box
    let mut p = Particle { pos: Vec2::new(131072, 0), vel: Vec2::new(MAX_VEL_FX, 0) };
    tick(&mut p, false, 0, 0, FX_ONE);
    assert_eq!(p.pos, Vec2::new(131072, 0));
    assert_eq!(p.vel, Vec2::new(321126, 0));
}

#[test]
fn speed_is_capped_for_wild_initial_velocities() {
    let cases = [
        (1_000_000_000, -987_654_321),
        (5_000_000, 5_000_000),
        (-400_000, 123_456),
        (0, 1_000_000_000),
    ];
    for (vx, vy) in cases {
        let mut p = Particle { pos: Vec2::new(0, 0), vel: Vec2::new(vx, vy) };
        tick(&mut p, true, 100_000, -70_000, 6554);
        let m2 = p.vel.x * p.vel.x + p.vel.y * p.vel.y;
        assert!(m2 <= MAX_VEL_FX * MAX_VEL_FX);
    }
}

#[test]
fn clamp_rescales_to_the_cap_exactly() {
    let mut p = Particle { pos: Vec2::new(0, 0), vel: Vec2::new(1_000_000_000, -987_654_321) };
    tick(&mut p, false, 0, 0, 6554);
    assert_eq!(p.vel, Vec2::new(228_476, -225_655));
    assert_eq!(p.pos, Vec2::new(22_848, -22_566));
}

#[test]
fn disabled_ticks_decay_the_speed_monotonically() {
    let mut p = Particle { pos: Vec2::new(0, 0), vel: Vec2::new(100_000, 50_000) };
    let mut last = p.vel.x * p.vel.x + p.vel.y * p.vel.y;
    for _ in 0..8 {
        tick(&mut p, false, 0, 0, 6554);
        let m2 = p.vel.x * p.vel.x + p.vel.y * p.vel.y;
        assert!(m2 <= last);
        last = m2;
    }
    assert_eq!(p.vel, Vec2::new(85_074, 42_535));
}

#[test]
fn attractor_on_top_of_the_record_exerts_no_force() {
    let mut p = Particle::at(Vec2::new(1000, 2000));
    tick(&mut p, true, 1000, 2000, FX_ONE);
    assert_eq!(p.pos, Vec2::new(1000, 2000));
    assert_eq!(p.vel, Vec2::new(0, 0));
}

#[test]
fn positions_stay_inside_the_box_over_many_ticks() {
    let mut p = Particle { pos: Vec2::new(-131072, 65536), vel: Vec2::new(-300_000, 300_000) };
    for _ in 0..50 {
        tick(&mut p, true, -4_000_000, 4_000_000, 32768);
        assert!((-131072..=131072).contains(&p.pos.x));
        assert!((-65536..=65536).contains(&p.pos.y));
    }
}
