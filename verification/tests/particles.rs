use particle_field::fixed::FX_ONE as FX;
use particle_field::particle::{PushConstants, Vec2};
use particle_field::particles::{
    identity, initialize_vertices, orthographic, Particles, MIN_RADIUS_FX,
};
use particle_field::swapchain::Extent;

#[test]
fn seeding_places_records_on_their_rays_inside_the_orbit_band() {
    // the +x direction: the seeded radius must land in [0.2, 1.0) world
    // units, so a record handed back unchanged or out of band fails here
    let dirs = vec![Vec2::new(FX, 0), Vec2::new(0, -FX), Vec2::new(-FX, 0)];
    let records = initialize_vertices(&dirs);
    assert_eq!(records.len(), 3);

    assert!(records[0].pos.x >= MIN_RADIUS_FX && records[0].pos.x < FX);
    assert_eq!(records[0].pos.y, 0);

    assert!(records[1].pos.y <= -MIN_RADIUS_FX && records[1].pos.y > -FX);
    assert_eq!(records[1].pos.x, 0);

    assert!(records[2].pos.x <= -MIN_RADIUS_FX && records[2].pos.x > -FX);

    for rec in &records {
        assert_eq!(rec.vel, Vec2::new(0, 0));
    }
}

#[test]
fn the_store_starts_with_the_identity_projection() {
    let store = Particles::new(vec![Vec2::new(FX, 0)], Extent { width: 800, height: 600 });
    assert_eq!(store.transform.projection, identity());
    assert_eq!(store.records.len(), 1);
    assert_eq!(store.dirs.len(), 1);
}

#[test]
fn a_store_tick_advances_every_record() {
    let mut store = Particles::new(
        vec![Vec2::new(FX, 0), Vec2::new(-FX, 0)],
        Extent { width: 800, height: 600 },
    );
    let constants = PushConstants {
        enabled: true,
        attractor: Vec2::new(0, 0),
        timestep: 6554,
    };
    store.tick(&constants);
    // both records accelerate toward the origin from opposite sides
    assert!(store.records[0].vel.x < 0);
    assert!(store.records[1].vel.x > 0);
}

#[test]
fn rebuild_recomputes_only_the_projection() {
    let mut store = Particles::new(vec![Vec2::new(FX, 0)], Extent { width: 800, height: 600 });
    let records = store.records.clone();
    store.rebuild_swapchain_resources(Extent { width: 1000, height: 600 });
    assert_eq!(store.records, records);
    assert_eq!(store.extent, Extent { width: 1000, height: 600 });
    assert_eq!(store.transform.projection, orthographic(Extent { width: 1000, height: 600 }));
    assert_eq!(store.transform.projection.m00, 39321);
}

#[test]
fn orthographic_scales_x_by_the_aspect_ratio() {
    let m = orthographic(Extent { width: 800, height: 600 });
    assert_eq!(m.m00, 49152);
    assert_eq!(m.m11, -FX);
    assert_eq!(m.m22, FX);
    assert_eq!(m.m33, FX);
    assert_eq!(m.m01, 0);
    assert_eq!(m.m30, 0);
    // the same matrix for the same extent, whatever came between
    assert_eq!(orthographic(Extent { width: 800, height: 600 }), m);
}

#[test]
fn draw_covers_the_store_with_one_instance() {
    let store = Particles::new(
        vec![Vec2::new(FX, 0), Vec2::new(0, FX), Vec2::new(-FX, 0)],
        Extent { width: 800, height: 600 },
    );
    let call = store.draw();
    assert_eq!(call.vertex_count, 3);
    assert_eq!(call.instance_count, 1);
}

#[test]
fn reset_draws_fresh_radii_and_rests_the_records() {
    let mut store = Particles::new(vec![Vec2::new(FX, 0)], Extent { width: 800, height: 600 });
    let constants = PushConstants {
        enabled: true,
        attractor: Vec2::new(-100_000, 50_000),
        timestep: 32768,
    };
    store.tick(&constants);
    store.reset_vertices();
    assert_eq!(store.records.len(), 1);
    assert_eq!(store.records[0].vel, Vec2::new(0, 0));
    assert!(store.records[0].pos.x >= MIN_RADIUS_FX && store.records[0].pos.x < FX);
    // the reset also rebuilt the projection for the stored extent
    assert_eq!(store.transform.projection, orthographic(Extent { width: 800, height: 600 }));
}
