use particle_field::display::Display;
use particle_field::driver::{
    cursor_to_world, timestep_for, Action, Application, Event,
};
use particle_field::fixed::FX_ONE;
use particle_field::particle::Vec2;
use particle_field::particles::{orthographic, Particles};
use particle_field::swapchain::{
    Capabilities, Extent, SupportedPresentModes, SurfaceFormat, COLOR_SPACE_SRGB_NONLINEAR,
    FORMAT_B8G8R8A8_SRGB,
};

fn caps_for(extent: Extent) -> Capabilities {
    Capabilities {
        min_image_count: 2,
        max_image_count: Some(8),
        current_extent: Some(extent),
        min_image_extent: Extent { width: 1, height: 1 },
        max_image_extent: Extent { width: 4096, height: 4096 },
        supported_formats: vec![SurfaceFormat {
            format: FORMAT_B8G8R8A8_SRGB,
            color_space: COLOR_SPACE_SRGB_NONLINEAR,
        }],
        present_modes: SupportedPresentModes {
            mailbox: true,
            fifo: true,
            immediate: false,
            relaxed: false,
        },
    }
}

fn app_800x600() -> Application {
    let extent = Extent { width: 800, height: 600 };
    let display = Display::create(&caps_for(extent), extent, 0, 0, 0x01, 3);
    let dirs = vec![Vec2::new(FX_ONE, 0), Vec2::new(0, -FX_ONE)];
    let particles = Particles::new(dirs, extent);
    let mut app = Application::initialize(display, particles);
    app.rebuild_swapchain_resources(extent, 0x01, 3);
    app
}

#[test]
fn cursor_maps_center_to_the_origin() {
    let dims = Extent { width: 800, height: 600 };
    assert_eq!(cursor_to_world(400, 300, dims), Vec2::new(0, 0));
}

#[test]
fn cursor_maps_corners_by_the_aspect_ratio() {
    let dims = Extent { width: 800, height: 600 };
    assert_eq!(cursor_to_world(800, 0, dims), Vec2::new(87381, 65536));
    assert_eq!(cursor_to_world(0, 600, dims), Vec2::new(-87381, -65536));
}

#[test]
fn timestep_converts_milliseconds_and_caps_stalls() {
    assert_eq!(timestep_for(15), 983);
    assert_eq!(timestep_for(1000), FX_ONE);
    assert_eq!(timestep_for(16_000), 1_048_576);
    assert_eq!(timestep_for(1_000_000), 1_048_576);
}

#[test]
fn close_request_exits() {
    let mut app = app_800x600();
    assert_eq!(app.handle_event(&Event::CloseRequested), Action::Exit);
}

#[test]
fn pointer_events_update_the_input_state() {
    let mut app = app_800x600();
    assert_eq!(app.handle_event(&Event::CursorMoved { x: 800, y: 0 }), Action::Continue);
    assert_eq!(app.mouse, Vec2::new(87381, 65536));
    assert_eq!(app.handle_event(&Event::MouseInput { pressed: true }), Action::Continue);
    assert!(app.pressed);
    assert_eq!(app.handle_event(&Event::MouseInput { pressed: false }), Action::Continue);
    assert!(!app.pressed);
}

#[test]
fn reset_resize_and_drained_queue_name_their_actions() {
    let mut app = app_800x600();
    assert_eq!(app.handle_event(&Event::ResetKeyReleased), Action::ResetParticles);
    assert_eq!(app.handle_event(&Event::Resized), Action::RebuildSwapchain);
    assert_eq!(app.handle_event(&Event::MainEventsCleared), Action::RenderFrame);
}

#[test]
fn update_ticks_only_after_the_gate() {
    let mut app = app_800x600();
    let before = app.particles.records.clone();
    assert!(!app.update(14));
    assert_eq!(app.particles.records, before);
    assert!(app.update(15));
}

#[test]
fn a_tick_under_pressure_pulls_records_toward_the_pointer() {
    let mut app = app_800x600();
    // retarget the attractor at the world origin and press
    app.handle_event(&Event::CursorMoved { x: 400, y: 300 });
    app.handle_event(&Event::MouseInput { pressed: true });
    // the first record starts at radius in [0.2, 1.0) on the +x axis
    let x0 = app.particles.records[0].pos.x;
    assert!(x0 > 0);
    app.tick(6554);
    assert!(app.particles.records[0].vel.x < 0);
}

#[test]
fn resize_away_and_back_restores_the_projection() {
    let mut app = app_800x600();
    let e1 = Extent { width: 800, height: 600 };
    let e2 = Extent { width: 1000, height: 600 };
    app.rebuild_swapchain_resources(e1, 0x01, 3);
    let direct = app.particles.transform;
    app.rebuild_swapchain_resources(e2, 0x01, 3);
    assert_ne!(app.particles.transform, direct);
    app.rebuild_swapchain_resources(e1, 0x01, 3);
    assert_eq!(app.particles.transform, direct);
    assert_eq!(direct.projection, orthographic(e1));
    assert_eq!(direct.projection.m00, 49152);
    assert_eq!(app.screen_dims, e1);
}

#[test]
fn reset_reseeds_without_touching_the_projection_extent() {
    let mut app = app_800x600();
    let dirs = app.particles.dirs.clone();
    let extent = app.particles.extent;
    app.reset_vertices();
    assert_eq!(app.particles.dirs, dirs);
    assert_eq!(app.particles.extent, extent);
    for rec in app.particles.records.iter() {
        assert_eq!(rec.vel, Vec2::new(0, 0));
    }
}

#[test]
fn render_covers_every_record_once() {
    let app = app_800x600();
    let (draw, state) = app.render(false);
    assert_eq!(draw.vertex_count, 2);
    assert_eq!(draw.instance_count, 1);
    assert_eq!(state, particle_field::display::SwapchainState::Optimal);
    let (_, state2) = app.render(true);
    assert_eq!(state2, particle_field::display::SwapchainState::NeedsRebuild);
}
