use particle_field::display::{create_render_pass, Display, RenderPassDesc, SwapchainState};
use particle_field::swapchain::{
    choose_image_count, choose_sharing_mode, choose_swap_extent, choose_swap_present_mode,
    choose_swap_surface_format, clamp, pick_sample_count, plan_swap_chain, Capabilities, Extent,
    PresentMode, SharingMode, SupportedPresentModes, SurfaceFormat, COLOR_SPACE_SRGB_NONLINEAR,
    FORMAT_B8G8R8A8_SRGB,
};

fn caps(
    min_count: u32,
    max_count: Option<u32>,
    current: Option<Extent>,
    formats: Vec<SurfaceFormat>,
    mailbox: bool,
) -> Capabilities {
    Capabilities {
        min_image_count: min_count,
        max_image_count: max_count,
        current_extent: current,
        min_image_extent: Extent { width: 1, height: 1 },
        max_image_extent: Extent { width: 4096, height: 4096 },
        supported_formats: formats,
        present_modes: SupportedPresentModes {
            mailbox,
            fifo: true,
            immediate: false,
            relaxed: false,
        },
    }
}

fn preferred() -> SurfaceFormat {
    SurfaceFormat { format: FORMAT_B8G8R8A8_SRGB, color_space: COLOR_SPACE_SRGB_NONLINEAR }
}

fn other_format() -> SurfaceFormat {
    SurfaceFormat { format: 44, color_space: 0 }
}

#[test]
fn clamp_orders_its_bounds() {
    assert_eq!(clamp(5, 1, 10), 5);
    assert_eq!(clamp(0, 1, 10), 1);
    assert_eq!(clamp(11, 1, 10), 10);
    assert_eq!(clamp(5, 7, 3), 7);
}

#[test]
fn preferred_surface_format_wins_when_offered() {
    let formats = vec![other_format(), preferred(), other_format()];
    assert_eq!(choose_swap_surface_format(&formats), preferred());
}

#[test]
fn first_surface_format_is_the_fallback() {
    let formats = vec![other_format(), SurfaceFormat { format: 37, color_space: 1 }];
    assert_eq!(choose_swap_surface_format(&formats), other_format());
}

#[test]
fn mailbox_present_mode_is_preferred() {
    let with = SupportedPresentModes { mailbox: true, fifo: true, immediate: false, relaxed: false };
    let without = SupportedPresentModes {
        mailbox: false,
        fifo: true,
        immediate: true,
        relaxed: true,
    };
    assert_eq!(choose_swap_present_mode(&with), PresentMode::Mailbox);
    assert_eq!(choose_swap_present_mode(&without), PresentMode::Fifo);
}

#[test]
fn surface_reported_extent_is_taken_as_is() {
    let c = caps(2, None, Some(Extent { width: 800, height: 600 }), vec![preferred()], true);
    let e = choose_swap_extent(&c, Extent { width: 5000, height: 5000 });
    assert_eq!(e, Extent { width: 800, height: 600 });
}

#[test]
fn window_size_is_clamped_into_the_supported_range() {
    let c = caps(2, None, None, vec![preferred()], true);
    let e = choose_swap_extent(&c, Extent { width: 5000, height: 0 });
    assert_eq!(e, Extent { width: 4096, height: 1 });
}

#[test]
fn image_count_is_one_more_than_the_minimum() {
    let c = caps(2, None, None, vec![preferred()], true);
    assert_eq!(choose_image_count(&c), 3);
}

#[test]
fn image_count_is_capped_at_the_maximum() {
    let c = caps(3, Some(3), None, vec![preferred()], true);
    assert_eq!(choose_image_count(&c), 3);
    let c2 = caps(2, Some(8), None, vec![preferred()], true);
    assert_eq!(choose_image_count(&c2), 3);
}

#[test]
fn sharing_is_exclusive_only_for_one_queue() {
    assert_eq!(choose_sharing_mode(4, 4), SharingMode::Exclusive);
    assert_eq!(choose_sharing_mode(1, 2), SharingMode::Concurrent(1, 2));
}

#[test]
fn sample_count_takes_the_highest_advertised_bit() {
    assert_eq!(pick_sample_count(0x7f), 64);
    assert_eq!(pick_sample_count(0x2f), 32);
    assert_eq!(pick_sample_count(0x10), 16);
    assert_eq!(pick_sample_count(0x08), 8);
    assert_eq!(pick_sample_count(0x04), 4);
    assert_eq!(pick_sample_count(0x02), 2);
    assert_eq!(pick_sample_count(0x01), 1);
    assert_eq!(pick_sample_count(0), 1);
}

#[test]
fn the_plan_combines_every_choice() {
    let c = caps(2, Some(4), Some(Extent { width: 1366, height: 768 }), vec![preferred()], true);
    let plan = plan_swap_chain(&c, Extent { width: 9999, height: 9999 }, 0, 1);
    assert_eq!(plan.format, preferred());
    assert_eq!(plan.present_mode, PresentMode::Mailbox);
    assert_eq!(plan.image_count, 3);
    assert_eq!(plan.extent, Extent { width: 1366, height: 768 });
    assert_eq!(plan.sharing, SharingMode::Concurrent(0, 1));
}

#[test]
fn render_pass_keeps_the_format_and_picks_samples() {
    let rp = create_render_pass(preferred(), 0x0f);
    assert_eq!(rp, RenderPassDesc { color_format: preferred(), samples: 8 });
}

#[test]
fn display_always_pairs_framebuffers_with_images() {
    let c = caps(2, None, Some(Extent { width: 800, height: 600 }), vec![preferred()], false);
    let d = Display::create(&c, Extent { width: 800, height: 600 }, 0, 0, 0x01, 4);
    assert_eq!(d.image_count, 4);
    assert_eq!(d.framebuffer_count, 4);
    assert_eq!(d.config.extent, Extent { width: 800, height: 600 });
}

#[test]
fn repeated_same_size_rebuilds_are_idempotent() {
    let c = caps(2, None, Some(Extent { width: 800, height: 600 }), vec![preferred()], false);
    let mut d = Display::create(&c, Extent { width: 800, height: 600 }, 0, 0, 0x01, 3);
    d.rebuild_swapchain(Extent { width: 400, height: 300 }, 0x01, 3);
    let once = d;
    d.rebuild_swapchain(Extent { width: 400, height: 300 }, 0x01, 3);
    assert_eq!(d, once);
    assert_eq!(d.framebuffer_count, d.image_count);
    assert_eq!(d.framebuffer_count, 3);
}

#[test]
fn suboptimal_presentation_asks_for_a_rebuild() {
    let c = caps(2, None, Some(Extent { width: 800, height: 600 }), vec![preferred()], false);
    let d = Display::create(&c, Extent { width: 800, height: 600 }, 0, 0, 0x01, 3);
    assert_eq!(d.render(true), SwapchainState::NeedsRebuild);
    assert_eq!(d.render(false), SwapchainState::Optimal);
    assert!(d.select_framebuffer(2));
    assert!(!d.select_framebuffer(3));
}
