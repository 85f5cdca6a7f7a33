//! The display model: the swapchain's render-facing state, its rebuild
//! path, and the post-present signal that asks for one.
//!
//! The invariant that matters here is the one the swapchain lifecycle must
//! never break, even transiently: there is exactly one framebuffer per
//! swapchain image.

use vstd::prelude::*;

verus! {

use crate::swapchain::{
    Capabilities, Extent, SurfaceFormat, SwapchainConfig, spec_plan_swap_chain,
    spec_pick_sample_count, plan_swap_chain, pick_sample_count,
};

/// What presentation reported about the swapchain's fitness.
#[derive(Clone, Copy, Debug, PartialEq, Eq, Structural)]
pub enum SwapchainState {
    Optimal,
    NeedsRebuild,
}

/// A render pass: one multisampled color attachment resolved into the
/// single-sampled presentable attachment.
#[derive(Clone, Copy, Debug, PartialEq, Eq, Structural)]
pub struct RenderPassDesc {
    pub color_format: SurfaceFormat,
    pub samples: u32,
}

/// Build a render pass description using the largest sampling count the
/// device advertises.
pub fn create_render_pass(color_format: SurfaceFormat, sample_counts: u32) -> (r: RenderPassDesc)
    ensures
        r == (RenderPassDesc { color_format, samples: spec_pick_sample_count(sample_counts) }),
{
    RenderPassDesc { color_format, samples: pick_sample_count(sample_counts) }
}

/// The display's swapchain state: the plan it was built from, the render
/// pass, and the image chain with its framebuffers.
#[derive(Clone, Copy, Debug, PartialEq, Eq, Structural)]
pub struct Display {
    pub config: SwapchainConfig,
    pub render_pass: RenderPassDesc,
    pub image_count: u32,
    pub framebuffer_count: u32,
}

/// The display after a fresh build: the planned configuration, a render
/// pass in the chosen format, and one framebuffer per image the backend
/// granted.
pub open spec fn spec_create_display(
    caps: Capabilities,
    window: Extent,
    graphics_queue_id: u32,
    present_queue_id: u32,
    sample_counts: u32,
    granted_images: u32,
) -> Display {
    let config = spec_plan_swap_chain(caps, window, graphics_queue_id, present_queue_id);
    Display {
        config,
        render_pass: RenderPassDesc {
            color_format: config.format,
            samples: spec_pick_sample_count(sample_counts),
        },
        image_count: granted_images,
        framebuffer_count: granted_images,
    }
}

/// The display after a rebuild: the old plan with the new extent, a fresh
/// render pass in the kept format, and one framebuffer per granted image.
pub open spec fn spec_rebuild_display(
    d: Display,
    new_extent: Extent,
    sample_counts: u32,
    granted_images: u32,
) -> Display {
    Display {
        config: SwapchainConfig {
            format: d.config.format,
            present_mode: d.config.present_mode,
            image_count: d.config.image_count,
            extent: new_extent,
            sharing: d.config.sharing,
        },
        render_pass: RenderPassDesc {
            color_format: d.config.format,
            samples: spec_pick_sample_count(sample_counts),
        },
        image_count: granted_images,
        framebuffer_count: granted_images,
    }
}

impl Display {
    /// The framebuffer array always matches the image chain, one to one.
    pub open spec fn wf(self) -> bool {
        self.framebuffer_count == self.image_count
    }

    /// Build the display state: plan the swapchain, build the render pass,
    /// and record one framebuffer per image the backend granted.
    pub fn create(
        caps: &Capabilities,
        window: Extent,
        graphics_queue_id: u32,
        present_queue_id: u32,
        sample_counts: u32,
        granted_images: u32,
    ) -> (r: Display)
        requires
            caps.supported_formats@.len() > 0,
            caps.min_image_count < 0xffff_ffff,
        ensures
            r == spec_create_display(
                *caps,
                window,
                graphics_queue_id,
                present_queue_id,
                sample_counts,
                granted_images,
            ),
            r.wf(),
    {
        let config: SwapchainConfig = plan_swap_chain(
            caps,
            window,
            graphics_queue_id,
            present_queue_id,
        );
        let render_pass: RenderPassDesc = create_render_pass(config.format, sample_counts);
        Display { config, render_pass, image_count: granted_images, framebuffer_count: granted_images }
    }

    /// Rebuild the swapchain and everything that depends on it, atomically:
    /// new extent, fresh render pass, and framebuffers matching the granted
    /// image chain. Callers rebuild their own pipeline state afterwards.
    pub fn rebuild_swapchain(&mut self, new_extent: Extent, sample_counts: u32, granted_images: u32)
        ensures
            *final(self) == spec_rebuild_display(*old(self), new_extent, sample_counts, granted_images),
            final(self).wf(),
    {
        self.config = SwapchainConfig {
            format: self.config.format,
            present_mode: self.config.present_mode,
            image_count: self.config.image_count,
            extent: new_extent,
            sharing: self.config.sharing,
        };
        self.render_pass = create_render_pass(self.config.format, sample_counts);
        self.image_count = granted_images;
        self.framebuffer_count = granted_images;
    }

    /// What a finished frame asks of the caller: a rebuild after a
    /// suboptimal present, nothing otherwise.
    pub fn render(&self, suboptimal: bool) -> (s: SwapchainState)
        ensures
            s == (if suboptimal {
                SwapchainState::NeedsRebuild
            } else {
                SwapchainState::Optimal
            }),
    {
        if suboptimal {
            SwapchainState::NeedsRebuild
        } else {
            SwapchainState::Optimal
        }
    }

    /// A frame may only record into a framebuffer that exists.
    pub fn select_framebuffer(&self, image_index: u32) -> (ok: bool)
        ensures
            ok == (image_index < self.framebuffer_count),
    {
        image_index < self.framebuffer_count
    }
}

/// Rebuilding twice with the same extent is idempotent: the second rebuild
/// changes nothing, and the framebuffer count equals the image count the
/// backend reported.
pub proof fn lemma_rebuild_idempotent(
    d: Display,
    extent: Extent,
    sample_counts: u32,
    granted_images: u32,
)
    ensures
        spec_rebuild_display(
            spec_rebuild_display(d, extent, sample_counts, granted_images),
            extent,
            sample_counts,
            granted_images,
        ) == spec_rebuild_display(d, extent, sample_counts, granted_images),
        spec_rebuild_display(d, extent, sample_counts, granted_images).framebuffer_count
            == granted_images,
        spec_rebuild_display(d, extent, sample_counts, granted_images).image_count
            == granted_images,
{
}

} // verus!
