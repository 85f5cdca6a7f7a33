//! Swapchain planning: the pure decisions behind building and rebuilding
//! the chain of presentable images — surface format, presentation mode,
//! image count, extent and queue sharing.

use vstd::prelude::*;

verus! {

/// Pixel dimensions of a surface, window or image.
#[derive(Clone, Copy, Debug, PartialEq, Eq, Structural)]
pub struct Extent {
    pub width: u32,
    pub height: u32,
}

/// A surface format: a pixel format and a color space, by their Vulkan
/// codes.
#[derive(Clone, Copy, Debug, PartialEq, Eq, Structural)]
pub struct SurfaceFormat {
    pub format: u32,
    pub color_space: u32,
}

/// Vulkan's code for the 32-bit sRGB BGRA pixel format.
pub const FORMAT_B8G8R8A8_SRGB: u32 = 50;

/// Vulkan's code for the nonlinear sRGB color space.
pub const COLOR_SPACE_SRGB_NONLINEAR: u32 = 0;

/// Sample-count flag bits, as the device advertises them.
pub const SAMPLE_COUNT_64_BIT: u32 = 0x40;

pub const SAMPLE_COUNT_32_BIT: u32 = 0x20;

pub const SAMPLE_COUNT_16_BIT: u32 = 0x10;

pub const SAMPLE_COUNT_8_BIT: u32 = 0x8;

pub const SAMPLE_COUNT_4_BIT: u32 = 0x4;

pub const SAMPLE_COUNT_2_BIT: u32 = 0x2;

/// The format this renderer asks for first.
pub open spec fn preferred_format() -> SurfaceFormat {
    SurfaceFormat { format: FORMAT_B8G8R8A8_SRGB, color_space: COLOR_SPACE_SRGB_NONLINEAR }
}

/// Which presentation modes the surface supports.
#[derive(Clone, Copy, Debug, PartialEq, Eq, Structural)]
pub struct SupportedPresentModes {
    pub mailbox: bool,
    pub fifo: bool,
    pub immediate: bool,
    pub relaxed: bool,
}

impl SupportedPresentModes {
    /// At least one presentation mode is supported.
    pub open spec fn any(self) -> bool {
        self.mailbox || self.fifo || self.immediate || self.relaxed
    }
}

/// The presentation mode the renderer runs with: low-latency
/// triple-buffering when available, strict first-in-first-out otherwise.
#[derive(Clone, Copy, Debug, PartialEq, Eq, Structural)]
pub enum PresentMode {
    Mailbox,
    Fifo,
}

/// How the swapchain images are shared between the graphics and present
/// queues.
#[derive(Clone, Copy, Debug, PartialEq, Eq, Structural)]
pub enum SharingMode {
    Exclusive,
    Concurrent(u32, u32),
}

/// What the surface reports about itself: counts, extents, formats and
/// presentation modes.
#[derive(Clone, Debug)]
pub struct Capabilities {
    pub min_image_count: u32,
    pub max_image_count: Option<u32>,
    pub current_extent: Option<Extent>,
    pub min_image_extent: Extent,
    pub max_image_extent: Extent,
    pub supported_formats: Vec<SurfaceFormat>,
    pub present_modes: SupportedPresentModes,
}

/// The plan for one swapchain build.
#[derive(Clone, Copy, Debug, PartialEq, Eq, Structural)]
pub struct SwapchainConfig {
    pub format: SurfaceFormat,
    pub present_mode: PresentMode,
    pub image_count: u32,
    pub extent: Extent,
    pub sharing: SharingMode,
}

/// `max(lower, min(x, upper))`: the lower bound wins when the bounds cross.
pub open spec fn spec_clamp_u32(x: u32, lower: u32, upper: u32) -> u32 {
    let m = if x < upper {
        x
    } else {
        upper
    };
    if m < lower {
        lower
    } else {
        m
    }
}

/// Clamp `x` into `[lower, upper]`.
pub fn clamp(x: u32, lower: u32, upper: u32) -> (r: u32)
    ensures
        r == spec_clamp_u32(x, lower, upper),
{
    let m: u32 = if x < upper {
        x
    } else {
        upper
    };
    if m < lower {
        lower
    } else {
        m
    }
}

/// The preferred format when the surface offers it, else the first format
/// the surface lists.
pub open spec fn spec_choose_format(formats: Seq<SurfaceFormat>) -> SurfaceFormat {
    if exists|i: int| 0 <= i < formats.len() && formats[i] == preferred_format() {
        preferred_format()
    } else {
        formats[0]
    }
}

/// Select a format and color space from the available formats.
pub fn choose_swap_surface_format(formats: &Vec<SurfaceFormat>) -> (r: SurfaceFormat)
    requires
        formats@.len() > 0,
    ensures
        r == spec_choose_format(formats@),
{
    let n: usize = formats.len();
    let mut i: usize = 0;
    while i < n
        invariant
            n == formats@.len(),
            0 <= i <= n,
            forall|j: int| 0 <= j < i ==> formats@[j] != preferred_format(),
        decreases n - i,
    {
        let f: SurfaceFormat = formats[i];
        if f.format == FORMAT_B8G8R8A8_SRGB && f.color_space == COLOR_SPACE_SRGB_NONLINEAR {
            assert(formats@[i as int] == preferred_format());
            return f;
        }
        i = i + 1;
    }
    formats[0]
}

/// Low-latency triple-buffering when available, else strict
/// first-in-first-out.
pub open spec fn spec_choose_present_mode(modes: SupportedPresentModes) -> PresentMode {
    if modes.mailbox {
        PresentMode::Mailbox
    } else {
        PresentMode::Fifo
    }
}

/// Select the presentation mode.
pub fn choose_swap_present_mode(modes: &SupportedPresentModes) -> (r: PresentMode)
    ensures
        r == spec_choose_present_mode(*modes),
{
    if modes.mailbox {
        PresentMode::Mailbox
    } else {
        PresentMode::Fifo
    }
}

/// The surface-reported extent when there is one, else the window's size
/// clamped into the surface's supported range.
pub open spec fn spec_choose_extent(caps: Capabilities, window: Extent) -> Extent {
    match caps.current_extent {
        Option::Some(e) => e,
        Option::None => Extent {
            width: spec_clamp_u32(
                window.width,
                caps.min_image_extent.width,
                caps.max_image_extent.width,
            ),
            height: spec_clamp_u32(
                window.height,
                caps.min_image_extent.height,
                caps.max_image_extent.height,
            ),
        },
    }
}

/// Select the swapchain presentation extent. Some window managers fill the
/// current extent; otherwise one is derived from the window's size.
pub fn choose_swap_extent(caps: &Capabilities, window: Extent) -> (r: Extent)
    ensures
        r == spec_choose_extent(*caps, window),
{
    match caps.current_extent {
        Option::Some(e) => e,
        Option::None => {
            let width: u32 = clamp(
                window.width,
                caps.min_image_extent.width,
                caps.max_image_extent.width,
            );
            let height: u32 = clamp(
                window.height,
                caps.min_image_extent.height,
                caps.max_image_extent.height,
            );
            Extent { width, height }
        },
    }
}

/// One more image than the minimum, capped at the surface's maximum when it
/// has one.
pub open spec fn spec_choose_image_count(caps: Capabilities) -> u32 {
    let suggested = (caps.min_image_count + 1) as u32;
    match caps.max_image_count {
        Option::Some(m) => if suggested < m {
            suggested
        } else {
            m
        },
        Option::None => suggested,
    }
}

/// Select how many images the swapchain holds.
pub fn choose_image_count(caps: &Capabilities) -> (r: u32)
    requires
        caps.min_image_count < 0xffff_ffff,
    ensures
        r == spec_choose_image_count(*caps),
{
    let suggested: u32 = caps.min_image_count + 1;
    match caps.max_image_count {
        Option::Some(m) => if suggested < m {
            suggested
        } else {
            m
        },
        Option::None => suggested,
    }
}

/// Exclusive access when graphics and present are the same queue, else
/// concurrent sharing between the two.
pub open spec fn spec_choose_sharing_mode(graphics_queue_id: u32, present_queue_id: u32) -> SharingMode {
    if graphics_queue_id == present_queue_id {
        SharingMode::Exclusive
    } else {
        SharingMode::Concurrent(graphics_queue_id, present_queue_id)
    }
}

/// Select the image sharing mode for the two queues.
pub fn choose_sharing_mode(graphics_queue_id: u32, present_queue_id: u32) -> (r: SharingMode)
    ensures
        r == spec_choose_sharing_mode(graphics_queue_id, present_queue_id),
{
    if graphics_queue_id == present_queue_id {
        SharingMode::Exclusive
    } else {
        SharingMode::Concurrent(graphics_queue_id, present_queue_id)
    }
}

/// The highest advertised sample count, from 64 down to 2, else 1.
pub open spec fn spec_pick_sample_count(counts: u32) -> u32 {
    if counts & SAMPLE_COUNT_64_BIT != 0 {
        64
    } else if counts & SAMPLE_COUNT_32_BIT != 0 {
        32
    } else if counts & SAMPLE_COUNT_16_BIT != 0 {
        16
    } else if counts & SAMPLE_COUNT_8_BIT != 0 {
        8
    } else if counts & SAMPLE_COUNT_4_BIT != 0 {
        4
    } else if counts & SAMPLE_COUNT_2_BIT != 0 {
        2
    } else {
        1
    }
}

/// Pick the largest supported sampling count from the device's advertised
/// flag bits.
pub fn pick_sample_count(counts: u32) -> (r: u32)
    ensures
        r == spec_pick_sample_count(counts),
{
    if counts & SAMPLE_COUNT_64_BIT != 0 {
        64
    } else if counts & SAMPLE_COUNT_32_BIT != 0 {
        32
    } else if counts & SAMPLE_COUNT_16_BIT != 0 {
        16
    } else if counts & SAMPLE_COUNT_8_BIT != 0 {
        8
    } else if counts & SAMPLE_COUNT_4_BIT != 0 {
        4
    } else if counts & SAMPLE_COUNT_2_BIT != 0 {
        2
    } else {
        1
    }
}

/// The whole plan for one swapchain build.
pub open spec fn spec_plan_swap_chain(
    caps: Capabilities,
    window: Extent,
    graphics_queue_id: u32,
    present_queue_id: u32,
) -> SwapchainConfig {
    SwapchainConfig {
        format: spec_choose_format(caps.supported_formats@),
        present_mode: spec_choose_present_mode(caps.present_modes),
        image_count: spec_choose_image_count(caps),
        extent: spec_choose_extent(caps, window),
        sharing: spec_choose_sharing_mode(graphics_queue_id, present_queue_id),
    }
}

/// Plan a swapchain build: every selection the build makes, from the
/// surface's capabilities and the window's size.
pub fn plan_swap_chain(
    caps: &Capabilities,
    window: Extent,
    graphics_queue_id: u32,
    present_queue_id: u32,
) -> (r: SwapchainConfig)
    requires
        caps.supported_formats@.len() > 0,
        caps.min_image_count < 0xffff_ffff,
    ensures
        r == spec_plan_swap_chain(*caps, window, graphics_queue_id, present_queue_id),
{
    SwapchainConfig {
        format: choose_swap_surface_format(&caps.supported_formats),
        present_mode: choose_swap_present_mode(&caps.present_modes),
        image_count: choose_image_count(caps),
        extent: choose_swap_extent(caps, window),
        sharing: choose_sharing_mode(graphics_queue_id, present_queue_id),
    }
}

} // verus!
