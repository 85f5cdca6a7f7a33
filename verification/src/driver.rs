//! The frame driver: the application state the event loop carries, and the
//! decision it takes for each event of the closed event set. The loop
//! around it performs the returned action — exit, reset, rebuild or render
//! — and hands back what the outside world reported.

use vstd::prelude::*;

verus! {

use crate::fixed::{FX_ONE, abs_i, tdiv, spec_clamp, mul_div, clamp_i64, lemma_mul_abs_range};
use crate::particle::{
    Vec2, PushConstants, spec_integrate, ATTRACTOR_LIMIT_FX,
    TIMESTEP_MAX_FX,
};
use crate::particles::{Particles, DrawCall, Transform, spec_rebuilt, spec_orthographic};
use crate::display::{Display, SwapchainState, spec_rebuild_display};
use crate::swapchain::Extent;
use vstd::arithmetic::div_mod::lemma_div_is_ordered;

/// The tick gate: at most one simulation tick per this many milliseconds.
pub const TICK_MILLIS: u64 = 15;

/// The longest wall-clock stretch a single tick accounts for, in
/// milliseconds; a longer stall still advances by one capped tick.
pub const TICK_CAP_MILLIS: u64 = 16000;

/// The closed set of events the loop reacts to.
#[derive(Clone, Copy, Debug, PartialEq, Eq, Structural)]
pub enum Event {
    CloseRequested,
    CursorMoved { x: u32, y: u32 },
    ResetKeyReleased,
    MouseInput { pressed: bool },
    Resized,
    MainEventsCleared,
}

/// What the loop does after an event is handled.
#[derive(Clone, Copy, Debug, PartialEq, Eq, Structural)]
pub enum Action {
    Exit,
    ResetParticles,
    RebuildSwapchain,
    RenderFrame,
    Continue,
}

/// The pointer's x position mapped to world space: the screen spans
/// `[-width/height, width/height]` world units left to right, and the
/// result is clamped into the attractor envelope.
pub open spec fn spec_cursor_world_x(px: u32, dims: Extent) -> int {
    spec_clamp(
        tdiv((2 * px - dims.width) * FX_ONE, dims.height as int),
        -ATTRACTOR_LIMIT_FX,
        ATTRACTOR_LIMIT_FX as int,
    )
}

/// The pointer's y position mapped to world space: the screen spans
/// `[1, -1]` world units top to bottom, clamped likewise.
pub open spec fn spec_cursor_world_y(py: u32, dims: Extent) -> int {
    spec_clamp(
        tdiv((dims.height - 2 * py) * FX_ONE, dims.height as int),
        -ATTRACTOR_LIMIT_FX,
        ATTRACTOR_LIMIT_FX as int,
    )
}

/// Map a pointer position in pixels to the world-space attractor position.
pub fn cursor_to_world(x: u32, y: u32, dims: Extent) -> (r: Vec2)
    requires
        dims.width >= 1,
        dims.height >= 1,
    ensures
        r.x == spec_cursor_world_x(x, dims),
        r.y == spec_cursor_world_y(y, dims),
        abs_i(r.x as int) <= ATTRACTOR_LIMIT_FX,
        abs_i(r.y as int) <= ATTRACTOR_LIMIT_FX,
{
    let w: i64 = dims.width as i64;
    let h: i64 = dims.height as i64;
    let tx: i64 = 2 * (x as i64) - w;
    let ty: i64 = h - 2 * (y as i64);
    proof {
        lemma_mul_abs_range(tx as int, FX_ONE as int, 0x3_0000_0000, FX_ONE as int);
        lemma_mul_abs_range(ty as int, FX_ONE as int, 0x3_0000_0000, FX_ONE as int);
    }
    let wx: i64 = mul_div(tx, FX_ONE, h);
    let wy: i64 = mul_div(ty, FX_ONE, h);
    Vec2 {
        x: clamp_i64(wx, -ATTRACTOR_LIMIT_FX, ATTRACTOR_LIMIT_FX),
        y: clamp_i64(wy, -ATTRACTOR_LIMIT_FX, ATTRACTOR_LIMIT_FX),
    }
}

/// The capped fixed-point timestep for a tick that accounts for
/// `elapsed_millis` of wall-clock time.
pub open spec fn spec_timestep(elapsed_millis: u64) -> int {
    let capped = if elapsed_millis < TICK_CAP_MILLIS {
        elapsed_millis as int
    } else {
        TICK_CAP_MILLIS as int
    };
    (capped * FX_ONE) / 1000
}

/// Convert elapsed wall-clock milliseconds to the tick's timestep.
pub fn timestep_for(elapsed_millis: u64) -> (t: i64)
    ensures
        t == spec_timestep(elapsed_millis),
        0 <= t <= TIMESTEP_MAX_FX,
{
    let capped: i64 = if elapsed_millis < TICK_CAP_MILLIS {
        elapsed_millis as i64
    } else {
        16000
    };
    let t: i64 = capped * FX_ONE / 1000;
    proof {
        vstd::arithmetic::div_mod::lemma_div_pos_is_pos(capped * FX_ONE, 1000);
        lemma_div_is_ordered(capped * FX_ONE, 16000 * FX_ONE, 1000);
    }
    t
}

/// The per-tick parameter block for an input state.
pub open spec fn spec_push_constants(app: Application, timestep: i64) -> PushConstants {
    PushConstants { enabled: app.pressed, attractor: app.mouse, timestep }
}

/// The application: the display, the particle store, and the input state
/// the frame driver folds events into.
pub struct Application {
    pub display: Display,
    pub particles: Particles,
    pub screen_dims: Extent,
    pub mouse: Vec2,
    pub pressed: bool,
}

impl Application {
    /// The store is well formed, the attractor is inside its envelope, and
    /// the remembered screen size is nonempty.
    pub open spec fn wf(self) -> bool {
        &&& self.particles.wf()
        &&& abs_i(self.mouse.x as int) <= ATTRACTOR_LIMIT_FX
        &&& abs_i(self.mouse.y as int) <= ATTRACTOR_LIMIT_FX
        &&& self.screen_dims.width >= 1
        &&& self.screen_dims.height >= 1
    }

    /// Assemble the application around a display and a store, with the
    /// pointer at the origin, the button released, and a placeholder
    /// screen size until the first rebuild.
    pub fn initialize(display: Display, particles: Particles) -> (r: Application)
        requires
            particles.wf(),
        ensures
            r.display == display,
            r.particles == particles,
            r.screen_dims == (Extent { width: 1, height: 1 }),
            r.mouse == (Vec2 { x: 0, y: 0 }),
            !r.pressed,
            r.wf(),
    {
        Application {
            display,
            particles,
            screen_dims: Extent { width: 1, height: 1 },
            mouse: Vec2 { x: 0, y: 0 },
            pressed: false,
        }
    }

    /// Advance the simulation by one tick of the given length, under the
    /// current input state.
    pub fn tick(&mut self, timestep: i64)
        requires
            old(self).wf(),
            0 <= timestep <= TIMESTEP_MAX_FX,
        ensures
            final(self).wf(),
            final(self).particles.records@.len() == old(self).particles.records@.len(),
            forall|i: int| 0 <= i < final(self).particles.records@.len() ==> final(self).particles.records@[i] == spec_integrate(
                #[trigger] old(self).particles.records@[i],
                spec_push_constants(*old(self), timestep),
            ),
            final(self).particles.dirs == old(self).particles.dirs,
            final(self).particles.extent == old(self).particles.extent,
            final(self).particles.transform == old(self).particles.transform,
            final(self).display == old(self).display,
            final(self).screen_dims == old(self).screen_dims,
            final(self).mouse == old(self).mouse,
            final(self).pressed == old(self).pressed,
    {
        let constants: PushConstants = PushConstants {
            enabled: self.pressed,
            attractor: self.mouse,
            timestep,
        };
        self.particles.tick(&constants);
    }

    /// Tick the simulation only when at least `TICK_MILLIS` of wall-clock
    /// time passed since the last tick; report whether it ticked.
    pub fn update(&mut self, elapsed_millis: u64) -> (ticked: bool)
        requires
            old(self).wf(),
        ensures
            final(self).wf(),
            ticked == (elapsed_millis >= TICK_MILLIS),
            !ticked ==> *final(self) == *old(self),
            ticked ==> final(self).particles.records@.len() == old(self).particles.records@.len(),
            ticked ==> forall|i: int|
                0 <= i < final(self).particles.records@.len() ==> final(self).particles.records@[i] == spec_integrate(
                    #[trigger] old(self).particles.records@[i],
                    spec_push_constants(*old(self), spec_timestep(elapsed_millis) as i64),
                ),
            final(self).particles.dirs == old(self).particles.dirs,
            final(self).particles.extent == old(self).particles.extent,
            final(self).particles.transform == old(self).particles.transform,
            final(self).display == old(self).display,
            final(self).screen_dims == old(self).screen_dims,
            final(self).mouse == old(self).mouse,
            final(self).pressed == old(self).pressed,
    {
        if elapsed_millis >= TICK_MILLIS {
            let timestep: i64 = timestep_for(elapsed_millis);
            self.tick(timestep);
            true
        } else {
            false
        }
    }

    /// Fold one event into the input state and name the action the loop
    /// takes for it: close requests exit, a pointer move retargets the
    /// attractor, the reset key reseeds the store, the left button toggles
    /// attraction, a resize rebuilds the swapchain, and a drained event
    /// queue renders a frame.
    pub fn handle_event(&mut self, event: &Event) -> (a: Action)
        requires
            old(self).wf(),
        ensures
            final(self).wf(),
            event == Event::CloseRequested ==> a == Action::Exit && *final(self) == *old(self),
            event matches Event::CursorMoved { x, y } ==> a == Action::Continue
                && final(self).mouse.x == spec_cursor_world_x(*x, old(self).screen_dims)
                && final(self).mouse.y == spec_cursor_world_y(*y, old(self).screen_dims)
                && final(self).display == old(self).display
                && final(self).particles == old(self).particles
                && final(self).screen_dims == old(self).screen_dims
                && final(self).pressed == old(self).pressed,
            event == Event::ResetKeyReleased ==> a == Action::ResetParticles && *final(self)
                == *old(self),
            event matches Event::MouseInput { pressed } ==> a == Action::Continue
                && final(self).pressed == *pressed
                && final(self).display == old(self).display
                && final(self).particles == old(self).particles
                && final(self).screen_dims == old(self).screen_dims
                && final(self).mouse == old(self).mouse,
            event == Event::Resized ==> a == Action::RebuildSwapchain && *final(self) == *old(self),
            event == Event::MainEventsCleared ==> a == Action::RenderFrame && *final(self)
                == *old(self),
    {
        match event {
            Event::CloseRequested => Action::Exit,
            Event::CursorMoved { x, y } => {
                self.mouse = cursor_to_world(*x, *y, self.screen_dims);
                Action::Continue
            },
            Event::ResetKeyReleased => Action::ResetParticles,
            Event::MouseInput { pressed } => {
                self.pressed = *pressed;
                Action::Continue
            },
            Event::Resized => Action::RebuildSwapchain,
            Event::MainEventsCleared => Action::RenderFrame,
        }
    }

    /// Reseed the particle store wholesale; the loop rebinds what
    /// referenced the old records.
    pub fn reset_vertices(&mut self)
        requires
            old(self).wf(),
        ensures
            final(self).wf(),
            final(self).particles.records@.len() == old(self).particles.records@.len(),
            final(self).particles.dirs == old(self).particles.dirs,
            final(self).particles.extent == old(self).particles.extent,
            final(self).particles.transform == (Transform {
                projection: spec_orthographic(old(self).particles.extent),
            }),
            final(self).display == old(self).display,
            final(self).screen_dims == old(self).screen_dims,
            final(self).mouse == old(self).mouse,
            final(self).pressed == old(self).pressed,
    {
        self.particles.reset_vertices();
    }

    /// Rebuild the swapchain for the window's current size, then the
    /// store's swapchain-dependent state — in that order, so the pipeline
    /// sees the new render pass — and remember the new screen size.
    pub fn rebuild_swapchain_resources(
        &mut self,
        window: Extent,
        sample_counts: u32,
        granted_images: u32,
    )
        requires
            old(self).wf(),
            window.width >= 1,
            window.height >= 1,
        ensures
            final(self).wf(),
            final(self).display == spec_rebuild_display(
                old(self).display,
                window,
                sample_counts,
                granted_images,
            ),
            final(self).display.wf(),
            final(self).particles == spec_rebuilt(old(self).particles, window),
            final(self).screen_dims == window,
            final(self).mouse == old(self).mouse,
            final(self).pressed == old(self).pressed,
    {
        self.display.rebuild_swapchain(window, sample_counts, granted_images);
        self.particles.rebuild_swapchain_resources(window);
        self.screen_dims = window;
    }

    /// Record a frame: the draw covering the store, and what presentation
    /// asks the loop to do afterwards.
    pub fn render(&self, suboptimal: bool) -> (r: (DrawCall, SwapchainState))
        ensures
            r.0.vertex_count == self.particles.records@.len(),
            r.0.instance_count == 1,
            r.1 == (if suboptimal {
                SwapchainState::NeedsRebuild
            } else {
                SwapchainState::Optimal
            }),
    {
        (self.particles.draw(), self.display.render(suboptimal))
    }
}

} // verus!
