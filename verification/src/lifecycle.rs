use vstd::prelude::*;
use crate::config::{SurfaceCaps, SurfaceConfig};
use crate::frame::{RenderStep, build_frame_plan, frame_plan};

verus! {

/// Everything that exists once the GPU context has been initialized: the
/// stored surface configuration and the color target format the render
/// pipeline was built with. The live backend objects (device, queue,
/// surface, pipeline) are held by the caller; this records the facts about
/// them that the lifecycle depends on.
pub struct RenderContext {
    /// The configuration currently applied to the surface.
    pub config: SurfaceConfig,
    /// The color target format the render pipeline was compiled with; fixed
    /// for the lifetime of the context.
    pub pipeline_format: u32,
}

impl RenderContext {
    /// The context invariant: the configured size is never zero, and the
    /// pipeline's declared color target format equals the surface
    /// configuration's format.
    pub open spec fn wf(&self) -> bool {
        &&& self.config.wf()
        &&& self.pipeline_format == self.config.format
    }
}

/// The lifecycle of the manager: either no GPU object exists yet, or all of
/// them exist together. A single tagged state makes "everything is
/// initialized or nothing is" structural rather than a convention.
pub enum Lifecycle {
    /// No GPU context exists; no resize or redraw may be serviced.
    Uninitialized,
    /// The context is built and the surface is configured.
    Ready {
        /// The facts recorded about the live context.
        ctx: RenderContext,
    },
}

/// A window lifecycle event, as the windowing runtime delivers it, reduced
/// to plain values.
pub enum Event {
    /// The window became active: its current pixel size and the backend's
    /// capability report for its surface.
    Activated {
        /// Current window width in pixels.
        width: u32,
        /// Current window height in pixels.
        height: u32,
        /// What the backend reports the surface as supporting.
        caps: SurfaceCaps,
    },
    /// The window was resized to the given pixel size.
    Resized {
        /// New window width in pixels.
        width: u32,
        /// New window height in pixels.
        height: u32,
    },
    /// The window must be redrawn.
    RedrawRequested,
    /// The user asked to close the window.
    CloseRequested,
    /// Any other event; none has an effect here.
    Other,
}

/// What the caller must do against the GPU backend and the event loop after
/// one event has been handled.
pub enum Action {
    /// Build the pipeline for `config.format` and apply `config` to the
    /// surface: the surface is presentable afterwards.
    Configure {
        /// The first configuration of the surface.
        config: SurfaceConfig,
    },
    /// Re-apply `config` to the surface with the existing device, then
    /// request one redraw so the next frame reflects the new size.
    Reconfigure {
        /// The updated configuration.
        config: SurfaceConfig,
    },
    /// Execute the recorded per-frame steps in order.
    Render {
        /// The steps of the frame, in execution order.
        plan: Vec<RenderStep>,
    },
    /// Terminate the event loop; no further event will be handled.
    Exit,
    /// Nothing to do.
    Ignore,
}

/// The lifecycle transition: what the stored state becomes when one event is
/// handled. Activation builds the context; a resize clamps and stores the
/// new size; every other event leaves the state unchanged.
pub open spec fn next_lifecycle(state: Lifecycle, event: Event) -> Lifecycle {
    match event {
        Event::Activated { width, height, caps } => Lifecycle::Ready {
            ctx: RenderContext {
                config: SurfaceConfig::initial_spec(caps, width, height),
                pipeline_format: caps.formats@[0],
            },
        },
        Event::Resized { width, height } => match state {
            Lifecycle::Ready { ctx } => Lifecycle::Ready {
                ctx: RenderContext {
                    config: ctx.config.resized_spec(width, height),
                    pipeline_format: ctx.pipeline_format,
                },
            },
            Lifecycle::Uninitialized => state,
        },
        _ => state,
    }
}

/// The lifecycle manager. It owns no GPU object; it decides, for each
/// delivered event, how the stored configuration changes and what the caller
/// must do next.
pub struct App {
    /// The current lifecycle state.
    pub lifecycle: Lifecycle,
}

impl App {
    /// The manager invariant: whenever the context is ready, it is
    /// well-formed.
    pub open spec fn wf(&self) -> bool {
        self.lifecycle matches Lifecycle::Ready { ctx } ==> ctx.wf()
    }

    /// Whether the GPU context has been initialized.
    pub open spec fn is_ready(&self) -> bool {
        self.lifecycle is Ready
    }

    /// The recorded context; meaningful only once ready.
    pub open spec fn ctx(&self) -> RenderContext
        recommends
            self.is_ready(),
    {
        self.lifecycle->ctx
    }

    /// A manager with no GPU context yet.
    pub fn new() -> (app: App)
        ensures
            app.lifecycle is Uninitialized,
            app.wf(),
    {
        App { lifecycle: Lifecycle::Uninitialized }
    }

    /// Whether the GPU context has been initialized.
    pub fn initialized(&self) -> (b: bool)
        ensures
            b == self.is_ready(),
    {
        match &self.lifecycle {
            Lifecycle::Ready { .. } => true,
            Lifecycle::Uninitialized => false,
        }
    }

    /// Context initialization, run exactly once at the first activation:
    /// selects the backend's first reported format, present mode and alpha
    /// mode, clamps the window's current size away from zero, and records
    /// that the pipeline is built with that same format. Returns the
    /// configuration the caller must apply to the surface before any frame
    /// is serviced.
    pub fn initialize(&mut self, caps: &SurfaceCaps, width: u32, height: u32) -> (cfg: SurfaceConfig)
        requires
            old(self).lifecycle is Uninitialized,
            caps.wf(),
        ensures
            final(self).lifecycle == next_lifecycle(old(self).lifecycle, Event::Activated { width, height, caps: *caps }),
            final(self).is_ready(),
            final(self).wf(),
            final(self).ctx().config == SurfaceConfig::initial_spec(*caps, width, height),
            final(self).ctx().pipeline_format == caps.formats@[0],
            cfg == final(self).ctx().config,
    {
        let config = SurfaceConfig::initial(caps, width, height);
        let ctx = RenderContext { config, pipeline_format: config.format };
        self.lifecycle = Lifecycle::Ready { ctx };
        config
    }

    /// Resize handling: clamps both dimensions to a minimum of 1, stores
    /// them in the configuration, and returns the updated configuration the
    /// caller must re-apply to the surface before the next frame. Format,
    /// present mode and alpha mode are untouched.
    pub fn on_resize(&mut self, width: u32, height: u32) -> (cfg: SurfaceConfig)
        requires
            old(self).is_ready(),
            old(self).wf(),
        ensures
            final(self).lifecycle == next_lifecycle(old(self).lifecycle, Event::Resized { width, height }),
            final(self).is_ready(),
            final(self).wf(),
            final(self).ctx().config == old(self).ctx().config.resized_spec(width, height),
            final(self).ctx().pipeline_format == old(self).ctx().pipeline_format,
            cfg == final(self).ctx().config,
    {
        match &mut self.lifecycle {
            Lifecycle::Ready { ctx } => {
                ctx.config.resize(width, height);
                ctx.config
            }
            Lifecycle::Uninitialized => {
                proof {
                    assert(false);
                }
                SurfaceConfig { format: 0, width: 1, height: 1, present_mode: 0, alpha_mode: 0 }
            }
        }
    }

    /// Frame rendering: records the per-frame protocol — acquire, one pass
    /// that clears to transparent, binds the pipeline and draws one triangle
    /// (vertices 0..3, instance 0..1), then submit and present — for the
    /// caller to execute in order. The stored state does not change.
    pub fn render_frame(&self) -> (plan: Vec<RenderStep>)
        requires
            self.is_ready(),
        ensures
            plan@ == frame_plan(self.ctx().pipeline_format),
    {
        match &self.lifecycle {
            Lifecycle::Ready { ctx } => build_frame_plan(ctx.pipeline_format),
            Lifecycle::Uninitialized => {
                proof {
                    assert(false);
                }
                Vec::new()
            }
        }
    }

    /// One step of the event-driven lifecycle: handles one event, updates
    /// the stored state as `next_lifecycle` says, and returns what the
    /// caller must do next. Activation is only legal before initialization;
    /// a resize or redraw only after it.
    pub fn handle_event(&mut self, event: Event) -> (action: Action)
        requires
            old(self).wf(),
            event is Activated ==> old(self).lifecycle is Uninitialized,
            (event matches Event::Activated { caps, .. } ==> caps.wf()),
            event is Resized ==> old(self).is_ready(),
            event is RedrawRequested ==> old(self).is_ready(),
        ensures
            final(self).wf(),
            final(self).lifecycle == next_lifecycle(old(self).lifecycle, event),
            (event matches Event::Activated { width, height, caps } ==> {
                &&& final(self).is_ready()
                &&& final(self).ctx().config == SurfaceConfig::initial_spec(caps, width, height)
                &&& final(self).ctx().pipeline_format == caps.formats@[0]
                &&& action matches Action::Configure { config } && config == final(self).ctx().config
            }),
            (event matches Event::Resized { width, height } ==> {
                &&& final(self).is_ready()
                &&& final(self).ctx().config == old(self).ctx().config.resized_spec(width, height)
                &&& final(self).ctx().pipeline_format == old(self).ctx().pipeline_format
                &&& action matches Action::Reconfigure { config } && config == final(self).ctx().config
            }),
            (event is RedrawRequested ==> {
                &&& *final(self) == *old(self)
                &&& action matches Action::Render { plan }
                    && plan@ == frame_plan(old(self).ctx().pipeline_format)
            }),
            event is CloseRequested ==> *final(self) == *old(self) && action is Exit,
            event is Other ==> *final(self) == *old(self) && action is Ignore,
    {
        match event {
            Event::Activated { width, height, caps } => {
                let config = self.initialize(&caps, width, height);
                Action::Configure { config }
            }
            Event::Resized { width, height } => {
                let config = self.on_resize(width, height);
                Action::Reconfigure { config }
            }
            Event::RedrawRequested => {
                let plan = self.render_frame();
                Action::Render { plan }
            }
            Event::CloseRequested => Action::Exit,
            Event::Other => Action::Ignore,
        }
    }
}

/// Handling any event keeps the lifecycle well-formed: if the context was
/// well-formed before, it is well-formed after.
pub proof fn lemma_step_preserves_wf(state: Lifecycle, event: Event)
    requires
        (state matches Lifecycle::Ready { ctx } ==> ctx.wf()),
    ensures
        next_lifecycle(state, event) matches Lifecycle::Ready { ctx } ==> ctx.wf(),
{
}

/// Once the context is ready, no event after activation ever changes the
/// pipeline's color target format or the configuration's format: both are
/// fixed at first configuration, equal, for the lifetime of the instance.
pub proof fn lemma_format_fixed(state: Lifecycle, event: Event)
    requires
        state matches Lifecycle::Ready { ctx } && ctx.wf(),
        !(event is Activated),
    ensures
        next_lifecycle(state, event) matches Lifecycle::Ready { ctx }
            && ctx.wf()
            && ctx.pipeline_format == state->ctx.pipeline_format
            && ctx.config.format == state->ctx.config.format,
{
}

} // verus!
