use vstd::prelude::*;

verus! {

/// What the GPU backend reports a surface as capable of: the supported
/// texture formats, present modes, and alpha modes, each as an opaque
/// identifier chosen by the caller. The backend lists them in its own
/// preference order, so the first entry of each list is the preferred one.
pub struct SurfaceCaps {
    /// Supported color target formats, most preferred first.
    pub formats: Vec<u32>,
    /// Supported present modes, most preferred first.
    pub present_modes: Vec<u32>,
    /// Supported alpha compositing modes, most preferred first.
    pub alpha_modes: Vec<u32>,
}

impl SurfaceCaps {
    /// A capability report is usable only if the backend supports at least
    /// one format, one present mode, and one alpha mode for the surface.
    pub open spec fn wf(&self) -> bool {
        &&& self.formats@.len() >= 1
        &&& self.present_modes@.len() >= 1
        &&& self.alpha_modes@.len() >= 1
    }
}

/// A requested dimension clamped away from zero: a zero-sized presentation
/// target is invalid on every backend, so zero becomes one.
pub open spec fn clamp_dim(d: u32) -> u32 {
    if d == 0 { 1 } else { d }
}

/// Clamps one requested dimension away from zero.
pub fn clamp_dim_exec(d: u32) -> (r: u32)
    ensures
        r == clamp_dim(d),
{
    if d == 0 { 1 } else { d }
}

/// The mutable presentation configuration of the surface: the single source
/// of truth for what format, size, present mode and alpha mode the surface is
/// currently configured with. Format, present mode and alpha mode are opaque
/// identifiers for backend values held by the caller.
#[derive(Clone, Copy, Debug, PartialEq, Eq, Structural)]
pub struct SurfaceConfig {
    /// The color target format of the surface.
    pub format: u32,
    /// The configured width in pixels; always at least 1.
    pub width: u32,
    /// The configured height in pixels; always at least 1.
    pub height: u32,
    /// How frames are presented to the screen.
    pub present_mode: u32,
    /// How the surface's alpha channel is composited.
    pub alpha_mode: u32,
}

impl SurfaceConfig {
    /// A configuration is valid when neither dimension is zero.
    pub open spec fn wf(&self) -> bool {
        &&& self.width >= 1
        &&& self.height >= 1
    }

    /// The first configuration of a surface: the backend's first reported
    /// format, present mode and alpha mode, with the window's current size
    /// clamped away from zero.
    pub open spec fn initial_spec(caps: SurfaceCaps, width: u32, height: u32) -> SurfaceConfig {
        SurfaceConfig {
            format: caps.formats@[0],
            width: clamp_dim(width),
            height: clamp_dim(height),
            present_mode: caps.present_modes@[0],
            alpha_mode: caps.alpha_modes@[0],
        }
    }

    /// The configuration after a resize: the requested size is clamped and
    /// stored; format, present mode and alpha mode are untouched.
    pub open spec fn resized_spec(self, width: u32, height: u32) -> SurfaceConfig {
        SurfaceConfig {
            width: clamp_dim(width),
            height: clamp_dim(height),
            ..self
        }
    }

    /// Builds the first configuration of a surface from the backend's
    /// capability report and the window's current size.
    pub fn initial(caps: &SurfaceCaps, width: u32, height: u32) -> (cfg: SurfaceConfig)
        requires
            caps.wf(),
        ensures
            cfg == Self::initial_spec(*caps, width, height),
            cfg.wf(),
    {
        SurfaceConfig {
            format: caps.formats[0],
            width: clamp_dim_exec(width),
            height: clamp_dim_exec(height),
            present_mode: caps.present_modes[0],
            alpha_mode: caps.alpha_modes[0],
        }
    }

    /// Stores a new size in the configuration, clamped away from zero;
    /// nothing else changes.
    pub fn resize(&mut self, width: u32, height: u32)
        ensures
            *final(self) == old(self).resized_spec(width, height),
            final(self).wf(),
    {
        self.width = clamp_dim_exec(width);
        self.height = clamp_dim_exec(height);
    }
}

/// For every requested size, even zero in either dimension, the stored
/// configuration after a resize has width and height at least 1: a zero size
/// is never configured.
pub proof fn lemma_resize_never_zero(cfg: SurfaceConfig, width: u32, height: u32)
    ensures
        cfg.resized_spec(width, height).width >= 1,
        cfg.resized_spec(width, height).height >= 1,
        cfg.resized_spec(width, height).wf(),
{
}

/// Resizing to the size already stored in a valid configuration leaves the
/// configuration unchanged: re-applying an identical configuration is a
/// legal no-op.
pub proof fn lemma_resize_noop(cfg: SurfaceConfig, width: u32, height: u32)
    requires
        cfg.wf(),
        width == cfg.width,
        height == cfg.height,
    ensures
        cfg.resized_spec(width, height) == cfg,
{
}

/// A resize never touches the format, present mode or alpha mode that were
/// fixed at the first configuration.
pub proof fn lemma_resize_keeps_modes(cfg: SurfaceConfig, width: u32, height: u32)
    ensures
        cfg.resized_spec(width, height).format == cfg.format,
        cfg.resized_spec(width, height).present_mode == cfg.present_mode,
        cfg.resized_spec(width, height).alpha_mode == cfg.alpha_mode,
{
}

} // verus!
