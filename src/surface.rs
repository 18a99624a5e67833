use vstd::prelude::*;

verus! {

/// Colour format of the presentable surface.
#[derive(Clone, Copy, Debug, PartialEq, Eq, Structural)]
pub enum SurfaceFormat {
    /// 8-bit BGRA with sRGB encoding.
    Bgra8UnormSrgb,
    /// 8-bit BGRA without sRGB encoding.
    Bgra8Unorm,
}

/// The platform the host is built for.
#[derive(Clone, Copy, Debug, PartialEq, Eq, Structural)]
pub enum Target {
    /// A desktop window.
    Native,
    /// A canvas inside a web page.
    Browser,
}

/// What the host may rely on, decided once at startup from the target.
#[derive(Clone, Copy, Debug, PartialEq, Eq, Structural)]
pub struct Capabilities {
    pub format: SurfaceFormat,
    pub supports_indexed_draw: bool,
}

pub open spec fn capabilities_spec(target: Target) -> Capabilities {
    match target {
        Target::Native => Capabilities { format: SurfaceFormat::Bgra8UnormSrgb, supports_indexed_draw: true },
        Target::Browser => Capabilities { format: SurfaceFormat::Bgra8Unorm, supports_indexed_draw: false },
    }
}

impl Capabilities {
    /// Resolves the capability flags once: a native window gets the sRGB format
    /// and indexed draws, a browser canvas the plain format and direct draws.
    pub fn for_target(target: Target) -> (r: Capabilities)
        ensures
            r == capabilities_spec(target),
    {
        match target {
            Target::Native => Capabilities { format: SurfaceFormat::Bgra8UnormSrgb, supports_indexed_draw: true },
            Target::Browser => Capabilities { format: SurfaceFormat::Bgra8Unorm, supports_indexed_draw: false },
        }
    }
}

/// The part of the surface configuration that the host decides: format and
/// size. Usage is always render-attachment, presentation is always FIFO and
/// the alpha mode is the surface's first supported one.
#[derive(Clone, Copy, Debug, PartialEq, Eq, Structural)]
pub struct SurfaceConfig {
    pub format: SurfaceFormat,
    pub width: u32,
    pub height: u32,
}

impl SurfaceConfig {
    /// A configuration that a surface accepts: both dimensions positive.
    pub open spec fn wf(&self) -> bool {
        self.width > 0 && self.height > 0
    }

    pub open spec fn with_size(self, width: u32, height: u32) -> SurfaceConfig {
        SurfaceConfig { format: self.format, width, height }
    }
}

/// The size of a window before the first configuration, with each dimension
/// raised to at least one.
pub fn initial_extent(width: u32, height: u32) -> (r: (u32, u32))
    ensures
        r.0 == if width == 0 { 1 } else { width },
        r.1 == if height == 0 { 1 } else { height },
        r.0 > 0 && r.1 > 0,
{
    let w: u32 = if width == 0 { 1 } else { width };
    let h: u32 = if height == 0 { 1 } else { height };
    (w, h)
}

/// Owner of the last configuration applied to the surface.
#[derive(Clone, Copy, Debug, PartialEq, Eq, Structural)]
pub struct SurfaceManager {
    pub config: SurfaceConfig,
}

/// The manager after a resize to `width` by `height`: a resize with a zero
/// dimension (a minimize on some platforms) leaves it as it was.
pub open spec fn resized(m: SurfaceManager, width: u32, height: u32) -> SurfaceManager {
    if width == 0 || height == 0 {
        m
    } else {
        SurfaceManager { config: m.config.with_size(width, height) }
    }
}

/// Whether a resize to `width` by `height` leads to a reconfiguration.
pub open spec fn resize_reconfigures(width: u32, height: u32) -> bool {
    width > 0 && height > 0
}

impl SurfaceManager {
    pub open spec fn wf(&self) -> bool {
        self.config.wf()
    }

    /// The configuration for the first frame, from the window's size at
    /// startup (each dimension raised to at least one).
    pub fn new(format: SurfaceFormat, width: u32, height: u32) -> (r: SurfaceManager)
        ensures
            r.wf(),
            r.config.format == format,
            r.config.width == if width == 0 { 1 } else { width },
            r.config.height == if height == 0 { 1 } else { height },
    {
        let (w, h) = initial_extent(width, height);
        SurfaceManager { config: SurfaceConfig { format, width: w, height: h } }
    }

    /// Applies a resize event. Returns the configuration that the caller must
    /// hand to the surface, or `None` where the event is ignored because one
    /// dimension is zero; then nothing changes.
    pub fn on_resize(&mut self, width: u32, height: u32) -> (r: Option<SurfaceConfig>)
        ensures
            *final(self) == resized(*old(self), width, height),
            r == if resize_reconfigures(width, height) {
                Some(final(self).config)
            } else {
                None::<SurfaceConfig>
            },
            old(self).wf() ==> final(self).wf(),
            final(self).config.format == old(self).config.format,
    {
        if width == 0 || height == 0 {
            None
        } else {
            self.config = SurfaceConfig { format: self.config.format, width, height };
            Some(self.config)
        }
    }

    /// The size of the next frame that is acquired: that of the configuration
    /// last applied.
    pub fn frame_extent(&self) -> (r: (u32, u32))
        ensures
            r == (self.config.width, self.config.height),
    {
        (self.config.width, self.config.height)
    }
}

/// Why acquiring a frame failed.
#[derive(Clone, Copy, Debug, PartialEq, Eq, Structural)]
pub enum AcquireError {
    /// No frame became available in time.
    Timeout,
    /// The surface changed (after a reconfiguration or a minimize and
    /// restore) and must be configured again.
    Outdated,
    /// The surface was lost.
    Lost,
    /// The device ran out of memory.
    OutOfMemory,
}

/// What the loop does with a frame whose acquisition failed.
#[derive(Clone, Copy, Debug, PartialEq, Eq, Structural)]
pub enum FrameSkip {
    /// Skip the frame and say nothing.
    Silent,
    /// Skip the frame and report the error on the diagnostic channel.
    Reported,
}

pub open spec fn skip_for(e: AcquireError) -> FrameSkip {
    match e {
        AcquireError::Outdated => FrameSkip::Silent,
        _ => FrameSkip::Reported,
    }
}

/// Every acquisition error skips the frame; only an outdated surface does so
/// without a diagnostic. No acquisition error ends the loop.
pub fn classify_acquire_error(e: AcquireError) -> (r: FrameSkip)
    ensures
        r == skip_for(e),
        r == FrameSkip::Silent <==> e == AcquireError::Outdated,
{
    match e {
        AcquireError::Outdated => FrameSkip::Silent,
        _ => FrameSkip::Reported,
    }
}

} // verus!
