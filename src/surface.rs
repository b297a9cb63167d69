use vstd::prelude::*;

verus! {

/// Why a surface that was configured no longer matches its window.
#[derive(Clone, Copy, Debug, PartialEq, Eq, Structural)]
pub enum StaleReason {
    Resized,
}

/// The presentation target bound to a window.
///
/// `format` is the platform's code for the texture format that the surface was
/// (or will again be) configured with.
#[derive(Clone, Copy, Debug, PartialEq, Eq, Structural)]
pub enum SurfaceState {
    /// No presentable surface exists yet.
    Unconfigured,
    /// A surface exists and matches the window's last known size.
    Configured { width: u32, height: u32, format: u32 },
    /// A surface exists but must be reconfigured to `width` x `height` before use.
    Stale { reason: StaleReason, width: u32, height: u32, format: u32 },
    /// The surface was torn down together with its window.
    Lost,
}

/// What the next redraw does with the surface.
#[derive(Clone, Copy, Debug, PartialEq, Eq, Structural)]
pub enum FramePlan {
    /// The surface is current: acquire a frame and present it.
    Draw,
    /// Configure the surface to this size and format, then draw.
    ReconfigureThenDraw { width: u32, height: u32, format: u32 },
    /// No usable surface: skip the frame and ask for another redraw.
    Skip,
}

/// A surface object exists, current or not.
pub open spec fn has_surface(s: SurfaceState) -> bool {
    s is Configured || s is Stale
}

/// A window gets a fresh surface configured at its size, whatever came before.
pub open spec fn after_window_created(width: u32, height: u32, format: u32) -> SurfaceState {
    SurfaceState::Configured { width, height, format }
}

/// A resize marks an existing surface stale at the new size; without a surface
/// there is nothing to mark.
pub open spec fn after_resize(s: SurfaceState, width: u32, height: u32) -> SurfaceState {
    match s {
        SurfaceState::Configured { format, .. } => SurfaceState::Stale {
            reason: StaleReason::Resized,
            width,
            height,
            format,
        },
        SurfaceState::Stale { format, .. } => SurfaceState::Stale {
            reason: StaleReason::Resized,
            width,
            height,
            format,
        },
        _ => s,
    }
}

/// Destroying the window or suspending the application loses an existing surface.
pub open spec fn after_teardown(s: SurfaceState) -> SurfaceState {
    match s {
        SurfaceState::Configured { .. } | SurfaceState::Stale { .. } => SurfaceState::Lost,
        _ => s,
    }
}

pub open spec fn plan_for(s: SurfaceState) -> FramePlan {
    match s {
        SurfaceState::Configured { .. } => FramePlan::Draw,
        SurfaceState::Stale { width, height, format, .. } => FramePlan::ReconfigureThenDraw {
            width,
            height,
            format,
        },
        _ => FramePlan::Skip,
    }
}

/// Before a redraw a stale surface is reconfigured at its pending size.
pub open spec fn after_begin_frame(s: SurfaceState) -> SurfaceState {
    match s {
        SurfaceState::Stale { width, height, format, .. } => SurfaceState::Configured {
            width,
            height,
            format,
        },
        _ => s,
    }
}

pub open spec fn format_of(s: SurfaceState) -> u32
    recommends
        s is Configured || s is Stale,
{
    match s {
        SurfaceState::Configured { format, .. } => format,
        SurfaceState::Stale { format, .. } => format,
        _ => 0,
    }
}

/// A resize never leaves the surface configured: an existing surface goes
/// stale first, and without one there is nothing configured.
pub proof fn lemma_resize_never_configures(s: SurfaceState, width: u32, height: u32)
    ensures
        !(after_resize(s, width, height) is Configured),
        (s is Configured || s is Stale) ==> after_resize(s, width, height) is Stale,
{
}

/// After a resize of an existing surface, the next redraw reconfigures it to
/// the new size, keeping its format, before anything is drawn.
pub proof fn lemma_resize_then_redraw(s: SurfaceState, width: u32, height: u32)
    requires
        s is Configured || s is Stale,
    ensures
        plan_for(after_resize(s, width, height)) == (FramePlan::ReconfigureThenDraw {
            width,
            height,
            format: format_of(s),
        }),
        after_begin_frame(after_resize(s, width, height)) == (SurfaceState::Configured {
            width,
            height,
            format: format_of(s),
        }),
{
}

/// Picks the surface format among those the adapter offers, given for each
/// whether it is sRGB: the first sRGB format, else the first offered; `None`
/// when nothing is offered.
pub fn preferred_format(srgb: &Vec<bool>) -> (r: Option<usize>)
    ensures
        r is None <==> srgb@.len() == 0,
        r matches Some(i) ==> i < srgb@.len(),
        r matches Some(i) ==> forall|j: int| 0 <= j < i ==> !srgb@[j],
        r matches Some(i) ==> srgb@[i as int] || (forall|j: int|
            0 <= j < srgb@.len() ==> !srgb@[j]),
        r matches Some(i) ==> (!srgb@[i as int] ==> i == 0),
{
    let mut i: usize = 0;
    while i < srgb.len()
        invariant
            i <= srgb@.len(),
            forall|j: int| 0 <= j < i ==> !srgb@[j],
        decreases srgb@.len() - i,
    {
        if srgb[i] {
            return Some(i);
        }
        i = i + 1;
    }
    if srgb.len() == 0 {
        None
    } else {
        Some(0)
    }
}

/// Tracks whether the presentation target of one window can be drawn to.
pub struct SurfaceLifecycle {
    state: SurfaceState,
}

impl View for SurfaceLifecycle {
    type V = SurfaceState;

    closed spec fn view(&self) -> SurfaceState {
        self.state
    }
}

impl SurfaceLifecycle {
    pub fn new() -> (r: SurfaceLifecycle)
        ensures
            r@ == SurfaceState::Unconfigured,
    {
        SurfaceLifecycle { state: SurfaceState::Unconfigured }
    }

    pub fn state(&self) -> (r: SurfaceState)
        ensures
            r == self@,
    {
        self.state
    }

    pub fn is_configured(&self) -> (r: bool)
        ensures
            r == (self@ is Configured),
    {
        matches!(self.state, SurfaceState::Configured { .. })
    }

    pub fn has_surface(&self) -> (r: bool)
        ensures
            r == has_surface(self@),
    {
        matches!(self.state, SurfaceState::Configured { .. })
            || matches!(self.state, SurfaceState::Stale { .. })
    }

    /// A window of `width` x `height` was created and its surface configured.
    pub fn window_created(&mut self, width: u32, height: u32, format: u32)
        ensures
            final(self)@ == after_window_created(width, height, format),
    {
        self.state = SurfaceState::Configured { width, height, format };
    }

    /// The window now measures `width` x `height`.
    pub fn resized(&mut self, width: u32, height: u32)
        ensures
            final(self)@ == after_resize(old(self)@, width, height),
    {
        match self.state {
            SurfaceState::Configured { format, .. } | SurfaceState::Stale { format, .. } => {
                self.state = SurfaceState::Stale {
                    reason: StaleReason::Resized,
                    width,
                    height,
                    format,
                };
            },
            _ => {},
        }
    }

    /// The window was destroyed or the application suspended.
    pub fn torn_down(&mut self)
        ensures
            final(self)@ == after_teardown(old(self)@),
    {
        match self.state {
            SurfaceState::Configured { .. } | SurfaceState::Stale { .. } => {
                self.state = SurfaceState::Lost;
            },
            _ => {},
        }
    }

    /// Decides what a redraw does, reconfiguring a stale surface first so that
    /// no draw is planned against anything but a configured surface.
    pub fn begin_frame(&mut self) -> (r: FramePlan)
        ensures
            r == plan_for(old(self)@),
            final(self)@ == after_begin_frame(old(self)@),
            r !is Skip ==> final(self)@ is Configured,
    {
        match self.state {
            SurfaceState::Configured { .. } => FramePlan::Draw,
            SurfaceState::Stale { width, height, format, .. } => {
                self.state = SurfaceState::Configured { width, height, format };
                FramePlan::ReconfigureThenDraw { width, height, format }
            },
            _ => FramePlan::Skip,
        }
    }
}

} // verus!
