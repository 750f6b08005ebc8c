//! The part of the render state that decides when the surface is (re)configured
//! and what to do with the texture handed out for a frame.

use vstd::prelude::*;

verus! {

/// What acquiring the surface's current texture reported.
#[derive(Debug, Clone, Copy, PartialEq, Eq, Structural)]
pub enum SurfaceStatus {
    /// A texture that matches the configuration.
    Success,
    /// A texture, though the configuration no longer matches the window well.
    Suboptimal,
    /// No texture arrived in time.
    Timeout,
    /// The window is not visible.
    Occluded,
    /// The configuration is out of date; no texture.
    Outdated,
    /// The surface itself is gone.
    Lost,
    /// Acquiring raised a validation error.
    Validation,
}

/// What a frame does once the surface has answered.
#[derive(Debug, Clone, Copy, PartialEq, Eq, Structural)]
pub enum FrameAction {
    /// Record the render pass into the texture, submit it and present it.
    Draw,
    /// Give up this frame; the next redraw tries again.
    Skip,
    /// Configure the surface again with the current configuration, and give up
    /// this frame.
    Reconfigure,
    /// The surface is lost: rendering fails with an error.
    Fail,
}

/// The decision for each status a texture request can end with.
pub open spec fn spec_frame_action(status: SurfaceStatus) -> FrameAction {
    match status {
        SurfaceStatus::Success | SurfaceStatus::Suboptimal => FrameAction::Draw,
        SurfaceStatus::Timeout | SurfaceStatus::Occluded | SurfaceStatus::Validation => FrameAction::Skip,
        SurfaceStatus::Outdated => FrameAction::Reconfigure,
        SurfaceStatus::Lost => FrameAction::Fail,
    }
}

/// Decides what to do with the outcome of a texture request: draw into a
/// texture that was handed out (even a suboptimal one), skip the frame on a
/// timeout, an occluded window or a validation error, configure the surface
/// again when it is outdated, and fail when it is lost.
pub fn frame_action(status: SurfaceStatus) -> (a: FrameAction)
    ensures
        a == spec_frame_action(status),
{
    match status {
        SurfaceStatus::Success => FrameAction::Draw,
        SurfaceStatus::Suboptimal => FrameAction::Draw,
        SurfaceStatus::Timeout => FrameAction::Skip,
        SurfaceStatus::Occluded => FrameAction::Skip,
        SurfaceStatus::Validation => FrameAction::Skip,
        SurfaceStatus::Outdated => FrameAction::Reconfigure,
        SurfaceStatus::Lost => FrameAction::Fail,
    }
}

/// The index of the first sRGB format among the surface's formats, or of the
/// first format when none is sRGB.
pub open spec fn spec_choose_surface_format(srgb: Seq<bool>) -> int {
    if exists|i: int| 0 <= i < srgb.len() && srgb[i] {
        choose|i: int| 0 <= i < srgb.len() && srgb[i] && forall|j: int| 0 <= j < i ==> !srgb[j]
    } else {
        0
    }
}

/// Picks the surface format, given for each supported format whether it is
/// an sRGB one: the first sRGB format, else the first format. With an sRGB
/// format the GPU encodes the shader's linear colors when writing them.
pub fn choose_surface_format(srgb: &[bool]) -> (i: usize)
    requires
        srgb@.len() > 0,
    ensures
        i < srgb@.len(),
        srgb@[i as int] ==> forall|j: int| 0 <= j < i ==> !srgb@[j],
        !srgb@[i as int] ==> i == 0 && forall|j: int| 0 <= j < srgb@.len() ==> !srgb@[j],
        i as int == spec_choose_surface_format(srgb@),
{
    let mut i: usize = 0;
    while i < srgb.len()
        invariant
            i <= srgb@.len(),
            forall|j: int| 0 <= j < i ==> !srgb@[j],
        decreases srgb@.len() - i,
    {
        if srgb[i] {
            return i;
        }
        i = i + 1;
    }
    0
}

/// The plain values of a surface configuration that the logic reads.
pub struct SurfaceModel {
    pub width: u32,
    pub height: u32,
    pub configured: bool,
}

/// Render state: the size the surface is configured with and whether it has
/// been configured at least once.
pub struct State {
    width: u32,
    height: u32,
    is_surface_configured: bool,
}

impl View for State {
    type V = SurfaceModel;

    closed spec fn view(&self) -> SurfaceModel {
        SurfaceModel {
            width: self.width,
            height: self.height,
            configured: self.is_surface_configured,
        }
    }
}

/// A surface is only ever configured with a non-empty size.
pub open spec fn surface_wf(m: SurfaceModel) -> bool {
    m.configured ==> m.width > 0 && m.height > 0
}

/// What `resize` does to the model: a non-empty size is taken and marks the
/// surface configured; an empty one changes nothing.
pub open spec fn resized(m: SurfaceModel, width: u32, height: u32) -> SurfaceModel {
    if width > 0 && height > 0 {
        SurfaceModel { width, height, configured: true }
    } else {
        m
    }
}

impl State {
    #[verifier::type_invariant]
    closed spec fn inv(self) -> bool {
        self.is_surface_configured ==> self.width > 0 && self.height > 0
    }

    /// A fresh state whose configuration holds the window's size; the surface
    /// is not configured yet.
    pub fn new(width: u32, height: u32) -> (s: State)
        ensures
            s@ == (SurfaceModel { width, height, configured: false }),
    {
        State { width, height, is_surface_configured: false }
    }

    pub fn width(&self) -> (w: u32)
        ensures
            w == self@.width,
    {
        self.width
    }

    pub fn height(&self) -> (h: u32)
        ensures
            h == self@.height,
    {
        self.height
    }

    pub fn is_surface_configured(&self) -> (b: bool)
        ensures
            b == self@.configured,
            surface_wf(self@),
    {
        proof {
            use_type_invariant(self);
        }
        self.is_surface_configured
    }

    /// Starts a frame: a redraw is always requested by the caller; a texture is
    /// only requested when the surface has been configured.
    pub fn begin_frame(&self) -> (acquire: bool)
        ensures
            acquire == self@.configured,
    {
        self.is_surface_configured
    }

    /// Takes a new window size. A size with a zero side is ignored; otherwise
    /// the configuration takes it and the result says that the surface must be
    /// configured with it now.
    pub fn resize(&mut self, width: u32, height: u32) -> (configure: bool)
        ensures
            configure == (width > 0 && height > 0),
            final(self)@ == resized(old(self)@, width, height),
    {
        if width > 0 && height > 0 {
            *self = State { width, height, is_surface_configured: true };
            true
        } else {
            false
        }
    }
}

} // verus!
