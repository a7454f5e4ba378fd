use vstd::prelude::*;

verus! {

/// The frame counter of the feedback pipeline and the roles it gives to the
/// two halves of each ping-pong texture pair.
#[derive(Debug, Clone, Copy, PartialEq, Eq, Structural)]
pub struct PingPong {
    pub frame_index: u64,
}

/// The half written in a frame: the counter's parity.
pub open spec fn write_slot(frame_index: u64) -> int {
    (frame_index % 2) as int
}

/// The counter after one completed frame; it wraps on overflow.
pub open spec fn next_frame(frame_index: u64) -> u64 {
    if frame_index == u64::MAX {
        0
    } else {
        (frame_index + 1) as u64
    }
}

/// The state-texture half that the simulation bind group of `slot` reads:
/// the other half.
pub open spec fn simulation_source(slot: int) -> int {
    1 - slot
}

/// The halves that the render bind group of `slot` reads: the state texture
/// written in the same slot, and the other render texture.
pub open spec fn render_sources(slot: int) -> (int, int) {
    (slot, 1 - slot)
}

/// The render-texture half that the present bind group of `slot` reads.
pub open spec fn present_source(slot: int) -> int {
    slot
}

impl PingPong {
    pub fn new() -> (r: PingPong)
        ensures
            r.frame_index == 0,
    {
        PingPong { frame_index: 0 }
    }

    /// The half rendered into this frame, and the bind groups used with it.
    pub fn write_index(&self) -> (r: usize)
        ensures
            r == write_slot(self.frame_index),
            r < 2,
    {
        (self.frame_index % 2) as usize
    }

    /// The half that holds the previous frame's result.
    pub fn read_index(&self) -> (r: usize)
        ensures
            r == 1 - write_slot(self.frame_index),
            r < 2,
    {
        (1 - self.frame_index % 2) as usize
    }

    /// Counts one completed frame.
    pub fn advance(&mut self)
        ensures
            final(self).frame_index == next_frame(old(self).frame_index),
    {
        self.frame_index = self.frame_index.wrapping_add(1);
    }
}

/// The state-texture half read by the simulation stage's bind group `slot`.
pub fn simulation_input(slot: usize) -> (r: usize)
    requires
        slot < 2,
    ensures
        r == simulation_source(slot as int),
{
    1 - slot
}

/// The state-texture half and the render-texture half read by the render
/// stage's bind group `slot`.
pub fn render_inputs(slot: usize) -> (r: (usize, usize))
    requires
        slot < 2,
    ensures
        (r.0 as int, r.1 as int) == render_sources(slot as int),
{
    (slot, 1 - slot)
}

/// The render-texture half read by the present stage's bind group `slot`.
pub fn present_input(slot: usize) -> (r: usize)
    requires
        slot < 2,
    ensures
        r == present_source(slot as int),
{
    slot
}

/// Two consecutive frames write different halves, the wrap of the counter
/// included.
pub proof fn lemma_roles_alternate(n: u64)
    ensures
        write_slot(n) != write_slot(next_frame(n)),
{
}

/// Each stage reads what the previous frame, or its own frame, produced:
/// the simulation reads the state half written by the previous frame, the
/// render stage reads this frame's state half and the previous frame's
/// render half, and the present stage reads this frame's render half.
pub proof fn lemma_feedback_wiring(n: u64)
    ensures
        simulation_source(write_slot(next_frame(n))) == write_slot(n),
        render_sources(write_slot(next_frame(n))).0 == write_slot(next_frame(n)),
        render_sources(write_slot(next_frame(n))).1 == write_slot(n),
        present_source(write_slot(next_frame(n))) == write_slot(next_frame(n)),
{
}

/// The dimensions the presentation surface is configured with.
#[derive(Debug, Clone, Copy, PartialEq, Eq, Structural)]
pub struct SurfaceSize {
    pub width: u32,
    pub height: u32,
}

/// Whether a resize to `width` by `height` changes the configuration: both
/// dimensions must be nonzero and differ from it in at least one.
pub open spec fn resize_needed(s: SurfaceSize, width: u32, height: u32) -> bool {
    width > 0 && height > 0 && !(s.width == width && s.height == height)
}

/// The configuration after a resize request.
pub open spec fn resized(s: SurfaceSize, width: u32, height: u32) -> SurfaceSize {
    if resize_needed(s, width, height) {
        SurfaceSize { width, height }
    } else {
        s
    }
}

impl SurfaceSize {
    /// The initial configuration; zero dimensions are raised to 1.
    pub fn new(width: u32, height: u32) -> (r: SurfaceSize)
        ensures
            r.width == (if width == 0 { 1 } else { width }),
            r.height == (if height == 0 { 1 } else { height }),
    {
        SurfaceSize {
            width: if width == 0 { 1 } else { width },
            height: if height == 0 { 1 } else { height },
        }
    }

    /// Takes a new output size. Returns whether the size-dependent resources
    /// must be recreated; a zero dimension or an unchanged size is ignored.
    pub fn resize(&mut self, width: u32, height: u32) -> (r: bool)
        ensures
            r == resize_needed(*old(self), width, height),
            *final(self) == resized(*old(self), width, height),
    {
        if width == 0 || height == 0 {
            return false;
        }
        if self.width == width && self.height == height {
            return false;
        }
        self.width = width;
        self.height = height;
        true
    }
}

impl SurfaceSize {
    /// The size after the compositor proposes `width` by `height`: a zero
    /// dimension leaves that dimension as it was.
    pub fn configure(&mut self, width: u32, height: u32)
        ensures
            final(self).width == (if width > 0 { width } else { old(self).width }),
            final(self).height == (if height > 0 { height } else { old(self).height }),
    {
        if width > 0 {
            self.width = width;
        }
        if height > 0 {
            self.height = height;
        }
    }
}

/// Resizing to the same dimensions twice in a row recreates resources at
/// most once: the second request finds nothing to change.
pub proof fn lemma_repeated_resize_is_noop(s: SurfaceSize, width: u32, height: u32)
    ensures
        !resize_needed(resized(s, width, height), width, height),
        resized(resized(s, width, height), width, height) == resized(s, width, height),
{
}

/// Why the next frame of the surface could not be acquired.
#[derive(Debug, Clone, Copy, PartialEq, Eq, Structural)]
pub enum SurfaceFailure {
    /// The surface no longer matches its configuration.
    Outdated,
    /// The surface was lost.
    Lost,
    /// No frame became available in time.
    Timeout,
    /// The device ran out of memory.
    OutOfMemory,
}

/// What the renderer does about a failed acquisition.
#[derive(Debug, Clone, Copy, PartialEq, Eq, Structural)]
pub enum FrameAction {
    /// Configure the surface again and skip the frame.
    Reconfigure,
    /// Skip the frame.
    Skip,
    /// Stop: the failure cannot be recovered from.
    Fatal,
}

/// Transient invalidity reconfigures, a timeout skips, exhaustion is fatal.
pub fn on_acquire_failure(failure: SurfaceFailure) -> (r: FrameAction)
    ensures
        r == (match failure {
            SurfaceFailure::Outdated | SurfaceFailure::Lost => FrameAction::Reconfigure,
            SurfaceFailure::Timeout => FrameAction::Skip,
            SurfaceFailure::OutOfMemory => FrameAction::Fatal,
        }),
{
    match failure {
        SurfaceFailure::Outdated | SurfaceFailure::Lost => FrameAction::Reconfigure,
        SurfaceFailure::Timeout => FrameAction::Skip,
        SurfaceFailure::OutOfMemory => FrameAction::Fatal,
    }
}

} // verus!
