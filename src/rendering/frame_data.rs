//! What one frame is drawn with, and how a frame reacts to a surface that
//! cannot hand out its texture.
use vstd::prelude::*;
use crate::rendering::color::Color;

verus! {

/// Data for the rendering step of one frame, produced by the preparation
/// step: the surface to draw on and the color to clear it with. The surface
/// is valid for this frame only.
#[derive(Debug)]
pub struct FrameData<S> {
    pub clear_color: Color,
    pub surface: S,
}

/// Gathers the parts of a [`FrameData`] one at a time.
#[derive(Debug)]
pub struct FrameDataBuilder<S> {
    pub clear_color: Option<Color>,
    pub surface: Option<S>,
}

impl<S> Default for FrameDataBuilder<S> {
    /// Clears to opaque black, with no surface yet.
    fn default() -> (b: FrameDataBuilder<S>)
        ensures
            b.clear_color == Some(Color { r: 0, g: 0, b: 0, a: 255 }),
            b.surface is None,
    {
        FrameDataBuilder { clear_color: Some(Color::black()), surface: None }
    }
}

impl<S> FrameDataBuilder<S> {
    /// Sets the surface to render to.
    pub fn with_surface(self, surface: S) -> (b: FrameDataBuilder<S>)
        ensures
            b.surface == Some(surface),
            b.clear_color == self.clear_color,
    {
        FrameDataBuilder { clear_color: self.clear_color, surface: Some(surface) }
    }

    /// Sets the color to clear with.
    pub fn with_clear_color(self, clear_color: Color) -> (b: FrameDataBuilder<S>)
        ensures
            b.clear_color == Some(clear_color),
            b.surface == self.surface,
    {
        FrameDataBuilder { clear_color: Some(clear_color), surface: self.surface }
    }

    /// Builds the frame data; both parts must have been set.
    pub fn build(self) -> (f: FrameData<S>)
        requires
            self.clear_color is Some,
            self.surface is Some,
        ensures
            f.clear_color == self.clear_color->Some_0,
            f.surface == self.surface->Some_0,
    {
        match (self.clear_color, self.surface) {
            (Some(clear_color), Some(surface)) => FrameData { clear_color, surface },
            _ => vstd::pervasive::unreached(),
        }
    }
}

/// What asking the surface for its current texture gave.
#[derive(Debug, Clone, Copy, PartialEq, Eq, Structural)]
pub enum AcquireOutcome {
    /// A texture to draw on.
    Acquired,
    /// The surface no longer matches the window and must be configured again.
    Outdated,
    /// The surface was lost and must be configured again.
    Lost,
    /// No texture came in time.
    Timeout,
    /// The device ran out of memory.
    OutOfMemory,
}

/// What the frame does next.
#[derive(Debug, Clone, Copy, PartialEq, Eq, Structural)]
pub enum FrameStep {
    /// Draw on the acquired texture and present it.
    Draw,
    /// Configure the surface again and ask once more.
    ReconfigureAndRetry,
    /// Give this frame up; the next one starts afresh.
    Skip,
}

/// Decides the next step of a frame from what acquiring the texture gave and
/// whether the frame has already been retried: an outdated or lost surface is
/// configured again and retried once, and any other failure skips the frame.
pub fn next_frame_step(outcome: AcquireOutcome, retried: bool) -> (s: FrameStep)
    ensures
        outcome == AcquireOutcome::Acquired ==> s == FrameStep::Draw,
        (outcome == AcquireOutcome::Outdated || outcome == AcquireOutcome::Lost) ==> s == (if retried {
            FrameStep::Skip
        } else {
            FrameStep::ReconfigureAndRetry
        }),
        (outcome == AcquireOutcome::Timeout || outcome == AcquireOutcome::OutOfMemory) ==> s
            == FrameStep::Skip,
{
    match outcome {
        AcquireOutcome::Acquired => FrameStep::Draw,
        AcquireOutcome::Outdated | AcquireOutcome::Lost => {
            if retried {
                FrameStep::Skip
            } else {
                FrameStep::ReconfigureAndRetry
            }
        },
        AcquireOutcome::Timeout | AcquireOutcome::OutOfMemory => FrameStep::Skip,
    }
}

} // verus!
