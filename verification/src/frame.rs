//! What a renderer does with the outcome of asking the surface for the next
//! frame.

use vstd::prelude::*;

verus! {

/// The outcome of asking the surface for its current texture.
#[derive(Debug, Clone, Copy, PartialEq, Eq, Structural)]
pub enum SurfaceStatus {
    /// A texture was acquired with no issue.
    Success,
    /// A texture was acquired but no longer matches the surface.
    Suboptimal,
    /// Acquiring the next frame timed out.
    Timeout,
    /// The window is occluded.
    Occluded,
    /// The surface configuration is outdated.
    Outdated,
    /// The surface has been lost.
    Lost,
    /// A validation error was raised and caught by an error scope.
    Validation,
}

/// What the renderer does for this frame.
#[derive(Debug, Clone, Copy, PartialEq, Eq, Structural)]
pub enum FrameAction {
    /// Record the render passes, submit them and present the texture.
    Draw,
    /// Do nothing this frame.
    Skip,
    /// Release any texture, configure the surface again and end the frame.
    Reconfigure,
    /// Create the surface again from the window, configure it and end the frame.
    Recreate,
}

pub open spec fn spec_frame_action(status: SurfaceStatus) -> FrameAction {
    match status {
        SurfaceStatus::Success => FrameAction::Draw,
        SurfaceStatus::Occluded | SurfaceStatus::Timeout => FrameAction::Skip,
        SurfaceStatus::Suboptimal | SurfaceStatus::Outdated => FrameAction::Reconfigure,
        SurfaceStatus::Lost => FrameAction::Recreate,
        SurfaceStatus::Validation => FrameAction::Skip,
    }
}

/// The action for this frame. No error scope is ever registered, so a
/// validation outcome is not expected here.
pub fn frame_action(status: SurfaceStatus) -> (a: FrameAction)
    requires
        status != SurfaceStatus::Validation,
    ensures
        a == spec_frame_action(status),
{
    match status {
        SurfaceStatus::Success => FrameAction::Draw,
        SurfaceStatus::Occluded | SurfaceStatus::Timeout => FrameAction::Skip,
        SurfaceStatus::Suboptimal => FrameAction::Reconfigure,
        SurfaceStatus::Outdated => FrameAction::Reconfigure,
        SurfaceStatus::Lost => FrameAction::Recreate,
        SurfaceStatus::Validation => {
            proof {
                assert(false);
            }
            FrameAction::Skip
        },
    }
}

/// A frame is drawn and presented only when a texture was acquired with no
/// issue; every other outcome ends the frame without drawing.
pub proof fn lemma_draw_only_on_success(status: SurfaceStatus)
    requires
        status != SurfaceStatus::Validation,
    ensures
        (spec_frame_action(status) == FrameAction::Draw) <==> (status == SurfaceStatus::Success),
{
}

} // verus!
