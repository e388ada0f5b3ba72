//! What a frame does once it has asked the surface for a texture to draw to.

use vstd::prelude::*;

verus! {

/// What the surface answered when asked for the next texture, in the terms
/// of `wgpu::CurrentSurfaceTexture`.
#[derive(Clone, Copy, Debug, PartialEq, Eq, Structural)]
pub enum SurfaceStatus {
    /// A texture was acquired.
    Success,
    /// A texture was acquired, but it no longer matches the surface exactly.
    Suboptimal,
    /// No texture arrived in time.
    Timeout,
    /// The window is hidden.
    Occluded,
    /// The surface configuration is out of date.
    Outdated,
    /// The surface is gone.
    Lost,
    /// Acquiring raised a validation error.
    Validation,
}

/// What the frame does next.
#[derive(Clone, Copy, Debug, PartialEq, Eq, Structural)]
pub enum FrameAction {
    /// Draw the storage texture onto the acquired texture and present it.
    Present,
    /// Drop the frame silently: the surface will be ready later.
    Skip,
    /// Drop the frame and log a warning: the surface is unusable for now.
    SkipWithWarning,
}

/// Whether the surface handed out a texture.
pub open spec fn texture_acquired(status: SurfaceStatus) -> bool {
    status is Success || status is Suboptimal
}

/// The action for each answer of the surface.
pub open spec fn spec_frame_action(status: SurfaceStatus) -> FrameAction {
    match status {
        SurfaceStatus::Success | SurfaceStatus::Suboptimal => FrameAction::Present,
        SurfaceStatus::Timeout | SurfaceStatus::Occluded => FrameAction::Skip,
        SurfaceStatus::Outdated | SurfaceStatus::Lost | SurfaceStatus::Validation => FrameAction::SkipWithWarning,
    }
}

/// Decides what the frame does with the surface's answer.
pub fn frame_action(status: SurfaceStatus) -> (action: FrameAction)
    ensures
        action == spec_frame_action(status),
{
    match status {
        SurfaceStatus::Success | SurfaceStatus::Suboptimal => FrameAction::Present,
        SurfaceStatus::Timeout | SurfaceStatus::Occluded => FrameAction::Skip,
        SurfaceStatus::Outdated | SurfaceStatus::Lost | SurfaceStatus::Validation => FrameAction::SkipWithWarning,
    }
}

/// A frame is presented exactly when the surface handed out a texture, and a
/// warning is logged exactly when the surface is outdated, lost or invalid.
pub proof fn lemma_present_iff_acquired(status: SurfaceStatus)
    ensures
        (spec_frame_action(status) == FrameAction::Present) <==> texture_acquired(status),
        (spec_frame_action(status) == FrameAction::SkipWithWarning) <==> (status is Outdated
            || status is Lost || status is Validation),
{
}

/// Vertices drawn per frame: a triangle strip covering the whole target.
pub const QUAD_VERTEX_COUNT: u32 = 4;

/// Instances drawn per frame.
pub const QUAD_INSTANCE_COUNT: u32 = 1;

} // verus!
