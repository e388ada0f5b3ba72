//! The fixed parts of the two pipelines: shader entry points, primitive
//! assembly, blending, and the format they draw to.

use vstd::prelude::*;
use crate::dispatch::WORKGROUP_SIZE;
use crate::frame::{QUAD_INSTANCE_COUNT, QUAD_VERTEX_COUNT};
use crate::surface::{resized_by, SurfaceSettings};

verus! {

/// Entry point of the compute shader.
pub const COMPUTE_ENTRY_POINT: &'static str = "main";

/// Entry point of the vertex shader.
pub const VERTEX_ENTRY_POINT: &'static str = "vs_main";

/// Entry point of the fragment shader.
pub const FRAGMENT_ENTRY_POINT: &'static str = "fs_main";

/// How vertices are assembled into triangles.
#[derive(Clone, Copy, Debug, PartialEq, Eq, Structural)]
pub enum PrimitiveTopology {
    /// Each vertex after the second makes a triangle with the two before it.
    TriangleStrip,
}

/// How a fragment's colour is combined with the target's.
#[derive(Clone, Copy, Debug, PartialEq, Eq, Structural)]
pub enum BlendMode {
    /// The fragment's colour replaces the target's.
    Replace,
}

/// The compute pipeline.
#[derive(Clone, Copy, Debug, PartialEq)]
pub struct ComputePipelineDesc {
    pub entry_point: &'static str,
    /// Side of the square workgroup the entry point declares.
    pub workgroup_size: u32,
}

/// The render pipeline and the draw it makes each frame.
#[derive(Clone, Copy, Debug, PartialEq)]
pub struct RenderPipelineDesc {
    pub vertex_entry_point: &'static str,
    pub fragment_entry_point: &'static str,
    pub topology: PrimitiveTopology,
    /// Whether back-facing triangles are dropped.
    pub cull_back_faces: bool,
    pub blend: BlendMode,
    /// Format of the single colour target.
    pub target_format: wgpu::TextureFormat,
    pub vertex_count: u32,
    pub instance_count: u32,
}

/// The render pipeline drawing to a surface with `settings`.
pub open spec fn spec_render_pipeline(settings: SurfaceSettings) -> RenderPipelineDesc {
    RenderPipelineDesc {
        vertex_entry_point: VERTEX_ENTRY_POINT,
        fragment_entry_point: FRAGMENT_ENTRY_POINT,
        topology: PrimitiveTopology::TriangleStrip,
        cull_back_faces: false,
        blend: BlendMode::Replace,
        target_format: settings.format,
        vertex_count: QUAD_VERTEX_COUNT,
        instance_count: QUAD_INSTANCE_COUNT,
    }
}

/// The compute pipeline: entry point `main`, square workgroups of
/// `WORKGROUP_SIZE`.
pub fn compute_pipeline() -> (desc: ComputePipelineDesc)
    ensures
        desc.entry_point == COMPUTE_ENTRY_POINT,
        desc.workgroup_size == WORKGROUP_SIZE,
{
    ComputePipelineDesc { entry_point: COMPUTE_ENTRY_POINT, workgroup_size: WORKGROUP_SIZE }
}

/// The render pipeline for a surface with `settings`: a four-vertex
/// triangle strip over the whole target, no culling, colours replaced, drawn
/// in the surface's format.
pub fn render_pipeline(settings: &SurfaceSettings) -> (desc: RenderPipelineDesc)
    ensures
        desc == spec_render_pipeline(*settings),
{
    RenderPipelineDesc {
        vertex_entry_point: VERTEX_ENTRY_POINT,
        fragment_entry_point: FRAGMENT_ENTRY_POINT,
        topology: PrimitiveTopology::TriangleStrip,
        cull_back_faces: false,
        blend: BlendMode::Replace,
        target_format: settings.format,
        vertex_count: QUAD_VERTEX_COUNT,
        instance_count: QUAD_INSTANCE_COUNT,
    }
}

/// The render pipeline built when the renderer starts stays valid through
/// any sequence of resizes: its target format is still the surface's.
pub proof fn lemma_render_target_matches_surface(settings: SurfaceSettings, sizes: Seq<(u32, u32)>)
    ensures
        spec_render_pipeline(settings).target_format == resized_by(settings, sizes).format,
        spec_render_pipeline(settings) == spec_render_pipeline(resized_by(settings, sizes)),
{
    crate::surface::lemma_frames_use_latest_size(settings, sizes);
}

} // verus!
