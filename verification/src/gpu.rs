//! The GPU-side state the engine tracks: surface configuration,
//! handles to the device-resident objects, and the persistent
//! pipeline bundle built once at startup.
//!
//! The engine never touches GPU memory itself; it owns plain handles
//! and decides what the platform layer must create, bind, and draw.
//! A handle is an index into the platform layer's table of live
//! objects.

use vstd::prelude::*;

verus! {

/// Handle to a device-resident buffer.
#[derive(Clone, Copy, Debug, PartialEq, Eq, Structural, Hash)]
pub struct BufferId {
    pub id: u64,
}

/// Handle to a texture.
#[derive(Clone, Copy, Debug, PartialEq, Eq, Structural, Hash)]
pub struct TextureId {
    pub id: u64,
}

/// Handle to a bind group.
#[derive(Clone, Copy, Debug, PartialEq, Eq, Structural, Hash)]
pub struct BindGroupId {
    pub id: u64,
}

/// Handle to a bind group layout.
#[derive(Clone, Copy, Debug, PartialEq, Eq, Structural, Hash)]
pub struct BindGroupLayoutId {
    pub id: u64,
}

/// Handle to a compiled render pipeline.
#[derive(Clone, Copy, Debug, PartialEq, Eq, Structural, Hash)]
pub struct PipelineId {
    pub id: u64,
}

/// The presentable surface's configuration: its pixel dimensions.
#[derive(Clone, Copy, Debug, PartialEq, Eq, Structural)]
pub struct SurfaceConfig {
    pub width: u32,
    pub height: u32,
}

impl SurfaceConfig {
    pub fn new(width: u32, height: u32) -> (r: SurfaceConfig)
        ensures
            r == (SurfaceConfig { width, height }),
    {
        SurfaceConfig { width, height }
    }
}

/// The depth buffer: its texture and the dimensions it was created
/// with.
#[derive(Clone, Copy, Debug, PartialEq, Eq, Structural)]
pub struct DepthTexture {
    pub texture: TextureId,
    pub width: u32,
    pub height: u32,
}

/// The persistent render-pipeline bundle, built once at startup:
/// the compiled pipeline, the three bind group layouts, the depth
/// buffer, and the uniform buffers with their bind groups for the
/// camera and the per-draw world transform.
#[derive(Clone, Copy, Debug, PartialEq, Eq, Structural)]
pub struct RenderPipeline {
    pub wgpu_render_pipeline: PipelineId,
    pub diffuse_bind_group_layout: BindGroupLayoutId,
    pub depth_texture: DepthTexture,
    pub camera_bind_group_layout: BindGroupLayoutId,
    pub camera_buffer: BufferId,
    pub camera_bind_group: BindGroupId,
    pub world_transform_bind_group_layout: BindGroupLayoutId,
    pub world_transform_buffer: BufferId,
    pub world_transform_bind_group: BindGroupId,
}

/// What acquiring the next presentable surface image came to.
#[derive(Clone, Copy, Debug, PartialEq, Eq, Structural)]
pub enum AcquireResult {
    /// An image was acquired and the frame can be drawn.
    Success,
    /// The surface was lost; it must be reconfigured, and this
    /// frame's render is skipped.
    Lost,
    /// The device is out of memory; the run must end.
    OutOfMemory,
    /// A transient failure (a timeout, an outdated surface): the
    /// frame is skipped and nothing else changes.
    Other,
}

} // verus!
