//! Values that travel between the frame builder and the renderer.

use vstd::prelude::*;
use crate::api::{DebugCommand, DocumentId, Epoch, ExternalImageData, ExternalImageId, ImageFormat, PipelineId};
use crate::device::{RenderTargetInfo, TextureFilter};
use crate::tiling::Frame;
use crate::units::DeviceUintRect;

verus! {

/// The slot of a texture in the texture cache.
#[derive(Clone, Copy, Debug, PartialEq, Eq, Structural)]
pub struct CacheTextureId(pub usize);

/// The position of a pass in its frame.
#[derive(Clone, Copy, Debug, PartialEq, Eq, Structural)]
pub struct RenderPassIndex(pub usize);

/// Names a texture that a draw samples. It is a key that is resolved to a
/// device texture at draw time, and owns nothing.
#[derive(Clone, Copy, Debug, PartialEq, Eq, Structural)]
pub enum SourceTexture {
    Invalid,
    TextureCache(CacheTextureId),
    External(ExternalImageData),
    CacheA8,
    CacheRGBA8,
    RenderTaskCacheA8(RenderPassIndex),
    RenderTaskCacheRGBA8(RenderPassIndex),
}

/// Where the pixels of a texture cache update come from.
#[derive(Debug, PartialEq, Eq)]
pub enum TextureUpdateSource {
    External { id: ExternalImageId, channel_index: u8 },
    Bytes { data: Vec<u8> },
}

/// One change to a texture of the texture cache.
#[derive(Debug, PartialEq, Eq)]
pub enum TextureUpdateOp {
    Create {
        width: u32,
        height: u32,
        format: ImageFormat,
        filter: TextureFilter,
        render_target: Option<RenderTargetInfo>,
        layer_count: i32,
    },
    Update {
        rect: DeviceUintRect,
        stride: Option<u32>,
        offset: u32,
        layer_index: i32,
        source: TextureUpdateSource,
    },
    Free,
}

/// One change and the texture cache slot that it is for.
#[derive(Debug, PartialEq, Eq)]
pub struct TextureUpdate {
    pub id: CacheTextureId,
    pub op: TextureUpdateOp,
}

/// Texture cache changes, to be applied in order.
#[derive(Debug, PartialEq, Eq)]
pub struct TextureUpdateList {
    pub updates: Vec<TextureUpdate>,
}

impl TextureUpdateList {
    pub fn new() -> (list: TextureUpdateList)
        ensures
            list.updates@.len() == 0,
    {
        TextureUpdateList { updates: Vec::new() }
    }
}

/// Names a clip or scroll node of a pipeline.
#[derive(Clone, Copy, Debug, PartialEq, Eq, Structural)]
pub struct ClipId(pub u64, pub PipelineId);

/// A built frame of one document, with what the renderer must know of the
/// scene that it shows.
#[derive(Debug, PartialEq, Eq)]
pub struct RenderedDocument {
    /// The epoch of every pipeline that the frame shows.
    pub pipeline_epoch_map: Vec<(PipelineId, Epoch)>,
    /// The scroll nodes that are bouncing back from an overscroll.
    pub layers_bouncing_back: Vec<ClipId>,
    pub frame: Frame,
}

/// Text that the backend produced for the debugger.
#[derive(Debug, PartialEq, Eq)]
pub enum DebugOutput {
    FetchDocuments(String),
    FetchClipScrollTree(String),
}

/// Counters that the backend reports with every frame.
#[derive(Clone, Copy, Debug, PartialEq, Eq, Structural)]
pub struct BackendProfileCounters {
    /// Time spent building the frame, in nanoseconds.
    pub total_time_ns: u64,
    /// Rows of the GPU cache sent to the device.
    pub gpu_cache_updated_rows: usize,
    /// Blocks of the GPU cache that changed.
    pub gpu_cache_updated_blocks: usize,
}

/// A message from the backend thread to the renderer.
#[derive(Debug, PartialEq, Eq)]
pub enum ResultMsg {
    /// A frame is ready; it replaces the frame of the same document that is
    /// still waiting, if there is one.
    PublishDocument(DocumentId, RenderedDocument, TextureUpdateList, BackendProfileCounters),
    /// Texture cache changes without a frame.
    UpdateResources { updates: TextureUpdateList, cancel_rendering: bool },
    /// The source of a shader changed on disk.
    RefreshShader(String),
    DebugOutput(DebugOutput),
    DebugCommand(DebugCommand),
}

} // verus!
