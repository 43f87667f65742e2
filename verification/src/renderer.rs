//! The renderer: it receives frames, keeps the caches of the device up to
//! date, and records the commands that draw the active documents.

use vstd::prelude::*;
use std::collections::VecDeque;
use crate::api::{ColorF, DocumentId, Epoch, ExternalImageId, F32Bits, FontRenderMode, ImageFormat, PipelineId, TexelRect};
use crate::device::{Device, DeviceCapabilities, DeviceCommand, DeviceView, FrameId, ShaderError, Texture, TextureFilter, TextureSlot, TextureTarget, UploadMethod, VertexAttribute, VertexAttributeKind, VertexDescriptor, VertexUsageHint};
use crate::documents::ActiveDocument;
use crate::frame::{LockedOutput, OutputTarget};
use crate::gpu_cache::{list_views, CacheMirror, CacheTexture, GpuCacheUpdateList, GpuCacheView, UpdateListView};
use crate::internal_types::{BackendProfileCounters, CacheTextureId, TextureUpdate};
use crate::resources::LockedExternalImage;
use crate::shaders::Shaders;
use crate::texture_resolver::{ResolverView, SourceTextureResolver};
use crate::units::DeviceIntSize;

verus! {

/// The number of GPU cache blocks that the UV rectangle of an image takes.
pub const BLOCKS_PER_UV_RECT: usize = 2;

/// The kind of texture that an image is sampled from.
#[derive(Clone, Copy, Debug, PartialEq, Eq, Hash, Structural)]
pub enum ImageBufferKind {
    Texture2D,
    TextureRect,
    TextureExternal,
    Texture2DArray,
}

/// How a batch is combined with what its target holds.
#[derive(Clone, Copy, Debug, PartialEq, Eq, Structural)]
pub enum BlendMode {
    /// The batch replaces what its target holds.
    NoBlend,
    Alpha,
    PremultipliedAlpha,
    PremultipliedDestOut,
    SubpixelDualSource,
    SubpixelConstantTextColor(ColorF),
    SubpixelWithBgColor,
    SubpixelVariableTextColor,
}


/// The texture binding points that the shaders know by name.
#[derive(Clone, Copy, Debug, PartialEq, Eq, Structural)]
pub enum TextureSampler {
    Color0,
    Color1,
    Color2,
    CacheA8,
    CacheRGBA8,
    ResourceCache,
    ClipScrollNodes,
    RenderTasks,
    Dither,
    /// Bound to the coverage output of the first pass, which every later
    /// pass may read.
    SharedCacheA8,
    LocalClipRects,
}

impl TextureSampler {
    /// The sampler of colour slot `n`.
    pub open spec fn spec_color(n: usize) -> TextureSampler {
        if n == 0 {
            TextureSampler::Color0
        } else if n == 1 {
            TextureSampler::Color1
        } else {
            TextureSampler::Color2
        }
    }

    /// The sampler of colour slot `n`; there are three.
    pub fn color(n: usize) -> (s: TextureSampler)
        requires
            n < 3,
        ensures
            s == Self::spec_color(n),
    {
        if n == 0 {
            TextureSampler::Color0
        } else if n == 1 {
            TextureSampler::Color1
        } else {
            TextureSampler::Color2
        }
    }

    /// The binding point of the sampler.
    pub open spec fn spec_slot(self) -> TextureSlot {
        match self {
            TextureSampler::Color0 => TextureSlot(0),
            TextureSampler::Color1 => TextureSlot(1),
            TextureSampler::Color2 => TextureSlot(2),
            TextureSampler::CacheA8 => TextureSlot(3),
            TextureSampler::CacheRGBA8 => TextureSlot(4),
            TextureSampler::ResourceCache => TextureSlot(5),
            TextureSampler::ClipScrollNodes => TextureSlot(6),
            TextureSampler::RenderTasks => TextureSlot(7),
            TextureSampler::Dither => TextureSlot(8),
            TextureSampler::SharedCacheA8 => TextureSlot(9),
            TextureSampler::LocalClipRects => TextureSlot(10),
        }
    }

    /// The binding point of the sampler.
    pub fn slot(self) -> (s: TextureSlot)
        ensures
            s == self.spec_slot(),
    {
        match self {
            TextureSampler::Color0 => TextureSlot(0),
            TextureSampler::Color1 => TextureSlot(1),
            TextureSampler::Color2 => TextureSlot(2),
            TextureSampler::CacheA8 => TextureSlot(3),
            TextureSampler::CacheRGBA8 => TextureSlot(4),
            TextureSampler::ResourceCache => TextureSlot(5),
            TextureSampler::ClipScrollNodes => TextureSlot(6),
            TextureSampler::RenderTasks => TextureSlot(7),
            TextureSampler::Dither => TextureSlot(8),
            TextureSampler::SharedCacheA8 => TextureSlot(9),
            TextureSampler::LocalClipRects => TextureSlot(10),
        }
    }
}

/// No two samplers share a binding point.
pub proof fn lemma_sampler_slots_distinct(a: TextureSampler, b: TextureSampler)
    requires
        a.spec_slot() == b.spec_slot(),
    ensures
        a == b,
{
}


/// Counts of what a call of `render` drew.
#[derive(Clone, Copy, Debug, PartialEq, Eq, Structural)]
pub struct RendererStats {
    pub total_draw_calls: usize,
    pub alpha_target_count: usize,
    pub color_target_count: usize,
}

impl RendererStats {
    /// Nothing was drawn.
    pub fn empty() -> (stats: RendererStats)
        ensures
            stats == (RendererStats {
                total_draw_calls: 0,
                alpha_target_count: 0,
                color_target_count: 0,
            }),
    {
        RendererStats { total_draw_calls: 0, alpha_target_count: 0, color_target_count: 0 }
    }
}


/// Switches for the debugging aids of the renderer, one bit each.
#[derive(Clone, Copy, Debug, PartialEq, Eq, Structural)]
pub struct DebugFlags {
    pub bits: u32,
}

pub const PROFILER_DBG: u32 = 1;

pub const RENDER_TARGET_DBG: u32 = 2;

pub const TEXTURE_CACHE_DBG: u32 = 4;

pub const ALPHA_PRIM_DBG: u32 = 8;

pub const GPU_TIME_QUERIES: u32 = 16;

pub const GPU_SAMPLE_QUERIES: u32 = 32;

pub const DISABLE_BATCHING: u32 = 64;

pub const EPOCHS: u32 = 128;

pub const COMPACT_PROFILER: u32 = 256;

/// The bits that are switches.
pub const ALL_DEBUG_FLAGS: u32 = 511;

impl DebugFlags {
    /// No switch is on.
    pub fn empty() -> (flags: DebugFlags)
        ensures
            flags.bits == 0,
    {
        DebugFlags { bits: 0 }
    }

    /// The switches of `bits`; bits that are no switch are dropped.
    pub fn from_bits_truncate(bits: u32) -> (flags: DebugFlags)
        ensures
            flags.bits == bits & ALL_DEBUG_FLAGS,
    {
        DebugFlags { bits: bits & ALL_DEBUG_FLAGS }
    }

    pub fn bits(&self) -> (bits: u32)
        ensures
            bits == self.bits,
    {
        self.bits
    }

    pub fn is_empty(&self) -> (b: bool)
        ensures
            b == (self.bits == 0),
    {
        self.bits == 0
    }

    /// Every switch of `other` is on in `self`.
    pub open spec fn spec_contains(self, other: DebugFlags) -> bool {
        self.bits & other.bits == other.bits
    }

    /// Whether every switch of `other` is on.
    pub fn contains(&self, other: DebugFlags) -> (b: bool)
        ensures
            b == self.spec_contains(other),
    {
        self.bits & other.bits == other.bits
    }

    /// The switches that are on in both.
    pub fn intersection(self, other: DebugFlags) -> (flags: DebugFlags)
        ensures
            flags.bits == self.bits & other.bits,
    {
        DebugFlags { bits: self.bits & other.bits }
    }

    /// Turns the switches of `other` on.
    pub fn insert(&mut self, other: DebugFlags)
        ensures
            final(self).bits == old(self).bits | other.bits,
    {
        self.bits = self.bits | other.bits;
    }

    /// Turns the switches of `other` off.
    pub fn remove(&mut self, other: DebugFlags)
        ensures
            final(self).bits == old(self).bits & !other.bits,
    {
        self.bits = self.bits & !other.bits;
    }

    /// Flips the switches of `other`.
    pub fn toggle(&mut self, other: DebugFlags)
        ensures
            final(self).bits == old(self).bits ^ other.bits,
    {
        self.bits = self.bits ^ other.bits;
    }

    /// Turns the switches of `other` on or off.
    pub fn set(&mut self, other: DebugFlags, value: bool)
        ensures
            final(self).bits == if value {
                old(self).bits | other.bits
            } else {
                old(self).bits & !other.bits
            },
    {
        if value {
            self.insert(other);
        } else {
            self.remove(other);
        }
    }
}

/// A switch that was turned on is on, and one that was turned off is off.
pub proof fn lemma_set_then_contains(bits: u32, flag: u32)
    ensures
        (bits | flag) & flag == flag,
        flag != 0 ==> (bits & !flag) & flag != flag,
{
    assert((bits | flag) & flag == flag) by (bit_vector);
    assert(flag != 0 ==> (bits & !flag) & flag != flag) by (bit_vector);
}

/// Whether the switches of `select` differ between `before` and `after`,
/// and if they do, whether all of them are on after.
pub fn flag_changed(before: DebugFlags, after: DebugFlags, select: DebugFlags) -> (change: Option<bool>)
    ensures
        change == if before.bits & select.bits != after.bits & select.bits {
            Some(after.spec_contains(select))
        } else {
            None
        },
{
    if before.bits & select.bits != after.bits & select.bits {
        Some(after.contains(select))
    } else {
        None
    }
}

/// The graphics interfaces that the renderer can drive.
#[derive(Clone, Debug, PartialEq, Eq)]
pub enum GraphicsApi {
    OpenGL,
}

/// What the renderer tells of the graphics interface that it drives.
#[derive(Clone, Debug)]
pub struct GraphicsApiInfo {
    pub kind: GraphicsApi,
    pub renderer: String,
    pub version: String,
}

/// Whether the renderer draws with the platform's driver or in software.
#[derive(Clone, Copy, Debug, PartialEq, Eq, Structural)]
pub enum RendererKind {
    Native,
    OSMesa,
}

impl ImageBufferKind {
    /// The shader feature that selects the kind.
    pub fn get_feature_string(&self) -> (s: &'static str)
        ensures
            s@ == match *self {
                ImageBufferKind::Texture2D => "TEXTURE_2D"@,
                ImageBufferKind::Texture2DArray => ""@,
                ImageBufferKind::TextureRect => "TEXTURE_RECT"@,
                ImageBufferKind::TextureExternal => "TEXTURE_EXTERNAL"@,
            },
    {
        match *self {
            ImageBufferKind::Texture2D => "TEXTURE_2D",
            ImageBufferKind::Texture2DArray => "",
            ImageBufferKind::TextureRect => "TEXTURE_RECT",
            ImageBufferKind::TextureExternal => "TEXTURE_EXTERNAL",
        }
    }

    /// The kind of buffer that a texture of `target` is sampled as.
    pub open spec fn spec_from_target(target: TextureTarget) -> ImageBufferKind {
        match target {
            TextureTarget::Default => ImageBufferKind::Texture2D,
            TextureTarget::Rect => ImageBufferKind::TextureRect,
            TextureTarget::Array => ImageBufferKind::Texture2DArray,
            TextureTarget::External => ImageBufferKind::TextureExternal,
        }
    }
}

impl From<TextureTarget> for ImageBufferKind {
    fn from(target: TextureTarget) -> (kind: ImageBufferKind) {
        match target {
            TextureTarget::Default => ImageBufferKind::Texture2D,
            TextureTarget::Rect => ImageBufferKind::TextureRect,
            TextureTarget::Array => ImageBufferKind::Texture2DArray,
            TextureTarget::External => ImageBufferKind::TextureExternal,
        }
    }
}

impl vstd::std_specs::convert::FromSpecImpl<TextureTarget> for ImageBufferKind {
    open spec fn obeys_from_spec() -> bool {
        true
    }

    open spec fn from_spec(target: TextureTarget) -> ImageBufferKind {
        ImageBufferKind::spec_from_target(target)
    }
}

impl From<TextureSampler> for TextureSlot {
    fn from(sampler: TextureSampler) -> (slot: TextureSlot) {
        sampler.slot()
    }
}

impl vstd::std_specs::convert::FromSpecImpl<TextureSampler> for TextureSlot {
    open spec fn obeys_from_spec() -> bool {
        true
    }

    open spec fn from_spec(sampler: TextureSampler) -> TextureSlot {
        sampler.spec_slot()
    }
}

/// One measured span of device time.
#[derive(Clone, Copy, Debug, PartialEq, Eq, Structural)]
pub struct GpuTimer {
    pub time_ns: u64,
}

/// The sum of the first `n` spans.
pub open spec fn total_time(timers: Seq<GpuTimer>, n: nat) -> nat
    decreases n,
{
    if n == 0 {
        0
    } else {
        total_time(timers, (n - 1) as nat) + timers[n - 1].time_ns as nat
    }
}

/// The device time of one frame.
#[derive(Clone, Copy, Debug, PartialEq, Eq, Structural)]
pub struct GpuProfile {
    pub frame_id: FrameId,
    pub paint_time_ns: u64,
}

impl GpuProfile {
    /// The profile of frame `frame_id`: the sum of its timers.
    pub fn new(frame_id: FrameId, timers: &Vec<GpuTimer>) -> (profile: GpuProfile)
        requires
            total_time(timers@, timers@.len()) <= u64::MAX,
        ensures
            profile.frame_id == frame_id,
            profile.paint_time_ns == total_time(timers@, timers@.len()),
    {
        let mut paint_time_ns: u64 = 0;
        let mut i: usize = 0;
        while i < timers.len()
            invariant
                i <= timers@.len(),
                paint_time_ns == total_time(timers@, i as nat),
                total_time(timers@, timers@.len()) <= u64::MAX,
            decreases timers@.len() - i,
        {
            proof {
                lemma_total_time_monotonic(timers@, (i + 1) as nat, timers@.len());
            }
            paint_time_ns = paint_time_ns + timers[i].time_ns;
            i += 1;
        }
        GpuProfile { frame_id, paint_time_ns }
    }
}

/// The sum of spans grows with the number of spans.
pub proof fn lemma_total_time_monotonic(timers: Seq<GpuTimer>, i: nat, n: nat)
    requires
        i <= n,
    ensures
        total_time(timers, i) <= total_time(timers, n),
    decreases n,
{
    if i < n {
        lemma_total_time_monotonic(timers, i, (n - 1) as nat);
    }
}

/// The processor time of one frame.
#[derive(Clone, Copy, Debug, PartialEq, Eq, Structural)]
pub struct CpuProfile {
    pub frame_id: FrameId,
    pub backend_time_ns: u64,
    pub composite_time_ns: u64,
    pub draw_calls: usize,
}

impl CpuProfile {
    pub fn new(frame_id: FrameId, backend_time_ns: u64, composite_time_ns: u64, draw_calls: usize) -> (profile: CpuProfile)
        ensures
            profile == (CpuProfile { frame_id, backend_time_ns, composite_time_ns, draw_calls }),
    {
        CpuProfile { frame_id, backend_time_ns, composite_time_ns, draw_calls }
    }
}

/// Why the renderer could not be made, or what went wrong in a frame.
#[derive(Debug)]
pub enum RendererError {
    /// A shader program could not be built.
    Shader(ShaderError),
    /// A thread could not be started.
    Thread(std::io::Error),
    /// The device cannot allocate textures as large as the renderer needs.
    MaxTextureSize,
    /// The frame of a document brings something malformed (a deferred
    /// image that cannot be resolved, a list for the GPU cache that cannot
    /// be applied) and was not drawn; or it refers to something that is not
    /// there, and was not drawn completely.
    InvalidFrame(DocumentId),
    /// A texture cache update could not be applied to the slot that it
    /// names, and was refused.
    InvalidUpdate(CacheTextureId),
}

/// One error for every texture cache update that was refused, in order.
pub open spec fn refused_errors(slots: Seq<CacheTextureId>) -> Seq<RendererError> {
    slots.map_values(|slot: CacheTextureId| RendererError::InvalidUpdate(slot))
}

/// Reports, after the errors that are waiting, one error for every texture
/// cache update that was refused.
pub fn report_refused(errors: &mut Vec<RendererError>, slots: &Vec<CacheTextureId>)
    ensures
        final(errors)@ == old(errors)@ + refused_errors(slots@),
{
    assert(errors@ =~= errors@ + refused_errors(slots@.take(0)));
    let mut i: usize = 0;
    while i < slots.len()
        invariant
            i <= slots@.len(),
            errors@ == old(errors)@ + refused_errors(slots@.take(i as int)),
        decreases slots@.len() - i,
    {
        let ghost before = errors@;
        errors.push(RendererError::InvalidUpdate(slots[i]));
        assert(errors@ =~= old(errors)@ + refused_errors(slots@.take(i + 1))) by {
            assert(slots@.take(i + 1) =~= slots@.take(i as int).push(slots@[i as int]));
            assert(refused_errors(slots@.take(i + 1)) =~= refused_errors(slots@.take(i as int)).push(
                RendererError::InvalidUpdate(slots@[i as int]),
            ));
        }
        i += 1;
    }
    assert(slots@.take(slots@.len() as int) =~= slots@);
}

impl From<ShaderError> for RendererError {
    fn from(err: ShaderError) -> (error: RendererError) {
        RendererError::Shader(err)
    }
}

impl vstd::std_specs::convert::FromSpecImpl<ShaderError> for RendererError {
    open spec fn obeys_from_spec() -> bool {
        true
    }

    open spec fn from_spec(err: ShaderError) -> RendererError {
        RendererError::Shader(err)
    }
}

impl From<std::io::Error> for RendererError {
    fn from(err: std::io::Error) -> (error: RendererError) {
        RendererError::Thread(err)
    }
}

impl vstd::std_specs::convert::FromSpecImpl<std::io::Error> for RendererError {
    open spec fn obeys_from_spec() -> bool {
        true
    }

    open spec fn from_spec(err: std::io::Error) -> RendererError {
        RendererError::Thread(err)
    }
}

/// What the embedder hands over when an external image is locked.
pub enum ExternalImageSource<'a> {
    /// The pixels themselves.
    RawData(&'a [u8]),
    /// The handle of a texture of the embedder.
    NativeTexture(u32),
    /// The image is not there.
    Invalid,
}

/// An external image while it is locked: where it is, and the part of it
/// to sample, in texels.
pub struct ExternalImage<'a> {
    pub uv: TexelRect,
    pub source: ExternalImageSource<'a>,
}

/// Implemented by the embedder to lend external images to the renderer.
/// Between `lock` and `unlock` the embedder leaves the image alone.
pub trait ExternalImageHandler {
    fn lock(&mut self, key: ExternalImageId, channel_index: u8) -> ExternalImage;

    fn unlock(&mut self, key: ExternalImageId, channel_index: u8);
}

/// Implemented by the embedder to receive the output of a pipeline in a
/// texture of its own. `lock` returns the handle of the texture and its
/// size; `unlock` is called only after a `lock` that returned a texture.
pub trait OutputImageHandler {
    fn lock(&mut self, pipeline_id: PipelineId) -> Option<(u32, DeviceIntSize)>;

    fn unlock(&mut self, pipeline_id: PipelineId);
}

/// Implemented by the embedder to hear of the threads that the renderer
/// starts and stops.
pub trait ThreadListener {
    fn thread_started(&self, thread_name: &str);

    fn thread_stopped(&self, thread_name: &str);
}

/// Receives what the renderer reports to a debugger. Without a debugger
/// attached the reports go nowhere.
#[derive(Debug)]
pub struct DebugServer;

impl DebugServer {
    pub fn new() -> (server: DebugServer) {
        DebugServer
    }

    /// Reports `message`; nothing happens without a debugger.
    pub fn send(&mut self, message: String)
        ensures
            *final(self) == *old(self),
    {
    }
}

/// The settings that a renderer is made with.
#[derive(Debug)]
pub struct RendererOptions {
    pub device_pixel_ratio: F32Bits,
    pub resource_override_path: Option<String>,
    pub enable_aa: bool,
    pub enable_dithering: bool,
    pub max_recorded_profiles: usize,
    pub debug: bool,
    pub enable_scrollbars: bool,
    pub precache_shaders: bool,
    pub renderer_kind: RendererKind,
    pub enable_subpixel_aa: bool,
    pub clear_color: Option<ColorF>,
    pub enable_clear_scissor: bool,
    pub max_texture_size: Option<u32>,
    pub scatter_gpu_cache_updates: bool,
    pub upload_method: UploadMethod,
    pub enable_render_on_scroll: bool,
    pub debug_flags: DebugFlags,
    pub renderer_id: Option<u64>,
    pub disable_dual_source_blending: bool,
}

impl Default for RendererOptions {
    fn default() -> (options: RendererOptions)
        ensures
            options.device_pixel_ratio == F32Bits(0x3f80_0000),
            options.resource_override_path is None,
            options.enable_aa,
            options.enable_dithering,
            options.debug_flags.bits == 0,
            options.max_recorded_profiles == 0,
            !options.debug,
            !options.enable_scrollbars,
            !options.precache_shaders,
            options.renderer_kind == RendererKind::Native,
            !options.enable_subpixel_aa,
            options.clear_color == Some(
                ColorF {
                    r: F32Bits(0x3f80_0000),
                    g: F32Bits(0x3f80_0000),
                    b: F32Bits(0x3f80_0000),
                    a: F32Bits(0x3f80_0000),
                },
            ),
            !options.enable_clear_scissor,
            options.max_texture_size is None,
            !options.scatter_gpu_cache_updates,
            options.upload_method == UploadMethod::PixelBuffer(VertexUsageHint::Stream),
            options.enable_render_on_scroll,
            options.renderer_id is None,
            !options.disable_dual_source_blending,
    {
        RendererOptions {
            device_pixel_ratio: F32Bits::one(),
            resource_override_path: None,
            enable_aa: true,
            enable_dithering: true,
            debug_flags: DebugFlags::empty(),
            max_recorded_profiles: 0,
            debug: false,
            enable_scrollbars: false,
            precache_shaders: false,
            renderer_kind: RendererKind::Native,
            enable_subpixel_aa: false,
            clear_color: Some(
                ColorF::new(F32Bits::one(), F32Bits::one(), F32Bits::one(), F32Bits::one()),
            ),
            enable_clear_scissor: false,
            max_texture_size: None,
            scatter_gpu_cache_updates: false,
            upload_method: UploadMethod::PixelBuffer(VertexUsageHint::Stream),
            enable_render_on_scroll: true,
            renderer_id: None,
            disable_dual_source_blending: false,
        }
    }
}

/// The settings that the frame builder is made with.
#[derive(Clone, Copy, Debug, PartialEq, Eq, Structural)]
pub struct FrameBuilderConfig {
    pub enable_scrollbars: bool,
    pub default_font_render_mode: FontRenderMode,
    pub debug: bool,
    pub dual_source_blending_is_enabled: bool,
    pub dual_source_blending_is_supported: bool,
}

/// `std::io::Error`, carried through unread: what the operating system
/// said when it refused a thread.
#[verifier::external_type_specification]
#[verifier::external_body]
pub struct ExIoError(std::io::Error);


/// The smallest texture side that the texture cache can work with.
pub const MIN_TEXTURE_SIZE: u32 = 512;

/// What comes from outside for one frame: the time, and what the embedder
/// locked for the frame.
pub struct FrameInputs<'a> {
    /// The time of the frame in nanoseconds. `render` reads it from the
    /// clock before it draws; `render_impl` takes it as it is.
    pub now: u64,
    /// The time that the embedder measured for compositing the last frame,
    /// in nanoseconds.
    pub composite_time_ns: u64,
    /// The external images that the active documents defer to, locked.
    pub external_images: Vec<LockedExternalImage<'a>>,
    /// The textures that the embedder offers for pipeline outputs.
    pub outputs: Vec<LockedOutput>,
}

/// Records the commands that draw the active documents, and keeps what
/// lives across frames: the texture cache, the pool of render targets, the
/// GPU cache and the frames that wait to be drawn.
pub struct Renderer {
    pub debug_server: DebugServer,
    pub device: Device,
    /// Texture cache updates that are waiting, oldest first.
    pub pending_texture_updates: Vec<TextureUpdate>,
    /// GPU cache update lists that are waiting, oldest first.
    pub pending_gpu_cache_updates: Vec<GpuCacheUpdateList>,
    /// The shader sources that changed on disk.
    pub pending_shader_updates: Vec<String>,
    /// The documents to draw, one frame each.
    pub active_documents: Vec<ActiveDocument>,
    pub shaders: Shaders,
    pub max_texture_size: u32,
    pub max_recorded_profiles: usize,
    pub clear_color: Option<ColorF>,
    pub enable_clear_scissor: bool,
    pub debug_flags: DebugFlags,
    pub backend_profile_counters: BackendProfileCounters,
    pub last_time: u64,
    pub gpu_cache_texture: CacheTexture,
    /// The epoch of every pipeline that a frame was received for.
    pub pipeline_epoch_map: Vec<(PipelineId, Epoch)>,
    pub texture_resolver: SourceTextureResolver,
    /// The framebuffer objects of pipeline outputs.
    pub output_targets: Vec<OutputTarget>,
    /// What went wrong since the last call of `render` that reported.
    pub renderer_errors: Vec<RendererError>,
    /// The processor profiles of the last frames, oldest first.
    pub cpu_profiles: VecDeque<CpuProfile>,
    /// The device profiles of the last frames, oldest first.
    pub gpu_profiles: VecDeque<GpuProfile>,
    /// The external images that the last call of `render` used, for the
    /// embedder to unlock.
    pub images_to_unlock: Vec<(ExternalImageId, u8)>,
}

/// The largest texture side that the renderer uses: what the device can
/// do, capped by the embedder's wish if there is one, but never less than
/// the texture cache needs.
pub open spec fn spec_max_texture_size(device_max_size: u32, wish: Option<u32>) -> u32 {
    let capped = match wish {
        Some(w) => if w < device_max_size {
            w
        } else {
            device_max_size
        },
        None => device_max_size,
    };
    if capped < MIN_TEXTURE_SIZE {
        MIN_TEXTURE_SIZE
    } else {
        capped
    }
}

/// How fonts are rendered unless a font says otherwise.
pub open spec fn spec_default_font_render_mode(enable_aa: bool, enable_subpixel_aa: bool) -> FontRenderMode {
    if !enable_aa {
        FontRenderMode::Mono
    } else if enable_subpixel_aa {
        FontRenderMode::Subpixel
    } else {
        FontRenderMode::Alpha
    }
}

/// The settings of the frame builder that belongs to a renderer made with
/// `options` on a device with `capabilities`.
pub open spec fn spec_frame_builder_config(options: RendererOptions, capabilities: DeviceCapabilities) -> FrameBuilderConfig {
    FrameBuilderConfig {
        enable_scrollbars: options.enable_scrollbars,
        default_font_render_mode: spec_default_font_render_mode(
            options.enable_aa,
            options.enable_subpixel_aa,
        ),
        debug: options.debug,
        dual_source_blending_is_enabled: true,
        dual_source_blending_is_supported: !options.disable_dual_source_blending
            && capabilities.supports_dual_source_blending,
    }
}

/// The 1x1 texture that stands in for a cache that no pass drew yet, as the
/// first texture of a device.
pub open spec fn first_dummy_texture() -> Texture {
    Texture::blank(crate::device::TextureId(0), ImageFormat::BGRA8).initialized(
        1,
        1,
        TextureFilter::Linear,
        None,
        1,
    )
}

impl Renderer {
    /// The GPU cache holds whole rows.
    pub open spec fn wf(&self) -> bool {
        self.gpu_cache_texture.wf()
    }

    /// Makes a renderer for a device with `capabilities`, and the settings
    /// of the frame builder that feeds it.
    ///
    /// A device that cannot allocate textures of 512 texels a side is
    /// refused. Otherwise the renderer starts without documents and without
    /// anything waiting; its device has recorded one frame in which the
    /// dummy texture of the resolver was created.
    pub fn new(options: RendererOptions, capabilities: DeviceCapabilities) -> (result: Result<
        (Renderer, FrameBuilderConfig),
        RendererError,
    >)
        ensures
            capabilities.max_texture_size < MIN_TEXTURE_SIZE ==> result matches Err(
                RendererError::MaxTextureSize,
            ),
            capabilities.max_texture_size >= MIN_TEXTURE_SIZE ==> {
                &&& result matches Ok((renderer, config))
                &&& config == spec_frame_builder_config(options, capabilities)
                &&& renderer.wf()
                &&& renderer.max_texture_size == spec_max_texture_size(
                    capabilities.max_texture_size,
                    options.max_texture_size,
                )
                &&& renderer.shaders == Shaders::spec_new(options.enable_dithering)
                &&& renderer.max_recorded_profiles == options.max_recorded_profiles
                &&& renderer.clear_color == options.clear_color
                &&& renderer.enable_clear_scissor == options.enable_clear_scissor
                &&& renderer.debug_flags == options.debug_flags
                &&& renderer.last_time == 0
                &&& renderer.active_documents@.len() == 0
                &&& renderer.pending_texture_updates@.len() == 0
                &&& renderer.pending_gpu_cache_updates@.len() == 0
                &&& renderer.pending_shader_updates@.len() == 0
                &&& renderer.pipeline_epoch_map@.len() == 0
                &&& renderer.output_targets@.len() == 0
                &&& renderer.renderer_errors@.len() == 0
                &&& renderer.cpu_profiles@.len() == 0
                &&& renderer.gpu_profiles@.len() == 0
                &&& renderer.images_to_unlock@.len() == 0
                &&& renderer.gpu_cache_texture.is_scatter() == options.scatter_gpu_cache_updates
                &&& renderer.gpu_cache_texture.mirror() == CacheMirror::empty()
                &&& renderer.gpu_cache_texture.height == 0
                &&& renderer.texture_resolver@.dummy_cache_texture == first_dummy_texture()
                &&& renderer.texture_resolver@.cache_texture_map.len() == 0
                &&& renderer.texture_resolver@.render_target_pool.len() == 0
                &&& renderer.texture_resolver@.external_images.len() == 0
                &&& renderer.texture_resolver@.cache_a8_texture is None
                &&& renderer.texture_resolver@.cache_rgba8_texture is None
                &&& renderer.device@.commands == seq![
                    DeviceCommand::BeginFrame,
                    DeviceCommand::CreateTexture {
                        id: crate::device::TextureId(0),
                        format: ImageFormat::BGRA8,
                    },
                    DeviceCommand::InitTexture {
                        id: crate::device::TextureId(0),
                        width: 1,
                        height: 1,
                        filter: TextureFilter::Linear,
                        render_target: None,
                        layer_count: 1,
                    },
                    DeviceCommand::EndFrame,
                ]
                &&& renderer.device@.frame_id == FrameId(1)
                &&& renderer.device@.textures == seq![ImageFormat::BGRA8]
                &&& renderer.device@.programs.len() == 0
                &&& renderer.device@.buffers.len() == 0
                &&& renderer.device@.fbos.len() == 0
                &&& renderer.device@.capabilities == capabilities
            },
    {
        let device_max_size = capabilities.max_texture_size;
        if device_max_size < MIN_TEXTURE_SIZE {
            return Err(RendererError::MaxTextureSize);
        }
        let wished = match options.max_texture_size {
            Some(w) => if w < device_max_size {
                w
            } else {
                device_max_size
            },
            None => device_max_size,
        };
        let max_texture_size = if wished < MIN_TEXTURE_SIZE {
            MIN_TEXTURE_SIZE
        } else {
            wished
        };
        let default_font_render_mode = if !options.enable_aa {
            FontRenderMode::Mono
        } else if options.enable_subpixel_aa {
            FontRenderMode::Subpixel
        } else {
            FontRenderMode::Alpha
        };
        let config = FrameBuilderConfig {
            enable_scrollbars: options.enable_scrollbars,
            default_font_render_mode,
            debug: options.debug,
            dual_source_blending_is_enabled: true,
            dual_source_blending_is_supported: !options.disable_dual_source_blending
                && capabilities.supports_dual_source_blending,
        };
        let shaders = Shaders::new(options.enable_dithering);
        let mut device = Device::new(capabilities);
        let frame_id = device.begin_frame();
        let texture_resolver = SourceTextureResolver::new(&mut device);
        let gpu_cache_texture = CacheTexture::new(options.scatter_gpu_cache_updates);
        device.end_frame(frame_id);
        assert(device@.commands =~= seq![
            DeviceCommand::BeginFrame,
            DeviceCommand::CreateTexture {
                id: crate::device::TextureId(0),
                format: ImageFormat::BGRA8,
            },
            DeviceCommand::InitTexture {
                id: crate::device::TextureId(0),
                width: 1,
                height: 1,
                filter: TextureFilter::Linear,
                render_target: None,
                layer_count: 1,
            },
            DeviceCommand::EndFrame,
        ]);
        assert(device@.textures =~= seq![ImageFormat::BGRA8]);
        let renderer = Renderer {
            debug_server: DebugServer::new(),
            device,
            pending_texture_updates: Vec::new(),
            pending_gpu_cache_updates: Vec::new(),
            pending_shader_updates: Vec::new(),
            active_documents: Vec::new(),
            shaders,
            max_texture_size,
            max_recorded_profiles: options.max_recorded_profiles,
            clear_color: options.clear_color,
            enable_clear_scissor: options.enable_clear_scissor,
            debug_flags: options.debug_flags,
            backend_profile_counters: BackendProfileCounters {
                total_time_ns: 0,
                gpu_cache_updated_rows: 0,
                gpu_cache_updated_blocks: 0,
            },
            last_time: 0,
            gpu_cache_texture,
            pipeline_epoch_map: Vec::new(),
            texture_resolver,
            output_targets: Vec::new(),
            renderer_errors: Vec::new(),
            cpu_profiles: VecDeque::new(),
            gpu_profiles: VecDeque::new(),
            images_to_unlock: Vec::new(),
        };
        Ok((renderer, config))
    }
}


/// What a [`Renderer`] holds, as mathematical values.
pub struct RendererView {
    pub device: DeviceView,
    pub pending_texture_updates: Seq<TextureUpdate>,
    pub pending_gpu_cache_updates: Seq<UpdateListView>,
    pub pending_shader_updates: Seq<String>,
    pub active_documents: Seq<ActiveDocument>,
    pub shaders: Shaders,
    pub max_texture_size: u32,
    pub max_recorded_profiles: usize,
    pub clear_color: Option<ColorF>,
    pub enable_clear_scissor: bool,
    pub debug_flags: DebugFlags,
    pub backend_profile_counters: BackendProfileCounters,
    pub last_time: u64,
    pub gpu_cache: GpuCacheView,
    pub pipeline_epoch_map: Seq<(PipelineId, Epoch)>,
    pub resolver: ResolverView,
    pub output_targets: Seq<OutputTarget>,
    pub renderer_errors: Seq<RendererError>,
    pub cpu_profiles: Seq<CpuProfile>,
    pub gpu_profiles: Seq<GpuProfile>,
    pub images_to_unlock: Seq<(ExternalImageId, u8)>,
}

impl View for Renderer {
    type V = RendererView;

    open spec fn view(&self) -> RendererView {
        RendererView {
            device: self.device@,
            pending_texture_updates: self.pending_texture_updates@,
            pending_gpu_cache_updates: list_views(self.pending_gpu_cache_updates@),
            pending_shader_updates: self.pending_shader_updates@,
            active_documents: self.active_documents@,
            shaders: self.shaders,
            max_texture_size: self.max_texture_size,
            max_recorded_profiles: self.max_recorded_profiles,
            clear_color: self.clear_color,
            enable_clear_scissor: self.enable_clear_scissor,
            debug_flags: self.debug_flags,
            backend_profile_counters: self.backend_profile_counters,
            last_time: self.last_time,
            gpu_cache: self.gpu_cache_texture@,
            pipeline_epoch_map: self.pipeline_epoch_map@,
            resolver: self.texture_resolver@,
            output_targets: self.output_targets@,
            renderer_errors: self.renderer_errors@,
            cpu_profiles: self.cpu_profiles@,
            gpu_profiles: self.gpu_profiles@,
            images_to_unlock: self.images_to_unlock@,
        }
    }
}


/// A corner of the unit quad that every instance is drawn with.
#[derive(Clone, Copy, Debug, PartialEq, Eq)]
pub struct PackedVertex {
    pub pos: [F32Bits; 2],
}

/// The four corners of the unit quad, and the two triangles that cover it.
pub fn quad_vertices() -> (quad: ([PackedVertex; 4], [u16; 6]))
    ensures
        quad.0[0].pos == [F32Bits(0), F32Bits(0)],
        quad.0[1].pos == [F32Bits(0x3f80_0000), F32Bits(0)],
        quad.0[2].pos == [F32Bits(0), F32Bits(0x3f80_0000)],
        quad.0[3].pos == [F32Bits(0x3f80_0000), F32Bits(0x3f80_0000)],
        quad.1 == [0u16, 1u16, 2u16, 2u16, 1u16, 3u16],
{
    let zero = F32Bits::zero();
    let one = F32Bits::one();
    (
        [
            PackedVertex { pos: [zero, zero] },
            PackedVertex { pos: [one, zero] },
            PackedVertex { pos: [zero, one] },
            PackedVertex { pos: [one, one] },
        ],
        [0, 1, 2, 2, 1, 3],
    )
}

/// The four kinds of image buffer, in the order of their numbers.
pub fn image_buffer_kinds() -> (kinds: [ImageBufferKind; 4])
    ensures
        kinds == [
            ImageBufferKind::Texture2D,
            ImageBufferKind::TextureRect,
            ImageBufferKind::TextureExternal,
            ImageBufferKind::Texture2DArray,
        ],
{
    [
        ImageBufferKind::Texture2D,
        ImageBufferKind::TextureRect,
        ImageBufferKind::TextureExternal,
        ImageBufferKind::Texture2DArray,
    ]
}

/// The position attribute of the unit quad.
fn position_attribute(kind: VertexAttributeKind) -> (a: VertexAttribute)
    ensures
        a.name@ == "aPosition"@,
        a.count == 2,
        a.kind == kind,
{
    VertexAttribute { name: "aPosition", count: 2, kind }
}

/// The vertex layout of primitive instances: the quad, and two vectors of
/// four integers per instance.
pub fn desc_prim_instances() -> (desc: VertexDescriptor)
    ensures
        desc.vertex_attributes@.len() == 1,
        desc.vertex_attributes@[0].name@ == "aPosition"@,
        desc.vertex_attributes@[0].count == 2,
        desc.vertex_attributes@[0].kind == VertexAttributeKind::F32,
        desc.instance_attributes@.len() == 2,
        desc.instance_attributes@[0].name@ == "aData0"@,
        desc.instance_attributes@[1].name@ == "aData1"@,
        forall|i: int|
            0 <= i < 2 ==> (#[trigger] desc.instance_attributes@[i]).count == 4
                && desc.instance_attributes@[i].kind == VertexAttributeKind::I32,
{
    let mut vertex_attributes = Vec::new();
    vertex_attributes.push(position_attribute(VertexAttributeKind::F32));
    let mut instance_attributes = Vec::new();
    instance_attributes.push(
        VertexAttribute { name: "aData0", count: 4, kind: VertexAttributeKind::I32 },
    );
    instance_attributes.push(
        VertexAttribute { name: "aData1", count: 4, kind: VertexAttributeKind::I32 },
    );
    VertexDescriptor { vertex_attributes, instance_attributes }
}

/// The vertex layout of blur instances: the quad, and three integers per
/// instance.
pub fn desc_blur() -> (desc: VertexDescriptor)
    ensures
        desc.vertex_attributes@.len() == 1,
        desc.vertex_attributes@[0].kind == VertexAttributeKind::F32,
        desc.instance_attributes@.len() == 3,
        desc.instance_attributes@[0].name@ == "aBlurRenderTaskAddress"@,
        desc.instance_attributes@[1].name@ == "aBlurSourceTaskAddress"@,
        desc.instance_attributes@[2].name@ == "aBlurDirection"@,
        forall|i: int|
            0 <= i < 3 ==> (#[trigger] desc.instance_attributes@[i]).count == 1
                && desc.instance_attributes@[i].kind == VertexAttributeKind::I32,
{
    let mut vertex_attributes = Vec::new();
    vertex_attributes.push(position_attribute(VertexAttributeKind::F32));
    let mut instance_attributes = Vec::new();
    instance_attributes.push(
        VertexAttribute { name: "aBlurRenderTaskAddress", count: 1, kind: VertexAttributeKind::I32 },
    );
    instance_attributes.push(
        VertexAttribute { name: "aBlurSourceTaskAddress", count: 1, kind: VertexAttributeKind::I32 },
    );
    instance_attributes.push(
        VertexAttribute { name: "aBlurDirection", count: 1, kind: VertexAttributeKind::I32 },
    );
    VertexDescriptor { vertex_attributes, instance_attributes }
}

/// The vertex layout of clip mask instances: the quad, three integers and
/// four 16-bit addresses per instance.
pub fn desc_clip() -> (desc: VertexDescriptor)
    ensures
        desc.vertex_attributes@.len() == 1,
        desc.vertex_attributes@[0].kind == VertexAttributeKind::F32,
        desc.instance_attributes@.len() == 4,
        desc.instance_attributes@[0].name@ == "aClipRenderTaskAddress"@,
        desc.instance_attributes@[1].name@ == "aScrollNodeId"@,
        desc.instance_attributes@[2].name@ == "aClipSegment"@,
        desc.instance_attributes@[3].name@ == "aClipDataResourceAddress"@,
        forall|i: int|
            0 <= i < 3 ==> (#[trigger] desc.instance_attributes@[i]).count == 1
                && desc.instance_attributes@[i].kind == VertexAttributeKind::I32,
        desc.instance_attributes@[3].count == 4,
        desc.instance_attributes@[3].kind == VertexAttributeKind::U16,
{
    let mut vertex_attributes = Vec::new();
    vertex_attributes.push(position_attribute(VertexAttributeKind::F32));
    let mut instance_attributes = Vec::new();
    instance_attributes.push(
        VertexAttribute { name: "aClipRenderTaskAddress", count: 1, kind: VertexAttributeKind::I32 },
    );
    instance_attributes.push(
        VertexAttribute { name: "aScrollNodeId", count: 1, kind: VertexAttributeKind::I32 },
    );
    instance_attributes.push(
        VertexAttribute { name: "aClipSegment", count: 1, kind: VertexAttributeKind::I32 },
    );
    instance_attributes.push(
        VertexAttribute { name: "aClipDataResourceAddress", count: 4, kind: VertexAttributeKind::U16 },
    );
    VertexDescriptor { vertex_attributes, instance_attributes }
}

/// The vertex layout of scattered cache writes: a normalised 16-bit
/// position and the four numbers of a block per point.
pub fn desc_gpu_cache_update() -> (desc: VertexDescriptor)
    ensures
        desc.vertex_attributes@.len() == 2,
        desc.vertex_attributes@[0].name@ == "aPosition"@,
        desc.vertex_attributes@[0].count == 2,
        desc.vertex_attributes@[0].kind == VertexAttributeKind::U16Norm,
        desc.vertex_attributes@[1].name@ == "aValue"@,
        desc.vertex_attributes@[1].count == 4,
        desc.vertex_attributes@[1].kind == VertexAttributeKind::F32,
        desc.instance_attributes@.len() == 0,
{
    let mut vertex_attributes = Vec::new();
    vertex_attributes.push(position_attribute(VertexAttributeKind::U16Norm));
    vertex_attributes.push(
        VertexAttribute { name: "aValue", count: 4, kind: VertexAttributeKind::F32 },
    );
    VertexDescriptor { vertex_attributes, instance_attributes: Vec::new() }
}

} // verus!
