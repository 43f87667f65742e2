//! The boundary to the graphics device: textures, vertex layouts, and the
//! recorder that collects device commands in the order they must run.

use vstd::prelude::*;
use crate::api::{ColorF, F32Bits, ImageFormat};
use crate::gpu_cache::GpuBlockData;
use crate::units::{DeviceIntRect, DeviceUintPoint, DeviceUintRect, DeviceUintSize};
use crate::util::TransformedRectKind;

verus! {

/// How texels are sampled between pixel centres.
#[derive(Clone, Copy, Debug, PartialEq, Eq, Structural)]
pub enum TextureFilter {
    Nearest,
    Linear,
}

/// How a texture is addressed by shaders.
#[derive(Clone, Copy, Debug, PartialEq, Eq, Structural)]
pub enum TextureTarget {
    Default,
    Array,
    Rect,
    External,
}

/// A texture binding point of the shaders.
#[derive(Clone, Copy, Debug, PartialEq, Eq, Structural)]
pub struct TextureSlot(pub usize);

/// Width in texels of the clip-scroll node data texture (146 nodes of 7 texels).
pub const NODE_TEXTURE_WIDTH: usize = 1022;

/// Width in texels of the render task data texture (341 tasks of 3 texels).
pub const RENDER_TASK_TEXTURE_WIDTH: usize = 1023;

/// Height in texels of the node and render task data textures.
pub const TEXTURE_HEIGHT: usize = 8;

/// The number of instances that one instance buffer holds.
pub const MAX_INSTANCE_COUNT: usize = 1024;

/// One primitive instance as the vertex stage reads it: two vectors of four
/// integers.
#[derive(Clone, Copy, Debug, PartialEq, Eq)]
pub struct PrimitiveInstance {
    pub a_data0: [i32; 4],
    pub a_data1: [i32; 4],
}

impl PrimitiveInstance {
    /// Splits eight integers into the two attribute vectors.
    pub open spec fn spec_new(data: [i32; 8]) -> PrimitiveInstance {
        PrimitiveInstance {
            a_data0: [data[0], data[1], data[2], data[3]],
            a_data1: [data[4], data[5], data[6], data[7]],
        }
    }

    /// Splits eight integers into the two attribute vectors.
    pub fn new(data: [i32; 8]) -> (p: PrimitiveInstance)
        ensures
            p == Self::spec_new(data),
    {
        PrimitiveInstance {
            a_data0: [data[0], data[1], data[2], data[3]],
            a_data1: [data[4], data[5], data[6], data[7]],
        }
    }
}

/// One blur instance as the vertex stage reads it.
#[derive(Clone, Copy, Debug, PartialEq, Eq, Structural)]
pub struct BlurInstance {
    pub a_blur_render_task_address: i32,
    pub a_blur_source_task_address: i32,
    pub a_blur_direction: i32,
}

/// One clip mask instance as the vertex stage reads it.
#[derive(Clone, Copy, Debug, PartialEq, Eq)]
pub struct ClipMaskInstance {
    pub a_clip_render_task_address: i32,
    pub a_scroll_node_id: i32,
    pub a_clip_segment: i32,
    pub a_clip_data_resource_address: [i32; 4],
}

/// Counts the frames that the device has begun.
#[derive(Clone, Copy, Debug, PartialEq, Eq, PartialOrd, Ord, Structural)]
pub struct FrameId(pub usize);

impl FrameId {
    pub fn new(value: usize) -> (id: FrameId)
        ensures
            id.0 == value,
    {
        FrameId(value)
    }

    /// The frame `other` frames later.
    pub fn add(self, other: usize) -> (id: FrameId)
        requires
            self.0 + other <= usize::MAX,
        ensures
            id.0 == self.0 + other,
    {
        FrameId(self.0 + other)
    }
}

/// The component type of a vertex attribute.
#[derive(Clone, Copy, Debug, PartialEq, Eq, Structural)]
pub enum VertexAttributeKind {
    F32,
    U8Norm,
    U16Norm,
    I32,
    U16,
}

/// One named vertex attribute of `count` components.
#[derive(Clone, Copy, Debug)]
pub struct VertexAttribute {
    pub name: &'static str,
    pub count: u32,
    pub kind: VertexAttributeKind,
}

/// The per-vertex and per-instance attributes of one vertex layout.
#[derive(Debug)]
pub struct VertexDescriptor {
    pub vertex_attributes: Vec<VertexAttribute>,
    pub instance_attributes: Vec<VertexAttribute>,
}

/// A texture that the embedder owns, by its native handle.
#[derive(Clone, Copy, Debug, PartialEq, Eq, Structural)]
pub struct ExternalTexture {
    pub id: u32,
    pub target: TextureTarget,
}

impl ExternalTexture {
    pub fn new(id: u32, target: TextureTarget) -> (t: ExternalTexture)
        ensures
            t.id == id,
            t.target == target,
    {
        ExternalTexture { id, target }
    }
}

/// Render target properties of a texture.
#[derive(Clone, Copy, Debug, PartialEq, Eq, Structural)]
pub struct RenderTargetInfo {
    pub has_depth: bool,
}

/// Names a texture that the device created: its position in the device's
/// table of textures.
#[derive(Clone, Copy, Debug, PartialEq, Eq, Structural)]
pub struct TextureId(pub usize);

/// A device texture and what the renderer knows of its storage. The value is
/// owned by exactly one pool, cache slot or target list at a time.
#[derive(Debug, PartialEq, Eq)]
pub struct Texture {
    pub id: TextureId,
    pub width: u32,
    pub height: u32,
    pub layer_count: i32,
    pub format: ImageFormat,
    pub filter: TextureFilter,
    pub render_target: Option<RenderTargetInfo>,
}

impl Texture {
    pub fn get_dimensions(&self) -> (s: DeviceUintSize)
        ensures
            s.width == self.width,
            s.height == self.height,
    {
        DeviceUintSize::new(self.width, self.height)
    }

    /// Whether the texture was initialised as a render target with a depth
    /// buffer.
    pub open spec fn spec_has_depth(&self) -> bool {
        self.render_target == Some(RenderTargetInfo { has_depth: true })
    }

    pub fn has_depth(&self) -> (b: bool)
        ensures
            b == self.spec_has_depth(),
    {
        match self.render_target {
            Some(info) => info.has_depth,
            None => false,
        }
    }

    /// The number of layers that can be drawn to: all of them for a render
    /// target, none otherwise.
    pub open spec fn spec_render_target_layer_count(&self) -> usize {
        if self.render_target is Some && self.layer_count >= 0 {
            self.layer_count as usize
        } else {
            0
        }
    }

    pub fn get_render_target_layer_count(&self) -> (n: usize)
        ensures
            n == self.spec_render_target_layer_count(),
    {
        if self.render_target.is_some() && self.layer_count >= 0 {
            self.layer_count as usize
        } else {
            0
        }
    }

    pub fn get_layer_count(&self) -> (n: i32)
        ensures
            n == self.layer_count,
    {
        self.layer_count
    }

    pub fn get_format(&self) -> (f: ImageFormat)
        ensures
            f == self.format,
    {
        self.format
    }
}


/// The vertex layout that a cache shader reads.
#[derive(Clone, Copy, Debug, PartialEq, Eq, Structural)]
pub enum VertexArrayKind {
    Primitive,
    Blur,
    Clip,
}

/// The family of pipeline state that a shader is built with.
#[derive(Clone, Copy, Debug, PartialEq, Eq, Structural)]
pub enum ShaderKind {
    Primitive,
    Cache(VertexArrayKind),
    ClipCache,
    Brush,
    Text,
}

/// The brush shaders.
#[derive(Clone, Copy, Debug, PartialEq, Eq, Structural)]
pub enum BrushProgram {
    Solid,
    Line,
    PictureA8,
    PictureRgba8,
    PictureRgba8AlphaMask,
}

/// The two builds of a brush shader: for opaque segments, and for the
/// blended pass with anti-aliasing and clip masks.
#[derive(Clone, Copy, Debug, PartialEq, Eq, Structural)]
pub enum BrushPass {
    Opaque,
    Alpha,
}

/// The text run shaders.
#[derive(Clone, Copy, Debug, PartialEq, Eq, Structural)]
pub enum TextProgram {
    Run,
    RunDualSource,
}

/// The three builds of a text run shader.
#[derive(Clone, Copy, Debug, PartialEq, Eq, Structural)]
pub enum TextVariant {
    Simple,
    Transform,
    GlyphTransform,
}

/// The YUV image shaders, one per plane layout and colour space.
#[derive(Clone, Copy, Debug, PartialEq, Eq, Structural)]
pub enum YuvProgram {
    Nv12,
    Nv12Rec709,
    Planar,
    PlanarRec709,
    Interleaved,
    InterleavedRec709,
}

/// The primitive shaders.
#[derive(Clone, Copy, Debug, PartialEq, Eq, Structural)]
pub enum PrimitiveProgram {
    Image,
    YuvImage(YuvProgram),
    BorderCorner,
    BorderEdge,
    Gradient,
    GradientDithering,
    AngleGradient,
    AngleGradientDithering,
    RadialGradient,
    RadialGradientDithering,
}

/// Names one shader program of the renderer.
#[derive(Clone, Copy, Debug, PartialEq, Eq, Structural)]
pub enum ShaderId {
    CsTextRun,
    CsBlurA8,
    CsBlurRgba8,
    BrushMaskCorner,
    BrushMaskRoundedRect,
    Brush(BrushProgram, BrushPass),
    CsClipRectangle,
    CsClipImage,
    CsClipBorder,
    Text(TextProgram, TextVariant),
    Primitive(PrimitiveProgram, TransformedRectKind),
    PsBlend,
    PsHwComposite,
    PsSplitComposite,
    PsComposite,
    GpuCacheUpdate,
}

/// The comparison of the depth test.
#[derive(Clone, Copy, Debug, PartialEq, Eq, Structural)]
pub enum DepthFunction {
    Less,
    LessEqual,
}

/// The blend equations that the device can be switched to.
#[derive(Clone, Copy, Debug, PartialEq, Eq, Structural)]
pub enum BlendState {
    Alpha,
    PremultipliedAlpha,
    PremultipliedDestOut,
    SubpixelDualSource,
    SubpixelConstantTextColor(ColorF),
    SubpixelPass0,
    SubpixelPass1,
    SubpixelWithBgColorPass0,
    SubpixelWithBgColorPass1,
    SubpixelWithBgColorPass2,
    Max,
    Multiply,
}

/// The layout in which pixels are read back.
#[derive(Clone, Copy, Debug, PartialEq, Eq, Structural)]
pub enum ReadPixelsFormat {
    Standard(ImageFormat),
    Rgba8,
}

/// Names a framebuffer object that wraps a texture of the embedder.
#[derive(Clone, Copy, Debug, PartialEq, Eq, Structural)]
pub struct FBOId(pub usize);

/// Names one block of data handed to the device: its position among the
/// recorded uploads.
#[derive(Clone, Copy, Debug, PartialEq, Eq, Structural)]
pub struct BufferId(pub usize);

/// An orthographic projection that maps the rectangle from the origin to
/// `(width, height)` onto the clip volume.
#[derive(Clone, Copy, Debug, PartialEq, Eq, Structural)]
pub struct Projection {
    pub width: u32,
    pub height: u32,
}

/// One destination of a scattered cache write.
#[derive(Clone, Copy, Debug, PartialEq, Eq)]
pub struct ScatterPoint {
    /// The column of the destination texel.
    pub x: usize,
    /// The row of the destination texel.
    pub y: usize,
    /// The block written there.
    pub value: GpuBlockData,
}

/// Data that travels with a device command.
#[derive(Debug, PartialEq, Eq)]
pub enum UploadData {
    Primitives(Vec<PrimitiveInstance>),
    Blurs(Vec<BlurInstance>),
    ClipMasks(Vec<ClipMaskInstance>),
    GpuBlocks(Vec<GpuBlockData>),
    ScatterPoints(Vec<ScatterPoint>),
    NodeData(Vec<[F32Bits; 28]>),
    LocalRects(Vec<[F32Bits; 4]>),
    RenderTasks(Vec<[F32Bits; 12]>),
    Bytes(Vec<u8>),
}

/// What an [`UploadData`] holds, as mathematical sequences.
pub enum UploadDataView {
    Primitives(Seq<PrimitiveInstance>),
    Blurs(Seq<BlurInstance>),
    ClipMasks(Seq<ClipMaskInstance>),
    GpuBlocks(Seq<GpuBlockData>),
    ScatterPoints(Seq<ScatterPoint>),
    NodeData(Seq<[F32Bits; 28]>),
    LocalRects(Seq<[F32Bits; 4]>),
    RenderTasks(Seq<[F32Bits; 12]>),
    Bytes(Seq<u8>),
}

impl View for UploadData {
    type V = UploadDataView;

    open spec fn view(&self) -> UploadDataView {
        match self {
            UploadData::Primitives(v) => UploadDataView::Primitives(v@),
            UploadData::Blurs(v) => UploadDataView::Blurs(v@),
            UploadData::ClipMasks(v) => UploadDataView::ClipMasks(v@),
            UploadData::GpuBlocks(v) => UploadDataView::GpuBlocks(v@),
            UploadData::ScatterPoints(v) => UploadDataView::ScatterPoints(v@),
            UploadData::NodeData(v) => UploadDataView::NodeData(v@),
            UploadData::LocalRects(v) => UploadDataView::LocalRects(v@),
            UploadData::RenderTasks(v) => UploadDataView::RenderTasks(v@),
            UploadData::Bytes(v) => UploadDataView::Bytes(v@),
        }
    }
}

/// One step for the graphics device. The recorder lists the steps in the
/// order in which they must run.
#[allow(inconsistent_fields)]
#[derive(Clone, Copy, Debug, PartialEq, Eq)]
pub enum DeviceCommand {
    BeginFrame,
    EndFrame,
    SwapBuffers,
    ResetState,
    SetDevicePixelRatio(F32Bits),
    DisableScissor,
    EnableDepth,
    DisableDepth,
    SetDepthFunc(DepthFunction),
    EnableDepthWrite,
    DisableDepthWrite,
    DisableStencil,
    SetBlend(bool),
    SetBlendMode(BlendState),
    BindDrawTarget { target: Option<(TextureId, i32)>, dimensions: Option<DeviceUintSize> },
    BindReadTarget { target: Option<(TextureId, i32)> },
    BindExternalDrawTarget(FBOId),
    ClearTarget { color: Option<ColorF>, depth: Option<F32Bits>, rect: Option<DeviceIntRect> },
    BlitRenderTarget { src: DeviceIntRect, dest: DeviceIntRect },
    CreateTexture { id: TextureId, format: ImageFormat },
    InitTexture {
        id: TextureId,
        width: u32,
        height: u32,
        filter: TextureFilter,
        render_target: Option<RenderTargetInfo>,
        layer_count: i32,
    },
    FreeTextureStorage(TextureId),
    DeleteTexture(TextureId),
    UploadTexture {
        id: TextureId,
        rect: DeviceUintRect,
        layer_index: i32,
        stride: Option<u32>,
        data: BufferId,
        offset: usize,
    },
    BindTexture { slot: TextureSlot, texture: TextureId },
    BindExternalTexture { slot: TextureSlot, texture: ExternalTexture },
    CreateProgram(ShaderId),
    ResetProgram(ShaderId),
    DeleteProgram(ShaderId),
    BindProgramLocals { program: ShaderId, projection: Projection, mode: i32 },
    BindProgramInstances { program: ShaderId, instances: BufferId },
    Draw(ShaderId),
    DrawPoints { program: ShaderId, points: BufferId },
    UpdateInstances { data: BufferId, usage: VertexUsageHint },
    DrawIndexedTrianglesInstanced { index_count: i32, instance_count: i32 },
    DrawTriangles { first_vertex: i32, index_count: i32 },
    UpdateResourceCache { rect: DeviceUintRect, data: BufferId },
    UpdateNodeData(BufferId),
    UpdateLocalRects(BufferId),
    UpdateRenderTasks(BufferId),
    ResizeGpuCache { width: u32, height: u32 },
    CreateFbo { id: FBOId, texture: u32 },
    DeleteFbo(FBOId),
    /// Reads the pixels of `rect` of the bound read target into the data
    /// block `into`, from its first byte on.
    ReadPixels { rect: DeviceUintRect, format: ReadPixelsFormat, into: BufferId },
}

/// What a [`Device`] has recorded and handed out, as mathematical values.
pub struct DeviceView {
    /// The commands recorded so far, oldest first.
    pub commands: Seq<DeviceCommand>,
    /// The data blocks recorded so far; a `BufferId` indexes them.
    pub buffers: Seq<UploadDataView>,
    /// The format of every texture created so far; a `TextureId` indexes them.
    pub textures: Seq<ImageFormat>,
    /// The embedder's texture behind every framebuffer object created so
    /// far; an `FBOId` indexes them.
    pub fbos: Seq<u32>,
    /// The shader programs created so far.
    pub programs: Seq<ShaderId>,
    /// The frame that is being recorded, or that comes next.
    pub frame_id: FrameId,
    /// What the device can do.
    pub capabilities: DeviceCapabilities,
}

impl DeviceView {
    /// The state after one more command.
    pub open spec fn emit(self, command: DeviceCommand) -> DeviceView {
        DeviceView { commands: self.commands.push(command), ..self }
    }

    /// The state after one more data block.
    pub open spec fn upload(self, data: UploadDataView) -> DeviceView {
        DeviceView { buffers: self.buffers.push(data), ..self }
    }

    /// The name that the next data block gets.
    pub open spec fn next_buffer(self) -> BufferId {
        BufferId(self.buffers.len() as usize)
    }

    /// The state after making sure that `program` exists: it is created on
    /// first use and never again.
    pub open spec fn create_program(self, program: ShaderId) -> DeviceView {
        if self.programs.contains(program) {
            self
        } else {
            DeviceView { programs: self.programs.push(program), ..self }.emit(
                DeviceCommand::CreateProgram(program),
            )
        }
    }

    /// The state after handing `instances` to `program` and setting its
    /// projection and mode.
    pub open spec fn bind_program(
        self,
        program: ShaderId,
        projection: Projection,
        mode: i32,
        instances: UploadDataView,
    ) -> DeviceView {
        self.upload(instances).emit(
            DeviceCommand::BindProgramInstances { program, instances: self.next_buffer() },
        ).emit(DeviceCommand::BindProgramLocals { program, projection, mode })
    }

    /// The state after handing `instances` to `program`.
    pub open spec fn bind_program_instances(
        self,
        program: ShaderId,
        instances: UploadDataView,
    ) -> DeviceView {
        self.upload(instances).emit(
            DeviceCommand::BindProgramInstances { program, instances: self.next_buffer() },
        )
    }
}

/// Records the commands for the graphics device, and hands out the names of
/// the textures, framebuffer objects and data blocks that they mention.
/// Whoever owns the real device runs `commands` in order.
pub struct Device {
    pub commands: Vec<DeviceCommand>,
    pub buffers: Vec<UploadData>,
    pub textures: Vec<ImageFormat>,
    pub fbos: Vec<u32>,
    pub programs: Vec<ShaderId>,
    pub frame_id: FrameId,
    pub capabilities: DeviceCapabilities,
}

impl View for Device {
    type V = DeviceView;

    open spec fn view(&self) -> DeviceView {
        DeviceView {
            commands: self.commands@,
            buffers: self.buffers@.map_values(|b: UploadData| b@),
            textures: self.textures@,
            fbos: self.fbos@,
            programs: self.programs@,
            frame_id: self.frame_id,
            capabilities: self.capabilities,
        }
    }
}

impl Device {
    /// A recorder for a device with `capabilities` that has recorded
    /// nothing and created nothing.
    pub fn new(capabilities: DeviceCapabilities) -> (d: Device)
        ensures
            d@.commands.len() == 0,
            d@.buffers.len() == 0,
            d@.textures.len() == 0,
            d@.fbos.len() == 0,
            d@.programs.len() == 0,
            d@.frame_id == FrameId(0),
            d@.capabilities == capabilities,
    {
        Device {
            commands: Vec::new(),
            buffers: Vec::new(),
            textures: Vec::new(),
            fbos: Vec::new(),
            programs: Vec::new(),
            frame_id: FrameId(0),
            capabilities,
        }
    }

    /// The largest texture side that the device can allocate.
    pub fn max_texture_size(&self) -> (size: u32)
        ensures
            size == self@.capabilities.max_texture_size,
    {
        self.capabilities.max_texture_size
    }

    /// Records one command.
    pub fn emit(&mut self, command: DeviceCommand)
        ensures
            final(self)@ == old(self)@.emit(command),
    {
        self.commands.push(command);
    }

    /// Records one data block and returns its name.
    pub fn upload(&mut self, data: UploadData) -> (id: BufferId)
        ensures
            final(self)@ == old(self)@.upload(data@),
            id == old(self)@.next_buffer(),
    {
        let id = BufferId(self.buffers.len());
        self.buffers.push(data);
        assert(self@.buffers =~= old(self)@.buffers.push(data@));
        id
    }

    /// Draws the instances that `program` was handed last.
    pub fn draw(&mut self, program: ShaderId)
        ensures
            final(self)@ == old(self)@.emit(DeviceCommand::Draw(program)),
    {
        self.commands.push(DeviceCommand::Draw(program));
    }

    /// Clears the target that is bound: its colour and its depth where one
    /// is given, inside `rect` or everywhere.
    pub fn clear_target(&mut self, color: Option<ColorF>, depth: Option<F32Bits>, rect: Option<DeviceIntRect>)
        ensures
            final(self)@ == old(self)@.emit(DeviceCommand::ClearTarget { color, depth, rect }),
    {
        self.commands.push(DeviceCommand::ClearTarget { color, depth, rect });
    }

    /// Hands over the blocks of the part `rect` of the data cache.
    pub fn update_resource_cache(&mut self, rect: DeviceUintRect, gpu_data: Vec<GpuBlockData>)
        ensures
            final(self)@ == old(self)@.upload(UploadDataView::GpuBlocks(gpu_data@)).emit(
                DeviceCommand::UpdateResourceCache { rect, data: old(self)@.next_buffer() },
            ),
    {
        let data = self.upload(UploadData::GpuBlocks(gpu_data));
        self.commands.push(DeviceCommand::UpdateResourceCache { rect, data });
    }

    /// Hands over the data of the render tasks of a frame.
    pub fn update_render_tasks(&mut self, task_data: Vec<[F32Bits; 12]>)
        ensures
            final(self)@ == old(self)@.upload(UploadDataView::RenderTasks(task_data@)).emit(
                DeviceCommand::UpdateRenderTasks(old(self)@.next_buffer()),
            ),
    {
        let data = self.upload(UploadData::RenderTasks(task_data));
        self.commands.push(DeviceCommand::UpdateRenderTasks(data));
    }

    /// Hands over the clip-scroll nodes of a frame.
    pub fn update_node_data(&mut self, node_data: Vec<[F32Bits; 28]>)
        ensures
            final(self)@ == old(self)@.upload(UploadDataView::NodeData(node_data@)).emit(
                DeviceCommand::UpdateNodeData(old(self)@.next_buffer()),
            ),
    {
        let data = self.upload(UploadData::NodeData(node_data));
        self.commands.push(DeviceCommand::UpdateNodeData(data));
    }

    /// Hands over the local clip rectangles of a frame.
    pub fn update_local_rects(&mut self, local_rects: Vec<[F32Bits; 4]>)
        ensures
            final(self)@ == old(self)@.upload(UploadDataView::LocalRects(local_rects@)).emit(
                DeviceCommand::UpdateLocalRects(old(self)@.next_buffer()),
            ),
    {
        let data = self.upload(UploadData::LocalRects(local_rects));
        self.commands.push(DeviceCommand::UpdateLocalRects(data));
    }

    /// Shows what was drawn to the window.
    pub fn swap_buffers(&mut self)
        ensures
            final(self)@ == old(self)@.emit(DeviceCommand::SwapBuffers),
    {
        self.commands.push(DeviceCommand::SwapBuffers);
    }
}


impl Device {
    /// Makes sure that `program` exists on the device: the first request
    /// records its creation, later ones record nothing.
    pub fn create_program(&mut self, program: ShaderId)
        ensures
            final(self)@ == old(self)@.create_program(program),
    {
        let mut i: usize = 0;
        let mut found = false;
        while i < self.programs.len()
            invariant
                i <= self.programs@.len(),
                *self == *old(self),
                found == exists|k: int| 0 <= k < i && self.programs@[k] == program,
            decreases self.programs@.len() - i,
        {
            if self.programs[i] == program {
                found = true;
            }
            i += 1;
        }
        if !found {
            self.programs.push(program);
            self.commands.push(DeviceCommand::CreateProgram(program));
        }
    }
}


impl Texture {
    /// A texture that was created and has no storage yet.
    pub open spec fn blank(id: TextureId, format: ImageFormat) -> Texture {
        Texture {
            id,
            width: 0,
            height: 0,
            layer_count: 0,
            format,
            filter: TextureFilter::Nearest,
            render_target: None,
        }
    }

    /// The texture after its storage was set up anew.
    pub open spec fn initialized(
        self,
        width: u32,
        height: u32,
        filter: TextureFilter,
        render_target: Option<RenderTargetInfo>,
        layer_count: i32,
    ) -> Texture {
        Texture { id: self.id, format: self.format, width, height, layer_count, filter, render_target }
    }

    /// The texture after its storage was given up.
    pub open spec fn freed(self) -> Texture {
        Texture { width: 0, height: 0, layer_count: 0, ..self }
    }
}

impl DeviceView {
    /// The name that the next texture gets.
    pub open spec fn next_texture(self) -> TextureId {
        TextureId(self.textures.len() as usize)
    }

    /// The state after creating a texture of `format`.
    pub open spec fn create_texture(self, format: ImageFormat) -> DeviceView {
        DeviceView { textures: self.textures.push(format), ..self }.emit(
            DeviceCommand::CreateTexture { id: self.next_texture(), format },
        )
    }

    /// The state after setting up the storage of `texture`.
    pub open spec fn init_texture(self, texture: Texture) -> DeviceView {
        self.emit(
            DeviceCommand::InitTexture {
                id: texture.id,
                width: texture.width,
                height: texture.height,
                filter: texture.filter,
                render_target: texture.render_target,
                layer_count: texture.layer_count,
            },
        )
    }

    /// The name that the next framebuffer object gets.
    pub open spec fn next_fbo(self) -> FBOId {
        FBOId(self.fbos.len() as usize)
    }

    /// The state after wrapping the embedder's texture `texture` in a
    /// framebuffer object.
    pub open spec fn create_fbo(self, texture: u32) -> DeviceView {
        DeviceView { fbos: self.fbos.push(texture), ..self }.emit(
            DeviceCommand::CreateFbo { id: self.next_fbo(), texture },
        )
    }
}

impl Device {
    /// Creates a texture of `format` without storage.
    pub fn create_texture(&mut self, format: ImageFormat) -> (texture: Texture)
        ensures
            final(self)@ == old(self)@.create_texture(format),
            texture == Texture::blank(old(self)@.next_texture(), format),
    {
        let id = TextureId(self.textures.len());
        self.textures.push(format);
        self.commands.push(DeviceCommand::CreateTexture { id, format });
        Texture {
            id,
            width: 0,
            height: 0,
            layer_count: 0,
            format,
            filter: TextureFilter::Nearest,
            render_target: None,
        }
    }

    /// Sets up the storage of `texture` anew.
    pub fn init_texture(
        &mut self,
        texture: &mut Texture,
        width: u32,
        height: u32,
        filter: TextureFilter,
        render_target: Option<RenderTargetInfo>,
        layer_count: i32,
    )
        ensures
            *final(texture) == old(texture).initialized(
                width,
                height,
                filter,
                render_target,
                layer_count,
            ),
            final(self)@ == old(self)@.init_texture(*final(texture)),
    {
        texture.width = width;
        texture.height = height;
        texture.filter = filter;
        texture.render_target = render_target;
        texture.layer_count = layer_count;
        self.commands.push(
            DeviceCommand::InitTexture {
                id: texture.id,
                width,
                height,
                filter,
                render_target,
                layer_count,
            },
        );
    }

    /// Gives up the storage of `texture` and keeps its name.
    pub fn free_texture_storage(&mut self, texture: &mut Texture)
        ensures
            *final(texture) == old(texture).freed(),
            final(self)@ == old(self)@.emit(DeviceCommand::FreeTextureStorage(old(texture).id)),
    {
        texture.width = 0;
        texture.height = 0;
        texture.layer_count = 0;
        self.commands.push(DeviceCommand::FreeTextureStorage(texture.id));
    }

    /// Destroys `texture`.
    pub fn delete_texture(&mut self, texture: Texture)
        ensures
            final(self)@ == old(self)@.emit(DeviceCommand::DeleteTexture(texture.id)),
    {
        self.commands.push(DeviceCommand::DeleteTexture(texture.id));
    }

    /// Wraps the embedder's texture `texture` in a framebuffer object.
    pub fn create_fbo_for_external_texture(&mut self, texture: u32) -> (id: FBOId)
        ensures
            final(self)@ == old(self)@.create_fbo(texture),
            id == old(self)@.next_fbo(),
    {
        let id = FBOId(self.fbos.len());
        self.fbos.push(texture);
        self.commands.push(DeviceCommand::CreateFbo { id, texture });
        id
    }

    /// Hands `instances` to `program` and sets its projection and mode.
    pub fn bind_program(
        &mut self,
        program: ShaderId,
        projection: Projection,
        mode: i32,
        instances: UploadData,
    )
        ensures
            final(self)@ == old(self)@.bind_program(program, projection, mode, instances@),
    {
        let id = self.upload(instances);
        self.emit(DeviceCommand::BindProgramInstances { program, instances: id });
        self.emit(DeviceCommand::BindProgramLocals { program, projection, mode });
    }

    /// Hands `instances` to `program`.
    pub fn bind_program_instances(&mut self, program: ShaderId, instances: UploadData)
        ensures
            final(self)@ == old(self)@.bind_program_instances(program, instances@),
    {
        let id = self.upload(instances);
        self.emit(DeviceCommand::BindProgramInstances { program, instances: id });
    }
}


impl Device {
    /// Binds a device texture to a binding point.
    pub fn bind_texture(&mut self, slot: TextureSlot, texture: &Texture)
        ensures
            final(self)@ == old(self)@.emit(
                DeviceCommand::BindTexture { slot, texture: texture.id },
            ),
    {
        self.commands.push(DeviceCommand::BindTexture { slot, texture: texture.id });
    }

    /// Binds a texture of the embedder to a binding point.
    pub fn bind_external_texture(&mut self, slot: TextureSlot, texture: &ExternalTexture)
        ensures
            final(self)@ == old(self)@.emit(
                DeviceCommand::BindExternalTexture { slot, texture: *texture },
            ),
    {
        self.commands.push(DeviceCommand::BindExternalTexture { slot, texture: *texture });
    }
}


/// How often vertex data changes.
#[derive(Clone, Copy, Debug, PartialEq, Eq, Structural)]
pub enum VertexUsageHint {
    Static,
    Dynamic,
    Stream,
}

/// How texture data reaches the device.
#[derive(Clone, Copy, Debug, PartialEq, Eq, Structural)]
pub enum UploadMethod {
    /// Straight from the renderer's memory.
    Immediate,
    /// Through a pixel buffer of the device.
    PixelBuffer(VertexUsageHint),
}

/// Why a shader program could not be built: the name of the shader and
/// what the compiler or linker said.
#[derive(Debug, PartialEq, Eq)]
pub enum ShaderError {
    Compilation(String, String),
    Link(String, String),
}

/// What the renderer asks of a device before it uses it.
#[derive(Clone, Copy, Debug, PartialEq, Eq, Structural)]
pub struct DeviceCapabilities {
    /// The largest texture side that the device can allocate.
    pub max_texture_size: u32,
    /// The device can blend with two outputs of the fragment stage.
    pub supports_dual_source_blending: bool,
}

/// A vertex of the quad that every instance is drawn with: `x`, `y`, and
/// zero for depth.
#[derive(Clone, Copy, Debug, PartialEq, Eq)]
pub struct Vertex {
    pub a_position: [F32Bits; 3],
}

/// The unit quad as two triangles that share the diagonal from the right
/// of the top edge to the left of the bottom edge.
pub fn quad() -> (vertices: [Vertex; 6])
    ensures
        vertices[0].a_position == [F32Bits(0), F32Bits(0), F32Bits(0)],
        vertices[1].a_position == [F32Bits(0x3f80_0000), F32Bits(0), F32Bits(0)],
        vertices[2].a_position == [F32Bits(0), F32Bits(0x3f80_0000), F32Bits(0)],
        vertices[3] == vertices[2],
        vertices[4] == vertices[1],
        vertices[5].a_position == [F32Bits(0x3f80_0000), F32Bits(0x3f80_0000), F32Bits(0)],
{
    let zero = F32Bits::zero();
    let one = F32Bits::one();
    [
        Vertex { a_position: [zero, zero, zero] },
        Vertex { a_position: [one, zero, zero] },
        Vertex { a_position: [zero, one, zero] },
        Vertex { a_position: [zero, one, zero] },
        Vertex { a_position: [one, zero, zero] },
        Vertex { a_position: [one, one, zero] },
    ]
}

/// The bookkeeping of one instance buffer.
#[derive(Clone, Copy, Debug, PartialEq, Eq, Structural)]
pub struct InstanceBuffer {
    /// The number of instances that a draw covers.
    pub size: usize,
    /// Where the next instances are written.
    pub offset: usize,
}

impl InstanceBuffer {
    /// The bookkeeping of a buffer that nothing was written to.
    pub fn new() -> (buffer: InstanceBuffer)
        ensures
            buffer.size == 0,
            buffer.offset == 0,
    {
        InstanceBuffer { size: 0, offset: 0 }
    }

    /// Starts over at the beginning of the buffer; one instance stays
    /// covered.
    pub fn reset(&mut self)
        ensures
            final(self).size == 1,
            final(self).offset == 0,
    {
        self.size = 1;
        self.offset = 0;
    }
}

impl DeviceView {
    /// The state after frame `frame_id` ended: the next frame has the next
    /// number.
    pub open spec fn end_frame(self, frame_id: FrameId) -> DeviceView {
        DeviceView { frame_id: FrameId((frame_id.0 + 1) as usize), ..self }.emit(
            DeviceCommand::EndFrame,
        )
    }
}

impl Device {
    /// Begins a frame and returns its number.
    pub fn begin_frame(&mut self) -> (id: FrameId)
        ensures
            id == old(self)@.frame_id,
            final(self)@ == old(self)@.emit(DeviceCommand::BeginFrame),
    {
        self.commands.push(DeviceCommand::BeginFrame);
        self.frame_id
    }

    /// Ends frame `frame_id`, the frame that was begun last.
    pub fn end_frame(&mut self, frame_id: FrameId)
        requires
            frame_id.0 < usize::MAX,
        ensures
            final(self)@ == old(self)@.end_frame(frame_id),
    {
        self.frame_id = FrameId(frame_id.0 + 1);
        self.commands.push(DeviceCommand::EndFrame);
    }
}


/// The layout of a data texture that vertex shaders read, and of the
/// buffer that it is filled from.
#[derive(Clone, Copy, Debug, PartialEq, Eq, Structural)]
pub struct VertexDataImage {
    /// Bytes of one record of data.
    pub data_stride: usize,
    /// Components of one texel.
    pub image_stride: usize,
    /// Bytes of one component.
    pub mem_stride: usize,
    pub image_width: u32,
    pub image_height: u32,
}

/// The part of the upload buffer that one upload copies to the texture.
#[derive(Clone, Copy, Debug, PartialEq, Eq, Structural)]
pub struct UploadRegion {
    pub buffer_offset: u64,
    pub buffer_width: u64,
    pub buffer_height: u64,
    /// Where in the texture the copy begins.
    pub image_offset: DeviceUintPoint,
}

impl VertexDataImage {
    /// The layout of a texture of four-component texels of four bytes per
    /// component.
    pub fn create(data_stride: usize, image_width: u32, image_height: u32) -> (image: VertexDataImage)
        ensures
            image == (VertexDataImage {
                data_stride,
                image_stride: 4,
                mem_stride: 4,
                image_width,
                image_height,
            }),
    {
        VertexDataImage { data_stride, image_stride: 4, mem_stride: 4, image_width, image_height }
    }

    /// The bytes of `data_len` records.
    pub open spec fn data_bytes(self, data_len: int) -> int {
        data_len * self.data_stride
    }

    /// The rows of the texture that `data_len` records need.
    pub open spec fn needed_height(self, data_len: int) -> int {
        self.data_bytes(data_len) / (self.image_width * self.image_stride) + 1
    }

    /// `data_len` records can be uploaded to row `row`: the texture has
    /// texels, the records fit its height, and the offsets can be counted.
    pub open spec fn can_upload(self, row: u32, data_len: int) -> bool {
        &&& self.image_width * self.image_stride > 0
        &&& self.image_width * self.image_stride <= usize::MAX
        &&& self.data_bytes(data_len) <= u32::MAX
        &&& row * self.data_bytes(data_len) <= u32::MAX
        &&& self.needed_height(data_len) <= self.image_height
    }

    /// Whether `data_len` records can be uploaded to row `row`.
    pub fn check_can_upload(&self, row: u32, data_len: usize) -> (b: bool)
        ensures
            b == self.can_upload(row, data_len as int),
    {
        if self.image_width == 0 || self.image_stride == 0 {
            assert(self.image_width * self.image_stride == 0) by (nonlinear_arith)
                requires
                    self.image_width == 0 || self.image_stride == 0,
            ;
            return false;
        }
        assert(self.image_width * self.image_stride > 0) by (nonlinear_arith)
            requires
                self.image_width > 0,
                self.image_stride > 0,
        ;
        let texel_row = match (self.image_width as usize).checked_mul(self.image_stride) {
            Some(v) => v,
            None => {
                return false;
            },
        };
        let bytes = match data_len.checked_mul(self.data_stride) {
            Some(v) => v,
            None => {
                return false;
            },
        };
        if bytes > 0xffff_ffff {
            return false;
        }
        assert(row * bytes <= 0xffff_ffff * 0xffff_ffff) by (nonlinear_arith)
            requires
                0 <= row <= 0xffff_ffff,
                0 <= bytes <= 0xffff_ffff,
        ;
        let offset: u64 = row as u64 * bytes as u64;
        if offset > 0xffff_ffff {
            return false;
        }
        assert(bytes / texel_row <= bytes) by (nonlinear_arith)
            requires
                0 <= bytes,
                1 <= texel_row,
        ;
        (bytes / texel_row) as u64 + 1 <= self.image_height as u64
    }

    /// The copy that brings `data_len` records to the texture at
    /// `image_offset`: it starts the row of `image_offset` times the bytes
    /// of the records into the upload buffer, is as wide as the records
    /// have bytes and as tall as the rows that they need.
    pub fn update_buffer_and_submit_upload(&self, image_offset: DeviceUintPoint, data_len: usize) -> (region: UploadRegion)
        requires
            self.can_upload(image_offset.y, data_len as int),
        ensures
            region.buffer_width == self.data_bytes(data_len as int),
            region.buffer_height == self.needed_height(data_len as int),
            region.buffer_offset == image_offset.y * self.data_bytes(data_len as int),
            region.image_offset == image_offset,
    {
        let bytes = data_len * self.data_stride;
        let texel_row = self.image_width as usize * self.image_stride;
        let needed_height = bytes / texel_row + 1;
        assert(image_offset.y * bytes <= u32::MAX);
        UploadRegion {
            buffer_offset: image_offset.y as u64 * bytes as u64,
            buffer_width: bytes as u64,
            buffer_height: needed_height as u64,
            image_offset,
        }
    }
}

/// The bytes of a buffer of `data_len` records of `data_stride` bytes.
pub fn buffer_size(data_stride: usize, data_len: usize) -> (size: Option<usize>)
    ensures
        match size {
            Some(s) => s == data_stride * data_len,
            None => data_stride * data_len > usize::MAX,
        },
{
    data_stride.checked_mul(data_len)
}

/// The framebuffer that is drawn to after framebuffer `current` of
/// `count` was presented: the next one, around the ring.
pub fn next_framebuffer(current: usize, count: usize) -> (next: usize)
    requires
        count > 0,
        current < count,
    ensures
        next == (current + 1) % (count as int),
        next < count,
{
    proof {
        if current + 1 == count {
            vstd::arithmetic::div_mod::lemma_mod_self_0(count as int);
        } else {
            vstd::arithmetic::div_mod::lemma_small_mod((current + 1) as nat, count as nat);
        }
    }
    if current + 1 == count {
        0
    } else {
        current + 1
    }
}

} // verus!
