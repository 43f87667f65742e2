//! Frames, their passes and the targets of each pass.

use vstd::prelude::*;
use crate::api::{ColorF, DocumentLayer, ExternalImageData, F32Bits, ImageFormat, PipelineId};
use crate::batch::{BatchList, BatchListView};
use crate::device::Texture;
use crate::gpu_cache::{GpuCacheUpdateList, UpdateListView};
use crate::gpu_types::{BlurDirection, BlurInstance, ClipMaskInstance, GpuCacheAddress, PrimitiveInstance, RenderTaskAddress};
use crate::internal_types::SourceTexture;
use crate::render_task::{is_dag, lemma_pass_below_count, pass_count, task_pass, RenderTargetIndex, RenderTargetKind, RenderTask, RenderTaskId, RenderTaskKind, RenderTaskData, RenderTaskLocation, RenderTaskTree};
use crate::units::{rect, DeviceIntPoint, DeviceIntRect, DeviceIntSize, DeviceUintPoint, DeviceUintRect, DeviceUintSize};

verus! {

/// A copy that scales the output of one task into the rectangle of another.
#[derive(Clone, Copy, Debug, PartialEq, Eq, Structural)]
pub struct ScalingInfo {
    pub src_task_id: RenderTaskId,
    pub dest_task_id: RenderTaskId,
}

/// Where a blit reads from.
#[derive(Clone, Copy, Debug, PartialEq, Eq, Structural)]
pub enum BlitJobSource {
    /// A layer of a texture, and the rectangle to read.
    Texture(SourceTexture, i32, DeviceIntRect),
    /// The output of a task of the previous pass.
    RenderTask(RenderTaskId),
}

/// One copy into the target that is being drawn.
#[derive(Clone, Copy, Debug, PartialEq, Eq, Structural)]
pub struct BlitJob {
    pub source: BlitJobSource,
    pub target_rect: DeviceIntRect,
}

/// A request to hand the output of a task to the embedder.
#[derive(Clone, Copy, Debug, PartialEq, Eq, Structural)]
pub struct FrameOutput {
    pub task_id: RenderTaskId,
    pub pipeline_id: PipelineId,
}

/// The draws of one colour target that go through batches.
#[derive(Debug, PartialEq, Eq)]
pub struct AlphaBatcher {
    pub batch_list: BatchList,
    /// Text runs to draw into the target before anything else, by the
    /// texture that holds their glyphs.
    pub text_run_cache_prims: Vec<(SourceTexture, Vec<PrimitiveInstance>)>,
}

/// The clip sources of one coverage target.
#[derive(Debug, PartialEq, Eq)]
pub struct ClipBatcher {
    pub rectangles: Vec<ClipMaskInstance>,
    /// Image masks, by the texture that holds the mask.
    pub images: Vec<(SourceTexture, Vec<ClipMaskInstance>)>,
    pub border_clears: Vec<ClipMaskInstance>,
    pub borders: Vec<ClipMaskInstance>,
}

/// One layer of four-channel colour.
#[derive(Debug, PartialEq, Eq)]
pub struct ColorRenderTarget {
    pub alpha_batcher: AlphaBatcher,
    pub vertical_blurs: Vec<BlurInstance>,
    pub horizontal_blurs: Vec<BlurInstance>,
    pub readbacks: Vec<DeviceIntRect>,
    pub scalings: Vec<ScalingInfo>,
    pub blits: Vec<BlitJob>,
    pub outputs: Vec<FrameOutput>,
    /// The part of the layer that tasks were placed in.
    pub used_rect: DeviceIntRect,
}

/// One layer of single-channel coverage.
#[derive(Debug, PartialEq, Eq)]
pub struct AlphaRenderTarget {
    pub clip_batcher: ClipBatcher,
    pub brush_mask_corners: Vec<PrimitiveInstance>,
    pub brush_mask_rounded_rects: Vec<PrimitiveInstance>,
    pub vertical_blurs: Vec<BlurInstance>,
    pub horizontal_blurs: Vec<BlurInstance>,
    pub scalings: Vec<ScalingInfo>,
    /// Tasks whose rectangle starts out fully transparent.
    pub zero_clears: Vec<RenderTaskId>,
    /// The part of the layer that tasks were placed in.
    pub used_rect: DeviceIntRect,
}

/// Draws into one layer of a texture of the texture cache.
#[derive(Debug, PartialEq, Eq)]
pub struct TextureCacheRenderTarget {
    pub blits: Vec<BlitJob>,
    pub horizontal_blurs: Vec<BlurInstance>,
}

/// What the renderer asks of every kind of target.
pub trait RenderTarget {
    /// Whether drawing the target uses the depth buffer.
    spec fn spec_needs_depth(&self) -> bool;

    /// Whether drawing the target uses the depth buffer.
    fn needs_depth(&self) -> (b: bool)
        ensures
            b == self.spec_needs_depth(),
    ;

    /// The part of the layer that tasks were placed in.
    spec fn spec_used_rect(&self) -> DeviceIntRect;

    /// The part of the layer that tasks were placed in.
    fn used_rect(&self) -> (r: DeviceIntRect)
        ensures
            r == self.spec_used_rect(),
    ;
}

impl RenderTarget for ColorRenderTarget {
    /// A colour target uses depth exactly when it has opaque batches.
    open spec fn spec_needs_depth(&self) -> bool {
        self.alpha_batcher.batch_list.opaque_batch_list.batches@.len() > 0
    }

    fn needs_depth(&self) -> (b: bool) {
        self.alpha_batcher.batch_list.opaque_batch_list.batches.len() > 0
    }

    open spec fn spec_used_rect(&self) -> DeviceIntRect {
        self.used_rect
    }

    fn used_rect(&self) -> (r: DeviceIntRect) {
        self.used_rect
    }
}

impl RenderTarget for AlphaRenderTarget {
    /// A coverage target never uses depth.
    open spec fn spec_needs_depth(&self) -> bool {
        false
    }

    fn needs_depth(&self) -> (b: bool) {
        false
    }

    open spec fn spec_used_rect(&self) -> DeviceIntRect {
        self.used_rect
    }

    fn used_rect(&self) -> (r: DeviceIntRect) {
        self.used_rect
    }
}

/// The layers of one kind that a pass draws: same size, same format, one
/// texture with one layer per target.
#[derive(Debug, PartialEq, Eq)]
pub struct RenderTargetList<T> {
    pub format: ImageFormat,
    /// The size that holds every target of the list.
    pub max_size: DeviceUintSize,
    pub targets: Vec<T>,
    /// The texture that the targets are drawn to, once one was found.
    pub texture: Option<Texture>,
}

/// What a pass draws to.
#[derive(Debug, PartialEq, Eq)]
pub enum RenderPassKind {
    /// The window. This is the last pass of a frame.
    MainFramebuffer(ColorRenderTarget),
    /// Pooled textures, and layers of the texture cache.
    OffScreen {
        alpha: RenderTargetList<AlphaRenderTarget>,
        color: RenderTargetList<ColorRenderTarget>,
        texture_cache: Vec<((SourceTexture, i32), TextureCacheRenderTarget)>,
    },
}

/// Render tasks that run together once earlier passes are done.
#[derive(Debug, PartialEq, Eq)]
pub struct RenderPass {
    pub kind: RenderPassKind,
    pub tasks: Vec<RenderTaskId>,
}

/// An image whose place in its texture is only known at render time.
#[derive(Clone, Copy, Debug, PartialEq, Eq, Structural)]
pub struct DeferredResolve {
    /// Where the image's UV rectangle goes in the GPU cache.
    pub address: GpuCacheAddress,
    /// The external image; a deferred resolve without one is a bug of the
    /// frame builder.
    pub external_image: Option<ExternalImageData>,
}

/// What shaders read for one clip-scroll node: twenty-eight numbers.
#[derive(Clone, Copy, Debug, PartialEq, Eq)]
pub struct ClipScrollNodeData {
    /// The transform of the node, row by row.
    pub transform: [F32Bits; 16],
    /// The local clip rectangle: origin, then size.
    pub local_clip_rect: [F32Bits; 4],
    pub reference_frame_relative_scroll_offset: [F32Bits; 2],
    pub scroll_offset: [F32Bits; 2],
    pub transform_kind: F32Bits,
    pub padding: [F32Bits; 3],
}

/// A local clip rectangle of a clip chain: origin and size.
#[derive(Clone, Copy, Debug, PartialEq, Eq, Structural)]
pub struct LayerRect {
    pub x: F32Bits,
    pub y: F32Bits,
    pub width: F32Bits,
    pub height: F32Bits,
}

/// Everything the renderer needs to draw one document once.
#[derive(Debug, PartialEq, Eq)]
pub struct Frame {
    pub window_size: DeviceUintSize,
    /// The part of the window that the document covers.
    pub inner_rect: DeviceUintRect,
    pub background_color: Option<ColorF>,
    pub layer: DocumentLayer,
    pub device_pixel_ratio: F32Bits,
    pub passes: Vec<RenderPass>,
    pub node_data: Vec<ClipScrollNodeData>,
    pub clip_chain_local_clip_rects: Vec<LayerRect>,
    pub render_tasks: RenderTaskTree,
    pub deferred_resolves: Vec<DeferredResolve>,
    /// The changes to the GPU cache; taken by the renderer when the frame
    /// arrives.
    pub gpu_cache_updates: Option<GpuCacheUpdateList>,
    /// The frame was drawn at least once, so that its off-screen results
    /// that live in the texture cache are there already.
    pub has_been_rendered: bool,
    /// Some task of the frame draws into the texture cache.
    pub has_texture_cache_tasks: bool,
}

/// What a [`Frame`] holds, as mathematical values.
pub struct FrameView {
    pub window_size: DeviceUintSize,
    pub inner_rect: DeviceUintRect,
    pub background_color: Option<ColorF>,
    pub layer: DocumentLayer,
    pub device_pixel_ratio: F32Bits,
    pub passes: Seq<RenderPass>,
    pub node_data: Seq<ClipScrollNodeData>,
    pub clip_chain_local_clip_rects: Seq<LayerRect>,
    pub tasks: Seq<RenderTask>,
    pub task_data: Seq<RenderTaskData>,
    pub deferred_resolves: Seq<DeferredResolve>,
    pub gpu_cache_updates: Option<UpdateListView>,
    pub has_been_rendered: bool,
    pub has_texture_cache_tasks: bool,
}

impl View for Frame {
    type V = FrameView;

    open spec fn view(&self) -> FrameView {
        FrameView {
            window_size: self.window_size,
            inner_rect: self.inner_rect,
            background_color: self.background_color,
            layer: self.layer,
            device_pixel_ratio: self.device_pixel_ratio,
            passes: self.passes@,
            node_data: self.node_data@,
            clip_chain_local_clip_rects: self.clip_chain_local_clip_rects@,
            tasks: self.render_tasks.tasks@,
            task_data: self.render_tasks.task_data@,
            deferred_resolves: self.deferred_resolves@,
            gpu_cache_updates: match self.gpu_cache_updates {
                Some(list) => Some(list@),
                None => None,
            },
            has_been_rendered: self.has_been_rendered,
            has_texture_cache_tasks: self.has_texture_cache_tasks,
        }
    }
}

impl Frame {
    /// The frame must be drawn even when a newer one replaces it, because
    /// later frames rely on what it leaves in the texture cache.
    pub open spec fn spec_must_be_drawn(&self) -> bool {
        self.has_texture_cache_tasks && !self.has_been_rendered
    }

    pub fn must_be_drawn(&self) -> (b: bool)
        ensures
            b == self.spec_must_be_drawn(),
    {
        self.has_texture_cache_tasks && !self.has_been_rendered
    }
}


/// Some target among `targets` uses the depth buffer.
pub open spec fn any_needs_depth<T: RenderTarget>(targets: Seq<T>) -> bool {
    exists|i: int| 0 <= i < targets.len() && (#[trigger] targets[i]).spec_needs_depth()
}

impl<T: RenderTarget> RenderTargetList<T> {
    /// A list without targets and without a texture.
    pub fn new(format: ImageFormat) -> (list: RenderTargetList<T>)
        ensures
            list.format == format,
            list.max_size == (DeviceUintSize { width: 0, height: 0 }),
            list.targets@.len() == 0,
            list.texture is None,
    {
        RenderTargetList {
            format,
            max_size: DeviceUintSize { width: 0, height: 0 },
            targets: Vec::new(),
            texture: None,
        }
    }

    /// Some target of the list uses the depth buffer.
    pub open spec fn spec_needs_depth(&self) -> bool {
        any_needs_depth(self.targets@)
    }

    /// Some target of the list uses the depth buffer.
    pub fn needs_depth(&self) -> (b: bool)
        ensures
            b == self.spec_needs_depth(),
    {
        let mut i: usize = 0;
        while i < self.targets.len()
            invariant
                i <= self.targets@.len(),
                forall|k: int| 0 <= k < i ==> !(#[trigger] self.targets@[k]).spec_needs_depth(),
            decreases self.targets@.len() - i,
        {
            if self.targets[i].needs_depth() {
                return true;
            }
            i += 1;
        }
        false
    }

    /// The list can be drawn: it has a texture with a depth buffer if it
    /// needs one, or it has no targets.
    pub open spec fn is_ready(&self) -> bool {
        match self.texture {
            Some(t) => self.spec_needs_depth() ==> t.spec_has_depth(),
            None => self.targets@.len() == 0,
        }
    }

    /// Whether the list can be drawn.
    pub fn check_ready(&self) -> (b: bool)
        ensures
            b == self.is_ready(),
    {
        match &self.texture {
            Some(t) => !self.needs_depth() || t.has_depth(),
            None => self.targets.len() == 0,
        }
    }
}


impl ColorRenderTarget {
    /// The layer draws nothing: it holds no batch, no blur, no readback,
    /// no scaling, no blit and no output, and nothing was placed in it.
    pub open spec fn draws_nothing(self) -> bool {
        &&& self.alpha_batcher.batch_list@ == BatchListView::empty()
        &&& self.alpha_batcher.text_run_cache_prims@.len() == 0
        &&& self.vertical_blurs@.len() == 0
        &&& self.horizontal_blurs@.len() == 0
        &&& self.readbacks@.len() == 0
        &&& self.scalings@.len() == 0
        &&& self.blits@.len() == 0
        &&& self.outputs@.len() == 0
        &&& self.used_rect == (DeviceIntRect {
            origin: DeviceIntPoint { x: 0, y: 0 },
            size: DeviceIntSize { width: 0, height: 0 },
        })
    }

    /// The layer holds the given blurs and nothing else.
    pub open spec fn holds_blurs(self, vertical: Seq<BlurInstance>, horizontal: Seq<BlurInstance>) -> bool {
        &&& self.alpha_batcher.batch_list@ == BatchListView::empty()
        &&& self.alpha_batcher.text_run_cache_prims@.len() == 0
        &&& self.vertical_blurs@ == vertical
        &&& self.horizontal_blurs@ == horizontal
        &&& self.readbacks@.len() == 0
        &&& self.scalings@.len() == 0
        &&& self.blits@.len() == 0
        &&& self.outputs@.len() == 0
        &&& self.used_rect == (DeviceIntRect {
            origin: DeviceIntPoint { x: 0, y: 0 },
            size: DeviceIntSize { width: 0, height: 0 },
        })
    }

    /// A layer that draws nothing.
    pub fn new() -> (target: ColorRenderTarget)
        ensures
            target.draws_nothing(),
            !target.spec_needs_depth(),
    {
        ColorRenderTarget {
            alpha_batcher: AlphaBatcher {
                batch_list: BatchList::new(),
                text_run_cache_prims: Vec::new(),
            },
            vertical_blurs: Vec::new(),
            horizontal_blurs: Vec::new(),
            readbacks: Vec::new(),
            scalings: Vec::new(),
            blits: Vec::new(),
            outputs: Vec::new(),
            used_rect: rect(0, 0, 0, 0),
        }
    }
}

impl AlphaRenderTarget {
    /// The layer draws nothing: it holds no clip, no mask brush, no blur,
    /// no scaling and no clear, and nothing was placed in it.
    pub open spec fn draws_nothing(self) -> bool {
        &&& self.clip_batcher.rectangles@.len() == 0
        &&& self.clip_batcher.images@.len() == 0
        &&& self.clip_batcher.border_clears@.len() == 0
        &&& self.clip_batcher.borders@.len() == 0
        &&& self.brush_mask_corners@.len() == 0
        &&& self.brush_mask_rounded_rects@.len() == 0
        &&& self.vertical_blurs@.len() == 0
        &&& self.horizontal_blurs@.len() == 0
        &&& self.scalings@.len() == 0
        &&& self.zero_clears@.len() == 0
        &&& self.used_rect == (DeviceIntRect {
            origin: DeviceIntPoint { x: 0, y: 0 },
            size: DeviceIntSize { width: 0, height: 0 },
        })
    }

    /// The layer holds the given blurs and nothing else.
    pub open spec fn holds_blurs(self, vertical: Seq<BlurInstance>, horizontal: Seq<BlurInstance>) -> bool {
        &&& self.clip_batcher.rectangles@.len() == 0
        &&& self.clip_batcher.images@.len() == 0
        &&& self.clip_batcher.border_clears@.len() == 0
        &&& self.clip_batcher.borders@.len() == 0
        &&& self.brush_mask_corners@.len() == 0
        &&& self.brush_mask_rounded_rects@.len() == 0
        &&& self.vertical_blurs@ == vertical
        &&& self.horizontal_blurs@ == horizontal
        &&& self.scalings@.len() == 0
        &&& self.zero_clears@.len() == 0
        &&& self.used_rect == (DeviceIntRect {
            origin: DeviceIntPoint { x: 0, y: 0 },
            size: DeviceIntSize { width: 0, height: 0 },
        })
    }

    /// A layer that draws nothing.
    pub fn new() -> (target: AlphaRenderTarget)
        ensures
            target.draws_nothing(),
    {
        AlphaRenderTarget {
            clip_batcher: ClipBatcher {
                rectangles: Vec::new(),
                images: Vec::new(),
                border_clears: Vec::new(),
                borders: Vec::new(),
            },
            brush_mask_corners: Vec::new(),
            brush_mask_rounded_rects: Vec::new(),
            vertical_blurs: Vec::new(),
            horizontal_blurs: Vec::new(),
            scalings: Vec::new(),
            zero_clears: Vec::new(),
            used_rect: rect(0, 0, 0, 0),
        }
    }
}

/// How far the layers of one target list are filled. Tasks are stacked
/// top to bottom in the order in which they come; a task that does not fit
/// below the last one opens the next layer.
#[derive(Clone, Copy, Debug, PartialEq, Eq, Structural)]
pub struct TargetCursor {
    /// The number of layers opened so far.
    pub layers: usize,
    /// The first free row of the last layer.
    pub y: u32,
    /// The widest task so far.
    pub max_width: u32,
    /// The lowest row, over all layers, that a task reaches.
    pub max_height: u32,
}

impl TargetCursor {
    /// Nothing was placed.
    pub open spec fn start() -> TargetCursor {
        TargetCursor { layers: 0, y: 0, max_width: 0, max_height: 0 }
    }

    /// A task of `size` opens a layer: there is none yet, or the task
    /// does not fit below the last one.
    pub open spec fn opens_layer(self, size: DeviceUintSize, atlas: DeviceUintSize) -> bool {
        self.layers == 0 || self.y + size.height > atlas.height
    }

    /// Where a task of `size` goes.
    pub open spec fn placement(self, size: DeviceUintSize, atlas: DeviceUintSize) -> RenderTaskLocation {
        if self.opens_layer(size, atlas) {
            RenderTaskLocation {
                origin: DeviceUintPoint { x: 0, y: 0 },
                target_index: RenderTargetIndex(self.layers),
            }
        } else {
            RenderTaskLocation {
                origin: DeviceUintPoint { x: 0, y: self.y },
                target_index: RenderTargetIndex((self.layers - 1) as usize),
            }
        }
    }

    /// The cursor after a task of `size` was placed.
    pub open spec fn advance(self, size: DeviceUintSize, atlas: DeviceUintSize) -> TargetCursor {
        let y = if self.opens_layer(size, atlas) {
            size.height
        } else {
            (self.y + size.height) as u32
        };
        TargetCursor {
            layers: if self.opens_layer(size, atlas) {
                (self.layers + 1) as usize
            } else {
                self.layers
            },
            y,
            max_width: if size.width > self.max_width {
                size.width
            } else {
                self.max_width
            },
            max_height: if y > self.max_height {
                y
            } else {
                self.max_height
            },
        }
    }
}

/// Task `t` draws into the list of `kind` of the off-screen pass `pass`.
pub open spec fn task_in_list(tasks: Seq<RenderTask>, t: int, pass: int, kind: RenderTargetKind) -> bool {
    task_pass(tasks, t as nat) == pass && tasks[t].kind.spec_target_kind() == kind
}

/// The cursor of the list of `kind` of pass `pass` after the first `n`
/// tasks were looked at.
pub open spec fn cursor_at(
    tasks: Seq<RenderTask>,
    atlas: DeviceUintSize,
    pass: int,
    kind: RenderTargetKind,
    n: nat,
) -> TargetCursor
    decreases n,
{
    if n == 0 {
        TargetCursor::start()
    } else {
        let before = cursor_at(tasks, atlas, pass, kind, (n - 1) as nat);
        if task_in_list(tasks, n - 1, pass, kind) {
            before.advance(tasks[n - 1].size, atlas)
        } else {
            before
        }
    }
}

/// The tasks among the first `n` that run in pass `pass`, in order.
pub open spec fn tasks_in_pass(tasks: Seq<RenderTask>, pass: int, n: nat) -> Seq<RenderTaskId>
    decreases n,
{
    if n == 0 {
        Seq::empty()
    } else {
        let before = tasks_in_pass(tasks, pass, (n - 1) as nat);
        if task_pass(tasks, (n - 1) as nat) == pass {
            before.push(RenderTaskId((n - 1) as usize))
        } else {
            before
        }
    }
}

/// Every task fits one layer of `atlas`.
pub open spec fn tasks_fit(tasks: Seq<RenderTask>, atlas: DeviceUintSize) -> bool {
    forall|t: int|
        0 <= t < tasks.len() ==> (#[trigger] tasks[t]).size.width <= atlas.width
            && tasks[t].size.height <= atlas.height
}

/// Where task `t` is placed: tasks of the last pass draw to the window,
/// at its origin; any other task goes where the cursor of its list stands
/// when its turn comes.
pub open spec fn task_location(tasks: Seq<RenderTask>, atlas: DeviceUintSize, t: int) -> RenderTaskLocation {
    if task_pass(tasks, t as nat) + 1 == pass_count(tasks, tasks.len()) {
        RenderTaskLocation {
            origin: DeviceUintPoint { x: 0, y: 0 },
            target_index: RenderTargetIndex(0),
        }
    } else {
        cursor_at(
            tasks,
            atlas,
            task_pass(tasks, t as nat) as int,
            tasks[t].kind.spec_target_kind(),
            t as nat,
        ).placement(tasks[t].size, atlas)
    }
}

/// A cursor never passes the bottom of a layer, and its records stay
/// inside the atlas.
pub proof fn lemma_cursor_bounds(
    tasks: Seq<RenderTask>,
    atlas: DeviceUintSize,
    pass: int,
    kind: RenderTargetKind,
    n: nat,
)
    requires
        tasks_fit(tasks, atlas),
        n <= tasks.len(),
    ensures
        cursor_at(tasks, atlas, pass, kind, n).y <= atlas.height,
        cursor_at(tasks, atlas, pass, kind, n).max_height <= atlas.height,
        cursor_at(tasks, atlas, pass, kind, n).max_width <= atlas.width,
        cursor_at(tasks, atlas, pass, kind, n).layers <= n,
        cursor_at(tasks, atlas, pass, kind, n).y <= cursor_at(tasks, atlas, pass, kind, n).max_height,
    decreases n,
{
    if n > 0 {
        lemma_cursor_bounds(tasks, atlas, pass, kind, (n - 1) as nat);
        assert(tasks[n - 1].size.height <= atlas.height);
    }
}


impl TargetCursor {
    /// Nothing was placed.
    pub fn new() -> (cursor: TargetCursor)
        ensures
            cursor == TargetCursor::start(),
    {
        TargetCursor { layers: 0, y: 0, max_width: 0, max_height: 0 }
    }

    /// Places a task of `size` and moves on.
    pub fn place(&mut self, size: DeviceUintSize, atlas: DeviceUintSize) -> (location: RenderTaskLocation)
        requires
            old(self).y <= atlas.height,
            size.height <= atlas.height,
            old(self).layers < usize::MAX,
        ensures
            location == old(self).placement(size, atlas),
            *final(self) == old(self).advance(size, atlas),
    {
        let opens = self.layers == 0 || size.height > atlas.height - self.y;
        let location = if opens {
            RenderTaskLocation {
                origin: DeviceUintPoint { x: 0, y: 0 },
                target_index: RenderTargetIndex(self.layers),
            }
        } else {
            RenderTaskLocation {
                origin: DeviceUintPoint { x: 0, y: self.y },
                target_index: RenderTargetIndex(self.layers - 1),
            }
        };
        if opens {
            self.layers = self.layers + 1;
            self.y = size.height;
        } else {
            self.y = self.y + size.height;
        }
        if size.width > self.max_width {
            self.max_width = size.width;
        }
        if self.y > self.max_height {
            self.max_height = self.y;
        }
        location
    }
}

/// The blur that a blur task asks for: it is drawn into the rectangle of
/// the task along `direction`, and reads the output of the task's first
/// dependency, or the task's own rectangle if it has none.
pub open spec fn blur_of(tasks: Seq<RenderTask>, t: int, direction: BlurDirection) -> BlurInstance {
    BlurInstance {
        task_address: RenderTaskAddress(t as u32),
        src_task_address: RenderTaskAddress(
            if tasks[t].children@.len() > 0 {
                tasks[t].children@[0].0 as u32
            } else {
                t as u32
            },
        ),
        blur_direction: direction,
    }
}

/// Task `t` is a blur along `direction` that was placed in layer `layer`
/// of the list of `kind` of pass `pass`.
pub open spec fn blur_in_layer(
    tasks: Seq<RenderTask>,
    atlas: DeviceUintSize,
    t: int,
    pass: int,
    kind: RenderTargetKind,
    layer: int,
    direction: BlurDirection,
) -> bool {
    &&& task_in_list(tasks, t, pass, kind)
    &&& tasks[t].kind matches RenderTaskKind::Blur { direction: d, .. } && d == direction
    &&& task_location(tasks, atlas, t).target_index.0 == layer
}

/// The blurs along `direction` that the first `n` tasks ask of layer
/// `layer` of the list of `kind` of pass `pass`, in the order of the
/// tasks.
pub open spec fn blurs_in_layer(
    tasks: Seq<RenderTask>,
    atlas: DeviceUintSize,
    pass: int,
    kind: RenderTargetKind,
    layer: int,
    direction: BlurDirection,
    n: nat,
) -> Seq<BlurInstance>
    decreases n,
{
    if n == 0 {
        Seq::empty()
    } else {
        let before = blurs_in_layer(tasks, atlas, pass, kind, layer, direction, (n - 1) as nat);
        if blur_in_layer(tasks, atlas, n - 1, pass, kind, layer, direction) {
            before.push(blur_of(tasks, n - 1, direction))
        } else {
            before
        }
    }
}

/// A blur task is drawn while its own pass is current: its blur lies in
/// the layer that the task was placed in.
pub proof fn lemma_blur_in_its_layer(
    tasks: Seq<RenderTask>,
    atlas: DeviceUintSize,
    t: int,
    pass: int,
    kind: RenderTargetKind,
    layer: int,
    direction: BlurDirection,
    n: nat,
)
    requires
        0 <= t < n,
        blur_in_layer(tasks, atlas, t, pass, kind, layer, direction),
    ensures
        blurs_in_layer(tasks, atlas, pass, kind, layer, direction, n).contains(
            blur_of(tasks, t, direction),
        ),
    decreases n,
{
    let now = blurs_in_layer(tasks, atlas, pass, kind, layer, direction, n);
    if t == n - 1 {
        assert(now[now.len() - 1] == blur_of(tasks, t, direction));
    } else {
        lemma_blur_in_its_layer(tasks, atlas, t, pass, kind, layer, direction, (n - 1) as nat);
        let before = blurs_in_layer(tasks, atlas, pass, kind, layer, direction, (n - 1) as nat);
        let k = choose|k: int| 0 <= k < before.len() && before[k] == blur_of(tasks, t, direction);
        assert(now[k] == before[k]);
    }
}

/// A layer holds no blur of another pass: every blur of a layer is that of
/// a blur task of the layer's pass and list that was placed in the layer.
pub proof fn lemma_layer_blurs_are_its_own(
    tasks: Seq<RenderTask>,
    atlas: DeviceUintSize,
    pass: int,
    kind: RenderTargetKind,
    layer: int,
    direction: BlurDirection,
    n: nat,
    k: int,
)
    requires
        0 <= k < blurs_in_layer(tasks, atlas, pass, kind, layer, direction, n).len(),
    ensures
        exists|t: int|
            0 <= t < n && #[trigger] blur_in_layer(tasks, atlas, t, pass, kind, layer, direction)
                && blurs_in_layer(tasks, atlas, pass, kind, layer, direction, n)[k] == blur_of(
                tasks,
                t,
                direction,
            ),
    decreases n,
{
    if n > 0 {
        let before = blurs_in_layer(tasks, atlas, pass, kind, layer, direction, (n - 1) as nat);
        let now = blurs_in_layer(tasks, atlas, pass, kind, layer, direction, n);
        if k < before.len() {
            lemma_layer_blurs_are_its_own(tasks, atlas, pass, kind, layer, direction, (n - 1) as nat, k);
            let t = choose|t: int|
                0 <= t < n - 1 && #[trigger] blur_in_layer(
                    tasks,
                    atlas,
                    t,
                    pass,
                    kind,
                    layer,
                    direction,
                ) && before[k] == blur_of(tasks, t, direction);
            assert(now[k] == before[k]);
            assert(0 <= t < n && blur_in_layer(tasks, atlas, t, pass, kind, layer, direction)
                && now[k] == blur_of(tasks, t, direction));
        } else {
            assert(blur_in_layer(tasks, atlas, n - 1, pass, kind, layer, direction));
            assert(now[k] == blur_of(tasks, n - 1, direction));
        }
    }
}

/// The passes and the places of the tasks are those of `tasks`.
pub open spec fn placed(
    tasks: Seq<RenderTask>,
    atlas: DeviceUintSize,
    indices: Seq<usize>,
    locations: Seq<RenderTaskLocation>,
) -> bool {
    &&& indices.len() == tasks.len()
    &&& locations.len() == tasks.len()
    &&& forall|i: int| 0 <= i < tasks.len() ==> #[trigger] indices[i] == task_pass(tasks, i as nat)
    &&& forall|i: int|
        0 <= i < tasks.len() ==> #[trigger] locations[i] == task_location(tasks, atlas, i)
}

/// The vertical and the horizontal blurs that the tasks ask of one layer.
fn layer_blurs(
    tasks: &Vec<RenderTask>,
    indices: &Vec<usize>,
    locations: &Vec<RenderTaskLocation>,
    pass: usize,
    kind: RenderTargetKind,
    layer: usize,
    Ghost(atlas): Ghost<DeviceUintSize>,
) -> (blurs: (Vec<BlurInstance>, Vec<BlurInstance>))
    requires
        placed(tasks@, atlas, indices@, locations@),
    ensures
        blurs.0@ == blurs_in_layer(
            tasks@,
            atlas,
            pass as int,
            kind,
            layer as int,
            BlurDirection::Vertical,
            tasks@.len(),
        ),
        blurs.1@ == blurs_in_layer(
            tasks@,
            atlas,
            pass as int,
            kind,
            layer as int,
            BlurDirection::Horizontal,
            tasks@.len(),
        ),
{
    let mut vertical: Vec<BlurInstance> = Vec::new();
    let mut horizontal: Vec<BlurInstance> = Vec::new();
    let mut t: usize = 0;
    while t < tasks.len()
        invariant
            t <= tasks@.len(),
            placed(tasks@, atlas, indices@, locations@),
            vertical@ == blurs_in_layer(
                tasks@,
                atlas,
                pass as int,
                kind,
                layer as int,
                BlurDirection::Vertical,
                t as nat,
            ),
            horizontal@ == blurs_in_layer(
                tasks@,
                atlas,
                pass as int,
                kind,
                layer as int,
                BlurDirection::Horizontal,
                t as nat,
            ),
        decreases tasks@.len() - t,
    {
        let task = &tasks[t];
        if indices[t] == pass && task.kind.target_kind() == kind && locations[t].target_index.0
            == layer {
            match task.kind {
                RenderTaskKind::Blur { direction, .. } => {
                    let own = RenderTaskAddress(#[verifier::truncate] (t as u32));
                    let source = if task.children.len() > 0 {
                        RenderTaskAddress(#[verifier::truncate] (task.children[0].0 as u32))
                    } else {
                        own
                    };
                    let blur = BlurInstance {
                        task_address: own,
                        src_task_address: source,
                        blur_direction: direction,
                    };
                    assert(blur == blur_of(tasks@, t as int, direction));
                    match direction {
                        BlurDirection::Vertical => {
                            vertical.push(blur);
                        },
                        BlurDirection::Horizontal => {
                            horizontal.push(blur);
                        },
                    }
                },
                _ => {},
            }
        }
        t += 1;
    }
    (vertical, horizontal)
}

/// The coverage list of pass `pass`: `cursor.layers` layers, sized to hold
/// what the cursor recorded, each with the blurs that the tasks ask of it.
fn alpha_list_for(
    cursor: TargetCursor,
    tasks: &Vec<RenderTask>,
    indices: &Vec<usize>,
    locations: &Vec<RenderTaskLocation>,
    pass: usize,
    Ghost(atlas): Ghost<DeviceUintSize>,
) -> (list: RenderTargetList<AlphaRenderTarget>)
    requires
        placed(tasks@, atlas, indices@, locations@),
    ensures
        list.format == ImageFormat::A8,
        list.texture is None,
        list.targets@.len() == cursor.layers,
        forall|j: int|
            0 <= j < list.targets@.len() ==> (#[trigger] list.targets@[j]).holds_blurs(
                blurs_in_layer(
                    tasks@,
                    atlas,
                    pass as int,
                    RenderTargetKind::Alpha,
                    j,
                    BlurDirection::Vertical,
                    tasks@.len(),
                ),
                blurs_in_layer(
                    tasks@,
                    atlas,
                    pass as int,
                    RenderTargetKind::Alpha,
                    j,
                    BlurDirection::Horizontal,
                    tasks@.len(),
                ),
            ),
        list.max_size == (DeviceUintSize { width: cursor.max_width, height: cursor.max_height }),
{
    let mut list: RenderTargetList<AlphaRenderTarget> = RenderTargetList::new(ImageFormat::A8);
    list.max_size = DeviceUintSize::new(cursor.max_width, cursor.max_height);
    let mut k: usize = 0;
    while k < cursor.layers
        invariant
            k <= cursor.layers,
            placed(tasks@, atlas, indices@, locations@),
            list.format == ImageFormat::A8,
            list.texture is None,
            list.targets@.len() == k,
            forall|j: int|
                0 <= j < k ==> (#[trigger] list.targets@[j]).holds_blurs(
                    blurs_in_layer(
                        tasks@,
                        atlas,
                        pass as int,
                        RenderTargetKind::Alpha,
                        j,
                        BlurDirection::Vertical,
                        tasks@.len(),
                    ),
                    blurs_in_layer(
                        tasks@,
                        atlas,
                        pass as int,
                        RenderTargetKind::Alpha,
                        j,
                        BlurDirection::Horizontal,
                        tasks@.len(),
                    ),
                ),
            list.max_size == (DeviceUintSize {
                width: cursor.max_width,
                height: cursor.max_height,
            }),
        decreases cursor.layers - k,
    {
        let (vertical, horizontal) = layer_blurs(
            tasks,
            indices,
            locations,
            pass,
            RenderTargetKind::Alpha,
            k,
            Ghost(atlas),
        );
        let mut target = AlphaRenderTarget::new();
        target.vertical_blurs = vertical;
        target.horizontal_blurs = horizontal;
        let ghost before = list.targets@;
        list.targets.push(target);
        assert(forall|j: int| 0 <= j < k ==> list.targets@[j] == before[j]);
        k += 1;
    }
    list
}

/// The colour list of pass `pass`: `cursor.layers` layers, sized to hold
/// what the cursor recorded, each with the blurs that the tasks ask of it.
fn color_list_for(
    cursor: TargetCursor,
    tasks: &Vec<RenderTask>,
    indices: &Vec<usize>,
    locations: &Vec<RenderTaskLocation>,
    pass: usize,
    Ghost(atlas): Ghost<DeviceUintSize>,
) -> (list: RenderTargetList<ColorRenderTarget>)
    requires
        placed(tasks@, atlas, indices@, locations@),
    ensures
        list.format == ImageFormat::BGRA8,
        list.texture is None,
        list.targets@.len() == cursor.layers,
        forall|j: int|
            0 <= j < list.targets@.len() ==> (#[trigger] list.targets@[j]).holds_blurs(
                blurs_in_layer(
                    tasks@,
                    atlas,
                    pass as int,
                    RenderTargetKind::Color,
                    j,
                    BlurDirection::Vertical,
                    tasks@.len(),
                ),
                blurs_in_layer(
                    tasks@,
                    atlas,
                    pass as int,
                    RenderTargetKind::Color,
                    j,
                    BlurDirection::Horizontal,
                    tasks@.len(),
                ),
            ),
        list.max_size == (DeviceUintSize { width: cursor.max_width, height: cursor.max_height }),
{
    let mut list: RenderTargetList<ColorRenderTarget> = RenderTargetList::new(ImageFormat::BGRA8);
    list.max_size = DeviceUintSize::new(cursor.max_width, cursor.max_height);
    let mut k: usize = 0;
    while k < cursor.layers
        invariant
            k <= cursor.layers,
            placed(tasks@, atlas, indices@, locations@),
            list.format == ImageFormat::BGRA8,
            list.texture is None,
            list.targets@.len() == k,
            forall|j: int|
                0 <= j < k ==> (#[trigger] list.targets@[j]).holds_blurs(
                    blurs_in_layer(
                        tasks@,
                        atlas,
                        pass as int,
                        RenderTargetKind::Color,
                        j,
                        BlurDirection::Vertical,
                        tasks@.len(),
                    ),
                    blurs_in_layer(
                        tasks@,
                        atlas,
                        pass as int,
                        RenderTargetKind::Color,
                        j,
                        BlurDirection::Horizontal,
                        tasks@.len(),
                    ),
                ),
            list.max_size == (DeviceUintSize {
                width: cursor.max_width,
                height: cursor.max_height,
            }),
        decreases cursor.layers - k,
    {
        let (vertical, horizontal) = layer_blurs(
            tasks,
            indices,
            locations,
            pass,
            RenderTargetKind::Color,
            k,
            Ghost(atlas),
        );
        let mut target = ColorRenderTarget::new();
        target.vertical_blurs = vertical;
        target.horizontal_blurs = horizontal;
        let ghost before = list.targets@;
        list.targets.push(target);
        assert(forall|j: int| 0 <= j < k ==> list.targets@[j] == before[j]);
        k += 1;
    }
    list
}

/// Pass `p` of the passes built for `tasks` is as it should be: it lists
/// its tasks in order; the last pass draws to the window; any other pass
/// has a coverage list and a colour list with as many layers as its tasks
/// of that kind opened, sized to hold them, and no texture yet. Every layer
/// holds the blurs of the blur tasks that were placed in it, in the order
/// of the tasks, and nothing else.
pub open spec fn pass_built(pass: RenderPass, tasks: Seq<RenderTask>, atlas: DeviceUintSize, p: int) -> bool {
    let n = tasks.len();
    let alpha_cursor = cursor_at(tasks, atlas, p, RenderTargetKind::Alpha, n);
    let color_cursor = cursor_at(tasks, atlas, p, RenderTargetKind::Color, n);
    &&& pass.tasks@ == tasks_in_pass(tasks, p, n)
    &&& if p + 1 == pass_count(tasks, n) {
        pass.kind matches RenderPassKind::MainFramebuffer(target) && target.draws_nothing()
    } else {
        &&& pass.kind matches RenderPassKind::OffScreen { alpha, color, texture_cache }
        &&& texture_cache@.len() == 0
        &&& alpha.format == ImageFormat::A8
        &&& alpha.texture is None
        &&& alpha.targets@.len() == alpha_cursor.layers
        &&& forall|j: int|
            0 <= j < alpha.targets@.len() ==> (#[trigger] alpha.targets@[j]).holds_blurs(
                blurs_in_layer(tasks, atlas, p, RenderTargetKind::Alpha, j, BlurDirection::Vertical, n),
                blurs_in_layer(
                    tasks,
                    atlas,
                    p,
                    RenderTargetKind::Alpha,
                    j,
                    BlurDirection::Horizontal,
                    n,
                ),
            )
        &&& forall|j: int|
            0 <= j < color.targets@.len() ==> (#[trigger] color.targets@[j]).holds_blurs(
                blurs_in_layer(tasks, atlas, p, RenderTargetKind::Color, j, BlurDirection::Vertical, n),
                blurs_in_layer(
                    tasks,
                    atlas,
                    p,
                    RenderTargetKind::Color,
                    j,
                    BlurDirection::Horizontal,
                    n,
                ),
            )
        &&& alpha.max_size == (DeviceUintSize {
            width: alpha_cursor.max_width,
            height: alpha_cursor.max_height,
        })
        &&& color.format == ImageFormat::BGRA8
        &&& color.texture is None
        &&& color.targets@.len() == color_cursor.layers
        &&& color.max_size == (DeviceUintSize {
            width: color_cursor.max_width,
            height: color_cursor.max_height,
        })
    }
}

/// Puts the tasks of `tree` into passes and places each in a layer.
///
/// A task without dependencies runs in pass 0, any other in the pass after
/// the latest of its dependencies. There are as many passes as that needs,
/// and none for an empty tree. The last pass draws to the window; in every
/// other pass the tasks are placed, in their order, in the layers of the
/// pass's coverage or colour list. A blur task leaves its blur in the layer
/// that it was placed in; what else a layer draws is for the frame builder
/// to fill in.
pub fn build_passes(tree: &mut RenderTaskTree, atlas: DeviceUintSize) -> (passes: Vec<RenderPass>)
    requires
        old(tree).wf(),
        tasks_fit(old(tree).tasks@, atlas),
    ensures
        final(tree).wf(),
        final(tree).task_data == old(tree).task_data,
        final(tree).tasks@.len() == old(tree).tasks@.len(),
        forall|t: int|
            0 <= t < old(tree).tasks@.len() ==> {
                &&& (#[trigger] final(tree).tasks@[t]).children == old(tree).tasks@[t].children
                &&& final(tree).tasks@[t].kind == old(tree).tasks@[t].kind
                &&& final(tree).tasks@[t].size == old(tree).tasks@[t].size
                &&& final(tree).tasks@[t].location == Some(
                    task_location(old(tree).tasks@, atlas, t),
                )
            },
        passes@.len() == pass_count(old(tree).tasks@, old(tree).tasks@.len()),
        forall|p: int|
            0 <= p < passes@.len() ==> pass_built(#[trigger] passes@[p], old(tree).tasks@, atlas, p),
{
    let ghost tasks = tree.tasks@;
    let n = tree.tasks.len();
    let indices = tree.assign_passes();
    let count = tree.pass_count();
    let mut tasks_by_pass: Vec<Vec<RenderTaskId>> = Vec::new();
    let mut alpha_cursors: Vec<TargetCursor> = Vec::new();
    let mut color_cursors: Vec<TargetCursor> = Vec::new();
    let mut p: usize = 0;
    while p < count
        invariant
            p <= count,
            tasks_by_pass@.len() == p,
            alpha_cursors@.len() == p,
            color_cursors@.len() == p,
            forall|q: int| 0 <= q < p ==> (#[trigger] tasks_by_pass@[q])@.len() == 0,
            forall|q: int| 0 <= q < p ==> #[trigger] alpha_cursors@[q] == TargetCursor::start(),
            forall|q: int| 0 <= q < p ==> #[trigger] color_cursors@[q] == TargetCursor::start(),
        decreases count - p,
    {
        tasks_by_pass.push(Vec::new());
        alpha_cursors.push(TargetCursor::new());
        color_cursors.push(TargetCursor::new());
        p += 1;
    }
    let mut locations: Vec<RenderTaskLocation> = Vec::new();
    let mut t: usize = 0;
    while t < n
        invariant
            t <= n,
            n == tasks.len(),
            tasks == tree.tasks@,
            tree.wf(),
            tasks_fit(tasks, atlas),
            count == pass_count(tasks, tasks.len()),
            indices@.len() == n,
            forall|i: int| 0 <= i < n ==> #[trigger] indices@[i] == task_pass(tasks, i as nat),
            tasks_by_pass@.len() == count,
            alpha_cursors@.len() == count,
            color_cursors@.len() == count,
            forall|q: int|
                0 <= q < count ==> (#[trigger] tasks_by_pass@[q])@ == tasks_in_pass(
                    tasks,
                    q,
                    t as nat,
                ),
            forall|q: int|
                0 <= q < count ==> #[trigger] alpha_cursors@[q] == cursor_at(
                    tasks,
                    atlas,
                    q,
                    RenderTargetKind::Alpha,
                    t as nat,
                ),
            forall|q: int|
                0 <= q < count ==> #[trigger] color_cursors@[q] == cursor_at(
                    tasks,
                    atlas,
                    q,
                    RenderTargetKind::Color,
                    t as nat,
                ),
            locations@.len() == t,
            forall|i: int| 0 <= i < t ==> #[trigger] locations@[i] == task_location(tasks, atlas, i),
        decreases n - t,
    {
        let pass = indices[t];
        proof {
            lemma_pass_below_count(tasks, tasks.len(), t as nat);
            lemma_cursor_bounds(tasks, atlas, pass as int, RenderTargetKind::Alpha, t as nat);
            lemma_cursor_bounds(tasks, atlas, pass as int, RenderTargetKind::Color, t as nat);
        }
        let size = tree.tasks[t].size;
        let kind = tree.tasks[t].kind.target_kind();
        let mut ids: Vec<RenderTaskId> = Vec::new();
        std::mem::swap(&mut tasks_by_pass[pass], &mut ids);
        ids.push(RenderTaskId(t));
        tasks_by_pass[pass] = ids;
        let placed = match kind {
            RenderTargetKind::Alpha => {
                let mut cursor = alpha_cursors[pass];
                let placed = cursor.place(size, atlas);
                alpha_cursors[pass] = cursor;
                placed
            },
            RenderTargetKind::Color => {
                let mut cursor = color_cursors[pass];
                let placed = cursor.place(size, atlas);
                color_cursors[pass] = cursor;
                placed
            },
        };
        let location = if pass + 1 == count {
            RenderTaskLocation {
                origin: DeviceUintPoint { x: 0, y: 0 },
                target_index: RenderTargetIndex(0),
            }
        } else {
            placed
        };
        locations.push(location);
        t += 1;
    }
    assert(placed(tasks, atlas, indices@, locations@));
    let mut passes: Vec<RenderPass> = Vec::new();
    let mut p: usize = 0;
    while p < count
        invariant
            p <= count,
            n == tasks.len(),
            tasks == tree.tasks@,
            placed(tasks, atlas, indices@, locations@),
            count == pass_count(tasks, tasks.len()),
            tasks_by_pass@.len() == count,
            alpha_cursors@.len() == count,
            color_cursors@.len() == count,
            forall|q: int|
                p <= q < count ==> (#[trigger] tasks_by_pass@[q])@ == tasks_in_pass(
                    tasks,
                    q,
                    n as nat,
                ),
            forall|q: int|
                0 <= q < count ==> #[trigger] alpha_cursors@[q] == cursor_at(
                    tasks,
                    atlas,
                    q,
                    RenderTargetKind::Alpha,
                    n as nat,
                ),
            forall|q: int|
                0 <= q < count ==> #[trigger] color_cursors@[q] == cursor_at(
                    tasks,
                    atlas,
                    q,
                    RenderTargetKind::Color,
                    n as nat,
                ),
            passes@.len() == p,
            forall|q: int| 0 <= q < p ==> pass_built(#[trigger] passes@[q], tasks, atlas, q),
        decreases count - p,
    {
        let mut ids: Vec<RenderTaskId> = Vec::new();
        std::mem::swap(&mut tasks_by_pass[p], &mut ids);
        let kind = if p + 1 == count {
            RenderPassKind::MainFramebuffer(ColorRenderTarget::new())
        } else {
            RenderPassKind::OffScreen {
                alpha: alpha_list_for(
                    alpha_cursors[p],
                    &tree.tasks,
                    &indices,
                    &locations,
                    p,
                    Ghost(atlas),
                ),
                color: color_list_for(
                    color_cursors[p],
                    &tree.tasks,
                    &indices,
                    &locations,
                    p,
                    Ghost(atlas),
                ),
                texture_cache: Vec::new(),
            }
        };
        passes.push(RenderPass { kind, tasks: ids });
        p += 1;
    }
    let mut t: usize = 0;
    while t < n
        invariant
            t <= n,
            n == tasks.len(),
            tree.tasks@.len() == n,
            tree.task_data == old(tree).task_data,
            locations@.len() == n,
            forall|i: int| 0 <= i < n ==> #[trigger] locations@[i] == task_location(tasks, atlas, i),
            passes@.len() == pass_count(tasks, tasks.len()),
            forall|q: int| 0 <= q < passes@.len() ==> pass_built(#[trigger] passes@[q], tasks, atlas, q),
            forall|i: int|
                0 <= i < n ==> {
                    &&& (#[trigger] tree.tasks@[i]).children == tasks[i].children
                    &&& tree.tasks@[i].kind == tasks[i].kind
                    &&& tree.tasks@[i].size == tasks[i].size
                },
            forall|i: int|
                0 <= i < t ==> (#[trigger] tree.tasks@[i]).location == Some(
                    task_location(tasks, atlas, i),
                ),
        decreases n - t,
    {
        let mut task = RenderTask {
            children: Vec::new(),
            kind: RenderTaskKind::Readback,
            size: DeviceUintSize { width: 0, height: 0 },
            location: None,
        };
        std::mem::swap(&mut tree.tasks[t], &mut task);
        task.location = Some(locations[t]);
        tree.tasks[t] = task;
        t += 1;
    }
    assert(is_dag(tree.tasks@)) by {
        assert(is_dag(tasks));
        assert forall|i: int, j: int|
            0 <= i < tree.tasks@.len() && 0 <= j < tree.tasks@[i].children@.len() implies (
        #[trigger] tree.tasks@[i].children@[j]).0 < i by {
            assert(tree.tasks@[i].children == tasks[i].children);
            assert(tasks[i].children@[j].0 < i);
        }
    }
    passes
}


/// A cursor only moves forward: later it has at least as many layers, and
/// with the same number of layers it stands at least as low.
pub proof fn lemma_cursor_monotonic(
    tasks: Seq<RenderTask>,
    atlas: DeviceUintSize,
    pass: int,
    kind: RenderTargetKind,
    a: nat,
    b: nat,
)
    requires
        tasks_fit(tasks, atlas),
        tasks.len() <= usize::MAX,
        a <= b <= tasks.len(),
    ensures
        cursor_at(tasks, atlas, pass, kind, a).layers <= cursor_at(tasks, atlas, pass, kind, b).layers,
        cursor_at(tasks, atlas, pass, kind, a).layers == cursor_at(
            tasks,
            atlas,
            pass,
            kind,
            b,
        ).layers ==> cursor_at(tasks, atlas, pass, kind, a).y <= cursor_at(
            tasks,
            atlas,
            pass,
            kind,
            b,
        ).y,
        cursor_at(tasks, atlas, pass, kind, a).max_height <= cursor_at(
            tasks,
            atlas,
            pass,
            kind,
            b,
        ).max_height,
        cursor_at(tasks, atlas, pass, kind, a).max_width <= cursor_at(
            tasks,
            atlas,
            pass,
            kind,
            b,
        ).max_width,
    decreases b,
{
    if a < b {
        lemma_cursor_monotonic(tasks, atlas, pass, kind, a, (b - 1) as nat);
        lemma_cursor_bounds(tasks, atlas, pass, kind, (b - 1) as nat);
        assert(tasks[b - 1].size.height <= atlas.height);
    }
}

/// Two tasks of one target list never share a pixel: they are in different
/// layers, or the later one starts below the earlier one.
pub proof fn lemma_placements_disjoint(
    tasks: Seq<RenderTask>,
    atlas: DeviceUintSize,
    pass: int,
    kind: RenderTargetKind,
    t1: int,
    t2: int,
)
    requires
        tasks_fit(tasks, atlas),
        tasks.len() <= usize::MAX,
        0 <= t1 < t2 < tasks.len(),
        task_in_list(tasks, t1, pass, kind),
        task_in_list(tasks, t2, pass, kind),
    ensures
        ({
            let first = cursor_at(tasks, atlas, pass, kind, t1 as nat).placement(
                tasks[t1].size,
                atlas,
            );
            let second = cursor_at(tasks, atlas, pass, kind, t2 as nat).placement(
                tasks[t2].size,
                atlas,
            );
            first.target_index.0 < second.target_index.0 || (first.target_index
                == second.target_index && first.origin.y + tasks[t1].size.height
                <= second.origin.y)
        }),
{
    lemma_cursor_bounds(tasks, atlas, pass, kind, t1 as nat);
    lemma_cursor_bounds(tasks, atlas, pass, kind, t2 as nat);
    lemma_cursor_monotonic(tasks, atlas, pass, kind, (t1 + 1) as nat, t2 as nat);
    assert(tasks[t1].size.height <= atlas.height);
    assert(cursor_at(tasks, atlas, pass, kind, (t1 + 1) as nat) == cursor_at(
        tasks,
        atlas,
        pass,
        kind,
        t1 as nat,
    ).advance(tasks[t1].size, atlas));
}

/// Every task of a target list lies inside the layers and the size that
/// the list ends up with.
pub proof fn lemma_placement_inside(
    tasks: Seq<RenderTask>,
    atlas: DeviceUintSize,
    pass: int,
    kind: RenderTargetKind,
    t: int,
)
    requires
        tasks_fit(tasks, atlas),
        tasks.len() <= usize::MAX,
        0 <= t < tasks.len(),
        task_in_list(tasks, t, pass, kind),
    ensures
        ({
            let placed = cursor_at(tasks, atlas, pass, kind, t as nat).placement(
                tasks[t].size,
                atlas,
            );
            let end = cursor_at(tasks, atlas, pass, kind, tasks.len());
            &&& placed.target_index.0 < end.layers
            &&& placed.origin.x + tasks[t].size.width <= end.max_width
            &&& placed.origin.y + tasks[t].size.height <= end.max_height
            &&& end.max_width <= atlas.width
            &&& end.max_height <= atlas.height
        }),
{
    lemma_cursor_bounds(tasks, atlas, pass, kind, t as nat);
    lemma_cursor_bounds(tasks, atlas, pass, kind, tasks.len());
    lemma_cursor_monotonic(tasks, atlas, pass, kind, (t + 1) as nat, tasks.len());
    assert(tasks[t].size.height <= atlas.height);
    assert(cursor_at(tasks, atlas, pass, kind, (t + 1) as nat) == cursor_at(
        tasks,
        atlas,
        pass,
        kind,
        t as nat,
    ).advance(tasks[t].size, atlas));
}

} // verus!
