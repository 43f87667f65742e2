//! The draws of a frame: what each target, batch and blit becomes on the
//! device, command by command.

use vstd::prelude::*;
use crate::api::{ColorF, F32Bits};
use crate::batch::{Batch, BatchKey, BatchKind, BatchTextures, GlyphFormat, TransformBatchKind};
use vstd::pervasive::unreached;
use crate::device::{BlendState, BlurInstance, ClipMaskInstance, DepthFunction, Device, DeviceCommand, DeviceView, PrimitiveInstance, Projection, ShaderId, Texture, TextureId, UploadData, UploadDataView};
use crate::gpu_types;
use crate::internal_types::SourceTexture;
use crate::render_task::{ContentOrigin, RenderTask, RenderTaskId, RenderTaskKind, RenderTaskTree};
use crate::renderer::{BlendMode, TextureSampler};
use crate::shaders::{Shaders, TextShaderMode};
use crate::util::TransformedRectKind;
use crate::texture_resolver::{ResolverView, SourceTextureResolver};
use crate::tiling::{AlphaRenderTarget, BlitJob, BlitJobSource, ColorRenderTarget, RenderTarget, ScalingInfo, TextureCacheRenderTarget};
use crate::units::{DeviceIntPoint, DeviceIntRect, DeviceIntSize, DeviceUintPoint, DeviceUintRect, DeviceUintSize};

verus! {

impl From<gpu_types::BlurInstance> for BlurInstance {
    fn from(instance: gpu_types::BlurInstance) -> (r: BlurInstance) {
        BlurInstance {
            a_blur_render_task_address: #[verifier::truncate]
            (instance.task_address.0 as i32),
            a_blur_source_task_address: #[verifier::truncate]
            (instance.src_task_address.0 as i32),
            a_blur_direction: instance.blur_direction.code(),
        }
    }
}

impl vstd::std_specs::convert::FromSpecImpl<gpu_types::BlurInstance> for BlurInstance {
    open spec fn obeys_from_spec() -> bool {
        true
    }

    /// The addresses of the two tasks as signed numbers of the same bits,
    /// and the number of the direction.
    open spec fn from_spec(instance: gpu_types::BlurInstance) -> BlurInstance {
        BlurInstance {
            a_blur_render_task_address: instance.task_address.0 as i32,
            a_blur_source_task_address: instance.src_task_address.0 as i32,
            a_blur_direction: instance.blur_direction.spec_code(),
        }
    }
}

impl From<gpu_types::ClipMaskInstance> for ClipMaskInstance {
    fn from(instance: gpu_types::ClipMaskInstance) -> (r: ClipMaskInstance) {
        ClipMaskInstance {
            a_clip_render_task_address: #[verifier::truncate]
            (instance.render_task_address.0 as i32),
            a_scroll_node_id: #[verifier::truncate]
            (instance.scroll_node_data_index.0 as i32),
            a_clip_segment: instance.segment,
            a_clip_data_resource_address: [
                instance.clip_data_address.u as i32,
                instance.clip_data_address.v as i32,
                instance.resource_address.u as i32,
                instance.resource_address.v as i32,
            ],
        }
    }
}

impl vstd::std_specs::convert::FromSpecImpl<gpu_types::ClipMaskInstance> for ClipMaskInstance {
    open spec fn obeys_from_spec() -> bool {
        true
    }

    /// The addresses as signed numbers of the same bits; the two cache
    /// addresses side by side, column before row.
    open spec fn from_spec(instance: gpu_types::ClipMaskInstance) -> ClipMaskInstance {
        ClipMaskInstance {
            a_clip_render_task_address: instance.render_task_address.0 as i32,
            a_scroll_node_id: instance.scroll_node_data_index.0 as i32,
            a_clip_segment: instance.segment,
            a_clip_data_resource_address: [
                instance.clip_data_address.u as i32,
                instance.clip_data_address.v as i32,
                instance.resource_address.u as i32,
                instance.resource_address.v as i32,
            ],
        }
    }
}

impl From<gpu_types::PrimitiveInstance> for PrimitiveInstance {
    fn from(instance: gpu_types::PrimitiveInstance) -> (r: PrimitiveInstance) {
        PrimitiveInstance::new(instance.data)
    }
}

impl vstd::std_specs::convert::FromSpecImpl<gpu_types::PrimitiveInstance> for PrimitiveInstance {
    open spec fn obeys_from_spec() -> bool {
        true
    }

    /// The eight integers split into the two attribute vectors.
    open spec fn from_spec(instance: gpu_types::PrimitiveInstance) -> PrimitiveInstance {
        PrimitiveInstance::spec_new(instance.data)
    }
}

/// The primitive instances as the device reads them.
pub open spec fn primitive_data(instances: Seq<gpu_types::PrimitiveInstance>) -> UploadDataView {
    UploadDataView::Primitives(
        instances.map_values(|i: gpu_types::PrimitiveInstance| PrimitiveInstance::spec_new(i.data)),
    )
}

/// The blur instances as the device reads them.
pub open spec fn blur_data(instances: Seq<gpu_types::BlurInstance>) -> UploadDataView {
    UploadDataView::Blurs(
        instances.map_values(
            |i: gpu_types::BlurInstance|
                <BlurInstance as vstd::std_specs::convert::FromSpec<gpu_types::BlurInstance>>::from_spec(i),
        ),
    )
}

/// The clip mask instances as the device reads them.
pub open spec fn clip_data(instances: Seq<gpu_types::ClipMaskInstance>) -> UploadDataView {
    UploadDataView::ClipMasks(
        instances.map_values(
            |i: gpu_types::ClipMaskInstance|
                <ClipMaskInstance as vstd::std_specs::convert::FromSpec<gpu_types::ClipMaskInstance>>::from_spec(i),
        ),
    )
}

/// Converts primitive instances for the device.
pub fn convert_primitives(instances: &Vec<gpu_types::PrimitiveInstance>) -> (data: UploadData)
    ensures
        data@ == primitive_data(instances@),
{
    let mut out: Vec<PrimitiveInstance> = Vec::new();
    let mut i: usize = 0;
    while i < instances.len()
        invariant
            i <= instances@.len(),
            out@.len() == i,
            forall|k: int|
                0 <= k < i ==> #[trigger] out@[k] == PrimitiveInstance::spec_new(instances@[k].data),
        decreases instances@.len() - i,
    {
        out.push(PrimitiveInstance::new(instances[i].data));
        i += 1;
    }
    assert(out@ =~= instances@.map_values(
        |i: gpu_types::PrimitiveInstance| PrimitiveInstance::spec_new(i.data),
    ));
    UploadData::Primitives(out)
}

/// Converts blur instances for the device.
pub fn convert_blurs(instances: &Vec<gpu_types::BlurInstance>) -> (data: UploadData)
    ensures
        data@ == blur_data(instances@),
{
    let mut out: Vec<BlurInstance> = Vec::new();
    let mut i: usize = 0;
    while i < instances.len()
        invariant
            i <= instances@.len(),
            out@.len() == i,
            forall|k: int|
                0 <= k < i ==> #[trigger] out@[k] == <BlurInstance as vstd::std_specs::convert::FromSpec<gpu_types::BlurInstance>>::from_spec(
                    instances@[k],
                ),
        decreases instances@.len() - i,
    {
        out.push(BlurInstance::from(instances[i]));
        i += 1;
    }
    assert(out@ =~= instances@.map_values(
        |i: gpu_types::BlurInstance|
            <BlurInstance as vstd::std_specs::convert::FromSpec<gpu_types::BlurInstance>>::from_spec(i),
    ));
    UploadData::Blurs(out)
}

/// Converts clip mask instances for the device.
pub fn convert_clips(instances: &Vec<gpu_types::ClipMaskInstance>) -> (data: UploadData)
    ensures
        data@ == clip_data(instances@),
{
    let mut out: Vec<ClipMaskInstance> = Vec::new();
    let mut i: usize = 0;
    while i < instances.len()
        invariant
            i <= instances@.len(),
            out@.len() == i,
            forall|k: int|
                0 <= k < i ==> #[trigger] out@[k] == <ClipMaskInstance as vstd::std_specs::convert::FromSpec<gpu_types::ClipMaskInstance>>::from_spec(
                    instances@[k],
                ),
        decreases instances@.len() - i,
    {
        out.push(ClipMaskInstance::from(instances[i]));
        i += 1;
    }
    assert(out@ =~= instances@.map_values(
        |i: gpu_types::ClipMaskInstance|
            <ClipMaskInstance as vstd::std_specs::convert::FromSpec<gpu_types::ClipMaskInstance>>::from_spec(i),
    ));
    UploadData::ClipMasks(out)
}


/// What a draw is aimed at: a layer of a texture, or the window.
pub type DrawTarget = Option<(TextureId, i32)>;

/// `id` names a task of `tasks` that was placed.
pub open spec fn task_ok(tasks: Seq<RenderTask>, id: RenderTaskId) -> bool {
    id.0 < tasks.len() && tasks[id.0 as int].is_placed()
}

/// The rectangle of task `id`.
pub open spec fn task_rect(tasks: Seq<RenderTask>, id: RenderTaskId) -> DeviceIntRect {
    tasks[id.0 as int].spec_target_rect()
}

/// The layer of task `id`, as the device counts layers.
pub open spec fn task_layer(tasks: Seq<RenderTask>, id: RenderTaskId) -> i32 {
    tasks[id.0 as int].location->0.target_index.0 as i32
}

impl ResolverView {
    /// Every texture of `textures` can be bound now.
    pub open spec fn textures_ok(self, textures: BatchTextures) -> bool {
        self.can_bind(textures.color0) && self.can_bind(textures.color1) && self.can_bind(
            textures.color2,
        )
    }

    /// The device after the textures of a batch were bound to the three
    /// colour samplers, in slot order.
    pub open spec fn bind_textures(self, d: DeviceView, textures: BatchTextures) -> DeviceView {
        self.bind(
            self.bind(
                self.bind(d, textures.color0, TextureSampler::Color0),
                textures.color1,
                TextureSampler::Color1,
            ),
            textures.color2,
            TextureSampler::Color2,
        )
    }

    /// The blit can be carried out now: a texture source resolves to a
    /// texture, a task source was placed; and source and destination have
    /// the same size.
    pub open spec fn blit_ok(self, tasks: Seq<RenderTask>, blit: BlitJob) -> bool {
        match blit.source {
            BlitJobSource::Texture(texture_id, _, source_rect) => {
                &&& self.can_resolve(texture_id)
                &&& self.resolve(texture_id) is Some
                &&& source_rect.size == blit.target_rect.size
            },
            BlitJobSource::RenderTask(task_id) => {
                &&& task_ok(tasks, task_id)
                &&& task_rect(tasks, task_id).size == blit.target_rect.size
            },
        }
    }

    /// The device after one blit: the source becomes the read target, then
    /// its rectangle is copied to the blit's rectangle of the draw target.
    /// The output of a task is read from the colour output of the previous
    /// pass.
    pub open spec fn blit(self, d: DeviceView, tasks: Seq<RenderTask>, blit: BlitJob) -> DeviceView {
        match blit.source {
            BlitJobSource::Texture(texture_id, layer, source_rect) => d.emit(
                DeviceCommand::BindReadTarget {
                    target: Some((self.resolve(texture_id)->0.id, layer)),
                },
            ).emit(DeviceCommand::BlitRenderTarget { src: source_rect, dest: blit.target_rect }),
            BlitJobSource::RenderTask(task_id) => d.emit(
                DeviceCommand::BindReadTarget {
                    target: Some((self.rgba8_or_dummy().id, task_layer(tasks, task_id))),
                },
            ).emit(
                DeviceCommand::BlitRenderTarget {
                    src: task_rect(tasks, task_id),
                    dest: blit.target_rect,
                },
            ),
        }
    }

    /// The device after the first `n` of `blits`, in order.
    pub open spec fn blits(self, d: DeviceView, tasks: Seq<RenderTask>, blits: Seq<BlitJob>, n: nat) -> DeviceView
        decreases n,
    {
        if n == 0 {
            d
        } else {
            self.blit(self.blits(d, tasks, blits, (n - 1) as nat), tasks, blits[n - 1])
        }
    }

    /// Every one of `blits` can be carried out now.
    pub open spec fn blits_ok(self, tasks: Seq<RenderTask>, blits: Seq<BlitJob>) -> bool {
        forall|i: int| 0 <= i < blits.len() ==> self.blit_ok(tasks, #[trigger] blits[i])
    }
}

/// Both tasks of the scaling were placed.
pub open spec fn scaling_ok(tasks: Seq<RenderTask>, scaling: ScalingInfo) -> bool {
    task_ok(tasks, scaling.src_task_id) && task_ok(tasks, scaling.dest_task_id)
}

/// Both tasks of every one of `scalings` were placed.
pub open spec fn scalings_ok(tasks: Seq<RenderTask>, scalings: Seq<ScalingInfo>) -> bool {
    forall|i: int| 0 <= i < scalings.len() ==> scaling_ok(tasks, #[trigger] scalings[i])
}

/// The device after the first `n` of `scalings`: for each, the layer of the
/// source task in `cache_texture` becomes the read target, and the source
/// rectangle is copied, scaled, to the destination rectangle.
pub open spec fn scale_tasks(
    d: DeviceView,
    tasks: Seq<RenderTask>,
    scalings: Seq<ScalingInfo>,
    cache_texture: TextureId,
    n: nat,
) -> DeviceView
    decreases n,
{
    if n == 0 {
        d
    } else {
        let scaling = scalings[n - 1];
        scale_tasks(d, tasks, scalings, cache_texture, (n - 1) as nat).emit(
            DeviceCommand::BindReadTarget {
                target: Some((cache_texture, task_layer(tasks, scaling.src_task_id))),
            },
        ).emit(
            DeviceCommand::BlitRenderTarget {
                src: task_rect(tasks, scaling.src_task_id),
                dest: task_rect(tasks, scaling.dest_task_id),
            },
        )
    }
}

/// Binds the textures of a batch to the three colour samplers.
pub fn bind_batch_textures(resolver: &SourceTextureResolver, textures: &BatchTextures, device: &mut Device)
    requires
        resolver@.textures_ok(*textures),
    ensures
        final(device)@ == resolver@.bind_textures(old(device)@, *textures),
{
    resolver.bind(&textures.color0, TextureSampler::color(0), device);
    resolver.bind(&textures.color1, TextureSampler::color(1), device);
    resolver.bind(&textures.color2, TextureSampler::color(2), device);
}

/// The layer of a placed task, as the device counts layers.
fn layer_of(task: &RenderTask) -> (r: (DeviceIntRect, i32))
    requires
        task.is_placed(),
    ensures
        r.0 == task.spec_target_rect(),
        r.1 == task.location->0.target_index.0 as i32,
{
    let (rect, index) = task.get_target_rect();
    (rect, #[verifier::truncate] (index.0 as i32))
}

/// Carries out the blits into the target that is being drawn.
pub fn handle_blits(
    device: &mut Device,
    resolver: &SourceTextureResolver,
    blits: &Vec<BlitJob>,
    render_tasks: &RenderTaskTree,
)
    requires
        resolver@.blits_ok(render_tasks.tasks@, blits@),
    ensures
        final(device)@ == resolver@.blits(
            old(device)@,
            render_tasks.tasks@,
            blits@,
            blits@.len(),
        ),
{
    let mut i: usize = 0;
    while i < blits.len()
        invariant
            i <= blits@.len(),
            resolver@.blits_ok(render_tasks.tasks@, blits@),
            device@ == resolver@.blits(old(device)@, render_tasks.tasks@, blits@, i as nat),
        decreases blits@.len() - i,
    {
        let blit = blits[i];
        assert(resolver@.blit_ok(render_tasks.tasks@, blit));
        match blit.source {
            BlitJobSource::Texture(texture_id, layer, source_rect) => {
                match resolver.resolve(&texture_id) {
                    Some(src_texture) => {
                        device.emit(
                            DeviceCommand::BindReadTarget { target: Some((src_texture.id, layer)) },
                        );
                        device.emit(
                            DeviceCommand::BlitRenderTarget {
                                src: source_rect,
                                dest: blit.target_rect,
                            },
                        );
                    },
                    None => {},
                }
            },
            BlitJobSource::RenderTask(task_id) => {
                match resolver.resolve(&SourceTexture::CacheRGBA8) {
                    Some(src_texture) => {
                        let (source_rect, layer) = layer_of(&render_tasks.tasks[task_id.0]);
                        device.emit(
                            DeviceCommand::BindReadTarget { target: Some((src_texture.id, layer)) },
                        );
                        device.emit(
                            DeviceCommand::BlitRenderTarget {
                                src: source_rect,
                                dest: blit.target_rect,
                            },
                        );
                    },
                    None => {},
                }
            },
        }
        i += 1;
    }
}

/// Carries out the scalings of a target; the sources are read from the
/// output of the previous pass that `source` names.
pub fn handle_scaling(
    device: &mut Device,
    resolver: &SourceTextureResolver,
    render_tasks: &RenderTaskTree,
    scalings: &Vec<ScalingInfo>,
    source: SourceTexture,
)
    requires
        source is CacheA8 || source is CacheRGBA8,
        scalings_ok(render_tasks.tasks@, scalings@),
    ensures
        final(device)@ == scale_tasks(
            old(device)@,
            render_tasks.tasks@,
            scalings@,
            resolver@.resolve(source)->0.id,
            scalings@.len(),
        ),
{
    match resolver.resolve(&source) {
        Some(cache_texture) => {
            let mut i: usize = 0;
            while i < scalings.len()
                invariant
                    i <= scalings@.len(),
                    scalings_ok(render_tasks.tasks@, scalings@),
                    device@ == scale_tasks(
                        old(device)@,
                        render_tasks.tasks@,
                        scalings@,
                        cache_texture.id,
                        i as nat,
                    ),
                decreases scalings@.len() - i,
            {
                let scaling = scalings[i];
                assert(scaling_ok(render_tasks.tasks@, scaling));
                let (source_rect, source_layer) = layer_of(
                    &render_tasks.tasks[scaling.src_task_id.0],
                );
                let (dest_rect, _) = layer_of(&render_tasks.tasks[scaling.dest_task_id.0]);
                device.emit(
                    DeviceCommand::BindReadTarget {
                        target: Some((cache_texture.id, source_layer)),
                    },
                );
                device.emit(DeviceCommand::BlitRenderTarget { src: source_rect, dest: dest_rect });
                i += 1;
            }
        },
        None => {},
    }
}


/// What every draw of a frame reads and none changes.
pub struct DrawContext<'a> {
    pub resolver: &'a SourceTextureResolver,
    pub shaders: &'a Shaders,
    pub render_tasks: &'a RenderTaskTree,
    /// Clear only the used part of an off-screen colour target.
    pub enable_clear_scissor: bool,
}

/// What a [`DrawContext`] refers to, as mathematical values.
pub struct DrawEnv {
    pub resolver: ResolverView,
    pub shaders: Shaders,
    pub tasks: Seq<RenderTask>,
    pub enable_clear_scissor: bool,
}

impl<'a> View for DrawContext<'a> {
    type V = DrawEnv;

    open spec fn view(&self) -> DrawEnv {
        DrawEnv {
            resolver: self.resolver@,
            shaders: *self.shaders,
            tasks: self.render_tasks.tasks@,
            enable_clear_scissor: self.enable_clear_scissor,
        }
    }
}

impl<'a> DrawContext<'a> {
    /// The tasks of the frame.
    pub open spec fn tasks(&self) -> Seq<RenderTask> {
        self.render_tasks.tasks@
    }
}

/// The screen position of the content of a picture task; none for any
/// other task and for a picture in its own space.
pub open spec fn screen_origin(task: RenderTask) -> Option<DeviceIntPoint> {
    match task.kind {
        RenderTaskKind::Picture { content_origin: ContentOrigin::Screen(p), .. } => Some(p),
        _ => None,
    }
}

/// The three tasks of a composite, named as the composite names them.
pub struct CompositeTasks {
    /// The task whose rectangle holds the backdrop.
    pub task_id: RenderTaskId,
    /// The task that drew what is composited.
    pub source_id: RenderTaskId,
    /// The task whose rectangle receives the copy of what is on the target.
    pub backdrop_id: RenderTaskId,
}

impl CompositeTasks {
    /// The column of the target where the copy starts.
    pub open spec fn src_x(self, tasks: Seq<RenderTask>) -> int {
        screen_origin(tasks[self.source_id.0 as int])->0.x + (task_rect(
            tasks,
            self.task_id,
        ).origin.x - screen_origin(tasks[self.task_id.0 as int])->0.x)
    }

    /// The row of the target where the copy starts.
    pub open spec fn src_y(self, tasks: Seq<RenderTask>) -> int {
        screen_origin(tasks[self.source_id.0 as int])->0.y + (task_rect(
            tasks,
            self.task_id,
        ).origin.y - screen_origin(tasks[self.task_id.0 as int])->0.y)
    }

    /// The three tasks were placed, the source and the backdrop are
    /// pictures in screen space, and the copy's origin can be computed in
    /// signed 32-bit numbers.
    pub open spec fn ok(self, tasks: Seq<RenderTask>) -> bool {
        &&& task_ok(tasks, self.task_id)
        &&& task_ok(tasks, self.source_id)
        &&& task_ok(tasks, self.backdrop_id)
        &&& screen_origin(tasks[self.source_id.0 as int]) is Some
        &&& screen_origin(tasks[self.task_id.0 as int]) is Some
        &&& i32::MIN <= task_rect(tasks, self.task_id).origin.x - screen_origin(
            tasks[self.task_id.0 as int],
        )->0.x <= i32::MAX
        &&& i32::MIN <= task_rect(tasks, self.task_id).origin.y - screen_origin(
            tasks[self.task_id.0 as int],
        )->0.y <= i32::MAX
        &&& i32::MIN <= self.src_x(tasks) <= i32::MAX
        &&& i32::MIN <= self.src_y(tasks) <= i32::MAX
    }

    /// The part of the target that is copied: as large as the receiving
    /// rectangle, and placed where the backdrop is on the screen.
    pub open spec fn src_rect(self, tasks: Seq<RenderTask>) -> DeviceIntRect {
        DeviceIntRect {
            origin: DeviceIntPoint { x: self.src_x(tasks) as i32, y: self.src_y(tasks) as i32 },
            size: task_rect(tasks, self.backdrop_id).size,
        }
    }
}

/// The device after the readback of a composite: what the target holds
/// where the backdrop is goes to the receiving task's rectangle in the
/// colour output of the previous pass, and the target is bound for drawing
/// again. The copy is a blit of its own because a draw cannot read the
/// target that it writes.
pub open spec fn composite_readback(
    d: DeviceView,
    ctx: DrawEnv,
    composite: CompositeTasks,
    render_target: DrawTarget,
) -> DeviceView {
    d.emit(
        DeviceCommand::BindDrawTarget {
            target: Some(
                (
                    ctx.resolver.rgba8_or_dummy().id,
                    task_layer(ctx.tasks, composite.backdrop_id),
                ),
            ),
            dimensions: None,
        },
    ).emit(DeviceCommand::BindReadTarget { target: render_target }).emit(
        DeviceCommand::BlitRenderTarget {
            src: composite.src_rect(ctx.tasks),
            dest: task_rect(ctx.tasks, composite.backdrop_id),
        },
    ).emit(DeviceCommand::BindDrawTarget { target: render_target, dimensions: None })
}

/// The batch can be drawn now: its textures can be bound, and a composite
/// has one instance and well-formed tasks.
pub open spec fn batch_ok(ctx: DrawEnv, batch: Batch) -> bool {
    &&& ctx.resolver.textures_ok(batch.key.textures)
    &&& batch.key.kind matches BatchKind::Composite { task_id, source_id, backdrop_id } ==> {
        &&& batch.instances@.len() == 1
        &&& (CompositeTasks { task_id, source_id, backdrop_id }).ok(ctx.tasks)
    }
}

/// The batch is a text run.
pub open spec fn is_text_run(key: BatchKey) -> bool {
    key.kind matches BatchKind::Transformable(_, TransformBatchKind::TextRun(_))
}

/// The device after a batch that is not a text run was submitted: its
/// program is made sure of; a composite reads back first; the textures are
/// bound, the instances and the projection handed over, and one draw is
/// issued.
pub open spec fn submit_batch_spec(
    d: DeviceView,
    ctx: DrawEnv,
    batch: Batch,
    projection: Projection,
    render_target: DrawTarget,
) -> DeviceView {
    let program = ctx.shaders.batch_program(batch.key.kind, batch.key.blend_mode);
    let ready = d.create_program(program);
    let read = match batch.key.kind {
        BatchKind::Composite { task_id, source_id, backdrop_id } => composite_readback(
            ready,
            ctx,
            CompositeTasks { task_id, source_id, backdrop_id },
            render_target,
        ),
        _ => ready,
    };
    ctx.resolver.bind_textures(read, batch.key.textures).bind_program(
        program,
        projection,
        0,
        primitive_data(batch.instances@),
    ).emit(DeviceCommand::Draw(program))
}

/// Submits one batch that is not a text run.
pub fn submit_batch(
    device: &mut Device,
    ctx: &DrawContext,
    batch: &Batch,
    projection: Projection,
    render_target: DrawTarget,
)
    requires
        batch_ok(ctx@, *batch),
        !is_text_run(batch.key),
    ensures
        final(device)@ == submit_batch_spec(old(device)@, ctx@, *batch, projection, render_target),
{
    let program = ctx.shaders.get_batch_program(batch.key.kind, batch.key.blend_mode, device);
    if let BatchKind::Composite { task_id, source_id, backdrop_id } = batch.key.kind {
        let ghost composite = CompositeTasks { task_id, source_id, backdrop_id };
        assert(composite.ok(ctx.tasks()));
        let source = &ctx.render_tasks.tasks[source_id.0];
        let backdrop = &ctx.render_tasks.tasks[task_id.0];
        let readback = &ctx.render_tasks.tasks[backdrop_id.0];
        let (readback_rect, readback_layer) = layer_of(readback);
        let (backdrop_rect, _) = layer_of(backdrop);
        let backdrop_screen_origin = match backdrop.kind {
            RenderTaskKind::Picture { content_origin: ContentOrigin::Screen(p), .. } => p,
            _ => unreached(),
        };
        let source_screen_origin = match source.kind {
            RenderTaskKind::Picture { content_origin: ContentOrigin::Screen(p), .. } => p,
            _ => unreached(),
        };
        match ctx.resolver.resolve(&SourceTexture::CacheRGBA8) {
            Some(cache_texture) => {
                device.emit(
                    DeviceCommand::BindDrawTarget {
                        target: Some((cache_texture.id, readback_layer)),
                        dimensions: None,
                    },
                );
            },
            None => {},
        }
        let src = DeviceIntRect::new(
            DeviceIntPoint::new(
                source_screen_origin.x + (backdrop_rect.origin.x - backdrop_screen_origin.x),
                source_screen_origin.y + (backdrop_rect.origin.y - backdrop_screen_origin.y),
            ),
            readback_rect.size,
        );
        device.emit(DeviceCommand::BindReadTarget { target: render_target });
        device.emit(DeviceCommand::BlitRenderTarget { src, dest: readback_rect });
        device.emit(DeviceCommand::BindDrawTarget { target: render_target, dimensions: None });
    }
    bind_batch_textures(ctx.resolver, &batch.key.textures, device);
    device.bind_program(program, projection, 0, convert_primitives(&batch.instances));
    device.draw(program);
}


/// The device after the blurs of a target: nothing without blurs;
/// otherwise blending goes off, the blur program is made sure of, and the
/// vertical and then the horizontal blurs are each handed over and drawn,
/// if there are any.
pub open spec fn draw_blurs(
    d: DeviceView,
    program: ShaderId,
    vertical: Seq<gpu_types::BlurInstance>,
    horizontal: Seq<gpu_types::BlurInstance>,
    projection: Projection,
) -> DeviceView {
    if vertical.len() == 0 && horizontal.len() == 0 {
        d
    } else {
        let ready = d.emit(DeviceCommand::SetBlend(false)).create_program(program);
        let first = if vertical.len() > 0 {
            ready.bind_program(program, projection, 0, blur_data(vertical)).emit(
                DeviceCommand::Draw(program),
            )
        } else {
            ready
        };
        if horizontal.len() > 0 {
            first.bind_program(program, projection, 0, blur_data(horizontal)).emit(
                DeviceCommand::Draw(program),
            )
        } else {
            first
        }
    }
}

/// Draws the blurs of a target with `shader`.
pub fn draw_target_blurs(
    device: &mut Device,
    program: ShaderId,
    vertical: &Vec<gpu_types::BlurInstance>,
    horizontal: &Vec<gpu_types::BlurInstance>,
    projection: Projection,
)
    ensures
        final(device)@ == draw_blurs(old(device)@, program, vertical@, horizontal@, projection),
{
    if vertical.len() > 0 || horizontal.len() > 0 {
        device.emit(DeviceCommand::SetBlend(false));
        device.create_program(program);
        if vertical.len() > 0 {
            device.bind_program(program, projection, 0, convert_blurs(vertical));
            device.draw(program);
        }
        if horizontal.len() > 0 {
            device.bind_program(program, projection, 0, convert_blurs(horizontal));
            device.draw(program);
        }
    }
}

/// The device after the first `n` groups of cached text runs: for each
/// group its texture is bound, its instances handed over, and one draw is
/// issued.
pub open spec fn draw_text_run_groups(
    d: DeviceView,
    ctx: DrawEnv,
    prims: Seq<(SourceTexture, Vec<gpu_types::PrimitiveInstance>)>,
    n: nat,
) -> DeviceView
    decreases n,
{
    if n == 0 {
        d
    } else {
        let program = ctx.shaders.cs_text_run.id;
        ctx.resolver.bind_textures(
            draw_text_run_groups(d, ctx, prims, (n - 1) as nat),
            (BatchTextures {
                color0: prims[n - 1].0,
                color1: SourceTexture::Invalid,
                color2: SourceTexture::Invalid,
            }),
        ).bind_program_instances(program, primitive_data(prims[n - 1].1@)).emit(
            DeviceCommand::Draw(program),
        )
    }
}

/// The device after the cached text runs of a target: nothing without
/// any; otherwise premultiplied blending goes on, the text cache program
/// is made sure of and given the projection, and the groups are drawn.
pub open spec fn draw_text_run_cache(
    d: DeviceView,
    ctx: DrawEnv,
    prims: Seq<(SourceTexture, Vec<gpu_types::PrimitiveInstance>)>,
    projection: Projection,
) -> DeviceView {
    if prims.len() == 0 {
        d
    } else {
        let program = ctx.shaders.cs_text_run.id;
        draw_text_run_groups(
            d.emit(DeviceCommand::SetBlend(true)).emit(
                DeviceCommand::SetBlendMode(BlendState::PremultipliedAlpha),
            ).create_program(program).emit(
                DeviceCommand::BindProgramLocals { program, projection, mode: 0 },
            ),
            ctx,
            prims,
            prims.len(),
        )
    }
}

/// The texture of every group of cached text runs can be bound now.
pub open spec fn text_run_cache_ok(
    ctx: DrawEnv,
    prims: Seq<(SourceTexture, Vec<gpu_types::PrimitiveInstance>)>,
) -> bool {
    forall|i: int| 0 <= i < prims.len() ==> ctx.resolver.can_bind((#[trigger] prims[i]).0)
}

/// The device after one more pass of a text batch whose instances are in
/// place already: the mode changes and the batch is drawn again.
pub open spec fn text_pass(d: DeviceView, program: ShaderId, projection: Projection, mode: i32) -> DeviceView {
    d.emit(DeviceCommand::BindProgramLocals { program, projection, mode }).emit(
        DeviceCommand::Draw(program),
    )
}

/// The device after the first pass of a text batch: blend equation,
/// program, textures, instances with projection and mode, one draw.
pub open spec fn text_first_pass(
    d: DeviceView,
    ctx: DrawEnv,
    batch: Batch,
    blend: BlendState,
    program: ShaderId,
    projection: Projection,
    mode: i32,
) -> DeviceView {
    ctx.resolver.bind_textures(
        d.emit(DeviceCommand::SetBlendMode(blend)).create_program(program),
        batch.key.textures,
    ).bind_program(program, projection, mode, primitive_data(batch.instances@)).emit(
        DeviceCommand::Draw(program),
    )
}

/// The blend mode is one that text is drawn with, and glyphs that are
/// blended as premultiplied alpha are not subpixel glyphs.
pub open spec fn text_blend_ok(blend_mode: BlendMode, glyph_format: GlyphFormat) -> bool {
    match blend_mode {
        BlendMode::PremultipliedAlpha => !(glyph_format is Subpixel) && !(glyph_format
            is TransformedSubpixel),
        BlendMode::SubpixelDualSource => true,
        BlendMode::SubpixelConstantTextColor(_) => true,
        BlendMode::SubpixelVariableTextColor => true,
        BlendMode::SubpixelWithBgColor => true,
        _ => false,
    }
}

/// The device after a text run batch. Every blend mode of text has its own
/// program, blend equations and shader modes, which are set right around
/// its draws: one pass for premultiplied, dual-source and constant-colour
/// text, two for subpixel text of varying colour, three for subpixel text
/// over a known background. Blending is on for the batch and off after it.
pub open spec fn draw_text_batch(
    d: DeviceView,
    ctx: DrawEnv,
    batch: Batch,
    transform_kind: TransformedRectKind,
    glyph_format: GlyphFormat,
    projection: Projection,
) -> DeviceView {
    let on = d.emit(DeviceCommand::SetBlend(true));
    let run = ctx.shaders.ps_text_run.select(glyph_format, transform_kind).id;
    let dual = ctx.shaders.ps_text_run_dual_source.select(glyph_format, transform_kind).id;
    let drawn = match batch.key.blend_mode {
        BlendMode::PremultipliedAlpha => text_first_pass(
            on,
            ctx,
            batch,
            BlendState::PremultipliedAlpha,
            run,
            projection,
            TextShaderMode::spec_from_glyph_format(glyph_format).spec_code(),
        ),
        BlendMode::SubpixelDualSource => text_first_pass(
            on,
            ctx,
            batch,
            BlendState::SubpixelDualSource,
            dual,
            projection,
            TextShaderMode::SubpixelDualSource.spec_code(),
        ),
        BlendMode::SubpixelConstantTextColor(color) => text_first_pass(
            on,
            ctx,
            batch,
            BlendState::SubpixelConstantTextColor(color),
            run,
            projection,
            TextShaderMode::SubpixelConstantTextColor.spec_code(),
        ),
        BlendMode::SubpixelVariableTextColor => text_pass(
            text_first_pass(
                on,
                ctx,
                batch,
                BlendState::SubpixelPass0,
                run,
                projection,
                TextShaderMode::SubpixelPass0.spec_code(),
            ).emit(DeviceCommand::SetBlendMode(BlendState::SubpixelPass1)),
            run,
            projection,
            TextShaderMode::SubpixelPass1.spec_code(),
        ),
        BlendMode::SubpixelWithBgColor => text_pass(
            text_pass(
                text_first_pass(
                    on,
                    ctx,
                    batch,
                    BlendState::SubpixelWithBgColorPass0,
                    run,
                    projection,
                    TextShaderMode::SubpixelWithBgColorPass0.spec_code(),
                ).emit(DeviceCommand::SetBlendMode(BlendState::SubpixelWithBgColorPass1)),
                run,
                projection,
                TextShaderMode::SubpixelWithBgColorPass1.spec_code(),
            ).emit(DeviceCommand::SetBlendMode(BlendState::SubpixelWithBgColorPass2)),
            run,
            projection,
            TextShaderMode::SubpixelWithBgColorPass2.spec_code(),
        ),
        _ => on,
    };
    drawn.emit(DeviceCommand::SetBlend(false))
}

/// Hands a text batch to `program` for its first pass and draws it.
fn draw_text_first_pass(
    device: &mut Device,
    ctx: &DrawContext,
    batch: &Batch,
    blend: BlendState,
    program: ShaderId,
    projection: Projection,
    mode: i32,
)
    requires
        ctx.resolver@.textures_ok(batch.key.textures),
    ensures
        final(device)@ == text_first_pass(
            old(device)@,
            ctx@,
            *batch,
            blend,
            program,
            projection,
            mode,
        ),
{
    device.emit(DeviceCommand::SetBlendMode(blend));
    device.create_program(program);
    bind_batch_textures(ctx.resolver, &batch.key.textures, device);
    device.bind_program(program, projection, mode, convert_primitives(&batch.instances));
    device.draw(program);
}

/// Draws a text batch again with another mode.
fn draw_text_pass(device: &mut Device, program: ShaderId, projection: Projection, mode: i32)
    ensures
        final(device)@ == text_pass(old(device)@, program, projection, mode),
{
    device.emit(DeviceCommand::BindProgramLocals { program, projection, mode });
    device.draw(program);
}

/// Draws one text run batch.
pub fn draw_text_run_batch(
    device: &mut Device,
    ctx: &DrawContext,
    batch: &Batch,
    transform_kind: TransformedRectKind,
    glyph_format: GlyphFormat,
    projection: Projection,
)
    requires
        ctx.resolver@.textures_ok(batch.key.textures),
        text_blend_ok(batch.key.blend_mode, glyph_format),
    ensures
        final(device)@ == draw_text_batch(
            old(device)@,
            ctx@,
            *batch,
            transform_kind,
            glyph_format,
            projection,
        ),
{
    device.emit(DeviceCommand::SetBlend(true));
    let run = ctx.shaders.ps_text_run.select_id(glyph_format, transform_kind);
    let dual = ctx.shaders.ps_text_run_dual_source.select_id(glyph_format, transform_kind);
    match batch.key.blend_mode {
        BlendMode::PremultipliedAlpha => {
            draw_text_first_pass(
                device,
                ctx,
                batch,
                BlendState::PremultipliedAlpha,
                run,
                projection,
                TextShaderMode::from_glyph_format(glyph_format).code(),
            );
        },
        BlendMode::SubpixelDualSource => {
            draw_text_first_pass(
                device,
                ctx,
                batch,
                BlendState::SubpixelDualSource,
                dual,
                projection,
                TextShaderMode::SubpixelDualSource.code(),
            );
        },
        BlendMode::SubpixelConstantTextColor(color) => {
            draw_text_first_pass(
                device,
                ctx,
                batch,
                BlendState::SubpixelConstantTextColor(color),
                run,
                projection,
                TextShaderMode::SubpixelConstantTextColor.code(),
            );
        },
        BlendMode::SubpixelVariableTextColor => {
            draw_text_first_pass(
                device,
                ctx,
                batch,
                BlendState::SubpixelPass0,
                run,
                projection,
                TextShaderMode::SubpixelPass0.code(),
            );
            device.emit(DeviceCommand::SetBlendMode(BlendState::SubpixelPass1));
            draw_text_pass(device, run, projection, TextShaderMode::SubpixelPass1.code());
        },
        BlendMode::SubpixelWithBgColor => {
            draw_text_first_pass(
                device,
                ctx,
                batch,
                BlendState::SubpixelWithBgColorPass0,
                run,
                projection,
                TextShaderMode::SubpixelWithBgColorPass0.code(),
            );
            device.emit(DeviceCommand::SetBlendMode(BlendState::SubpixelWithBgColorPass1));
            draw_text_pass(device, run, projection, TextShaderMode::SubpixelWithBgColorPass1.code());
            device.emit(DeviceCommand::SetBlendMode(BlendState::SubpixelWithBgColorPass2));
            draw_text_pass(device, run, projection, TextShaderMode::SubpixelWithBgColorPass2.code());
        },
        _ => {},
    }
    device.emit(DeviceCommand::SetBlend(false));
}


/// Draws the cached text runs of a target.
pub fn draw_text_run_cache_prims(
    device: &mut Device,
    ctx: &DrawContext,
    prims: &Vec<(SourceTexture, Vec<gpu_types::PrimitiveInstance>)>,
    projection: Projection,
)
    requires
        text_run_cache_ok(ctx@, prims@),
    ensures
        final(device)@ == draw_text_run_cache(old(device)@, ctx@, prims@, projection),
{
    if prims.len() > 0 {
        device.emit(DeviceCommand::SetBlend(true));
        device.emit(DeviceCommand::SetBlendMode(BlendState::PremultipliedAlpha));
        let program = ctx.shaders.cs_text_run.get(device);
        device.emit(DeviceCommand::BindProgramLocals { program, projection, mode: 0 });
        let ghost start = device@;
        let mut i: usize = 0;
        while i < prims.len()
            invariant
                i <= prims@.len(),
                program == ctx.shaders.cs_text_run.id,
                text_run_cache_ok(ctx@, prims@),
                device@ == draw_text_run_groups(start, ctx@, prims@, i as nat),
            decreases prims@.len() - i,
        {
            assert(ctx.resolver@.can_bind(prims@[i as int].0));
            let textures = BatchTextures::color(prims[i].0);
            bind_batch_textures(ctx.resolver, &textures, device);
            device.bind_program_instances(program, convert_primitives(&prims[i].1));
            device.draw(program);
            i += 1;
        }
    }
}

/// The device after the blend state was switched from `prev` to `mode`:
/// nothing when they are the same; otherwise blending goes off for
/// `NoBlend`, and on with the mode's equation for the others.
pub open spec fn blend_switch(d: DeviceView, prev: BlendMode, mode: BlendMode) -> DeviceView {
    if mode == prev {
        d
    } else {
        match mode {
            BlendMode::NoBlend => d.emit(DeviceCommand::SetBlend(false)),
            BlendMode::Alpha => d.emit(DeviceCommand::SetBlend(true)).emit(
                DeviceCommand::SetBlendMode(BlendState::Alpha),
            ),
            BlendMode::PremultipliedAlpha => d.emit(DeviceCommand::SetBlend(true)).emit(
                DeviceCommand::SetBlendMode(BlendState::PremultipliedAlpha),
            ),
            BlendMode::PremultipliedDestOut => d.emit(DeviceCommand::SetBlend(true)).emit(
                DeviceCommand::SetBlendMode(BlendState::PremultipliedDestOut),
            ),
            _ => d,
        }
    }
}

/// The blend mode is one that batches other than text are drawn with.
pub open spec fn plain_blend_ok(blend_mode: BlendMode) -> bool {
    blend_mode is NoBlend || blend_mode is Alpha || blend_mode is PremultipliedAlpha || blend_mode
        is PremultipliedDestOut
}

/// A batch of the blended list can be drawn now.
pub open spec fn alpha_batch_ok(ctx: DrawEnv, batch: Batch) -> bool {
    &&& batch_ok(ctx, batch)
    &&& match batch.key.kind {
        BatchKind::Transformable(_, TransformBatchKind::TextRun(glyph_format)) => text_blend_ok(
            batch.key.blend_mode,
            glyph_format,
        ),
        _ => plain_blend_ok(batch.key.blend_mode),
    }
}

/// A batch of the opaque list can be drawn now.
pub open spec fn opaque_batch_ok(ctx: DrawEnv, batch: Batch) -> bool {
    batch_ok(ctx, batch) && !is_text_run(batch.key)
}

/// The blend mode that the device is left in by the first `n` batches of
/// the blended list: none to begin with and after a text run, otherwise the
/// mode of the last batch.
pub open spec fn blend_after(batches: Seq<Batch>, n: nat) -> BlendMode {
    if n == 0 || is_text_run(batches[n - 1].key) {
        BlendMode::NoBlend
    } else {
        batches[n - 1].key.blend_mode
    }
}

/// The device after one batch of the blended list: a text run goes its own
/// way; for any other batch the blend state is switched if it differs from
/// what the device is in, and the batch is submitted.
pub open spec fn draw_alpha_batch(
    d: DeviceView,
    ctx: DrawEnv,
    batch: Batch,
    prev: BlendMode,
    projection: Projection,
    render_target: DrawTarget,
) -> DeviceView {
    match batch.key.kind {
        BatchKind::Transformable(transform_kind, TransformBatchKind::TextRun(glyph_format)) => draw_text_batch(
            d,
            ctx,
            batch,
            transform_kind,
            glyph_format,
            projection,
        ),
        _ => submit_batch_spec(
            blend_switch(d, prev, batch.key.blend_mode),
            ctx,
            batch,
            projection,
            render_target,
        ),
    }
}

/// The device after the first `n` batches of the blended list, in the
/// order in which the list has them.
pub open spec fn draw_alpha_batches(
    d: DeviceView,
    ctx: DrawEnv,
    batches: Seq<Batch>,
    projection: Projection,
    render_target: DrawTarget,
    n: nat,
) -> DeviceView
    decreases n,
{
    if n == 0 {
        d
    } else {
        draw_alpha_batch(
            draw_alpha_batches(d, ctx, batches, projection, render_target, (n - 1) as nat),
            ctx,
            batches[n - 1],
            blend_after(batches, (n - 1) as nat),
            projection,
            render_target,
        )
    }
}

/// The device after the last `n` batches of the opaque list, last one
/// first: what is in front is drawn first, so that the depth test rejects
/// what it hides.
pub open spec fn draw_opaque_batches(
    d: DeviceView,
    ctx: DrawEnv,
    batches: Seq<Batch>,
    projection: Projection,
    render_target: DrawTarget,
    n: nat,
) -> DeviceView
    decreases n,
{
    if n == 0 {
        d
    } else {
        submit_batch_spec(
            draw_opaque_batches(d, ctx, batches, projection, render_target, (n - 1) as nat),
            ctx,
            batches[batches.len() - n],
            projection,
            render_target,
        )
    }
}

/// The device after the batches of a colour target: nothing without
/// batches. Otherwise blending goes off; if the target uses depth, the
/// opaque batches are drawn front to back with depth test and depth write
/// on, and depth write goes off after them; then the blended batches are
/// drawn in their order; at the end depth test and blending are off.
pub open spec fn draw_batches(
    d: DeviceView,
    ctx: DrawEnv,
    target: ColorRenderTarget,
    projection: Projection,
    render_target: DrawTarget,
) -> DeviceView {
    let opaque = target.alpha_batcher.batch_list.opaque_batch_list.batches@;
    let alpha = target.alpha_batcher.batch_list.alpha_batch_list.batches@;
    if opaque.len() == 0 && alpha.len() == 0 {
        d
    } else {
        let start = d.emit(DeviceCommand::SetBlend(false));
        let after_opaque = if target.spec_needs_depth() {
            draw_opaque_batches(
                start.emit(DeviceCommand::SetDepthFunc(DepthFunction::LessEqual)).emit(
                    DeviceCommand::EnableDepth,
                ).emit(DeviceCommand::EnableDepthWrite),
                ctx,
                opaque,
                projection,
                render_target,
                opaque.len(),
            ).emit(DeviceCommand::DisableDepthWrite)
        } else {
            start
        };
        draw_alpha_batches(after_opaque, ctx, alpha, projection, render_target, alpha.len()).emit(
            DeviceCommand::DisableDepth,
        ).emit(DeviceCommand::SetBlend(false))
    }
}

/// Every batch of the target can be drawn now.
pub open spec fn batches_ok(ctx: DrawEnv, target: ColorRenderTarget) -> bool {
    &&& forall|i: int|
        0 <= i < target.alpha_batcher.batch_list.opaque_batch_list.batches@.len()
            ==> opaque_batch_ok(
            ctx,
            #[trigger] target.alpha_batcher.batch_list.opaque_batch_list.batches@[i],
        )
    &&& forall|i: int|
        0 <= i < target.alpha_batcher.batch_list.alpha_batch_list.batches@.len()
            ==> alpha_batch_ok(
            ctx,
            #[trigger] target.alpha_batcher.batch_list.alpha_batch_list.batches@[i],
        )
}

/// Switches the blend state of the device from `prev` to `mode`.
fn switch_blend(device: &mut Device, prev: BlendMode, mode: BlendMode)
    ensures
        final(device)@ == blend_switch(old(device)@, prev, mode),
{
    if mode != prev {
        match mode {
            BlendMode::NoBlend => {
                device.emit(DeviceCommand::SetBlend(false));
            },
            BlendMode::Alpha => {
                device.emit(DeviceCommand::SetBlend(true));
                device.emit(DeviceCommand::SetBlendMode(BlendState::Alpha));
            },
            BlendMode::PremultipliedAlpha => {
                device.emit(DeviceCommand::SetBlend(true));
                device.emit(DeviceCommand::SetBlendMode(BlendState::PremultipliedAlpha));
            },
            BlendMode::PremultipliedDestOut => {
                device.emit(DeviceCommand::SetBlend(true));
                device.emit(DeviceCommand::SetBlendMode(BlendState::PremultipliedDestOut));
            },
            _ => {},
        }
    }
}

/// Draws the batches of a colour target.
pub fn draw_target_batches(
    device: &mut Device,
    ctx: &DrawContext,
    target: &ColorRenderTarget,
    projection: Projection,
    render_target: DrawTarget,
)
    requires
        batches_ok(ctx@, *target),
    ensures
        final(device)@ == draw_batches(old(device)@, ctx@, *target, projection, render_target),
{
    let opaque = &target.alpha_batcher.batch_list.opaque_batch_list.batches;
    let alpha = &target.alpha_batcher.batch_list.alpha_batch_list.batches;
    if opaque.len() == 0 && alpha.len() == 0 {
        return ;
    }
    device.emit(DeviceCommand::SetBlend(false));
    if target.needs_depth() {
        device.emit(DeviceCommand::SetDepthFunc(DepthFunction::LessEqual));
        device.emit(DeviceCommand::EnableDepth);
        device.emit(DeviceCommand::EnableDepthWrite);
        let ghost start = device@;
        let mut n: usize = 0;
        while n < opaque.len()
            invariant
                n <= opaque@.len(),
                opaque == &target.alpha_batcher.batch_list.opaque_batch_list.batches,
                batches_ok(ctx@, *target),
                device@ == draw_opaque_batches(
                    start,
                    ctx@,
                    opaque@,
                    projection,
                    render_target,
                    n as nat,
                ),
            decreases opaque@.len() - n,
        {
            let batch = &opaque[opaque.len() - 1 - n];
            assert(opaque_batch_ok(ctx@, *batch));
            submit_batch(device, ctx, batch, projection, render_target);
            n += 1;
        }
        device.emit(DeviceCommand::DisableDepthWrite);
    }
    let ghost start = device@;
    let mut prev_blend_mode = BlendMode::NoBlend;
    let mut n: usize = 0;
    while n < alpha.len()
        invariant
            n <= alpha@.len(),
            alpha == &target.alpha_batcher.batch_list.alpha_batch_list.batches,
            batches_ok(ctx@, *target),
            prev_blend_mode == blend_after(alpha@, n as nat),
            device@ == draw_alpha_batches(start, ctx@, alpha@, projection, render_target, n as nat),
        decreases alpha@.len() - n,
    {
        let batch = &alpha[n];
        assert(alpha_batch_ok(ctx@, *batch));
        match batch.key.kind {
            BatchKind::Transformable(transform_kind, TransformBatchKind::TextRun(glyph_format)) => {
                draw_text_run_batch(device, ctx, batch, transform_kind, glyph_format, projection);
                prev_blend_mode = BlendMode::NoBlend;
            },
            _ => {
                switch_blend(device, prev_blend_mode, batch.key.blend_mode);
                prev_blend_mode = batch.key.blend_mode;
                submit_batch(device, ctx, batch, projection, render_target);
            },
        }
        n += 1;
    }
    device.emit(DeviceCommand::DisableDepth);
    device.emit(DeviceCommand::SetBlend(false));
}


/// The rectangle of the window that a document clears, with the rows
/// counted from the bottom as the device counts them.
pub open spec fn flipped_rect(rect: DeviceUintRect, target_size: DeviceUintSize) -> DeviceIntRect {
    DeviceIntRect {
        origin: DeviceIntPoint {
            x: rect.origin.x as i32,
            y: (target_size.height - rect.origin.y - rect.size.height) as i32,
        },
        size: DeviceIntSize { width: rect.size.width as i32, height: rect.size.height as i32 },
    }
}

/// The flipped rectangle can be computed in signed 32-bit numbers.
pub open spec fn flip_ok(rect: DeviceUintRect, target_size: DeviceUintSize) -> bool {
    rect.fits_i32() && target_size.fits_i32() && rect.max_y() <= i32::MAX
}

/// The part of a colour target that is cleared; none for all of it. An
/// off-screen target is cleared where tasks were placed if scissored clears
/// are on, and entirely otherwise. The window is cleared where the document
/// is, which needs no rectangle when the document covers the window.
pub open spec fn color_clear_rect(
    ctx: DrawEnv,
    target: ColorRenderTarget,
    render_target: DrawTarget,
    framebuffer_target_rect: DeviceUintRect,
    target_size: DeviceUintSize,
) -> Option<DeviceIntRect> {
    if render_target is Some {
        if ctx.enable_clear_scissor {
            Some(target.used_rect)
        } else {
            None
        }
    } else if framebuffer_target_rect == (DeviceUintRect {
        origin: DeviceUintPoint { x: 0, y: 0 },
        size: target_size,
    }) {
        None
    } else {
        Some(flipped_rect(framebuffer_target_rect, target_size))
    }
}

/// The device after a colour target was bound and cleared: depth test and
/// blending go off; depth is cleared, to the far plane and with depth write
/// on for the clear only, if the target uses depth and the depth buffer was
/// not cleared for the whole frame.
pub open spec fn setup_color_target(
    d: DeviceView,
    ctx: DrawEnv,
    target: ColorRenderTarget,
    render_target: DrawTarget,
    framebuffer_target_rect: DeviceUintRect,
    target_size: DeviceUintSize,
    depth_is_ready: bool,
    clear_color: Option<ColorF>,
) -> DeviceView {
    let bound = d.emit(
        DeviceCommand::BindDrawTarget { target: render_target, dimensions: Some(target_size) },
    ).emit(DeviceCommand::DisableDepth).emit(DeviceCommand::SetBlend(false));
    let rect = color_clear_rect(ctx, target, render_target, framebuffer_target_rect, target_size);
    if !depth_is_ready && target.spec_needs_depth() {
        bound.emit(DeviceCommand::EnableDepthWrite).emit(
            DeviceCommand::ClearTarget {
                color: clear_color,
                depth: Some(F32Bits(0x3f80_0000)),
                rect,
            },
        ).emit(DeviceCommand::DisableDepthWrite)
    } else {
        bound.emit(DeviceCommand::ClearTarget { color: clear_color, depth: None, rect })
    }
}

/// Everything that a colour target draws can be drawn now.
pub open spec fn color_target_ok(ctx: DrawEnv, target: ColorRenderTarget) -> bool {
    &&& ctx.resolver.blits_ok(ctx.tasks, target.blits@)
    &&& scalings_ok(ctx.tasks, target.scalings@)
    &&& text_run_cache_ok(ctx, target.alpha_batcher.text_run_cache_prims@)
    &&& batches_ok(ctx, target)
}

/// The device after a colour target was drawn: bind and clear, the blits
/// from earlier passes, the blurs, the scalings, the cached text runs, and
/// then the batches, opaque before blended.
pub open spec fn draw_color_target_spec(
    d: DeviceView,
    ctx: DrawEnv,
    target: ColorRenderTarget,
    render_target: DrawTarget,
    framebuffer_target_rect: DeviceUintRect,
    target_size: DeviceUintSize,
    depth_is_ready: bool,
    clear_color: Option<ColorF>,
    projection: Projection,
) -> DeviceView {
    let cleared = setup_color_target(
        d,
        ctx,
        target,
        render_target,
        framebuffer_target_rect,
        target_size,
        depth_is_ready,
        clear_color,
    );
    let blitted = ctx.resolver.blits(cleared, ctx.tasks, target.blits@, target.blits@.len());
    let blurred = draw_blurs(
        blitted,
        ctx.shaders.cs_blur_rgba8.id,
        target.vertical_blurs@,
        target.horizontal_blurs@,
        projection,
    );
    let scaled = scale_tasks(
        blurred,
        ctx.tasks,
        target.scalings@,
        ctx.resolver.rgba8_or_dummy().id,
        target.scalings@.len(),
    );
    let cached = draw_text_run_cache(
        scaled,
        ctx,
        target.alpha_batcher.text_run_cache_prims@,
        projection,
    );
    draw_batches(cached, ctx, target, projection, render_target)
}

/// The name and layer of a draw target.
pub open spec fn target_of(render_target: Option<(&Texture, i32)>) -> DrawTarget {
    match render_target {
        Some((texture, layer)) => Some((texture.id, layer)),
        None => None,
    }
}

/// Draws one colour target: a layer of a pooled texture, or the window
/// when `render_target` is none.
pub fn draw_color_target(
    device: &mut Device,
    ctx: &DrawContext,
    render_target: Option<(&Texture, i32)>,
    target: &ColorRenderTarget,
    framebuffer_target_rect: DeviceUintRect,
    target_size: DeviceUintSize,
    depth_is_ready: bool,
    clear_color: Option<ColorF>,
    projection: Projection,
)
    requires
        color_target_ok(ctx@, *target),
        render_target matches Some((texture, _)) ==> (target.spec_needs_depth()
            ==> texture.spec_has_depth()),
        render_target is None ==> flip_ok(framebuffer_target_rect, target_size),
    ensures
        final(device)@ == draw_color_target_spec(
            old(device)@,
            ctx@,
            *target,
            target_of(render_target),
            framebuffer_target_rect,
            target_size,
            depth_is_ready,
            clear_color,
            projection,
        ),
{
    let draw_target: DrawTarget = match render_target {
        Some((texture, layer)) => Some((texture.id, layer)),
        None => None,
    };
    device.emit(
        DeviceCommand::BindDrawTarget { target: draw_target, dimensions: Some(target_size) },
    );
    device.emit(DeviceCommand::DisableDepth);
    device.emit(DeviceCommand::SetBlend(false));
    let depth_clear = if !depth_is_ready && target.needs_depth() {
        device.emit(DeviceCommand::EnableDepthWrite);
        Some(F32Bits::one())
    } else {
        None
    };
    let clear_rect = if draw_target.is_some() {
        if ctx.enable_clear_scissor {
            Some(target.used_rect())
        } else {
            None
        }
    } else if framebuffer_target_rect == DeviceUintRect::new(DeviceUintPoint::zero(), target_size) {
        None
    } else {
        let rect = framebuffer_target_rect.to_i32();
        Some(
            DeviceIntRect::new(
                DeviceIntPoint::new(
                    rect.origin.x,
                    target_size.height as i32 - rect.origin.y - rect.size.height,
                ),
                rect.size,
            ),
        )
    };
    device.clear_target(clear_color, depth_clear, clear_rect);
    if depth_clear.is_some() {
        device.emit(DeviceCommand::DisableDepthWrite);
    }
    handle_blits(device, ctx.resolver, &target.blits, ctx.render_tasks);
    draw_target_blurs(
        device,
        ctx.shaders.cs_blur_rgba8.id,
        &target.vertical_blurs,
        &target.horizontal_blurs,
        projection,
    );
    handle_scaling(
        device,
        ctx.resolver,
        ctx.render_tasks,
        &target.scalings,
        SourceTexture::CacheRGBA8,
    );
    draw_text_run_cache_prims(device, ctx, &target.alpha_batcher.text_run_cache_prims, projection);
    draw_target_batches(device, ctx, target, projection, draw_target);
}

/// The device after `instances`, if there are any, were drawn with
/// `program` in one call.
pub open spec fn draw_if_any(
    d: DeviceView,
    program: ShaderId,
    projection: Projection,
    count: nat,
    instances: UploadDataView,
) -> DeviceView {
    if count == 0 {
        d
    } else {
        d.create_program(program).bind_program(program, projection, 0, instances).emit(
            DeviceCommand::Draw(program),
        )
    }
}

/// The device after the first `n` zero clears: the rectangle of each task
/// is cleared to transparent black.
pub open spec fn zero_clear_tasks(d: DeviceView, tasks: Seq<RenderTask>, ids: Seq<RenderTaskId>, n: nat) -> DeviceView
    decreases n,
{
    if n == 0 {
        d
    } else {
        zero_clear_tasks(d, tasks, ids, (n - 1) as nat).emit(
            DeviceCommand::ClearTarget {
                color: Some(ColorF { r: F32Bits(0), g: F32Bits(0), b: F32Bits(0), a: F32Bits(0) }),
                depth: None,
                rect: Some(task_rect(tasks, ids[n - 1])),
            },
        )
    }
}

/// The device after the first `n` groups of image masks: for each group
/// the mask texture is bound, the instances handed over, and one draw is
/// issued.
pub open spec fn draw_image_masks(
    d: DeviceView,
    ctx: DrawEnv,
    images: Seq<(SourceTexture, Vec<gpu_types::ClipMaskInstance>)>,
    n: nat,
) -> DeviceView
    decreases n,
{
    if n == 0 {
        d
    } else {
        let program = ctx.shaders.cs_clip_image.id;
        ctx.resolver.bind_textures(
            draw_image_masks(d, ctx, images, (n - 1) as nat),
            (BatchTextures {
                color0: images[n - 1].0,
                color1: SourceTexture::Invalid,
                color2: SourceTexture::Invalid,
            }),
        ).bind_program_instances(program, clip_data(images[n - 1].1@)).emit(
            DeviceCommand::Draw(program),
        )
    }
}

/// Everything that a coverage target draws can be drawn now.
pub open spec fn alpha_target_ok(ctx: DrawEnv, target: AlphaRenderTarget) -> bool {
    &&& scalings_ok(ctx.tasks, target.scalings@)
    &&& forall|i: int|
        0 <= i < target.zero_clears@.len() ==> task_ok(ctx.tasks, #[trigger] target.zero_clears@[i])
    &&& forall|i: int|
        0 <= i < target.clip_batcher.images@.len() ==> ctx.resolver.can_bind(
            (#[trigger] target.clip_batcher.images@[i]).0,
        )
}

/// The device after a coverage target was drawn. The used part is cleared
/// to full coverage and the zero clears to none; then come the blurs, the
/// scalings and the two kinds of brush masks; then the clips: border
/// corners are cleared without blending and their dots and dashes drawn
/// with the maximum, and rectangles and image masks are multiplied in.
pub open spec fn draw_alpha_target_spec(
    d: DeviceView,
    ctx: DrawEnv,
    target: AlphaRenderTarget,
    render_target: (TextureId, i32),
    target_size: DeviceUintSize,
    projection: Projection,
) -> DeviceView {
    let cleared = zero_clear_tasks(
        d.emit(
            DeviceCommand::BindDrawTarget {
                target: Some(render_target),
                dimensions: Some(target_size),
            },
        ).emit(DeviceCommand::DisableDepth).emit(DeviceCommand::DisableDepthWrite).emit(
            DeviceCommand::ClearTarget {
                color: Some(
                    ColorF {
                        r: F32Bits(0x3f80_0000),
                        g: F32Bits(0x3f80_0000),
                        b: F32Bits(0x3f80_0000),
                        a: F32Bits(0),
                    },
                ),
                depth: None,
                rect: Some(target.used_rect),
            },
        ),
        ctx.tasks,
        target.zero_clears@,
        target.zero_clears@.len(),
    );
    let blurred = draw_blurs(
        cleared,
        ctx.shaders.cs_blur_a8.id,
        target.vertical_blurs@,
        target.horizontal_blurs@,
        projection,
    );
    let scaled = scale_tasks(
        blurred,
        ctx.tasks,
        target.scalings@,
        ctx.resolver.a8_or_dummy().id,
        target.scalings@.len(),
    );
    let corners = if target.brush_mask_corners@.len() > 0 {
        draw_if_any(
            scaled.emit(DeviceCommand::SetBlend(false)),
            ctx.shaders.brush_mask_corner.id,
            projection,
            target.brush_mask_corners@.len(),
            primitive_data(target.brush_mask_corners@),
        )
    } else {
        scaled
    };
    let rounded = if target.brush_mask_rounded_rects@.len() > 0 {
        draw_if_any(
            corners.emit(DeviceCommand::SetBlend(false)),
            ctx.shaders.brush_mask_rounded_rect.id,
            projection,
            target.brush_mask_rounded_rects@.len(),
            primitive_data(target.brush_mask_rounded_rects@),
        )
    } else {
        corners
    };
    let clears = if target.clip_batcher.border_clears@.len() > 0 {
        draw_if_any(
            rounded.emit(DeviceCommand::SetBlend(false)),
            ctx.shaders.cs_clip_border.id,
            projection,
            target.clip_batcher.border_clears@.len(),
            clip_data(target.clip_batcher.border_clears@),
        )
    } else {
        rounded
    };
    let borders = if target.clip_batcher.borders@.len() > 0 {
        draw_if_any(
            clears.emit(DeviceCommand::SetBlend(true)).emit(
                DeviceCommand::SetBlendMode(BlendState::Max),
            ),
            ctx.shaders.cs_clip_border.id,
            projection,
            target.clip_batcher.borders@.len(),
            clip_data(target.clip_batcher.borders@),
        )
    } else {
        clears
    };
    let rectangles = draw_if_any(
        borders.emit(DeviceCommand::SetBlend(true)).emit(
            DeviceCommand::SetBlendMode(BlendState::Multiply),
        ),
        ctx.shaders.cs_clip_rectangle.id,
        projection,
        target.clip_batcher.rectangles@.len(),
        clip_data(target.clip_batcher.rectangles@),
    );
    draw_image_masks(
        rectangles.create_program(ctx.shaders.cs_clip_image.id).emit(
            DeviceCommand::BindProgramLocals {
                program: ctx.shaders.cs_clip_image.id,
                projection,
                mode: 0,
            },
        ),
        ctx,
        target.clip_batcher.images@,
        target.clip_batcher.images@.len(),
    )
}

/// Draws `instances` with `program` in one call if there are any.
fn draw_instances_if_any(
    device: &mut Device,
    program: ShaderId,
    projection: Projection,
    count: usize,
    instances: UploadData,
)
    ensures
        final(device)@ == draw_if_any(old(device)@, program, projection, count as nat, instances@),
{
    if count > 0 {
        device.create_program(program);
        device.bind_program(program, projection, 0, instances);
        device.draw(program);
    }
}

/// Draws one coverage target: a layer of a pooled texture.
pub fn draw_alpha_target(
    device: &mut Device,
    ctx: &DrawContext,
    render_target: (&Texture, i32),
    target: &AlphaRenderTarget,
    target_size: DeviceUintSize,
    projection: Projection,
)
    requires
        alpha_target_ok(ctx@, *target),
    ensures
        final(device)@ == draw_alpha_target_spec(
            old(device)@,
            ctx@,
            *target,
            (render_target.0.id, render_target.1),
            target_size,
            projection,
        ),
{
    device.emit(
        DeviceCommand::BindDrawTarget {
            target: Some((render_target.0.id, render_target.1)),
            dimensions: Some(target_size),
        },
    );
    device.emit(DeviceCommand::DisableDepth);
    device.emit(DeviceCommand::DisableDepthWrite);
    device.clear_target(
        Some(ColorF::new(F32Bits::one(), F32Bits::one(), F32Bits::one(), F32Bits::zero())),
        None,
        Some(target.used_rect()),
    );
    let ghost start = device@;
    let mut i: usize = 0;
    while i < target.zero_clears.len()
        invariant
            i <= target.zero_clears@.len(),
            alpha_target_ok(ctx@, *target),
            device@ == zero_clear_tasks(start, ctx.tasks(), target.zero_clears@, i as nat),
        decreases target.zero_clears@.len() - i,
    {
        let task_id = target.zero_clears[i];
        assert(task_ok(ctx.tasks(), task_id));
        let (rect, _) = layer_of(&ctx.render_tasks.tasks[task_id.0]);
        device.clear_target(
            Some(ColorF::new(F32Bits::zero(), F32Bits::zero(), F32Bits::zero(), F32Bits::zero())),
            None,
            Some(rect),
        );
        i += 1;
    }
    draw_target_blurs(
        device,
        ctx.shaders.cs_blur_a8.id,
        &target.vertical_blurs,
        &target.horizontal_blurs,
        projection,
    );
    handle_scaling(device, ctx.resolver, ctx.render_tasks, &target.scalings, SourceTexture::CacheA8);
    if target.brush_mask_corners.len() > 0 {
        device.emit(DeviceCommand::SetBlend(false));
        draw_instances_if_any(
            device,
            ctx.shaders.brush_mask_corner.id,
            projection,
            target.brush_mask_corners.len(),
            convert_primitives(&target.brush_mask_corners),
        );
    }
    if target.brush_mask_rounded_rects.len() > 0 {
        device.emit(DeviceCommand::SetBlend(false));
        draw_instances_if_any(
            device,
            ctx.shaders.brush_mask_rounded_rect.id,
            projection,
            target.brush_mask_rounded_rects.len(),
            convert_primitives(&target.brush_mask_rounded_rects),
        );
    }
    if target.clip_batcher.border_clears.len() > 0 {
        device.emit(DeviceCommand::SetBlend(false));
        draw_instances_if_any(
            device,
            ctx.shaders.cs_clip_border.id,
            projection,
            target.clip_batcher.border_clears.len(),
            convert_clips(&target.clip_batcher.border_clears),
        );
    }
    if target.clip_batcher.borders.len() > 0 {
        device.emit(DeviceCommand::SetBlend(true));
        device.emit(DeviceCommand::SetBlendMode(BlendState::Max));
        draw_instances_if_any(
            device,
            ctx.shaders.cs_clip_border.id,
            projection,
            target.clip_batcher.borders.len(),
            convert_clips(&target.clip_batcher.borders),
        );
    }
    device.emit(DeviceCommand::SetBlend(true));
    device.emit(DeviceCommand::SetBlendMode(BlendState::Multiply));
    draw_instances_if_any(
        device,
        ctx.shaders.cs_clip_rectangle.id,
        projection,
        target.clip_batcher.rectangles.len(),
        convert_clips(&target.clip_batcher.rectangles),
    );
    let program = ctx.shaders.cs_clip_image.get(device);
    device.emit(DeviceCommand::BindProgramLocals { program, projection, mode: 0 });
    let ghost start = device@;
    let mut i: usize = 0;
    while i < target.clip_batcher.images.len()
        invariant
            i <= target.clip_batcher.images@.len(),
            program == ctx.shaders.cs_clip_image.id,
            alpha_target_ok(ctx@, *target),
            device@ == draw_image_masks(start, ctx@, target.clip_batcher.images@, i as nat),
        decreases target.clip_batcher.images@.len() - i,
    {
        assert(ctx.resolver@.can_bind(target.clip_batcher.images@[i as int].0));
        let textures = BatchTextures::color(target.clip_batcher.images[i].0);
        bind_batch_textures(ctx.resolver, &textures, device);
        device.bind_program_instances(program, convert_clips(&target.clip_batcher.images[i].1));
        device.draw(program);
        i += 1;
    }
}

/// The device after a target in the texture cache was drawn: the layer is
/// bound at the size of its texture, with depth and blending off; then come
/// the blits and the horizontal blurs.
pub open spec fn draw_texture_cache_target_spec(
    d: DeviceView,
    ctx: DrawEnv,
    texture: SourceTexture,
    layer: i32,
    target: TextureCacheRenderTarget,
) -> DeviceView {
    let resolved = ctx.resolver.resolve(texture)->0;
    let blitted = ctx.resolver.blits(
        d.emit(
            DeviceCommand::BindDrawTarget {
                target: Some((resolved.id, layer)),
                dimensions: Some(
                    DeviceUintSize { width: resolved.width, height: resolved.height },
                ),
            },
        ).emit(DeviceCommand::DisableDepth).emit(DeviceCommand::DisableDepthWrite).emit(
            DeviceCommand::SetBlend(false),
        ),
        ctx.tasks,
        target.blits@,
        target.blits@.len(),
    );
    draw_if_any(
        blitted,
        ctx.shaders.cs_blur_a8.id,
        Projection { width: resolved.width, height: resolved.height },
        target.horizontal_blurs@.len(),
        blur_data(target.horizontal_blurs@),
    )
}

/// The target in the texture cache can be drawn now.
pub open spec fn texture_cache_target_ok(
    ctx: DrawEnv,
    texture: SourceTexture,
    target: TextureCacheRenderTarget,
) -> bool {
    &&& ctx.resolver.can_resolve(texture)
    &&& ctx.resolver.resolve(texture) is Some
    &&& ctx.resolver.blits_ok(ctx.tasks, target.blits@)
}

/// Draws one target that lives in a layer of the texture cache.
pub fn draw_texture_cache_target(
    device: &mut Device,
    ctx: &DrawContext,
    texture: &SourceTexture,
    layer: i32,
    target: &TextureCacheRenderTarget,
)
    requires
        texture_cache_target_ok(ctx@, *texture, *target),
    ensures
        final(device)@ == draw_texture_cache_target_spec(
            old(device)@,
            ctx@,
            *texture,
            layer,
            *target,
        ),
{
    match ctx.resolver.resolve(texture) {
        Some(resolved) => {
            let target_size = resolved.get_dimensions();
            device.emit(
                DeviceCommand::BindDrawTarget {
                    target: Some((resolved.id, layer)),
                    dimensions: Some(target_size),
                },
            );
            device.emit(DeviceCommand::DisableDepth);
            device.emit(DeviceCommand::DisableDepthWrite);
            device.emit(DeviceCommand::SetBlend(false));
            let projection = Projection { width: target_size.width, height: target_size.height };
            handle_blits(device, ctx.resolver, &target.blits, ctx.render_tasks);
            draw_instances_if_any(
                device,
                ctx.shaders.cs_blur_a8.id,
                projection,
                target.horizontal_blurs.len(),
                convert_blurs(&target.horizontal_blurs),
            );
        },
        None => {},
    }
}


/// Whether `id` names a task that was placed.
pub fn check_task(tasks: &Vec<RenderTask>, id: RenderTaskId) -> (b: bool)
    ensures
        b == task_ok(tasks@, id),
{
    if id.0 >= tasks.len() {
        return false;
    }
    let task = &tasks[id.0];
    match task.location {
        Some(location) => location.origin.x <= 0x7fff_ffff && location.origin.y <= 0x7fff_ffff
            && task.size.width <= 0x7fff_ffff && task.size.height <= 0x7fff_ffff,
        None => false,
    }
}

/// Whether every texture of `textures` can be bound now.
pub fn check_textures(resolver: &SourceTextureResolver, textures: &BatchTextures) -> (b: bool)
    ensures
        b == resolver@.textures_ok(*textures),
{
    resolver.can_bind(&textures.color0) && resolver.can_bind(&textures.color1)
        && resolver.can_bind(&textures.color2)
}

/// Whether every one of `blits` can be carried out now.
pub fn check_blits(resolver: &SourceTextureResolver, tasks: &Vec<RenderTask>, blits: &Vec<BlitJob>) -> (b: bool)
    ensures
        b == resolver@.blits_ok(tasks@, blits@),
{
    let mut i: usize = 0;
    while i < blits.len()
        invariant
            i <= blits@.len(),
            forall|k: int| 0 <= k < i ==> resolver@.blit_ok(tasks@, #[trigger] blits@[k]),
        decreases blits@.len() - i,
    {
        let blit = blits[i];
        let ok = match blit.source {
            BlitJobSource::Texture(texture_id, _, source_rect) => {
                if resolver.can_resolve(&texture_id) {
                    resolver.resolve(&texture_id).is_some() && source_rect.size
                        == blit.target_rect.size
                } else {
                    false
                }
            },
            BlitJobSource::RenderTask(task_id) => {
                if check_task(tasks, task_id) {
                    let (rect, _) = tasks[task_id.0].get_target_rect();
                    rect.size == blit.target_rect.size
                } else {
                    false
                }
            },
        };
        if !ok {
            assert(!resolver@.blit_ok(tasks@, blits@[i as int]));
            return false;
        }
        i += 1;
    }
    true
}

/// Whether both tasks of every one of `scalings` were placed.
pub fn check_scalings(tasks: &Vec<RenderTask>, scalings: &Vec<ScalingInfo>) -> (b: bool)
    ensures
        b == scalings_ok(tasks@, scalings@),
{
    let mut i: usize = 0;
    while i < scalings.len()
        invariant
            i <= scalings@.len(),
            forall|k: int| 0 <= k < i ==> scaling_ok(tasks@, #[trigger] scalings@[k]),
        decreases scalings@.len() - i,
    {
        let scaling = scalings[i];
        if !(check_task(tasks, scaling.src_task_id) && check_task(tasks, scaling.dest_task_id)) {
            assert(!scaling_ok(tasks@, scalings@[i as int]));
            return false;
        }
        i += 1;
    }
    true
}

/// Whether the three tasks of a composite are as a composite needs them.
pub fn check_composite(
    tasks: &Vec<RenderTask>,
    task_id: RenderTaskId,
    source_id: RenderTaskId,
    backdrop_id: RenderTaskId,
) -> (b: bool)
    ensures
        b == (CompositeTasks { task_id, source_id, backdrop_id }).ok(tasks@),
{
    if !(check_task(tasks, task_id) && check_task(tasks, source_id) && check_task(
        tasks,
        backdrop_id,
    )) {
        return false;
    }
    let source_origin = match tasks[source_id.0].kind {
        RenderTaskKind::Picture { content_origin: ContentOrigin::Screen(p), .. } => p,
        _ => {
            return false;
        },
    };
    let backdrop_origin = match tasks[task_id.0].kind {
        RenderTaskKind::Picture { content_origin: ContentOrigin::Screen(p), .. } => p,
        _ => {
            return false;
        },
    };
    let (backdrop_rect, _) = tasks[task_id.0].get_target_rect();
    let dx: i64 = backdrop_rect.origin.x as i64 - backdrop_origin.x as i64;
    let dy: i64 = backdrop_rect.origin.y as i64 - backdrop_origin.y as i64;
    let x: i64 = source_origin.x as i64 + dx;
    let y: i64 = source_origin.y as i64 + dy;
    -0x8000_0000 <= dx && dx <= 0x7fff_ffff && -0x8000_0000 <= dy && dy <= 0x7fff_ffff
        && -0x8000_0000 <= x && x <= 0x7fff_ffff && -0x8000_0000 <= y && y <= 0x7fff_ffff
}

/// Whether the batch can be drawn now.
pub fn check_batch(ctx: &DrawContext, batch: &Batch) -> (b: bool)
    ensures
        b == batch_ok(ctx@, *batch),
{
    if !check_textures(ctx.resolver, &batch.key.textures) {
        return false;
    }
    match batch.key.kind {
        BatchKind::Composite { task_id, source_id, backdrop_id } => batch.instances.len() == 1
            && check_composite(&ctx.render_tasks.tasks, task_id, source_id, backdrop_id),
        _ => true,
    }
}

/// Whether a batch of the blended list can be drawn now.
pub fn check_alpha_batch(ctx: &DrawContext, batch: &Batch) -> (b: bool)
    ensures
        b == alpha_batch_ok(ctx@, *batch),
{
    if !check_batch(ctx, batch) {
        return false;
    }
    match batch.key.kind {
        BatchKind::Transformable(_, TransformBatchKind::TextRun(glyph_format)) => {
            match batch.key.blend_mode {
                BlendMode::PremultipliedAlpha => match glyph_format {
                    GlyphFormat::Subpixel => false,
                    GlyphFormat::TransformedSubpixel => false,
                    _ => true,
                },
                BlendMode::SubpixelDualSource => true,
                BlendMode::SubpixelConstantTextColor(_) => true,
                BlendMode::SubpixelVariableTextColor => true,
                BlendMode::SubpixelWithBgColor => true,
                _ => false,
            }
        },
        _ => match batch.key.blend_mode {
            BlendMode::NoBlend => true,
            BlendMode::Alpha => true,
            BlendMode::PremultipliedAlpha => true,
            BlendMode::PremultipliedDestOut => true,
            _ => false,
        },
    }
}

/// Whether a batch of the opaque list can be drawn now.
pub fn check_opaque_batch(ctx: &DrawContext, batch: &Batch) -> (b: bool)
    ensures
        b == opaque_batch_ok(ctx@, *batch),
{
    if !check_batch(ctx, batch) {
        return false;
    }
    match batch.key.kind {
        BatchKind::Transformable(_, TransformBatchKind::TextRun(_)) => false,
        _ => true,
    }
}

/// Whether every batch of the target can be drawn now.
pub fn check_batches(ctx: &DrawContext, target: &ColorRenderTarget) -> (b: bool)
    ensures
        b == batches_ok(ctx@, *target),
{
    let opaque = &target.alpha_batcher.batch_list.opaque_batch_list.batches;
    let alpha = &target.alpha_batcher.batch_list.alpha_batch_list.batches;
    let mut i: usize = 0;
    while i < opaque.len()
        invariant
            i <= opaque@.len(),
            opaque == &target.alpha_batcher.batch_list.opaque_batch_list.batches,
            forall|k: int| 0 <= k < i ==> opaque_batch_ok(ctx@, #[trigger] opaque@[k]),
        decreases opaque@.len() - i,
    {
        if !check_opaque_batch(ctx, &opaque[i]) {
            assert(!opaque_batch_ok(ctx@, opaque@[i as int]));
            return false;
        }
        i += 1;
    }
    let mut i: usize = 0;
    while i < alpha.len()
        invariant
            i <= alpha@.len(),
            alpha == &target.alpha_batcher.batch_list.alpha_batch_list.batches,
            opaque == &target.alpha_batcher.batch_list.opaque_batch_list.batches,
            forall|k: int| 0 <= k < opaque@.len() ==> opaque_batch_ok(ctx@, #[trigger] opaque@[k]),
            forall|k: int| 0 <= k < i ==> alpha_batch_ok(ctx@, #[trigger] alpha@[k]),
        decreases alpha@.len() - i,
    {
        if !check_alpha_batch(ctx, &alpha[i]) {
            assert(!alpha_batch_ok(ctx@, alpha@[i as int]));
            return false;
        }
        i += 1;
    }
    true
}

/// Whether the texture of every group of cached text runs can be bound.
pub fn check_text_run_cache(
    ctx: &DrawContext,
    prims: &Vec<(SourceTexture, Vec<gpu_types::PrimitiveInstance>)>,
) -> (b: bool)
    ensures
        b == text_run_cache_ok(ctx@, prims@),
{
    let mut i: usize = 0;
    while i < prims.len()
        invariant
            i <= prims@.len(),
            forall|k: int| 0 <= k < i ==> ctx.resolver@.can_bind((#[trigger] prims@[k]).0),
        decreases prims@.len() - i,
    {
        if !ctx.resolver.can_bind(&prims[i].0) {
            assert(!ctx.resolver@.can_bind(prims@[i as int].0));
            return false;
        }
        i += 1;
    }
    true
}

/// Whether everything that a colour target draws can be drawn now.
pub fn check_color_target(ctx: &DrawContext, target: &ColorRenderTarget) -> (b: bool)
    ensures
        b == color_target_ok(ctx@, *target),
{
    check_blits(ctx.resolver, &ctx.render_tasks.tasks, &target.blits) && check_scalings(
        &ctx.render_tasks.tasks,
        &target.scalings,
    ) && check_text_run_cache(ctx, &target.alpha_batcher.text_run_cache_prims) && check_batches(
        ctx,
        target,
    )
}

/// Whether everything that a coverage target draws can be drawn now.
pub fn check_alpha_target(ctx: &DrawContext, target: &AlphaRenderTarget) -> (b: bool)
    ensures
        b == alpha_target_ok(ctx@, *target),
{
    if !check_scalings(&ctx.render_tasks.tasks, &target.scalings) {
        return false;
    }
    let mut i: usize = 0;
    while i < target.zero_clears.len()
        invariant
            i <= target.zero_clears@.len(),
            forall|k: int| 0 <= k < i ==> task_ok(ctx@.tasks, #[trigger] target.zero_clears@[k]),
        decreases target.zero_clears@.len() - i,
    {
        if !check_task(&ctx.render_tasks.tasks, target.zero_clears[i]) {
            assert(!task_ok(ctx@.tasks, target.zero_clears@[i as int]));
            return false;
        }
        i += 1;
    }
    let mut i: usize = 0;
    while i < target.clip_batcher.images.len()
        invariant
            i <= target.clip_batcher.images@.len(),
            forall|k: int|
                0 <= k < target.zero_clears@.len() ==> task_ok(
                    ctx@.tasks,
                    #[trigger] target.zero_clears@[k],
                ),
            forall|k: int|
                0 <= k < i ==> ctx.resolver@.can_bind((#[trigger] target.clip_batcher.images@[k]).0),
        decreases target.clip_batcher.images@.len() - i,
    {
        if !ctx.resolver.can_bind(&target.clip_batcher.images[i].0) {
            assert(!ctx.resolver@.can_bind(target.clip_batcher.images@[i as int].0));
            return false;
        }
        i += 1;
    }
    true
}

/// Whether the target in the texture cache can be drawn now.
pub fn check_texture_cache_target(
    ctx: &DrawContext,
    texture: &SourceTexture,
    target: &TextureCacheRenderTarget,
) -> (b: bool)
    ensures
        b == texture_cache_target_ok(ctx@, *texture, *target),
{
    if !ctx.resolver.can_resolve(texture) {
        return false;
    }
    ctx.resolver.resolve(texture).is_some() && check_blits(
        ctx.resolver,
        &ctx.render_tasks.tasks,
        &target.blits,
    )
}

/// Whether the rectangle of a document in the window can be flipped.
pub fn check_flip(rect: &DeviceUintRect, target_size: &DeviceUintSize) -> (b: bool)
    ensures
        b == flip_ok(*rect, *target_size),
{
    rect.origin.x <= 0x7fff_ffff && rect.origin.y <= 0x7fff_ffff && rect.size.width <= 0x7fff_ffff
        && rect.size.height <= 0x7fff_ffff && target_size.width <= 0x7fff_ffff
        && target_size.height <= 0x7fff_ffff && rect.origin.y as u64 + rect.size.height as u64
        <= 0x7fff_ffff
}

} // verus!
