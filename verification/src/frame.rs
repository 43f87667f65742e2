//! Drawing one frame: the data that the whole frame shares, then pass after
//! pass, with the textures that each pass leaves for the next.

use vstd::prelude::*;
use crate::api::{ColorF, F32Bits, PipelineId};
use crate::device::{Device, DeviceCommand, DeviceView, FBOId, FrameId, Projection, RenderTargetInfo, Texture, UploadDataView};
use crate::draw::{check_alpha_target, check_color_target, check_flip, check_task, check_texture_cache_target, alpha_target_ok, color_target_ok, draw_alpha_target, draw_alpha_target_spec, draw_color_target, draw_color_target_spec, draw_texture_cache_target, draw_texture_cache_target_spec, flip_ok, task_ok, task_rect, texture_cache_target_ok, DrawContext, DrawEnv, DrawTarget};
use crate::internal_types::{RenderPassIndex, SourceTexture};
use crate::render_task::{RenderTask, RenderTaskData, RenderTaskTree};
use crate::renderer::{RendererStats, TextureSampler};
use crate::shaders::Shaders;
use crate::texture_resolver::{prepare_list, ResolverView, SourceTextureResolver};
use crate::tiling::{AlphaRenderTarget, ClipScrollNodeData, ColorRenderTarget, Frame, FrameOutput, FrameView, LayerRect, RenderPass, RenderPassKind, RenderTarget, RenderTargetList, TextureCacheRenderTarget};
use crate::units::{DeviceIntPoint, DeviceIntRect, DeviceIntSize, DeviceUintRect, DeviceUintSize};

verus! {

/// A framebuffer object that wraps a texture of the embedder, to which the
/// output of a pipeline is copied.
#[derive(Clone, Copy, Debug, PartialEq, Eq, Structural)]
pub struct OutputTarget {
    /// The embedder's texture.
    pub texture_id: u32,
    pub fbo_id: FBOId,
    /// The last frame that copied to it.
    pub last_access: FrameId,
}

/// A texture that the embedder offers to receive the output of a pipeline
/// during this frame.
#[derive(Clone, Copy, Debug, PartialEq, Eq, Structural)]
pub struct LockedOutput {
    pub pipeline_id: PipelineId,
    pub texture_id: u32,
    pub size: DeviceIntSize,
}

/// The position of the first offer for `pipeline_id` at or after `start`,
/// or the number of offers when there is none.
pub open spec fn find_locked_output(locked: Seq<LockedOutput>, pipeline_id: PipelineId, start: int) -> int
    decreases locked.len() - start,
{
    if start >= locked.len() {
        locked.len() as int
    } else if locked[start].pipeline_id == pipeline_id {
        start
    } else {
        find_locked_output(locked, pipeline_id, start + 1)
    }
}

/// The position of the first output target for the embedder's texture at
/// or after `start`, or the number of targets when there is none.
pub open spec fn find_output_target(targets: Seq<OutputTarget>, texture_id: u32, start: int) -> int
    decreases targets.len() - start,
{
    if start >= targets.len() {
        targets.len() as int
    } else if targets[start].texture_id == texture_id {
        start
    } else {
        find_output_target(targets, texture_id, start + 1)
    }
}

/// The device and the output targets, which the copies to the embedder
/// change together.
pub struct OutputState {
    pub device: DeviceView,
    pub targets: Seq<OutputTarget>,
}

impl OutputState {
    /// The state after the rectangle `src` of `render_target` was copied to
    /// the embedder's texture of `offer`: the texture's framebuffer object
    /// is created if this is its first use, and marked as used in
    /// `frame_id`; the target is read from, the object drawn to, and the
    /// rectangle copied to the whole of the texture.
    pub open spec fn copy_out(
        self,
        offer: LockedOutput,
        src: DeviceIntRect,
        render_target: DrawTarget,
        frame_id: FrameId,
    ) -> OutputState {
        let pos = find_output_target(self.targets, offer.texture_id, 0);
        let fbo = if pos < self.targets.len() {
            self.targets[pos].fbo_id
        } else {
            self.device.next_fbo()
        };
        let entry = OutputTarget { texture_id: offer.texture_id, fbo_id: fbo, last_access: frame_id };
        OutputState {
            device: (if pos < self.targets.len() {
                self.device
            } else {
                self.device.create_fbo(offer.texture_id)
            }).emit(DeviceCommand::BindReadTarget { target: render_target }).emit(
                DeviceCommand::BindExternalDrawTarget(fbo),
            ).emit(
                DeviceCommand::BlitRenderTarget {
                    src,
                    dest: DeviceIntRect { origin: DeviceIntPoint { x: 0, y: 0 }, size: offer.size },
                },
            ),
            targets: if pos < self.targets.len() {
                self.targets.update(pos, entry)
            } else {
                self.targets.push(entry)
            },
        }
    }

    /// The state after the first `n` outputs of a target were handled: an
    /// output whose pipeline the embedder made an offer for is copied out,
    /// any other is skipped.
    pub open spec fn copy_outputs(
        self,
        tasks: Seq<RenderTask>,
        outputs: Seq<FrameOutput>,
        locked: Seq<LockedOutput>,
        render_target: DrawTarget,
        frame_id: FrameId,
        n: nat,
    ) -> OutputState
        decreases n,
    {
        if n == 0 {
            self
        } else {
            let before = self.copy_outputs(
                tasks,
                outputs,
                locked,
                render_target,
                frame_id,
                (n - 1) as nat,
            );
            let output = outputs[n - 1];
            let pos = find_locked_output(locked, output.pipeline_id, 0);
            if pos < locked.len() {
                before.copy_out(locked[pos], task_rect(tasks, output.task_id), render_target, frame_id)
            } else {
                before
            }
        }
    }

    /// The state after the output targets that frame `frame_id` did not use
    /// were given up, looking at the first `n`: their framebuffer objects
    /// are destroyed, in order, and the others stay, in order.
    pub open spec fn collect(self, all: Seq<OutputTarget>, frame_id: FrameId, n: nat) -> OutputState
        decreases n,
    {
        if n == 0 {
            OutputState { device: self.device, targets: Seq::empty() }
        } else {
            let before = self.collect(all, frame_id, (n - 1) as nat);
            if all[n - 1].last_access == frame_id {
                OutputState { device: before.device, targets: before.targets.push(all[n - 1]) }
            } else {
                OutputState {
                    device: before.device.emit(DeviceCommand::DeleteFbo(all[n - 1].fbo_id)),
                    targets: before.targets,
                }
            }
        }
    }
}

/// No texture of the embedder has two output targets.
pub open spec fn targets_unique(targets: Seq<OutputTarget>) -> bool {
    forall|i: int, j: int|
        0 <= i < targets.len() && 0 <= j < targets.len() && (#[trigger] targets[i]).texture_id == (
        #[trigger] targets[j]).texture_id ==> i == j
}

/// The first output target for a texture at or after `start` lies between
/// `start` and the number of targets; if it is a target, it is for the
/// texture; and no target between `start` and it is.
pub proof fn lemma_find_output_target(targets: Seq<OutputTarget>, texture_id: u32, start: int)
    requires
        0 <= start <= targets.len(),
    ensures
        start <= find_output_target(targets, texture_id, start) <= targets.len(),
        find_output_target(targets, texture_id, start) < targets.len() ==> targets[find_output_target(
            targets,
            texture_id,
            start,
        )].texture_id == texture_id,
        forall|k: int|
            start <= k < find_output_target(targets, texture_id, start) ==> (
            #[trigger] targets[k]).texture_id != texture_id,
    decreases targets.len() - start,
{
    if start < targets.len() && targets[start].texture_id != texture_id {
        lemma_find_output_target(targets, texture_id, start + 1);
    }
}

/// The output targets are a map from the embedder's texture to its
/// framebuffer object: copying to a texture keeps every texture at one
/// target.
pub proof fn lemma_output_targets_unique(
    state: OutputState,
    offer: LockedOutput,
    src: DeviceIntRect,
    render_target: DrawTarget,
    frame_id: FrameId,
)
    requires
        targets_unique(state.targets),
    ensures
        targets_unique(state.copy_out(offer, src, render_target, frame_id).targets),
{
    let targets = state.targets;
    let copied = state.copy_out(offer, src, render_target, frame_id).targets;
    let pos = find_output_target(targets, offer.texture_id, 0);
    lemma_find_output_target(targets, offer.texture_id, 0);
    assert forall|i: int, j: int|
        0 <= i < copied.len() && 0 <= j < copied.len() && (#[trigger] copied[i]).texture_id == (
        #[trigger] copied[j]).texture_id implies i == j by {
        if pos < targets.len() {
            assert(copied[i].texture_id == targets[i].texture_id);
            assert(copied[j].texture_id == targets[j].texture_id);
        } else {
            if i < targets.len() {
                assert(copied[i] == targets[i]);
            }
            if j < targets.len() {
                assert(copied[j] == targets[j]);
            }
        }
    }
}

/// Giving up the output targets that a frame did not use keeps every
/// texture at one target: the targets that stay when the first `n` are
/// looked at are among the first `n`.
pub proof fn lemma_collect_in_order(state: OutputState, frame_id: FrameId, n: nat)
    requires
        targets_unique(state.targets),
        n <= state.targets.len(),
    ensures
        targets_unique(state.collect(state.targets, frame_id, n).targets),
        forall|k: int|
            0 <= k < state.collect(state.targets, frame_id, n).targets.len() ==> exists|i: int|
                0 <= i < n && state.targets[i] == #[trigger] state.collect(
                    state.targets,
                    frame_id,
                    n,
                ).targets[k],
    decreases n,
{
    if n > 0 {
        lemma_collect_in_order(state, frame_id, (n - 1) as nat);
        let before = state.collect(state.targets, frame_id, (n - 1) as nat).targets;
        let after = state.collect(state.targets, frame_id, n).targets;
        let last = state.targets[n - 1];
        assert forall|k: int| 0 <= k < after.len() implies exists|i: int|
            0 <= i < n && state.targets[i] == #[trigger] after[k] by {
            if k < before.len() {
                assert(after[k] == before[k]);
                let i = choose|i: int| 0 <= i < n - 1 && state.targets[i] == before[k];
                assert(0 <= i < n && state.targets[i] == after[k]);
            } else {
                assert(after[k] == last);
                assert(0 <= n - 1 < n && state.targets[n - 1] == after[k]);
            }
        }
        assert forall|a: int, b: int|
            0 <= a < after.len() && 0 <= b < after.len() && (#[trigger] after[a]).texture_id == (
            #[trigger] after[b]).texture_id implies a == b by {
            if a < before.len() && b < before.len() {
                assert(after[a] == before[a] && after[b] == before[b]);
            } else if a < before.len() {
                assert(after[a] == before[a]);
                let i = choose|i: int| 0 <= i < n - 1 && state.targets[i] == before[a];
                assert(state.targets[i].texture_id == state.targets[n - 1].texture_id);
            } else if b < before.len() {
                assert(after[b] == before[b]);
                let i = choose|i: int| 0 <= i < n - 1 && state.targets[i] == before[b];
                assert(state.targets[i].texture_id == state.targets[n - 1].texture_id);
            }
        }
    }
}

/// The task of every output was placed.
pub open spec fn outputs_ok(tasks: Seq<RenderTask>, outputs: Seq<FrameOutput>) -> bool {
    forall|i: int| 0 <= i < outputs.len() ==> task_ok(tasks, (#[trigger] outputs[i]).task_id)
}

/// The embedder's offer for `pipeline_id`, if it made one.
pub fn locked_output(locked: &Vec<LockedOutput>, pipeline_id: PipelineId) -> (offer: Option<LockedOutput>)
    ensures
        match offer {
            Some(o) => find_locked_output(locked@, pipeline_id, 0) < locked@.len() && o
                == locked@[find_locked_output(locked@, pipeline_id, 0)],
            None => find_locked_output(locked@, pipeline_id, 0) == locked@.len(),
        },
{
    let mut i: usize = 0;
    while i < locked.len()
        invariant
            i <= locked@.len(),
            find_locked_output(locked@, pipeline_id, 0) == find_locked_output(
                locked@,
                pipeline_id,
                i as int,
            ),
        decreases locked@.len() - i,
    {
        if locked[i].pipeline_id == pipeline_id {
            return Some(locked[i]);
        }
        i += 1;
    }
    None
}

/// Copies a rectangle of the target that was just drawn to a texture that
/// the embedder offered.
pub fn copy_to_output(
    device: &mut Device,
    output_targets: &mut Vec<OutputTarget>,
    offer: LockedOutput,
    src: DeviceIntRect,
    render_target: DrawTarget,
    frame_id: FrameId,
)
    ensures
        (OutputState { device: final(device)@, targets: final(output_targets)@ }) == (OutputState {
            device: old(device)@,
            targets: old(output_targets)@,
        }).copy_out(offer, src, render_target, frame_id),
{
    let mut pos: usize = 0;
    let mut found = false;
    while pos < output_targets.len() && !found
        invariant
            pos <= output_targets@.len(),
            *output_targets == *old(output_targets),
            found ==> pos < output_targets@.len(),
            find_output_target(output_targets@, offer.texture_id, 0) == if found {
                pos as int
            } else {
                find_output_target(output_targets@, offer.texture_id, pos as int)
            },
        decreases output_targets@.len() - pos + if found { 0int } else { 1int },
    {
        if output_targets[pos].texture_id == offer.texture_id {
            found = true;
        } else {
            pos += 1;
        }
    }
    let fbo_id = if found {
        let fbo_id = output_targets[pos].fbo_id;
        output_targets[pos] = OutputTarget {
            texture_id: offer.texture_id,
            fbo_id,
            last_access: frame_id,
        };
        fbo_id
    } else {
        let fbo_id = device.create_fbo_for_external_texture(offer.texture_id);
        output_targets.push(
            OutputTarget { texture_id: offer.texture_id, fbo_id, last_access: frame_id },
        );
        fbo_id
    };
    device.emit(DeviceCommand::BindReadTarget { target: render_target });
    device.emit(DeviceCommand::BindExternalDrawTarget(fbo_id));
    device.emit(
        DeviceCommand::BlitRenderTarget {
            src,
            dest: DeviceIntRect::new(DeviceIntPoint::zero(), offer.size),
        },
    );
}

/// Hands the outputs of the target that was just drawn to the embedder.
pub fn handle_outputs(
    device: &mut Device,
    output_targets: &mut Vec<OutputTarget>,
    render_tasks: &RenderTaskTree,
    outputs: &Vec<FrameOutput>,
    locked: &Vec<LockedOutput>,
    render_target: DrawTarget,
    frame_id: FrameId,
)
    requires
        outputs_ok(render_tasks.tasks@, outputs@),
    ensures
        (OutputState { device: final(device)@, targets: final(output_targets)@ }) == (OutputState {
            device: old(device)@,
            targets: old(output_targets)@,
        }).copy_outputs(
            render_tasks.tasks@,
            outputs@,
            locked@,
            render_target,
            frame_id,
            outputs@.len(),
        ),
{
    let ghost start = OutputState { device: device@, targets: output_targets@ };
    let mut i: usize = 0;
    while i < outputs.len()
        invariant
            i <= outputs@.len(),
            outputs_ok(render_tasks.tasks@, outputs@),
            (OutputState { device: device@, targets: output_targets@ }) == start.copy_outputs(
                render_tasks.tasks@,
                outputs@,
                locked@,
                render_target,
                frame_id,
                i as nat,
            ),
        decreases outputs@.len() - i,
    {
        let output = outputs[i];
        assert(task_ok(render_tasks.tasks@, output.task_id));
        match locked_output(locked, output.pipeline_id) {
            Some(offer) => {
                let (src_rect, _) = render_tasks.tasks[output.task_id.0].get_target_rect();
                copy_to_output(device, output_targets, offer, src_rect, render_target, frame_id);
            },
            None => {},
        }
        i += 1;
    }
}

/// Gives up the output targets that frame `frame_id` did not use.
pub fn collect_output_targets(device: &mut Device, output_targets: &mut Vec<OutputTarget>, frame_id: FrameId)
    ensures
        (OutputState { device: final(device)@, targets: final(output_targets)@ }) == (OutputState {
            device: old(device)@,
            targets: old(output_targets)@,
        }).collect(old(output_targets)@, frame_id, old(output_targets)@.len()),
{
    let ghost start = OutputState { device: device@, targets: output_targets@ };
    let mut kept: Vec<OutputTarget> = Vec::new();
    let mut i: usize = 0;
    while i < output_targets.len()
        invariant
            i <= output_targets@.len(),
            *output_targets == *old(output_targets),
            (OutputState { device: device@, targets: kept@ }) == start.collect(
                output_targets@,
                frame_id,
                i as nat,
            ),
        decreases output_targets@.len() - i,
    {
        let target = output_targets[i];
        if target.last_access == frame_id {
            kept.push(target);
        } else {
            device.emit(DeviceCommand::DeleteFbo(target.fbo_id));
        }
        i += 1;
    }
    *output_targets = kept;
}


/// The texture of the coverage list of an off-screen pass.
pub open spec fn pass_alpha_texture(pass: RenderPass) -> Option<Texture> {
    match pass.kind {
        RenderPassKind::OffScreen { alpha, .. } => alpha.texture,
        RenderPassKind::MainFramebuffer(_) => None,
    }
}

/// The texture of the colour list of an off-screen pass.
pub open spec fn pass_color_texture(pass: RenderPass) -> Option<Texture> {
    match pass.kind {
        RenderPassKind::OffScreen { color, .. } => color.texture,
        RenderPassKind::MainFramebuffer(_) => None,
    }
}

/// `after` is `before` but for the textures of its two lists.
pub open spec fn same_but_textures(after: RenderPass, before: RenderPass) -> bool {
    &&& after.tasks == before.tasks
    &&& match before.kind {
        RenderPassKind::MainFramebuffer(_) => after.kind == before.kind,
        RenderPassKind::OffScreen { alpha, color, texture_cache } => {
            &&& after.kind matches RenderPassKind::OffScreen {
                alpha: alpha2,
                color: color2,
                texture_cache: texture_cache2,
            }
            &&& alpha2.format == alpha.format
            &&& alpha2.max_size == alpha.max_size
            &&& alpha2.targets == alpha.targets
            &&& color2.format == color.format
            &&& color2.max_size == color.max_size
            &&& color2.targets == color.targets
            &&& texture_cache2 == texture_cache
        },
    }
}

/// The texture of a list, if it has one, is a render target with a depth
/// buffer exactly when the list needs one.
pub open spec fn texture_fits<T: RenderTarget>(list: RenderTargetList<T>) -> bool {
    list.texture matches Some(t) ==> t.render_target == Some(
        RenderTargetInfo { has_depth: list.spec_needs_depth() },
    )
}

/// The lists of the pass can be given textures: their targets can be
/// counted in a signed 32-bit number, and a texture that a list has
/// already fits it.
pub open spec fn pass_preparable(pass: RenderPass) -> bool {
    match pass.kind {
        RenderPassKind::MainFramebuffer(_) => true,
        RenderPassKind::OffScreen { alpha, color, .. } => {
            &&& alpha.targets@.len() <= i32::MAX
            &&& color.targets@.len() <= i32::MAX
            &&& texture_fits(alpha)
            &&& texture_fits(color)
        },
    }
}

/// No list of the pass has a texture.
pub open spec fn pass_without_textures(pass: RenderPass) -> bool {
    pass_alpha_texture(pass) is None && pass_color_texture(pass) is None
}

/// Every list of the pass that has targets has a texture.
pub open spec fn pass_has_textures(pass: RenderPass) -> bool {
    match pass.kind {
        RenderPassKind::MainFramebuffer(_) => true,
        RenderPassKind::OffScreen { alpha, color, .. } => {
            &&& alpha.targets@.len() > 0 ==> alpha.texture is Some
            &&& color.targets@.len() > 0 ==> color.texture is Some
        },
    }
}

/// The device and the pool of render target textures, which looking for
/// textures changes together.
pub struct PoolState {
    pub device: DeviceView,
    pub pool: Seq<Texture>,
}

impl PoolState {
    /// The texture of the coverage list of `pass` after textures were
    /// looked for.
    pub open spec fn alpha_texture(self, pass: RenderPass, perfect_only: bool) -> Option<Texture> {
        match pass.kind {
            RenderPassKind::MainFramebuffer(_) => None,
            RenderPassKind::OffScreen { alpha, .. } => prepare_list(
                self.device,
                self.pool,
                alpha,
                perfect_only,
            ).texture,
        }
    }

    /// The state after a texture was looked for for the coverage list of
    /// `pass`.
    pub open spec fn after_alpha(self, pass: RenderPass, perfect_only: bool) -> PoolState {
        match pass.kind {
            RenderPassKind::MainFramebuffer(_) => self,
            RenderPassKind::OffScreen { alpha, .. } => {
                let p = prepare_list(self.device, self.pool, alpha, perfect_only);
                PoolState { device: p.device, pool: p.pool }
            },
        }
    }

    /// The texture of the colour list of `pass` after textures were looked
    /// for, the coverage list first.
    pub open spec fn color_texture(self, pass: RenderPass, perfect_only: bool) -> Option<Texture> {
        match pass.kind {
            RenderPassKind::MainFramebuffer(_) => None,
            RenderPassKind::OffScreen { color, .. } => {
                let s = self.after_alpha(pass, perfect_only);
                prepare_list(s.device, s.pool, color, perfect_only).texture
            },
        }
    }

    /// The state after textures were looked for for both lists of `pass`.
    pub open spec fn prepare_pass(self, pass: RenderPass, perfect_only: bool) -> PoolState {
        match pass.kind {
            RenderPassKind::MainFramebuffer(_) => self,
            RenderPassKind::OffScreen { color, .. } => {
                let s = self.after_alpha(pass, perfect_only);
                let p = prepare_list(s.device, s.pool, color, perfect_only);
                PoolState { device: p.device, pool: p.pool }
            },
        }
    }

    /// The state after textures were looked for for the first `n` passes.
    pub open spec fn prepare_passes(self, passes: Seq<RenderPass>, perfect_only: bool, n: nat) -> PoolState
        decreases n,
    {
        if n == 0 {
            self
        } else {
            self.prepare_passes(passes, perfect_only, (n - 1) as nat).prepare_pass(
                passes[n - 1],
                perfect_only,
            )
        }
    }
}

/// Looks for textures for the target lists of `passes`, pass by pass, the
/// coverage list of a pass before its colour list.
pub fn prepare_passes(
    resolver: &mut SourceTextureResolver,
    device: &mut Device,
    passes: &mut Vec<RenderPass>,
    perfect_only: bool,
)
    requires
        forall|p: int| 0 <= p < old(passes)@.len() ==> pass_preparable(#[trigger] old(passes)@[p]),
        perfect_only ==> forall|p: int|
            0 <= p < old(passes)@.len() ==> pass_without_textures(#[trigger] old(passes)@[p]),
    ensures
        final(passes)@.len() == old(passes)@.len(),
        final(resolver)@ == (ResolverView {
            render_target_pool: final(resolver)@.render_target_pool,
            ..old(resolver)@
        }),
        (PoolState { device: final(device)@, pool: final(resolver)@.render_target_pool }) == (PoolState {
            device: old(device)@,
            pool: old(resolver)@.render_target_pool,
        }).prepare_passes(old(passes)@, perfect_only, old(passes)@.len()),
        forall|p: int|
            0 <= p < old(passes)@.len() ==> {
                let before = (PoolState {
                    device: old(device)@,
                    pool: old(resolver)@.render_target_pool,
                }).prepare_passes(old(passes)@, perfect_only, p as nat);
                &&& same_but_textures(#[trigger] final(passes)@[p], old(passes)@[p])
                &&& pass_alpha_texture(final(passes)@[p]) == before.alpha_texture(
                    old(passes)@[p],
                    perfect_only,
                )
                &&& pass_color_texture(final(passes)@[p]) == before.color_texture(
                    old(passes)@[p],
                    perfect_only,
                )
                &&& pass_preparable(final(passes)@[p])
                &&& !perfect_only ==> pass_has_textures(final(passes)@[p])
            },
{
    let ghost start = PoolState { device: device@, pool: resolver@.render_target_pool };
    let mut p: usize = 0;
    while p < passes.len()
        invariant
            p <= passes@.len(),
            passes@.len() == old(passes)@.len(),
            resolver@ == (ResolverView {
                render_target_pool: resolver@.render_target_pool,
                ..old(resolver)@
            }),
            (PoolState { device: device@, pool: resolver@.render_target_pool })
                == start.prepare_passes(old(passes)@, perfect_only, p as nat),
            forall|q: int| p <= q < passes@.len() ==> #[trigger] passes@[q] == old(passes)@[q],
            forall|q: int|
                0 <= q < old(passes)@.len() ==> pass_preparable(#[trigger] old(passes)@[q]),
            perfect_only ==> forall|q: int|
                0 <= q < old(passes)@.len() ==> pass_without_textures(#[trigger] old(passes)@[q]),
            forall|q: int|
                0 <= q < p ==> {
                    let before = start.prepare_passes(old(passes)@, perfect_only, q as nat);
                    &&& same_but_textures(#[trigger] passes@[q], old(passes)@[q])
                    &&& pass_alpha_texture(passes@[q]) == before.alpha_texture(
                        old(passes)@[q],
                        perfect_only,
                    )
                    &&& pass_color_texture(passes@[q]) == before.color_texture(
                        old(passes)@[q],
                        perfect_only,
                    )
                    &&& pass_preparable(passes@[q])
                    &&& !perfect_only ==> pass_has_textures(passes@[q])
                },
        decreases passes@.len() - p,
    {
        assert(pass_preparable(old(passes)@[p as int]));
        assert(perfect_only ==> pass_without_textures(old(passes)@[p as int]));
        let ghost snapshot = passes@;
        match &mut passes[p].kind {
            RenderPassKind::OffScreen { alpha, color, .. } => {
                resolver.prepare_target_list(device, alpha, perfect_only);
                resolver.prepare_target_list(device, color, perfect_only);
            },
            RenderPassKind::MainFramebuffer(_) => {},
        }
        assert(forall|q: int| p < q < passes@.len() ==> #[trigger] passes@[q] == snapshot[q]);
        assert(forall|q: int| 0 <= q < p ==> #[trigger] passes@[q] == snapshot[q]);
        p += 1;
    }
}


/// The twenty-eight numbers that the device reads for a clip-scroll node:
/// the sixteen of its transform, row by row, the local clip rectangle, the
/// scroll offset relative to the reference frame, the scroll offset, the
/// kind of the transform, and three of padding.
pub open spec fn node_block(node: ClipScrollNodeData) -> [F32Bits; 28] {
    [
        node.transform[0],
        node.transform[1],
        node.transform[2],
        node.transform[3],
        node.transform[4],
        node.transform[5],
        node.transform[6],
        node.transform[7],
        node.transform[8],
        node.transform[9],
        node.transform[10],
        node.transform[11],
        node.transform[12],
        node.transform[13],
        node.transform[14],
        node.transform[15],
        node.local_clip_rect[0],
        node.local_clip_rect[1],
        node.local_clip_rect[2],
        node.local_clip_rect[3],
        node.reference_frame_relative_scroll_offset[0],
        node.reference_frame_relative_scroll_offset[1],
        node.scroll_offset[0],
        node.scroll_offset[1],
        node.transform_kind,
        node.padding[0],
        node.padding[1],
        node.padding[2],
    ]
}

/// The four numbers that the device reads for a local clip rectangle:
/// origin, then size.
pub open spec fn rect_block(rect: LayerRect) -> [F32Bits; 4] {
    [rect.x, rect.y, rect.width, rect.height]
}

/// The node data of a frame as the device reads it.
pub open spec fn node_data(nodes: Seq<ClipScrollNodeData>) -> UploadDataView {
    UploadDataView::NodeData(nodes.map_values(|n: ClipScrollNodeData| node_block(n)))
}

/// The local clip rectangles of a frame as the device reads them.
pub open spec fn local_rect_data(rects: Seq<LayerRect>) -> UploadDataView {
    UploadDataView::LocalRects(rects.map_values(|r: LayerRect| rect_block(r)))
}

/// The render task data of a frame as the device reads it.
pub open spec fn render_task_data(tasks: Seq<RenderTaskData>) -> UploadDataView {
    UploadDataView::RenderTasks(tasks.map_values(|t: RenderTaskData| t.data))
}

fn convert_node_data(nodes: &Vec<ClipScrollNodeData>) -> (data: Vec<[F32Bits; 28]>)
    ensures
        UploadDataView::NodeData(data@) == node_data(nodes@),
{
    let mut out: Vec<[F32Bits; 28]> = Vec::new();
    let mut i: usize = 0;
    while i < nodes.len()
        invariant
            i <= nodes@.len(),
            out@.len() == i,
            forall|k: int| 0 <= k < i ==> #[trigger] out@[k] == node_block(nodes@[k]),
        decreases nodes@.len() - i,
    {
        let node = &nodes[i];
        let block: [F32Bits; 28] = [
            node.transform[0],
            node.transform[1],
            node.transform[2],
            node.transform[3],
            node.transform[4],
            node.transform[5],
            node.transform[6],
            node.transform[7],
            node.transform[8],
            node.transform[9],
            node.transform[10],
            node.transform[11],
            node.transform[12],
            node.transform[13],
            node.transform[14],
            node.transform[15],
            node.local_clip_rect[0],
            node.local_clip_rect[1],
            node.local_clip_rect[2],
            node.local_clip_rect[3],
            node.reference_frame_relative_scroll_offset[0],
            node.reference_frame_relative_scroll_offset[1],
            node.scroll_offset[0],
            node.scroll_offset[1],
            node.transform_kind,
            node.padding[0],
            node.padding[1],
            node.padding[2],
        ];
        assert(block =~= node_block(*node));
        out.push(block);
        i += 1;
    }
    assert(out@ =~= nodes@.map_values(|n: ClipScrollNodeData| node_block(n)));
    out
}

fn convert_local_rects(rects: &Vec<LayerRect>) -> (data: Vec<[F32Bits; 4]>)
    ensures
        UploadDataView::LocalRects(data@) == local_rect_data(rects@),
{
    let mut out: Vec<[F32Bits; 4]> = Vec::new();
    let mut i: usize = 0;
    while i < rects.len()
        invariant
            i <= rects@.len(),
            out@.len() == i,
            forall|k: int| 0 <= k < i ==> #[trigger] out@[k] == rect_block(rects@[k]),
        decreases rects@.len() - i,
    {
        let rect = rects[i];
        let block: [F32Bits; 4] = [rect.x, rect.y, rect.width, rect.height];
        assert(block =~= rect_block(rect));
        out.push(block);
        i += 1;
    }
    assert(out@ =~= rects@.map_values(|r: LayerRect| rect_block(r)));
    out
}

fn convert_task_data(tasks: &Vec<RenderTaskData>) -> (data: Vec<[F32Bits; 12]>)
    ensures
        UploadDataView::RenderTasks(data@) == render_task_data(tasks@),
{
    let mut out: Vec<[F32Bits; 12]> = Vec::new();
    let mut i: usize = 0;
    while i < tasks.len()
        invariant
            i <= tasks@.len(),
            out@.len() == i,
            forall|k: int| 0 <= k < i ==> #[trigger] out@[k] == tasks@[k].data,
        decreases tasks@.len() - i,
    {
        out.push(tasks[i].data);
        i += 1;
    }
    assert(out@ =~= tasks@.map_values(|t: RenderTaskData| t.data));
    out
}

impl DeviceView {
    /// The state after the data that the whole frame shares was handed
    /// over: clip-scroll nodes, local clip rectangles, render tasks.
    pub open spec fn send_frame_data(self, frame: FrameView) -> DeviceView {
        let nodes = self.upload(node_data(frame.node_data)).emit(
            DeviceCommand::UpdateNodeData(self.next_buffer()),
        );
        let rects = nodes.upload(local_rect_data(frame.clip_chain_local_clip_rects)).emit(
            DeviceCommand::UpdateLocalRects(nodes.next_buffer()),
        );
        rects.upload(render_task_data(frame.task_data)).emit(
            DeviceCommand::UpdateRenderTasks(rects.next_buffer()),
        )
    }
}

impl PoolState {
    /// The state after the data of `frame` was bound: the device pixel
    /// ratio is set; every target list that found no perfect match gets a
    /// pooled texture of its format or a new one; the data that the whole
    /// frame shares is handed over.
    pub open spec fn bind_frame_data(self, frame: FrameView) -> PoolState {
        let prepared = (PoolState {
            device: self.device.emit(DeviceCommand::SetDevicePixelRatio(frame.device_pixel_ratio)),
            pool: self.pool,
        }).prepare_passes(frame.passes, false, frame.passes.len());
        PoolState { device: prepared.device.send_frame_data(frame), pool: prepared.pool }
    }
}

/// Binds the data of `frame`: see [`PoolState::bind_frame_data`].
pub fn bind_frame_data(device: &mut Device, resolver: &mut SourceTextureResolver, frame: &mut Frame)
    requires
        forall|p: int|
            0 <= p < old(frame).passes@.len() ==> pass_preparable(#[trigger] old(frame).passes@[p]),
    ensures
        final(resolver)@ == (ResolverView {
            render_target_pool: final(resolver)@.render_target_pool,
            ..old(resolver)@
        }),
        (PoolState { device: final(device)@, pool: final(resolver)@.render_target_pool }) == (PoolState {
            device: old(device)@,
            pool: old(resolver)@.render_target_pool,
        }).bind_frame_data(old(frame)@),
        frame_same_but_passes(*final(frame), *old(frame)),
        final(frame).has_been_rendered == old(frame).has_been_rendered,
        final(frame).passes@.len() == old(frame).passes@.len(),
        forall|p: int|
            0 <= p < old(frame).passes@.len() ==> {
                let before = (PoolState {
                    device: old(device)@.emit(
                        DeviceCommand::SetDevicePixelRatio(old(frame).device_pixel_ratio),
                    ),
                    pool: old(resolver)@.render_target_pool,
                }).prepare_passes(old(frame).passes@, false, p as nat);
                &&& same_but_textures(#[trigger] final(frame).passes@[p], old(frame).passes@[p])
                &&& pass_alpha_texture(final(frame).passes@[p]) == before.alpha_texture(
                    old(frame).passes@[p],
                    false,
                )
                &&& pass_color_texture(final(frame).passes@[p]) == before.color_texture(
                    old(frame).passes@[p],
                    false,
                )
                &&& pass_preparable(final(frame).passes@[p])
                &&& pass_has_textures(final(frame).passes@[p])
            },
{
    device.emit(DeviceCommand::SetDevicePixelRatio(frame.device_pixel_ratio));
    prepare_passes(resolver, device, &mut frame.passes, false);
    device.update_node_data(convert_node_data(&frame.node_data));
    device.update_local_rects(convert_local_rects(&frame.clip_chain_local_clip_rects));
    device.update_render_tasks(convert_task_data(&frame.render_tasks.task_data));
}

/// `after` is `before` but for its passes and for whether it was rendered.
pub open spec fn frame_same_but_passes(after: Frame, before: Frame) -> bool {
    &&& after.window_size == before.window_size
    &&& after.inner_rect == before.inner_rect
    &&& after.background_color == before.background_color
    &&& after.layer == before.layer
    &&& after.device_pixel_ratio == before.device_pixel_ratio
    &&& after.node_data == before.node_data
    &&& after.clip_chain_local_clip_rects == before.clip_chain_local_clip_rects
    &&& after.render_tasks == before.render_tasks
    &&& after.deferred_resolves == before.deferred_resolves
    &&& after.gpu_cache_updates == before.gpu_cache_updates
    &&& after.has_texture_cache_tasks == before.has_texture_cache_tasks
}


/// What the draws of all passes of a frame share, as mathematical values.
pub struct FrameParams {
    pub shaders: Shaders,
    pub tasks: Seq<RenderTask>,
    pub enable_clear_scissor: bool,
    /// The size of the window; none when only the off-screen passes are
    /// drawn.
    pub framebuffer_size: Option<DeviceUintSize>,
    /// The depth buffer of the window was cleared for the whole frame.
    pub framebuffer_depth_is_ready: bool,
    pub frame_id: FrameId,
    /// The textures that the embedder offers for pipeline outputs.
    pub locked_outputs: Seq<LockedOutput>,
    pub background_color: Option<ColorF>,
    pub inner_rect: DeviceUintRect,
    pub has_been_rendered: bool,
}

impl FrameParams {
    /// What the draws of a pass read, with the resolver as it stands
    /// during the pass.
    pub open spec fn env(self, resolver: ResolverView) -> DrawEnv {
        DrawEnv {
            resolver,
            shaders: self.shaders,
            tasks: self.tasks,
            enable_clear_scissor: self.enable_clear_scissor,
        }
    }
}

/// What drawing a frame changes: the device, the resolver, and the
/// framebuffer objects of pipeline outputs.
pub struct FrameState {
    pub device: DeviceView,
    pub resolver: ResolverView,
    pub outputs: Seq<OutputTarget>,
}

/// The projection that maps a target of `size` onto the clip volume.
pub open spec fn projection_of(size: DeviceUintSize) -> Projection {
    Projection { width: size.width, height: size.height }
}

/// The device after the first `n` texture cache targets of a pass.
pub open spec fn draw_texture_cache_targets(
    d: DeviceView,
    env: DrawEnv,
    targets: Seq<((SourceTexture, i32), TextureCacheRenderTarget)>,
    n: nat,
) -> DeviceView
    decreases n,
{
    if n == 0 {
        d
    } else {
        draw_texture_cache_target_spec(
            draw_texture_cache_targets(d, env, targets, (n - 1) as nat),
            env,
            targets[n - 1].0.0,
            targets[n - 1].0.1,
            targets[n - 1].1,
        )
    }
}

/// The device after the first `n` layers of the coverage list of a pass.
pub open spec fn draw_alpha_targets(
    d: DeviceView,
    env: DrawEnv,
    alpha: RenderTargetList<AlphaRenderTarget>,
    n: nat,
) -> DeviceView
    decreases n,
{
    if n == 0 {
        d
    } else {
        draw_alpha_target_spec(
            draw_alpha_targets(d, env, alpha, (n - 1) as nat),
            env,
            alpha.targets@[n - 1],
            (alpha.texture->0.id, (n - 1) as i32),
            alpha.max_size,
            projection_of(alpha.max_size),
        )
    }
}

/// The state after the first `n` layers of the colour list of a pass: each
/// is cleared to transparent black and drawn, and then its outputs are
/// handed to the embedder.
pub open spec fn draw_color_targets(
    s: OutputState,
    env: DrawEnv,
    params: FrameParams,
    color: RenderTargetList<ColorRenderTarget>,
    n: nat,
) -> OutputState
    decreases n,
{
    if n == 0 {
        s
    } else {
        let before = draw_color_targets(s, env, params, color, (n - 1) as nat);
        let target = color.targets@[n - 1];
        let render_target = Some((color.texture->0.id, (n - 1) as i32));
        (OutputState {
            device: draw_color_target_spec(
                before.device,
                env,
                target,
                render_target,
                params.inner_rect,
                color.max_size,
                false,
                Some(ColorF { r: F32Bits(0), g: F32Bits(0), b: F32Bits(0), a: F32Bits(0) }),
                projection_of(color.max_size),
            ),
            targets: before.targets,
        }).copy_outputs(
            env.tasks,
            target.outputs@,
            params.locked_outputs,
            render_target,
            params.frame_id,
            target.outputs@.len(),
        )
    }
}

/// The state after the targets of a pass were drawn. The window is drawn
/// only if there is one to draw to, cleared to the background of the frame.
/// In an off-screen pass the texture cache targets come first, unless an
/// earlier drawing of the frame filled them already; then the coverage
/// layers; then the colour layers.
#[verifier::opaque]
pub open spec fn draw_pass_targets(s: OutputState, env: DrawEnv, params: FrameParams, pass: RenderPass) -> OutputState {
    match pass.kind {
        RenderPassKind::MainFramebuffer(target) => match params.framebuffer_size {
            Some(size) => (OutputState {
                device: draw_color_target_spec(
                    s.device,
                    env,
                    target,
                    None,
                    params.inner_rect,
                    size,
                    params.framebuffer_depth_is_ready,
                    params.background_color,
                    projection_of(size),
                ),
                targets: s.targets,
            }).copy_outputs(
                env.tasks,
                target.outputs@,
                params.locked_outputs,
                None,
                params.frame_id,
                target.outputs@.len(),
            ),
            None => s,
        },
        RenderPassKind::OffScreen { alpha, color, texture_cache } => {
            let cached = if params.has_been_rendered {
                s.device
            } else {
                draw_texture_cache_targets(s.device, env, texture_cache@, texture_cache@.len())
            };
            draw_color_targets(
                OutputState {
                    device: draw_alpha_targets(cached, env, alpha, alpha.targets@.len()),
                    targets: s.targets,
                },
                env,
                params,
                color,
                color.targets@.len(),
            )
        },
    }
}

/// The targets of the pass can be drawn with the resolver as it stands.
#[verifier::opaque]
pub open spec fn pass_targets_ok(env: DrawEnv, params: FrameParams, pass: RenderPass) -> bool {
    match pass.kind {
        RenderPassKind::MainFramebuffer(target) => params.framebuffer_size matches Some(size) ==> {
            &&& color_target_ok(env, target)
            &&& flip_ok(params.inner_rect, size)
            &&& outputs_ok(env.tasks, target.outputs@)
        },
        RenderPassKind::OffScreen { alpha, color, texture_cache } => {
            &&& alpha.targets@.len() <= i32::MAX
            &&& color.targets@.len() <= i32::MAX
            &&& alpha.targets@.len() > 0 ==> alpha.texture is Some
            &&& color.targets@.len() > 0 ==> color.texture is Some
            &&& texture_fits(color)
            &&& !params.has_been_rendered ==> forall|i: int|
                0 <= i < texture_cache@.len() ==> texture_cache_target_ok(
                    env,
                    (#[trigger] texture_cache@[i]).0.0,
                    texture_cache@[i].1,
                )
            &&& forall|i: int|
                0 <= i < alpha.targets@.len() ==> alpha_target_ok(env, #[trigger] alpha.targets@[i])
            &&& forall|i: int|
                0 <= i < color.targets@.len() ==> {
                    &&& color_target_ok(env, #[trigger] color.targets@[i])
                    &&& outputs_ok(env.tasks, color.targets@[i].outputs@)
                }
        },
    }
}

/// The coverage layers of a pass, drawn so far.
pub open spec fn alpha_targets_of(pass: RenderPass) -> nat {
    match pass.kind {
        RenderPassKind::MainFramebuffer(_) => 0,
        RenderPassKind::OffScreen { alpha, .. } => alpha.targets@.len(),
    }
}

/// The colour targets that drawing a pass counts: its colour layers, or
/// the window if there is one to draw to.
pub open spec fn color_targets_of(pass: RenderPass, has_framebuffer: bool) -> nat {
    match pass.kind {
        RenderPassKind::MainFramebuffer(_) => if has_framebuffer {
            1
        } else {
            0
        },
        RenderPassKind::OffScreen { color, .. } => color.targets@.len(),
    }
}

impl FrameState {
    /// The state after one pass. The outputs of the previous pass are bound
    /// to the two cache samplers and the targets are drawn; then the pass
    /// ends, and its own outputs take the place of those of the previous
    /// pass. After the first pass its coverage output is bound to the
    /// sampler that every later pass may read.
    #[verifier::opaque]
    pub open spec fn draw_pass(self, params: FrameParams, pass: RenderPass, pass_index: nat) -> FrameState {
        let env = params.env(self.resolver);
        let bound = self.resolver.bind(
            self.resolver.bind(self.device, SourceTexture::CacheA8, TextureSampler::CacheA8),
            SourceTexture::CacheRGBA8,
            TextureSampler::CacheRGBA8,
        );
        let drawn = draw_pass_targets(
            OutputState { device: bound, targets: self.outputs },
            env,
            params,
            pass,
        );
        let resolver = self.resolver.end_pass(
            pass_alpha_texture(pass),
            pass_color_texture(pass),
            RenderPassIndex(pass_index as usize),
        );
        FrameState {
            device: if pass_index == 0 {
                drawn.device.emit(
                    DeviceCommand::BindTexture {
                        slot: TextureSampler::SharedCacheA8.spec_slot(),
                        texture: resolver.a8_or_dummy().id,
                    },
                )
            } else {
                drawn.device
            },
            resolver,
            outputs: drawn.targets,
        }
    }

    /// The state after the first `n` passes, in order.
    pub open spec fn draw_passes(self, params: FrameParams, passes: Seq<RenderPass>, n: nat) -> FrameState
        decreases n,
    {
        if n == 0 {
            self
        } else {
            self.draw_passes(params, passes, (n - 1) as nat).draw_pass(
                params,
                passes[n - 1],
                (n - 1) as nat,
            )
        }
    }

    /// The first `n` passes can be drawn one after the other: each finds
    /// what it reads where the passes before it left it.
    pub open spec fn passes_ok(self, params: FrameParams, passes: Seq<RenderPass>, n: nat) -> bool
        decreases n,
    {
        n == 0 || {
            &&& self.passes_ok(params, passes, (n - 1) as nat)
            &&& pass_targets_ok(
                params.env(self.draw_passes(params, passes, (n - 1) as nat).resolver),
                params,
                passes[n - 1],
            )
        }
    }
}


/// What the draws of all passes of a frame share.
pub struct FrameContext<'a> {
    pub shaders: &'a Shaders,
    pub render_tasks: &'a RenderTaskTree,
    pub enable_clear_scissor: bool,
    /// The size of the window; none when only the off-screen passes are
    /// drawn.
    pub framebuffer_size: Option<DeviceUintSize>,
    /// The depth buffer of the window was cleared for the whole frame.
    pub framebuffer_depth_is_ready: bool,
    pub frame_id: FrameId,
    /// The textures that the embedder offers for pipeline outputs.
    pub locked_outputs: &'a Vec<LockedOutput>,
    pub background_color: Option<ColorF>,
    pub inner_rect: DeviceUintRect,
    pub has_been_rendered: bool,
}

impl<'a> View for FrameContext<'a> {
    type V = FrameParams;

    open spec fn view(&self) -> FrameParams {
        FrameParams {
            shaders: *self.shaders,
            tasks: self.render_tasks.tasks@,
            enable_clear_scissor: self.enable_clear_scissor,
            framebuffer_size: self.framebuffer_size,
            framebuffer_depth_is_ready: self.framebuffer_depth_is_ready,
            frame_id: self.frame_id,
            locked_outputs: self.locked_outputs@,
            background_color: self.background_color,
            inner_rect: self.inner_rect,
            has_been_rendered: self.has_been_rendered,
        }
    }
}

/// Draws the texture cache targets of a pass.
fn draw_cache_targets(
    device: &mut Device,
    ctx: &DrawContext,
    texture_cache: &Vec<((SourceTexture, i32), TextureCacheRenderTarget)>,
)
    requires
        forall|k: int|
            0 <= k < texture_cache@.len() ==> texture_cache_target_ok(
                ctx@,
                (#[trigger] texture_cache@[k]).0.0,
                texture_cache@[k].1,
            ),
    ensures
        final(device)@ == draw_texture_cache_targets(
            old(device)@,
            ctx@,
            texture_cache@,
            texture_cache@.len(),
        ),
{
    let mut i: usize = 0;
    while i < texture_cache.len()
        invariant
            i <= texture_cache@.len(),
            forall|k: int|
                0 <= k < texture_cache@.len() ==> texture_cache_target_ok(
                    ctx@,
                    (#[trigger] texture_cache@[k]).0.0,
                    texture_cache@[k].1,
                ),
            device@ == draw_texture_cache_targets(old(device)@, ctx@, texture_cache@, i as nat),
        decreases texture_cache@.len() - i,
    {
        let entry = &texture_cache[i];
        assert(texture_cache_target_ok(ctx@, entry.0.0, entry.1));
        draw_texture_cache_target(device, ctx, &entry.0.0, entry.0.1, &entry.1);
        i += 1;
    }
}

/// Draws the layers of the coverage list of a pass.
fn draw_alpha_list(
    device: &mut Device,
    stats: &mut RendererStats,
    ctx: &DrawContext,
    alpha: &RenderTargetList<AlphaRenderTarget>,
)
    requires
        alpha.targets@.len() <= i32::MAX,
        alpha.targets@.len() > 0 ==> alpha.texture is Some,
        forall|k: int|
            0 <= k < alpha.targets@.len() ==> alpha_target_ok(ctx@, #[trigger] alpha.targets@[k]),
        old(stats).alpha_target_count + alpha.targets@.len() <= usize::MAX,
    ensures
        final(device)@ == draw_alpha_targets(old(device)@, ctx@, *alpha, alpha.targets@.len()),
        *final(stats) == (RendererStats {
            alpha_target_count: (old(stats).alpha_target_count + alpha.targets@.len()) as usize,
            ..*old(stats)
        }),
{
    let mut i: usize = 0;
    while i < alpha.targets.len()
        invariant
            i <= alpha.targets@.len(),
            alpha.targets@.len() <= i32::MAX,
            alpha.targets@.len() > 0 ==> alpha.texture is Some,
            forall|k: int|
                0 <= k < alpha.targets@.len() ==> alpha_target_ok(
                    ctx@,
                    #[trigger] alpha.targets@[k],
                ),
            old(stats).alpha_target_count + alpha.targets@.len() <= usize::MAX,
            *stats == (RendererStats {
                alpha_target_count: (old(stats).alpha_target_count + i) as usize,
                ..*old(stats)
            }),
            device@ == draw_alpha_targets(old(device)@, ctx@, *alpha, i as nat),
        decreases alpha.targets@.len() - i,
    {
        stats.alpha_target_count = stats.alpha_target_count + 1;
        let projection = Projection { width: alpha.max_size.width, height: alpha.max_size.height };
        match &alpha.texture {
            Some(texture) => {
                assert(alpha_target_ok(ctx@, alpha.targets@[i as int]));
                draw_alpha_target(
                    device,
                    ctx,
                    (texture, i as i32),
                    &alpha.targets[i],
                    alpha.max_size,
                    projection,
                );
            },
            None => {},
        }
        i += 1;
    }
}

/// Draws the layers of the colour list of a pass and hands their outputs
/// to the embedder.
fn draw_color_list(
    device: &mut Device,
    output_targets: &mut Vec<OutputTarget>,
    stats: &mut RendererStats,
    ctx: &DrawContext,
    fc: &FrameContext,
    color: &RenderTargetList<ColorRenderTarget>,
)
    requires
        ctx.render_tasks == fc.render_tasks,
        color.targets@.len() <= i32::MAX,
        color.targets@.len() > 0 ==> color.texture is Some,
        texture_fits(*color),
        forall|k: int|
            0 <= k < color.targets@.len() ==> {
                &&& color_target_ok(ctx@, #[trigger] color.targets@[k])
                &&& outputs_ok(ctx@.tasks, color.targets@[k].outputs@)
            },
        old(stats).color_target_count + color.targets@.len() <= usize::MAX,
    ensures
        (OutputState { device: final(device)@, targets: final(output_targets)@ })
            == draw_color_targets(
            OutputState { device: old(device)@, targets: old(output_targets)@ },
            ctx@,
            fc@,
            *color,
            color.targets@.len(),
        ),
        *final(stats) == (RendererStats {
            color_target_count: (old(stats).color_target_count + color.targets@.len()) as usize,
            ..*old(stats)
        }),
{
    let ghost first = OutputState { device: device@, targets: output_targets@ };
    let mut i: usize = 0;
    while i < color.targets.len()
        invariant
            i <= color.targets@.len(),
            ctx.render_tasks == fc.render_tasks,
            color.targets@.len() <= i32::MAX,
            color.targets@.len() > 0 ==> color.texture is Some,
            texture_fits(*color),
            forall|k: int|
                0 <= k < color.targets@.len() ==> {
                    &&& color_target_ok(ctx@, #[trigger] color.targets@[k])
                    &&& outputs_ok(ctx@.tasks, color.targets@[k].outputs@)
                },
            old(stats).color_target_count + color.targets@.len() <= usize::MAX,
            *stats == (RendererStats {
                color_target_count: (old(stats).color_target_count + i) as usize,
                ..*old(stats)
            }),
            (OutputState { device: device@, targets: output_targets@ }) == draw_color_targets(
                first,
                ctx@,
                fc@,
                *color,
                i as nat,
            ),
        decreases color.targets@.len() - i,
    {
        stats.color_target_count = stats.color_target_count + 1;
        let projection = Projection { width: color.max_size.width, height: color.max_size.height };
        match &color.texture {
            Some(texture) => {
                let target = &color.targets[i];
                assert(color_target_ok(ctx@, color.targets@[i as int]));
                assert(outputs_ok(ctx@.tasks, color.targets@[i as int].outputs@));
                assert(target.spec_needs_depth() ==> color.spec_needs_depth());
                draw_color_target(
                    device,
                    ctx,
                    Some((texture, i as i32)),
                    target,
                    fc.inner_rect,
                    color.max_size,
                    false,
                    Some(
                        ColorF::new(
                            F32Bits::zero(),
                            F32Bits::zero(),
                            F32Bits::zero(),
                            F32Bits::zero(),
                        ),
                    ),
                    projection,
                );
                handle_outputs(
                    device,
                    output_targets,
                    fc.render_tasks,
                    &target.outputs,
                    fc.locked_outputs,
                    Some((texture.id, i as i32)),
                    fc.frame_id,
                );
            },
            None => {},
        }
        i += 1;
    }
}

/// Draws the window, if there is one to draw to.
fn draw_main_target(
    device: &mut Device,
    output_targets: &mut Vec<OutputTarget>,
    stats: &mut RendererStats,
    ctx: &DrawContext,
    fc: &FrameContext,
    target: &ColorRenderTarget,
)
    requires
        ctx.render_tasks == fc.render_tasks,
        fc.framebuffer_size matches Some(size) ==> {
            &&& color_target_ok(ctx@, *target)
            &&& flip_ok(fc.inner_rect, size)
            &&& outputs_ok(ctx@.tasks, target.outputs@)
        },
        old(stats).color_target_count + (if fc.framebuffer_size is Some {
            1int
        } else {
            0int
        }) <= usize::MAX,
    ensures
        (OutputState { device: final(device)@, targets: final(output_targets)@ }) == (
        match fc.framebuffer_size {
            Some(size) => (OutputState {
                device: draw_color_target_spec(
                    old(device)@,
                    ctx@,
                    *target,
                    None,
                    fc.inner_rect,
                    size,
                    fc.framebuffer_depth_is_ready,
                    fc.background_color,
                    projection_of(size),
                ),
                targets: old(output_targets)@,
            }).copy_outputs(
                ctx@.tasks,
                target.outputs@,
                fc.locked_outputs@,
                None,
                fc.frame_id,
                target.outputs@.len(),
            ),
            None => OutputState { device: old(device)@, targets: old(output_targets)@ },
        }),
        *final(stats) == (RendererStats {
            color_target_count: (old(stats).color_target_count + (if fc.framebuffer_size
                is Some {
                1int
            } else {
                0int
            })) as usize,
            ..*old(stats)
        }),
{
    if let Some(framebuffer_size) = fc.framebuffer_size {
        stats.color_target_count = stats.color_target_count + 1;
        let projection = Projection {
            width: framebuffer_size.width,
            height: framebuffer_size.height,
        };
        draw_color_target(
            device,
            ctx,
            None,
            target,
            fc.inner_rect,
            framebuffer_size,
            fc.framebuffer_depth_is_ready,
            fc.background_color,
            projection,
        );
        handle_outputs(
            device,
            output_targets,
            fc.render_tasks,
            &target.outputs,
            fc.locked_outputs,
            None,
            fc.frame_id,
        );
    }
}

/// Draws the targets of one pass.
fn draw_targets(
    device: &mut Device,
    output_targets: &mut Vec<OutputTarget>,
    stats: &mut RendererStats,
    ctx: &DrawContext,
    fc: &FrameContext,
    pass: &RenderPass,
)
    requires
        ctx.render_tasks == fc.render_tasks,
        ctx@ == fc@.env(ctx@.resolver),
        pass_targets_ok(ctx@, fc@, *pass),
        old(stats).alpha_target_count + alpha_targets_of(*pass) <= usize::MAX,
        old(stats).color_target_count + color_targets_of(*pass, fc.framebuffer_size is Some)
            <= usize::MAX,
    ensures
        (OutputState { device: final(device)@, targets: final(output_targets)@ })
            == draw_pass_targets(
            OutputState { device: old(device)@, targets: old(output_targets)@ },
            ctx@,
            fc@,
            *pass,
        ),
        *final(stats) == (RendererStats {
            total_draw_calls: old(stats).total_draw_calls,
            alpha_target_count: (old(stats).alpha_target_count + alpha_targets_of(
                *pass,
            )) as usize,
            color_target_count: (old(stats).color_target_count + color_targets_of(
                *pass,
                fc.framebuffer_size is Some,
            )) as usize,
        }),
{
    proof {
        reveal(draw_pass_targets);
        reveal(pass_targets_ok);
    }
    match &pass.kind {
        RenderPassKind::MainFramebuffer(target) => {
            draw_main_target(device, output_targets, stats, ctx, fc, target);
        },
        RenderPassKind::OffScreen { alpha, color, texture_cache } => {
            if !fc.has_been_rendered {
                draw_cache_targets(device, ctx, texture_cache);
            }
            draw_alpha_list(device, stats, ctx, alpha);
            draw_color_list(device, output_targets, stats, ctx, fc, color);
        },
    }
}

/// Takes the textures of the two lists of an off-screen pass out of the
/// pass.
fn take_pass_textures(pass: &mut RenderPass) -> (textures: (Option<Texture>, Option<Texture>))
    ensures
        textures.0 == pass_alpha_texture(*old(pass)),
        textures.1 == pass_color_texture(*old(pass)),
        same_but_textures(*final(pass), *old(pass)),
        pass_without_textures(*final(pass)),
        alpha_targets_of(*final(pass)) == alpha_targets_of(*old(pass)),
{
    match &mut pass.kind {
        RenderPassKind::MainFramebuffer(_) => (None, None),
        RenderPassKind::OffScreen { alpha, color, .. } => (alpha.texture.take(), color.texture.take()),
    }
}

/// Draws one pass and ends it. The textures of the pass's lists leave the
/// pass: they are what the next pass reads.
pub fn draw_pass(
    device: &mut Device,
    resolver: &mut SourceTextureResolver,
    output_targets: &mut Vec<OutputTarget>,
    stats: &mut RendererStats,
    fc: &FrameContext,
    pass: &mut RenderPass,
    pass_index: usize,
)
    requires
        pass_targets_ok(fc@.env(old(resolver)@), fc@, *old(pass)),
        pass_index == 0 ==> old(resolver)@.cache_a8_texture is None && old(resolver)@.cache_rgba8_texture is None,
        old(stats).alpha_target_count + alpha_targets_of(*old(pass)) <= usize::MAX,
        old(stats).color_target_count + color_targets_of(
            *old(pass),
            fc.framebuffer_size is Some,
        ) <= usize::MAX,
    ensures
        (FrameState {
            device: final(device)@,
            resolver: final(resolver)@,
            outputs: final(output_targets)@,
        }) == (FrameState {
            device: old(device)@,
            resolver: old(resolver)@,
            outputs: old(output_targets)@,
        }).draw_pass(fc@, *old(pass), pass_index as nat),
        same_but_textures(*final(pass), *old(pass)),
        pass_without_textures(*final(pass)),
        *final(stats) == (RendererStats {
            total_draw_calls: old(stats).total_draw_calls,
            alpha_target_count: (old(stats).alpha_target_count + alpha_targets_of(
                *old(pass),
            )) as usize,
            color_target_count: (old(stats).color_target_count + color_targets_of(
                *old(pass),
                fc.framebuffer_size is Some,
            )) as usize,
        }),
{
    proof {
        reveal(FrameState::draw_pass);
    }
    resolver.bind(&SourceTexture::CacheA8, TextureSampler::CacheA8, device);
    resolver.bind(&SourceTexture::CacheRGBA8, TextureSampler::CacheRGBA8, device);
    {
        let ctx = DrawContext {
            resolver: &*resolver,
            shaders: fc.shaders,
            render_tasks: fc.render_tasks,
            enable_clear_scissor: fc.enable_clear_scissor,
        };
        draw_targets(device, output_targets, stats, &ctx, fc, pass);
    }
    let (cur_alpha, cur_color) = take_pass_textures(pass);
    resolver.end_pass(cur_alpha, cur_color, RenderPassIndex(pass_index));
    if pass_index == 0 {
        match resolver.resolve(&SourceTexture::CacheA8) {
            Some(shared_alpha_texture) => {
                device.bind_texture(TextureSampler::SharedCacheA8.slot(), shared_alpha_texture);
            },
            None => {},
        }
    }
}


/// `pass` with the textures of its two lists replaced.
pub open spec fn with_textures(pass: RenderPass, alpha_texture: Option<Texture>, color_texture: Option<Texture>) -> RenderPass {
    match pass.kind {
        RenderPassKind::MainFramebuffer(_) => pass,
        RenderPassKind::OffScreen { alpha, color, texture_cache } => RenderPass {
            kind: RenderPassKind::OffScreen {
                alpha: RenderTargetList { texture: alpha_texture, ..alpha },
                color: RenderTargetList { texture: color_texture, ..color },
                texture_cache,
            },
            ..pass
        },
    }
}

impl PoolState {
    /// The passes after textures were looked for for all of them.
    pub open spec fn prepared_passes(self, passes: Seq<RenderPass>, perfect_only: bool) -> Seq<RenderPass> {
        Seq::new(
            passes.len(),
            |p: int|
                with_textures(
                    passes[p],
                    self.prepare_passes(passes, perfect_only, p as nat).alpha_texture(
                        passes[p],
                        perfect_only,
                    ),
                    self.prepare_passes(passes, perfect_only, p as nat).color_texture(
                        passes[p],
                        perfect_only,
                    ),
                ),
        )
    }
}

/// The coverage layers of the first `n` passes.
pub open spec fn alpha_targets_in(passes: Seq<RenderPass>, n: nat) -> nat
    decreases n,
{
    if n == 0 {
        0
    } else {
        alpha_targets_in(passes, (n - 1) as nat) + alpha_targets_of(passes[n - 1])
    }
}

/// The colour targets that drawing the first `n` passes counts.
pub open spec fn color_targets_in(passes: Seq<RenderPass>, has_framebuffer: bool, n: nat) -> nat
    decreases n,
{
    if n == 0 {
        0
    } else {
        color_targets_in(passes, has_framebuffer, (n - 1) as nat) + color_targets_of(
            passes[n - 1],
            has_framebuffer,
        )
    }
}

/// If the first `n` passes can be drawn one after the other, each of them
/// can be drawn when its turn comes.
pub proof fn lemma_passes_ok(s: FrameState, params: FrameParams, passes: Seq<RenderPass>, n: nat, i: nat)
    requires
        s.passes_ok(params, passes, n),
        i < n,
    ensures
        s.passes_ok(params, passes, i),
        pass_targets_ok(params.env(s.draw_passes(params, passes, i).resolver), params, passes[i as int]),
    decreases n,
{
    if i + 1 < n {
        lemma_passes_ok(s, params, passes, (n - 1) as nat, i);
    }
}

/// The counts of targets grow with the passes looked at.
pub proof fn lemma_target_counts_monotonic(passes: Seq<RenderPass>, has_framebuffer: bool, i: nat, n: nat)
    requires
        i <= n,
    ensures
        alpha_targets_in(passes, i) <= alpha_targets_in(passes, n),
        color_targets_in(passes, has_framebuffer, i) <= color_targets_in(passes, has_framebuffer, n),
    decreases n,
{
    if i < n {
        lemma_target_counts_monotonic(passes, has_framebuffer, i, (n - 1) as nat);
    }
}

impl FrameState {
    /// The state in which the passes of `frame` are drawn: blending,
    /// stencil and depth write are off, the frame's data is bound, and the
    /// resolver has begun the frame.
    pub open spec fn begin_tile_frame(self, frame: FrameView) -> FrameState {
        let bound = (PoolState {
            device: self.device.emit(DeviceCommand::DisableDepthWrite).emit(
                DeviceCommand::DisableStencil,
            ).emit(DeviceCommand::SetBlend(false)),
            pool: self.resolver.render_target_pool,
        }).bind_frame_data(frame);
        FrameState {
            device: bound.device,
            resolver: (ResolverView { render_target_pool: bound.pool, ..self.resolver }).begin_frame(),
            outputs: self.outputs,
        }
    }

    /// The passes of `frame` as they are drawn: every target list has the
    /// texture that binding the frame's data found for it.
    pub open spec fn passes_to_draw(self, frame: FrameView) -> Seq<RenderPass> {
        (PoolState {
            device: self.device.emit(DeviceCommand::DisableDepthWrite).emit(
                DeviceCommand::DisableStencil,
            ).emit(DeviceCommand::SetBlend(false)).emit(
                DeviceCommand::SetDevicePixelRatio(frame.device_pixel_ratio),
            ),
            pool: self.resolver.render_target_pool,
        }).prepared_passes(frame.passes, false)
    }

    /// The state after `frame` was drawn. A frame without passes changes
    /// nothing. Otherwise the frame is begun, its passes are drawn in
    /// order, the outputs of the last pass go back to the pool, and the
    /// output targets that the frame did not use are given up.
    pub open spec fn draw_tile_frame(self, params: FrameParams, frame: FrameView) -> FrameState {
        if frame.passes.len() == 0 {
            self
        } else {
            let drawn = self.begin_tile_frame(frame).draw_passes(
                params,
                self.passes_to_draw(frame),
                frame.passes.len(),
            );
            let collected = (OutputState { device: drawn.device, targets: drawn.outputs }).collect(
                drawn.outputs,
                params.frame_id,
                drawn.outputs.len(),
            );
            FrameState {
                device: collected.device,
                resolver: drawn.resolver.end_pass(
                    None,
                    None,
                    RenderPassIndex(frame.passes.len() as usize),
                ),
                outputs: collected.targets,
            }
        }
    }

    /// `frame` can be drawn from this state: no pass output is waiting in
    /// the resolver, every target list can be given a texture, and every
    /// pass finds what it reads when its turn comes.
    pub open spec fn frame_ok(self, params: FrameParams, frame: FrameView) -> bool {
        frame.passes.len() > 0 ==> {
            &&& self.resolver.cache_a8_texture is None
            &&& self.resolver.cache_rgba8_texture is None
            &&& forall|p: int|
                0 <= p < frame.passes.len() ==> pass_preparable(#[trigger] frame.passes[p])
            &&& self.begin_tile_frame(frame).passes_ok(
                params,
                self.passes_to_draw(frame),
                frame.passes.len(),
            )
        }
    }
}

/// What drawing a frame reads of the frame itself, given what it reads of
/// the renderer.
pub open spec fn frame_params(
    shaders: Shaders,
    enable_clear_scissor: bool,
    frame: FrameView,
    framebuffer_size: Option<DeviceUintSize>,
    framebuffer_depth_is_ready: bool,
    frame_id: FrameId,
    locked_outputs: Seq<LockedOutput>,
) -> FrameParams {
    FrameParams {
        shaders,
        tasks: frame.tasks,
        enable_clear_scissor,
        framebuffer_size,
        framebuffer_depth_is_ready,
        frame_id,
        locked_outputs,
        background_color: frame.background_color,
        inner_rect: frame.inner_rect,
        has_been_rendered: frame.has_been_rendered,
    }
}

/// Draws one frame; see [`FrameState::draw_tile_frame`]. Afterwards the
/// frame counts as rendered, and none of its target lists holds a texture.
pub fn draw_tile_frame(
    device: &mut Device,
    resolver: &mut SourceTextureResolver,
    output_targets: &mut Vec<OutputTarget>,
    stats: &mut RendererStats,
    shaders: &Shaders,
    enable_clear_scissor: bool,
    frame: &mut Frame,
    framebuffer_size: Option<DeviceUintSize>,
    framebuffer_depth_is_ready: bool,
    frame_id: FrameId,
    locked_outputs: &Vec<LockedOutput>,
)
    requires
        (FrameState {
            device: old(device)@,
            resolver: old(resolver)@,
            outputs: old(output_targets)@,
        }).frame_ok(
            frame_params(
                *shaders,
                enable_clear_scissor,
                old(frame)@,
                framebuffer_size,
                framebuffer_depth_is_ready,
                frame_id,
                locked_outputs@,
            ),
            old(frame)@,
        ),
        old(stats).alpha_target_count + alpha_targets_in(
            old(frame).passes@,
            old(frame).passes@.len(),
        ) <= usize::MAX,
        old(stats).color_target_count + color_targets_in(
            old(frame).passes@,
            framebuffer_size is Some,
            old(frame).passes@.len(),
        ) <= usize::MAX,
    ensures
        (FrameState {
            device: final(device)@,
            resolver: final(resolver)@,
            outputs: final(output_targets)@,
        }) == (FrameState {
            device: old(device)@,
            resolver: old(resolver)@,
            outputs: old(output_targets)@,
        }).draw_tile_frame(
            frame_params(
                *shaders,
                enable_clear_scissor,
                old(frame)@,
                framebuffer_size,
                framebuffer_depth_is_ready,
                frame_id,
                locked_outputs@,
            ),
            old(frame)@,
        ),
        frame_same_but_passes(*final(frame), *old(frame)),
        final(frame).has_been_rendered,
        final(frame).passes@.len() == old(frame).passes@.len(),
        forall|p: int|
            0 <= p < old(frame).passes@.len() ==> same_but_textures(
                #[trigger] final(frame).passes@[p],
                old(frame).passes@[p],
            ) && (old(frame).passes@.len() > 0 ==> pass_without_textures(final(frame).passes@[p])),
        *final(stats) == (RendererStats {
            total_draw_calls: old(stats).total_draw_calls,
            alpha_target_count: (old(stats).alpha_target_count + alpha_targets_in(
                old(frame).passes@,
                old(frame).passes@.len(),
            )) as usize,
            color_target_count: (old(stats).color_target_count + color_targets_in(
                old(frame).passes@,
                framebuffer_size is Some,
                old(frame).passes@.len(),
            )) as usize,
        }),
{
    if frame.passes.len() == 0 {
        frame.has_been_rendered = true;
        return ;
    }
    let ghost params = frame_params(
        *shaders,
        enable_clear_scissor,
        frame@,
        framebuffer_size,
        framebuffer_depth_is_ready,
        frame_id,
        locked_outputs@,
    );
    let ghost initial = FrameState {
        device: device@,
        resolver: resolver@,
        outputs: output_targets@,
    };
    let ghost to_draw = initial.passes_to_draw(frame@);
    let ghost has_framebuffer = framebuffer_size is Some;
    device.emit(DeviceCommand::DisableDepthWrite);
    device.emit(DeviceCommand::DisableStencil);
    device.emit(DeviceCommand::SetBlend(false));
    bind_frame_data(device, resolver, frame);
    resolver.begin_frame();
    let ghost start = FrameState { device: device@, resolver: resolver@, outputs: output_targets@ };
    assert(start == initial.begin_tile_frame(old(frame)@));
    assert(frame.passes@ =~= to_draw);
    let was_rendered = frame.has_been_rendered;
    let count = frame.passes.len();
    let mut pass_index: usize = 0;
    while pass_index < count
        invariant
            pass_index <= count,
            count == old(frame).passes@.len(),
            count > 0,
            frame.passes@.len() == count,
            to_draw.len() == count,
            frame_same_but_passes(*frame, *old(frame)),
            frame.has_been_rendered == old(frame).has_been_rendered,
            was_rendered == old(frame).has_been_rendered,
            params == frame_params(
                *shaders,
                enable_clear_scissor,
                old(frame)@,
                framebuffer_size,
                framebuffer_depth_is_ready,
                frame_id,
                locked_outputs@,
            ),
            has_framebuffer == (framebuffer_size is Some),
            start.passes_ok(params, to_draw, count as nat),
            start.resolver.cache_a8_texture is None,
            start.resolver.cache_rgba8_texture is None,
            forall|q: int| pass_index <= q < count ==> #[trigger] frame.passes@[q] == to_draw[q],
            forall|q: int|
                0 <= q < count ==> same_but_textures(#[trigger] to_draw[q], old(frame).passes@[q]),
            forall|q: int|
                0 <= q < pass_index ==> same_but_textures(
                    #[trigger] frame.passes@[q],
                    old(frame).passes@[q],
                ) && pass_without_textures(frame.passes@[q]),
            (FrameState { device: device@, resolver: resolver@, outputs: output_targets@ })
                == start.draw_passes(params, to_draw, pass_index as nat),
            old(stats).alpha_target_count + alpha_targets_in(old(frame).passes@, count as nat)
                <= usize::MAX,
            old(stats).color_target_count + color_targets_in(
                old(frame).passes@,
                has_framebuffer,
                count as nat,
            ) <= usize::MAX,
            *stats == (RendererStats {
                total_draw_calls: old(stats).total_draw_calls,
                alpha_target_count: (old(stats).alpha_target_count + alpha_targets_in(
                    old(frame).passes@,
                    pass_index as nat,
                )) as usize,
                color_target_count: (old(stats).color_target_count + color_targets_in(
                    old(frame).passes@,
                    has_framebuffer,
                    pass_index as nat,
                )) as usize,
            }),
        decreases count - pass_index,
    {
        proof {
            lemma_passes_ok(start, params, to_draw, count as nat, pass_index as nat);
            lemma_target_counts_monotonic(
                old(frame).passes@,
                has_framebuffer,
                (pass_index + 1) as nat,
                count as nat,
            );
            assert(same_but_textures(to_draw[pass_index as int], old(frame).passes@[pass_index as int]));
        }
        let ghost snapshot = frame.passes@;
        let fc = FrameContext {
            shaders,
            render_tasks: &frame.render_tasks,
            enable_clear_scissor,
            framebuffer_size,
            framebuffer_depth_is_ready,
            frame_id,
            locked_outputs,
            background_color: frame.background_color,
            inner_rect: frame.inner_rect,
            has_been_rendered: was_rendered,
        };
        assert(fc@ == params);
        draw_pass(
            device,
            resolver,
            output_targets,
            stats,
            &fc,
            &mut frame.passes[pass_index],
            pass_index,
        );
        assert(forall|q: int| pass_index < q < count ==> #[trigger] frame.passes@[q] == snapshot[q]);
        assert(forall|q: int| 0 <= q < pass_index ==> #[trigger] frame.passes@[q] == snapshot[q]);
        pass_index += 1;
    }
    resolver.end_frame(RenderPassIndex(count));
    collect_output_targets(device, output_targets, frame_id);
    frame.has_been_rendered = true;
}


/// Whether the task of every output was placed.
pub fn check_outputs(tasks: &Vec<RenderTask>, outputs: &Vec<FrameOutput>) -> (b: bool)
    ensures
        b == outputs_ok(tasks@, outputs@),
{
    let mut i: usize = 0;
    while i < outputs.len()
        invariant
            i <= outputs@.len(),
            forall|k: int| 0 <= k < i ==> task_ok(tasks@, (#[trigger] outputs@[k]).task_id),
        decreases outputs@.len() - i,
    {
        if !check_task(tasks, outputs[i].task_id) {
            assert(!task_ok(tasks@, outputs@[i as int].task_id));
            return false;
        }
        i += 1;
    }
    true
}

/// Whether the texture of a list, if it has one, fits the list.
pub fn check_texture_fits<T: RenderTarget>(list: &RenderTargetList<T>) -> (b: bool)
    ensures
        b == texture_fits(*list),
{
    match &list.texture {
        Some(t) => {
            let needs_depth = list.needs_depth();
            match t.render_target {
                Some(info) => info.has_depth == needs_depth,
                None => false,
            }
        },
        None => true,
    }
}

/// Whether the lists of the pass can be given textures.
pub fn check_pass_preparable(pass: &RenderPass) -> (b: bool)
    ensures
        b == pass_preparable(*pass),
{
    match &pass.kind {
        RenderPassKind::MainFramebuffer(_) => true,
        RenderPassKind::OffScreen { alpha, color, .. } => alpha.targets.len() <= 0x7fff_ffff
            && color.targets.len() <= 0x7fff_ffff && check_texture_fits(alpha)
            && check_texture_fits(color),
    }
}

/// Whether the colour layers of an off-screen pass, with their outputs,
/// can be drawn now.
fn check_color_list(ctx: &DrawContext, color: &RenderTargetList<ColorRenderTarget>) -> (b: bool)
    ensures
        b == forall|i: int|
            0 <= i < color.targets@.len() ==> {
                &&& color_target_ok(ctx@, #[trigger] color.targets@[i])
                &&& outputs_ok(ctx@.tasks, color.targets@[i].outputs@)
            },
{
    let mut i: usize = 0;
    while i < color.targets.len()
        invariant
            i <= color.targets@.len(),
            forall|k: int|
                0 <= k < i ==> {
                    &&& color_target_ok(ctx@, #[trigger] color.targets@[k])
                    &&& outputs_ok(ctx@.tasks, color.targets@[k].outputs@)
                },
        decreases color.targets@.len() - i,
    {
        let target = &color.targets[i];
        if !(check_color_target(ctx, target) && check_outputs(
            &ctx.render_tasks.tasks,
            &target.outputs,
        )) {
            assert(!(color_target_ok(ctx@, color.targets@[i as int]) && outputs_ok(
                ctx@.tasks,
                color.targets@[i as int].outputs@,
            )));
            return false;
        }
        i += 1;
    }
    true
}

/// Whether the coverage layers of an off-screen pass can be drawn now.
fn check_alpha_list(ctx: &DrawContext, alpha: &RenderTargetList<AlphaRenderTarget>) -> (b: bool)
    ensures
        b == forall|i: int|
            0 <= i < alpha.targets@.len() ==> alpha_target_ok(ctx@, #[trigger] alpha.targets@[i]),
{
    let mut i: usize = 0;
    while i < alpha.targets.len()
        invariant
            i <= alpha.targets@.len(),
            forall|k: int| 0 <= k < i ==> alpha_target_ok(ctx@, #[trigger] alpha.targets@[k]),
        decreases alpha.targets@.len() - i,
    {
        if !check_alpha_target(ctx, &alpha.targets[i]) {
            assert(!alpha_target_ok(ctx@, alpha.targets@[i as int]));
            return false;
        }
        i += 1;
    }
    true
}

/// Whether the texture cache targets of an off-screen pass can be drawn
/// now.
fn check_cache_list(
    ctx: &DrawContext,
    texture_cache: &Vec<((SourceTexture, i32), TextureCacheRenderTarget)>,
) -> (b: bool)
    ensures
        b == forall|i: int|
            0 <= i < texture_cache@.len() ==> texture_cache_target_ok(
                ctx@,
                (#[trigger] texture_cache@[i]).0.0,
                texture_cache@[i].1,
            ),
{
    let mut i: usize = 0;
    while i < texture_cache.len()
        invariant
            i <= texture_cache@.len(),
            forall|k: int|
                0 <= k < i ==> texture_cache_target_ok(
                    ctx@,
                    (#[trigger] texture_cache@[k]).0.0,
                    texture_cache@[k].1,
                ),
        decreases texture_cache@.len() - i,
    {
        let entry = &texture_cache[i];
        if !check_texture_cache_target(ctx, &entry.0.0, &entry.1) {
            assert(!texture_cache_target_ok(
                ctx@,
                texture_cache@[i as int].0.0,
                texture_cache@[i as int].1,
            ));
            return false;
        }
        i += 1;
    }
    true
}

/// Whether the targets of the pass can be drawn with the resolver as it
/// stands.
pub fn check_pass_targets(ctx: &DrawContext, fc: &FrameContext, pass: &RenderPass) -> (b: bool)
    requires
        ctx.render_tasks == fc.render_tasks,
    ensures
        b == pass_targets_ok(ctx@, fc@, *pass),
{
    proof {
        reveal(pass_targets_ok);
    }
    match &pass.kind {
        RenderPassKind::MainFramebuffer(target) => match fc.framebuffer_size {
            Some(size) => check_color_target(ctx, target) && check_flip(&fc.inner_rect, &size)
                && check_outputs(&ctx.render_tasks.tasks, &target.outputs),
            None => true,
        },
        RenderPassKind::OffScreen { alpha, color, texture_cache } => {
            if alpha.targets.len() > 0x7fff_ffff || color.targets.len() > 0x7fff_ffff {
                return false;
            }
            if alpha.targets.len() > 0 && alpha.texture.is_none() {
                return false;
            }
            if color.targets.len() > 0 && color.texture.is_none() {
                return false;
            }
            if !check_texture_fits(color) {
                return false;
            }
            if !fc.has_been_rendered && !check_cache_list(ctx, texture_cache) {
                return false;
            }
            check_alpha_list(ctx, alpha) && check_color_list(ctx, color)
        },
    }
}

/// The number of coverage layers of a pass.
fn count_alpha_targets(pass: &RenderPass) -> (n: usize)
    ensures
        n == alpha_targets_of(*pass),
{
    match &pass.kind {
        RenderPassKind::MainFramebuffer(_) => 0,
        RenderPassKind::OffScreen { alpha, .. } => alpha.targets.len(),
    }
}

/// The number of colour targets that drawing a pass counts.
fn count_color_targets(pass: &RenderPass, has_framebuffer: bool) -> (n: usize)
    ensures
        n == color_targets_of(*pass, has_framebuffer),
{
    match &pass.kind {
        RenderPassKind::MainFramebuffer(_) => if has_framebuffer {
            1
        } else {
            0
        },
        RenderPassKind::OffScreen { color, .. } => color.targets.len(),
    }
}

/// The state of a frame that is drawn pass by pass for as long as every
/// pass can be drawn.
pub struct CheckedState {
    pub state: FrameState,
    pub stats: RendererStats,
    /// Every pass so far was drawn.
    pub complete: bool,
}

impl FrameState {
    /// The state after a pass was given up undrawn: its textures still
    /// take the place of those of the pass before it, so that every texture
    /// finds its way back to the pool.
    pub open spec fn skip_pass(self, pass: RenderPass, pass_index: nat) -> FrameState {
        FrameState {
            resolver: self.resolver.end_pass(
                pass_alpha_texture(pass),
                pass_color_texture(pass),
                RenderPassIndex(pass_index as usize),
            ),
            ..self
        }
    }
}

impl CheckedState {
    /// The pass can be drawn from this state, and its targets counted.
    pub open spec fn can_draw(self, params: FrameParams, pass: RenderPass) -> bool {
        &&& self.complete
        &&& pass_targets_ok(params.env(self.state.resolver), params, pass)
        &&& self.stats.alpha_target_count + alpha_targets_of(pass) <= usize::MAX
        &&& self.stats.color_target_count + color_targets_of(pass, params.framebuffer_size is Some)
            <= usize::MAX
    }

    /// The state after one pass: drawn and counted if it can be drawn and
    /// every pass before it was, given up otherwise.
    #[verifier::opaque]
    pub open spec fn draw_pass(self, params: FrameParams, pass: RenderPass, pass_index: nat) -> CheckedState {
        if self.can_draw(params, pass) {
            CheckedState {
                state: self.state.draw_pass(params, pass, pass_index),
                stats: RendererStats {
                    total_draw_calls: self.stats.total_draw_calls,
                    alpha_target_count: (self.stats.alpha_target_count + alpha_targets_of(
                        pass,
                    )) as usize,
                    color_target_count: (self.stats.color_target_count + color_targets_of(
                        pass,
                        params.framebuffer_size is Some,
                    )) as usize,
                },
                complete: true,
            }
        } else {
            CheckedState {
                state: self.state.skip_pass(pass, pass_index),
                stats: self.stats,
                complete: false,
            }
        }
    }

    /// The state after the first `n` passes, in order.
    pub open spec fn draw_passes(self, params: FrameParams, passes: Seq<RenderPass>, n: nat) -> CheckedState
        decreases n,
    {
        if n == 0 {
            self
        } else {
            self.draw_passes(params, passes, (n - 1) as nat).draw_pass(
                params,
                passes[n - 1],
                (n - 1) as nat,
            )
        }
    }

    /// The frame can be begun: no pass output is waiting in the resolver,
    /// and every target list can be given a texture.
    pub open spec fn can_begin(self, passes: Seq<RenderPass>) -> bool {
        &&& self.state.resolver.cache_a8_texture is None
        &&& self.state.resolver.cache_rgba8_texture is None
        &&& forall|p: int|
            0 <= p < passes.len() ==> pass_preparable(#[trigger] passes[p])
    }

    /// The state after `frame` was drawn as far as it can be. A frame
    /// without passes changes nothing; a frame that cannot be begun changes
    /// nothing and is not complete. Otherwise the frame is begun and its
    /// passes are drawn in order until one cannot be drawn; from that one on
    /// the passes are given up. Either way the outputs of the last pass go
    /// back to the pool, and the output targets that the frame did not use
    /// are given up.
    pub open spec fn draw_tile_frame(self, params: FrameParams, frame: FrameView) -> CheckedState {
        if frame.passes.len() == 0 {
            self
        } else if !self.can_begin(frame.passes) {
            CheckedState { complete: false, ..self }
        } else {
            let drawn = (CheckedState { state: self.state.begin_tile_frame(frame), ..self }).draw_passes(
                params,
                self.state.passes_to_draw(frame),
                frame.passes.len(),
            );
            let collected = (OutputState {
                device: drawn.state.device,
                targets: drawn.state.outputs,
            }).collect(drawn.state.outputs, params.frame_id, drawn.state.outputs.len());
            CheckedState {
                state: FrameState {
                    device: collected.device,
                    resolver: drawn.state.resolver.end_pass(
                        None,
                        None,
                        RenderPassIndex(frame.passes.len() as usize),
                    ),
                    outputs: collected.targets,
                },
                stats: drawn.stats,
                complete: drawn.complete,
            }
        }
    }
}

/// A frame that can be drawn completely is drawn, checked or not, to the
/// same state, and counted in full.
pub proof fn lemma_checked_draws_all(
    c: CheckedState,
    params: FrameParams,
    passes: Seq<RenderPass>,
    n: nat,
)
    requires
        c.complete,
        c.state.passes_ok(params, passes, n),
        c.stats.alpha_target_count + alpha_targets_in(passes, n) <= usize::MAX,
        c.stats.color_target_count + color_targets_in(passes, params.framebuffer_size is Some, n)
            <= usize::MAX,
    ensures
        c.draw_passes(params, passes, n).complete,
        c.draw_passes(params, passes, n).state == c.state.draw_passes(params, passes, n),
        c.draw_passes(params, passes, n).stats.alpha_target_count == c.stats.alpha_target_count
            + alpha_targets_in(passes, n),
        c.draw_passes(params, passes, n).stats.color_target_count == c.stats.color_target_count
            + color_targets_in(passes, params.framebuffer_size is Some, n),
    decreases n,
{
    if n > 0 {
        lemma_checked_draws_all(c, params, passes, (n - 1) as nat);
        reveal(CheckedState::draw_pass);
    }
}

/// Passes are drawn in order, each from the state that the pass before it
/// left. When the turn of pass `n + 1` comes, pass `n` has ended: its
/// coverage and colour outputs are what `CacheA8` and `CacheRGBA8` stand
/// for, whether the pass was drawn or given up, and the outputs of the pass
/// before it are back in the pool under that pass's number.
pub proof fn lemma_pass_reads_the_pass_before(
    c: CheckedState,
    params: FrameParams,
    passes: Seq<RenderPass>,
    n: nat,
)
    ensures
        ({
            let before = c.draw_passes(params, passes, n);
            let ready = c.draw_passes(params, passes, n + 1);
            &&& c.draw_passes(params, passes, n + 2) == ready.draw_pass(
                params,
                passes[n as int + 1],
                n + 1,
            )
            &&& ready.state.resolver == before.state.resolver.end_pass(
                pass_alpha_texture(passes[n as int]),
                pass_color_texture(passes[n as int]),
                RenderPassIndex(n as usize),
            )
            &&& ready.state.resolver.cache_a8_texture == pass_alpha_texture(passes[n as int])
            &&& ready.state.resolver.cache_rgba8_texture == pass_color_texture(passes[n as int])
            &&& ready.complete ==> before.complete && ready.state == before.state.draw_pass(
                params,
                passes[n as int],
                n,
            )
        }),
{
    reveal(CheckedState::draw_pass);
    reveal(FrameState::draw_pass);
    assert(c.draw_passes(params, passes, n + 1) == c.draw_passes(params, passes, n).draw_pass(
        params,
        passes[n as int],
        n,
    ));
}

/// Draws one pass if it can be drawn and every pass before it was, and
/// gives it up otherwise; returns whether it was drawn.
pub fn draw_pass_checked(
    device: &mut Device,
    resolver: &mut SourceTextureResolver,
    output_targets: &mut Vec<OutputTarget>,
    stats: &mut RendererStats,
    fc: &FrameContext,
    pass: &mut RenderPass,
    pass_index: usize,
    complete: bool,
) -> (drawn: bool)
    requires
        pass_index == 0 ==> old(resolver)@.cache_a8_texture is None && old(resolver)@.cache_rgba8_texture is None,
    ensures
        (CheckedState {
            state: FrameState {
                device: final(device)@,
                resolver: final(resolver)@,
                outputs: final(output_targets)@,
            },
            stats: *final(stats),
            complete: drawn,
        }) == (CheckedState {
            state: FrameState {
                device: old(device)@,
                resolver: old(resolver)@,
                outputs: old(output_targets)@,
            },
            stats: *old(stats),
            complete,
        }).draw_pass(fc@, *old(pass), pass_index as nat),
        same_but_textures(*final(pass), *old(pass)),
        pass_without_textures(*final(pass)),
{
    proof {
        reveal(CheckedState::draw_pass);
    }
    let has_framebuffer = fc.framebuffer_size.is_some();
    let can_draw = complete && {
        let ctx = DrawContext {
            resolver: &*resolver,
            shaders: fc.shaders,
            render_tasks: fc.render_tasks,
            enable_clear_scissor: fc.enable_clear_scissor,
        };
        check_pass_targets(&ctx, fc, pass)
    } && count_alpha_targets(pass) <= usize::MAX - stats.alpha_target_count
        && count_color_targets(pass, has_framebuffer) <= usize::MAX - stats.color_target_count;
    if can_draw {
        draw_pass(device, resolver, output_targets, stats, fc, pass, pass_index);
    } else {
        let (cur_alpha, cur_color) = take_pass_textures(pass);
        resolver.end_pass(cur_alpha, cur_color, RenderPassIndex(pass_index));
    }
    can_draw
}


/// Whether every target list of `passes` can be given a texture.
pub fn check_passes_preparable(passes: &Vec<RenderPass>) -> (b: bool)
    ensures
        b == forall|p: int| 0 <= p < passes@.len() ==> pass_preparable(#[trigger] passes@[p]),
{
    let mut p: usize = 0;
    while p < passes.len()
        invariant
            p <= passes@.len(),
            forall|q: int| 0 <= q < p ==> pass_preparable(#[trigger] passes@[q]),
        decreases passes@.len() - p,
    {
        if !check_pass_preparable(&passes[p]) {
            assert(!pass_preparable(passes@[p as int]));
            return false;
        }
        p += 1;
    }
    true
}

/// Draws one frame as far as it can be drawn, and returns whether all of
/// it was; see [`CheckedState::draw_tile_frame`]. A frame that was drawn
/// completely counts as rendered afterwards. None of the frame's target
/// lists holds a texture after a frame that was begun.
pub fn draw_tile_frame_checked(
    device: &mut Device,
    resolver: &mut SourceTextureResolver,
    output_targets: &mut Vec<OutputTarget>,
    stats: &mut RendererStats,
    shaders: &Shaders,
    enable_clear_scissor: bool,
    frame: &mut Frame,
    framebuffer_size: Option<DeviceUintSize>,
    framebuffer_depth_is_ready: bool,
    frame_id: FrameId,
    locked_outputs: &Vec<LockedOutput>,
) -> (complete: bool)
    ensures
        (CheckedState {
            state: FrameState {
                device: final(device)@,
                resolver: final(resolver)@,
                outputs: final(output_targets)@,
            },
            stats: *final(stats),
            complete,
        }) == (CheckedState {
            state: FrameState {
                device: old(device)@,
                resolver: old(resolver)@,
                outputs: old(output_targets)@,
            },
            stats: *old(stats),
            complete: true,
        }).draw_tile_frame(
            frame_params(
                *shaders,
                enable_clear_scissor,
                old(frame)@,
                framebuffer_size,
                framebuffer_depth_is_ready,
                frame_id,
                locked_outputs@,
            ),
            old(frame)@,
        ),
        frame_same_but_passes(*final(frame), *old(frame)),
        final(frame)@ == (FrameView {
            passes: final(frame)@.passes,
            has_been_rendered: old(frame).has_been_rendered || complete,
            ..old(frame)@
        }),
        final(frame).has_been_rendered == (old(frame).has_been_rendered || complete),
        final(frame).passes@.len() == old(frame).passes@.len(),
        forall|p: int|
            0 <= p < old(frame).passes@.len() ==> same_but_textures(
                #[trigger] final(frame).passes@[p],
                old(frame).passes@[p],
            ),
        forall|p: int|
            0 <= p < old(frame).passes@.len() ==> if (CheckedState {
                state: FrameState {
                    device: old(device)@,
                    resolver: old(resolver)@,
                    outputs: old(output_targets)@,
                },
                stats: *old(stats),
                complete: true,
            }).can_begin(old(frame)@.passes) {
                pass_without_textures(#[trigger] final(frame).passes@[p])
            } else {
                final(frame).passes@[p] == old(frame).passes@[p]
            },
        final(resolver)@.cache_a8_texture == old(resolver)@.cache_a8_texture,
        final(resolver)@.cache_rgba8_texture == old(resolver)@.cache_rgba8_texture,
{
    if frame.passes.len() == 0 {
        frame.has_been_rendered = true;
        return true;
    }
    if resolver.cache_a8_texture.is_some() || resolver.cache_rgba8_texture.is_some()
        || !check_passes_preparable(&frame.passes) {
        return false;
    }
    let ghost params = frame_params(
        *shaders,
        enable_clear_scissor,
        frame@,
        framebuffer_size,
        framebuffer_depth_is_ready,
        frame_id,
        locked_outputs@,
    );
    let ghost initial = FrameState {
        device: device@,
        resolver: resolver@,
        outputs: output_targets@,
    };
    let ghost to_draw = initial.passes_to_draw(frame@);
    device.emit(DeviceCommand::DisableDepthWrite);
    device.emit(DeviceCommand::DisableStencil);
    device.emit(DeviceCommand::SetBlend(false));
    bind_frame_data(device, resolver, frame);
    resolver.begin_frame();
    let ghost start = CheckedState {
        state: FrameState { device: device@, resolver: resolver@, outputs: output_targets@ },
        stats: *stats,
        complete: true,
    };
    assert(start.state == initial.begin_tile_frame(old(frame)@));
    assert(frame.passes@ =~= to_draw);
    let was_rendered = frame.has_been_rendered;
    let count = frame.passes.len();
    let mut complete = true;
    let mut pass_index: usize = 0;
    while pass_index < count
        invariant
            pass_index <= count,
            count == old(frame).passes@.len(),
            count > 0,
            frame.passes@.len() == count,
            to_draw.len() == count,
            frame_same_but_passes(*frame, *old(frame)),
            frame.has_been_rendered == old(frame).has_been_rendered,
            was_rendered == old(frame).has_been_rendered,
            params == frame_params(
                *shaders,
                enable_clear_scissor,
                old(frame)@,
                framebuffer_size,
                framebuffer_depth_is_ready,
                frame_id,
                locked_outputs@,
            ),
            start.state.resolver.cache_a8_texture is None,
            start.state.resolver.cache_rgba8_texture is None,
            forall|q: int| pass_index <= q < count ==> #[trigger] frame.passes@[q] == to_draw[q],
            forall|q: int|
                0 <= q < count ==> same_but_textures(#[trigger] to_draw[q], old(frame).passes@[q]),
            forall|q: int|
                0 <= q < pass_index ==> same_but_textures(
                    #[trigger] frame.passes@[q],
                    old(frame).passes@[q],
                ) && pass_without_textures(frame.passes@[q]),
            (CheckedState {
                state: FrameState {
                    device: device@,
                    resolver: resolver@,
                    outputs: output_targets@,
                },
                stats: *stats,
                complete,
            }) == start.draw_passes(params, to_draw, pass_index as nat),
        decreases count - pass_index,
    {
        assert(same_but_textures(to_draw[pass_index as int], old(frame).passes@[pass_index as int]));
        let ghost snapshot = frame.passes@;
        let fc = FrameContext {
            shaders,
            render_tasks: &frame.render_tasks,
            enable_clear_scissor,
            framebuffer_size,
            framebuffer_depth_is_ready,
            frame_id,
            locked_outputs,
            background_color: frame.background_color,
            inner_rect: frame.inner_rect,
            has_been_rendered: was_rendered,
        };
        assert(fc@ == params);
        complete = draw_pass_checked(
            device,
            resolver,
            output_targets,
            stats,
            &fc,
            &mut frame.passes[pass_index],
            pass_index,
            complete,
        );
        assert(forall|q: int| pass_index < q < count ==> #[trigger] frame.passes@[q] == snapshot[q]);
        assert(forall|q: int| 0 <= q < pass_index ==> #[trigger] frame.passes@[q] == snapshot[q]);
        pass_index += 1;
    }
    resolver.end_frame(RenderPassIndex(count));
    collect_output_targets(device, output_targets, frame_id);
    if complete {
        frame.has_been_rendered = true;
    }
    complete
}

} // verus!
