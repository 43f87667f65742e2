//! Rendering the active documents: what one call of `render` does to the
//! device, the caches and the documents, step by step.

use vstd::prelude::*;
use crate::api::{ColorF, DocumentId, F32Bits};
use crate::device::{Device, DeviceCommand, DeviceView, FrameId};
use crate::documents::ActiveDocument;
use crate::frame::{check_passes_preparable, draw_tile_frame_checked, frame_params, pass_preparable, pass_without_textures, prepare_passes, same_but_textures, CheckedState, FrameState, LockedOutput, OutputTarget, PoolState};
use crate::gpu_cache::{list_views, CacheTexture, GpuCacheUpdateList, GpuCacheView, UpdateListView};
use std::collections::VecDeque;
use crate::internal_types::BackendProfileCounters;
use crate::renderer::{CpuProfile, FrameInputs, GpuProfile, GpuTimer, Renderer, RendererError, RendererStats, RendererView};
use crate::resources::{prepare_gpu_cache, update_deferred_resolves, GpuCacheState, LockedExternalImage, ResolveState};
use crate::shaders::Shaders;
use crate::texture_resolver::{ResolverView, SourceTextureResolver};
use crate::tiling::{Frame, FrameView, RenderPass, RenderPassKind};
use crate::units::{DeviceUintPoint, DeviceUintSize};

verus! {

/// The frames of `docs`, as mathematical values.
pub open spec fn frame_views(docs: Seq<ActiveDocument>) -> Seq<FrameView> {
    docs.map_values(|d: ActiveDocument| d.1.frame@)
}

/// The frame has a background and covers the whole window, so that drawing
/// it leaves nothing of what the window held.
pub open spec fn covers_window(frame: FrameView, framebuffer_size: DeviceUintSize) -> bool {
    &&& frame.background_color is Some
    &&& frame.inner_rect.origin == (DeviceUintPoint { x: 0, y: 0 })
    &&& frame.inner_rect.size == framebuffer_size
}

/// Some frame covers the whole window.
pub open spec fn any_covers_window(frames: Seq<FrameView>, framebuffer_size: DeviceUintSize) -> bool {
    exists|i: int| 0 <= i < frames.len() && covers_window(#[trigger] frames[i], framebuffer_size)
}

/// Whether some document covers the whole window.
pub fn check_any_covers_window(docs: &Vec<ActiveDocument>, framebuffer_size: DeviceUintSize) -> (b: bool)
    ensures
        b == any_covers_window(frame_views(docs@), framebuffer_size),
{
    let mut i: usize = 0;
    while i < docs.len()
        invariant
            i <= docs@.len(),
            forall|k: int|
                0 <= k < i ==> !covers_window(#[trigger] frame_views(docs@)[k], framebuffer_size),
        decreases docs@.len() - i,
    {
        let frame = &docs[i].1.frame;
        if frame.background_color.is_some() && frame.inner_rect.origin == DeviceUintPoint::zero()
            && frame.inner_rect.size == framebuffer_size {
            assert(covers_window(frame_views(docs@)[i as int], framebuffer_size));
            return true;
        }
        i += 1;
    }
    false
}

/// The device after the window was cleared for the frame. Nothing happens
/// without a window. The colour is cleared, to `clear_color`, unless some
/// document covers the window; depth is cleared, to the far plane, unless
/// documents overlap on the window, in which case each clears its own
/// part. If neither is cleared, nothing is recorded.
pub open spec fn clear_window(
    d: DeviceView,
    frames: Seq<FrameView>,
    framebuffer_size: Option<DeviceUintSize>,
    clear_color: Option<ColorF>,
    intersecting: bool,
) -> DeviceView {
    match framebuffer_size {
        Some(size) => {
            let needs_color_clear = !any_covers_window(frames, size);
            if needs_color_clear || !intersecting {
                d.emit(DeviceCommand::BindDrawTarget { target: None, dimensions: None }).emit(
                    DeviceCommand::EnableDepthWrite,
                ).emit(
                    DeviceCommand::ClearTarget {
                        color: if needs_color_clear {
                            clear_color
                        } else {
                            None
                        },
                        depth: if intersecting {
                            None
                        } else {
                            Some(F32Bits(0x3f80_0000))
                        },
                        rect: None,
                    },
                ).emit(DeviceCommand::DisableDepthWrite)
            } else {
                d
            }
        },
        None => d,
    }
}

/// Clears the window for the frame; see [`clear_window`].
pub fn clear_window_for(
    device: &mut Device,
    docs: &Vec<ActiveDocument>,
    framebuffer_size: Option<DeviceUintSize>,
    clear_color: Option<ColorF>,
    intersecting: bool,
)
    ensures
        final(device)@ == clear_window(
            old(device)@,
            frame_views(docs@),
            framebuffer_size,
            clear_color,
            intersecting,
        ),
{
    if let Some(size) = framebuffer_size {
        let needs_color_clear = !check_any_covers_window(docs, size);
        if needs_color_clear || !intersecting {
            let color = if needs_color_clear {
                clear_color
            } else {
                None
            };
            let depth = if intersecting {
                None
            } else {
                Some(F32Bits::one())
            };
            device.emit(DeviceCommand::BindDrawTarget { target: None, dimensions: None });
            device.emit(DeviceCommand::EnableDepthWrite);
            device.clear_target(color, depth, None);
            device.emit(DeviceCommand::DisableDepthWrite);
        }
    }
}

/// Every target list of `passes` can be given a texture and has none.
pub open spec fn can_prepare(passes: Seq<RenderPass>) -> bool {
    forall|p: int|
        0 <= p < passes.len() ==> pass_preparable(#[trigger] passes[p]) && pass_without_textures(
            passes[p],
        )
}

/// Whether every target list of `passes` can be given a texture and has
/// none.
pub fn check_can_prepare(passes: &Vec<RenderPass>) -> (b: bool)
    ensures
        b == can_prepare(passes@),
{
    if !check_passes_preparable(passes) {
        return false;
    }
    let mut p: usize = 0;
    while p < passes.len()
        invariant
            p <= passes@.len(),
            forall|q: int| 0 <= q < passes@.len() ==> pass_preparable(#[trigger] passes@[q]),
            forall|q: int| 0 <= q < p ==> pass_without_textures(#[trigger] passes@[q]),
        decreases passes@.len() - p,
    {
        let has_texture = match &passes[p].kind {
            RenderPassKind::MainFramebuffer(_) => false,
            RenderPassKind::OffScreen { alpha, color, .. } => alpha.texture.is_some()
                || color.texture.is_some(),
        };
        if has_texture {
            assert(!pass_without_textures(passes@[p as int]));
            return false;
        }
        p += 1;
    }
    true
}

impl PoolState {
    /// The state after the pool was searched for perfect matches for the
    /// target lists of a frame; a frame whose lists cannot be given
    /// textures is passed over.
    pub open spec fn prepare_tile_frame(self, passes: Seq<RenderPass>) -> PoolState {
        if can_prepare(passes) {
            self.prepare_passes(passes, true, passes.len())
        } else {
            self
        }
    }

    /// The passes of a frame after the pool was searched for perfect
    /// matches for their target lists.
    pub open spec fn tile_frame_passes(self, passes: Seq<RenderPass>) -> Seq<RenderPass> {
        if can_prepare(passes) {
            self.prepared_passes(passes, true)
        } else {
            passes
        }
    }

    /// The state after the pool was searched for the first `n` frames, in
    /// order.
    pub open spec fn prepare_tile_frames(self, frames: Seq<FrameView>, n: nat) -> PoolState
        decreases n,
    {
        if n == 0 {
            self
        } else {
            self.prepare_tile_frames(frames, (n - 1) as nat).prepare_tile_frame(
                frames[n - 1].passes,
            )
        }
    }

    /// The frames after the pool was searched for all of them: each has the
    /// textures that were found when its turn came.
    pub open spec fn prepared_frames(self, frames: Seq<FrameView>) -> Seq<FrameView> {
        Seq::new(
            frames.len(),
            |k: int|
                FrameView {
                    passes: self.prepare_tile_frames(frames, k as nat).tile_frame_passes(
                        frames[k].passes,
                    ),
                    ..frames[k]
                },
        )
    }
}

/// Searches the pool for perfect matches for the target lists of one
/// frame: what was drawn to a texture in the last frame is drawn to the
/// same texture in this one where sizes and formats allow.
pub fn prepare_tile_frame(resolver: &mut SourceTextureResolver, device: &mut Device, frame: &mut Frame)
    ensures
        final(resolver)@ == (ResolverView {
            render_target_pool: final(resolver)@.render_target_pool,
            ..old(resolver)@
        }),
        (PoolState { device: final(device)@, pool: final(resolver)@.render_target_pool }) == (PoolState {
            device: old(device)@,
            pool: old(resolver)@.render_target_pool,
        }).prepare_tile_frame(old(frame)@.passes),
        final(frame)@ == (FrameView {
            passes: (PoolState {
                device: old(device)@,
                pool: old(resolver)@.render_target_pool,
            }).tile_frame_passes(old(frame)@.passes),
            ..old(frame)@
        }),
{
    if check_can_prepare(&frame.passes) {
        prepare_passes(resolver, device, &mut frame.passes, true);
        assert(frame@.passes =~= (PoolState {
            device: old(device)@,
            pool: old(resolver)@.render_target_pool,
        }).prepared_passes(old(frame)@.passes, true));
    }
}

/// Searches the pool for perfect matches for the target lists of every
/// document, in the order of the documents, before any of them is drawn.
pub fn prepare_tile_frames(
    resolver: &mut SourceTextureResolver,
    device: &mut Device,
    docs: &mut Vec<ActiveDocument>,
)
    ensures
        final(resolver)@ == (ResolverView {
            render_target_pool: final(resolver)@.render_target_pool,
            ..old(resolver)@
        }),
        (PoolState { device: final(device)@, pool: final(resolver)@.render_target_pool }) == (PoolState {
            device: old(device)@,
            pool: old(resolver)@.render_target_pool,
        }).prepare_tile_frames(frame_views(old(docs)@), old(docs)@.len()),
        final(docs)@.len() == old(docs)@.len(),
        frame_views(final(docs)@) == (PoolState {
            device: old(device)@,
            pool: old(resolver)@.render_target_pool,
        }).prepared_frames(frame_views(old(docs)@)),
        forall|k: int|
            0 <= k < old(docs)@.len() ==> same_document(#[trigger] final(docs)@[k], old(docs)@[k]),
{
    let ghost start = PoolState { device: device@, pool: resolver@.render_target_pool };
    let ghost frames = frame_views(docs@);
    let mut k: usize = 0;
    while k < docs.len()
        invariant
            k <= docs@.len(),
            docs@.len() == old(docs)@.len(),
            frames == frame_views(old(docs)@),
            resolver@ == (ResolverView {
                render_target_pool: resolver@.render_target_pool,
                ..old(resolver)@
            }),
            (PoolState { device: device@, pool: resolver@.render_target_pool })
                == start.prepare_tile_frames(frames, k as nat),
            forall|q: int| k <= q < docs@.len() ==> #[trigger] docs@[q] == old(docs)@[q],
            forall|q: int|
                0 <= q < k ==> (#[trigger] docs@[q]).1.frame@ == start.prepared_frames(frames)[q],
            forall|q: int|
                0 <= q < docs@.len() ==> same_document(#[trigger] docs@[q], old(docs)@[q]),
        decreases docs@.len() - k,
    {
        let ghost snapshot = docs@;
        assert(frames[k as int] == old(docs)@[k as int].1.frame@);
        prepare_tile_frame(resolver, device, &mut docs[k].1.frame);
        assert(forall|q: int| k < q < docs@.len() ==> #[trigger] docs@[q] == snapshot[q]);
        assert(forall|q: int| 0 <= q < k ==> #[trigger] docs@[q] == snapshot[q]);
        k += 1;
    }
    assert(frame_views(docs@) =~= start.prepared_frames(frames));
}

/// `after` is the document `before` but for its frame.
pub open spec fn same_document(after: ActiveDocument, before: ActiveDocument) -> bool {
    &&& after.0 == before.0
    &&& after.1.pipeline_epoch_map == before.1.pipeline_epoch_map
    &&& after.1.layers_bouncing_back == before.1.layers_bouncing_back
}


/// What drawing the documents changes, besides the documents themselves.
pub struct RenderState {
    /// The device, the resolver and the output targets.
    pub frame: FrameState,
    pub cache: GpuCacheView,
    /// The GPU cache update lists that are waiting.
    pub pending: Seq<UpdateListView>,
    pub stats: RendererStats,
    /// The documents whose frame could not be drawn completely.
    pub failed: Seq<DocumentId>,
}

/// What drawing the documents reads of the renderer and of the call.
pub struct RenderParams {
    pub shaders: Shaders,
    pub enable_clear_scissor: bool,
    pub framebuffer_size: Option<DeviceUintSize>,
    pub framebuffer_depth_is_ready: bool,
    pub frame_id: FrameId,
    pub locked_outputs: Seq<LockedOutput>,
}

impl RenderParams {
    /// What drawing `frame` reads.
    pub open spec fn for_frame(self, frame: FrameView) -> crate::frame::FrameParams {
        frame_params(
            self.shaders,
            self.enable_clear_scissor,
            frame,
            self.framebuffer_size,
            self.framebuffer_depth_is_ready,
            self.frame_id,
            self.locked_outputs,
        )
    }
}

impl RenderState {
    /// The state after the deferred images of `frame` were resolved: the
    /// device and the resolver are as resolving leaves them, and the list
    /// that carries the UV rectangles joins the lists that are waiting; a
    /// frame without deferred images changes nothing.
    pub open spec fn resolve_images(self, frame: FrameView, locked: Seq<LockedExternalImage>) -> RenderState {
        if frame.deferred_resolves.len() == 0 {
            self
        } else {
            let end = (ResolveState {
                device: self.frame.device,
                images: self.frame.resolver.external_images,
                updates: Seq::empty(),
                blocks: Seq::empty(),
                height: self.cache.height,
            }).resolve_all(frame.deferred_resolves, locked, frame.deferred_resolves.len());
            RenderState {
                frame: FrameState {
                    device: end.device,
                    resolver: ResolverView { external_images: end.images, ..self.frame.resolver },
                    outputs: self.frame.outputs,
                },
                pending: self.pending.push(end.list()),
                ..self
            }
        }
    }

    /// The state after the GPU cache was brought up to date.
    pub open spec fn flush_cache(self) -> RenderState {
        let flushed = (GpuCacheState { device: self.frame.device, cache: self.cache }).bring_up_to_date(
            self.pending,
        );
        RenderState {
            frame: FrameState { device: flushed.device, ..self.frame },
            cache: flushed.cache,
            pending: Seq::empty(),
            ..self
        }
    }

    /// The frame, drawn as far as it can be from this state.
    pub open spec fn drawn(self, params: RenderParams, frame: FrameView) -> CheckedState {
        (CheckedState { state: self.frame, stats: self.stats, complete: true }).draw_tile_frame(
            params.for_frame(frame),
            frame,
        )
    }

    /// What the frame brings is sound: every one of its deferred images can
    /// be resolved, and every list that waits for the GPU cache, the list
    /// of the resolved images among them, is applied.
    pub open spec fn sound(self, frame: FrameView, locked: Seq<LockedExternalImage>) -> bool {
        let resolved = self.resolve_images(frame, locked);
        &&& crate::resources::resolves_ok(frame.deferred_resolves, locked)
        &&& (GpuCacheState { device: resolved.frame.device, cache: resolved.cache }).takes_all(
            resolved.pending,
        )
    }

    /// The state after one document: its deferred images are resolved and
    /// the GPU cache is brought up to date. If what the frame brings is
    /// sound, the frame is drawn as far as it can be; if not, it is not
    /// drawn at all. A document whose frame was not drawn completely joins
    /// the failed ones.
    #[verifier::opaque]
    pub open spec fn draw_document(
        self,
        params: RenderParams,
        id: DocumentId,
        frame: FrameView,
        locked: Seq<LockedExternalImage>,
    ) -> RenderState {
        let ready = self.resolve_images(frame, locked).flush_cache();
        let drawn = ready.drawn(params, frame);
        if self.sound(frame, locked) {
            RenderState {
                frame: drawn.state,
                stats: drawn.stats,
                failed: if drawn.complete {
                    ready.failed
                } else {
                    ready.failed.push(id)
                },
                ..ready
            }
        } else {
            RenderState { failed: ready.failed.push(id), ..ready }
        }
    }

    /// The state after the first `n` documents, in order.
    pub open spec fn draw_documents(
        self,
        params: RenderParams,
        ids: Seq<DocumentId>,
        frames: Seq<FrameView>,
        locked: Seq<LockedExternalImage>,
        n: nat,
    ) -> RenderState
        decreases n,
    {
        if n == 0 {
            self
        } else {
            self.draw_documents(params, ids, frames, locked, (n - 1) as nat).draw_document(
                params,
                ids[n - 1],
                frames[n - 1],
                locked,
            )
        }
    }

    /// Whether the frame of a document can be begun from this state, once
    /// its images are resolved and the GPU cache is up to date.
    pub open spec fn begins(self, frame: FrameView, locked: Seq<LockedExternalImage>) -> bool {
        let ready = self.resolve_images(frame, locked).flush_cache();
        self.sound(frame, locked) && (CheckedState {
            state: ready.frame,
            stats: ready.stats,
            complete: true,
        }).can_begin(frame.passes)
    }

    /// Whether the frame of document `k` can be begun when its turn comes.
    pub open spec fn begins_at(
        self,
        params: RenderParams,
        ids: Seq<DocumentId>,
        frames: Seq<FrameView>,
        locked: Seq<LockedExternalImage>,
        k: int,
    ) -> bool {
        self.draw_documents(params, ids, frames, locked, k as nat).begins(frames[k], locked)
    }

    /// Whether the frame of a document is drawn completely from this state.
    pub open spec fn draws_completely(self, params: RenderParams, frame: FrameView, locked: Seq<LockedExternalImage>) -> bool {
        self.sound(frame, locked) && self.resolve_images(frame, locked).flush_cache().drawn(
            params,
            frame,
        ).complete
    }

    /// Whether the frame of document `k` is drawn completely when its turn
    /// comes.
    pub open spec fn draws_completely_at(
        self,
        params: RenderParams,
        ids: Seq<DocumentId>,
        frames: Seq<FrameView>,
        locked: Seq<LockedExternalImage>,
        k: int,
    ) -> bool {
        self.draw_documents(params, ids, frames, locked, k as nat).draws_completely(
            params,
            frames[k],
            locked,
        )
    }
}

/// The names of `docs`.
pub open spec fn document_ids(docs: Seq<ActiveDocument>) -> Seq<DocumentId> {
    docs.map_values(|d: ActiveDocument| d.0)
}

/// Draws one document; see [`RenderState::draw_document`]. Afterwards the
/// frame counts as rendered if it was drawn completely.
pub fn draw_document(
    device: &mut Device,
    resolver: &mut SourceTextureResolver,
    cache: &mut CacheTexture,
    output_targets: &mut Vec<OutputTarget>,
    pending: &mut Vec<GpuCacheUpdateList>,
    stats: &mut RendererStats,
    failed: &mut Vec<DocumentId>,
    shaders: &Shaders,
    enable_clear_scissor: bool,
    doc: &mut ActiveDocument,
    framebuffer_size: Option<DeviceUintSize>,
    framebuffer_depth_is_ready: bool,
    frame_id: FrameId,
    locked_outputs: &Vec<LockedOutput>,
    locked_images: &Vec<LockedExternalImage>,
)
    requires
        old(cache).wf(),
    ensures
        final(cache).wf(),
        (RenderState {
            frame: FrameState {
                device: final(device)@,
                resolver: final(resolver)@,
                outputs: final(output_targets)@,
            },
            cache: final(cache)@,
            pending: list_views(final(pending)@),
            stats: *final(stats),
            failed: final(failed)@,
        }) == (RenderState {
            frame: FrameState {
                device: old(device)@,
                resolver: old(resolver)@,
                outputs: old(output_targets)@,
            },
            cache: old(cache)@,
            pending: list_views(old(pending)@),
            stats: *old(stats),
            failed: old(failed)@,
        }).draw_document(
            (RenderParams {
                shaders: *shaders,
                enable_clear_scissor,
                framebuffer_size,
                framebuffer_depth_is_ready,
                frame_id,
                locked_outputs: locked_outputs@,
            }),
            old(doc).0,
            old(doc).1.frame@,
            locked_images@,
        ),
        same_document(*final(doc), *old(doc)),
        final(pending)@.len() == 0,
        final(doc).1.frame@ == (FrameView {
            passes: final(doc).1.frame@.passes,
            has_been_rendered: final(doc).1.frame@.has_been_rendered,
            ..old(doc).1.frame@
        }),
        passes_after_draw(
            final(doc).1.frame@.passes,
            old(doc).1.frame@.passes,
            (RenderState {
                frame: FrameState {
                    device: old(device)@,
                    resolver: old(resolver)@,
                    outputs: old(output_targets)@,
                },
                cache: old(cache)@,
                pending: list_views(old(pending)@),
                stats: *old(stats),
                failed: old(failed)@,
            }).begins(old(doc).1.frame@, locked_images@),
        ),
        final(doc).1.frame@.has_been_rendered == (old(doc).1.frame@.has_been_rendered || (RenderState {
            frame: FrameState {
                device: old(device)@,
                resolver: old(resolver)@,
                outputs: old(output_targets)@,
            },
            cache: old(cache)@,
            pending: list_views(old(pending)@),
            stats: *old(stats),
            failed: old(failed)@,
        }).draws_completely(
            (RenderParams {
                shaders: *shaders,
                enable_clear_scissor,
                framebuffer_size,
                framebuffer_depth_is_ready,
                frame_id,
                locked_outputs: locked_outputs@,
            }),
            old(doc).1.frame@,
            locked_images@,
        )),
        final(doc).1.frame@.passes.len() == old(doc).1.frame@.passes.len(),
        forall|p: int|
            0 <= p < old(doc).1.frame@.passes.len() ==> same_but_textures(
                #[trigger] final(doc).1.frame@.passes[p],
                old(doc).1.frame@.passes[p],
            ),
        final(resolver)@.cache_a8_texture == old(resolver)@.cache_a8_texture,
        final(resolver)@.cache_rgba8_texture == old(resolver)@.cache_rgba8_texture,
        final(cache)@.mirror.rows.len() >= old(cache)@.mirror.rows.len(),
{
    proof {
        reveal(RenderState::draw_document);
    }
    let ghost before = list_views(pending@);
    let resolvable = crate::resources::check_deferred_resolves(
        &doc.1.frame.deferred_resolves,
        locked_images,
    );
    let deferred = update_deferred_resolves(
        device,
        resolver,
        cache.get_height(),
        &doc.1.frame.deferred_resolves,
        locked_images,
    );
    match deferred {
        Some(list) => {
            pending.push(list);
            assert(list_views(pending@) =~= before.push(list@));
        },
        None => {},
    }
    let (_, taken) = prepare_gpu_cache(device, cache, pending);
    assert(list_views(pending@) =~= Seq::<UpdateListView>::empty());
    if resolvable && taken {
        let complete = draw_tile_frame_checked(
            device,
            resolver,
            output_targets,
            stats,
            shaders,
            enable_clear_scissor,
            &mut doc.1.frame,
            framebuffer_size,
            framebuffer_depth_is_ready,
            frame_id,
            locked_outputs,
        );
        if !complete {
            failed.push(doc.0);
        }
    } else {
        failed.push(doc.0);
        assert forall|p: int| 0 <= p < doc.1.frame@.passes.len() implies same_but_textures(
            #[trigger] doc.1.frame@.passes[p],
            doc.1.frame@.passes[p],
        ) by {}
    }
}


/// `after` are the passes `before` after their frame had its turn: the
/// lists of a frame that was begun have given their textures back, the
/// passes of any other frame are as they were.
pub open spec fn passes_after_draw(after: Seq<RenderPass>, before: Seq<RenderPass>, begun: bool) -> bool {
    &&& after.len() == before.len()
    &&& forall|p: int|
        0 <= p < before.len() ==> if begun {
            same_but_textures(#[trigger] after[p], before[p]) && pass_without_textures(after[p])
        } else {
            after[p] == before[p]
        }
}

/// `after` is the frame `before` after a call of `render`: only the
/// textures of its target lists and whether it was rendered may differ.
pub open spec fn frame_after_render(after: FrameView, before: FrameView) -> bool {
    &&& after == (FrameView {
        passes: after.passes,
        has_been_rendered: after.has_been_rendered,
        ..before
    })
    &&& after.passes.len() == before.passes.len()
    &&& forall|p: int|
        0 <= p < before.passes.len() ==> same_but_textures(
            #[trigger] after.passes[p],
            before.passes[p],
        )
}

/// Draws the documents in their order; see
/// [`RenderState::draw_documents`].
pub fn draw_documents(
    device: &mut Device,
    resolver: &mut SourceTextureResolver,
    cache: &mut CacheTexture,
    output_targets: &mut Vec<OutputTarget>,
    pending: &mut Vec<GpuCacheUpdateList>,
    stats: &mut RendererStats,
    failed: &mut Vec<DocumentId>,
    shaders: &Shaders,
    enable_clear_scissor: bool,
    docs: &mut Vec<ActiveDocument>,
    framebuffer_size: Option<DeviceUintSize>,
    framebuffer_depth_is_ready: bool,
    frame_id: FrameId,
    locked_outputs: &Vec<LockedOutput>,
    locked_images: &Vec<LockedExternalImage>,
)
    requires
        old(cache).wf(),
    ensures
        final(cache).wf(),
        (RenderState {
            frame: FrameState {
                device: final(device)@,
                resolver: final(resolver)@,
                outputs: final(output_targets)@,
            },
            cache: final(cache)@,
            pending: list_views(final(pending)@),
            stats: *final(stats),
            failed: final(failed)@,
        }) == (RenderState {
            frame: FrameState {
                device: old(device)@,
                resolver: old(resolver)@,
                outputs: old(output_targets)@,
            },
            cache: old(cache)@,
            pending: list_views(old(pending)@),
            stats: *old(stats),
            failed: old(failed)@,
        }).draw_documents(
            (RenderParams {
                shaders: *shaders,
                enable_clear_scissor,
                framebuffer_size,
                framebuffer_depth_is_ready,
                frame_id,
                locked_outputs: locked_outputs@,
            }),
            document_ids(old(docs)@),
            frame_views(old(docs)@),
            locked_images@,
            old(docs)@.len(),
        ),
        final(docs)@.len() == old(docs)@.len(),
        old(docs)@.len() > 0 ==> final(pending)@.len() == 0,
        forall|k: int|
            0 <= k < old(docs)@.len() ==> same_document(#[trigger] final(docs)@[k], old(docs)@[k])
                && frame_after_render(final(docs)@[k].1.frame@, old(docs)@[k].1.frame@),
        forall|k: int|
            0 <= k < old(docs)@.len() ==> passes_after_draw(
                (#[trigger] final(docs)@[k]).1.frame@.passes,
                old(docs)@[k].1.frame@.passes,
                (RenderState {
                    frame: FrameState {
                        device: old(device)@,
                        resolver: old(resolver)@,
                        outputs: old(output_targets)@,
                    },
                    cache: old(cache)@,
                    pending: list_views(old(pending)@),
                    stats: *old(stats),
                    failed: old(failed)@,
                }).begins_at(
                    (RenderParams {
                        shaders: *shaders,
                        enable_clear_scissor,
                        framebuffer_size,
                        framebuffer_depth_is_ready,
                        frame_id,
                        locked_outputs: locked_outputs@,
                    }),
                    document_ids(old(docs)@),
                    frame_views(old(docs)@),
                    locked_images@,
                    k,
                ),
            ),
        forall|k: int|
            0 <= k < old(docs)@.len() ==> (#[trigger] final(docs)@[k]).1.frame@.has_been_rendered == (
            old(docs)@[k].1.frame@.has_been_rendered || (RenderState {
                frame: FrameState {
                    device: old(device)@,
                    resolver: old(resolver)@,
                    outputs: old(output_targets)@,
                },
                cache: old(cache)@,
                pending: list_views(old(pending)@),
                stats: *old(stats),
                failed: old(failed)@,
            }).draws_completely_at(
                (RenderParams {
                    shaders: *shaders,
                    enable_clear_scissor,
                    framebuffer_size,
                    framebuffer_depth_is_ready,
                    frame_id,
                    locked_outputs: locked_outputs@,
                }),
                document_ids(old(docs)@),
                frame_views(old(docs)@),
                locked_images@,
                k,
            )),
        final(resolver)@.cache_a8_texture == old(resolver)@.cache_a8_texture,
        final(resolver)@.cache_rgba8_texture == old(resolver)@.cache_rgba8_texture,
        final(cache)@.mirror.rows.len() >= old(cache)@.mirror.rows.len(),
{
    let ghost params = RenderParams {
        shaders: *shaders,
        enable_clear_scissor,
        framebuffer_size,
        framebuffer_depth_is_ready,
        frame_id,
        locked_outputs: locked_outputs@,
    };
    let ghost start = RenderState {
        frame: FrameState { device: device@, resolver: resolver@, outputs: output_targets@ },
        cache: cache@,
        pending: list_views(pending@),
        stats: *stats,
        failed: failed@,
    };
    let ghost ids = document_ids(docs@);
    let ghost frames = frame_views(docs@);
    let mut k: usize = 0;
    while k < docs.len()
        invariant
            k <= docs@.len(),
            docs@.len() == old(docs)@.len(),
            ids == document_ids(old(docs)@),
            frames == frame_views(old(docs)@),
            cache.wf(),
            params == (RenderParams {
                shaders: *shaders,
                enable_clear_scissor,
                framebuffer_size,
                framebuffer_depth_is_ready,
                frame_id,
                locked_outputs: locked_outputs@,
            }),
            (RenderState {
                frame: FrameState {
                    device: device@,
                    resolver: resolver@,
                    outputs: output_targets@,
                },
                cache: cache@,
                pending: list_views(pending@),
                stats: *stats,
                failed: failed@,
            }) == start.draw_documents(params, ids, frames, locked_images@, k as nat),
            k > 0 ==> pending@.len() == 0,
            forall|q: int| k <= q < docs@.len() ==> #[trigger] docs@[q] == old(docs)@[q],
            forall|q: int|
                0 <= q < k ==> same_document(#[trigger] docs@[q], old(docs)@[q])
                    && frame_after_render(docs@[q].1.frame@, old(docs)@[q].1.frame@),
            forall|q: int|
                0 <= q < k ==> passes_after_draw(
                    (#[trigger] docs@[q]).1.frame@.passes,
                    old(docs)@[q].1.frame@.passes,
                    start.begins_at(params, ids, frames, locked_images@, q),
                ),
            forall|q: int|
                0 <= q < k ==> (#[trigger] docs@[q]).1.frame@.has_been_rendered == (
                old(docs)@[q].1.frame@.has_been_rendered || start.draws_completely_at(
                    params,
                    ids,
                    frames,
                    locked_images@,
                    q,
                )),
            start == (RenderState {
                frame: FrameState {
                    device: old(device)@,
                    resolver: old(resolver)@,
                    outputs: old(output_targets)@,
                },
                cache: old(cache)@,
                pending: list_views(old(pending)@),
                stats: *old(stats),
                failed: old(failed)@,
            }),
            resolver@.cache_a8_texture == old(resolver)@.cache_a8_texture,
            resolver@.cache_rgba8_texture == old(resolver)@.cache_rgba8_texture,
            cache@.mirror.rows.len() >= old(cache)@.mirror.rows.len(),
        decreases docs@.len() - k,
    {
        let ghost snapshot = docs@;
        assert(ids[k as int] == old(docs)@[k as int].0);
        assert(frames[k as int] == old(docs)@[k as int].1.frame@);
        draw_document(
            device,
            resolver,
            cache,
            output_targets,
            pending,
            stats,
            failed,
            shaders,
            enable_clear_scissor,
            &mut docs[k],
            framebuffer_size,
            framebuffer_depth_is_ready,
            frame_id,
            locked_outputs,
            locked_images,
        );
        assert(forall|q: int| k < q < docs@.len() ==> #[trigger] docs@[q] == snapshot[q]);
        assert(forall|q: int| 0 <= q < k ==> #[trigger] docs@[q] == snapshot[q]);
        k += 1;
    }
}


/// The profiles of the last frames after one more was recorded: nothing is
/// recorded when none are kept; otherwise the oldest make room so that at
/// most `max` are kept.
pub open spec fn recorded<T>(profiles: Seq<T>, max: usize, profile: T) -> Seq<T> {
    if max == 0 {
        profiles
    } else if profiles.len() >= max {
        profiles.subrange(profiles.len() - max + 1, profiles.len() as int).push(profile)
    } else {
        profiles.push(profile)
    }
}

/// Records the profile of a frame among the last `max`.
pub fn record_profile<T>(profiles: &mut VecDeque<T>, max: usize, profile: T)
    ensures
        final(profiles)@ == recorded(old(profiles)@, max, profile),
{
    if max > 0 {
        while profiles.len() >= max
            invariant
                max > 0,
                profiles@.len() <= old(profiles)@.len(),
                profiles@ == old(profiles)@.subrange(
                    old(profiles)@.len() - profiles@.len(),
                    old(profiles)@.len() as int,
                ),
                old(profiles)@.len() < max ==> profiles@.len() == old(profiles)@.len(),
                old(profiles)@.len() >= max ==> profiles@.len() >= max - 1,
            decreases profiles@.len(),
        {
            let ghost before = profiles@;
            profiles.pop_front();
            assert(profiles@ =~= old(profiles)@.subrange(
                old(profiles)@.len() - profiles@.len(),
                old(profiles)@.len() as int,
            ));
        }
        assert(old(profiles)@.len() < max ==> profiles@ =~= old(profiles)@);
        profiles.push_back(profile);
    }
}

/// Reports, after the errors that are waiting, one error for every
/// document of `failed`.
pub fn report_failed(errors: &mut Vec<RendererError>, failed: &Vec<DocumentId>)
    ensures
        reported(final(errors)@, old(errors)@, failed@),
{
    let mut i: usize = 0;
    while i < failed.len()
        invariant
            i <= failed@.len(),
            reported(errors@, old(errors)@, failed@.subrange(0, i as int)),
        decreases failed@.len() - i,
    {
        errors.push(RendererError::InvalidFrame(failed[i]));
        i += 1;
    }
    assert(failed@.subrange(0, failed@.len() as int) =~= failed@);
}

/// `after` is `before` followed by one error for every document of
/// `failed`, in order.
pub open spec fn reported(after: Seq<RendererError>, before: Seq<RendererError>, failed: Seq<DocumentId>) -> bool {
    &&& after.len() == before.len() + failed.len()
    &&& forall|k: int| 0 <= k < before.len() ==> after[k] == before[k]
    &&& forall|k: int|
        0 <= k < failed.len() ==> #[trigger] after[before.len() + k] == RendererError::InvalidFrame(
            failed[k],
        )
}

/// What a call of `render` leaves behind. See [`Renderer::render_impl`].
pub open spec fn render_outcome(
    before: RendererView,
    after: RendererView,
    framebuffer_size: Option<DeviceUintSize>,
    inputs: FrameInputs,
    result: Result<RendererStats, Vec<RendererError>>,
) -> bool {
    if before.active_documents.len() == 0 {
        &&& after == (RendererView { last_time: inputs.now, ..before })
        &&& result matches Ok(stats)
        &&& stats == (RendererStats {
            total_draw_calls: 0,
            alpha_target_count: 0,
            color_target_count: 0,
        })
    } else {
        let end = before.rendered(framebuffer_size, inputs.outputs@, inputs.external_images@);
        let sorted = before.sorted_documents();
        let drawn = before.frames_to_draw(framebuffer_size);
        &&& sorted.len() == before.active_documents.len()
        &&& after.device == end.frame.device.end_frame(before.device.frame_id)
        &&& after.resolver == (ResolverView {
            external_images: Seq::empty(),
            ..end.frame.resolver
        })
        &&& after.output_targets == end.frame.outputs
        &&& after.gpu_cache == end.cache
        &&& after.gpu_cache.mirror.rows.len() >= before.gpu_cache.mirror.rows.len()
        &&& after.pending_gpu_cache_updates.len() == 0
        &&& after.pending_texture_updates.len() == 0
        &&& after.images_to_unlock.len() == end.frame.resolver.external_images.len()
        &&& forall|i: int|
            0 <= i < after.images_to_unlock.len() ==> #[trigger] after.images_to_unlock[i] == (
                end.frame.resolver.external_images[i].id,
                end.frame.resolver.external_images[i].channel_index,
            )
        &&& after.active_documents.len() == before.active_documents.len()
        &&& forall|k: int|
            0 <= k < sorted.len() ==> same_document(#[trigger] after.active_documents[k], sorted[k])
                && frame_after_render(after.active_documents[k].1.frame@, drawn[k])
        &&& forall|k: int|
            0 <= k < sorted.len() ==> passes_after_draw(
                (#[trigger] after.active_documents[k]).1.frame@.passes,
                drawn[k].passes,
                before.ready_to_draw(framebuffer_size).begins_at(
                    before.render_params(framebuffer_size, inputs.outputs@),
                    document_ids(sorted),
                    drawn,
                    inputs.external_images@,
                    k,
                ),
            )
        &&& forall|k: int|
            0 <= k < sorted.len() ==> (#[trigger] after.active_documents[k]).1.frame@.has_been_rendered
                == (drawn[k].has_been_rendered || before.ready_to_draw(
                framebuffer_size,
            ).draws_completely_at(
                before.render_params(framebuffer_size, inputs.outputs@),
                document_ids(sorted),
                drawn,
                inputs.external_images@,
                k,
            ))
        &&& after.gpu_profiles == recorded(
            before.gpu_profiles,
            before.max_recorded_profiles,
            GpuProfile { frame_id: FrameId(0), paint_time_ns: 0 },
        )
        &&& after.cpu_profiles == recorded(
            before.cpu_profiles,
            before.max_recorded_profiles,
            CpuProfile {
                frame_id: before.device.frame_id,
                backend_time_ns: before.backend_profile_counters.total_time_ns,
                composite_time_ns: inputs.composite_time_ns,
                draw_calls: end.stats.total_draw_calls,
            },
        )
        &&& after.backend_profile_counters == (BackendProfileCounters {
            total_time_ns: 0,
            gpu_cache_updated_rows: 0,
            gpu_cache_updated_blocks: 0,
        })
        &&& after.last_time == inputs.now
        &&& after.shaders == before.shaders
        &&& after.max_texture_size == before.max_texture_size
        &&& after.max_recorded_profiles == before.max_recorded_profiles
        &&& after.clear_color == before.clear_color
        &&& after.enable_clear_scissor == before.enable_clear_scissor
        &&& after.debug_flags == before.debug_flags
        &&& after.pipeline_epoch_map == before.pipeline_epoch_map
        &&& after.pending_shader_updates == before.pending_shader_updates
        &&& match result {
            Ok(stats) => {
                &&& stats == end.stats
                &&& end.failed.len() == 0
                &&& before.errors_waiting().len() == 0
                &&& after.renderer_errors.len() == 0
            },
            Err(errors) => {
                &&& errors@.len() > 0
                &&& reported(errors@, before.errors_waiting(), end.failed)
                &&& after.renderer_errors.len() == 0
            },
        }
    }
}

impl RendererView {
    /// The device after a frame was begun: scissor, depth test and blending
    /// are off.
    pub open spec fn begun(self) -> DeviceView {
        self.device.emit(DeviceCommand::BeginFrame).emit(DeviceCommand::DisableScissor).emit(
            DeviceCommand::DisableDepth,
        ).emit(DeviceCommand::SetBlend(false))
    }

    /// The device and the texture cache after the texture cache updates
    /// that were waiting.
    pub open spec fn textures_updated(self) -> crate::resources::TextureCacheState {
        (crate::resources::TextureCacheState {
            device: self.begun(),
            textures: self.resolver.cache_texture_map,
        }).apply_all(self.pending_texture_updates, self.pending_texture_updates.len())
    }

    /// The errors that wait when the documents are drawn: those that were
    /// waiting before, and one for every texture cache update that was
    /// refused.
    pub open spec fn errors_waiting(self) -> Seq<RendererError> {
        self.renderer_errors + crate::renderer::refused_errors(
            (crate::resources::TextureCacheState {
                device: self.begun(),
                textures: self.resolver.cache_texture_map,
            }).refused(self.pending_texture_updates, self.pending_texture_updates.len()),
        )
    }

    /// The active documents in the order in which they are drawn.
    pub open spec fn sorted_documents(self) -> Seq<ActiveDocument> {
        crate::documents::sorted_by_layer(self.active_documents, self.active_documents.len())
    }

    /// The device and the pool before the search for perfect matches.
    pub open spec fn cleared(self, framebuffer_size: Option<DeviceUintSize>) -> PoolState {
        PoolState {
            device: clear_window(
                self.textures_updated().device,
                frame_views(self.sorted_documents()),
                framebuffer_size,
                self.clear_color,
                crate::documents::documents_intersect(self.active_documents),
            ),
            pool: self.resolver.render_target_pool,
        }
    }

    /// The frames as they are drawn: in the order of their layers, with the
    /// textures that the search for perfect matches found.
    #[verifier::opaque]
    pub open spec fn frames_to_draw(self, framebuffer_size: Option<DeviceUintSize>) -> Seq<FrameView> {
        self.cleared(framebuffer_size).prepared_frames(frame_views(self.sorted_documents()))
    }

    /// What drawing the documents reads.
    pub open spec fn render_params(self, framebuffer_size: Option<DeviceUintSize>, locked_outputs: Seq<LockedOutput>) -> RenderParams {
        RenderParams {
            shaders: self.shaders,
            enable_clear_scissor: self.enable_clear_scissor,
            framebuffer_size,
            framebuffer_depth_is_ready: !crate::documents::documents_intersect(
                self.active_documents,
            ),
            frame_id: self.device.frame_id,
            locked_outputs,
        }
    }

    /// The state in which the first document is drawn.
    #[verifier::opaque]
    pub open spec fn ready_to_draw(self, framebuffer_size: Option<DeviceUintSize>) -> RenderState {
        let prepared = self.cleared(framebuffer_size).prepare_tile_frames(
            frame_views(self.sorted_documents()),
            self.active_documents.len(),
        );
        RenderState {
            frame: FrameState {
                device: prepared.device,
                resolver: ResolverView {
                    cache_texture_map: self.textures_updated().textures,
                    render_target_pool: prepared.pool,
                    ..self.resolver
                },
                outputs: self.output_targets,
            },
            cache: self.gpu_cache,
            pending: self.pending_gpu_cache_updates,
            stats: RendererStats {
                total_draw_calls: 0,
                alpha_target_count: 0,
                color_target_count: 0,
            },
            failed: Seq::empty(),
        }
    }

    /// The state after the active documents were drawn.
    #[verifier::opaque]
    pub open spec fn rendered(
        &self,
        framebuffer_size: Option<DeviceUintSize>,
        locked_outputs: Seq<LockedOutput>,
        locked_images: Seq<LockedExternalImage>,
    ) -> RenderState {
        self.ready_to_draw(framebuffer_size).draw_documents(
            self.render_params(framebuffer_size, locked_outputs),
            document_ids(self.sorted_documents()),
            self.frames_to_draw(framebuffer_size),
            locked_images,
            self.active_documents.len(),
        )
    }

    /// The state from which the documents are drawn, as the renderer holds
    /// it.
    pub open spec fn render_state(self, stats: RendererStats, failed: Seq<DocumentId>) -> RenderState {
        RenderState {
            frame: FrameState {
                device: self.device,
                resolver: self.resolver,
                outputs: self.output_targets,
            },
            cache: self.gpu_cache,
            pending: self.pending_gpu_cache_updates,
            stats,
            failed,
        }
    }
}

/// `time::precise_time_ns`: the count of a clock in nanoseconds, from a
/// moment that is not said. Nothing is claimed of the count.
#[verifier::external_body]
fn precise_time_ns() -> (now: u64) {
    time::precise_time_ns()
}

impl Renderer {
    /// Begins a frame and makes everything ready for the documents to be
    /// drawn: see [`Renderer::render_impl`]. Returns the number of the
    /// frame, and whether documents overlap on the window.
    pub fn begin_render(&mut self, framebuffer_size: Option<DeviceUintSize>) -> (r: (FrameId, bool))
        requires
            old(self).wf(),
        ensures
            final(self).wf(),
            r.0 == old(self).device@.frame_id,
            r.1 == crate::documents::documents_intersect(old(self).active_documents@),
            old(self)@.sorted_documents().len() == old(self).active_documents@.len(),
            final(self)@.render_state(
                RendererStats { total_draw_calls: 0, alpha_target_count: 0, color_target_count: 0 },
                Seq::empty(),
            ) == old(self)@.ready_to_draw(framebuffer_size),
            frame_views(final(self).active_documents@) == old(self)@.frames_to_draw(framebuffer_size),
            document_ids(final(self).active_documents@) == document_ids(old(self)@.sorted_documents()),
            final(self).active_documents@.len() == old(self).active_documents@.len(),
            forall|k: int|
                0 <= k < old(self).active_documents@.len() ==> same_document(
                    #[trigger] final(self).active_documents@[k],
                    old(self)@.sorted_documents()[k],
                ),
            final(self).pending_texture_updates@.len() == 0,
            final(self).gpu_profiles@ == recorded(
                old(self).gpu_profiles@,
                old(self).max_recorded_profiles,
                GpuProfile { frame_id: FrameId(0), paint_time_ns: 0 },
            ),
            final(self).renderer_errors@ == old(self)@.errors_waiting(),
            final(self)@ == (RendererView {
                device: final(self)@.device,
                resolver: final(self)@.resolver,
                pending_texture_updates: final(self)@.pending_texture_updates,
                active_documents: final(self)@.active_documents,
                gpu_profiles: final(self)@.gpu_profiles,
                renderer_errors: final(self)@.renderer_errors,
                ..old(self)@
            }),
    {
        proof {
            reveal(RendererView::ready_to_draw);
            reveal(RendererView::frames_to_draw);
            reveal_with_fuel(crate::renderer::total_time, 1);
        }
        let ghost before = *self;
        let no_timers: Vec<GpuTimer> = Vec::new();
        record_profile(
            &mut self.gpu_profiles,
            self.max_recorded_profiles,
            GpuProfile::new(FrameId::new(0), &no_timers),
        );
        let frame_id = self.device.begin_frame();
        self.device.emit(DeviceCommand::DisableScissor);
        self.device.emit(DeviceCommand::DisableDepth);
        self.device.emit(DeviceCommand::SetBlend(false));
        let refused = crate::resources::update_texture_cache(
            &mut self.device,
            &mut self.texture_resolver.cache_texture_map,
            &mut self.pending_texture_updates,
        );
        crate::renderer::report_refused(&mut self.renderer_errors, &refused);
        let intersecting = crate::documents::are_documents_intersecting_depth(
            &self.active_documents,
        );
        crate::documents::sort_by_layer(&mut self.active_documents);
        proof {
            crate::documents::lemma_sorted_by_layer(
                before.active_documents@,
                before.active_documents@.len(),
            );
        }
        clear_window_for(
            &mut self.device,
            &self.active_documents,
            framebuffer_size,
            self.clear_color,
            intersecting,
        );
        prepare_tile_frames(&mut self.texture_resolver, &mut self.device, &mut self.active_documents);
        assert(document_ids(self.active_documents@) =~= document_ids(before@.sorted_documents()));
        (frame_id, intersecting)
    }

    /// Draws the active documents to the window of `framebuffer_size`, at
    /// the time that the clock shows: the time is read into `inputs`, and
    /// what happens then is what [`Renderer::render_impl`] does with it.
    pub fn render(&mut self, framebuffer_size: DeviceUintSize, inputs: &mut FrameInputs) -> (result: Result<
        RendererStats,
        Vec<RendererError>,
    >)
        requires
            old(self).wf(),
            old(self).device@.frame_id.0 < usize::MAX,
        ensures
            final(self).wf(),
            final(inputs).composite_time_ns == old(inputs).composite_time_ns,
            final(inputs).external_images == old(inputs).external_images,
            final(inputs).outputs == old(inputs).outputs,
            render_outcome(old(self)@, final(self)@, Some(framebuffer_size), *final(inputs), result),
    {
        inputs.now = precise_time_ns();
        self.render_impl(Some(framebuffer_size), &*inputs)
    }

    /// Draws the active documents; without a window, only their off-screen
    /// passes.
    ///
    /// Without active documents only the time is noted. Otherwise a frame
    /// is begun on the device; the texture cache updates that are waiting
    /// are applied; the window is cleared; the documents are brought into
    /// the order of their layers; the pool is searched for perfect matches
    /// for the target lists of all of them; then each, in order, has its
    /// deferred images resolved, the GPU cache brought up to date and its
    /// frame drawn, unless a deferred image cannot be resolved or a list
    /// for the GPU cache cannot be applied: such a frame is not drawn. Then
    /// the external images are handed back, the profiles of the frame are
    /// recorded and the frame is ended. The result is the
    /// counts of what was drawn, or what went wrong: the errors that were
    /// waiting, then one for every texture cache update that was refused,
    /// then one for every document whose frame could not be drawn
    /// completely.
    pub fn render_impl(&mut self, framebuffer_size: Option<DeviceUintSize>, inputs: &FrameInputs) -> (result: Result<
        RendererStats,
        Vec<RendererError>,
    >)
        requires
            old(self).wf(),
            old(self).device@.frame_id.0 < usize::MAX,
        ensures
            final(self).wf(),
            render_outcome(old(self)@, final(self)@, framebuffer_size, *inputs, result),
    {
        if self.active_documents.len() == 0 {
            self.last_time = inputs.now;
            return Ok(RendererStats::empty());
        }
        let ghost before = *self;
        let mut stats = RendererStats::empty();
        let (frame_id, intersecting) = self.begin_render(framebuffer_size);
        proof {
            reveal(RendererView::rendered);
        }
        let ghost begun_docs = self.active_documents@;
        let mut failed: Vec<DocumentId> = Vec::new();
        draw_documents(
            &mut self.device,
            &mut self.texture_resolver,
            &mut self.gpu_cache_texture,
            &mut self.output_targets,
            &mut self.pending_gpu_cache_updates,
            &mut stats,
            &mut failed,
            &self.shaders,
            self.enable_clear_scissor,
            &mut self.active_documents,
            framebuffer_size,
            !intersecting,
            frame_id,
            &inputs.outputs,
            &inputs.external_images,
        );
        self.images_to_unlock = crate::resources::unlock_external_images(&mut self.texture_resolver);
        record_profile(
            &mut self.cpu_profiles,
            self.max_recorded_profiles,
            CpuProfile::new(
                frame_id,
                self.backend_profile_counters.total_time_ns,
                inputs.composite_time_ns,
                stats.total_draw_calls,
            ),
        );
        self.backend_profile_counters = BackendProfileCounters {
            total_time_ns: 0,
            gpu_cache_updated_rows: 0,
            gpu_cache_updated_blocks: 0,
        };
        self.device.end_frame(frame_id);
        self.last_time = inputs.now;
        report_failed(&mut self.renderer_errors, &failed);
        if self.renderer_errors.len() == 0 {
            Ok(stats)
        } else {
            let mut errors: Vec<RendererError> = Vec::new();
            std::mem::swap(&mut self.renderer_errors, &mut errors);
            Err(errors)
        }
    }
}

} // verus!
