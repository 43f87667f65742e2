//! What the renderer does with the messages of the backend thread.

use vstd::prelude::*;
use crate::api::{DebugCommand, DocumentId, Epoch, PipelineId};
use crate::documents::{find_document, position_of, ActiveDocument};
use crate::internal_types::{BackendProfileCounters, DebugOutput, RenderedDocument, ResultMsg, TextureUpdate};
use crate::renderer::{refused_errors, report_refused, DebugFlags, Renderer, RendererView, ALPHA_PRIM_DBG, GPU_SAMPLE_QUERIES, GPU_TIME_QUERIES, PROFILER_DBG, RENDER_TARGET_DBG, TEXTURE_CACHE_DBG};
use crate::resources::{update_texture_cache, TextureCacheState};
use crate::texture_resolver::ResolverView;
use crate::tiling::Frame;

verus! {

/// The position of the first entry for `id` at or after `start`, or the
/// number of entries when there is none.
pub open spec fn find_epoch(map: Seq<(PipelineId, Epoch)>, id: PipelineId, start: int) -> int
    decreases map.len() - start,
{
    if start >= map.len() {
        map.len() as int
    } else if map[start].0 == id {
        start
    } else {
        find_epoch(map, id, start + 1)
    }
}

/// The epoch that is recorded for pipeline `id`, if one is.
pub open spec fn epoch_of(map: Seq<(PipelineId, Epoch)>, id: PipelineId) -> Option<Epoch> {
    let pos = find_epoch(map, id, 0);
    if pos < map.len() {
        Some(map[pos].1)
    } else {
        None
    }
}

/// The map after `epoch` was recorded for pipeline `id`: it takes the place
/// of the epoch recorded before, or joins at the end.
pub open spec fn with_epoch(map: Seq<(PipelineId, Epoch)>, id: PipelineId, epoch: Epoch) -> Seq<(PipelineId, Epoch)> {
    let pos = find_epoch(map, id, 0);
    if pos < map.len() {
        map.update(pos, (id, epoch))
    } else {
        map.push((id, epoch))
    }
}

/// The map after the first `n` of `entries` were recorded, in order.
pub open spec fn with_epochs(map: Seq<(PipelineId, Epoch)>, entries: Seq<(PipelineId, Epoch)>, n: nat) -> Seq<(PipelineId, Epoch)>
    decreases n,
{
    if n == 0 {
        map
    } else {
        with_epoch(with_epochs(map, entries, (n - 1) as nat), entries[n - 1].0, entries[n - 1].1)
    }
}

/// No pipeline has two entries.
pub open spec fn epochs_unique(map: Seq<(PipelineId, Epoch)>) -> bool {
    forall|i: int, j: int|
        0 <= i < map.len() && 0 <= j < map.len() && (#[trigger] map[i]).0 == (#[trigger] map[j]).0
            ==> i == j
}

/// The first entry for a pipeline at or after `start` lies between `start`
/// and the number of entries; if it is an entry, it is for the pipeline;
/// and no entry between `start` and it is.
pub proof fn lemma_find_epoch(map: Seq<(PipelineId, Epoch)>, id: PipelineId, start: int)
    requires
        0 <= start <= map.len(),
    ensures
        start <= find_epoch(map, id, start) <= map.len(),
        find_epoch(map, id, start) < map.len() ==> map[find_epoch(map, id, start)].0 == id,
        forall|k: int| start <= k < find_epoch(map, id, start) ==> (#[trigger] map[k]).0 != id,
    decreases map.len() - start,
{
    if start < map.len() && map[start].0 != id {
        lemma_find_epoch(map, id, start + 1);
    }
}

/// The epochs are a map from pipeline to epoch: recording an epoch keeps
/// every pipeline at one entry, makes the epoch the one recorded for its
/// pipeline, and leaves the epoch of every other pipeline as it was.
pub proof fn lemma_with_epoch(map: Seq<(PipelineId, Epoch)>, id: PipelineId, epoch: Epoch, other: PipelineId)
    requires
        epochs_unique(map),
    ensures
        epochs_unique(with_epoch(map, id, epoch)),
        epoch_of(with_epoch(map, id, epoch), id) == Some(epoch),
        other != id ==> epoch_of(with_epoch(map, id, epoch), other) == epoch_of(map, other),
{
    let after = with_epoch(map, id, epoch);
    let pos = find_epoch(map, id, 0);
    lemma_find_epoch(map, id, 0);
    lemma_find_epoch(after, id, 0);
    lemma_find_epoch(map, other, 0);
    lemma_find_epoch(after, other, 0);
    assert(after[pos] == (id, epoch));
    assert forall|i: int, j: int|
        0 <= i < after.len() && 0 <= j < after.len() && (#[trigger] after[i]).0 == (
        #[trigger] after[j]).0 implies i == j by {
        if pos < map.len() {
            assert(after[i].0 == map[i].0);
            assert(after[j].0 == map[j].0);
        } else {
            if i < map.len() {
                assert(after[i] == map[i]);
            }
            if j < map.len() {
                assert(after[j] == map[j]);
            }
        }
    }
    let found = find_epoch(after, id, 0);
    assert(after[found].0 == id);
    assert(found == pos);
    if other != id {
        let before_at = find_epoch(map, other, 0);
        let after_at = find_epoch(after, other, 0);
        if before_at < map.len() {
            assert(after[before_at] == map[before_at]);
            assert(after[after_at].0 == other);
            assert(after_at == before_at);
        } else {
            if after_at < after.len() {
                assert(after[after_at].0 == other);
                if after_at < map.len() {
                    assert(after[after_at].0 == map[after_at].0);
                }
            }
        }
    }
}

/// Records `epoch` for pipeline `id`.
pub fn insert_epoch(map: &mut Vec<(PipelineId, Epoch)>, id: PipelineId, epoch: Epoch)
    ensures
        final(map)@ == with_epoch(old(map)@, id, epoch),
{
    let mut i: usize = 0;
    while i < map.len()
        invariant
            i <= map@.len(),
            *map == *old(map),
            find_epoch(map@, id, 0) == find_epoch(map@, id, i as int),
        decreases map@.len() - i,
    {
        if map[i].0 == id {
            map[i] = (id, epoch);
            return ;
        }
        i += 1;
    }
    map.push((id, epoch));
}

/// The document as the renderer keeps it: the changes to the GPU cache
/// that came with its frame were taken out.
pub open spec fn kept_document(doc: RenderedDocument) -> RenderedDocument {
    RenderedDocument { frame: Frame { gpu_cache_updates: None, ..doc.frame }, ..doc }
}

impl RendererView {
    /// The renderer after it took note of a published document: the
    /// texture cache updates and the GPU cache updates that came with it
    /// are waiting, the counters of the backend are the new ones, and the
    /// epochs of its pipelines are recorded.
    pub open spec fn noted(
        self,
        doc: RenderedDocument,
        updates: Seq<TextureUpdate>,
        counters: BackendProfileCounters,
    ) -> RendererView {
        RendererView {
            pending_texture_updates: self.pending_texture_updates + updates,
            pending_gpu_cache_updates: match doc.frame.gpu_cache_updates {
                Some(list) => self.pending_gpu_cache_updates.push(list@),
                None => self.pending_gpu_cache_updates,
            },
            backend_profile_counters: counters,
            pipeline_epoch_map: with_epochs(
                self.pipeline_epoch_map,
                doc.pipeline_epoch_map@,
                doc.pipeline_epoch_map@.len(),
            ),
            ..self
        }
    }

    /// The renderer after `doc` became the document named `id`: it takes
    /// the place of the document of that name, or joins the documents.
    pub open spec fn with_document(self, id: DocumentId, doc: RenderedDocument) -> RendererView {
        let pos = find_document(self.active_documents, id, 0);
        RendererView {
            active_documents: if pos < self.active_documents.len() {
                self.active_documents.update(pos, (id, doc))
            } else {
                self.active_documents.push((id, doc))
            },
            ..self
        }
    }

    /// The renderer after the texture cache updates that are waiting were
    /// applied: each changed the texture cache, or was refused and left an
    /// error for the next frame to report.
    pub open spec fn texture_cache_updated(self) -> RendererView {
        let start = TextureCacheState {
            device: self.device,
            textures: self.resolver.cache_texture_map,
        };
        let updated = start.apply_all(
            self.pending_texture_updates,
            self.pending_texture_updates.len(),
        );
        RendererView {
            device: updated.device,
            resolver: ResolverView { cache_texture_map: updated.textures, ..self.resolver },
            pending_texture_updates: Seq::empty(),
            renderer_errors: self.renderer_errors + refused_errors(
                start.refused(self.pending_texture_updates, self.pending_texture_updates.len()),
            ),
            ..self
        }
    }

    /// The renderer after the switches `flag` were turned on or off.
    pub open spec fn with_debug_flag(self, flag: u32, enabled: bool) -> RendererView {
        RendererView {
            debug_flags: DebugFlags {
                bits: if enabled {
                    self.debug_flags.bits | flag
                } else {
                    self.debug_flags.bits & !flag
                },
            },
            ..self
        }
    }

    /// The renderer after a request of the debugger. The switches follow
    /// the request; what is fetched is reported to the debugger, which
    /// changes nothing in the renderer.
    pub open spec fn after_debug_command(self, command: DebugCommand) -> RendererView {
        match command {
            DebugCommand::EnableProfiler(enable) => self.with_debug_flag(PROFILER_DBG, enable),
            DebugCommand::EnableTextureCacheDebug(enable) => self.with_debug_flag(
                TEXTURE_CACHE_DBG,
                enable,
            ),
            DebugCommand::EnableRenderTargetDebug(enable) => self.with_debug_flag(
                RENDER_TARGET_DBG,
                enable,
            ),
            DebugCommand::EnableAlphaRectsDebug(enable) => self.with_debug_flag(
                ALPHA_PRIM_DBG,
                enable,
            ),
            DebugCommand::EnableGpuTimeQueries(enable) => self.with_debug_flag(
                GPU_TIME_QUERIES,
                enable,
            ),
            DebugCommand::EnableGpuSampleQueries(enable) => self.with_debug_flag(
                GPU_SAMPLE_QUERIES,
                enable,
            ),
            _ => self,
        }
    }
}

/// The request is one that the renderer answers: captures are taken
/// elsewhere, and the blending of text is the backend's business.
pub open spec fn command_accepted(command: DebugCommand) -> bool {
    !(command is SaveCapture) && !(command is LoadCapture) && !(command
        is EnableDualSourceBlending)
}

/// The message is one that the renderer answers.
pub open spec fn message_accepted(msg: ResultMsg) -> bool {
    msg matches ResultMsg::DebugCommand(command) ==> command_accepted(command)
}

/// What a message leaves behind.
///
/// A published document is taken note of, and takes the place of the
/// document of its name, or joins the active documents: at most one frame
/// per document waits, and it is the latest. The frame that it replaces is
/// dropped as it is; nothing is drawn.
///
/// Updated resources join the texture cache updates that are waiting, and
/// all of those are applied; if rendering is cancelled, no document stays
/// active. The path of a shader that changed joins those to refresh.
/// Output for the debugger is reported to it. A request of the debugger is
/// answered.
pub open spec fn update_outcome(before: RendererView, after: RendererView, msg: ResultMsg) -> bool {
    match msg {
        ResultMsg::PublishDocument(id, doc, list, counters) => after == before.noted(
            doc,
            list.updates@,
            counters,
        ).with_document(id, kept_document(doc)),
        ResultMsg::UpdateResources { updates, cancel_rendering } => {
            let applied = (RendererView {
                pending_texture_updates: before.pending_texture_updates + updates.updates@,
                ..before
            }).texture_cache_updated();
            after == if cancel_rendering {
                RendererView { active_documents: Seq::empty(), ..applied }
            } else {
                applied
            }
        },
        ResultMsg::RefreshShader(path) => after == (RendererView {
            pending_shader_updates: before.pending_shader_updates.push(path),
            ..before
        }),
        ResultMsg::DebugOutput(_) => after == before,
        ResultMsg::DebugCommand(command) => after == before.after_debug_command(command),
    }
}

impl Renderer {
    /// Turns the switches `flag` on or off.
    pub fn set_debug_flag(&mut self, flag: DebugFlags, enabled: bool)
        ensures
            final(self).wf() == old(self).wf(),
            final(self)@ == old(self)@.with_debug_flag(flag.bits, enabled),
    {
        let mut new_flags = self.debug_flags;
        new_flags.set(flag, enabled);
        self.set_debug_flags(new_flags);
    }

    /// Sets all switches at once.
    pub fn set_debug_flags(&mut self, flags: DebugFlags)
        ensures
            final(self).wf() == old(self).wf(),
            final(self)@ == (RendererView { debug_flags: flags, ..old(self)@ }),
    {
        self.debug_flags = flags;
    }

    /// Flips the switches `toggle`.
    pub fn toggle_debug_flags(&mut self, toggle: DebugFlags)
        ensures
            final(self).wf() == old(self).wf(),
            final(self)@ == (RendererView {
                debug_flags: DebugFlags { bits: old(self).debug_flags.bits ^ toggle.bits },
                ..old(self)@
            }),
    {
        let mut new_flags = self.debug_flags;
        new_flags.toggle(toggle);
        self.set_debug_flags(new_flags);
    }

    pub fn get_debug_flags(&self) -> (flags: DebugFlags)
        ensures
            flags == self.debug_flags,
    {
        self.debug_flags
    }

    /// Answers a request of the debugger.
    pub fn handle_debug_command(&mut self, command: DebugCommand)
        requires
            command_accepted(command),
        ensures
            final(self).wf() == old(self).wf(),
            final(self)@ == old(self)@.after_debug_command(command),
    {
        match command {
            DebugCommand::EnableProfiler(enable) => {
                self.set_debug_flag(DebugFlags { bits: PROFILER_DBG }, enable);
            },
            DebugCommand::EnableTextureCacheDebug(enable) => {
                self.set_debug_flag(DebugFlags { bits: TEXTURE_CACHE_DBG }, enable);
            },
            DebugCommand::EnableRenderTargetDebug(enable) => {
                self.set_debug_flag(DebugFlags { bits: RENDER_TARGET_DBG }, enable);
            },
            DebugCommand::EnableAlphaRectsDebug(enable) => {
                self.set_debug_flag(DebugFlags { bits: ALPHA_PRIM_DBG }, enable);
            },
            DebugCommand::EnableGpuTimeQueries(enable) => {
                self.set_debug_flag(DebugFlags { bits: GPU_TIME_QUERIES }, enable);
            },
            DebugCommand::EnableGpuSampleQueries(enable) => {
                self.set_debug_flag(DebugFlags { bits: GPU_SAMPLE_QUERIES }, enable);
            },
            DebugCommand::FetchDocuments => {},
            DebugCommand::FetchClipScrollTree => {},
            DebugCommand::FetchRenderTasks => {
                self.debug_server.send(String::new());
            },
            DebugCommand::FetchPasses => {
                self.debug_server.send(String::new());
            },
            DebugCommand::FetchScreenshot => {
                self.debug_server.send(String::new());
            },
            _ => {},
        }
    }

    /// Takes note of a published document; see [`RendererView::noted`].
    /// Returns the document as the renderer keeps it.
    fn note_document(
        &mut self,
        doc: RenderedDocument,
        updates: Vec<TextureUpdate>,
        counters: BackendProfileCounters,
    ) -> (kept: RenderedDocument)
        ensures
            final(self).wf() == old(self).wf(),
            final(self)@ == old(self)@.noted(doc, updates@, counters),
            kept == kept_document(doc),
    {
        let ghost noted = self@.noted(doc, updates@, counters);
        let mut kept = doc;
        let mut taken = updates;
        self.pending_texture_updates.append(&mut taken);
        let ghost lists = crate::gpu_cache::list_views(self.pending_gpu_cache_updates@);
        match kept.frame.gpu_cache_updates.take() {
            Some(list) => {
                self.pending_gpu_cache_updates.push(list);
                assert(crate::gpu_cache::list_views(self.pending_gpu_cache_updates@) =~= lists.push(
                    list@,
                ));
            },
            None => {},
        }
        self.backend_profile_counters = counters;
        let mut i: usize = 0;
        while i < kept.pipeline_epoch_map.len()
            invariant
                i <= kept.pipeline_epoch_map@.len(),
                kept.pipeline_epoch_map == doc.pipeline_epoch_map,
                self.pipeline_epoch_map@ == with_epochs(
                    old(self).pipeline_epoch_map@,
                    doc.pipeline_epoch_map@,
                    i as nat,
                ),
                self.wf() == old(self).wf(),
                self@ == (RendererView { pipeline_epoch_map: self@.pipeline_epoch_map, ..noted }),
            decreases kept.pipeline_epoch_map@.len() - i,
        {
            let entry = kept.pipeline_epoch_map[i];
            insert_epoch(&mut self.pipeline_epoch_map, entry.0, entry.1);
            i += 1;
        }
        kept
    }

    /// Makes `doc` the document named `id`.
    fn put_document(&mut self, id: DocumentId, doc: RenderedDocument)
        ensures
            final(self).wf() == old(self).wf(),
            final(self)@ == old(self)@.with_document(id, doc),
    {
        match position_of(&self.active_documents, id) {
            Some(pos) => {
                self.active_documents[pos] = (id, doc);
            },
            None => {
                self.active_documents.push((id, doc));
            },
        }
    }

    /// Applies the texture cache updates that are waiting.
    pub fn update_texture_cache(&mut self)
        ensures
            final(self).wf() == old(self).wf(),
            final(self)@ == old(self)@.texture_cache_updated(),
    {
        let refused = update_texture_cache(
            &mut self.device,
            &mut self.texture_resolver.cache_texture_map,
            &mut self.pending_texture_updates,
        );
        report_refused(&mut self.renderer_errors, &refused);
        assert(self@.pending_texture_updates =~= Seq::<TextureUpdate>::empty());
    }

    /// Takes one message of the backend thread; see [`update_outcome`].
    pub fn update(&mut self, msg: ResultMsg)
        requires
            message_accepted(msg),
        ensures
            final(self).wf() == old(self).wf(),
            update_outcome(old(self)@, final(self)@, msg),
    {
        match msg {
            ResultMsg::PublishDocument(document_id, doc, texture_update_list, profile_counters) => {
                let kept = self.note_document(doc, texture_update_list.updates, profile_counters);
                self.put_document(document_id, kept);
            },
            ResultMsg::UpdateResources { updates, cancel_rendering } => {
                let mut updates = updates;
                self.pending_texture_updates.append(&mut updates.updates);
                self.update_texture_cache();
                if cancel_rendering {
                    self.active_documents.clear();
                    assert(self@.active_documents =~= Seq::<ActiveDocument>::empty());
                }
            },
            ResultMsg::RefreshShader(path) => {
                self.pending_shader_updates.push(path);
            },
            ResultMsg::DebugOutput(output) => match output {
                DebugOutput::FetchDocuments(string) => {
                    self.debug_server.send(string);
                },
                DebugOutput::FetchClipScrollTree(string) => {
                    self.debug_server.send(string);
                },
            },
            ResultMsg::DebugCommand(command) => {
                self.handle_debug_command(command);
            },
        }
    }
}


/// Making `doc` the document named `id` changes one place: the first
/// document of that name now holds `doc`, or `doc` joined at the end if
/// there was none; every other document is as it was; and names that were
/// different stay different.
pub proof fn lemma_with_document(view: RendererView, id: DocumentId, doc: RenderedDocument)
    ensures
        ({
            let before = view.active_documents;
            let after = view.with_document(id, doc).active_documents;
            let pos = find_document(before, id, 0);
            &&& 0 <= pos <= before.len()
            &&& find_document(after, id, 0) == pos
            &&& pos < after.len()
            &&& after[pos] == (id, doc)
            &&& after.len() == if pos < before.len() {
                before.len()
            } else {
                before.len() + 1
            }
            &&& forall|j: int| 0 <= j < before.len() && j != pos ==> #[trigger] after[j] == before[j]
            &&& pos == before.len() ==> forall|j: int|
                0 <= j < before.len() ==> (#[trigger] before[j]).0 != id
            &&& crate::documents::ids_unique(before) ==> crate::documents::ids_unique(after)
        }),
{
    let docs = view.active_documents;
    let after = view.with_document(id, doc).active_documents;
    let at = find_document(docs, id, 0);
    crate::documents::lemma_find_document(docs, id, 0);
    crate::documents::lemma_find_document(after, id, 0);
    assert(after[at].0 == id);
    assert forall|j: int| 0 <= j < at implies (#[trigger] after[j]).0 != id by {
        assert(after[j] == docs[j]);
    }
    let found = find_document(after, id, 0);
    if found < at {
        assert(after[found].0 == id);
    }
    if crate::documents::ids_unique(docs) {
        assert forall|i: int, j: int|
            0 <= i < after.len() && 0 <= j < after.len() && (#[trigger] after[i]).0 == (
            #[trigger] after[j]).0 implies i == j by {
            if at < docs.len() {
                assert(after[i].0 == docs[i].0);
                assert(after[j].0 == docs[j].0);
            } else {
                if i < docs.len() {
                    assert(after[i] == docs[i]);
                }
                if j < docs.len() {
                    assert(after[j] == docs[j]);
                }
            }
        }
    }
}

/// Latest wins: publishing a document draws nothing, and afterwards the
/// first active document of its name holds the frame that was published,
/// whatever frame of that name was waiting before. Every other document is
/// as it was, there is one document more only if the name is new, and names
/// that were different stay different.
pub proof fn lemma_latest_wins(
    before: RendererView,
    after: RendererView,
    id: DocumentId,
    doc: RenderedDocument,
    list: crate::internal_types::TextureUpdateList,
    counters: BackendProfileCounters,
)
    requires
        update_outcome(before, after, ResultMsg::PublishDocument(id, doc, list, counters)),
    ensures
        after.device == before.device,
        ({
            let pos = find_document(before.active_documents, id, 0);
            &&& find_document(after.active_documents, id, 0) == pos
            &&& pos < after.active_documents.len()
            &&& after.active_documents[pos] == (id, kept_document(doc))
            &&& after.active_documents.len() == if pos < before.active_documents.len() {
                before.active_documents.len()
            } else {
                before.active_documents.len() + 1
            }
            &&& forall|j: int|
                0 <= j < before.active_documents.len() && j != pos
                    ==> #[trigger] after.active_documents[j] == before.active_documents[j]
            &&& crate::documents::ids_unique(before.active_documents)
                ==> crate::documents::ids_unique(after.active_documents)
        }),
{
    lemma_with_document(before.noted(doc, list.updates@, counters), id, kept_document(doc));
}

/// A frame that is replaced before its turn is never drawn. When two
/// frames of one document are published one after the other, nothing is
/// recorded on the device, and the active documents are what they would be
/// had the first frame never been published. If the document is new, it is
/// there exactly once afterwards, with the second frame, and there is one
/// document more than before.
pub proof fn lemma_replaced_frame_is_not_drawn(
    before: RendererView,
    between: RendererView,
    after: RendererView,
    id: DocumentId,
    first: RenderedDocument,
    first_list: crate::internal_types::TextureUpdateList,
    first_counters: BackendProfileCounters,
    second: RenderedDocument,
    second_list: crate::internal_types::TextureUpdateList,
    second_counters: BackendProfileCounters,
)
    requires
        update_outcome(
            before,
            between,
            ResultMsg::PublishDocument(id, first, first_list, first_counters),
        ),
        update_outcome(
            between,
            after,
            ResultMsg::PublishDocument(id, second, second_list, second_counters),
        ),
    ensures
        after.device == before.device,
        after.active_documents == before.with_document(id, kept_document(second)).active_documents,
        find_document(before.active_documents, id, 0) == before.active_documents.len() ==> {
            &&& after.active_documents.len() == before.active_documents.len() + 1
            &&& after.active_documents[before.active_documents.len() as int] == (
                id,
                kept_document(second),
            )
            &&& forall|j: int|
                0 <= j < after.active_documents.len() ==> ((#[trigger] after.active_documents[j]).0
                    == id <==> j == before.active_documents.len())
        },
{
    let docs = before.active_documents;
    let pos = find_document(docs, id, 0);
    lemma_latest_wins(before, between, id, first, first_list, first_counters);
    lemma_latest_wins(between, after, id, second, second_list, second_counters);
    let direct = before.with_document(id, kept_document(second)).active_documents;
    assert(between.active_documents == before.with_document(
        id,
        kept_document(first),
    ).active_documents);
    assert(after.active_documents == between.with_document(
        id,
        kept_document(second),
    ).active_documents);
    let mid = between.active_documents;
    assert(find_document(mid, id, 0) == pos);
    assert(pos < mid.len());
    assert(after.active_documents == mid.update(pos, (id, kept_document(second))));
    crate::documents::lemma_find_document(docs, id, 0);
    if pos < docs.len() {
        assert(mid == docs.update(pos, (id, kept_document(first))));
        assert(direct == docs.update(pos, (id, kept_document(second))));
        assert(after.active_documents =~= direct);
    } else {
        assert(mid == docs.push((id, kept_document(first))));
        assert(direct == docs.push((id, kept_document(second))));
        assert(after.active_documents =~= direct);
    }
    if pos == docs.len() {
        lemma_with_document(before, id, kept_document(second));
        assert forall|j: int| 0 <= j < after.active_documents.len() implies ((
        #[trigger] after.active_documents[j]).0 == id <==> j == docs.len()) by {
            if j < docs.len() {
                assert(after.active_documents[j] == docs[j]);
            }
        }
    }
}

} // verus!
