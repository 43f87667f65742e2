//! What the renderer tells a debugger of its passes: for every target, the
//! kinds of work that it holds and how much of each.

use vstd::prelude::*;
use crate::batch;
use crate::documents::ActiveDocument;
use crate::gpu_types::{ClipMaskInstance, PrimitiveInstance};
use crate::internal_types::SourceTexture;
use crate::renderer::Renderer;
use crate::tiling::{AlphaRenderTarget, ColorRenderTarget, RenderPass, RenderPassKind, TextureCacheRenderTarget};

verus! {

/// The stage of a pass that a line of the report belongs to.
#[derive(Clone, Copy, Debug, PartialEq, Eq, Structural)]
pub enum BatchKind {
    Clip,
    Cache,
    Opaque,
    Alpha,
}

/// One line of the report of a target: so many items of one description.
#[derive(Clone, Copy, Debug, PartialEq, Eq)]
pub struct Batch {
    pub kind: BatchKind,
    pub description: &'static str,
    pub count: usize,
}

/// A line of a report as mathematical values.
pub struct Entry {
    pub kind: BatchKind,
    pub description: Seq<char>,
    pub count: int,
}

impl View for Batch {
    type V = Entry;

    open spec fn view(&self) -> Entry {
        Entry { kind: self.kind, description: self.description@, count: self.count as int }
    }
}

/// The report of one target.
#[derive(Debug, PartialEq, Eq)]
pub struct Target {
    pub kind: &'static str,
    pub batches: Vec<Batch>,
}

/// The report of a target as mathematical values.
pub struct TargetView {
    pub kind: Seq<char>,
    pub batches: Seq<Entry>,
}

impl View for Target {
    type V = TargetView;

    open spec fn view(&self) -> TargetView {
        TargetView { kind: self.kind@, batches: self.batches@.map_values(|b: Batch| b@) }
    }
}

/// The lines after one more kind of work was looked at: work of which
/// there is none gets no line.
pub open spec fn listed(batches: Seq<Entry>, kind: BatchKind, description: Seq<char>, count: int) -> Seq<Entry> {
    if count > 0 {
        batches.push(Entry { kind, description, count })
    } else {
        batches
    }
}

impl Target {
    /// A report without lines for a target of the given kind.
    pub fn new(kind: &'static str) -> (target: Target)
        ensures
            target@.kind == kind@,
            target@.batches == Seq::<Entry>::empty(),
    {
        let target = Target { kind, batches: Vec::new() };
        assert(target@.batches =~= Seq::<Entry>::empty());
        target
    }

    /// Adds a line for `count` items, unless there is none.
    pub fn add(&mut self, kind: BatchKind, description: &'static str, count: usize)
        ensures
            final(self)@.kind == old(self)@.kind,
            final(self)@.batches == listed(old(self)@.batches, kind, description@, count as int),
    {
        if count > 0 {
            self.batches.push(Batch { kind, description, count });
            assert(self@.batches =~= listed(old(self)@.batches, kind, description@, count as int));
        }
    }
}

/// The report of one pass: its targets.
#[derive(Debug, PartialEq, Eq)]
pub struct Pass {
    pub targets: Vec<Target>,
}

/// The report of all passes.
#[derive(Debug, PartialEq, Eq)]
pub struct PassList {
    pub kind: &'static str,
    pub passes: Vec<Pass>,
}

/// The reports of `targets` as mathematical values.
pub open spec fn target_views(targets: Seq<Target>) -> Seq<TargetView> {
    targets.map_values(|t: Target| t@)
}

impl View for PassList {
    type V = Seq<Seq<TargetView>>;

    open spec fn view(&self) -> Seq<Seq<TargetView>> {
        self.passes@.map_values(|p: Pass| target_views(p.targets@))
    }
}

/// The lines after the first `n` image masks: one line for the masks of
/// each texture.
pub open spec fn image_masks(
    batches: Seq<Entry>,
    images: Seq<(SourceTexture, Vec<ClipMaskInstance>)>,
    n: nat,
) -> Seq<Entry>
    decreases n,
{
    if n == 0 {
        batches
    } else {
        listed(
            image_masks(batches, images, (n - 1) as nat),
            BatchKind::Clip,
            "Image mask"@,
            images[n - 1].1@.len() as int,
        )
    }
}

/// The report of a coverage target: scalings and zero clears, the clears
/// and the borders of the clip batcher, the blurs, the clip rectangles,
/// the two kinds of mask brushes, and the image masks.
pub open spec fn alpha_target_report(target: AlphaRenderTarget) -> TargetView {
    let scalings = listed(Seq::empty(), BatchKind::Cache, "Scalings"@, target.scalings@.len() as int);
    let clears = listed(scalings, BatchKind::Cache, "Zero Clears"@, target.zero_clears@.len() as int);
    let border_clears = listed(
        clears,
        BatchKind::Clip,
        "Clear"@,
        target.clip_batcher.border_clears@.len() as int,
    );
    let borders = listed(
        border_clears,
        BatchKind::Clip,
        "Borders"@,
        target.clip_batcher.borders@.len() as int,
    );
    let vertical = listed(
        borders,
        BatchKind::Cache,
        "Vertical Blur"@,
        target.vertical_blurs@.len() as int,
    );
    let horizontal = listed(
        vertical,
        BatchKind::Cache,
        "Horizontal Blur"@,
        target.horizontal_blurs@.len() as int,
    );
    let rectangles = listed(
        horizontal,
        BatchKind::Clip,
        "Rectangles"@,
        target.clip_batcher.rectangles@.len() as int,
    );
    let corners = listed(
        rectangles,
        BatchKind::Cache,
        "Rectangle Brush (Corner)"@,
        target.brush_mask_corners@.len() as int,
    );
    let rounded = listed(
        corners,
        BatchKind::Cache,
        "Rectangle Brush (Rounded Rect)"@,
        target.brush_mask_rounded_rects@.len() as int,
    );
    TargetView {
        kind: "A8"@,
        batches: image_masks(
            rounded,
            target.clip_batcher.images@,
            target.clip_batcher.images@.len(),
        ),
    }
}

/// The lines after the first `n` runs of cached text: one line for the
/// runs of each texture.
pub open spec fn text_shadows(
    batches: Seq<Entry>,
    prims: Seq<(SourceTexture, Vec<PrimitiveInstance>)>,
    n: nat,
) -> Seq<Entry>
    decreases n,
{
    if n == 0 {
        batches
    } else {
        listed(
            text_shadows(batches, prims, (n - 1) as nat),
            BatchKind::Cache,
            "Text Shadow"@,
            prims[n - 1].1@.len() as int,
        )
    }
}

/// The lines after the last `n` opaque batches, last one first, as they
/// are drawn.
pub open spec fn opaque_lines(batches: Seq<Entry>, list: Seq<batch::Batch>, n: nat) -> Seq<Entry>
    decreases n,
{
    if n == 0 {
        batches
    } else {
        listed(
            opaque_lines(batches, list, (n - 1) as nat),
            BatchKind::Opaque,
            list[list.len() - n].key.kind.spec_debug_name(),
            list[list.len() - n].instances@.len() as int,
        )
    }
}

/// The lines after the first `n` blended batches, in their order.
pub open spec fn alpha_lines(batches: Seq<Entry>, list: Seq<batch::Batch>, n: nat) -> Seq<Entry>
    decreases n,
{
    if n == 0 {
        batches
    } else {
        listed(
            alpha_lines(batches, list, (n - 1) as nat),
            BatchKind::Alpha,
            list[n - 1].key.kind.spec_debug_name(),
            list[n - 1].instances@.len() as int,
        )
    }
}

/// The report of a colour target: scalings, readbacks, blurs, cached
/// text, then the opaque batches as they are drawn, then the blended
/// ones.
pub open spec fn color_target_report(target: ColorRenderTarget) -> TargetView {
    let scalings = listed(Seq::empty(), BatchKind::Cache, "Scalings"@, target.scalings@.len() as int);
    let readbacks = listed(scalings, BatchKind::Cache, "Readbacks"@, target.readbacks@.len() as int);
    let vertical = listed(
        readbacks,
        BatchKind::Cache,
        "Vertical Blur"@,
        target.vertical_blurs@.len() as int,
    );
    let horizontal = listed(
        vertical,
        BatchKind::Cache,
        "Horizontal Blur"@,
        target.horizontal_blurs@.len() as int,
    );
    let text = text_shadows(
        horizontal,
        target.alpha_batcher.text_run_cache_prims@,
        target.alpha_batcher.text_run_cache_prims@.len(),
    );
    let opaque = opaque_lines(
        text,
        target.alpha_batcher.batch_list.opaque_batch_list.batches@,
        target.alpha_batcher.batch_list.opaque_batch_list.batches@.len(),
    );
    TargetView {
        kind: "RGBA8"@,
        batches: alpha_lines(
            opaque,
            target.alpha_batcher.batch_list.alpha_batch_list.batches@,
            target.alpha_batcher.batch_list.alpha_batch_list.batches@.len(),
        ),
    }
}

/// The report of a target of the texture cache: its blurs.
pub open spec fn texture_cache_target_report(target: TextureCacheRenderTarget) -> TargetView {
    TargetView {
        kind: "Texture Cache"@,
        batches: listed(
            Seq::empty(),
            BatchKind::Cache,
            "Horizontal Blur"@,
            target.horizontal_blurs@.len() as int,
        ),
    }
}

/// The reports of the targets of a pass: the window alone, or the
/// coverage targets, then the colour targets, then the targets of the
/// texture cache.
pub open spec fn pass_report(kind: RenderPassKind) -> Seq<TargetView> {
    match kind {
        RenderPassKind::MainFramebuffer(target) => seq![color_target_report(target)],
        RenderPassKind::OffScreen { alpha, color, texture_cache } => alpha.targets@.map_values(
            |t: AlphaRenderTarget| alpha_target_report(t),
        ) + color.targets@.map_values(|t: ColorRenderTarget| color_target_report(t))
            + texture_cache@.map_values(
            |t: ((SourceTexture, i32), TextureCacheRenderTarget)| texture_cache_target_report(t.1),
        ),
    }
}

/// The reports of the passes of a frame.
pub open spec fn frame_report(passes: Seq<RenderPass>) -> Seq<Seq<TargetView>> {
    passes.map_values(|p: RenderPass| pass_report(p.kind))
}

/// The reports of the passes of the first `n` documents, document after
/// document.
pub open spec fn documents_report(docs: Seq<ActiveDocument>, n: nat) -> Seq<Seq<TargetView>>
    decreases n,
{
    if n == 0 {
        Seq::empty()
    } else {
        documents_report(docs, (n - 1) as nat) + frame_report(docs[n - 1].1.frame.passes@)
    }
}

impl Renderer {
    /// Reports a coverage target; see [`alpha_target_report`].
    pub fn debug_alpha_target(target: &AlphaRenderTarget) -> (report: Target)
        ensures
            report@ == alpha_target_report(*target),
    {
        let mut report = Target::new("A8");
        report.add(BatchKind::Cache, "Scalings", target.scalings.len());
        report.add(BatchKind::Cache, "Zero Clears", target.zero_clears.len());
        report.add(BatchKind::Clip, "Clear", target.clip_batcher.border_clears.len());
        report.add(BatchKind::Clip, "Borders", target.clip_batcher.borders.len());
        report.add(BatchKind::Cache, "Vertical Blur", target.vertical_blurs.len());
        report.add(BatchKind::Cache, "Horizontal Blur", target.horizontal_blurs.len());
        report.add(BatchKind::Clip, "Rectangles", target.clip_batcher.rectangles.len());
        report.add(BatchKind::Cache, "Rectangle Brush (Corner)", target.brush_mask_corners.len());
        report.add(
            BatchKind::Cache,
            "Rectangle Brush (Rounded Rect)",
            target.brush_mask_rounded_rects.len(),
        );
        let ghost start = report@.batches;
        let mut i: usize = 0;
        while i < target.clip_batcher.images.len()
            invariant
                i <= target.clip_batcher.images@.len(),
                report@.kind == "A8"@,
                report@.batches == image_masks(start, target.clip_batcher.images@, i as nat),
            decreases target.clip_batcher.images@.len() - i,
        {
            report.add(BatchKind::Clip, "Image mask", target.clip_batcher.images[i].1.len());
            i += 1;
        }
        report
    }

    /// Reports a colour target; see [`color_target_report`].
    pub fn debug_color_target(target: &ColorRenderTarget) -> (report: Target)
        ensures
            report@ == color_target_report(*target),
    {
        let mut report = Target::new("RGBA8");
        report.add(BatchKind::Cache, "Scalings", target.scalings.len());
        report.add(BatchKind::Cache, "Readbacks", target.readbacks.len());
        report.add(BatchKind::Cache, "Vertical Blur", target.vertical_blurs.len());
        report.add(BatchKind::Cache, "Horizontal Blur", target.horizontal_blurs.len());
        let prims = &target.alpha_batcher.text_run_cache_prims;
        let ghost start = report@.batches;
        let mut i: usize = 0;
        while i < prims.len()
            invariant
                i <= prims@.len(),
                report@.kind == "RGBA8"@,
                report@.batches == text_shadows(start, prims@, i as nat),
            decreases prims@.len() - i,
        {
            report.add(BatchKind::Cache, "Text Shadow", prims[i].1.len());
            i += 1;
        }
        let opaque = &target.alpha_batcher.batch_list.opaque_batch_list.batches;
        let ghost start = report@.batches;
        let mut n: usize = 0;
        while n < opaque.len()
            invariant
                n <= opaque@.len(),
                report@.kind == "RGBA8"@,
                report@.batches == opaque_lines(start, opaque@, n as nat),
            decreases opaque@.len() - n,
        {
            let batch = &opaque[opaque.len() - 1 - n];
            report.add(BatchKind::Opaque, batch.key.kind.debug_name(), batch.instances.len());
            n += 1;
        }
        let alpha = &target.alpha_batcher.batch_list.alpha_batch_list.batches;
        let ghost start = report@.batches;
        let mut i: usize = 0;
        while i < alpha.len()
            invariant
                i <= alpha@.len(),
                report@.kind == "RGBA8"@,
                report@.batches == alpha_lines(start, alpha@, i as nat),
            decreases alpha@.len() - i,
        {
            report.add(BatchKind::Alpha, alpha[i].key.kind.debug_name(), alpha[i].instances.len());
            i += 1;
        }
        report
    }

    /// Reports a target of the texture cache; see
    /// [`texture_cache_target_report`].
    pub fn debug_texture_cache_target(target: &TextureCacheRenderTarget) -> (report: Target)
        ensures
            report@ == texture_cache_target_report(*target),
    {
        let mut report = Target::new("Texture Cache");
        report.add(BatchKind::Cache, "Horizontal Blur", target.horizontal_blurs.len());
        report
    }

    /// Reports the targets of one pass; see [`pass_report`].
    pub fn debug_pass(pass: &RenderPass) -> (report: Pass)
        ensures
            target_views(report.targets@) == pass_report(pass.kind),
    {
        let mut targets: Vec<Target> = Vec::new();
        match &pass.kind {
            RenderPassKind::MainFramebuffer(target) => {
                targets.push(Self::debug_color_target(target));
                assert(target_views(targets@) =~= pass_report(pass.kind));
            },
            RenderPassKind::OffScreen { alpha, color, texture_cache } => {
                let ghost alpha_reports = alpha.targets@.map_values(
                    |t: AlphaRenderTarget| alpha_target_report(t),
                );
                let ghost color_reports = color.targets@.map_values(
                    |t: ColorRenderTarget| color_target_report(t),
                );
                let ghost cache_reports = texture_cache@.map_values(
                    |t: ((SourceTexture, i32), TextureCacheRenderTarget)|
                        texture_cache_target_report(t.1),
                );
                let mut i: usize = 0;
                while i < alpha.targets.len()
                    invariant
                        i <= alpha.targets@.len(),
                        alpha_reports == alpha.targets@.map_values(
                            |t: AlphaRenderTarget| alpha_target_report(t),
                        ),
                        target_views(targets@) =~= alpha_reports.take(i as int),
                    decreases alpha.targets@.len() - i,
                {
                    let ghost before = targets@;
                    targets.push(Self::debug_alpha_target(&alpha.targets[i]));
                    proof {
                        assert(target_views(targets@) =~= target_views(before).push(
                            alpha_reports[i as int],
                        ));
                        assert(alpha_reports.take(i + 1) =~= alpha_reports.take(i as int).push(
                            alpha_reports[i as int],
                        ));
                    }
                    i += 1;
                }
                assert(alpha_reports.take(alpha.targets@.len() as int) =~= alpha_reports);
                let mut i: usize = 0;
                while i < color.targets.len()
                    invariant
                        i <= color.targets@.len(),
                        color_reports == color.targets@.map_values(
                            |t: ColorRenderTarget| color_target_report(t),
                        ),
                        target_views(targets@) =~= alpha_reports + color_reports.take(i as int),
                    decreases color.targets@.len() - i,
                {
                    let ghost before = targets@;
                    targets.push(Self::debug_color_target(&color.targets[i]));
                    proof {
                        assert(target_views(targets@) =~= target_views(before).push(
                            color_reports[i as int],
                        ));
                        assert(color_reports.take(i + 1) =~= color_reports.take(i as int).push(
                            color_reports[i as int],
                        ));
                    }
                    i += 1;
                }
                assert(color_reports.take(color.targets@.len() as int) =~= color_reports);
                let mut i: usize = 0;
                while i < texture_cache.len()
                    invariant
                        i <= texture_cache@.len(),
                        cache_reports == texture_cache@.map_values(
                            |t: ((SourceTexture, i32), TextureCacheRenderTarget)|
                                texture_cache_target_report(t.1),
                        ),
                        target_views(targets@) =~= alpha_reports + color_reports
                            + cache_reports.take(i as int),
                    decreases texture_cache@.len() - i,
                {
                    let ghost before = targets@;
                    targets.push(Self::debug_texture_cache_target(&texture_cache[i].1));
                    proof {
                        assert(target_views(targets@) =~= target_views(before).push(
                            cache_reports[i as int],
                        ));
                        assert(cache_reports.take(i + 1) =~= cache_reports.take(i as int).push(
                            cache_reports[i as int],
                        ));
                    }
                    i += 1;
                }
                assert(cache_reports.take(texture_cache@.len() as int) =~= cache_reports);
                assert(target_views(targets@) =~= pass_report(pass.kind));
            },
        }
        Pass { targets }
    }

    /// Reports the passes of the active documents, document after
    /// document; see [`documents_report`].
    pub fn get_passes_for_debugger(&self) -> (report: PassList)
        ensures
            report.kind@ == "passes"@,
            report@ == documents_report(self.active_documents@, self.active_documents@.len()),
    {
        let mut report = PassList { kind: "passes", passes: Vec::new() };
        assert(report@ =~= documents_report(self.active_documents@, 0));
        let mut d: usize = 0;
        while d < self.active_documents.len()
            invariant
                d <= self.active_documents@.len(),
                report.kind@ == "passes"@,
                report@ == documents_report(self.active_documents@, d as nat),
            decreases self.active_documents@.len() - d,
        {
            let passes = &self.active_documents[d].1.frame.passes;
            let ghost before = report@;
            let mut p: usize = 0;
            while p < passes.len()
                invariant
                    p <= passes@.len(),
                    report.kind@ == "passes"@,
                    report@ =~= before + frame_report(passes@).take(p as int),
                decreases passes@.len() - p,
            {
                let ghost so_far = report@;
                report.passes.push(Self::debug_pass(&passes[p]));
                proof {
                    assert(report@ =~= so_far.push(pass_report(passes@[p as int].kind)));
                    assert(frame_report(passes@).take(p + 1) =~= frame_report(passes@).take(
                        p as int,
                    ).push(frame_report(passes@)[p as int]));
                }
                p += 1;
            }
            assert(frame_report(passes@).take(passes@.len() as int) =~= frame_report(passes@));
            d += 1;
        }
        report
    }
}

} // verus!
