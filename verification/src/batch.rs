//! Batches: runs of primitive instances that one device state can draw, and
//! the rules by which primitives join them.

use vstd::prelude::*;
use crate::api::{YuvColorSpace, YuvFormat};
use crate::gpu_types::PrimitiveInstance;
use crate::internal_types::SourceTexture;
use crate::render_task::RenderTaskId;
use crate::renderer::{BlendMode, ImageBufferKind};
use crate::units::DeviceIntRect;
use crate::util::TransformedRectKind;

verus! {

/// How the glyphs of a text run were rasterised.
#[derive(Clone, Copy, Debug, PartialEq, Eq, Structural)]
pub enum GlyphFormat {
    Alpha,
    TransformedAlpha,
    Subpixel,
    TransformedSubpixel,
    Bitmap,
    ColorBitmap,
}

/// What a picture brush samples.
#[derive(Clone, Copy, Debug, PartialEq, Eq, Structural)]
pub enum BrushImageSourceKind {
    Alpha,
    Color,
    ColorAlphaMask,
}

/// The brush shaders by what they draw.
#[derive(Clone, Copy, Debug, PartialEq, Eq, Structural)]
pub enum BrushBatchKind {
    Picture(BrushImageSourceKind),
    Solid,
    Line,
}

/// The shaders that come in an axis-aligned and a transformed build.
#[derive(Clone, Copy, Debug, PartialEq, Eq, Structural)]
pub enum TransformBatchKind {
    TextRun(GlyphFormat),
    Image(ImageBufferKind),
    YuvImage(ImageBufferKind, YuvFormat, YuvColorSpace),
    AlignedGradient,
    AngleGradient,
    RadialGradient,
    BorderCorner,
    BorderEdge,
}

/// The shader that a batch is drawn with.
#[derive(Clone, Copy, Debug, PartialEq, Eq, Structural)]
pub enum BatchKind {
    Composite { task_id: RenderTaskId, source_id: RenderTaskId, backdrop_id: RenderTaskId },
    HardwareComposite,
    SplitComposite,
    Blend,
    Transformable(TransformedRectKind, TransformBatchKind),
    Brush(BrushBatchKind),
}

/// The up to three textures that a batch samples.
#[derive(Clone, Copy, Debug, PartialEq, Eq, Structural)]
pub struct BatchTextures {
    pub color0: SourceTexture,
    pub color1: SourceTexture,
    pub color2: SourceTexture,
}

impl BatchTextures {
    /// No texture at all.
    pub fn no_texture() -> (t: BatchTextures)
        ensures
            t == (BatchTextures {
                color0: SourceTexture::Invalid,
                color1: SourceTexture::Invalid,
                color2: SourceTexture::Invalid,
            }),
    {
        BatchTextures {
            color0: SourceTexture::Invalid,
            color1: SourceTexture::Invalid,
            color2: SourceTexture::Invalid,
        }
    }

    /// One texture, in the first slot.
    pub fn color(texture: SourceTexture) -> (t: BatchTextures)
        ensures
            t == (BatchTextures {
                color0: texture,
                color1: SourceTexture::Invalid,
                color2: SourceTexture::Invalid,
            }),
    {
        BatchTextures {
            color0: texture,
            color1: SourceTexture::Invalid,
            color2: SourceTexture::Invalid,
        }
    }

    /// The textures in slot order.
    pub open spec fn colors(self) -> Seq<SourceTexture> {
        seq![self.color0, self.color1, self.color2]
    }

    /// The texture of slot `i`.
    pub fn get(&self, i: usize) -> (t: SourceTexture)
        requires
            i < 3,
        ensures
            t == self.colors()[i as int],
    {
        if i == 0 {
            self.color0
        } else if i == 1 {
            self.color1
        } else {
            self.color2
        }
    }
}

/// The device state that a batch needs: shader, blend mode and textures.
#[derive(Clone, Copy, Debug, PartialEq, Eq, Structural)]
pub struct BatchKey {
    pub kind: BatchKind,
    pub blend_mode: BlendMode,
    pub textures: BatchTextures,
}

impl BatchKey {
    pub fn new(kind: BatchKind, blend_mode: BlendMode, textures: BatchTextures) -> (key: BatchKey)
        ensures
            key == (BatchKey { kind, blend_mode, textures }),
    {
        BatchKey { kind, blend_mode, textures }
    }
}

/// A run of instances that are drawn with one device state.
#[derive(Debug, PartialEq, Eq)]
pub struct Batch {
    pub key: BatchKey,
    pub instances: Vec<PrimitiveInstance>,
    /// The screen rectangle of each instance, in the order of the instances.
    pub item_rects: Vec<DeviceIntRect>,
}

/// The batches of blended primitives, in the order in which they are drawn.
#[derive(Debug, PartialEq, Eq)]
pub struct AlphaBatchList {
    pub batches: Vec<Batch>,
}

/// The batches of opaque primitives. They are drawn last to first, so that
/// what is in front is drawn first.
#[derive(Debug, PartialEq, Eq)]
pub struct OpaqueBatchList {
    pub batches: Vec<Batch>,
}

/// The batches of one target.
#[derive(Debug, PartialEq, Eq)]
pub struct BatchList {
    pub alpha_batch_list: AlphaBatchList,
    pub opaque_batch_list: OpaqueBatchList,
}


/// What a [`Batch`] holds, as mathematical values.
pub struct BatchView {
    pub key: BatchKey,
    pub instances: Seq<PrimitiveInstance>,
    pub item_rects: Seq<DeviceIntRect>,
}

impl View for Batch {
    type V = BatchView;

    open spec fn view(&self) -> BatchView {
        BatchView { key: self.key, instances: self.instances@, item_rects: self.item_rects@ }
    }
}

/// The views of a sequence of batches.
pub open spec fn batch_views(batches: Seq<Batch>) -> Seq<BatchView> {
    batches.map_values(|b: Batch| b@)
}

/// What a [`BatchList`] holds, as mathematical values.
pub struct BatchListView {
    pub alpha: Seq<BatchView>,
    pub opaque: Seq<BatchView>,
}

impl View for BatchList {
    type V = BatchListView;

    open spec fn view(&self) -> BatchListView {
        BatchListView {
            alpha: batch_views(self.alpha_batch_list.batches@),
            opaque: batch_views(self.opaque_batch_list.batches@),
        }
    }
}

/// One primitive to draw: the device state that it needs, its instance
/// record, and the screen rectangle that it covers.
#[derive(Clone, Copy, Debug, PartialEq, Eq)]
pub struct PrimitiveDraw {
    pub key: BatchKey,
    pub instance: PrimitiveInstance,
    pub bounding_rect: DeviceIntRect,
}

impl BatchKey {
    /// Primitives with this key are drawn in several blending passes over
    /// the whole batch, so that two of them that overlap cannot share a
    /// batch.
    pub open spec fn spec_is_multi_pass(self) -> bool {
        self.blend_mode is SubpixelWithBgColor || self.blend_mode is SubpixelVariableTextColor
    }

    pub fn is_multi_pass(&self) -> (b: bool)
        ensures
            b == self.spec_is_multi_pass(),
    {
        match self.blend_mode {
            BlendMode::SubpixelWithBgColor => true,
            BlendMode::SubpixelVariableTextColor => true,
            _ => false,
        }
    }

    /// Primitives with this key read back what was drawn before them, so
    /// that each is a batch of its own.
    pub open spec fn spec_is_composite(self) -> bool {
        self.kind is Composite
    }

    pub fn is_composite(&self) -> (b: bool)
        ensures
            b == self.spec_is_composite(),
    {
        match self.kind {
            BatchKind::Composite { .. } => true,
            _ => false,
        }
    }

    /// Primitives with this key are opaque.
    pub open spec fn spec_is_opaque(self) -> bool {
        self.blend_mode is NoBlend
    }

    pub fn is_opaque(&self) -> (b: bool)
        ensures
            b == self.spec_is_opaque(),
    {
        match self.blend_mode {
            BlendMode::NoBlend => true,
            _ => false,
        }
    }
}

/// Some rectangle among `rects` intersects `rect`.
pub open spec fn any_intersects(rects: Seq<DeviceIntRect>, rect: DeviceIntRect) -> bool {
    exists|j: int| 0 <= j < rects.len() && (#[trigger] rects[j]).intersects_spec(rect)
}

/// The blended batch, among those up to position `k`, that a primitive
/// with `key` and `rect` joins, or `-1` when it opens a batch of its own.
///
/// The batches are looked at from the last one back. A batch with the
/// primitive's key takes it. A batch that holds something that the
/// primitive overlaps ends the search, because the primitive must be drawn
/// after it. For keys that are drawn in several passes the overlap is
/// tested first, so that such a primitive never joins a batch that it
/// overlaps; a composite joins nothing.
pub open spec fn alpha_slot(batches: Seq<BatchView>, key: BatchKey, rect: DeviceIntRect, k: int) -> int
    decreases k + 1,
{
    if k < 0 || key.spec_is_composite() {
        -1
    } else if key.spec_is_multi_pass() {
        if any_intersects(batches[k].item_rects, rect) {
            -1
        } else if batches[k].key == key {
            k
        } else {
            alpha_slot(batches, key, rect, k - 1)
        }
    } else {
        if batches[k].key == key {
            k
        } else if any_intersects(batches[k].item_rects, rect) {
            -1
        } else {
            alpha_slot(batches, key, rect, k - 1)
        }
    }
}

/// The opaque batch, among those up to position `k`, with the given key,
/// looking from the last one back, or `-1` when there is none. Opaque
/// primitives hide what is behind them whatever the order of drawing, so
/// overlap does not matter.
pub open spec fn opaque_slot(batches: Seq<BatchView>, key: BatchKey, k: int) -> int
    decreases k + 1,
{
    if k < 0 {
        -1
    } else if batches[k].key == key {
        k
    } else {
        opaque_slot(batches, key, k - 1)
    }
}

/// The batches after a primitive joined the batch at `slot`, or opened a
/// new last batch when `slot` is negative.
pub open spec fn with_instance(batches: Seq<BatchView>, slot: int, draw: PrimitiveDraw) -> Seq<BatchView> {
    if slot < 0 {
        batches.push(
            BatchView {
                key: draw.key,
                instances: seq![draw.instance],
                item_rects: seq![draw.bounding_rect],
            },
        )
    } else {
        batches.update(
            slot,
            BatchView {
                key: batches[slot].key,
                instances: batches[slot].instances.push(draw.instance),
                item_rects: batches[slot].item_rects.push(draw.bounding_rect),
            },
        )
    }
}

impl BatchListView {
    /// No batch at all.
    pub open spec fn empty() -> BatchListView {
        BatchListView { alpha: Seq::empty(), opaque: Seq::empty() }
    }

    /// The batch that `draw` joins in its list, or `-1` for a new one.
    pub open spec fn slot_for(self, draw: PrimitiveDraw) -> int {
        if draw.key.spec_is_opaque() {
            opaque_slot(self.opaque, draw.key, self.opaque.len() - 1)
        } else {
            alpha_slot(self.alpha, draw.key, draw.bounding_rect, self.alpha.len() - 1)
        }
    }

    /// The batches after one more primitive: an opaque primitive goes to
    /// the opaque list, any other to the blended list.
    pub open spec fn add(self, draw: PrimitiveDraw) -> BatchListView {
        if draw.key.spec_is_opaque() {
            BatchListView { opaque: with_instance(self.opaque, self.slot_for(draw), draw), ..self }
        } else {
            BatchListView { alpha: with_instance(self.alpha, self.slot_for(draw), draw), ..self }
        }
    }

    /// The batches of the first `n` primitives of `draws`, added in order.
    pub open spec fn build(draws: Seq<PrimitiveDraw>, n: nat) -> BatchListView
        decreases n,
    {
        if n == 0 {
            Self::empty()
        } else {
            Self::build(draws, (n - 1) as nat).add(draws[n - 1])
        }
    }
}

/// Whether some rectangle of `batch` intersects `rect`.
fn batch_overlaps(batch: &Batch, rect: &DeviceIntRect) -> (b: bool)
    ensures
        b == any_intersects(batch@.item_rects, *rect),
{
    let mut j: usize = 0;
    while j < batch.item_rects.len()
        invariant
            j <= batch.item_rects@.len(),
            forall|k: int| 0 <= k < j ==> !(#[trigger] batch.item_rects@[k]).intersects_spec(*rect),
        decreases batch.item_rects@.len() - j,
    {
        if batch.item_rects[j].intersects(rect) {
            return true;
        }
        j += 1;
    }
    false
}

/// Puts `draw` into the batch at `slot`, or into a new last batch.
fn push_instance(batches: &mut Vec<Batch>, slot: Option<usize>, draw: &PrimitiveDraw)
    requires
        slot matches Some(s) ==> s < old(batches)@.len(),
    ensures
        batch_views(final(batches)@) == with_instance(
            batch_views(old(batches)@),
            match slot {
                Some(s) => s as int,
                None => -1,
            },
            *draw,
        ),
{
    match slot {
        Some(s) => {
            let mut taken = Batch { key: draw.key, instances: Vec::new(), item_rects: Vec::new() };
            std::mem::swap(&mut batches[s], &mut taken);
            taken.instances.push(draw.instance);
            taken.item_rects.push(draw.bounding_rect);
            batches[s] = taken;
            assert(batch_views(batches@) =~= with_instance(
                batch_views(old(batches)@),
                s as int,
                *draw,
            ));
        },
        None => {
            let mut instances = Vec::new();
            instances.push(draw.instance);
            let mut item_rects = Vec::new();
            item_rects.push(draw.bounding_rect);
            batches.push(Batch { key: draw.key, instances, item_rects });
            assert(batch_views(batches@) =~= with_instance(batch_views(old(batches)@), -1, *draw));
        },
    }
}

impl AlphaBatchList {
    pub fn new() -> (list: AlphaBatchList)
        ensures
            list.batches@.len() == 0,
    {
        AlphaBatchList { batches: Vec::new() }
    }

    /// The batch that a primitive with `key` and `rect` joins, or none when
    /// it opens a batch of its own.
    pub fn get_suitable_batch(&self, key: &BatchKey, rect: &DeviceIntRect) -> (slot: Option<usize>)
        ensures
            match slot {
                Some(s) => s == alpha_slot(
                    batch_views(self.batches@),
                    *key,
                    *rect,
                    self.batches@.len() - 1,
                ),
                None => alpha_slot(batch_views(self.batches@), *key, *rect, self.batches@.len() - 1)
                    == -1,
            },
            slot matches Some(s) ==> s < self.batches@.len(),
    {
        if key.is_composite() {
            return None;
        }
        let multi_pass = key.is_multi_pass();
        let ghost views = batch_views(self.batches@);
        let mut k: usize = self.batches.len();
        while k > 0
            invariant
                k <= self.batches@.len(),
                views == batch_views(self.batches@),
                !key.spec_is_composite(),
                multi_pass == key.spec_is_multi_pass(),
                alpha_slot(views, *key, *rect, self.batches@.len() - 1) == alpha_slot(
                    views,
                    *key,
                    *rect,
                    k - 1,
                ),
            decreases k,
        {
            let batch = &self.batches[k - 1];
            assert(views[k - 1] == batch@);
            if multi_pass {
                if batch_overlaps(batch, rect) {
                    return None;
                }
                if batch.key == *key {
                    return Some(k - 1);
                }
            } else {
                if batch.key == *key {
                    return Some(k - 1);
                }
                if batch_overlaps(batch, rect) {
                    return None;
                }
            }
            k -= 1;
        }
        None
    }
}

impl OpaqueBatchList {
    pub fn new() -> (list: OpaqueBatchList)
        ensures
            list.batches@.len() == 0,
    {
        OpaqueBatchList { batches: Vec::new() }
    }

    /// The last batch with `key`, or none when there is none.
    pub fn get_suitable_batch(&self, key: &BatchKey) -> (slot: Option<usize>)
        ensures
            match slot {
                Some(s) => s == opaque_slot(
                    batch_views(self.batches@),
                    *key,
                    self.batches@.len() - 1,
                ),
                None => opaque_slot(batch_views(self.batches@), *key, self.batches@.len() - 1)
                    == -1,
            },
            slot matches Some(s) ==> s < self.batches@.len(),
    {
        let ghost views = batch_views(self.batches@);
        let mut k: usize = self.batches.len();
        while k > 0
            invariant
                k <= self.batches@.len(),
                views == batch_views(self.batches@),
                opaque_slot(views, *key, self.batches@.len() - 1) == opaque_slot(
                    views,
                    *key,
                    k - 1,
                ),
            decreases k,
        {
            let batch = &self.batches[k - 1];
            assert(views[k - 1] == batch@);
            if batch.key == *key {
                return Some(k - 1);
            }
            k -= 1;
        }
        None
    }
}

impl BatchList {
    /// No batch at all.
    pub fn new() -> (list: BatchList)
        ensures
            list@ == BatchListView::empty(),
            list.alpha_batch_list.batches@.len() == 0,
            list.opaque_batch_list.batches@.len() == 0,
    {
        let list = BatchList {
            alpha_batch_list: AlphaBatchList::new(),
            opaque_batch_list: OpaqueBatchList::new(),
        };
        assert(list@.alpha =~= BatchListView::empty().alpha);
        assert(list@.opaque =~= BatchListView::empty().opaque);
        list
    }

    /// Adds one primitive to the batch that takes it.
    pub fn add(&mut self, draw: &PrimitiveDraw)
        ensures
            final(self)@ == old(self)@.add(*draw),
    {
        if draw.key.is_opaque() {
            let slot = self.opaque_batch_list.get_suitable_batch(&draw.key);
            push_instance(&mut self.opaque_batch_list.batches, slot, draw);
        } else {
            let slot = self.alpha_batch_list.get_suitable_batch(&draw.key, &draw.bounding_rect);
            push_instance(&mut self.alpha_batch_list.batches, slot, draw);
        }
    }

    /// The batches of `draws`, added in order.
    pub fn build(draws: &Vec<PrimitiveDraw>) -> (list: BatchList)
        ensures
            list@ == BatchListView::build(draws@, draws@.len()),
    {
        let mut list = BatchList::new();
        let mut n: usize = 0;
        while n < draws.len()
            invariant
                n <= draws@.len(),
                list@ == BatchListView::build(draws@, n as nat),
            decreases draws@.len() - n,
        {
            list.add(&draws[n]);
            n += 1;
        }
        list
    }

    /// Whether there is no batch at all.
    pub fn is_empty(&self) -> (b: bool)
        ensures
            b == (self@.alpha.len() == 0 && self@.opaque.len() == 0),
    {
        self.opaque_batch_list.batches.len() == 0 && self.alpha_batch_list.batches.len() == 0
    }
}


/// For every batch of a list, the positions in the input of the primitives
/// that it holds, in the order in which it holds them.
pub struct BatchSources {
    pub alpha: Seq<Seq<int>>,
    pub opaque: Seq<Seq<int>>,
}

/// The sources after primitive `i` joined the batch at `slot`, or opened a
/// new last batch when `slot` is negative.
pub open spec fn with_source(sources: Seq<Seq<int>>, slot: int, i: int) -> Seq<Seq<int>> {
    if slot < 0 {
        sources.push(seq![i])
    } else {
        sources.update(slot, sources[slot].push(i))
    }
}

/// Where the batches of the first `n` primitives of `draws` got each of
/// their instances from.
pub open spec fn build_sources(draws: Seq<PrimitiveDraw>, n: nat) -> BatchSources
    decreases n,
{
    if n == 0 {
        BatchSources { alpha: Seq::empty(), opaque: Seq::empty() }
    } else {
        let before = build_sources(draws, (n - 1) as nat);
        let draw = draws[n - 1];
        let slot = BatchListView::build(draws, (n - 1) as nat).slot_for(draw);
        if draw.key.spec_is_opaque() {
            BatchSources { opaque: with_source(before.opaque, slot, n - 1), ..before }
        } else {
            BatchSources { alpha: with_source(before.alpha, slot, n - 1), ..before }
        }
    }
}

/// `sources` says truly where `batches` got their instances from among the
/// first `n` of `draws`: batch by batch and instance by instance, the
/// source is a primitive with the batch's key, the instance's record and
/// rectangle; and within a batch the sources are in input order.
pub open spec fn traced(
    batches: Seq<BatchView>,
    sources: Seq<Seq<int>>,
    draws: Seq<PrimitiveDraw>,
    n: int,
) -> bool {
    &&& batches.len() == sources.len()
    &&& forall|b: int|
        0 <= b < batches.len() ==> {
            &&& (#[trigger] sources[b]).len() == batches[b].instances.len()
            &&& sources[b].len() == batches[b].item_rects.len()
        }
    &&& forall|b: int, p: int|
        0 <= b < batches.len() && 0 <= p < sources[b].len() ==> {
            &&& 0 <= #[trigger] sources[b][p] < n
            &&& draws[sources[b][p]].key == batches[b].key
            &&& draws[sources[b][p]].instance == batches[b].instances[p]
            &&& draws[sources[b][p]].bounding_rect == batches[b].item_rects[p]
        }
    &&& forall|b: int, p: int, q: int|
        0 <= b < batches.len() && 0 <= p < q < sources[b].len() ==> #[trigger] sources[b][p]
            < #[trigger] sources[b][q]
}

/// A slot that the search for a blended batch returns is `-1` or names a
/// batch, up to position `k`, that has the key; and no batch after that
/// one, up to `k`, holds anything that intersects the rectangle. For a key
/// that is drawn in several passes, neither does the batch itself.
pub proof fn lemma_alpha_slot(batches: Seq<BatchView>, key: BatchKey, rect: DeviceIntRect, k: int)
    requires
        -1 <= k < batches.len(),
    ensures
        -1 <= alpha_slot(batches, key, rect, k) <= k,
        alpha_slot(batches, key, rect, k) >= 0 ==> {
            &&& batches[alpha_slot(batches, key, rect, k)].key == key
            &&& !key.spec_is_composite()
            &&& key.spec_is_multi_pass() ==> !any_intersects(
                batches[alpha_slot(batches, key, rect, k)].item_rects,
                rect,
            )
            &&& forall|b: int|
                alpha_slot(batches, key, rect, k) < b <= k ==> !any_intersects(
                    (#[trigger] batches[b]).item_rects,
                    rect,
                )
        },
    decreases k + 1,
{
    if k >= 0 && !key.spec_is_composite() {
        if key.spec_is_multi_pass() {
            if !any_intersects(batches[k].item_rects, rect) && batches[k].key != key {
                lemma_alpha_slot(batches, key, rect, k - 1);
            }
        } else {
            if batches[k].key != key && !any_intersects(batches[k].item_rects, rect) {
                lemma_alpha_slot(batches, key, rect, k - 1);
            }
        }
    }
}

/// A slot that the search for an opaque batch returns is `-1` or names a
/// batch, up to position `k`, that has the key.
pub proof fn lemma_opaque_slot(batches: Seq<BatchView>, key: BatchKey, k: int)
    requires
        -1 <= k < batches.len(),
    ensures
        -1 <= opaque_slot(batches, key, k) <= k,
        opaque_slot(batches, key, k) >= 0 ==> batches[opaque_slot(batches, key, k)].key == key,
    decreases k + 1,
{
    if k >= 0 && batches[k].key != key {
        lemma_opaque_slot(batches, key, k - 1);
    }
}

/// Adding primitive `n` to a batch with its key, or to a new batch, keeps
/// the sources true.
pub proof fn lemma_with_instance_traced(
    batches: Seq<BatchView>,
    sources: Seq<Seq<int>>,
    draws: Seq<PrimitiveDraw>,
    n: int,
    slot: int,
)
    requires
        traced(batches, sources, draws, n),
        0 <= n < draws.len(),
        slot < batches.len(),
        slot >= 0 ==> batches[slot].key == draws[n].key,
    ensures
        traced(
            with_instance(batches, slot, draws[n]),
            with_source(sources, slot, n),
            draws,
            n + 1,
        ),
{
    let after = with_instance(batches, slot, draws[n]);
    let traces = with_source(sources, slot, n);
    assert forall|b: int| 0 <= b < after.len() implies {
        &&& (#[trigger] traces[b]).len() == after[b].instances.len()
        &&& traces[b].len() == after[b].item_rects.len()
    } by {
        if b < batches.len() {
            assert(sources[b].len() == batches[b].instances.len());
        }
    }
    assert forall|b: int, p: int| 0 <= b < after.len() && 0 <= p < traces[b].len() implies {
        &&& 0 <= #[trigger] traces[b][p] < n + 1
        &&& draws[traces[b][p]].key == after[b].key
        &&& draws[traces[b][p]].instance == after[b].instances[p]
        &&& draws[traces[b][p]].bounding_rect == after[b].item_rects[p]
    } by {
        if b < batches.len() {
            assert(sources[b].len() == batches[b].instances.len());
            if p < sources[b].len() {
                assert(traces[b][p] == sources[b][p]);
            }
        }
    }
    assert forall|b: int, p: int, q: int|
        0 <= b < after.len() && 0 <= p < q < traces[b].len() implies #[trigger] traces[b][p]
        < #[trigger] traces[b][q] by {
        if b < batches.len() {
            assert(sources[b].len() == batches[b].instances.len());
            if q < sources[b].len() {
                assert(traces[b][p] == sources[b][p]);
                assert(traces[b][q] == sources[b][q]);
            } else {
                assert(traces[b][p] == sources[b][p]);
                assert(0 <= sources[b][p] < n);
            }
        }
    }
}

/// Sources that are true of the first `n` primitives stay true when the
/// input is looked at up to `m >= n`.
pub proof fn lemma_traced_widen(
    batches: Seq<BatchView>,
    sources: Seq<Seq<int>>,
    draws: Seq<PrimitiveDraw>,
    n: int,
    m: int,
)
    requires
        traced(batches, sources, draws, n),
        n <= m,
    ensures
        traced(batches, sources, draws, m),
{
    assert forall|b: int, p: int| 0 <= b < batches.len() && 0 <= p < sources[b].len() implies {
        &&& 0 <= #[trigger] sources[b][p] < m
        &&& draws[sources[b][p]].key == batches[b].key
        &&& draws[sources[b][p]].instance == batches[b].instances[p]
        &&& draws[sources[b][p]].bounding_rect == batches[b].item_rects[p]
    } by {
        assert(0 <= sources[b][p] < n);
    }
}

/// Batch key homogeneity: every instance of every batch that `build`
/// makes comes from a primitive of the input that has exactly the batch's
/// key, and carries that primitive's record and rectangle; within a batch
/// the instances are in input order.
pub proof fn lemma_batches_traced(draws: Seq<PrimitiveDraw>, n: nat)
    requires
        n <= draws.len(),
    ensures
        traced(BatchListView::build(draws, n).alpha, build_sources(draws, n).alpha, draws, n as int),
        traced(
            BatchListView::build(draws, n).opaque,
            build_sources(draws, n).opaque,
            draws,
            n as int,
        ),
    decreases n,
{
    if n > 0 {
        lemma_batches_traced(draws, (n - 1) as nat);
        let view = BatchListView::build(draws, (n - 1) as nat);
        let before = build_sources(draws, (n - 1) as nat);
        let draw = draws[n - 1];
        let slot = view.slot_for(draw);
        if draw.key.spec_is_opaque() {
            lemma_opaque_slot(view.opaque, draw.key, view.opaque.len() - 1);
            lemma_with_instance_traced(view.opaque, before.opaque, draws, n - 1, slot);
            lemma_traced_widen(view.alpha, before.alpha, draws, n - 1, n as int);
        } else {
            lemma_alpha_slot(view.alpha, draw.key, draw.bounding_rect, view.alpha.len() - 1);
            lemma_with_instance_traced(view.alpha, before.alpha, draws, n - 1, slot);
            lemma_traced_widen(view.opaque, before.opaque, draws, n - 1, n as int);
        }
    }
}

/// Opaque and blended primitives are kept apart: every source of a blended
/// batch is a primitive that blends, every source of an opaque batch one
/// that does not.
pub proof fn lemma_opaque_alpha_separation(draws: Seq<PrimitiveDraw>, n: nat)
    requires
        n <= draws.len(),
    ensures
        forall|b: int, p: int|
            0 <= b < build_sources(draws, n).alpha.len() && 0 <= p < build_sources(
                draws,
                n,
            ).alpha[b].len() ==> !draws[#[trigger] build_sources(
                draws,
                n,
            ).alpha[b][p]].key.spec_is_opaque(),
        forall|b: int, p: int|
            0 <= b < build_sources(draws, n).opaque.len() && 0 <= p < build_sources(
                draws,
                n,
            ).opaque[b].len() ==> draws[#[trigger] build_sources(
                draws,
                n,
            ).opaque[b][p]].key.spec_is_opaque(),
    decreases n,
{
    if n > 0 {
        lemma_opaque_alpha_separation(draws, (n - 1) as nat);
        lemma_batches_traced(draws, (n - 1) as nat);
        let view = BatchListView::build(draws, (n - 1) as nat);
        let before = build_sources(draws, (n - 1) as nat);
        let after = build_sources(draws, n);
        let draw = draws[n - 1];
        let slot = view.slot_for(draw);
        if draw.key.spec_is_opaque() {
            lemma_opaque_slot(view.opaque, draw.key, view.opaque.len() - 1);
            assert forall|b: int, p: int|
                0 <= b < after.opaque.len() && 0 <= p < after.opaque[b].len() implies draws[#[trigger] after.opaque[b][p]].key.spec_is_opaque() by {
                if b < before.opaque.len() && p < before.opaque[b].len() {
                    assert(after.opaque[b][p] == before.opaque[b][p]);
                }
            }
        } else {
            lemma_alpha_slot(view.alpha, draw.key, draw.bounding_rect, view.alpha.len() - 1);
            assert forall|b: int, p: int|
                0 <= b < after.alpha.len() && 0 <= p < after.alpha[b].len() implies !draws[#[trigger] after.alpha[b][p]].key.spec_is_opaque() by {
                if b < before.alpha.len() && p < before.alpha[b].len() {
                    assert(after.alpha[b][p] == before.alpha[b][p]);
                }
            }
        }
    }
}


/// Whenever two blended primitives overlap, the one that comes first in the
/// input is drawn first: it sits in an earlier batch, or earlier in the
/// same batch, and then the batch is drawn in a single pass.
pub open spec fn painter_ordered(
    batches: Seq<BatchView>,
    sources: Seq<Seq<int>>,
    draws: Seq<PrimitiveDraw>,
) -> bool {
    forall|b1: int, k1: int, b2: int, k2: int|
        0 <= b1 < sources.len() && 0 <= k1 < sources[b1].len() && 0 <= b2 < sources.len() && 0
            <= k2 < sources[b2].len() && #[trigger] sources[b1][k1] < #[trigger] sources[b2][k2]
            && draws[sources[b1][k1]].bounding_rect.intersects_spec(
            draws[sources[b2][k2]].bounding_rect,
        ) ==> b1 < b2 || (b1 == b2 && k1 < k2 && !batches[b1].key.spec_is_multi_pass())
}

/// Paint order: the blended batches that `build` makes draw any two
/// overlapping primitives in the order of the input.
pub proof fn lemma_painter_order(draws: Seq<PrimitiveDraw>, n: nat)
    requires
        n <= draws.len(),
    ensures
        painter_ordered(
            BatchListView::build(draws, n).alpha,
            build_sources(draws, n).alpha,
            draws,
        ),
    decreases n,
{
    if n > 0 {
        lemma_painter_order(draws, (n - 1) as nat);
        lemma_batches_traced(draws, (n - 1) as nat);
        lemma_batches_traced(draws, n);
        let view = BatchListView::build(draws, (n - 1) as nat);
        let before = build_sources(draws, (n - 1) as nat).alpha;
        let after = build_sources(draws, n).alpha;
        let batches = BatchListView::build(draws, n).alpha;
        let draw = draws[n - 1];
        if !draw.key.spec_is_opaque() {
            let slot = alpha_slot(view.alpha, draw.key, draw.bounding_rect, view.alpha.len() - 1);
            lemma_alpha_slot(view.alpha, draw.key, draw.bounding_rect, view.alpha.len() - 1);
            assert forall|b1: int, k1: int, b2: int, k2: int|
                0 <= b1 < after.len() && 0 <= k1 < after[b1].len() && 0 <= b2 < after.len() && 0
                    <= k2 < after[b2].len() && #[trigger] after[b1][k1] < #[trigger] after[b2][k2]
                    && draws[after[b1][k1]].bounding_rect.intersects_spec(
                    draws[after[b2][k2]].bounding_rect,
                ) implies b1 < b2 || (b1 == b2 && k1 < k2 && !batches[b1].key.spec_is_multi_pass()) by {
                let old1 = b1 < before.len() && k1 < before[b1].len();
                let old2 = b2 < before.len() && k2 < before[b2].len();
                assert(0 <= after[b1][k1] < n);
                assert(0 <= after[b2][k2] < n);
                if old1 {
                    assert(after[b1][k1] == before[b1][k1]);
                    assert(0 <= before[b1][k1] < n - 1);
                    assert(batches[b1].key == view.alpha[b1].key);
                } else {
                    assert(after[b1][k1] == n - 1);
                }
                if old2 {
                    assert(after[b2][k2] == before[b2][k2]);
                } else {
                    assert(after[b2][k2] == n - 1);
                }
                if old1 && !old2 {
                    if slot >= 0 {
                        assert(b2 == slot);
                        assert(draws[before[b1][k1]].bounding_rect == view.alpha[b1].item_rects[k1]);
                        assert(view.alpha[b1].item_rects[k1].intersects_spec(draw.bounding_rect));
                        assert(any_intersects(view.alpha[b1].item_rects, draw.bounding_rect));
                        if b1 > slot {
                            assert(!any_intersects(view.alpha[b1].item_rects, draw.bounding_rect));
                        }
                    }
                }
            }
        }
    }
}

/// Whether the pixel in column `x` and row `y` lies in `rect`.
pub open spec fn covers(rect: DeviceIntRect, x: int, y: int) -> bool {
    rect.origin.x <= x < rect.max_x() && rect.origin.y <= y < rect.max_y()
}

/// Paint order, pixel by pixel: of two blended primitives that cover the
/// same pixel, the one that comes first in the input reaches the pixel
/// first. It sits in an earlier batch, or earlier in the same batch, and
/// no batch that is drawn in several passes holds two primitives that
/// cover the same pixel.
pub proof fn lemma_pixel_paint_order(
    draws: Seq<PrimitiveDraw>,
    n: nat,
    x: int,
    y: int,
    b1: int,
    k1: int,
    b2: int,
    k2: int,
)
    requires
        n <= draws.len(),
        0 <= b1 < build_sources(draws, n).alpha.len(),
        0 <= k1 < build_sources(draws, n).alpha[b1].len(),
        0 <= b2 < build_sources(draws, n).alpha.len(),
        0 <= k2 < build_sources(draws, n).alpha[b2].len(),
        build_sources(draws, n).alpha[b1][k1] < build_sources(draws, n).alpha[b2][k2],
        covers(draws[build_sources(draws, n).alpha[b1][k1]].bounding_rect, x, y),
        covers(draws[build_sources(draws, n).alpha[b2][k2]].bounding_rect, x, y),
    ensures
        b1 < b2 || (b1 == b2 && k1 < k2 && !BatchListView::build(
            draws,
            n,
        ).alpha[b1].key.spec_is_multi_pass()),
{
    lemma_painter_order(draws, n);
    let sources = build_sources(draws, n).alpha;
    assert(draws[sources[b1][k1]].bounding_rect.intersects_spec(
        draws[sources[b2][k2]].bounding_rect,
    ));
}

impl BatchSources {
    /// The sources of the opaque batches, or of the blended ones.
    pub open spec fn list(self, opaque: bool) -> Seq<Seq<int>> {
        if opaque {
            self.opaque
        } else {
            self.alpha
        }
    }
}

/// Some place of `sources` holds primitive `i`.
pub open spec fn holds_source(sources: Seq<Seq<int>>, i: int) -> bool {
    exists|b: int, p: int|
        0 <= b < sources.len() && 0 <= p < sources[b].len() && #[trigger] sources[b][p] == i
}

/// Every primitive is drawn: each of the first `n` primitives is the
/// source of an instance of a batch of its list.
pub proof fn lemma_every_primitive_batched(draws: Seq<PrimitiveDraw>, n: nat, i: int)
    requires
        n <= draws.len(),
        0 <= i < n,
    ensures
        holds_source(build_sources(draws, n).list(draws[i].key.spec_is_opaque()), i),
    decreases n,
{
    let view = BatchListView::build(draws, (n - 1) as nat);
    let before = build_sources(draws, (n - 1) as nat);
    let after = build_sources(draws, n);
    let draw = draws[n - 1];
    let slot = view.slot_for(draw);
    let opaque = draws[i].key.spec_is_opaque();
    lemma_batches_traced(draws, (n - 1) as nat);
    if draw.key.spec_is_opaque() {
        lemma_opaque_slot(view.opaque, draw.key, view.opaque.len() - 1);
    } else {
        lemma_alpha_slot(view.alpha, draw.key, draw.bounding_rect, view.alpha.len() - 1);
    }
    let now = after.list(opaque);
    if i < n - 1 {
        lemma_every_primitive_batched(draws, (n - 1) as nat, i);
        let prev = before.list(opaque);
        let (b, p) = choose|b: int, p: int|
            0 <= b < prev.len() && 0 <= p < prev[b].len() && #[trigger] prev[b][p] == i;
        assert(0 <= b < now.len() && 0 <= p < now[b].len() && now[b][p] == i);
    } else {
        let prev = before.list(opaque);
        assert(now == with_source(prev, slot, n - 1));
        if slot < 0 {
            let b = now.len() - 1;
            assert(0 <= b < now.len() && 0 <= 0 < now[b].len() && now[b][0] == i);
        } else {
            let p = now[slot].len() - 1;
            assert(0 <= slot < now.len() && 0 <= p < now[slot].len() && now[slot][p] == i);
        }
    }
}

/// No primitive is drawn twice: two instances of the batches of one list
/// with the same source are the same instance.
pub proof fn lemma_no_primitive_batched_twice(draws: Seq<PrimitiveDraw>, n: nat)
    requires
        n <= draws.len(),
    ensures
        sources_distinct(build_sources(draws, n).alpha),
        sources_distinct(build_sources(draws, n).opaque),
    decreases n,
{
    if n > 0 {
        lemma_no_primitive_batched_twice(draws, (n - 1) as nat);
        lemma_batches_traced(draws, (n - 1) as nat);
        let view = BatchListView::build(draws, (n - 1) as nat);
        let before = build_sources(draws, (n - 1) as nat);
        let draw = draws[n - 1];
        let slot = view.slot_for(draw);
        if draw.key.spec_is_opaque() {
            lemma_opaque_slot(view.opaque, draw.key, view.opaque.len() - 1);
            lemma_with_source_distinct(before.opaque, slot, n - 1);
        } else {
            lemma_alpha_slot(view.alpha, draw.key, draw.bounding_rect, view.alpha.len() - 1);
            lemma_with_source_distinct(before.alpha, slot, n - 1);
        }
    }
}

/// No two places of `sources` hold the same primitive.
pub open spec fn sources_distinct(sources: Seq<Seq<int>>) -> bool {
    forall|b1: int, k1: int, b2: int, k2: int|
        0 <= b1 < sources.len() && 0 <= k1 < sources[b1].len() && 0 <= b2 < sources.len() && 0
            <= k2 < sources[b2].len() && #[trigger] sources[b1][k1] == #[trigger] sources[b2][k2]
            ==> b1 == b2 && k1 == k2
}

/// Adding a primitive that is later than every source keeps the sources
/// distinct.
pub proof fn lemma_with_source_distinct(sources: Seq<Seq<int>>, slot: int, i: int)
    requires
        sources_distinct(sources),
        slot < sources.len(),
        forall|b: int, p: int|
            0 <= b < sources.len() && 0 <= p < sources[b].len() ==> #[trigger] sources[b][p] < i,
    ensures
        sources_distinct(with_source(sources, slot, i)),
{
    let after = with_source(sources, slot, i);
    assert forall|b1: int, k1: int, b2: int, k2: int|
        0 <= b1 < after.len() && 0 <= k1 < after[b1].len() && 0 <= b2 < after.len() && 0 <= k2
            < after[b2].len() && #[trigger] after[b1][k1] == #[trigger] after[b2][k2] implies b1
        == b2 && k1 == k2 by {
        let old1 = b1 < sources.len() && k1 < sources[b1].len();
        let old2 = b2 < sources.len() && k2 < sources[b2].len();
        if old1 {
            assert(after[b1][k1] == sources[b1][k1]);
        } else {
            assert(after[b1][k1] == i);
        }
        if old2 {
            assert(after[b2][k2] == sources[b2][k2]);
        } else {
            assert(after[b2][k2] == i);
        }
    }
}

} // verus!
