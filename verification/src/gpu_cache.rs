//! The GPU cache: a row-major store of four-number blocks that is mirrored
//! on the CPU and brought to the device once per frame.

use vstd::prelude::*;
use crate::api::F32Bits;
use crate::device::{Device, DeviceCommand, DeviceView, ScatterPoint, ShaderId, UploadData, UploadDataView};
use crate::gpu_types::GpuCacheAddress;
use crate::units::{DeviceUintPoint, DeviceUintRect, DeviceUintSize};

verus! {

/// The number of blocks in one row of the cache texture.
pub const MAX_VERTEX_TEXTURE_WIDTH: usize = 1024;



/// One block of the cache: four single-precision numbers.
#[derive(Clone, Copy, Debug, PartialEq, Eq)]
pub struct GpuBlockData {
    pub data: [F32Bits; 4],
}

impl GpuBlockData {
    /// The block of four zeros, which fills rows that nothing wrote yet.
    pub open spec fn spec_empty() -> GpuBlockData {
        GpuBlockData { data: [F32Bits(0), F32Bits(0), F32Bits(0), F32Bits(0)] }
    }

    /// The block of four zeros, which fills rows that nothing wrote yet.
    pub fn empty() -> (b: GpuBlockData)
        ensures
            b == Self::spec_empty(),
    {
        GpuBlockData { data: [F32Bits(0), F32Bits(0), F32Bits(0), F32Bits(0)] }
    }
}

/// One instruction of an update list: copy `block_count` blocks, starting
/// at `block_index` of the list's payload, to `address` and the columns
/// after it.
#[derive(Clone, Copy, Debug, PartialEq, Eq)]
pub enum GpuCacheUpdate {
    Copy { block_index: usize, block_count: usize, address: GpuCacheAddress },
}

/// The changes to the cache that one frame asks for.
#[derive(Debug, PartialEq, Eq)]
pub struct GpuCacheUpdateList {
    /// The number of rows that the cache needs after the updates.
    pub height: u32,
    /// Copy instructions, applied in order.
    pub updates: Vec<GpuCacheUpdate>,
    /// The payload that the instructions copy from.
    pub blocks: Vec<GpuBlockData>,
}


impl GpuCacheUpdate {
    /// The row that the instruction writes to.
    pub open spec fn row(self) -> int {
        match self {
            GpuCacheUpdate::Copy { address, .. } => address.v as int,
        }
    }

    /// The position, in the row-major mirror, of the first block written.
    pub open spec fn start(self) -> int {
        match self {
            GpuCacheUpdate::Copy { address, .. } => address.v * MAX_VERTEX_TEXTURE_WIDTH
                + address.u,
        }
    }

    /// The number of blocks written.
    pub open spec fn count(self) -> int {
        match self {
            GpuCacheUpdate::Copy { block_count, .. } => block_count as int,
        }
    }

    /// The position, in the payload, of the first block read.
    pub open spec fn source(self) -> int {
        match self {
            GpuCacheUpdate::Copy { block_index, .. } => block_index as int,
        }
    }

    /// The instruction reads inside a payload of `payload_len` blocks,
    /// writes inside one row, and that row is below `height`.
    pub open spec fn wf(self, payload_len: int, height: int) -> bool {
        match self {
            GpuCacheUpdate::Copy { block_index, block_count, address } => {
                &&& block_index + block_count <= payload_len
                &&& address.u + block_count <= MAX_VERTEX_TEXTURE_WIDTH
                &&& address.v < height
            },
        }
    }
}

/// What a [`GpuCacheUpdateList`] holds, as mathematical values.
pub struct UpdateListView {
    pub height: u32,
    pub updates: Seq<GpuCacheUpdate>,
    pub blocks: Seq<GpuBlockData>,
}

impl View for GpuCacheUpdateList {
    type V = UpdateListView;

    open spec fn view(&self) -> UpdateListView {
        UpdateListView { height: self.height, updates: self.updates@, blocks: self.blocks@ }
    }
}

impl UpdateListView {
    /// Every instruction is well formed for this list's payload and height.
    pub open spec fn wf(self) -> bool {
        forall|i: int|
            0 <= i < self.updates.len() ==> (#[trigger] self.updates[i]).wf(
                self.blocks.len() as int,
                self.height as int,
            )
    }
}

impl GpuCacheUpdateList {
    /// Every instruction is well formed for this list's payload and height.
    pub open spec fn wf(&self) -> bool {
        self@.wf()
    }
}

/// The views of a sequence of update lists.
pub open spec fn list_views(lists: Seq<GpuCacheUpdateList>) -> Seq<UpdateListView> {
    lists.map_values(|l: GpuCacheUpdateList| l@)
}

/// The CPU mirror of the cache as mathematical values: one dirty flag per
/// row, and the blocks of all rows, row after row.
pub struct CacheMirror {
    pub rows: Seq<bool>,
    pub blocks: Seq<GpuBlockData>,
}

impl CacheMirror {
    /// Every row has its full width of blocks.
    pub open spec fn wf(self) -> bool {
        self.blocks.len() == self.rows.len() * MAX_VERTEX_TEXTURE_WIDTH
    }

    /// The mirror of a cache that nothing was written to.
    pub open spec fn empty() -> CacheMirror {
        CacheMirror { rows: Seq::empty(), blocks: Seq::empty() }
    }

    /// The number of rows after `update`: growth is by appending only.
    pub open spec fn row_count_after(self, update: GpuCacheUpdate) -> int {
        if update.row() < self.rows.len() {
            self.rows.len() as int
        } else {
            update.row() + 1
        }
    }

    /// The mirror after one copy instruction: rows are appended, clean and
    /// filled with empty blocks, until the target row exists; the target row
    /// becomes dirty; the payload blocks replace the blocks at the target
    /// address; every other block and flag stays.
    pub open spec fn apply(self, update: GpuCacheUpdate, payload: Seq<GpuBlockData>) -> CacheMirror {
        let n = self.row_count_after(update);
        CacheMirror {
            rows: Seq::new(
                n as nat,
                |i: int| i == update.row() || (i < self.rows.len() && self.rows[i]),
            ),
            blocks: Seq::new(
                (n * MAX_VERTEX_TEXTURE_WIDTH) as nat,
                |j: int|
                    if update.start() <= j < update.start() + update.count() {
                        payload[update.source() + (j - update.start())]
                    } else if j < self.blocks.len() {
                        self.blocks[j]
                    } else {
                        GpuBlockData::spec_empty()
                    },
            ),
        }
    }

    /// The mirror after the first `n` instructions of a list, in order.
    pub open spec fn apply_prefix(
        self,
        updates: Seq<GpuCacheUpdate>,
        payload: Seq<GpuBlockData>,
        n: nat,
    ) -> CacheMirror
        decreases n,
    {
        if n == 0 {
            self
        } else {
            self.apply_prefix(updates, payload, (n - 1) as nat).apply(updates[n - 1], payload)
        }
    }

    /// The mirror after a whole update list.
    pub open spec fn apply_list(self, list: UpdateListView) -> CacheMirror {
        self.apply_prefix(list.updates, list.blocks, list.updates.len())
    }

    /// The mirror after the first `n` lists of a frame, in order.
    pub open spec fn apply_lists(self, lists: Seq<UpdateListView>, n: nat) -> CacheMirror
        decreases n,
    {
        if n == 0 {
            self
        } else {
            self.apply_lists(lists, (n - 1) as nat).apply_list(lists[n - 1])
        }
    }

    /// The number of dirty rows.
    pub open spec fn dirty_count(self) -> nat {
        count_true(self.rows)
    }

    /// The same blocks with every row clean.
    pub open spec fn cleaned(self) -> CacheMirror {
        CacheMirror { rows: Seq::new(self.rows.len(), |i: int| false), blocks: self.blocks }
    }

    /// The blocks of row `row`.
    pub open spec fn row_blocks(self, row: int) -> Seq<GpuBlockData> {
        self.blocks.subrange(
            row * MAX_VERTEX_TEXTURE_WIDTH,
            (row + 1) * MAX_VERTEX_TEXTURE_WIDTH,
        )
    }
}

/// The number of `true` entries of `flags`.
pub open spec fn count_true(flags: Seq<bool>) -> nat
    decreases flags.len(),
{
    if flags.len() == 0 {
        0
    } else {
        count_true(flags.drop_last()) + if flags.last() {
            1nat
        } else {
            0nat
        }
    }
}

/// The part of the cache texture that row `row` covers.
pub open spec fn row_rect(row: int) -> DeviceUintRect {
    DeviceUintRect {
        origin: DeviceUintPoint { x: 0, y: row as u32 },
        size: DeviceUintSize { width: MAX_VERTEX_TEXTURE_WIDTH as u32, height: 1 },
    }
}

/// The device after the dirty rows among the first `n` rows of `mirror`
/// were uploaded, lowest row first: each takes one data block, the row's
/// full width, and one command.
pub open spec fn flush_rows(d: DeviceView, mirror: CacheMirror, n: nat) -> DeviceView
    decreases n,
{
    if n == 0 {
        d
    } else {
        let before = flush_rows(d, mirror, (n - 1) as nat);
        if mirror.rows[n - 1] {
            before.upload(UploadDataView::GpuBlocks(mirror.row_blocks(n - 1))).emit(
                DeviceCommand::UpdateResourceCache {
                    rect: row_rect(n - 1),
                    data: before.next_buffer(),
                },
            )
        } else {
            before
        }
    }
}

/// The points that scatter the first `n` instructions of a list: for each
/// copied block one point at its destination texel, in the order of the
/// instructions and of the blocks within each.
pub open spec fn scatter_points(
    updates: Seq<GpuCacheUpdate>,
    payload: Seq<GpuBlockData>,
    n: nat,
) -> Seq<ScatterPoint>
    decreases n,
{
    if n == 0 {
        Seq::empty()
    } else {
        let update = updates[n - 1];
        scatter_points(updates, payload, (n - 1) as nat) + Seq::new(
            update.count() as nat,
            |i: int|
                ScatterPoint {
                    x: (update.start() - update.row() * MAX_VERTEX_TEXTURE_WIDTH + i) as usize,
                    y: update.row() as usize,
                    value: payload[update.source() + i],
                },
        )
    }
}

/// What is known of one row of the cache texture.
#[derive(Clone, Copy, Debug, PartialEq, Eq, Structural)]
pub struct CacheRow {
    /// The row changed since it was last brought to the device.
    pub is_dirty: bool,
}

impl CacheRow {
    /// A clean row.
    pub fn new() -> (row: CacheRow)
        ensures
            !row.is_dirty,
    {
        CacheRow { is_dirty: false }
    }
}

/// How the CPU and device copies of the cache are kept in step.
#[derive(Debug, PartialEq, Eq)]
pub enum CacheBus {
    /// The CPU keeps a mirror and re-sends every row that changed.
    PixelBuffer {
        /// One record per mirrored row.
        rows: Vec<CacheRow>,
        /// The mirrored blocks, row after row.
        cpu_blocks: Vec<GpuBlockData>,
    },
    /// Every changed block is drawn as one point into its texel.
    Scatter {
        /// The points gathered since the updates of this frame began.
        points: Vec<ScatterPoint>,
    },
}

/// The renderer's side of the GPU cache.
#[derive(Debug, PartialEq, Eq)]
pub struct CacheTexture {
    pub bus: CacheBus,
    /// The number of rows of the device texture.
    pub height: u32,
}

/// The dirty flags of `rows`.
pub open spec fn dirty_flags(rows: Seq<CacheRow>) -> Seq<bool> {
    rows.map_values(|r: CacheRow| r.is_dirty)
}

impl CacheTexture {
    /// The CPU mirror; empty when blocks are scattered.
    pub open spec fn mirror(&self) -> CacheMirror {
        match self.bus {
            CacheBus::PixelBuffer { rows, cpu_blocks } => CacheMirror {
                rows: dirty_flags(rows@),
                blocks: cpu_blocks@,
            },
            CacheBus::Scatter { .. } => CacheMirror::empty(),
        }
    }

    /// The points waiting to be drawn; empty when rows are mirrored.
    pub open spec fn pending_points(&self) -> Seq<ScatterPoint> {
        match self.bus {
            CacheBus::PixelBuffer { .. } => Seq::empty(),
            CacheBus::Scatter { points } => points@,
        }
    }

    /// Blocks are scattered rather than mirrored.
    pub open spec fn is_scatter(&self) -> bool {
        self.bus is Scatter
    }

    /// The mirror holds whole rows, and no more rows than a cache address
    /// can name.
    pub open spec fn wf(&self) -> bool {
        self.mirror().wf() && self.mirror().rows.len() <= 0x1_0000
    }

    /// Whether the mirror holds whole rows, and no more rows than a cache
    /// address can name.
    pub fn is_well_formed(&self) -> (b: bool)
        ensures
            b == self.wf(),
    {
        match &self.bus {
            CacheBus::PixelBuffer { rows, cpu_blocks } => {
                rows.len() <= 0x1_0000 && cpu_blocks.len() == rows.len() * MAX_VERTEX_TEXTURE_WIDTH
            },
            CacheBus::Scatter { .. } => true,
        }
    }

    /// Ends the cache. Its texture belongs to the device, which records
    /// nothing for it.
    pub fn deinit(self, device: &mut Device)
        ensures
            final(device)@ == old(device)@,
    {
    }

    /// A cache with no rows and a device texture of height zero.
    pub fn new(use_scatter: bool) -> (cache: CacheTexture)
        ensures
            cache.wf(),
            cache.is_scatter() == use_scatter,
            cache.mirror() == CacheMirror::empty(),
            cache.pending_points().len() == 0,
            cache.height == 0,
    {
        let bus = if use_scatter {
            CacheBus::Scatter { points: Vec::new() }
        } else {
            CacheBus::PixelBuffer { rows: Vec::new(), cpu_blocks: Vec::new() }
        };
        let cache = CacheTexture { bus, height: 0 };
        assert(cache.mirror().rows =~= CacheMirror::empty().rows);
        assert(cache.mirror().blocks =~= CacheMirror::empty().blocks);
        cache
    }

    /// The number of rows of the device texture.
    pub fn get_height(&self) -> (h: u32)
        ensures
            h == self.height,
    {
        self.height
    }
}


/// Appends clean rows of empty blocks until row `row` exists.
fn grow_rows(rows: &mut Vec<CacheRow>, cpu_blocks: &mut Vec<GpuBlockData>, row: usize)
    requires
        old(cpu_blocks)@.len() == old(rows)@.len() * MAX_VERTEX_TEXTURE_WIDTH,
        row <= u16::MAX,
    ensures
        final(rows)@.len() == if row < old(rows)@.len() {
            old(rows)@.len()
        } else {
            (row + 1) as nat
        },
        final(cpu_blocks)@.len() == final(rows)@.len() * MAX_VERTEX_TEXTURE_WIDTH,
        forall|i: int| 0 <= i < old(rows)@.len() ==> final(rows)@[i] == old(rows)@[i],
        forall|i: int| old(rows)@.len() <= i < final(rows)@.len() ==> !final(rows)@[i].is_dirty,
        forall|j: int| 0 <= j < old(cpu_blocks)@.len() ==> final(cpu_blocks)@[j] == old(cpu_blocks)@[j],
        forall|j: int|
            old(cpu_blocks)@.len() <= j < final(cpu_blocks)@.len() ==> final(cpu_blocks)@[j]
                == GpuBlockData::spec_empty(),
{
    while rows.len() <= row
        invariant
            cpu_blocks@.len() == rows@.len() * MAX_VERTEX_TEXTURE_WIDTH,
            row <= u16::MAX,
            old(rows)@.len() <= rows@.len(),
            old(cpu_blocks)@.len() <= cpu_blocks@.len(),
            rows@.len() <= row + 1 || rows@.len() == old(rows)@.len(),
            forall|i: int| 0 <= i < old(rows)@.len() ==> rows@[i] == old(rows)@[i],
            forall|i: int| old(rows)@.len() <= i < rows@.len() ==> !rows@[i].is_dirty,
            forall|j: int| 0 <= j < old(cpu_blocks)@.len() ==> cpu_blocks@[j] == old(cpu_blocks)@[j],
            forall|j: int|
                old(cpu_blocks)@.len() <= j < cpu_blocks@.len() ==> cpu_blocks@[j]
                    == GpuBlockData::spec_empty(),
        decreases row + 1 - rows@.len(),
    {
        rows.push(CacheRow::new());
        let ghost base = cpu_blocks@.len();
        let mut k: usize = 0;
        while k < MAX_VERTEX_TEXTURE_WIDTH
            invariant
                k <= MAX_VERTEX_TEXTURE_WIDTH,
                cpu_blocks@.len() == base + k,
                old(cpu_blocks)@.len() <= base,
                forall|j: int| 0 <= j < old(cpu_blocks)@.len() ==> cpu_blocks@[j] == old(cpu_blocks)@[j],
                forall|j: int|
                    old(cpu_blocks)@.len() <= j < cpu_blocks@.len() ==> cpu_blocks@[j]
                        == GpuBlockData::spec_empty(),
            decreases MAX_VERTEX_TEXTURE_WIDTH - k,
        {
            cpu_blocks.push(GpuBlockData::empty());
            k += 1;
        }
    }
}

/// Applies one copy instruction to the mirror.
fn apply_update(
    rows: &mut Vec<CacheRow>,
    cpu_blocks: &mut Vec<GpuBlockData>,
    payload: &Vec<GpuBlockData>,
    update: GpuCacheUpdate,
)
    requires
        old(cpu_blocks)@.len() == old(rows)@.len() * MAX_VERTEX_TEXTURE_WIDTH,
        update.wf(payload@.len() as int, u32::MAX as int),
    ensures
        final(cpu_blocks)@.len() == final(rows)@.len() * MAX_VERTEX_TEXTURE_WIDTH,
        (CacheMirror { rows: dirty_flags(final(rows)@), blocks: final(cpu_blocks)@ })
            == (CacheMirror { rows: dirty_flags(old(rows)@), blocks: old(cpu_blocks)@ }).apply(
            update,
            payload@,
        ),
{
    let GpuCacheUpdate::Copy { block_index, block_count, address } = update;
    let row = address.v as usize;
    grow_rows(rows, cpu_blocks, row);
    rows[row] = CacheRow { is_dirty: true };
    let block_offset = row * MAX_VERTEX_TEXTURE_WIDTH + address.u as usize;
    let ghost grown = cpu_blocks@;
    let payload_len = payload.len();
    let mirror_len = cpu_blocks.len();
    let mut i: usize = 0;
    while i < block_count
        invariant
            i <= block_count,
            payload_len == payload@.len(),
            mirror_len == cpu_blocks@.len(),
            block_index + block_count <= payload_len,
            block_offset + block_count <= mirror_len,
            cpu_blocks@.len() == grown.len(),
            forall|j: int|
                0 <= j < cpu_blocks@.len() ==> cpu_blocks@[j] == if block_offset <= j
                    < block_offset + i {
                    payload@[block_index + (j - block_offset)]
                } else {
                    grown[j]
                },
        decreases block_count - i,
    {
        cpu_blocks[block_offset + i] = payload[block_index + i];
        i += 1;
    }
    proof {
        let before = CacheMirror { rows: dirty_flags(old(rows)@), blocks: old(cpu_blocks)@ };
        let after = CacheMirror { rows: dirty_flags(rows@), blocks: cpu_blocks@ };
        let expected = before.apply(update, payload@);
        assert(after.rows =~= expected.rows);
        assert(after.blocks =~= expected.blocks);
    }
}

impl CacheTexture {
    /// Makes the device texture tall enough for the updates of this frame.
    /// Must run once before the frame's first `update`. When the texture
    /// grows, its old contents are lost, so every mirrored row becomes
    /// dirty; points gathered for scattering are dropped.
    pub fn prepare_for_updates(&mut self, device: &mut Device, max_height: u32)
        requires
            old(self).wf(),
        ensures
            final(self).wf(),
            final(self)@ == old(self)@.prepare(max_height),
            final(device)@ == old(self)@.prepare_device(old(device)@, max_height),
            final(self).is_scatter() == old(self).is_scatter(),
            final(self).height == if max_height > old(self).height {
                max_height
            } else {
                old(self).height
            },
            final(self).pending_points().len() == 0,
            final(self).mirror().blocks == old(self).mirror().blocks,
            final(self).mirror().rows.len() == old(self).mirror().rows.len(),
            forall|i: int|
                0 <= i < old(self).mirror().rows.len() ==> final(self).mirror().rows[i] == (
                max_height > old(self).height || old(self).mirror().rows[i]),
            final(device)@ == if max_height > old(self).height {
                old(device)@.emit(
                    DeviceCommand::ResizeGpuCache {
                        width: MAX_VERTEX_TEXTURE_WIDTH as u32,
                        height: max_height,
                    },
                )
            } else {
                old(device)@
            },
    {
        let grows = max_height > self.height;
        if grows {
            device.emit(
                DeviceCommand::ResizeGpuCache {
                    width: MAX_VERTEX_TEXTURE_WIDTH as u32,
                    height: max_height,
                },
            );
            self.height = max_height;
        }
        match &mut self.bus {
            CacheBus::PixelBuffer { rows, cpu_blocks } => {
                if grows {
                    let ghost before = rows@;
                    let mut i: usize = 0;
                    while i < rows.len()
                        invariant
                            i <= rows@.len(),
                            rows@.len() == before.len(),
                            forall|k: int| 0 <= k < i ==> rows@[k].is_dirty,
                            forall|k: int| i <= k < rows@.len() ==> rows@[k] == before[k],
                        decreases rows@.len() - i,
                    {
                        rows[i] = CacheRow { is_dirty: true };
                        i += 1;
                    }
                }
            },
            CacheBus::Scatter { points } => {
                points.clear();
            },
        }
        proof {
            lemma_prepare_view(*old(self), *self, max_height);
        }
    }

    /// Applies an update list. With a mirror, the result is the mirror after
    /// every instruction of the list in order; in particular rows are only
    /// ever appended. When scattering, the list's points join those waiting
    /// to be drawn.
    pub fn update(&mut self, updates: &GpuCacheUpdateList)
        requires
            old(self).wf(),
            updates.wf(),
            updates.height <= old(self).height,
        ensures
            final(self).wf(),
            final(self)@ == old(self)@.update(updates@),
            final(self).height == old(self).height,
            final(self).is_scatter() == old(self).is_scatter(),
            !old(self).is_scatter() ==> final(self).mirror() == old(self).mirror().apply_list(
                updates@,
            ),
            final(self).mirror().rows.len() >= old(self).mirror().rows.len(),
            old(self).is_scatter() ==> final(self).pending_points() == old(self).pending_points()
                + scatter_points(updates.updates@, updates.blocks@, updates.updates@.len()),
    {
        match &mut self.bus {
            CacheBus::PixelBuffer { rows, cpu_blocks } => {
                let ghost start = CacheMirror { rows: dirty_flags(rows@), blocks: cpu_blocks@ };
                let mut n: usize = 0;
                while n < updates.updates.len()
                    invariant
                        n <= updates.updates@.len(),
                        updates.wf(),
                        cpu_blocks@.len() == rows@.len() * MAX_VERTEX_TEXTURE_WIDTH,
                        rows@.len() >= start.rows.len(),
                        rows@.len() <= 0x1_0000,
                        (CacheMirror { rows: dirty_flags(rows@), blocks: cpu_blocks@ })
                            == start.apply_prefix(updates.updates@, updates.blocks@, n as nat),
                    decreases updates.updates@.len() - n,
                {
                    let update = updates.updates[n];
                    assert(updates@.updates[n as int] == update);
                    assert(update.wf(updates.blocks@.len() as int, updates.height as int));
                    let ghost before = CacheMirror { rows: dirty_flags(rows@), blocks: cpu_blocks@ };
                    apply_update(rows, cpu_blocks, &updates.blocks, update);
                    assert(dirty_flags(rows@).len() == before.row_count_after(update));
                    n += 1;
                }
            },
            CacheBus::Scatter { points } => {
                let ghost start = points@;
                let mut n: usize = 0;
                while n < updates.updates.len()
                    invariant
                        n <= updates.updates@.len(),
                        updates.wf(),
                        points@ == start + scatter_points(
                            updates.updates@,
                            updates.blocks@,
                            n as nat,
                        ),
                    decreases updates.updates@.len() - n,
                {
                    let update = updates.updates[n];
                    assert(updates@.updates[n as int] == update);
                    assert(update.wf(updates.blocks@.len() as int, updates.height as int));
                    let GpuCacheUpdate::Copy { block_index, block_count, address } = update;
                    let ghost before = points@;
                    let payload_len = updates.blocks.len();
                    let mut i: usize = 0;
                    while i < block_count
                        invariant
                            i <= block_count,
                            payload_len == updates.blocks@.len(),
                            block_index + block_count <= payload_len,
                            update == (GpuCacheUpdate::Copy { block_index, block_count, address }),
                            update.wf(updates.blocks@.len() as int, updates.height as int),
                            points@.len() == before.len() + i,
                            forall|k: int| 0 <= k < before.len() ==> points@[k] == before[k],
                            forall|k: int|
                                before.len() <= k < points@.len() ==> points@[k] == (ScatterPoint {
                                    x: (address.u + (k - before.len())) as usize,
                                    y: address.v as usize,
                                    value: updates.blocks@[block_index + (k - before.len())],
                                }),
                        decreases block_count - i,
                    {
                        points.push(
                            ScatterPoint {
                                x: address.u as usize + i,
                                y: address.v as usize,
                                value: updates.blocks[block_index + i],
                            },
                        );
                        i += 1;
                    }
                    n += 1;
                    assert(points@ =~= before + Seq::new(
                        update.count() as nat,
                        |i: int|
                            ScatterPoint {
                                x: (update.start() - update.row() * MAX_VERTEX_TEXTURE_WIDTH
                                    + i) as usize,
                                y: update.row() as usize,
                                value: updates.blocks@[update.source() + i],
                            },
                    ));
                    assert(points@ =~= start + scatter_points(
                        updates.updates@,
                        updates.blocks@,
                        n as nat,
                    ));
                }
            },
        }
        proof {
            lemma_update_view(*old(self), *self, updates@);
        }
    }
}


/// The device after scattering `points`: blending and depth testing off,
/// the scatter program in place, and one draw of all the points.
pub open spec fn scatter_flush(d: DeviceView, points: Seq<ScatterPoint>) -> DeviceView {
    let ready = d.emit(DeviceCommand::DisableDepth).emit(
        DeviceCommand::SetBlend(false),
    ).create_program(ShaderId::GpuCacheUpdate);
    ready.upload(UploadDataView::ScatterPoints(points)).emit(
        DeviceCommand::DrawPoints { program: ShaderId::GpuCacheUpdate, points: ready.next_buffer() },
    )
}

impl CacheTexture {
    /// Brings the device copy up to date and returns the number of rows
    /// that were sent. With a mirror, every dirty row is uploaded at full
    /// width, lowest row first, and becomes clean; the blocks stay. When
    /// scattering, the waiting points are drawn in one call and no row is
    /// sent.
    pub fn flush(&mut self, device: &mut Device) -> (rows_dirty: usize)
        requires
            old(self).wf(),
        ensures
            final(self).wf(),
            final(self)@ == old(self)@.flush(),
            final(device)@ == old(self)@.flush_device(old(device)@),
            final(self).height == old(self).height,
            final(self).is_scatter() == old(self).is_scatter(),
            final(self).mirror() == old(self).mirror().cleaned(),
            final(self).pending_points().len() == 0,
            rows_dirty == old(self).mirror().dirty_count(),
            final(device)@ == if old(self).is_scatter() {
                scatter_flush(old(device)@, old(self).pending_points())
            } else {
                flush_rows(old(device)@, old(self).mirror(), old(self).mirror().rows.len())
            },
    {
        let count = match &mut self.bus {
            CacheBus::PixelBuffer { rows, cpu_blocks } => {
                let ghost start = CacheMirror { rows: dirty_flags(rows@), blocks: cpu_blocks@ };
                let mut rows_dirty: usize = 0;
                let mut row_index: usize = 0;
                while row_index < rows.len()
                    invariant
                        row_index <= rows@.len(),
                        rows@.len() == start.rows.len(),
                        rows@.len() <= 0x1_0000,
                        cpu_blocks@ == start.blocks,
                        start.wf(),
                        rows_dirty == count_true(start.rows.take(row_index as int)),
                        rows_dirty <= row_index,
                        forall|k: int| 0 <= k < row_index ==> !rows@[k].is_dirty,
                        forall|k: int|
                            row_index <= k < rows@.len() ==> rows@[k].is_dirty == start.rows[k],
                        device@ == flush_rows(old(device)@, start, row_index as nat),
                    decreases rows@.len() - row_index,
                {
                    proof {
                        let upto = start.rows.take(row_index as int + 1);
                        assert(upto.drop_last() =~= start.rows.take(row_index as int));
                        assert(upto.last() == start.rows[row_index as int]);
                    }
                    if rows[row_index].is_dirty {
                        let block_index = row_index * MAX_VERTEX_TEXTURE_WIDTH;
                        let mut data: Vec<GpuBlockData> = Vec::new();
                        let mut k: usize = 0;
                        while k < MAX_VERTEX_TEXTURE_WIDTH
                            invariant
                                k <= MAX_VERTEX_TEXTURE_WIDTH,
                                block_index == row_index * MAX_VERTEX_TEXTURE_WIDTH,
                                block_index + MAX_VERTEX_TEXTURE_WIDTH <= cpu_blocks@.len(),
                                data@.len() == k,
                                forall|j: int| 0 <= j < k ==> data@[j] == cpu_blocks@[block_index + j],
                            decreases MAX_VERTEX_TEXTURE_WIDTH - k,
                        {
                            data.push(cpu_blocks[block_index + k]);
                            k += 1;
                        }
                        assert(data@ =~= start.row_blocks(row_index as int));
                        let rect = DeviceUintRect::new(
                            DeviceUintPoint::new(0, row_index as u32),
                            DeviceUintSize::new(MAX_VERTEX_TEXTURE_WIDTH as u32, 1),
                        );
                        device.update_resource_cache(rect, data);
                        rows[row_index] = CacheRow { is_dirty: false };
                        rows_dirty += 1;
                    }
                    row_index += 1;
                }
                proof {
                    assert(start.rows.take(rows@.len() as int) =~= start.rows);
                    assert(dirty_flags(rows@) =~= start.cleaned().rows);
                }
                rows_dirty
            },
            CacheBus::Scatter { points } => {
                let mut taken: Vec<ScatterPoint> = Vec::new();
                std::mem::swap(points, &mut taken);
                device.emit(DeviceCommand::DisableDepth);
                device.emit(DeviceCommand::SetBlend(false));
                device.create_program(ShaderId::GpuCacheUpdate);
                let id = device.upload(UploadData::ScatterPoints(taken));
                device.emit(
                    DeviceCommand::DrawPoints { program: ShaderId::GpuCacheUpdate, points: id },
                );
                proof {
                    assert(CacheMirror::empty().cleaned().rows =~= CacheMirror::empty().rows);
                    reveal_with_fuel(count_true, 2);
                }
                0
            },
        };
        proof {
            lemma_flush_view(*old(self), *self);
        }
        count
    }
}

/// Applying a copy instruction never removes a row, makes the target row
/// exist and dirty, and keeps the mirror made of whole rows.
pub proof fn lemma_apply_grows(mirror: CacheMirror, update: GpuCacheUpdate, payload: Seq<GpuBlockData>)
    requires
        mirror.wf(),
    ensures
        mirror.apply(update, payload).wf(),
        mirror.apply(update, payload).rows.len() >= mirror.rows.len(),
        mirror.apply(update, payload).rows.len() > update.row(),
        mirror.apply(update, payload).rows[update.row()],
{
}

/// Within one update list the row count never decreases: after `j`
/// instructions the mirror has at least the rows it had after `i <= j`.
pub proof fn lemma_prefix_rows_monotonic(
    mirror: CacheMirror,
    updates: Seq<GpuCacheUpdate>,
    payload: Seq<GpuBlockData>,
    i: nat,
    j: nat,
)
    requires
        i <= j,
    ensures
        mirror.apply_prefix(updates, payload, i).rows.len() <= mirror.apply_prefix(
            updates,
            payload,
            j,
        ).rows.len(),
    decreases j,
{
    if i < j {
        lemma_prefix_rows_monotonic(mirror, updates, payload, i, (j - 1) as nat);
    }
}

/// Across the update lists of a frame the row count never decreases: after
/// `j` lists the mirror has at least the rows it had after `i <= j` lists.
pub proof fn lemma_rows_monotonic(mirror: CacheMirror, lists: Seq<UpdateListView>, i: nat, j: nat)
    requires
        i <= j,
    ensures
        mirror.apply_lists(lists, i).rows.len() <= mirror.apply_lists(lists, j).rows.len(),
    decreases j,
{
    if i < j {
        lemma_rows_monotonic(mirror, lists, i, (j - 1) as nat);
        let before = mirror.apply_lists(lists, (j - 1) as nat);
        let list = lists[j - 1];
        lemma_prefix_rows_monotonic(before, list.updates, list.blocks, 0, list.updates.len());
    }
}

/// A copy instruction leaves every other row in its place: a row that is
/// not its target keeps its flag, and, if the instruction writes inside one
/// row, its blocks. A row that was dirty stays dirty.
pub proof fn lemma_apply_keeps_rows(
    mirror: CacheMirror,
    update: GpuCacheUpdate,
    payload: Seq<GpuBlockData>,
    row: int,
)
    requires
        mirror.wf(),
        0 <= row < mirror.rows.len(),
    ensures
        mirror.rows[row] ==> mirror.apply(update, payload).rows[row],
        row != update.row() ==> mirror.apply(update, payload).rows[row] == mirror.rows[row],
        row != update.row() && update.start() + update.count() <= (update.row() + 1)
            * MAX_VERTEX_TEXTURE_WIDTH ==> mirror.apply(update, payload).row_blocks(row)
            == mirror.row_blocks(row),
{
    let after = mirror.apply(update, payload);
    if row != update.row() && update.start() + update.count() <= (update.row() + 1)
        * MAX_VERTEX_TEXTURE_WIDTH {
        assert(update.start() >= update.row() * MAX_VERTEX_TEXTURE_WIDTH);
        assert forall|k: int| 0 <= k < MAX_VERTEX_TEXTURE_WIDTH implies after.row_blocks(row)[k]
            == mirror.row_blocks(row)[k] by {
            let j = row * MAX_VERTEX_TEXTURE_WIDTH + k;
            assert(!(update.start() <= j < update.start() + update.count()));
            assert(j < mirror.blocks.len());
        }
        assert(after.row_blocks(row) =~= mirror.row_blocks(row));
    }
}

/// Within one update list rows are only appended: after `j` instructions
/// every row that was there after `i <= j` is still there, a row that was
/// dirty is still dirty, and the mirror is still made of whole rows.
pub proof fn lemma_prefix_rows_stay(
    mirror: CacheMirror,
    updates: Seq<GpuCacheUpdate>,
    payload: Seq<GpuBlockData>,
    i: nat,
    j: nat,
)
    requires
        mirror.wf(),
        i <= j,
    ensures
        mirror.apply_prefix(updates, payload, j).wf(),
        mirror.apply_prefix(updates, payload, i).rows.len() <= mirror.apply_prefix(
            updates,
            payload,
            j,
        ).rows.len(),
        forall|row: int|
            0 <= row < mirror.apply_prefix(updates, payload, i).rows.len() && mirror.apply_prefix(
                updates,
                payload,
                i,
            ).rows[row] ==> #[trigger] mirror.apply_prefix(updates, payload, j).rows[row],
    decreases j,
{
    if j > 0 {
        lemma_prefix_rows_stay(mirror, updates, payload, 0, (j - 1) as nat);
        lemma_apply_grows(mirror.apply_prefix(updates, payload, (j - 1) as nat), updates[j - 1], payload);
    }
    if i < j {
        lemma_prefix_rows_stay(mirror, updates, payload, i, (j - 1) as nat);
    }
}

/// Across the update lists of a frame rows are only appended: after `j`
/// lists every row that was there after `i <= j` lists is still there, a
/// row that was dirty is still dirty, and the mirror is still made of
/// whole rows. No row is removed, cut short or cleaned before the flush.
pub proof fn lemma_rows_stay(mirror: CacheMirror, lists: Seq<UpdateListView>, i: nat, j: nat)
    requires
        mirror.wf(),
        i <= j,
    ensures
        mirror.apply_lists(lists, j).wf(),
        mirror.apply_lists(lists, i).rows.len() <= mirror.apply_lists(lists, j).rows.len(),
        forall|row: int|
            0 <= row < mirror.apply_lists(lists, i).rows.len() && mirror.apply_lists(
                lists,
                i,
            ).rows[row] ==> #[trigger] mirror.apply_lists(lists, j).rows[row],
    decreases j,
{
    if j > 0 {
        lemma_rows_stay(mirror, lists, 0, (j - 1) as nat);
        let before = mirror.apply_lists(lists, (j - 1) as nat);
        let list = lists[j - 1];
        lemma_prefix_rows_stay(before, list.updates, list.blocks, 0, list.updates.len());
    }
    if i < j {
        lemma_rows_stay(mirror, lists, i, (j - 1) as nat);
    }
}

/// After a flush no row is dirty: the cleaned mirror has the same rows and
/// blocks, and every flag is off.
pub proof fn lemma_cleaned_is_clean(mirror: CacheMirror)
    ensures
        mirror.cleaned().rows.len() == mirror.rows.len(),
        mirror.cleaned().blocks == mirror.blocks,
        forall|i: int| 0 <= i < mirror.rows.len() ==> !mirror.cleaned().rows[i],
        mirror.cleaned().dirty_count() == 0,
{
    lemma_count_true_zero(mirror.cleaned().rows);
}

/// A sequence of flags that are all off counts zero.
pub proof fn lemma_count_true_zero(flags: Seq<bool>)
    requires
        forall|i: int| 0 <= i < flags.len() ==> !flags[i],
    ensures
        count_true(flags) == 0,
    decreases flags.len(),
{
    if flags.len() > 0 {
        lemma_count_true_zero(flags.drop_last());
    }
}


/// What a [`CacheTexture`] holds, as mathematical values.
pub struct GpuCacheView {
    /// Blocks are scattered rather than mirrored.
    pub scatter: bool,
    /// The number of rows of the device texture.
    pub height: u32,
    /// The CPU mirror; empty when blocks are scattered.
    pub mirror: CacheMirror,
    /// The points waiting to be drawn; empty when rows are mirrored.
    pub points: Seq<ScatterPoint>,
}

impl View for CacheTexture {
    type V = GpuCacheView;

    open spec fn view(&self) -> GpuCacheView {
        GpuCacheView {
            scatter: self.is_scatter(),
            height: self.height,
            mirror: self.mirror(),
            points: self.pending_points(),
        }
    }
}

impl GpuCacheView {
    /// The cache after the device texture was made at least `max_height`
    /// rows tall: if it grew, every mirrored row is dirty; waiting points
    /// are dropped.
    pub open spec fn prepare(self, max_height: u32) -> GpuCacheView {
        if max_height > self.height {
            GpuCacheView {
                height: max_height,
                mirror: CacheMirror {
                    rows: Seq::new(self.mirror.rows.len(), |i: int| true),
                    blocks: self.mirror.blocks,
                },
                points: Seq::empty(),
                ..self
            }
        } else {
            GpuCacheView { points: Seq::empty(), ..self }
        }
    }

    /// The device after the texture was made at least `max_height` rows
    /// tall.
    pub open spec fn prepare_device(self, d: DeviceView, max_height: u32) -> DeviceView {
        if max_height > self.height {
            d.emit(
                DeviceCommand::ResizeGpuCache {
                    width: MAX_VERTEX_TEXTURE_WIDTH as u32,
                    height: max_height,
                },
            )
        } else {
            d
        }
    }

    /// The cache after an update list was applied.
    pub open spec fn update(self, list: UpdateListView) -> GpuCacheView {
        if self.scatter {
            GpuCacheView {
                points: self.points + scatter_points(
                    list.updates,
                    list.blocks,
                    list.updates.len(),
                ),
                ..self
            }
        } else {
            GpuCacheView { mirror: self.mirror.apply_list(list), ..self }
        }
    }

    /// The cache after a flush: every row clean, no point waiting.
    pub open spec fn flush(self) -> GpuCacheView {
        GpuCacheView { mirror: self.mirror.cleaned(), points: Seq::empty(), ..self }
    }

    /// The device after a flush.
    pub open spec fn flush_device(self, d: DeviceView) -> DeviceView {
        if self.scatter {
            scatter_flush(d, self.points)
        } else {
            flush_rows(d, self.mirror, self.mirror.rows.len())
        }
    }
}

proof fn lemma_prepare_view(before: CacheTexture, after: CacheTexture, max_height: u32)
    requires
        after.is_scatter() == before.is_scatter(),
        after.height == (if max_height > before.height {
            max_height
        } else {
            before.height
        }),
        after.pending_points().len() == 0,
        after.mirror().blocks == before.mirror().blocks,
        after.mirror().rows.len() == before.mirror().rows.len(),
        forall|i: int|
            0 <= i < before.mirror().rows.len() ==> after.mirror().rows[i] == (max_height
                > before.height || before.mirror().rows[i]),
    ensures
        after@ == before@.prepare(max_height),
{
    assert(after@.points =~= before@.prepare(max_height).points);
    assert(after@.mirror.rows =~= before@.prepare(max_height).mirror.rows);
}

proof fn lemma_update_view(before: CacheTexture, after: CacheTexture, list: UpdateListView)
    requires
        after.height == before.height,
        after.is_scatter() == before.is_scatter(),
        !before.is_scatter() ==> after.mirror() == before.mirror().apply_list(list),
        before.is_scatter() ==> after.pending_points() == before.pending_points() + scatter_points(
            list.updates,
            list.blocks,
            list.updates.len(),
        ),
    ensures
        after@ == before@.update(list),
{
    if !before.is_scatter() {
        assert(before.pending_points() =~= after.pending_points());
    }
}

proof fn lemma_flush_view(before: CacheTexture, after: CacheTexture)
    requires
        after.height == before.height,
        after.is_scatter() == before.is_scatter(),
        after.mirror() == before.mirror().cleaned(),
        after.pending_points().len() == 0,
    ensures
        after@ == before@.flush(),
{
    assert(after@.points =~= before@.flush().points);
}

impl GpuCacheUpdateList {
    /// Whether every instruction is well formed for this list's payload
    /// and height.
    pub fn is_well_formed(&self) -> (b: bool)
        ensures
            b == self.wf(),
    {
        let mut i: usize = 0;
        while i < self.updates.len()
            invariant
                i <= self.updates@.len(),
                forall|k: int|
                    0 <= k < i ==> (#[trigger] self.updates@[k]).wf(
                        self.blocks@.len() as int,
                        self.height as int,
                    ),
            decreases self.updates@.len() - i,
        {
            let GpuCacheUpdate::Copy { block_index, block_count, address } = self.updates[i];
            let ok = block_count <= self.blocks.len() && block_index <= self.blocks.len()
                - block_count && block_count <= MAX_VERTEX_TEXTURE_WIDTH && address.u as usize
                <= MAX_VERTEX_TEXTURE_WIDTH - block_count && (address.v as u32) < self.height;
            if !ok {
                assert(!self@.updates[i as int].wf(self@.blocks.len() as int, self@.height as int));
                return false;
            }
            i += 1;
        }
        true
    }
}

} // verus!
