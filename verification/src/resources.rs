//! Bringing the caches of the device up to date before a frame is drawn:
//! the textures of the texture cache, the external images that the frame
//! refers to, and the GPU cache.

use vstd::prelude::*;
use crate::api::{ExternalImageId, ExternalImageType, F32Bits, TexelRect};
use crate::device::{Device, DeviceCommand, DeviceView, ExternalTexture, Texture, UploadData, UploadDataView};
use crate::gpu_cache::{list_views, CacheTexture, GpuBlockData, GpuCacheUpdate, GpuCacheUpdateList, GpuCacheView, UpdateListView};
use crate::internal_types::{CacheTextureId, TextureUpdate, TextureUpdateOp, TextureUpdateSource};
use crate::renderer::{ExternalImage, ExternalImageSource, BLOCKS_PER_UV_RECT};
use crate::texture_resolver::{insert_external, ExternalImageEntry, ResolverView, SourceTextureResolver};
use crate::tiling::DeferredResolve;

verus! {

/// The device and the textures of the texture cache, which texture cache
/// updates change together.
pub struct TextureCacheState {
    pub device: DeviceView,
    pub textures: Seq<Texture>,
}

/// The update can be applied to `textures`: it is for the next free slot or
/// for a slot that exists; a slot that is set up again keeps its format;
/// and the bytes of an upload start inside the data.
pub open spec fn texture_update_ok(textures: Seq<Texture>, update: TextureUpdate) -> bool {
    match update.op {
        TextureUpdateOp::Create { format, .. } => update.id.0 <= textures.len() && (update.id.0
            < textures.len() ==> textures[update.id.0 as int].format == format),
        TextureUpdateOp::Update { source, offset, .. } => update.id.0 < textures.len() && match source {
            TextureUpdateSource::Bytes { data } => offset <= data@.len(),
            TextureUpdateSource::External { .. } => true,
        },
        TextureUpdateOp::Free => update.id.0 < textures.len(),
    }
}

impl TextureCacheState {
    /// The update can be applied to the textures as they are.
    pub open spec fn update_ok(self, update: TextureUpdate) -> bool {
        texture_update_ok(self.textures, update)
    }

    /// The state after one update. `Create` for the next free slot creates
    /// a texture; then, as for a slot that exists, the storage is set up.
    /// `Update` with bytes uploads them to the slot's texture; with an
    /// external source it changes nothing. `Free` gives up the storage of
    /// the slot's texture and keeps the slot.
    pub open spec fn apply(self, update: TextureUpdate) -> TextureCacheState {
        let slot = update.id.0 as int;
        match update.op {
            TextureUpdateOp::Create { width, height, format, filter, render_target, layer_count } => {
                let created = if slot == self.textures.len() {
                    TextureCacheState {
                        device: self.device.create_texture(format),
                        textures: self.textures.push(
                            Texture::blank(self.device.next_texture(), format),
                        ),
                    }
                } else {
                    self
                };
                let texture = created.textures[slot].initialized(
                    width,
                    height,
                    filter,
                    render_target,
                    layer_count,
                );
                TextureCacheState {
                    device: created.device.init_texture(texture),
                    textures: created.textures.update(slot, texture),
                }
            },
            TextureUpdateOp::Update { rect, stride, offset, layer_index, source } => match source {
                TextureUpdateSource::Bytes { data } => TextureCacheState {
                    device: self.device.upload(UploadDataView::Bytes(data@)).emit(
                        DeviceCommand::UploadTexture {
                            id: self.textures[slot].id,
                            rect,
                            layer_index,
                            stride,
                            data: self.device.next_buffer(),
                            offset: offset as usize,
                        },
                    ),
                    textures: self.textures,
                },
                TextureUpdateSource::External { .. } => self,
            },
            TextureUpdateOp::Free => TextureCacheState {
                device: self.device.emit(
                    DeviceCommand::FreeTextureStorage(self.textures[slot].id),
                ),
                textures: self.textures.update(slot, self.textures[slot].freed()),
            },
        }
    }

    /// The state after one update that is applied if it can be, and
    /// refused otherwise.
    pub open spec fn apply_checked(self, update: TextureUpdate) -> TextureCacheState {
        if self.update_ok(update) {
            self.apply(update)
        } else {
            self
        }
    }

    /// The slots of those among the first `n` updates that were refused
    /// when their turn came, in order.
    pub open spec fn refused(self, updates: Seq<TextureUpdate>, n: nat) -> Seq<CacheTextureId>
        decreases n,
    {
        if n == 0 {
            Seq::empty()
        } else {
            let earlier = self.refused(updates, (n - 1) as nat);
            if self.apply_all(updates, (n - 1) as nat).update_ok(updates[n - 1]) {
                earlier
            } else {
                earlier.push(updates[n - 1].id)
            }
        }
    }

    /// The state after the first `n` updates, in order.
    pub open spec fn apply_all(self, updates: Seq<TextureUpdate>, n: nat) -> TextureCacheState
        decreases n,
    {
        if n == 0 {
            self
        } else {
            self.apply_all(updates, (n - 1) as nat).apply_checked(updates[n - 1])
        }
    }
}

/// Whether `update` can be applied to the textures as they are.
pub fn check_texture_update(textures: &Vec<Texture>, update: &TextureUpdate) -> (b: bool)
    ensures
        b == texture_update_ok(textures@, *update),
{
    let slot = update.id.0;
    match &update.op {
        TextureUpdateOp::Create { format, .. } => slot <= textures.len() && (slot
            == textures.len() || textures[slot].format == *format),
        TextureUpdateOp::Update { source, offset, .. } => slot < textures.len() && match source {
            TextureUpdateSource::Bytes { data } => *offset as usize <= data.len(),
            TextureUpdateSource::External { .. } => true,
        },
        TextureUpdateOp::Free => slot < textures.len(),
    }
}

/// Applies one texture cache update.
pub fn apply_texture_update(device: &mut Device, textures: &mut Vec<Texture>, update: TextureUpdate)
    requires
        (TextureCacheState { device: old(device)@, textures: old(textures)@ }).update_ok(update),
    ensures
        (TextureCacheState { device: final(device)@, textures: final(textures)@ })
            == (TextureCacheState { device: old(device)@, textures: old(textures)@ }).apply(update),
{
    let slot = update.id.0;
    match update.op {
        TextureUpdateOp::Create { width, height, format, filter, render_target, layer_count } => {
            if textures.len() == slot {
                let texture = device.create_texture(format);
                textures.push(texture);
            }
            let mut texture = Texture {
                id: textures[slot].id,
                width: 0,
                height: 0,
                layer_count: 0,
                format,
                filter,
                render_target: None,
            };
            device.init_texture(&mut texture, width, height, filter, render_target, layer_count);
            textures[slot] = texture;
        },
        TextureUpdateOp::Update { rect, stride, offset, layer_index, source } => {
            match source {
                TextureUpdateSource::Bytes { data } => {
                    let id = textures[slot].id;
                    let buffer = device.upload(UploadData::Bytes(data));
                    device.emit(
                        DeviceCommand::UploadTexture {
                            id,
                            rect,
                            layer_index,
                            stride,
                            data: buffer,
                            offset: offset as usize,
                        },
                    );
                },
                TextureUpdateSource::External { .. } => {},
            }
        },
        TextureUpdateOp::Free => {
            let old_texture = &textures[slot];
            let freed = Texture {
                id: old_texture.id,
                width: 0,
                height: 0,
                layer_count: 0,
                format: old_texture.format,
                filter: old_texture.filter,
                render_target: old_texture.render_target,
            };
            device.emit(DeviceCommand::FreeTextureStorage(freed.id));
            textures[slot] = freed;
        },
    }
}

/// Applies the texture cache updates that are waiting, in order, and
/// leaves none waiting. An update that cannot be applied changes nothing;
/// the slots of those updates are returned, in order.
pub fn update_texture_cache(
    device: &mut Device,
    textures: &mut Vec<Texture>,
    pending: &mut Vec<TextureUpdate>,
) -> (refused: Vec<CacheTextureId>)
    ensures
        final(pending)@.len() == 0,
        (TextureCacheState { device: final(device)@, textures: final(textures)@ })
            == (TextureCacheState { device: old(device)@, textures: old(textures)@ }).apply_all(
            old(pending)@,
            old(pending)@.len(),
        ),
        refused@ == (TextureCacheState { device: old(device)@, textures: old(textures)@ }).refused(
            old(pending)@,
            old(pending)@.len(),
        ),
{
    let ghost start = TextureCacheState { device: device@, textures: textures@ };
    let mut refused: Vec<CacheTextureId> = Vec::new();
    let mut updates: Vec<TextureUpdate> = Vec::new();
    std::mem::swap(pending, &mut updates);
    let mut i: usize = 0;
    while i < updates.len()
        invariant
            i <= updates@.len(),
            pending@.len() == 0,
            updates@.len() == old(pending)@.len(),
            forall|k: int| i <= k < updates@.len() ==> updates@[k] == old(pending)@[k],
            (TextureCacheState { device: device@, textures: textures@ }) == start.apply_all(
                old(pending)@,
                i as nat,
            ),
            refused@ == start.refused(old(pending)@, i as nat),
        decreases updates@.len() - i,
    {
        let mut update = TextureUpdate { id: CacheTextureId(0), op: TextureUpdateOp::Free };
        std::mem::swap(&mut updates[i], &mut update);
        assert(update == old(pending)@[i as int]);
        if check_texture_update(textures, &update) {
            apply_texture_update(device, textures, update);
        } else {
            refused.push(update.id);
        }
        i += 1;
    }
    refused
}


/// An external image that the embedder locked for this frame.
pub struct LockedExternalImage<'a> {
    pub id: ExternalImageId,
    pub channel_index: u8,
    pub image: ExternalImage<'a>,
}

/// The position of the first locked image for `id` and `channel_index` at
/// or after `start`, or the number of locked images when there is none.
pub open spec fn find_locked_image(
    locked: Seq<LockedExternalImage>,
    id: ExternalImageId,
    channel_index: u8,
    start: int,
) -> int
    decreases locked.len() - start,
{
    if start >= locked.len() {
        locked.len() as int
    } else if locked[start].id == id && locked[start].channel_index == channel_index {
        start
    } else {
        find_locked_image(locked, id, channel_index, start + 1)
    }
}

/// The handle of the embedder's texture behind a locked image; zero when
/// the image is not a texture.
pub open spec fn native_handle(source: ExternalImageSource) -> u32 {
    match source {
        ExternalImageSource::NativeTexture(id) => id,
        _ => 0,
    }
}

/// The block that holds the UV rectangle of an image.
pub open spec fn uv_block(uv: TexelRect) -> GpuBlockData {
    GpuBlockData { data: [uv.u0, uv.v0, uv.u1, uv.v1] }
}

/// The UV rectangle of no image.
pub open spec fn zero_uv() -> TexelRect {
    TexelRect { u0: F32Bits(0), v0: F32Bits(0), u1: F32Bits(0), v1: F32Bits(0) }
}

/// What resolving the deferred images of a frame changes: the device, the
/// external images that the resolver knows, and the update list that is
/// being built.
pub struct ResolveState {
    pub device: DeviceView,
    pub images: Seq<ExternalImageEntry>,
    pub updates: Seq<GpuCacheUpdate>,
    pub blocks: Seq<GpuBlockData>,
    pub height: u32,
}

impl ResolveState {
    /// The state after one deferred resolve. An entry that names an
    /// external texture is resolved: the device state is reset, because
    /// locking may have changed it behind the renderer's back; the texture
    /// that the embedder locked is recorded, or the handle zero if it
    /// locked none; and two blocks, the UV rectangle and a block of zeros,
    /// are set to be copied to the entry's address. Any other entry is
    /// passed over.
    pub open spec fn resolve(self, entry: DeferredResolve, locked: Seq<LockedExternalImage>) -> ResolveState {
        match entry.external_image {
            Some(image) => match image.image_type {
                ExternalImageType::TextureHandle(target) => {
                    let pos = find_locked_image(locked, image.id, image.channel_index, 0);
                    let uv = if pos < locked.len() {
                        locked[pos].image.uv
                    } else {
                        zero_uv()
                    };
                    let handle = if pos < locked.len() {
                        native_handle(locked[pos].image.source)
                    } else {
                        0
                    };
                    ResolveState {
                        device: self.device.emit(DeviceCommand::ResetState),
                        images: insert_external(
                            self.images,
                            ExternalImageEntry {
                                id: image.id,
                                channel_index: image.channel_index,
                                texture: ExternalTexture { id: handle, target },
                            },
                        ),
                        updates: self.updates.push(
                            GpuCacheUpdate::Copy {
                                block_index: self.blocks.len() as usize,
                                block_count: BLOCKS_PER_UV_RECT,
                                address: entry.address,
                            },
                        ),
                        blocks: self.blocks.push(uv_block(uv)).push(GpuBlockData::spec_empty()),
                        height: if entry.address.v >= self.height {
                            (entry.address.v + 1) as u32
                        } else {
                            self.height
                        },
                    }
                },
                ExternalImageType::Buffer => self,
            },
            None => self,
        }
    }

    /// The update list that was built.
    pub open spec fn list(self) -> UpdateListView {
        UpdateListView { height: self.height, updates: self.updates, blocks: self.blocks }
    }

    /// The state after the first `n` deferred resolves, in order.
    pub open spec fn resolve_all(self, entries: Seq<DeferredResolve>, locked: Seq<LockedExternalImage>, n: nat) -> ResolveState
        decreases n,
    {
        if n == 0 {
            self
        } else {
            self.resolve_all(entries, locked, (n - 1) as nat).resolve(entries[n - 1], locked)
        }
    }
}

/// The image that the embedder locked for `id` and `channel_index`: its UV
/// rectangle and the handle of its texture; zeros if it locked none.
pub fn locked_image(locked: &Vec<LockedExternalImage>, id: ExternalImageId, channel_index: u8) -> (r: (TexelRect, u32))
    ensures
        ({
            let pos = find_locked_image(locked@, id, channel_index, 0);
            if pos < locked@.len() {
                r == (locked@[pos].image.uv, native_handle(locked@[pos].image.source))
            } else {
                r == (zero_uv(), 0u32)
            }
        }),
{
    let mut i: usize = 0;
    while i < locked.len()
        invariant
            i <= locked@.len(),
            find_locked_image(locked@, id, channel_index, 0) == find_locked_image(
                locked@,
                id,
                channel_index,
                i as int,
            ),
        decreases locked@.len() - i,
    {
        let entry = &locked[i];
        if entry.id == id && entry.channel_index == channel_index {
            let handle = match entry.image.source {
                ExternalImageSource::NativeTexture(texture_id) => texture_id,
                _ => 0,
            };
            return (entry.image.uv, handle);
        }
        i += 1;
    }
    (
        TexelRect {
            u0: F32Bits::zero(),
            v0: F32Bits::zero(),
            u1: F32Bits::zero(),
            v1: F32Bits::zero(),
        },
        0,
    )
}

/// The entry can be resolved: it names an external texture, the embedder
/// locked that image, and what it locked is not raw data. An image that
/// the embedder could not provide is locked all the same, as an invalid
/// one.
pub open spec fn resolve_ok(entry: DeferredResolve, locked: Seq<LockedExternalImage>) -> bool {
    match entry.external_image {
        Some(image) => {
            let pos = find_locked_image(locked, image.id, image.channel_index, 0);
            &&& image.image_type is TextureHandle
            &&& pos < locked.len()
            &&& !(locked[pos].image.source is RawData)
        },
        None => false,
    }
}

/// Every one of the entries can be resolved.
pub open spec fn resolves_ok(entries: Seq<DeferredResolve>, locked: Seq<LockedExternalImage>) -> bool {
    forall|i: int| 0 <= i < entries.len() ==> resolve_ok(#[trigger] entries[i], locked)
}

/// Whether `entry` can be resolved.
pub fn check_deferred_resolve(entry: &DeferredResolve, locked: &Vec<LockedExternalImage>) -> (b: bool)
    ensures
        b == resolve_ok(*entry, locked@),
{
    match entry.external_image {
        Some(image) => {
            match image.image_type {
                ExternalImageType::TextureHandle(_) => {},
                ExternalImageType::Buffer => {
                    return false;
                },
            }
            let mut i: usize = 0;
            while i < locked.len()
                invariant
                    i <= locked@.len(),
                    entry.external_image == Some(image),
                    image.image_type is TextureHandle,
                    find_locked_image(locked@, image.id, image.channel_index, 0)
                        == find_locked_image(locked@, image.id, image.channel_index, i as int),
                decreases locked@.len() - i,
            {
                let held = &locked[i];
                if held.id == image.id && held.channel_index == image.channel_index {
                    assert(find_locked_image(locked@, image.id, image.channel_index, i as int) == i);
                    let raw = match held.image.source {
                        ExternalImageSource::RawData(_) => true,
                        ExternalImageSource::NativeTexture(_) => false,
                        ExternalImageSource::Invalid => false,
                    };
                    assert(raw == (locked@[i as int].image.source is RawData));
                    return !raw;
                }
                i += 1;
            }
            false
        },
        None => false,
    }
}

/// Whether every one of the entries can be resolved.
pub fn check_deferred_resolves(entries: &Vec<DeferredResolve>, locked: &Vec<LockedExternalImage>) -> (b: bool)
    ensures
        b == resolves_ok(entries@, locked@),
{
    let mut i: usize = 0;
    while i < entries.len()
        invariant
            i <= entries@.len(),
            forall|k: int| 0 <= k < i ==> resolve_ok(#[trigger] entries@[k], locked@),
        decreases entries@.len() - i,
    {
        if !check_deferred_resolve(&entries[i], locked) {
            return false;
        }
        i += 1;
    }
    true
}

/// Resolves the deferred images of a frame against the images that the
/// embedder locked, and returns the GPU cache updates that carry their UV
/// rectangles; none for a frame without deferred images. See
/// [`ResolveState::resolve`] for what happens to each. The list asks for a
/// cache at least as tall as it is now and as the addresses need.
pub fn update_deferred_resolves(
    device: &mut Device,
    resolver: &mut SourceTextureResolver,
    cache_height: u32,
    deferred_resolves: &Vec<DeferredResolve>,
    locked: &Vec<LockedExternalImage>,
) -> (list: Option<GpuCacheUpdateList>)
    ensures
        deferred_resolves@.len() == 0 ==> list is None && final(device)@ == old(device)@ && final(resolver)@ == old(resolver)@,
        deferred_resolves@.len() > 0 ==> {
            let end = (ResolveState {
                device: old(device)@,
                images: old(resolver)@.external_images,
                updates: Seq::empty(),
                blocks: Seq::empty(),
                height: cache_height,
            }).resolve_all(deferred_resolves@, locked@, deferred_resolves@.len());
            &&& list matches Some(l)
            &&& l@ == end.list()
            &&& final(device)@ == end.device
            &&& final(resolver)@ == (ResolverView { external_images: end.images, ..old(resolver)@ })
        },
{
    if deferred_resolves.len() == 0 {
        return None;
    }
    let mut list = GpuCacheUpdateList {
        height: cache_height,
        blocks: Vec::new(),
        updates: Vec::new(),
    };
    let ghost start = ResolveState {
        device: device@,
        images: resolver@.external_images,
        updates: Seq::empty(),
        blocks: Seq::empty(),
        height: cache_height,
    };
    let mut i: usize = 0;
    while i < deferred_resolves.len()
        invariant
            i <= deferred_resolves@.len(),
            resolver@ == (ResolverView {
                external_images: resolver@.external_images,
                ..old(resolver)@
            }),
            (ResolveState {
                device: device@,
                images: resolver@.external_images,
                updates: list.updates@,
                blocks: list.blocks@,
                height: list.height,
            }) == start.resolve_all(deferred_resolves@, locked@, i as nat),
        decreases deferred_resolves@.len() - i,
    {
        let entry = deferred_resolves[i];
        match entry.external_image {
            Some(image) => match image.image_type {
                ExternalImageType::TextureHandle(target) => {
                    let (uv, handle) = locked_image(locked, image.id, image.channel_index);
                    device.emit(DeviceCommand::ResetState);
                    resolver.insert_external_image(
                        image.id,
                        image.channel_index,
                        ExternalTexture::new(handle, target),
                    );
                    list.updates.push(
                        GpuCacheUpdate::Copy {
                            block_index: list.blocks.len(),
                            block_count: BLOCKS_PER_UV_RECT,
                            address: entry.address,
                        },
                    );
                    list.blocks.push(GpuBlockData { data: [uv.u0, uv.v0, uv.u1, uv.v1] });
                    list.blocks.push(GpuBlockData::empty());
                    if entry.address.v as u32 >= list.height {
                        list.height = entry.address.v as u32 + 1;
                    }
                },
                ExternalImageType::Buffer => {},
            },
            None => {},
        }
        i += 1;
    }
    Some(list)
}

/// The keys of the external images that were locked for the frame, for the
/// embedder to unlock; the resolver forgets them.
pub fn unlock_external_images(resolver: &mut SourceTextureResolver) -> (keys: Vec<(ExternalImageId, u8)>)
    ensures
        final(resolver)@ == (ResolverView { external_images: Seq::empty(), ..old(resolver)@ }),
        keys@.len() == old(resolver)@.external_images.len(),
        forall|i: int|
            0 <= i < keys@.len() ==> #[trigger] keys@[i] == (
                old(resolver)@.external_images[i].id,
                old(resolver)@.external_images[i].channel_index,
            ),
{
    let mut keys: Vec<(ExternalImageId, u8)> = Vec::new();
    let mut i: usize = 0;
    while i < resolver.external_images.len()
        invariant
            i <= resolver.external_images@.len(),
            *resolver == *old(resolver),
            keys@.len() == i,
            forall|k: int|
                0 <= k < i ==> #[trigger] keys@[k] == (
                    resolver.external_images@[k].id,
                    resolver.external_images@[k].channel_index,
                ),
        decreases resolver.external_images@.len() - i,
    {
        let entry = resolver.external_images[i];
        keys.push((entry.id, entry.channel_index));
        i += 1;
    }
    resolver.external_images.clear();
    assert(resolver@.external_images =~= Seq::<ExternalImageEntry>::empty());
    keys
}

/// The device and the GPU cache, which cache updates change together.
pub struct GpuCacheState {
    pub device: DeviceView,
    pub cache: GpuCacheView,
}

/// The tallest cache that the first `n` lists ask for, and at least
/// `height`.
pub open spec fn max_requested_height(height: u32, lists: Seq<UpdateListView>, n: nat) -> u32
    decreases n,
{
    if n == 0 {
        height
    } else {
        let rest = max_requested_height(height, lists, (n - 1) as nat);
        if lists[n - 1].height > rest {
            lists[n - 1].height
        } else {
            rest
        }
    }
}

impl GpuCacheView {
    /// The cache after an update list that is applied if every one of its
    /// instructions is well formed and the cache is tall enough for it, and
    /// dropped otherwise.
    pub open spec fn update_checked(self, list: UpdateListView) -> GpuCacheView {
        if list.wf() && list.height <= self.height {
            self.update(list)
        } else {
            self
        }
    }

    /// The cache after the first `n` lists, in order.
    pub open spec fn update_all(self, lists: Seq<UpdateListView>, n: nat) -> GpuCacheView
        decreases n,
    {
        if n == 0 {
            self
        } else {
            self.update_all(lists, (n - 1) as nat).update_checked(lists[n - 1])
        }
    }

    /// Every one of the first `n` lists is applied when its turn comes:
    /// none is malformed, and none asks for a taller cache than there is.
    pub open spec fn takes(self, lists: Seq<UpdateListView>, n: nat) -> bool
        decreases n,
    {
        n == 0 || {
            &&& self.takes(lists, (n - 1) as nat)
            &&& lists[n - 1].wf()
            &&& lists[n - 1].height <= self.update_all(lists, (n - 1) as nat).height
        }
    }
}

impl GpuCacheState {
    /// The state after the lists that are waiting were brought to the
    /// device: the cache texture is made as tall as the tallest list asks,
    /// the lists are applied in order, and the cache is flushed.
    pub open spec fn bring_up_to_date(self, lists: Seq<UpdateListView>) -> GpuCacheState {
        let height = max_requested_height(self.cache.height, lists, lists.len());
        let updated = self.cache.prepare(height).update_all(lists, lists.len());
        GpuCacheState {
            device: updated.flush_device(self.cache.prepare_device(self.device, height)),
            cache: updated.flush(),
        }
    }

    /// Every list that is waiting is applied when the cache is brought up
    /// to date.
    pub open spec fn takes_all(self, lists: Seq<UpdateListView>) -> bool {
        self.cache.prepare(max_requested_height(self.cache.height, lists, lists.len())).takes(
            lists,
            lists.len(),
        )
    }
}

/// Brings the lists that are waiting to the device and leaves none
/// waiting. A list that is malformed, or asks for a taller cache than
/// there is, changes nothing. Returns the number of rows that were sent,
/// and whether every list was applied. The list of the images that were
/// resolved for the frame is among them: it is the last one.
pub fn prepare_gpu_cache(
    device: &mut Device,
    cache: &mut CacheTexture,
    pending: &mut Vec<GpuCacheUpdateList>,
) -> (r: (usize, bool))
    requires
        old(cache).wf(),
    ensures
        final(cache).wf(),
        final(pending)@.len() == 0,
        (GpuCacheState { device: final(device)@, cache: final(cache)@ }) == (GpuCacheState {
            device: old(device)@,
            cache: old(cache)@,
        }).bring_up_to_date(list_views(old(pending)@)),
        r.1 == (GpuCacheState { device: old(device)@, cache: old(cache)@ }).takes_all(
            list_views(old(pending)@),
        ),
        r.0 == old(cache)@.prepare(
            max_requested_height(
                old(cache)@.height,
                list_views(old(pending)@),
                old(pending)@.len(),
            ),
        ).update_all(list_views(old(pending)@), old(pending)@.len()).mirror.dirty_count(),
        final(cache)@.mirror.rows.len() >= old(cache)@.mirror.rows.len(),
{
    let mut height = cache.get_height();
    let mut i: usize = 0;
    while i < pending.len()
        invariant
            i <= pending@.len(),
            *pending == *old(pending),
            *cache == *old(cache),
            height == max_requested_height(cache@.height, list_views(pending@), i as nat),
        decreases pending@.len() - i,
    {
        if pending[i].height > height {
            height = pending[i].height;
        }
        i += 1;
    }
    cache.prepare_for_updates(device, height);
    let ghost prepared = cache@;
    let mut taken = true;
    let mut i: usize = 0;
    while i < pending.len()
        invariant
            i <= pending@.len(),
            *pending == *old(pending),
            cache.wf(),
            cache@ == prepared.update_all(list_views(pending@), i as nat),
            taken == prepared.takes(list_views(pending@), i as nat),
            cache@.mirror.rows.len() >= old(cache)@.mirror.rows.len(),
        decreases pending@.len() - i,
    {
        let list = &pending[i];
        if list.is_well_formed() && list.height <= cache.get_height() {
            cache.update(list);
        } else {
            taken = false;
        }
        i += 1;
    }
    let updated_rows = cache.flush(device);
    pending.clear();
    (updated_rows, taken)
}

} // verus!
