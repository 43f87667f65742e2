//! Resolves the texture names of a frame to device textures, and keeps the
//! pool of render target textures that passes draw to and later passes and
//! frames take back.

use std::collections::HashMap;
use vstd::prelude::*;
use crate::api::{ExternalImageId, ImageFormat};
use crate::device::{Device, DeviceCommand, DeviceView, ExternalTexture, RenderTargetInfo, Texture, TextureFilter};
use crate::internal_types::{RenderPassIndex, SourceTexture};
use crate::renderer::TextureSampler;
use crate::tiling::{RenderTarget, RenderTargetList};
use crate::units::DeviceUintSize;

verus! {

broadcast use vstd::std_specs::hash::group_hash_axioms;

/// The position of a texture in the render target pool.
#[derive(Clone, Copy, Debug, PartialEq, Eq, Structural)]
pub struct RenderTargetPoolId(pub usize);

/// What a pooled texture must have to take the place of another: size,
/// number of layers and format.
#[derive(Clone, Copy, Debug, PartialEq, Eq, Structural)]
pub struct TargetSelector {
    pub size: DeviceUintSize,
    pub num_layers: usize,
    pub format: ImageFormat,
}

impl TargetSelector {
    /// The selector that `texture` answers to.
    pub open spec fn of(texture: Texture) -> TargetSelector {
        TargetSelector {
            size: DeviceUintSize { width: texture.width, height: texture.height },
            num_layers: texture.spec_render_target_layer_count(),
            format: texture.format,
        }
    }
}

/// An external image that was locked for this frame.
#[derive(Clone, Copy, Debug, PartialEq, Eq, Structural)]
pub struct ExternalImageEntry {
    pub id: ExternalImageId,
    pub channel_index: u8,
    pub texture: ExternalTexture,
}

/// The position of the first entry for the image at or after `start`, or
/// the number of entries when there is none.
pub open spec fn find_external_from(
    entries: Seq<ExternalImageEntry>,
    id: ExternalImageId,
    channel_index: u8,
    start: int,
) -> int
    decreases entries.len() - start,
{
    if start >= entries.len() {
        entries.len() as int
    } else if entries[start].id == id && entries[start].channel_index == channel_index {
        start
    } else {
        find_external_from(entries, id, channel_index, start + 1)
    }
}

/// The position of the first entry for the image, or the number of entries
/// when there is none.
pub open spec fn find_external(entries: Seq<ExternalImageEntry>, id: ExternalImageId, channel_index: u8) -> int {
    find_external_from(entries, id, channel_index, 0)
}

/// The position of the first pooled texture at or after `start` that
/// answers to `selector`, or the size of the pool when there is none.
pub open spec fn first_perfect_match_from(pool: Seq<Texture>, selector: TargetSelector, start: int) -> int
    decreases pool.len() - start,
{
    if start >= pool.len() {
        pool.len() as int
    } else if TargetSelector::of(pool[start]) == selector {
        start
    } else {
        first_perfect_match_from(pool, selector, start + 1)
    }
}

/// The position of the first pooled texture that answers to `selector`, or
/// the size of the pool when there is none.
pub open spec fn first_perfect_match(pool: Seq<Texture>, selector: TargetSelector) -> int {
    first_perfect_match_from(pool, selector, 0)
}

/// The position of the first pooled texture of `format` at or after
/// `start`, or the size of the pool when there is none.
pub open spec fn first_format_match_from(pool: Seq<Texture>, format: ImageFormat, start: int) -> int
    decreases pool.len() - start,
{
    if start >= pool.len() {
        pool.len() as int
    } else if pool[start].format == format {
        start
    } else {
        first_format_match_from(pool, format, start + 1)
    }
}

/// The position of the first pooled texture of `format`, or the size of the
/// pool when there is none.
pub open spec fn first_format_match(pool: Seq<Texture>, format: ImageFormat) -> int {
    first_format_match_from(pool, format, 0)
}

/// The entries after `entry` was recorded: it takes the place of the first
/// entry for the same image and channel, or joins at the end.
pub open spec fn insert_external(entries: Seq<ExternalImageEntry>, entry: ExternalImageEntry) -> Seq<ExternalImageEntry> {
    let pos = find_external(entries, entry.id, entry.channel_index);
    if pos < entries.len() {
        entries.update(pos, entry)
    } else {
        entries.push(entry)
    }
}

/// The pool after the texture at `pos` left it: the last texture takes its
/// place.
pub open spec fn pool_without(pool: Seq<Texture>, pos: int) -> Seq<Texture> {
    pool.update(pos, pool.last()).drop_last()
}

/// What a [`SourceTextureResolver`] holds, as mathematical values.
pub struct ResolverView {
    pub cache_texture_map: Seq<Texture>,
    pub external_images: Seq<ExternalImageEntry>,
    pub dummy_cache_texture: Texture,
    pub cache_rgba8_texture: Option<Texture>,
    pub cache_a8_texture: Option<Texture>,
    pub pass_rgba8_textures: Map<usize, usize>,
    pub pass_a8_textures: Map<usize, usize>,
    pub render_target_pool: Seq<Texture>,
}

impl ResolverView {
    /// The coverage output of the previous pass, or the dummy texture.
    pub open spec fn a8_or_dummy(self) -> Texture {
        match self.cache_a8_texture {
            Some(t) => t,
            None => self.dummy_cache_texture,
        }
    }

    /// The colour output of the previous pass, or the dummy texture.
    pub open spec fn rgba8_or_dummy(self) -> Texture {
        match self.cache_rgba8_texture {
            Some(t) => t,
            None => self.dummy_cache_texture,
        }
    }

    /// The texture of an external image that was locked, if it was.
    pub open spec fn external(self, id: ExternalImageId, channel_index: u8) -> Option<ExternalTexture> {
        let pos = find_external(self.external_images, id, channel_index);
        if pos < self.external_images.len() {
            Some(self.external_images[pos].texture)
        } else {
            None
        }
    }

    /// `texture_id` names a device texture that exists now.
    pub open spec fn can_resolve(self, texture_id: SourceTexture) -> bool {
        match texture_id {
            SourceTexture::Invalid => true,
            SourceTexture::CacheA8 => true,
            SourceTexture::CacheRGBA8 => true,
            SourceTexture::External(_) => false,
            SourceTexture::TextureCache(index) => index.0 < self.cache_texture_map.len(),
            SourceTexture::RenderTaskCacheRGBA8(pass) => self.pass_rgba8_textures.contains_key(
                pass.0,
            ) && self.pass_rgba8_textures[pass.0] < self.render_target_pool.len(),
            SourceTexture::RenderTaskCacheA8(pass) => self.pass_a8_textures.contains_key(pass.0)
                && self.pass_a8_textures[pass.0] < self.render_target_pool.len(),
        }
    }

    /// The device texture that `texture_id` names; none for `Invalid`.
    pub open spec fn resolve(self, texture_id: SourceTexture) -> Option<Texture> {
        match texture_id {
            SourceTexture::Invalid => None,
            SourceTexture::CacheA8 => Some(self.a8_or_dummy()),
            SourceTexture::CacheRGBA8 => Some(self.rgba8_or_dummy()),
            SourceTexture::External(_) => None,
            SourceTexture::TextureCache(index) => Some(self.cache_texture_map[index.0 as int]),
            SourceTexture::RenderTaskCacheRGBA8(pass) => Some(
                self.render_target_pool[self.pass_rgba8_textures[pass.0] as int],
            ),
            SourceTexture::RenderTaskCacheA8(pass) => Some(
                self.render_target_pool[self.pass_a8_textures[pass.0] as int],
            ),
        }
    }

    /// `texture_id` can be bound now: it resolves, or it is an external
    /// image that was locked.
    pub open spec fn can_bind(self, texture_id: SourceTexture) -> bool {
        match texture_id {
            SourceTexture::External(image) => self.external(image.id, image.channel_index) is Some,
            _ => self.can_resolve(texture_id),
        }
    }

    /// The device after binding `texture_id` to `sampler`: nothing for
    /// `Invalid`, otherwise one bind of the texture that the name stands for.
    pub open spec fn bind(self, d: DeviceView, texture_id: SourceTexture, sampler: TextureSampler) -> DeviceView {
        match texture_id {
            SourceTexture::Invalid => d,
            SourceTexture::External(image) => d.emit(
                DeviceCommand::BindExternalTexture {
                    slot: sampler.spec_slot(),
                    texture: self.external(image.id, image.channel_index)->0,
                },
            ),
            _ => d.emit(
                DeviceCommand::BindTexture {
                    slot: sampler.spec_slot(),
                    texture: self.resolve(texture_id)->0.id,
                },
            ),
        }
    }

    /// The resolver at the start of a frame: the records of which pooled
    /// texture holds the output of which pass are forgotten.
    pub open spec fn begin_frame(self) -> ResolverView {
        ResolverView { pass_rgba8_textures: Map::empty(), pass_a8_textures: Map::empty(), ..self }
    }

    /// The pool after the colour output of the previous pass went back.
    pub open spec fn pool_after_rgba8(self) -> Seq<Texture> {
        match self.cache_rgba8_texture {
            Some(t) => self.render_target_pool.push(t),
            None => self.render_target_pool,
        }
    }

    /// The resolver after a pass ended with the outputs `a8_texture` and
    /// `rgba8_texture`: the outputs of the pass before it go to the end of
    /// the pool, colour first, and are recorded under that pass; the new
    /// outputs become what `CacheA8` and `CacheRGBA8` stand for.
    pub open spec fn end_pass(
        self,
        a8_texture: Option<Texture>,
        rgba8_texture: Option<Texture>,
        pass_index: RenderPassIndex,
    ) -> ResolverView {
        ResolverView {
            pass_rgba8_textures: match self.cache_rgba8_texture {
                Some(_) => self.pass_rgba8_textures.insert(
                    (pass_index.0 - 1) as usize,
                    self.render_target_pool.len() as usize,
                ),
                None => self.pass_rgba8_textures,
            },
            pass_a8_textures: match self.cache_a8_texture {
                Some(_) => self.pass_a8_textures.insert(
                    (pass_index.0 - 1) as usize,
                    self.pool_after_rgba8().len() as usize,
                ),
                None => self.pass_a8_textures,
            },
            render_target_pool: match self.cache_a8_texture {
                Some(t) => self.pool_after_rgba8().push(t),
                None => self.pool_after_rgba8(),
            },
            cache_rgba8_texture: rgba8_texture,
            cache_a8_texture: a8_texture,
            ..self
        }
    }
}

/// Resolves the texture names of a frame to device textures.
#[derive(Debug)]
pub struct SourceTextureResolver {
    /// The textures of the texture cache, by their slot.
    pub cache_texture_map: Vec<Texture>,
    /// The external images that are locked for this frame.
    pub external_images: Vec<ExternalImageEntry>,
    /// A 1x1 texture for shaders that read a cache before any pass drew one.
    pub dummy_cache_texture: Texture,
    /// The colour output of the previous pass.
    pub cache_rgba8_texture: Option<Texture>,
    /// The coverage output of the previous pass.
    pub cache_a8_texture: Option<Texture>,
    /// Which pooled texture holds the colour output of which pass.
    pub pass_rgba8_textures: HashMap<usize, usize>,
    /// Which pooled texture holds the coverage output of which pass.
    pub pass_a8_textures: HashMap<usize, usize>,
    /// The render target textures that no pass is using.
    pub render_target_pool: Vec<Texture>,
}

impl View for SourceTextureResolver {
    type V = ResolverView;

    open spec fn view(&self) -> ResolverView {
        ResolverView {
            cache_texture_map: self.cache_texture_map@,
            external_images: self.external_images@,
            dummy_cache_texture: self.dummy_cache_texture,
            cache_rgba8_texture: self.cache_rgba8_texture,
            cache_a8_texture: self.cache_a8_texture,
            pass_rgba8_textures: self.pass_rgba8_textures@,
            pass_a8_textures: self.pass_a8_textures@,
            render_target_pool: self.render_target_pool@,
        }
    }
}


/// The first perfect match at or after `start` lies between `start` and
/// the size of the pool; if it is a texture, that texture answers to the
/// selector and none between `start` and it does; if it is not, none from
/// `start` on does.
pub proof fn lemma_first_perfect_match_from(pool: Seq<Texture>, selector: TargetSelector, start: int)
    requires
        0 <= start <= pool.len(),
    ensures
        start <= first_perfect_match_from(pool, selector, start) <= pool.len(),
        first_perfect_match_from(pool, selector, start) < pool.len() ==> TargetSelector::of(
            pool[first_perfect_match_from(pool, selector, start)],
        ) == selector,
        forall|j: int|
            start <= j < first_perfect_match_from(pool, selector, start) ==> TargetSelector::of(
                #[trigger] pool[j],
            ) != selector,
    decreases pool.len() - start,
{
    if start < pool.len() && TargetSelector::of(pool[start]) != selector {
        lemma_first_perfect_match_from(pool, selector, start + 1);
    }
}

/// A texture that goes to the end of a pool in which nothing answers to its
/// selector is the one that a later perfect match for that selector finds.
pub proof fn lemma_pool_round_trip(pool: Seq<Texture>, texture: Texture, start: int)
    requires
        0 <= start <= pool.len(),
        forall|j: int|
            start <= j < pool.len() ==> TargetSelector::of(#[trigger] pool[j]) != TargetSelector::of(
                texture,
            ),
    ensures
        first_perfect_match_from(pool.push(texture), TargetSelector::of(texture), start)
            == pool.len(),
        pool.push(texture)[pool.len() as int] == texture,
    decreases pool.len() - start,
{
    if start < pool.len() {
        assert(pool.push(texture)[start] == pool[start]);
        lemma_pool_round_trip(pool, texture, start + 1);
    }
}

impl SourceTextureResolver {
    /// A resolver with an empty pool, and the 1x1 dummy texture
    /// created on `device`.
    pub fn new(device: &mut Device) -> (resolver: SourceTextureResolver)
        ensures
            resolver@.cache_texture_map.len() == 0,
            resolver@.external_images.len() == 0,
            resolver@.render_target_pool.len() == 0,
            resolver@.cache_a8_texture is None,
            resolver@.cache_rgba8_texture is None,
            resolver@.pass_a8_textures == Map::<usize, usize>::empty(),
            resolver@.pass_rgba8_textures == Map::<usize, usize>::empty(),
            resolver@.dummy_cache_texture == Texture::blank(
                old(device)@.next_texture(),
                ImageFormat::BGRA8,
            ).initialized(1, 1, TextureFilter::Linear, None, 1),
            final(device)@ == old(device)@.create_texture(ImageFormat::BGRA8).init_texture(
                resolver@.dummy_cache_texture,
            ),
    {
        let mut dummy_cache_texture = device.create_texture(ImageFormat::BGRA8);
        device.init_texture(&mut dummy_cache_texture, 1, 1, TextureFilter::Linear, None, 1);
        SourceTextureResolver {
            cache_texture_map: Vec::new(),
            external_images: Vec::new(),
            dummy_cache_texture,
            cache_a8_texture: None,
            cache_rgba8_texture: None,
            pass_rgba8_textures: HashMap::new(),
            pass_a8_textures: HashMap::new(),
            render_target_pool: Vec::new(),
        }
    }

    /// Forgets which pooled texture holds the output of which pass.
    pub fn begin_frame(&mut self)
        requires
            old(self).cache_rgba8_texture is None,
            old(self).cache_a8_texture is None,
        ensures
            final(self)@ == old(self)@.begin_frame(),
    {
        self.pass_rgba8_textures.clear();
        self.pass_a8_textures.clear();
    }

    /// Ends a pass whose outputs are `a8_texture` and `rgba8_texture`.
    pub fn end_pass(
        &mut self,
        a8_texture: Option<Texture>,
        rgba8_texture: Option<Texture>,
        pass_index: RenderPassIndex,
    )
        requires
            old(self).cache_rgba8_texture is Some || old(self).cache_a8_texture is Some
                ==> pass_index.0 > 0,
        ensures
            final(self)@ == old(self)@.end_pass(a8_texture, rgba8_texture, pass_index),
    {
        if let Some(texture) = self.cache_rgba8_texture.take() {
            self.pass_rgba8_textures.insert(pass_index.0 - 1, self.render_target_pool.len());
            self.render_target_pool.push(texture);
        }
        if let Some(texture) = self.cache_a8_texture.take() {
            self.pass_a8_textures.insert(pass_index.0 - 1, self.render_target_pool.len());
            self.render_target_pool.push(texture);
        }
        self.cache_rgba8_texture = rgba8_texture;
        self.cache_a8_texture = a8_texture;
    }

    /// Ends the frame after its last pass: the outputs of that pass go back
    /// to the pool.
    pub fn end_frame(&mut self, pass_index: RenderPassIndex)
        requires
            old(self).cache_rgba8_texture is Some || old(self).cache_a8_texture is Some
                ==> pass_index.0 > 0,
        ensures
            final(self)@ == old(self)@.end_pass(None, None, pass_index),
    {
        self.end_pass(None, None, pass_index)
    }

    /// The device texture that `texture_id` names; none for `Invalid`.
    pub fn resolve(&self, texture_id: &SourceTexture) -> (texture: Option<&Texture>)
        requires
            self@.can_resolve(*texture_id),
        ensures
            match texture {
                Some(t) => self@.resolve(*texture_id) == Some(*t),
                None => self@.resolve(*texture_id) is None,
            },
    {
        match *texture_id {
            SourceTexture::Invalid => None,
            SourceTexture::CacheA8 => match &self.cache_a8_texture {
                Some(t) => Some(t),
                None => Some(&self.dummy_cache_texture),
            },
            SourceTexture::CacheRGBA8 => match &self.cache_rgba8_texture {
                Some(t) => Some(t),
                None => Some(&self.dummy_cache_texture),
            },
            SourceTexture::External(_) => None,
            SourceTexture::TextureCache(index) => Some(&self.cache_texture_map[index.0]),
            SourceTexture::RenderTaskCacheRGBA8(pass_index) => {
                match self.pass_rgba8_textures.get(&pass_index.0) {
                    Some(pool_index) => Some(&self.render_target_pool[*pool_index]),
                    None => None,
                }
            },
            SourceTexture::RenderTaskCacheA8(pass_index) => {
                match self.pass_a8_textures.get(&pass_index.0) {
                    Some(pool_index) => Some(&self.render_target_pool[*pool_index]),
                    None => None,
                }
            },
        }
    }

    /// The texture of an external image that was locked, if it was.
    pub fn external_image(&self, id: ExternalImageId, channel_index: u8) -> (texture: Option<
        ExternalTexture,
    >)
        ensures
            texture == self@.external(id, channel_index),
    {
        let mut i: usize = 0;
        while i < self.external_images.len()
            invariant
                i <= self.external_images@.len(),
                find_external(self.external_images@, id, channel_index) == find_external_from(
                    self.external_images@,
                    id,
                    channel_index,
                    i as int,
                ),
            decreases self.external_images@.len() - i,
        {
            let entry = self.external_images[i];
            if entry.id == id && entry.channel_index == channel_index {
                return Some(entry.texture);
            }
            i += 1;
        }
        None
    }

    /// Binds the texture that `texture_id` names to `sampler`.
    pub fn bind(&self, texture_id: &SourceTexture, sampler: TextureSampler, device: &mut Device)
        requires
            self@.can_bind(*texture_id),
        ensures
            final(device)@ == self@.bind(old(device)@, *texture_id, sampler),
    {
        match *texture_id {
            SourceTexture::Invalid => {},
            SourceTexture::External(image) => {
                match self.external_image(image.id, image.channel_index) {
                    Some(texture) => device.bind_external_texture(sampler.slot(), &texture),
                    None => {},
                }
            },
            _ => {
                match self.resolve(texture_id) {
                    Some(texture) => device.bind_texture(sampler.slot(), texture),
                    None => {},
                }
            },
        }
    }
}


impl<T: RenderTarget> RenderTargetList<T> {
    /// What a pooled texture must have to serve the list as it is.
    pub open spec fn selector(&self) -> TargetSelector {
        TargetSelector {
            size: self.max_size,
            num_layers: self.targets@.len() as usize,
            format: self.format,
        }
    }

    /// `source` after it was set up for the list: the list's size, one
    /// layer per target, linear filtering, and a depth buffer exactly when
    /// a target needs it.
    pub open spec fn prepared(&self, source: Texture) -> Texture {
        source.initialized(
            self.max_size.width,
            self.max_size.height,
            TextureFilter::Linear,
            Some(RenderTargetInfo { has_depth: self.spec_needs_depth() }),
            self.targets@.len() as i32,
        )
    }
}

/// A texture that was set up for a list answers to the list's selector,
/// provided it has the list's format.
pub proof fn lemma_prepared_matches<T: RenderTarget>(list: RenderTargetList<T>, source: Texture)
    requires
        list.targets@.len() <= i32::MAX,
        source.format == list.format,
    ensures
        TargetSelector::of(list.prepared(source)) == list.selector(),
        list.prepared(source).id == source.id,
{
}

/// The outcome of looking for a texture for a target list.
pub struct Prepared {
    pub device: DeviceView,
    pub pool: Seq<Texture>,
    /// The texture of the list afterwards.
    pub texture: Option<Texture>,
}

/// What looking for a texture for the targets of `list` leads to.
///
/// A list without targets, or one that has a texture already, is left
/// alone. With `perfect_only`, the first pooled texture that answers to
/// the list's size, layer count and format is taken, and nothing happens
/// when there is none. Without it, the first pooled texture of the list's
/// format is taken, and a texture is created when there is none. The
/// texture that was found leaves the pool, is set up for the list and
/// becomes the list's texture.
pub open spec fn prepare_list<T: RenderTarget>(
    d: DeviceView,
    pool: Seq<Texture>,
    list: RenderTargetList<T>,
    perfect_only: bool,
) -> Prepared {
    let pos = if perfect_only {
        first_perfect_match(pool, list.selector())
    } else {
        first_format_match(pool, list.format)
    };
    if list.targets@.len() == 0 || list.texture is Some || (perfect_only && pos >= pool.len()) {
        Prepared { device: d, pool, texture: list.texture }
    } else if pos < pool.len() {
        Prepared {
            device: d.init_texture(list.prepared(pool[pos])),
            pool: pool_without(pool, pos),
            texture: Some(list.prepared(pool[pos])),
        }
    } else {
        let created = Texture::blank(d.next_texture(), list.format);
        Prepared {
            device: d.create_texture(list.format).init_texture(list.prepared(created)),
            pool,
            texture: Some(list.prepared(created)),
        }
    }
}

impl SourceTextureResolver {
    /// Finds a texture for the targets of `list`.
    ///
    /// A list without targets, or one that has a texture already, is left
    /// alone. With `perfect_only`, the first pooled texture that answers to
    /// the list's size, layer count and format is taken, and nothing happens
    /// when there is none. Without it, the first pooled texture of the
    /// list's format is taken, and a texture is created when there is none.
    /// The texture that was found is set up for the list and becomes the
    /// list's texture.
    pub fn prepare_target_list<T: RenderTarget>(
        &mut self,
        device: &mut Device,
        list: &mut RenderTargetList<T>,
        perfect_only: bool,
    )
        requires
            old(list).targets@.len() <= i32::MAX,
            perfect_only ==> old(list).texture is None,
        ensures
            final(list).format == old(list).format,
            final(list).max_size == old(list).max_size,
            final(list).targets == old(list).targets,
            final(self)@ == (ResolverView {
                render_target_pool: final(self)@.render_target_pool,
                ..old(self)@
            }),
            (Prepared {
                device: final(device)@,
                pool: final(self)@.render_target_pool,
                texture: final(list).texture,
            }) == prepare_list(
                old(device)@,
                old(self)@.render_target_pool,
                *old(list),
                perfect_only,
            ),
    {
        if list.targets.len() == 0 {
            return ;
        }
        if list.texture.is_some() {
            return ;
        }
        let layers = list.targets.len();
        let mut pos: usize = 0;
        let mut found = false;
        while pos < self.render_target_pool.len() && !found
            invariant
                pos <= self.render_target_pool@.len(),
                *self == *old(self),
                *list == *old(list),
                layers == list.targets@.len(),
                found ==> pos < self.render_target_pool@.len(),
                perfect_only ==> first_perfect_match(self.render_target_pool@, list.selector())
                    == if found {
                    pos as int
                } else {
                    first_perfect_match_from(self.render_target_pool@, list.selector(), pos as int)
                },
                !perfect_only ==> first_format_match(self.render_target_pool@, list.format)
                    == if found {
                    pos as int
                } else {
                    first_format_match_from(self.render_target_pool@, list.format, pos as int)
                },
            decreases self.render_target_pool@.len() - pos + if found { 0int } else { 1int },
        {
            let texture = &self.render_target_pool[pos];
            let matches = if perfect_only {
                texture.get_dimensions() == list.max_size
                    && texture.get_render_target_layer_count() == layers
                    && texture.get_format() == list.format
            } else {
                texture.get_format() == list.format
            };
            if matches {
                found = true;
            } else {
                pos += 1;
            }
        }
        let mut texture = if found {
            self.render_target_pool.swap_remove(pos)
        } else if perfect_only {
            return ;
        } else {
            device.create_texture(list.format)
        };
        let has_depth = list.needs_depth();
        device.init_texture(
            &mut texture,
            list.max_size.width,
            list.max_size.height,
            TextureFilter::Linear,
            Some(RenderTargetInfo { has_depth }),
            layers as i32,
        );
        list.texture = Some(texture);
    }

    /// Records the texture of an external image that was locked; an earlier
    /// record for the same image and channel is replaced.
    pub fn insert_external_image(&mut self, id: ExternalImageId, channel_index: u8, texture: ExternalTexture)
        ensures
            final(self)@ == (ResolverView {
                external_images: insert_external(
                    old(self)@.external_images,
                    ExternalImageEntry { id, channel_index, texture },
                ),
                ..old(self)@
            }),
            final(self)@.external(id, channel_index) == Some(texture),
            forall|other: ExternalImageId, channel: u8|
                other != id || channel != channel_index ==> #[trigger] final(self)@.external(
                    other,
                    channel,
                ) == old(self)@.external(other, channel),
            final(self)@.external_images.len() >= old(self)@.external_images.len(),
    {
        let entry = ExternalImageEntry { id, channel_index, texture };
        let mut i: usize = 0;
        while i < self.external_images.len()
            invariant
                i <= self.external_images@.len(),
                *self == *old(self),
                entry == (ExternalImageEntry { id, channel_index, texture }),
                find_external(self.external_images@, id, channel_index) == find_external_from(
                    self.external_images@,
                    id,
                    channel_index,
                    i as int,
                ),
            decreases self.external_images@.len() - i,
        {
            let here = self.external_images[i];
            if here.id == id && here.channel_index == channel_index {
                let ghost before = self.external_images@;
                assert(before == old(self)@.external_images);
                assert(find_external(before, id, channel_index) == i);
                self.external_images[i] = entry;
                proof {
                    lemma_find_external_update(before, i as int, entry);
                    assert forall|other: ExternalImageId, channel: u8|
                        other != id || channel != channel_index implies #[trigger] self@.external(
                        other,
                        channel,
                    ) == old(self)@.external(other, channel) by {
                        lemma_find_external_from(before, other, channel, 0);
                    }
                }
                return ;
            }
            i += 1;
        }
        let ghost before = self.external_images@;
        assert(find_external(before, id, channel_index) == before.len());
        self.external_images.push(entry);
        proof {
            lemma_find_external_push(before, entry);
            assert forall|other: ExternalImageId, channel: u8|
                other != id || channel != channel_index implies #[trigger] self@.external(
                other,
                channel,
            ) == old(self)@.external(other, channel) by {
                lemma_find_external_from(before, other, channel, 0);
            }
        }
    }

    /// Destroys every texture that the resolver holds: the dummy texture,
    /// then the textures of the texture cache, then the pooled ones.
    pub fn deinit(self, device: &mut Device)
        ensures
            final(device)@ == delete_textures(
                delete_textures(
                    old(device)@.emit(DeviceCommand::DeleteTexture(self@.dummy_cache_texture.id)),
                    self@.cache_texture_map,
                    self@.cache_texture_map.len(),
                ),
                self@.render_target_pool,
                self@.render_target_pool.len(),
            ),
    {
        device.emit(DeviceCommand::DeleteTexture(self.dummy_cache_texture.id));
        let ghost first = device@;
        let mut i: usize = 0;
        while i < self.cache_texture_map.len()
            invariant
                i <= self.cache_texture_map@.len(),
                device@ == delete_textures(first, self.cache_texture_map@, i as nat),
            decreases self.cache_texture_map@.len() - i,
        {
            device.emit(DeviceCommand::DeleteTexture(self.cache_texture_map[i].id));
            i += 1;
        }
        let ghost second = device@;
        let mut j: usize = 0;
        while j < self.render_target_pool.len()
            invariant
                j <= self.render_target_pool@.len(),
                device@ == delete_textures(second, self.render_target_pool@, j as nat),
            decreases self.render_target_pool@.len() - j,
        {
            device.emit(DeviceCommand::DeleteTexture(self.render_target_pool[j].id));
            j += 1;
        }
    }
}

/// The device after the first `n` of `textures` were destroyed, in order.
pub open spec fn delete_textures(d: DeviceView, textures: Seq<Texture>, n: nat) -> DeviceView
    decreases n,
{
    if n == 0 {
        d
    } else {
        delete_textures(d, textures, (n - 1) as nat).emit(
            DeviceCommand::DeleteTexture(textures[n - 1].id),
        )
    }
}

/// The first entry for an image at or after `start` lies between `start`
/// and the number of entries, and if it is an entry, it is for the image.
pub proof fn lemma_find_external_from(
    entries: Seq<ExternalImageEntry>,
    id: ExternalImageId,
    channel: u8,
    start: int,
)
    requires
        0 <= start <= entries.len(),
    ensures
        start <= find_external_from(entries, id, channel, start) <= entries.len(),
        find_external_from(entries, id, channel, start) < entries.len() ==> {
            &&& entries[find_external_from(entries, id, channel, start)].id == id
            &&& entries[find_external_from(entries, id, channel, start)].channel_index == channel
        },
    decreases entries.len() - start,
{
    if start < entries.len() && !(entries[start].id == id && entries[start].channel_index
        == channel) {
        lemma_find_external_from(entries, id, channel, start + 1);
    }
}

/// Replacing the entry at the first position of an image by another entry
/// for the same image changes what that image resolves to and nothing else.
pub proof fn lemma_find_external_update(
    entries: Seq<ExternalImageEntry>,
    pos: int,
    entry: ExternalImageEntry,
)
    requires
        0 <= pos < entries.len(),
        entries[pos].id == entry.id,
        entries[pos].channel_index == entry.channel_index,
    ensures
        forall|id: ExternalImageId, channel: u8, start: int|
            0 <= start <= entries.len() ==> #[trigger] find_external_from(
                entries.update(pos, entry),
                id,
                channel,
                start,
            ) == find_external_from(entries, id, channel, start),
{
    assert forall|id: ExternalImageId, channel: u8, start: int|
        0 <= start <= entries.len() implies #[trigger] find_external_from(
        entries.update(pos, entry),
        id,
        channel,
        start,
    ) == find_external_from(entries, id, channel, start) by {
        lemma_find_external_update_at(entries, pos, entry, id, channel, start);
    }
}

proof fn lemma_find_external_update_at(
    entries: Seq<ExternalImageEntry>,
    pos: int,
    entry: ExternalImageEntry,
    id: ExternalImageId,
    channel: u8,
    start: int,
)
    requires
        0 <= pos < entries.len(),
        entries[pos].id == entry.id,
        entries[pos].channel_index == entry.channel_index,
        0 <= start <= entries.len(),
    ensures
        find_external_from(entries.update(pos, entry), id, channel, start) == find_external_from(
            entries,
            id,
            channel,
            start,
        ),
    decreases entries.len() - start,
{
    if start < entries.len() {
        lemma_find_external_update_at(entries, pos, entry, id, channel, start + 1);
    }
}

/// Appending an entry for an image that has none makes the image resolve
/// to it and changes nothing else.
pub proof fn lemma_find_external_push(entries: Seq<ExternalImageEntry>, entry: ExternalImageEntry)
    ensures
        forall|id: ExternalImageId, channel: u8, start: int|
            0 <= start <= entries.len() ==> #[trigger] find_external_from(
                entries.push(entry),
                id,
                channel,
                start,
            ) == if find_external_from(entries, id, channel, start) < entries.len() || id
                != entry.id || channel != entry.channel_index {
                find_external_from(entries, id, channel, start) + if find_external_from(
                    entries,
                    id,
                    channel,
                    start,
                ) < entries.len() {
                    0int
                } else {
                    1int
                }
            } else {
                entries.len() as int
            },
{
    assert forall|id: ExternalImageId, channel: u8, start: int|
        0 <= start <= entries.len() implies #[trigger] find_external_from(
        entries.push(entry),
        id,
        channel,
        start,
    ) == if find_external_from(entries, id, channel, start) < entries.len() || id != entry.id
        || channel != entry.channel_index {
        find_external_from(entries, id, channel, start) + if find_external_from(
            entries,
            id,
            channel,
            start,
        ) < entries.len() {
            0int
        } else {
            1int
        }
    } else {
        entries.len() as int
    } by {
        lemma_find_external_push_at(entries, entry, id, channel, start);
    }
}

proof fn lemma_find_external_push_at(
    entries: Seq<ExternalImageEntry>,
    entry: ExternalImageEntry,
    id: ExternalImageId,
    channel: u8,
    start: int,
)
    requires
        0 <= start <= entries.len(),
    ensures
        find_external_from(entries.push(entry), id, channel, start) == if find_external_from(
            entries,
            id,
            channel,
            start,
        ) < entries.len() || id != entry.id || channel != entry.channel_index {
            find_external_from(entries, id, channel, start) + if find_external_from(
                entries,
                id,
                channel,
                start,
            ) < entries.len() {
                0int
            } else {
                1int
            }
        } else {
            entries.len() as int
        },
    decreases entries.len() - start,
{
    let pushed = entries.push(entry);
    if start < entries.len() {
        assert(pushed[start] == entries[start]);
        lemma_find_external_push_at(entries, entry, id, channel, start + 1);
    } else {
        assert(pushed[start] == entry);
        assert(find_external_from(pushed, id, channel, start + 1) == pushed.len());
    }
}


impl SourceTextureResolver {
    /// Whether `texture_id` names a device texture that exists now.
    pub fn can_resolve(&self, texture_id: &SourceTexture) -> (b: bool)
        ensures
            b == self@.can_resolve(*texture_id),
    {
        match *texture_id {
            SourceTexture::Invalid => true,
            SourceTexture::CacheA8 => true,
            SourceTexture::CacheRGBA8 => true,
            SourceTexture::External(_) => false,
            SourceTexture::TextureCache(index) => index.0 < self.cache_texture_map.len(),
            SourceTexture::RenderTaskCacheRGBA8(pass) => match self.pass_rgba8_textures.get(
                &pass.0,
            ) {
                Some(pool_index) => *pool_index < self.render_target_pool.len(),
                None => false,
            },
            SourceTexture::RenderTaskCacheA8(pass) => match self.pass_a8_textures.get(&pass.0) {
                Some(pool_index) => *pool_index < self.render_target_pool.len(),
                None => false,
            },
        }
    }

    /// Whether `texture_id` can be bound now.
    pub fn can_bind(&self, texture_id: &SourceTexture) -> (b: bool)
        ensures
            b == self@.can_bind(*texture_id),
    {
        match *texture_id {
            SourceTexture::External(image) => self.external_image(
                image.id,
                image.channel_index,
            ).is_some(),
            _ => self.can_resolve(texture_id),
        }
    }
}


/// Pool round trip: a texture that was set up for a target list and went
/// back to the pool at the end of its pass is the texture that the search
/// for a perfect match finds for a list of the same size, layer count and
/// format, unless an earlier texture of the pool answers too; and no
/// texture is created for the list.
pub proof fn lemma_round_trip_reuses_texture<T: RenderTarget>(
    d: DeviceView,
    pool: Seq<Texture>,
    source: Texture,
    first: RenderTargetList<T>,
    second: RenderTargetList<T>,
)
    requires
        first.targets@.len() > 0,
        first.targets@.len() <= i32::MAX,
        source.format == first.format,
        second.selector() == first.selector(),
        second.texture is None,
        forall|j: int|
            0 <= j < pool.len() ==> TargetSelector::of(#[trigger] pool[j]) != first.selector(),
    ensures
        ({
            let returned = pool.push(first.prepared(source));
            let found = prepare_list(d, returned, second, true);
            &&& found.texture matches Some(texture)
            &&& texture.id == source.id
            &&& texture == second.prepared(first.prepared(source))
            &&& found.pool == pool
            &&& found.device == d.init_texture(texture)
            &&& found.device.textures == d.textures
        }),
{
    let texture = first.prepared(source);
    lemma_prepared_matches(first, source);
    lemma_pool_round_trip(pool, texture, 0);
    let returned = pool.push(texture);
    assert(pool_without(returned, pool.len() as int) =~= pool);
}

/// No image and channel has two entries.
pub open spec fn external_unique(entries: Seq<ExternalImageEntry>) -> bool {
    forall|i: int, j: int|
        0 <= i < entries.len() && 0 <= j < entries.len() && (#[trigger] entries[i]).id == (
        #[trigger] entries[j]).id && entries[i].channel_index == entries[j].channel_index ==> i == j
}

/// The external images are a map from image and channel to texture:
/// recording an entry keeps every image at one entry, and afterwards the
/// image of the entry resolves to it.
pub proof fn lemma_insert_external_unique(entries: Seq<ExternalImageEntry>, entry: ExternalImageEntry)
    requires
        external_unique(entries),
    ensures
        external_unique(insert_external(entries, entry)),
        find_external(insert_external(entries, entry), entry.id, entry.channel_index)
            < insert_external(entries, entry).len(),
        insert_external(entries, entry)[find_external(
            insert_external(entries, entry),
            entry.id,
            entry.channel_index,
        )] == entry,
{
    let after = insert_external(entries, entry);
    let pos = find_external(entries, entry.id, entry.channel_index);
    lemma_find_external_from(entries, entry.id, entry.channel_index, 0);
    lemma_find_external_from(after, entry.id, entry.channel_index, 0);
    assert(after[pos] == entry);
    assert forall|i: int, j: int|
        0 <= i < after.len() && 0 <= j < after.len() && (#[trigger] after[i]).id == (
        #[trigger] after[j]).id && after[i].channel_index
            == after[j].channel_index implies i == j by {
        if pos < entries.len() {
            assert(after[i].id == entries[i].id && after[i].channel_index
                == entries[i].channel_index);
            assert(after[j].id == entries[j].id && after[j].channel_index
                == entries[j].channel_index);
        } else {
            lemma_no_external_before(entries, entry.id, entry.channel_index, 0);
            if i < entries.len() {
                assert(after[i] == entries[i]);
            }
            if j < entries.len() {
                assert(after[j] == entries[j]);
            }
        }
    }
    let found = find_external(after, entry.id, entry.channel_index);
    lemma_no_external_before(after, entry.id, entry.channel_index, 0);
    if found > pos {
        assert(!(after[pos].id == entry.id && after[pos].channel_index == entry.channel_index));
    }
    assert(found <= pos);
    assert(after[found].id == entry.id && after[found].channel_index == entry.channel_index);
    assert(found == pos);
}

/// No entry before the first entry for an image is for that image.
pub proof fn lemma_no_external_before(
    entries: Seq<ExternalImageEntry>,
    id: ExternalImageId,
    channel: u8,
    start: int,
)
    requires
        0 <= start <= entries.len(),
    ensures
        forall|k: int|
            start <= k < find_external_from(entries, id, channel, start) ==> !((
            #[trigger] entries[k]).id == id && entries[k].channel_index == channel),
    decreases entries.len() - start,
{
    if start < entries.len() && !(entries[start].id == id && entries[start].channel_index
        == channel) {
        lemma_no_external_before(entries, id, channel, start + 1);
    }
}

} // verus!
