use webrender::api::{ExternalImageData, ExternalImageId, ExternalImageType, ImageFormat};
use webrender::device::DeviceCapabilities;
use webrender::device::{
    Device, DeviceCommand, ExternalTexture, RenderTargetInfo, Texture, TextureFilter, TextureId,
    TextureSlot, TextureTarget,
};
use webrender::internal_types::{CacheTextureId, RenderPassIndex, SourceTexture};
use webrender::renderer::TextureSampler;
use webrender::texture_resolver::SourceTextureResolver;
use webrender::tiling::{AlphaRenderTarget, ColorRenderTarget, RenderTargetList};
use webrender::units::DeviceUintSize;

const CAPS: DeviceCapabilities =
    DeviceCapabilities { max_texture_size: 4096, supports_dual_source_blending: true };

fn color_list(width: u32, height: u32, layers: usize) -> RenderTargetList<ColorRenderTarget> {
    let mut list = RenderTargetList::new(ImageFormat::BGRA8);
    list.max_size = DeviceUintSize::new(width, height);
    for _ in 0..layers {
        list.targets.push(ColorRenderTarget::new());
    }
    list
}

fn alpha_list(width: u32, height: u32, layers: usize) -> RenderTargetList<AlphaRenderTarget> {
    let mut list = RenderTargetList::new(ImageFormat::A8);
    list.max_size = DeviceUintSize::new(width, height);
    for _ in 0..layers {
        list.targets.push(AlphaRenderTarget::new());
    }
    list
}

#[test]
fn a_new_resolver_creates_the_dummy_texture() {
    let mut device = Device::new(CAPS);
    let resolver = SourceTextureResolver::new(&mut device);
    assert_eq!(
        device.commands,
        vec![
            DeviceCommand::CreateTexture { id: TextureId(0), format: ImageFormat::BGRA8 },
            DeviceCommand::InitTexture {
                id: TextureId(0),
                width: 1,
                height: 1,
                filter: TextureFilter::Linear,
                render_target: None,
                layer_count: 1
            },
        ]
    );
    assert_eq!(resolver.dummy_cache_texture.id, TextureId(0));
    assert_eq!(resolver.dummy_cache_texture.get_dimensions(), DeviceUintSize::new(1, 1));
    assert!(resolver.render_target_pool.is_empty());
    assert_eq!(resolver.resolve(&SourceTexture::CacheA8).unwrap().id, TextureId(0));
    assert_eq!(resolver.resolve(&SourceTexture::CacheRGBA8).unwrap().id, TextureId(0));
    assert!(resolver.resolve(&SourceTexture::Invalid).is_none());
}

#[test]
fn pool_round_trip_reuses_the_texture() {
    let mut device = Device::new(CAPS);
    let mut resolver = SourceTextureResolver::new(&mut device);

    // First frame: nothing in the pool, so the perfect pass finds nothing
    // and the fallback pass creates a texture.
    let mut list = color_list(256, 128, 2);
    resolver.prepare_target_list(&mut device, &mut list, true);
    assert!(list.texture.is_none());
    resolver.prepare_target_list(&mut device, &mut list, false);
    let first_id = list.texture.as_ref().unwrap().id;
    assert_eq!(first_id, TextureId(1));
    assert_eq!(list.texture.as_ref().unwrap().get_dimensions(), DeviceUintSize::new(256, 128));
    assert_eq!(list.texture.as_ref().unwrap().get_render_target_layer_count(), 2);
    assert_eq!(list.texture.as_ref().unwrap().get_format(), ImageFormat::BGRA8);

    // The pass ends, then the frame: the texture is back in the pool.
    resolver.begin_frame();
    resolver.end_pass(None, list.texture.take(), RenderPassIndex(0));
    resolver.end_frame(RenderPassIndex(1));
    assert_eq!(resolver.render_target_pool.len(), 1);
    assert!(resolver.cache_rgba8_texture.is_none());

    // Next frame: the same request finds the same texture, and nothing is
    // created.
    let created_before = device.textures.len();
    let commands_before = device.commands.len();
    let mut again = color_list(256, 128, 2);
    resolver.prepare_target_list(&mut device, &mut again, true);
    assert_eq!(again.texture.as_ref().unwrap().id, first_id);
    assert_eq!(device.textures.len(), created_before);
    assert!(resolver.render_target_pool.is_empty());
    assert_eq!(
        &device.commands[commands_before..],
        &[DeviceCommand::InitTexture {
            id: first_id,
            width: 256,
            height: 128,
            filter: TextureFilter::Linear,
            render_target: Some(RenderTargetInfo { has_depth: false }),
            layer_count: 2
        }]
    );
}

#[test]
fn a_mismatch_on_any_field_is_no_perfect_match() {
    let mut device = Device::new(CAPS);
    let mut resolver = SourceTextureResolver::new(&mut device);
    let mut list = color_list(256, 128, 2);
    resolver.prepare_target_list(&mut device, &mut list, false);
    resolver.render_target_pool.push(list.texture.take().unwrap());

    let mut wider = color_list(257, 128, 2);
    resolver.prepare_target_list(&mut device, &mut wider, true);
    assert!(wider.texture.is_none());
    let mut more_layers = color_list(256, 128, 3);
    resolver.prepare_target_list(&mut device, &mut more_layers, true);
    assert!(more_layers.texture.is_none());
    let mut other_format = alpha_list(256, 128, 2);
    resolver.prepare_target_list(&mut device, &mut other_format, true);
    assert!(other_format.texture.is_none());
    assert_eq!(resolver.render_target_pool.len(), 1);

    // The fallback takes the pooled texture of the format and resizes it.
    let created_before = device.textures.len();
    resolver.prepare_target_list(&mut device, &mut wider, false);
    assert_eq!(wider.texture.as_ref().unwrap().id, TextureId(1));
    assert_eq!(wider.texture.as_ref().unwrap().get_dimensions(), DeviceUintSize::new(257, 128));
    assert_eq!(device.textures.len(), created_before);
    assert!(resolver.render_target_pool.is_empty());
    // Nothing of the other format is pooled: a texture is created.
    resolver.prepare_target_list(&mut device, &mut other_format, false);
    assert_eq!(other_format.texture.as_ref().unwrap().id, TextureId(2));
    assert_eq!(device.textures.len(), created_before + 1);
}

#[test]
fn lists_without_targets_or_with_a_texture_are_left_alone() {
    let mut device = Device::new(CAPS);
    let mut resolver = SourceTextureResolver::new(&mut device);
    let before = device.commands.len();
    let mut empty = color_list(0, 0, 0);
    resolver.prepare_target_list(&mut device, &mut empty, false);
    assert!(empty.texture.is_none());
    let mut list = color_list(16, 16, 1);
    resolver.prepare_target_list(&mut device, &mut list, false);
    let commands = device.commands.len();
    assert!(commands > before);
    resolver.prepare_target_list(&mut device, &mut list, false);
    assert_eq!(device.commands.len(), commands);
    assert!(list.check_ready());
    assert!(empty.check_ready());
    assert!(!color_list(16, 16, 1).check_ready());
}

#[test]
fn the_outputs_of_a_pass_are_what_the_next_pass_reads() {
    let mut device = Device::new(CAPS);
    let mut resolver = SourceTextureResolver::new(&mut device);
    let mut alpha = alpha_list(64, 64, 1);
    let mut color = color_list(64, 64, 1);
    resolver.prepare_target_list(&mut device, &mut alpha, false);
    resolver.prepare_target_list(&mut device, &mut color, false);
    let alpha_id = alpha.texture.as_ref().unwrap().id;
    let color_id = color.texture.as_ref().unwrap().id;

    resolver.begin_frame();
    resolver.end_pass(alpha.texture.take(), color.texture.take(), RenderPassIndex(0));
    assert_eq!(resolver.resolve(&SourceTexture::CacheA8).unwrap().id, alpha_id);
    assert_eq!(resolver.resolve(&SourceTexture::CacheRGBA8).unwrap().id, color_id);
    assert!(!resolver.can_resolve(&SourceTexture::RenderTaskCacheA8(RenderPassIndex(0))));

    resolver.end_pass(None, None, RenderPassIndex(1));
    assert_eq!(resolver.resolve(&SourceTexture::CacheA8).unwrap().id, TextureId(0));
    assert!(resolver.can_resolve(&SourceTexture::RenderTaskCacheA8(RenderPassIndex(0))));
    assert_eq!(
        resolver.resolve(&SourceTexture::RenderTaskCacheA8(RenderPassIndex(0))).unwrap().id,
        alpha_id
    );
    assert_eq!(
        resolver.resolve(&SourceTexture::RenderTaskCacheRGBA8(RenderPassIndex(0))).unwrap().id,
        color_id
    );
    assert!(!resolver.can_resolve(&SourceTexture::RenderTaskCacheRGBA8(RenderPassIndex(1))));
    // Colour goes back to the pool before coverage.
    let pool: Vec<TextureId> = resolver.render_target_pool.iter().map(|t| t.id).collect();
    assert_eq!(pool, vec![color_id, alpha_id]);

    resolver.begin_frame();
    assert!(!resolver.can_resolve(&SourceTexture::RenderTaskCacheA8(RenderPassIndex(0))));
}

#[test]
fn binding_records_one_command_per_texture() {
    let mut device = Device::new(CAPS);
    let mut resolver = SourceTextureResolver::new(&mut device);
    resolver.cache_texture_map.push(Texture {
        id: TextureId(7),
        width: 8,
        height: 8,
        layer_count: 1,
        format: ImageFormat::A8,
        filter: TextureFilter::Nearest,
        render_target: None,
    });
    let image = ExternalImageData {
        id: ExternalImageId(9),
        channel_index: 1,
        image_type: ExternalImageType::TextureHandle(TextureTarget::Rect),
    };
    assert!(!resolver.can_bind(&SourceTexture::External(image)));
    resolver.insert_external_image(
        ExternalImageId(9),
        1,
        ExternalTexture::new(33, TextureTarget::Rect),
    );
    assert!(resolver.can_bind(&SourceTexture::External(image)));
    assert!(resolver.can_bind(&SourceTexture::TextureCache(CacheTextureId(0))));
    assert!(!resolver.can_bind(&SourceTexture::TextureCache(CacheTextureId(1))));
    let before = device.commands.len();
    resolver.bind(&SourceTexture::Invalid, TextureSampler::Color0, &mut device);
    resolver.bind(&SourceTexture::TextureCache(CacheTextureId(0)), TextureSampler::Color1, &mut device);
    resolver.bind(&SourceTexture::External(image), TextureSampler::Color2, &mut device);
    resolver.bind(&SourceTexture::CacheA8, TextureSampler::CacheA8, &mut device);
    assert_eq!(
        &device.commands[before..],
        &[
            DeviceCommand::BindTexture { slot: TextureSlot(1), texture: TextureId(7) },
            DeviceCommand::BindExternalTexture {
                slot: TextureSlot(2),
                texture: ExternalTexture::new(33, TextureTarget::Rect)
            },
            DeviceCommand::BindTexture { slot: TextureSlot(3), texture: TextureId(0) },
        ]
    );
}

#[test]
fn a_later_record_of_an_external_image_replaces_the_earlier_one() {
    let mut device = Device::new(CAPS);
    let mut resolver = SourceTextureResolver::new(&mut device);
    let a = ExternalTexture::new(1, TextureTarget::Default);
    let b = ExternalTexture::new(2, TextureTarget::Default);
    let c = ExternalTexture::new(3, TextureTarget::Default);
    resolver.insert_external_image(ExternalImageId(5), 0, a);
    resolver.insert_external_image(ExternalImageId(5), 1, b);
    resolver.insert_external_image(ExternalImageId(5), 0, c);
    assert_eq!(resolver.external_images.len(), 2);
    assert_eq!(resolver.external_image(ExternalImageId(5), 0), Some(c));
    assert_eq!(resolver.external_image(ExternalImageId(5), 1), Some(b));
    assert_eq!(resolver.external_image(ExternalImageId(6), 0), None);
}

#[test]
fn deinit_destroys_every_texture() {
    let mut device = Device::new(CAPS);
    let mut resolver = SourceTextureResolver::new(&mut device);
    let mut list = color_list(4, 4, 1);
    resolver.prepare_target_list(&mut device, &mut list, false);
    resolver.render_target_pool.push(list.texture.take().unwrap());
    let before = device.commands.len();
    resolver.deinit(&mut device);
    assert_eq!(
        &device.commands[before..],
        &[
            DeviceCommand::DeleteTexture(TextureId(0)),
            DeviceCommand::DeleteTexture(TextureId(1)),
        ]
    );
}
