use webrender::api::{
    ColorF, DebugCommand, DocumentId, Epoch, ExternalImageData, ExternalImageId,
    ExternalImageType, F32Bits, FontRenderMode, ImageFormat, PipelineId, TexelRect,
};
use webrender::batch::{Batch, BatchKey, BatchKind, BatchTextures, BrushBatchKind};
use webrender::device::{
    Device, DeviceCapabilities, DeviceCommand, ExternalTexture, FrameId, ReadPixelsFormat,
    TextureFilter, TextureId, TextureSlot, TextureTarget, UploadData,
};
use webrender::frame::LockedOutput;
use webrender::gpu_cache::{CacheBus, GpuBlockData, GpuCacheUpdate, GpuCacheUpdateList};
use webrender::gpu_types::{GpuCacheAddress, PrimitiveInstance};
use webrender::internal_types::{
    BackendProfileCounters, CacheTextureId, ClipId, DebugOutput, RenderedDocument, ResultMsg,
    SourceTexture, TextureUpdate, TextureUpdateList, TextureUpdateOp, TextureUpdateSource,
};
use webrender::render_task::{
    RenderTargetIndex, RenderTask, RenderTaskId, RenderTaskKind, RenderTaskLocation,
    RenderTaskTree,
};
use webrender::renderer::{
    BlendMode, DebugFlags, ExternalImage, ExternalImageSource, FrameInputs, Renderer,
    RendererError, RendererOptions, RendererStats, ALPHA_PRIM_DBG, PROFILER_DBG,
};
use webrender::resources::LockedExternalImage;
use webrender::tiling::{
    AlphaRenderTarget, ColorRenderTarget, DeferredResolve, Frame, FrameOutput, RenderPass,
    RenderPassKind, RenderTargetList,
};
use webrender::units::{rect, DeviceIntSize, DeviceUintPoint, DeviceUintRect, DeviceUintSize};

const WINDOW: DeviceUintSize = DeviceUintSize { width: 800, height: 600 };

fn capabilities(max_texture_size: u32) -> DeviceCapabilities {
    DeviceCapabilities { max_texture_size, supports_dual_source_blending: true }
}

fn renderer() -> Renderer {
    let (mut renderer, _) = Renderer::new(RendererOptions::default(), capabilities(4096)).unwrap();
    renderer.device.commands.clear();
    renderer
}

fn inputs(now: u64) -> FrameInputs<'static> {
    FrameInputs { now, composite_time_ns: 7, external_images: Vec::new(), outputs: Vec::new() }
}

fn color(n: u32) -> ColorF {
    ColorF::new(F32Bits(n), F32Bits(n), F32Bits(n), F32Bits(n))
}

fn solid_batch(blend_mode: BlendMode, texture: SourceTexture) -> Batch {
    Batch {
        key: BatchKey::new(
            BatchKind::Brush(BrushBatchKind::Solid),
            blend_mode,
            BatchTextures::color(texture),
        ),
        instances: vec![PrimitiveInstance { data: [1; 8] }],
        item_rects: vec![rect(0, 0, 1, 1)],
    }
}

fn window_pass(opaque: bool) -> RenderPass {
    let mut target = ColorRenderTarget::new();
    if opaque {
        target
            .alpha_batcher
            .batch_list
            .opaque_batch_list
            .batches
            .push(solid_batch(BlendMode::NoBlend, SourceTexture::Invalid));
    }
    RenderPass { kind: RenderPassKind::MainFramebuffer(target), tasks: Vec::new() }
}

fn off_screen_pass(alpha_layers: usize, color_layers: usize, size: u32) -> RenderPass {
    let mut alpha = RenderTargetList::new(ImageFormat::A8);
    let mut color = RenderTargetList::new(ImageFormat::BGRA8);
    alpha.max_size = DeviceUintSize::new(size, size);
    color.max_size = DeviceUintSize::new(size, size);
    for _ in 0..alpha_layers {
        alpha.targets.push(AlphaRenderTarget::new());
    }
    for _ in 0..color_layers {
        color.targets.push(ColorRenderTarget::new());
    }
    RenderPass {
        kind: RenderPassKind::OffScreen { alpha, color, texture_cache: Vec::new() },
        tasks: Vec::new(),
    }
}

fn frame(layer: i8, background: Option<ColorF>, inner_rect: DeviceUintRect, passes: Vec<RenderPass>) -> Frame {
    Frame {
        window_size: WINDOW,
        inner_rect,
        background_color: background,
        layer,
        device_pixel_ratio: F32Bits(0x3f80_0000),
        passes,
        node_data: Vec::new(),
        clip_chain_local_clip_rects: Vec::new(),
        render_tasks: RenderTaskTree::new(),
        deferred_resolves: Vec::new(),
        gpu_cache_updates: None,
        has_been_rendered: false,
        has_texture_cache_tasks: false,
    }
}

fn whole_window() -> DeviceUintRect {
    DeviceUintRect::new(DeviceUintPoint::zero(), WINDOW)
}

fn part(x: u32, y: u32, w: u32, h: u32) -> DeviceUintRect {
    DeviceUintRect::new(DeviceUintPoint::new(x, y), DeviceUintSize::new(w, h))
}

fn document(frame: Frame) -> RenderedDocument {
    RenderedDocument { pipeline_epoch_map: Vec::new(), layers_bouncing_back: Vec::new(), frame }
}

fn publish(renderer: &mut Renderer, id: u32, frame: Frame) {
    renderer.update(
        ResultMsg::PublishDocument(
            DocumentId(0, id),
            document(frame),
            TextureUpdateList::new(),
            BackendProfileCounters {
                total_time_ns: 11,
                gpu_cache_updated_rows: 0,
                gpu_cache_updated_blocks: 0,
            },
        ));
}

fn window_clears(commands: &[DeviceCommand]) -> Vec<Option<ColorF>> {
    // The clears that follow a bind of the window at its size: one per
    // document that was drawn to the window.
    let mut clears = Vec::new();
    let mut window_bound = false;
    for c in commands {
        match c {
            DeviceCommand::BindDrawTarget { target, dimensions } => {
                window_bound = target.is_none() && dimensions.is_some();
            }
            DeviceCommand::ClearTarget { color, .. } if window_bound => {
                clears.push(*color);
                window_bound = false;
            }
            _ => {}
        }
    }
    clears
}

#[test]
fn a_device_with_small_textures_is_refused() {
    for size in [0, 1, 511] {
        match Renderer::new(RendererOptions::default(), capabilities(size)) {
            Err(RendererError::MaxTextureSize) => {}
            _ => panic!("a device with textures of {} must be refused", size),
        }
    }
    assert!(Renderer::new(RendererOptions::default(), capabilities(512)).is_ok());
}

#[test]
fn the_texture_size_is_capped_by_device_and_wish() {
    let size_with = |wish: Option<u32>, device: u32| {
        let mut options = RendererOptions::default();
        options.max_texture_size = wish;
        Renderer::new(options, capabilities(device)).ok().unwrap().0.get_max_texture_size()
    };
    assert_eq!(size_with(None, 4096), 4096);
    assert_eq!(size_with(Some(2048), 4096), 2048);
    assert_eq!(size_with(Some(8192), 4096), 4096);
    assert_eq!(size_with(Some(16), 4096), 512);
}

#[test]
fn a_new_renderer_has_recorded_one_frame() {
    let mut options = RendererOptions::default();
    options.enable_subpixel_aa = true;
    options.disable_dual_source_blending = true;
    options.debug_flags = DebugFlags { bits: PROFILER_DBG };
    let (renderer, config) = Renderer::new(options, capabilities(1024)).ok().unwrap();
    assert_eq!(
        renderer.device.commands,
        vec![
            DeviceCommand::BeginFrame,
            DeviceCommand::CreateTexture { id: TextureId(0), format: ImageFormat::BGRA8 },
            DeviceCommand::InitTexture {
                id: TextureId(0),
                width: 1,
                height: 1,
                filter: TextureFilter::Linear,
                render_target: None,
                layer_count: 1
            },
            DeviceCommand::EndFrame,
        ]
    );
    assert_eq!(renderer.device.frame_id, FrameId(1));
    assert_eq!(config.default_font_render_mode, FontRenderMode::Subpixel);
    assert!(config.dual_source_blending_is_enabled);
    assert!(!config.dual_source_blending_is_supported);
    assert_eq!(renderer.get_debug_flags(), DebugFlags { bits: PROFILER_DBG });
    let mut mono = RendererOptions::default();
    mono.enable_aa = false;
    mono.enable_subpixel_aa = true;
    let (_, config) = Renderer::new(mono, capabilities(1024)).ok().unwrap();
    assert_eq!(config.default_font_render_mode, FontRenderMode::Mono);
    let (_, config) = Renderer::new(RendererOptions::default(), capabilities(1024)).ok().unwrap();
    assert_eq!(config.default_font_render_mode, FontRenderMode::Alpha);
    assert!(config.dual_source_blending_is_supported);
}

#[test]
fn rendering_without_documents_only_notes_the_time() {
    let mut r = renderer();
    let stats = r.render_impl(Some(WINDOW), &inputs(42)).ok().unwrap();
    assert_eq!(stats, RendererStats::empty());
    assert!(r.device.commands.is_empty());
    assert_eq!(r.last_time, 42);
    assert_eq!(r.device.frame_id, FrameId(1));
}

#[test]
fn a_frame_is_drawn_pass_by_pass_and_counted() {
    let mut r = renderer();
    publish(
        &mut r,
        1,
        frame(0, Some(color(5)), whole_window(), vec![off_screen_pass(1, 2, 64), window_pass(true)]),
    );
    let stats = r.render_impl(Some(WINDOW), &inputs(10)).ok().unwrap();
    assert_eq!(
        stats,
        RendererStats { total_draw_calls: 0, alpha_target_count: 1, color_target_count: 3 }
    );
    let commands = &r.device.commands;
    assert_eq!(commands[0], DeviceCommand::BeginFrame);
    assert_eq!(*commands.last().unwrap(), DeviceCommand::EndFrame);
    assert_eq!(r.device.frame_id, FrameId(2));
    assert_eq!(r.last_time, 10);
    // The document covers the window and has a background, so the colour of
    // the window is cleared by the document only, with its background.
    assert_eq!(window_clears(commands), vec![Some(color(5))]);
    assert_eq!(first_clear(commands), (None, Some(F32Bits(0x3f80_0000))));
    // After the first pass its coverage output is bound for all later ones.
    assert!(commands
        .iter()
        .any(|c| matches!(c, DeviceCommand::BindTexture { slot: TextureSlot(9), .. })));
    let frame = &r.active_documents[0].1.frame;
    assert!(frame.has_been_rendered);
    match &frame.passes[0].kind {
        RenderPassKind::OffScreen { alpha, color, .. } => {
            assert!(alpha.texture.is_none());
            assert!(color.texture.is_none());
        }
        _ => panic!(),
    }
    // Both textures of the pass went back to the pool.
    assert_eq!(r.texture_resolver.render_target_pool.len(), 2);
    assert!(r.texture_resolver.cache_a8_texture.is_none());
    assert!(r.texture_resolver.cache_rgba8_texture.is_none());
}

#[test]
fn the_next_frame_draws_to_the_same_textures() {
    let mut r = renderer();
    publish(&mut r, 1, frame(0, None, whole_window(), vec![off_screen_pass(1, 1, 64), window_pass(false)]));
    r.render_impl(Some(WINDOW), &inputs(1)).ok().unwrap();
    let created = r.device.textures.len();
    assert_eq!(created, 3);
    r.device.commands.clear();
    publish(&mut r, 1, frame(0, None, whole_window(), vec![off_screen_pass(1, 1, 64), window_pass(false)]));
    r.render_impl(Some(WINDOW), &inputs(2)).ok().unwrap();
    assert_eq!(r.device.textures.len(), created);
    assert!(!r
        .device
        .commands
        .iter()
        .any(|c| matches!(c, DeviceCommand::CreateTexture { .. })));
    // A larger request cannot be matched perfectly; the pooled texture of
    // the format is resized.
    r.device.commands.clear();
    publish(&mut r, 1, frame(0, None, whole_window(), vec![off_screen_pass(1, 1, 128), window_pass(false)]));
    r.render_impl(Some(WINDOW), &inputs(3)).ok().unwrap();
    assert_eq!(r.device.textures.len(), created);
    let inits: Vec<(u32, u32)> = r
        .device
        .commands
        .iter()
        .filter_map(|c| match c {
            DeviceCommand::InitTexture { width, height, .. } => Some((*width, *height)),
            _ => None,
        })
        .collect();
    assert_eq!(inits, vec![(128, 128), (128, 128)]);
}

#[test]
fn the_latest_frame_of_a_document_wins() {
    let mut r = renderer();
    publish(&mut r, 1, frame(0, Some(color(1)), whole_window(), vec![window_pass(false)]));
    publish(&mut r, 2, frame(1, Some(color(9)), whole_window(), vec![window_pass(false)]));
    publish(&mut r, 1, frame(0, Some(color(2)), whole_window(), vec![window_pass(false)]));
    assert_eq!(r.active_documents.len(), 2);
    assert!(r.device.commands.is_empty());
    let ids: Vec<DocumentId> = r.active_documents.iter().map(|d| d.0).collect();
    assert_eq!(ids, vec![DocumentId(0, 1), DocumentId(0, 2)]);
    assert_eq!(r.active_documents[0].1.frame.background_color, Some(color(2)));
    r.render_impl(Some(WINDOW), &inputs(1)).ok().unwrap();
    let clears = window_clears(&r.device.commands);
    assert!(clears.contains(&Some(color(2))));
    assert!(!clears.contains(&Some(color(1))));
}

#[test]
fn a_frame_that_is_replaced_is_never_drawn() {
    let mut r = renderer();
    // Even a frame that has work for the texture cache is dropped as it
    // is when the next frame of its document arrives.
    let mut first = frame(0, Some(color(1)), whole_window(), vec![off_screen_pass(0, 1, 32), window_pass(false)]);
    first.has_texture_cache_tasks = true;
    assert!(first.must_be_drawn());
    publish(&mut r, 1, first);
    assert!(r.device.commands.is_empty());
    publish(&mut r, 1, frame(0, Some(color(2)), whole_window(), vec![window_pass(false)]));
    assert!(r.device.commands.is_empty());
    assert_eq!(r.device.frame_id, FrameId(1));
    assert_eq!(r.active_documents.len(), 1);
    assert_eq!(r.active_documents[0].0, DocumentId(0, 1));
    assert_eq!(r.active_documents[0].1.frame.background_color, Some(color(2)));
    assert!(!r.active_documents[0].1.frame.has_been_rendered);
    let stats = r.render_impl(Some(WINDOW), &inputs(1)).ok().unwrap();
    // Only the second frame is drawn: one clear of the window in its
    // colour, and no off-screen target of the first frame is bound.
    assert_eq!(window_clears(&r.device.commands), vec![Some(color(2))]);
    assert!(!r
        .device
        .commands
        .iter()
        .any(|c| matches!(c, DeviceCommand::BindDrawTarget { target: Some(_), .. })));
    assert_eq!(stats.color_target_count, 1);
    assert_eq!(stats.alpha_target_count, 0);
    // A frame that was rendered need not be drawn again.
    let mut second = frame(0, None, whole_window(), vec![window_pass(false)]);
    second.has_texture_cache_tasks = true;
    second.has_been_rendered = true;
    assert!(!second.must_be_drawn());
}

#[test]
fn documents_are_drawn_in_the_order_of_their_layers() {
    let mut r = renderer();
    publish(&mut r, 1, frame(3, Some(color(3)), part(0, 0, 10, 10), vec![window_pass(false)]));
    publish(&mut r, 2, frame(-1, Some(color(1)), part(20, 0, 10, 10), vec![window_pass(false)]));
    publish(&mut r, 3, frame(3, Some(color(4)), part(40, 0, 10, 10), vec![window_pass(false)]));
    publish(&mut r, 4, frame(0, Some(color(2)), part(60, 0, 10, 10), vec![window_pass(false)]));
    r.render_impl(Some(WINDOW), &inputs(1)).ok().unwrap();
    assert_eq!(
        window_clears(&r.device.commands),
        vec![Some(color(1)), Some(color(2)), Some(color(3)), Some(color(4))]
    );
    // No document covers the window: it is cleared to the colour of the
    // renderer first.
    assert_eq!(first_clear(&r.device.commands).0, RendererOptions::default().clear_color);
    let ids: Vec<u32> = r.active_documents.iter().map(|d| (d.0).1).collect();
    assert_eq!(ids, vec![2, 4, 1, 3]);
}

fn first_clear(commands: &[DeviceCommand]) -> (Option<ColorF>, Option<F32Bits>) {
    commands
        .iter()
        .find_map(|c| match c {
            DeviceCommand::ClearTarget { color, depth, .. } => Some((*color, *depth)),
            _ => None,
        })
        .unwrap()
}

#[test]
fn depth_is_cleared_once_unless_documents_overlap() {
    let far = Some(F32Bits(0x3f80_0000));
    let clear_color = RendererOptions::default().clear_color;
    // Apart: one clear of depth for the whole window.
    let mut r = renderer();
    publish(&mut r, 1, frame(0, None, part(0, 0, 100, 100), vec![window_pass(true)]));
    publish(&mut r, 2, frame(1, None, part(100, 0, 100, 100), vec![window_pass(true)]));
    assert!(!webrender::documents::are_documents_intersecting_depth(&r.active_documents));
    r.render_impl(Some(WINDOW), &inputs(1)).ok().unwrap();
    assert_eq!(first_clear(&r.device.commands), (clear_color, far));
    let depth_clears = r
        .device
        .commands
        .iter()
        .filter(|c| matches!(c, DeviceCommand::ClearTarget { depth: Some(_), .. }))
        .count();
    assert_eq!(depth_clears, 1);
    // Overlapping: every document clears the depth of its own part.
    let mut r = renderer();
    publish(&mut r, 1, frame(0, None, part(0, 0, 100, 100), vec![window_pass(true)]));
    publish(&mut r, 2, frame(1, None, part(50, 50, 100, 100), vec![window_pass(true)]));
    assert!(webrender::documents::are_documents_intersecting_depth(&r.active_documents));
    r.render_impl(Some(WINDOW), &inputs(1)).ok().unwrap();
    assert_eq!(first_clear(&r.device.commands), (clear_color, None));
    let depth_clears = r
        .device
        .commands
        .iter()
        .filter(|c| matches!(c, DeviceCommand::ClearTarget { depth: Some(_), rect: Some(_), .. }))
        .count();
    assert_eq!(depth_clears, 2);
    // Overlapping documents that do not use depth do not count.
    let mut r = renderer();
    publish(&mut r, 1, frame(0, None, part(0, 0, 100, 100), vec![window_pass(false)]));
    publish(&mut r, 2, frame(1, None, part(50, 50, 100, 100), vec![window_pass(true)]));
    assert!(!webrender::documents::are_documents_intersecting_depth(&r.active_documents));
}

#[test]
fn cancelled_rendering_drops_the_documents() {
    let mut r = renderer();
    publish(&mut r, 1, frame(0, None, whole_window(), vec![window_pass(false)]));
    r.update(
        ResultMsg::UpdateResources { updates: TextureUpdateList::new(), cancel_rendering: false });
    assert_eq!(r.active_documents.len(), 1);
    r.update(
        ResultMsg::UpdateResources { updates: TextureUpdateList::new(), cancel_rendering: true });
    assert!(r.active_documents.is_empty());
    assert_eq!(r.render_impl(Some(WINDOW), &inputs(5)).ok().unwrap(), RendererStats::empty());
}

#[test]
fn texture_cache_updates_are_applied_in_order() {
    let mut r = renderer();
    let create = |id: usize, format: ImageFormat, width: u32| TextureUpdate {
        id: CacheTextureId(id),
        op: TextureUpdateOp::Create {
            width,
            height: 4,
            format,
            filter: TextureFilter::Nearest,
            render_target: None,
            layer_count: 1,
        },
    };
    let updates = TextureUpdateList {
        updates: vec![
            create(0, ImageFormat::A8, 8),
            TextureUpdate {
                id: CacheTextureId(0),
                op: TextureUpdateOp::Update {
                    rect: part(0, 0, 2, 2),
                    stride: Some(2),
                    offset: 1,
                    layer_index: 0,
                    source: TextureUpdateSource::Bytes { data: vec![1, 2, 3, 4, 5] },
                },
            },
            // Slot 2 does not exist and is not the next one: dropped.
            create(2, ImageFormat::A8, 8),
            // A slot keeps its format: dropped.
            create(0, ImageFormat::BGRA8, 8),
            create(0, ImageFormat::A8, 16),
            TextureUpdate { id: CacheTextureId(0), op: TextureUpdateOp::Free },
            TextureUpdate { id: CacheTextureId(1), op: TextureUpdateOp::Free },
        ],
    };
    r.update(ResultMsg::UpdateResources { updates, cancel_rendering: false });
    let init = |width: u32| DeviceCommand::InitTexture {
        id: TextureId(1),
        width,
        height: 4,
        filter: TextureFilter::Nearest,
        render_target: None,
        layer_count: 1,
    };
    assert_eq!(
        r.device.commands,
        vec![
            DeviceCommand::CreateTexture { id: TextureId(1), format: ImageFormat::A8 },
            init(8),
            DeviceCommand::UploadTexture {
                id: TextureId(1),
                rect: part(0, 0, 2, 2),
                layer_index: 0,
                stride: Some(2),
                data: webrender::device::BufferId(0),
                offset: 1
            },
            init(16),
            DeviceCommand::FreeTextureStorage(TextureId(1)),
        ]
    );
    assert_eq!(r.device.buffers[0], UploadData::Bytes(vec![1, 2, 3, 4, 5]));
    assert_eq!(r.texture_resolver.cache_texture_map.len(), 1);
    assert_eq!(r.texture_resolver.cache_texture_map[0].get_dimensions(), DeviceUintSize::new(0, 0));
    assert!(r.pending_texture_updates.is_empty());
    // The updates that were refused wait to be reported, in order.
    let refused: Vec<usize> = r
        .renderer_errors
        .iter()
        .map(|e| match e {
            RendererError::InvalidUpdate(slot) => slot.0,
            other => panic!("{:?}", other),
        })
        .collect();
    assert_eq!(refused, vec![2, 0, 1]);
    // The next frame reports them, before what went wrong with documents.
    publish(&mut r, 1, frame(0, None, whole_window(), vec![window_pass(false)]));
    match r.render_impl(Some(WINDOW), &inputs(1)) {
        Err(errors) => {
            assert_eq!(errors.len(), 3);
            assert!(matches!(errors[0], RendererError::InvalidUpdate(CacheTextureId(2))));
            assert!(matches!(errors[2], RendererError::InvalidUpdate(CacheTextureId(1))));
        }
        Ok(_) => panic!("the refused updates were not reported"),
    }
    assert!(r.renderer_errors.is_empty());
    assert!(r.render_impl(Some(WINDOW), &inputs(2)).is_ok());
}

#[test]
fn a_frame_that_refers_to_a_missing_texture_is_reported() {
    let mut r = renderer();
    let mut pass = window_pass(false);
    if let RenderPassKind::MainFramebuffer(target) = &mut pass.kind {
        target
            .alpha_batcher
            .batch_list
            .alpha_batch_list
            .batches
            .push(solid_batch(BlendMode::Alpha, SourceTexture::TextureCache(CacheTextureId(3))));
    }
    publish(&mut r, 7, frame(0, None, whole_window(), vec![pass]));
    publish(&mut r, 8, frame(1, Some(color(8)), whole_window(), vec![window_pass(false)]));
    match r.render_impl(Some(WINDOW), &inputs(1)) {
        Err(errors) => {
            assert_eq!(errors.len(), 1);
            assert!(matches!(errors[0], RendererError::InvalidFrame(DocumentId(0, 7))));
        }
        Ok(_) => panic!("the frame cannot be drawn"),
    }
    // The other document was drawn, and the frame ended.
    assert!(window_clears(&r.device.commands).contains(&Some(color(8))));
    assert_eq!(*r.device.commands.last().unwrap(), DeviceCommand::EndFrame);
    assert!(!r.active_documents[0].1.frame.has_been_rendered);
    assert!(r.active_documents[1].1.frame.has_been_rendered);
    // The renderer stays usable.
    r.update(
        ResultMsg::UpdateResources { updates: TextureUpdateList::new(), cancel_rendering: true });
    publish(&mut r, 8, frame(1, None, whole_window(), vec![window_pass(false)]));
    assert!(r.render_impl(Some(WINDOW), &inputs(2)).is_ok());
}

#[test]
fn deferred_images_are_resolved_against_what_was_locked() {
    let mut r = renderer();
    let image = |id: u64| ExternalImageData {
        id: ExternalImageId(id),
        channel_index: 0,
        image_type: ExternalImageType::TextureHandle(TextureTarget::Rect),
    };
    let mut pass = window_pass(false);
    if let RenderPassKind::MainFramebuffer(target) = &mut pass.kind {
        target
            .alpha_batcher
            .batch_list
            .alpha_batch_list
            .batches
            .push(solid_batch(BlendMode::Alpha, SourceTexture::External(image(1))));
        target
            .alpha_batcher
            .batch_list
            .alpha_batch_list
            .batches
            .push(solid_batch(BlendMode::Alpha, SourceTexture::External(image(2))));
    }
    let mut f = frame(0, None, whole_window(), vec![pass]);
    f.deferred_resolves = vec![
        DeferredResolve { address: GpuCacheAddress::new(3, 2), external_image: Some(image(1)) },
        DeferredResolve { address: GpuCacheAddress::new(0, 0), external_image: Some(image(2)) },
    ];
    publish(&mut r, 1, f);
    let uv = TexelRect { u0: F32Bits(1), v0: F32Bits(2), u1: F32Bits(3), v1: F32Bits(4) };
    let none = TexelRect { u0: F32Bits(0), v0: F32Bits(0), u1: F32Bits(0), v1: F32Bits(0) };
    let frame_inputs = FrameInputs {
        now: 1,
        composite_time_ns: 0,
        external_images: vec![
            LockedExternalImage {
                id: ExternalImageId(1),
                channel_index: 0,
                image: ExternalImage { uv, source: ExternalImageSource::NativeTexture(77) },
            },
            LockedExternalImage {
                id: ExternalImageId(2),
                channel_index: 0,
                image: ExternalImage { uv: none, source: ExternalImageSource::Invalid },
            },
        ],
        outputs: Vec::new(),
    };
    r.render_impl(Some(WINDOW), &frame_inputs).ok().unwrap();
    let bound: Vec<ExternalTexture> = r
        .device
        .commands
        .iter()
        .filter_map(|c| match c {
            DeviceCommand::BindExternalTexture { texture, .. } => Some(*texture),
            _ => None,
        })
        .collect();
    // The image that the embedder could not provide is bound as the handle
    // zero, and the frame is drawn all the same.
    assert_eq!(
        bound,
        vec![
            ExternalTexture::new(77, TextureTarget::Rect),
            ExternalTexture::new(0, TextureTarget::Rect)
        ]
    );
    let resets = r.device.commands.iter().filter(|c| **c == DeviceCommand::ResetState).count();
    assert_eq!(resets, 2);
    assert_eq!(
        r.take_images_to_unlock(),
        vec![(ExternalImageId(1), 0), (ExternalImageId(2), 0)]
    );
    assert!(r.texture_resolver.external_images.is_empty());
    assert!(r.take_images_to_unlock().is_empty());
    // The UV rectangle went to the GPU cache, followed by a block of zeros.
    match &r.gpu_cache_texture.bus {
        CacheBus::PixelBuffer { rows, cpu_blocks } => {
            assert_eq!(rows.len(), 3);
            assert!(rows.iter().all(|row| !row.is_dirty));
            assert_eq!(
                cpu_blocks[2 * 1024 + 3],
                GpuBlockData { data: [F32Bits(1), F32Bits(2), F32Bits(3), F32Bits(4)] }
            );
            assert_eq!(cpu_blocks[2 * 1024 + 4], GpuBlockData::empty());
            assert_eq!(cpu_blocks[0], GpuBlockData::empty());
        }
        _ => panic!(),
    }
    assert_eq!(r.gpu_cache_texture.get_height(), 3);
}

#[test]
fn the_gpu_cache_updates_of_a_frame_reach_the_device_when_it_is_drawn() {
    let mut r = renderer();
    let mut f = frame(0, None, whole_window(), vec![window_pass(false)]);
    let block = GpuBlockData { data: [F32Bits(9); 4] };
    f.gpu_cache_updates = Some(GpuCacheUpdateList {
        height: 2,
        updates: vec![GpuCacheUpdate::Copy {
            block_index: 0,
            block_count: 1,
            address: GpuCacheAddress::new(7, 1),
        }],
        blocks: vec![block],
    });
    publish(&mut r, 1, f);
    assert!(r.active_documents[0].1.frame.gpu_cache_updates.is_none());
    assert_eq!(r.pending_gpu_cache_updates.len(), 1);
    r.render_impl(Some(WINDOW), &inputs(1)).ok().unwrap();
    assert!(r.pending_gpu_cache_updates.is_empty());
    let uploads: Vec<DeviceUintRect> = r
        .device
        .commands
        .iter()
        .filter_map(|c| match c {
            DeviceCommand::UpdateResourceCache { rect, .. } => Some(*rect),
            _ => None,
        })
        .collect();
    assert_eq!(uploads, vec![part(0, 1, 1024, 1)]);
    assert!(r
        .device
        .commands
        .contains(&DeviceCommand::ResizeGpuCache { width: 1024, height: 2 }));
}

#[test]
fn the_output_of_a_pipeline_is_copied_to_the_texture_that_was_offered() {
    let mut r = renderer();
    let mut pass = window_pass(false);
    let mut tasks = RenderTaskTree::new();
    tasks.tasks.push(RenderTask {
        children: Vec::new(),
        kind: RenderTaskKind::Readback,
        size: DeviceUintSize::new(30, 20),
        location: Some(RenderTaskLocation {
            origin: DeviceUintPoint::new(3, 4),
            target_index: RenderTargetIndex(0),
        }),
    });
    if let RenderPassKind::MainFramebuffer(target) = &mut pass.kind {
        target.outputs.push(FrameOutput { task_id: RenderTaskId(0), pipeline_id: PipelineId(1, 2) });
        target.outputs.push(FrameOutput { task_id: RenderTaskId(0), pipeline_id: PipelineId(5, 5) });
    }
    let mut f = frame(0, None, whole_window(), vec![pass]);
    f.render_tasks = tasks;
    publish(&mut r, 1, f);
    let mut frame_inputs = inputs(1);
    frame_inputs.outputs.push(LockedOutput {
        pipeline_id: PipelineId(1, 2),
        texture_id: 99,
        size: DeviceIntSize::new(60, 40),
    });
    r.render_impl(Some(WINDOW), &frame_inputs).ok().unwrap();
    let fbo = webrender::device::FBOId(0);
    let at = r
        .device
        .commands
        .iter()
        .position(|c| *c == DeviceCommand::CreateFbo { id: fbo, texture: 99 })
        .unwrap();
    assert_eq!(
        &r.device.commands[at + 1..at + 4],
        &[
            DeviceCommand::BindReadTarget { target: None },
            DeviceCommand::BindExternalDrawTarget(fbo),
            DeviceCommand::BlitRenderTarget { src: rect(3, 4, 30, 20), dest: rect(0, 0, 60, 40) },
        ]
    );
    assert_eq!(r.output_targets.len(), 1);
    assert_eq!(r.output_targets[0].last_access, FrameId(1));
    // A frame that does not use the output gives it up.
    r.device.commands.clear();
    r.render_impl(Some(WINDOW), &inputs(2)).ok().unwrap();
    assert!(r.device.commands.contains(&DeviceCommand::DeleteFbo(fbo)));
    assert!(r.output_targets.is_empty());
}

#[test]
fn debug_commands_switch_flags() {
    let mut r = renderer();
    r.update(ResultMsg::DebugCommand(DebugCommand::EnableProfiler(true)));
    r.update(ResultMsg::DebugCommand(DebugCommand::EnableAlphaRectsDebug(true)));
    assert_eq!(r.get_debug_flags().bits(), PROFILER_DBG | ALPHA_PRIM_DBG);
    r.update(ResultMsg::DebugCommand(DebugCommand::EnableProfiler(false)));
    assert_eq!(r.get_debug_flags().bits(), ALPHA_PRIM_DBG);
    r.update(ResultMsg::DebugCommand(DebugCommand::FetchPasses));
    r.update(ResultMsg::DebugOutput(DebugOutput::FetchDocuments("x".to_string())));
    assert_eq!(r.get_debug_flags().bits(), ALPHA_PRIM_DBG);
    r.toggle_debug_flags(DebugFlags { bits: PROFILER_DBG | ALPHA_PRIM_DBG });
    assert_eq!(r.get_debug_flags().bits(), PROFILER_DBG);
    r.set_debug_flags(DebugFlags::empty());
    assert!(r.get_debug_flags().is_empty());
    r.update(ResultMsg::RefreshShader("ps_image".to_string()));
    assert_eq!(r.pending_shader_updates, vec!["ps_image".to_string()]);
}

#[test]
fn epochs_are_recorded_until_they_are_flushed() {
    let mut r = renderer();
    let mut doc = document(frame(0, None, whole_window(), vec![window_pass(false)]));
    doc.pipeline_epoch_map = vec![(PipelineId(0, 1), Epoch(4)), (PipelineId(0, 2), Epoch(5))];
    doc.layers_bouncing_back = vec![ClipId(1, PipelineId(0, 1))];
    let counters = BackendProfileCounters {
        total_time_ns: 0,
        gpu_cache_updated_rows: 0,
        gpu_cache_updated_blocks: 0,
    };
    assert!(!r.layers_are_bouncing_back());
    r.update(
        ResultMsg::PublishDocument(DocumentId(0, 1), doc, TextureUpdateList::new(), counters));
    assert!(r.layers_are_bouncing_back());
    let mut doc = document(frame(0, None, whole_window(), vec![window_pass(false)]));
    doc.pipeline_epoch_map = vec![(PipelineId(0, 1), Epoch(6))];
    r.update(
        ResultMsg::PublishDocument(DocumentId(0, 1), doc, TextureUpdateList::new(), counters));
    assert!(!r.layers_are_bouncing_back());
    assert_eq!(r.current_epoch(PipelineId(0, 1)), Some(Epoch(6)));
    assert_eq!(r.current_epoch(PipelineId(0, 2)), Some(Epoch(5)));
    assert_eq!(r.current_epoch(PipelineId(0, 3)), None);
    assert_eq!(
        r.flush_rendered_epochs(),
        vec![(PipelineId(0, 1), Epoch(6)), (PipelineId(0, 2), Epoch(5))]
    );
    assert_eq!(r.current_epoch(PipelineId(0, 1)), None);
}

#[test]
fn only_the_last_profiles_are_kept() {
    let mut options = RendererOptions::default();
    options.max_recorded_profiles = 2;
    let (mut r, _) = Renderer::new(options, capabilities(1024)).ok().unwrap();
    publish(&mut r, 1, frame(0, None, whole_window(), vec![window_pass(false)]));
    for now in 1..=3 {
        r.render_impl(Some(WINDOW), &inputs(now)).ok().unwrap();
    }
    let (cpu, gpu) = r.get_frame_profiles();
    let frames: Vec<FrameId> = cpu.iter().map(|p| p.frame_id).collect();
    assert_eq!(frames, vec![FrameId(2), FrameId(3)]);
    assert_eq!(cpu[0].backend_time_ns, 0);
    assert_eq!(cpu[0].composite_time_ns, 7);
    assert_eq!(gpu.len(), 2);
    assert_eq!(gpu[0].paint_time_ns, 0);
    let (cpu, gpu) = r.get_frame_profiles();
    assert!(cpu.is_empty() && gpu.is_empty());
    // Without a limit nothing is recorded.
    let mut r = renderer();
    publish(&mut r, 1, frame(0, None, whole_window(), vec![window_pass(false)]));
    r.render_impl(Some(WINDOW), &inputs(1)).ok().unwrap();
    assert!(r.get_frame_profiles().0.is_empty());
}

#[test]
fn swapping_buffers_resets_the_programs_that_exist() {
    let mut r = renderer();
    publish(&mut r, 1, frame(0, None, whole_window(), vec![window_pass(true)]));
    r.render_impl(Some(WINDOW), &inputs(1)).ok().unwrap();
    let created: Vec<DeviceCommand> = r
        .device
        .commands
        .iter()
        .filter(|c| matches!(c, DeviceCommand::CreateProgram(_)))
        .cloned()
        .collect();
    assert_eq!(created.len(), 1);
    r.device.commands.clear();
    r.swap_buffers();
    let program = match created[0] {
        DeviceCommand::CreateProgram(p) => p,
        _ => unreachable!(),
    };
    assert_eq!(
        r.device.commands,
        vec![DeviceCommand::SwapBuffers, DeviceCommand::ResetProgram(program)]
    );
}

#[test]
fn reading_pixels_asks_the_device() {
    let mut r = renderer();
    let first = r.read_pixels_rgba8(part(1, 2, 3, 5));
    let second = r.read_pixels_into(
        part(0, 0, 1, 1),
        ReadPixelsFormat::Standard(ImageFormat::A8),
        vec![9u8],
    );
    assert_eq!((first, second), (webrender::device::BufferId(0), webrender::device::BufferId(1)));
    assert_eq!(
        r.device.commands,
        vec![
            DeviceCommand::ReadPixels {
                rect: part(1, 2, 3, 5),
                format: ReadPixelsFormat::Rgba8,
                into: first,
            },
            DeviceCommand::ReadPixels {
                rect: part(0, 0, 1, 1),
                format: ReadPixelsFormat::Standard(ImageFormat::A8),
                into: second,
            },
        ]
    );
    // The blocks that receive the pixels: four zero bytes for each of the
    // fifteen pixels, and the buffer that was handed over.
    assert_eq!(r.device.buffers.len(), 2);
    assert_eq!(r.device.buffers[first.0], webrender::device::UploadData::Bytes(vec![0u8; 60]));
    assert_eq!(r.device.buffers[second.0], webrender::device::UploadData::Bytes(vec![9u8]));
    let info = r.get_graphics_api_info();
    assert_eq!((info.version.as_str(), info.renderer.as_str()), ("0.1", "wip"));
}

#[test]
fn the_end_of_a_renderer_destroys_what_it_holds() {
    let mut r = renderer();
    publish(&mut r, 1, frame(0, None, whole_window(), vec![off_screen_pass(0, 1, 8), window_pass(true)]));
    r.render_impl(Some(WINDOW), &inputs(1)).ok().unwrap();
    let device: Device = {
        r.device.commands.clear();
        r.deinit()
    };
    assert_eq!(device.commands[0], DeviceCommand::BeginFrame);
    assert_eq!(device.commands[1], DeviceCommand::DeleteTexture(TextureId(0)));
    assert_eq!(device.commands[2], DeviceCommand::DeleteTexture(TextureId(1)));
    assert!(matches!(device.commands[3], DeviceCommand::DeleteProgram(_)));
    assert_eq!(*device.commands.last().unwrap(), DeviceCommand::EndFrame);
    assert_eq!(device.commands.len(), 5);
    assert_eq!(device.frame_id, FrameId(3));
}

#[test]
fn errors_of_shaders_and_threads_become_renderer_errors() {
    let shader = webrender::device::ShaderError::Compilation("ps_image".to_owned(), "syntax".to_owned());
    match RendererError::from(shader) {
        RendererError::Shader(webrender::device::ShaderError::Compilation(name, message)) => {
            assert_eq!((name.as_str(), message.as_str()), ("ps_image", "syntax"));
        }
        other => panic!("{:?}", other),
    }
    let refused = std::io::Error::new(std::io::ErrorKind::Other, "no more threads");
    match RendererError::from(refused) {
        RendererError::Thread(error) => assert_eq!(error.kind(), std::io::ErrorKind::Other),
        other => panic!("{:?}", other),
    }
}

#[test]
fn the_debugger_is_told_what_every_target_holds() {
    let mut renderer = renderer();
    let mut off_screen = off_screen_pass(1, 1, 64);
    if let RenderPassKind::OffScreen { alpha, color, .. } = &mut off_screen.kind {
        let instance = webrender::gpu_types::ClipMaskInstance {
            render_task_address: webrender::gpu_types::RenderTaskAddress(0),
            scroll_node_data_index: webrender::gpu_types::ClipScrollNodeIndex(0),
            segment: 0,
            clip_data_address: GpuCacheAddress::new(0, 0),
            resource_address: GpuCacheAddress::new(0, 0),
        };
        alpha.targets[0].clip_batcher.rectangles = vec![instance; 3];
        alpha.targets[0].clip_batcher.images =
            vec![(SourceTexture::Invalid, vec![instance; 2]), (SourceTexture::Invalid, Vec::new())];
        color.targets[0].readbacks = vec![rect(0, 0, 1, 1)];
    }
    let mut window = window_pass(true);
    if let RenderPassKind::MainFramebuffer(target) = &mut window.kind {
        let batches = &mut target.alpha_batcher.batch_list;
        batches.opaque_batch_list.batches.push(Batch {
            key: BatchKey::new(BatchKind::Blend, BlendMode::NoBlend, BatchTextures::no_texture()),
            instances: vec![PrimitiveInstance { data: [2; 8] }; 4],
            item_rects: vec![rect(0, 0, 1, 1); 4],
        });
        batches.alpha_batch_list.batches.push(solid_batch(BlendMode::Alpha, SourceTexture::Invalid));
    }
    publish(&mut renderer, 1, frame(0, None, whole_window(), vec![off_screen, window]));
    let report = renderer.get_passes_for_debugger();
    assert_eq!(report.kind, "passes");
    assert_eq!(report.passes.len(), 2);
    let lines = |target: &webrender::debug_server::Target| -> Vec<(webrender::debug_server::BatchKind, &'static str, usize)> {
        target.batches.iter().map(|b| (b.kind, b.description, b.count)).collect()
    };
    use_kinds(&report, &lines);
}

fn use_kinds(
    report: &webrender::debug_server::PassList,
    lines: &dyn Fn(
        &webrender::debug_server::Target,
    ) -> Vec<(webrender::debug_server::BatchKind, &'static str, usize)>,
) {
    let clip = webrender::debug_server::BatchKind::Clip;
    let cache = webrender::debug_server::BatchKind::Cache;
    let opaque = webrender::debug_server::BatchKind::Opaque;
    let alpha = webrender::debug_server::BatchKind::Alpha;
    let off_screen = &report.passes[0].targets;
    assert_eq!(off_screen.len(), 2);
    assert_eq!(off_screen[0].kind, "A8");
    // Work of which there is none gets no line.
    assert_eq!(lines(&off_screen[0]), vec![(clip, "Rectangles", 3), (clip, "Image mask", 2)]);
    assert_eq!(off_screen[1].kind, "RGBA8");
    assert_eq!(lines(&off_screen[1]), vec![(cache, "Readbacks", 1)]);
    let window = &report.passes[1].targets;
    assert_eq!(window.len(), 1);
    // Opaque batches are listed as they are drawn: the last one first.
    assert_eq!(
        lines(&window[0]),
        vec![(opaque, "Blend", 4), (opaque, "Brush (Solid)", 1), (alpha, "Brush (Solid)", 1)]
    );
}

#[test]
fn the_data_of_a_frame_reaches_the_device_block_by_block() {
    let mut renderer = renderer();
    let mut numbers = (1u32..).map(F32Bits);
    let mut take = |n: usize| -> Vec<F32Bits> { numbers.by_ref().take(n).collect() };
    let node = webrender::tiling::ClipScrollNodeData {
        transform: take(16).try_into().unwrap(),
        local_clip_rect: take(4).try_into().unwrap(),
        reference_frame_relative_scroll_offset: take(2).try_into().unwrap(),
        scroll_offset: take(2).try_into().unwrap(),
        transform_kind: take(1)[0],
        padding: take(3).try_into().unwrap(),
    };
    let clip = webrender::tiling::LayerRect {
        x: F32Bits(101),
        y: F32Bits(102),
        width: F32Bits(103),
        height: F32Bits(104),
    };
    let mut frame = frame(0, None, whole_window(), vec![window_pass(true)]);
    frame.node_data = vec![node];
    frame.clip_chain_local_clip_rects = vec![clip];
    publish(&mut renderer, 1, frame);
    renderer.render_impl(Some(WINDOW), &inputs(1)).unwrap();
    let device = &renderer.device;
    let nodes = device
        .commands
        .iter()
        .find_map(|c| match c {
            DeviceCommand::UpdateNodeData(id) => Some(*id),
            _ => None,
        })
        .expect("the nodes were not handed over");
    match &device.buffers[nodes.0] {
        webrender::device::UploadData::NodeData(blocks) => {
            assert_eq!(blocks.len(), 1);
            let expected: Vec<F32Bits> = (1u32..=28).map(F32Bits).collect();
            assert_eq!(blocks[0].to_vec(), expected);
        }
        other => panic!("{:?}", other),
    }
    let rects = device
        .commands
        .iter()
        .find_map(|c| match c {
            DeviceCommand::UpdateLocalRects(id) => Some(*id),
            _ => None,
        })
        .expect("the rectangles were not handed over");
    assert!(rects.0 > nodes.0);
    match &device.buffers[rects.0] {
        webrender::device::UploadData::LocalRects(blocks) => {
            assert_eq!(blocks, &vec![[F32Bits(101), F32Bits(102), F32Bits(103), F32Bits(104)]]);
        }
        other => panic!("{:?}", other),
    }
}

#[test]
fn rendering_reads_the_clock() {
    let mut r = renderer();
    let mut first = inputs(0);
    r.render(WINDOW, &mut first).ok().unwrap();
    assert!(first.now > 0);
    assert_eq!(r.last_time, first.now);
    assert_eq!(first.composite_time_ns, 7);
    let mut second = inputs(0);
    r.render(WINDOW, &mut second).ok().unwrap();
    assert!(second.now >= first.now);
    assert_eq!(r.last_time, second.now);
    // A message draws nothing and leaves the time alone.
    r.update(ResultMsg::RefreshShader("ps_image".to_string()));
    assert_eq!(r.last_time, second.now);
}

fn draws(commands: &[DeviceCommand]) -> usize {
    commands.iter().filter(|c| matches!(c, DeviceCommand::Draw(_))).count()
}

#[test]
fn a_frame_that_brings_something_malformed_is_reported_and_not_drawn() {
    let image = |id: u64, image_type: ExternalImageType| ExternalImageData {
        id: ExternalImageId(id),
        channel_index: 0,
        image_type,
    };
    let texture = ExternalImageType::TextureHandle(TextureTarget::Rect);
    let locked = |source: ExternalImageSource<'static>| FrameInputs {
        now: 1,
        composite_time_ns: 0,
        external_images: vec![LockedExternalImage {
            id: ExternalImageId(1),
            channel_index: 0,
            image: ExternalImage {
                uv: TexelRect { u0: F32Bits(0), v0: F32Bits(0), u1: F32Bits(0), v1: F32Bits(0) },
                source,
            },
        }],
        outputs: Vec::new(),
    };
    let resolve = |external_image| DeferredResolve { address: GpuCacheAddress::new(0, 0), external_image };
    let cases: Vec<(Vec<DeferredResolve>, FrameInputs<'static>)> = vec![
        // No external image at all.
        (vec![resolve(None)], locked(ExternalImageSource::NativeTexture(7))),
        // An image that is a buffer.
        (
            vec![resolve(Some(image(1, ExternalImageType::Buffer)))],
            locked(ExternalImageSource::NativeTexture(7)),
        ),
        // An image that was not locked.
        (vec![resolve(Some(image(2, texture)))], locked(ExternalImageSource::NativeTexture(7))),
        // An image that was locked as raw data.
        (vec![resolve(Some(image(1, texture)))], locked(ExternalImageSource::RawData(&[1, 2, 3]))),
    ];
    for (deferred_resolves, frame_inputs) in cases {
        let mut r = renderer();
        let mut f = frame(0, None, whole_window(), vec![window_pass(true)]);
        f.deferred_resolves = deferred_resolves;
        publish(&mut r, 5, f);
        match r.render_impl(Some(WINDOW), &frame_inputs) {
            Err(errors) => {
                assert_eq!(errors.len(), 1);
                assert!(matches!(errors[0], RendererError::InvalidFrame(DocumentId(0, 5))));
            }
            Ok(_) => panic!("the frame was not reported"),
        }
        assert_eq!(draws(&r.device.commands), 0);
        assert!(!r.active_documents[0].1.frame.has_been_rendered);
        assert_eq!(*r.device.commands.last().unwrap(), DeviceCommand::EndFrame);
    }
    // The same frame with what it needs is drawn.
    let mut r = renderer();
    let mut f = frame(0, None, whole_window(), vec![window_pass(true)]);
    f.deferred_resolves = vec![resolve(Some(image(1, texture)))];
    publish(&mut r, 5, f);
    assert!(r.render_impl(Some(WINDOW), &locked(ExternalImageSource::NativeTexture(7))).is_ok());
    assert_eq!(draws(&r.device.commands), 1);
    assert!(r.active_documents[0].1.frame.has_been_rendered);
}

#[test]
fn a_malformed_gpu_cache_list_fails_the_document_that_waits_for_it() {
    let mut r = renderer();
    let mut f = frame(0, None, whole_window(), vec![window_pass(true)]);
    // The instruction reads two blocks of a payload of one.
    f.gpu_cache_updates = Some(GpuCacheUpdateList {
        height: 1,
        updates: vec![GpuCacheUpdate::Copy {
            block_index: 0,
            block_count: 2,
            address: GpuCacheAddress::new(0, 0),
        }],
        blocks: vec![GpuBlockData::empty()],
    });
    publish(&mut r, 1, f);
    publish(&mut r, 2, frame(1, None, whole_window(), vec![window_pass(true)]));
    match r.render_impl(Some(WINDOW), &inputs(1)) {
        Err(errors) => {
            assert_eq!(errors.len(), 1);
            assert!(matches!(errors[0], RendererError::InvalidFrame(DocumentId(0, 1))));
        }
        Ok(_) => panic!("the list was not reported"),
    }
    // The first document took the list and was not drawn; the second was.
    assert_eq!(draws(&r.device.commands), 1);
    assert!(!r.active_documents[0].1.frame.has_been_rendered);
    assert!(r.active_documents[1].1.frame.has_been_rendered);
    assert!(r.pending_gpu_cache_updates.is_empty());
    assert_eq!(r.gpu_cache_texture.get_height(), 1);
    match &r.gpu_cache_texture.bus {
        CacheBus::PixelBuffer { rows, .. } => assert!(rows.is_empty()),
        _ => panic!(),
    }
    // The next frame has nothing to complain of.
    assert!(r.render_impl(Some(WINDOW), &inputs(2)).is_ok());
}
