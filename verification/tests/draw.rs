use webrender::api::{ColorF, F32Bits, ImageFormat};
use webrender::batch::{
    Batch, BatchKey, BatchKind, BatchTextures, BrushBatchKind, GlyphFormat, TransformBatchKind,
};
use webrender::device::DeviceCapabilities;
use webrender::device::{
    BlendState, BrushPass, BrushProgram, BufferId, DepthFunction, Device, DeviceCommand,
    PrimitiveProgram, Projection, RenderTargetInfo, ShaderId, TextProgram, TextVariant, Texture,
    TextureFilter, TextureId, TextureSlot, UploadData,
};
use webrender::draw::{
    check_alpha_batch, check_batch, check_blits, check_color_target, check_composite,
    check_opaque_batch, check_task, draw_alpha_target, draw_color_target, draw_text_run_batch,
    draw_texture_cache_target, handle_blits, handle_scaling, submit_batch, DrawContext,
};
use webrender::gpu_types::{
    BlurDirection, BlurInstance, ClipMaskInstance, ClipScrollNodeIndex, GpuCacheAddress,
    PrimitiveInstance, RenderTaskAddress,
};
use webrender::internal_types::{CacheTextureId, SourceTexture};
use webrender::render_task::{
    ContentOrigin, RenderTargetIndex, RenderTargetKind, RenderTask, RenderTaskId, RenderTaskKind,
    RenderTaskLocation, RenderTaskTree,
};
use webrender::renderer::{BlendMode, ImageBufferKind};
use webrender::shaders::Shaders;
use webrender::texture_resolver::SourceTextureResolver;
use webrender::tiling::{
    AlphaRenderTarget, BlitJob, BlitJobSource, ColorRenderTarget, ScalingInfo,
    TextureCacheRenderTarget,
};
use webrender::units::{rect, DeviceIntPoint, DeviceUintPoint, DeviceUintRect, DeviceUintSize};
use webrender::util::TransformedRectKind;

const CAPS: DeviceCapabilities =
    DeviceCapabilities { max_texture_size: 4096, supports_dual_source_blending: true };

struct World {
    device: Device,
    resolver: SourceTextureResolver,
    shaders: Shaders,
    tasks: RenderTaskTree,
}

fn placed(kind: RenderTaskKind, x: u32, y: u32, w: u32, h: u32, layer: usize) -> RenderTask {
    RenderTask {
        children: Vec::new(),
        kind,
        size: DeviceUintSize::new(w, h),
        location: Some(RenderTaskLocation {
            origin: DeviceUintPoint::new(x, y),
            target_index: RenderTargetIndex(layer),
        }),
    }
}

fn picture(sx: i32, sy: i32, x: u32, y: u32, w: u32, h: u32, layer: usize) -> RenderTask {
    placed(
        RenderTaskKind::Picture {
            content_origin: ContentOrigin::Screen(DeviceIntPoint::new(sx, sy)),
            target_kind: RenderTargetKind::Color,
        },
        x,
        y,
        w,
        h,
        layer,
    )
}

fn world() -> World {
    let mut device = Device::new(CAPS);
    let mut resolver = SourceTextureResolver::new(&mut device);
    resolver.cache_texture_map.push(Texture {
        id: TextureId(40),
        width: 32,
        height: 16,
        layer_count: 2,
        format: ImageFormat::BGRA8,
        filter: TextureFilter::Linear,
        render_target: Some(RenderTargetInfo { has_depth: false }),
    });
    let mut tasks = RenderTaskTree::new();
    tasks.tasks.push(picture(100, 200, 0, 0, 10, 20, 0));
    tasks.tasks.push(picture(110, 220, 0, 20, 30, 40, 1));
    tasks.tasks.push(placed(RenderTaskKind::Readback, 5, 60, 7, 9, 2));
    tasks.tasks.push(RenderTask {
        children: Vec::new(),
        kind: RenderTaskKind::Readback,
        size: DeviceUintSize::new(1, 1),
        location: None,
    });
    device.commands.clear();
    World { device, resolver, shaders: Shaders::new(false), tasks }
}

fn solid_batch(blend_mode: BlendMode, n: i32) -> Batch {
    Batch {
        key: BatchKey::new(
            BatchKind::Brush(BrushBatchKind::Solid),
            blend_mode,
            BatchTextures::no_texture(),
        ),
        instances: vec![PrimitiveInstance { data: [n; 8] }],
        item_rects: vec![rect(0, 0, 1, 1)],
    }
}

fn text_batch(blend_mode: BlendMode, glyph_format: GlyphFormat) -> Batch {
    Batch {
        key: BatchKey::new(
            BatchKind::Transformable(
                TransformedRectKind::AxisAligned,
                TransformBatchKind::TextRun(glyph_format),
            ),
            blend_mode,
            BatchTextures::color(SourceTexture::TextureCache(CacheTextureId(0))),
        ),
        instances: vec![PrimitiveInstance { data: [5; 8] }],
        item_rects: vec![rect(0, 0, 1, 1)],
    }
}

const PROJECTION: Projection = Projection { width: 800, height: 600 };

fn solid(pass: BrushPass) -> ShaderId {
    ShaderId::Brush(BrushProgram::Solid, pass)
}

fn draw_of(program: ShaderId, buffer: usize, mode: i32) -> Vec<DeviceCommand> {
    vec![
        DeviceCommand::BindProgramInstances { program, instances: BufferId(buffer) },
        DeviceCommand::BindProgramLocals { program, projection: PROJECTION, mode },
        DeviceCommand::Draw(program),
    ]
}

#[test]
fn a_batch_is_one_draw_and_a_program_is_created_once() {
    let mut w = world();
    let ctx = DrawContext {
        resolver: &w.resolver,
        shaders: &w.shaders,
        render_tasks: &w.tasks,
        enable_clear_scissor: false,
    };
    let batch = solid_batch(BlendMode::NoBlend, 3);
    assert!(check_batch(&ctx, &batch));
    submit_batch(&mut w.device, &ctx, &batch, PROJECTION, None);
    let mut expected = vec![DeviceCommand::CreateProgram(solid(BrushPass::Opaque))];
    expected.extend(draw_of(solid(BrushPass::Opaque), 0, 0));
    assert_eq!(w.device.commands, expected);
    assert_eq!(
        w.device.buffers[0],
        UploadData::Primitives(vec![webrender::device::PrimitiveInstance {
            a_data0: [3; 4],
            a_data1: [3; 4]
        }])
    );
    submit_batch(&mut w.device, &ctx, &batch, PROJECTION, None);
    expected.extend(draw_of(solid(BrushPass::Opaque), 1, 0));
    assert_eq!(w.device.commands, expected);
    // With blending the other build of the brush is used.
    w.device.commands.clear();
    submit_batch(
        &mut w.device,
        &ctx,
        &solid_batch(BlendMode::PremultipliedAlpha, 4),
        PROJECTION,
        None,
    );
    assert_eq!(w.device.commands[0], DeviceCommand::CreateProgram(solid(BrushPass::Alpha)));
}

#[test]
fn a_composite_reads_back_before_it_draws() {
    let mut w = world();
    let ctx = DrawContext {
        resolver: &w.resolver,
        shaders: &w.shaders,
        render_tasks: &w.tasks,
        enable_clear_scissor: false,
    };
    let batch = Batch {
        key: BatchKey::new(
            BatchKind::Composite {
                task_id: RenderTaskId(0),
                source_id: RenderTaskId(1),
                backdrop_id: RenderTaskId(2),
            },
            BlendMode::Alpha,
            BatchTextures::no_texture(),
        ),
        instances: vec![PrimitiveInstance { data: [1; 8] }],
        item_rects: vec![rect(0, 0, 1, 1)],
    };
    assert!(check_batch(&ctx, &batch));
    let target = Some((TextureId(9), 1));
    submit_batch(&mut w.device, &ctx, &batch, PROJECTION, target);
    let mut expected = vec![
        DeviceCommand::CreateProgram(ShaderId::PsComposite),
        // The copy goes to the readback task's layer of the colour cache,
        // which is the dummy texture here.
        DeviceCommand::BindDrawTarget { target: Some((TextureId(0), 2)), dimensions: None },
        DeviceCommand::BindReadTarget { target },
        // source origin + (backdrop rect origin - backdrop screen origin)
        // = (110, 220) + ((0, 0) - (100, 200)) = (10, 20).
        DeviceCommand::BlitRenderTarget { src: rect(10, 20, 7, 9), dest: rect(5, 60, 7, 9) },
        DeviceCommand::BindDrawTarget { target, dimensions: None },
    ];
    expected.extend(draw_of(ShaderId::PsComposite, 0, 0));
    assert_eq!(w.device.commands, expected);

    let mut two = Batch { ..solid_batch(BlendMode::Alpha, 0) };
    two.key = batch.key;
    two.instances.push(PrimitiveInstance { data: [2; 8] });
    assert!(!check_batch(&ctx, &two));
    assert!(check_composite(&w.tasks.tasks, RenderTaskId(0), RenderTaskId(1), RenderTaskId(2)));
    assert!(!check_composite(&w.tasks.tasks, RenderTaskId(2), RenderTaskId(1), RenderTaskId(0)));
    assert!(!check_composite(&w.tasks.tasks, RenderTaskId(0), RenderTaskId(1), RenderTaskId(3)));
    assert!(!check_composite(&w.tasks.tasks, RenderTaskId(0), RenderTaskId(1), RenderTaskId(4)));
    assert!(check_task(&w.tasks.tasks, RenderTaskId(2)));
    assert!(!check_task(&w.tasks.tasks, RenderTaskId(3)));
}

#[test]
fn text_is_drawn_in_as_many_passes_as_its_blend_mode_needs() {
    let passes = |blend_mode: BlendMode| {
        let mut w = world();
        let ctx = DrawContext {
            resolver: &w.resolver,
            shaders: &w.shaders,
            render_tasks: &w.tasks,
            enable_clear_scissor: false,
        };
        let batch = text_batch(blend_mode, GlyphFormat::Subpixel);
        draw_text_run_batch(
            &mut w.device,
            &ctx,
            &batch,
            TransformedRectKind::AxisAligned,
            GlyphFormat::Subpixel,
            PROJECTION,
        );
        w.device.commands
    };
    let run = ShaderId::Text(TextProgram::Run, TextVariant::Simple);
    let dual = ShaderId::Text(TextProgram::RunDualSource, TextVariant::Simple);
    let first = |blend: BlendState, program: ShaderId, mode: i32| {
        let mut v = vec![
            DeviceCommand::SetBlend(true),
            DeviceCommand::SetBlendMode(blend),
            DeviceCommand::CreateProgram(program),
            DeviceCommand::BindTexture { slot: TextureSlot(0), texture: TextureId(40) },
        ];
        v.extend(draw_of(program, 0, mode));
        v
    };
    let again = |blend: BlendState, mode: i32| {
        vec![
            DeviceCommand::SetBlendMode(blend),
            DeviceCommand::BindProgramLocals { program: run, projection: PROJECTION, mode },
            DeviceCommand::Draw(run),
        ]
    };
    let off = vec![DeviceCommand::SetBlend(false)];

    let mut one = first(BlendState::SubpixelDualSource, dual, 7);
    one.extend(off.clone());
    assert_eq!(passes(BlendMode::SubpixelDualSource), one);

    let color = ColorF::new(F32Bits(1), F32Bits(2), F32Bits(3), F32Bits(4));
    let mut constant = first(BlendState::SubpixelConstantTextColor(color), run, 1);
    constant.extend(off.clone());
    assert_eq!(passes(BlendMode::SubpixelConstantTextColor(color)), constant);

    let mut two = first(BlendState::SubpixelPass0, run, 2);
    two.extend(again(BlendState::SubpixelPass1, 3));
    two.extend(off.clone());
    assert_eq!(passes(BlendMode::SubpixelVariableTextColor), two);

    let mut three = first(BlendState::SubpixelWithBgColorPass0, run, 4);
    three.extend(again(BlendState::SubpixelWithBgColorPass1, 5));
    three.extend(again(BlendState::SubpixelWithBgColorPass2, 6));
    three.extend(off);
    assert_eq!(passes(BlendMode::SubpixelWithBgColor), three);
}

#[test]
fn premultiplied_text_takes_its_mode_from_the_glyphs() {
    for (format, mode) in [
        (GlyphFormat::Alpha, 0),
        (GlyphFormat::TransformedAlpha, 0),
        (GlyphFormat::Bitmap, 8),
        (GlyphFormat::ColorBitmap, 9),
    ] {
        let mut w = world();
        let ctx = DrawContext {
            resolver: &w.resolver,
            shaders: &w.shaders,
            render_tasks: &w.tasks,
            enable_clear_scissor: false,
        };
        let batch = text_batch(BlendMode::PremultipliedAlpha, format);
        assert!(check_alpha_batch(&ctx, &batch));
        draw_text_run_batch(
            &mut w.device,
            &ctx,
            &batch,
            TransformedRectKind::Complex,
            format,
            PROJECTION,
        );
        let program = match format {
            GlyphFormat::TransformedAlpha => ShaderId::Text(TextProgram::Run, TextVariant::GlyphTransform),
            _ => ShaderId::Text(TextProgram::Run, TextVariant::Transform),
        };
        assert_eq!(
            w.device.commands[5],
            DeviceCommand::BindProgramLocals { program, projection: PROJECTION, mode }
        );
    }
    let w = world();
    let ctx = DrawContext {
        resolver: &w.resolver,
        shaders: &w.shaders,
        render_tasks: &w.tasks,
        enable_clear_scissor: false,
    };
    assert!(!check_alpha_batch(&ctx, &text_batch(BlendMode::PremultipliedAlpha, GlyphFormat::Subpixel)));
    assert!(!check_alpha_batch(&ctx, &text_batch(BlendMode::Alpha, GlyphFormat::Alpha)));
    assert!(!check_alpha_batch(&ctx, &text_batch(BlendMode::NoBlend, GlyphFormat::Alpha)));
    assert!(!check_opaque_batch(&ctx, &text_batch(BlendMode::NoBlend, GlyphFormat::Alpha)));
    assert!(!check_alpha_batch(&ctx, &solid_batch(BlendMode::SubpixelDualSource, 0)));
    assert!(check_alpha_batch(&ctx, &solid_batch(BlendMode::PremultipliedDestOut, 0)));
}

fn target_with(opaque: Vec<Batch>, alpha: Vec<Batch>) -> ColorRenderTarget {
    let mut target = ColorRenderTarget::new();
    target.alpha_batcher.batch_list.opaque_batch_list.batches = opaque;
    target.alpha_batcher.batch_list.alpha_batch_list.batches = alpha;
    target.used_rect = rect(1, 2, 3, 4);
    target
}

#[test]
fn opaque_batches_are_drawn_front_to_back_before_the_blended_ones() {
    let mut w = world();
    let ctx = DrawContext {
        resolver: &w.resolver,
        shaders: &w.shaders,
        render_tasks: &w.tasks,
        enable_clear_scissor: true,
    };
    let target = target_with(
        vec![solid_batch(BlendMode::NoBlend, 1), solid_batch(BlendMode::NoBlend, 2)],
        vec![
            solid_batch(BlendMode::Alpha, 3),
            solid_batch(BlendMode::Alpha, 4),
            solid_batch(BlendMode::PremultipliedAlpha, 5),
            solid_batch(BlendMode::NoBlend, 6),
        ],
    );
    assert!(check_color_target(&ctx, &target));
    let texture = Texture {
        id: TextureId(9),
        width: 800,
        height: 600,
        layer_count: 1,
        format: ImageFormat::BGRA8,
        filter: TextureFilter::Linear,
        render_target: Some(RenderTargetInfo { has_depth: true }),
    };
    let clear = ColorF::new(F32Bits(0), F32Bits(0), F32Bits(0), F32Bits(0));
    draw_color_target(
        &mut w.device,
        &ctx,
        Some((&texture, 0)),
        &target,
        DeviceUintRect::new(DeviceUintPoint::zero(), DeviceUintSize::new(800, 600)),
        DeviceUintSize::new(800, 600),
        false,
        Some(clear),
        PROJECTION,
    );
    let opaque = solid(BrushPass::Opaque);
    let alpha = solid(BrushPass::Alpha);
    let mut expected = vec![
        DeviceCommand::BindDrawTarget {
            target: Some((TextureId(9), 0)),
            dimensions: Some(DeviceUintSize::new(800, 600)),
        },
        DeviceCommand::DisableDepth,
        DeviceCommand::SetBlend(false),
        DeviceCommand::EnableDepthWrite,
        DeviceCommand::ClearTarget {
            color: Some(clear),
            depth: Some(F32Bits(0x3f80_0000)),
            rect: Some(rect(1, 2, 3, 4)),
        },
        DeviceCommand::DisableDepthWrite,
        DeviceCommand::SetBlend(false),
        DeviceCommand::SetDepthFunc(DepthFunction::LessEqual),
        DeviceCommand::EnableDepth,
        DeviceCommand::EnableDepthWrite,
        DeviceCommand::CreateProgram(opaque),
    ];
    expected.extend(draw_of(opaque, 0, 0));
    expected.extend(draw_of(opaque, 1, 0));
    expected.push(DeviceCommand::DisableDepthWrite);
    expected.push(DeviceCommand::SetBlend(true));
    expected.push(DeviceCommand::SetBlendMode(BlendState::Alpha));
    expected.push(DeviceCommand::CreateProgram(alpha));
    expected.extend(draw_of(alpha, 2, 0));
    expected.extend(draw_of(alpha, 3, 0));
    expected.push(DeviceCommand::SetBlend(true));
    expected.push(DeviceCommand::SetBlendMode(BlendState::PremultipliedAlpha));
    expected.extend(draw_of(alpha, 4, 0));
    expected.push(DeviceCommand::SetBlend(false));
    expected.extend(draw_of(opaque, 5, 0));
    expected.push(DeviceCommand::DisableDepth);
    expected.push(DeviceCommand::SetBlend(false));
    assert_eq!(w.device.commands, expected);
    // The last opaque batch is drawn first.
    let first_instances = |i: usize| match &w.device.buffers[i] {
        UploadData::Primitives(v) => v[0].a_data0[0],
        _ => panic!(),
    };
    assert_eq!((0..6).map(first_instances).collect::<Vec<_>>(), vec![2, 1, 3, 4, 5, 6]);
}

#[test]
fn the_window_is_cleared_where_the_document_is() {
    let clear_of = |inner: DeviceUintRect, ready: bool, opaque: bool| {
        let mut w = world();
        let ctx = DrawContext {
            resolver: &w.resolver,
            shaders: &w.shaders,
            render_tasks: &w.tasks,
            enable_clear_scissor: true,
        };
        let target = target_with(
            if opaque { vec![solid_batch(BlendMode::NoBlend, 1)] } else { vec![] },
            vec![],
        );
        draw_color_target(
            &mut w.device,
            &ctx,
            None,
            &target,
            inner,
            DeviceUintSize::new(800, 600),
            ready,
            None,
            PROJECTION,
        );
        w.device
            .commands
            .iter()
            .find_map(|c| match c {
                DeviceCommand::ClearTarget { depth, rect, .. } => Some((*depth, *rect)),
                _ => None,
            })
            .unwrap()
    };
    let whole = DeviceUintRect::new(DeviceUintPoint::zero(), DeviceUintSize::new(800, 600));
    let part = DeviceUintRect::new(DeviceUintPoint::new(10, 20), DeviceUintSize::new(100, 50));
    assert_eq!(clear_of(whole, true, true), (None, None));
    assert_eq!(clear_of(whole, false, true), (Some(F32Bits(0x3f80_0000)), None));
    assert_eq!(clear_of(whole, false, false), (None, None));
    // Rows are counted from the bottom: 600 - 20 - 50 = 530.
    assert_eq!(clear_of(part, true, true), (None, Some(rect(10, 530, 100, 50))));
}

#[test]
fn blits_and_scalings() {
    let mut w = world();
    let blits = vec![
        BlitJob {
            source: BlitJobSource::Texture(
                SourceTexture::TextureCache(CacheTextureId(0)),
                1,
                rect(1, 2, 3, 4),
            ),
            target_rect: rect(10, 20, 3, 4),
        },
        BlitJob { source: BlitJobSource::RenderTask(RenderTaskId(1)), target_rect: rect(0, 0, 30, 40) },
    ];
    assert!(check_blits(&w.resolver, &w.tasks.tasks, &blits));
    handle_blits(&mut w.device, &w.resolver, &blits, &w.tasks);
    assert_eq!(
        w.device.commands,
        vec![
            DeviceCommand::BindReadTarget { target: Some((TextureId(40), 1)) },
            DeviceCommand::BlitRenderTarget { src: rect(1, 2, 3, 4), dest: rect(10, 20, 3, 4) },
            DeviceCommand::BindReadTarget { target: Some((TextureId(0), 1)) },
            DeviceCommand::BlitRenderTarget { src: rect(0, 20, 30, 40), dest: rect(0, 0, 30, 40) },
        ]
    );
    let bad = vec![BlitJob {
        source: BlitJobSource::Texture(SourceTexture::Invalid, 0, rect(0, 0, 1, 1)),
        target_rect: rect(0, 0, 1, 1),
    }];
    assert!(!check_blits(&w.resolver, &w.tasks.tasks, &bad));
    let mismatched = vec![BlitJob {
        source: BlitJobSource::RenderTask(RenderTaskId(1)),
        target_rect: rect(0, 0, 30, 41),
    }];
    assert!(!check_blits(&w.resolver, &w.tasks.tasks, &mismatched));

    w.device.commands.clear();
    let scalings = vec![ScalingInfo { src_task_id: RenderTaskId(1), dest_task_id: RenderTaskId(2) }];
    handle_scaling(&mut w.device, &w.resolver, &w.tasks, &scalings, SourceTexture::CacheA8);
    assert_eq!(
        w.device.commands,
        vec![
            DeviceCommand::BindReadTarget { target: Some((TextureId(0), 1)) },
            DeviceCommand::BlitRenderTarget { src: rect(0, 20, 30, 40), dest: rect(5, 60, 7, 9) },
        ]
    );
}

#[test]
fn a_coverage_target_is_cleared_then_blurred_then_clipped() {
    let mut w = world();
    let ctx = DrawContext {
        resolver: &w.resolver,
        shaders: &w.shaders,
        render_tasks: &w.tasks,
        enable_clear_scissor: false,
    };
    let mut target = AlphaRenderTarget::new();
    target.used_rect = rect(0, 0, 64, 64);
    target.zero_clears.push(RenderTaskId(2));
    target.horizontal_blurs.push(BlurInstance {
        task_address: RenderTaskAddress(3),
        src_task_address: RenderTaskAddress(4),
        blur_direction: BlurDirection::Horizontal,
    });
    target.clip_batcher.rectangles.push(ClipMaskInstance {
        render_task_address: RenderTaskAddress(1),
        scroll_node_data_index: ClipScrollNodeIndex(2),
        segment: 3,
        clip_data_address: GpuCacheAddress::new(4, 5),
        resource_address: GpuCacheAddress::new(6, 7),
    });
    let texture = Texture {
        id: TextureId(9),
        width: 64,
        height: 64,
        layer_count: 1,
        format: ImageFormat::A8,
        filter: TextureFilter::Linear,
        render_target: Some(RenderTargetInfo { has_depth: false }),
    };
    draw_alpha_target(
        &mut w.device,
        &ctx,
        (&texture, 0),
        &target,
        DeviceUintSize::new(64, 64),
        PROJECTION,
    );
    let one = F32Bits(0x3f80_0000);
    let zero = F32Bits(0);
    let mut expected = vec![
        DeviceCommand::BindDrawTarget {
            target: Some((TextureId(9), 0)),
            dimensions: Some(DeviceUintSize::new(64, 64)),
        },
        DeviceCommand::DisableDepth,
        DeviceCommand::DisableDepthWrite,
        DeviceCommand::ClearTarget {
            color: Some(ColorF::new(one, one, one, zero)),
            depth: None,
            rect: Some(rect(0, 0, 64, 64)),
        },
        DeviceCommand::ClearTarget {
            color: Some(ColorF::new(zero, zero, zero, zero)),
            depth: None,
            rect: Some(rect(5, 60, 7, 9)),
        },
        DeviceCommand::SetBlend(false),
        DeviceCommand::CreateProgram(ShaderId::CsBlurA8),
    ];
    expected.extend(draw_of(ShaderId::CsBlurA8, 0, 0));
    expected.push(DeviceCommand::SetBlend(true));
    expected.push(DeviceCommand::SetBlendMode(BlendState::Multiply));
    expected.push(DeviceCommand::CreateProgram(ShaderId::CsClipRectangle));
    expected.extend(draw_of(ShaderId::CsClipRectangle, 1, 0));
    expected.push(DeviceCommand::CreateProgram(ShaderId::CsClipImage));
    expected.push(DeviceCommand::BindProgramLocals {
        program: ShaderId::CsClipImage,
        projection: PROJECTION,
        mode: 0,
    });
    assert_eq!(w.device.commands, expected);
    assert_eq!(
        w.device.buffers[0],
        UploadData::Blurs(vec![webrender::device::BlurInstance {
            a_blur_render_task_address: 3,
            a_blur_source_task_address: 4,
            a_blur_direction: 0
        }])
    );
    assert_eq!(
        w.device.buffers[1],
        UploadData::ClipMasks(vec![webrender::device::ClipMaskInstance {
            a_clip_render_task_address: 1,
            a_scroll_node_id: 2,
            a_clip_segment: 3,
            a_clip_data_resource_address: [4, 5, 6, 7]
        }])
    );
}

#[test]
fn a_texture_cache_target_is_drawn_at_the_size_of_its_texture() {
    let mut w = world();
    let ctx = DrawContext {
        resolver: &w.resolver,
        shaders: &w.shaders,
        render_tasks: &w.tasks,
        enable_clear_scissor: false,
    };
    let target = TextureCacheRenderTarget {
        blits: Vec::new(),
        horizontal_blurs: vec![BlurInstance {
            task_address: RenderTaskAddress(1),
            src_task_address: RenderTaskAddress(2),
            blur_direction: BlurDirection::Vertical,
        }],
    };
    draw_texture_cache_target(
        &mut w.device,
        &ctx,
        &SourceTexture::TextureCache(CacheTextureId(0)),
        1,
        &target,
    );
    let projection = Projection { width: 32, height: 16 };
    assert_eq!(
        w.device.commands,
        vec![
            DeviceCommand::BindDrawTarget {
                target: Some((TextureId(40), 1)),
                dimensions: Some(DeviceUintSize::new(32, 16)),
            },
            DeviceCommand::DisableDepth,
            DeviceCommand::DisableDepthWrite,
            DeviceCommand::SetBlend(false),
            DeviceCommand::CreateProgram(ShaderId::CsBlurA8),
            DeviceCommand::BindProgramInstances {
                program: ShaderId::CsBlurA8,
                instances: BufferId(0)
            },
            DeviceCommand::BindProgramLocals { program: ShaderId::CsBlurA8, projection, mode: 0 },
            DeviceCommand::Draw(ShaderId::CsBlurA8),
        ]
    );
    assert_eq!(
        w.device.buffers[0],
        UploadData::Blurs(vec![webrender::device::BlurInstance {
            a_blur_render_task_address: 1,
            a_blur_source_task_address: 2,
            a_blur_direction: 1
        }])
    );
    let _ = (ImageBufferKind::Texture2D, PrimitiveProgram::Image);
}
