use webrender::api::{ColorF, F32Bits, ImageFormat, YuvColorSpace, YuvFormat};
use webrender::batch::{
    BatchKind, BatchTextures, BrushBatchKind, BrushImageSourceKind, GlyphFormat,
    TransformBatchKind,
};
use webrender::device::{DeviceCapabilities, UploadData};
use webrender::gpu_cache::GpuBlockData;
use webrender::units::{rect, DeviceIntRect, DeviceUintPoint, DeviceUintRect, DeviceUintSize};
use webrender::renderer::{Renderer, RendererOptions, DISABLE_BATCHING};
use webrender::device::{
    buffer_size, next_framebuffer, BlendState, BrushPass, BrushProgram, Device, DeviceCommand,
    ExternalTexture, FrameId, InstanceBuffer, PrimitiveInstance, PrimitiveProgram, ShaderId,
    ShaderKind, TextProgram, TextVariant, TextureSlot, TextureTarget, VertexArrayKind,
    VertexAttributeKind, VertexDataImage, YuvProgram,
};
use webrender::gpu_types::{
    BlurDirection, BlurInstance, ClipMaskInstance, ClipScrollNodeIndex, GpuCacheAddress,
    RenderTaskAddress,
};
use webrender::pipelines::{
    blend_of, Blend, BlendChannel, BlendValue, BlurInstances, BlurProgram, BrushPso, ClipMaskInstances,
    ClipProgram, ClipPso, DebugColorVertices, DebugFontVertices, DepthMode, Equation, Factor,
    Position, PrimitiveInstances, PrimitivePso, Program, TextPso, UploadCursor,
};
use webrender::renderer::{
    desc_blur, desc_clip, desc_gpu_cache_update, desc_prim_instances, flag_changed,
    image_buffer_kinds, quad_vertices, BlendMode, CpuProfile, DebugFlags, DebugServer, GpuProfile,
    GpuTimer, ImageBufferKind, RendererStats, TextureSampler, GPU_SAMPLE_QUERIES,
    GPU_TIME_QUERIES, PROFILER_DBG,
};
use webrender::shaders::{
    get_yuv_shader_index, BrushShader, LazilyCompiledShader, PrimitiveShader, Shaders, TextShader,
    TextShaderMode,
};
use webrender::tiling::LayerRect;
use webrender::util::TransformedRectKind;

const CAPS: DeviceCapabilities =
    DeviceCapabilities { max_texture_size: 4096, supports_dual_source_blending: true };

#[test]
fn instance_records() {
    let p = PrimitiveInstance::new([1, 2, 3, 4, 5, 6, 7, 8]);
    assert_eq!(p.a_data0, [1, 2, 3, 4]);
    assert_eq!(p.a_data1, [5, 6, 7, 8]);
    let gpu = webrender::gpu_types::PrimitiveInstance { data: [8, 7, 6, 5, 4, 3, 2, 1] };
    assert_eq!(PrimitiveInstance::from(gpu), PrimitiveInstance::new(gpu.data));
    let blur = BlurInstance {
        task_address: RenderTaskAddress(5),
        src_task_address: RenderTaskAddress(u32::MAX),
        blur_direction: BlurDirection::Vertical,
    };
    let converted = webrender::device::BlurInstance::from(blur);
    assert_eq!(converted.a_blur_render_task_address, 5);
    assert_eq!(converted.a_blur_source_task_address, -1);
    assert_eq!(converted.a_blur_direction, 1);
    let clip = ClipMaskInstance {
        render_task_address: RenderTaskAddress(1),
        scroll_node_data_index: ClipScrollNodeIndex(2),
        segment: -3,
        clip_data_address: GpuCacheAddress::new(65535, 1),
        resource_address: GpuCacheAddress::new(2, 3),
    };
    let converted = webrender::device::ClipMaskInstance::from(clip);
    assert_eq!(converted.a_clip_segment, -3);
    assert_eq!(converted.a_clip_data_resource_address, [65535, 1, 2, 3]);
    assert_eq!(FrameId::new(3).add(4), FrameId::new(7));
    assert_eq!(ExternalTexture::new(3, TextureTarget::Array).id, 3);
}

#[test]
fn pipeline_instances_start_at_zero_and_take_what_they_are_given() {
    let mut p = PrimitiveInstances::new();
    assert_eq!((p.data0, p.data1), ([0; 4], [0; 4]));
    p.update(&webrender::gpu_types::PrimitiveInstance { data: [1, 2, 3, 4, 5, 6, 7, 8] });
    assert_eq!((p.data0, p.data1), ([1, 2, 3, 4], [5, 6, 7, 8]));
    let mut b = BlurInstances::new();
    assert_eq!((b.task_address, b.src_task_address, b.blur_direction), (0, 0, 0));
    assert_eq!(b.region, [F32Bits(0); 4]);
    b.update(
        &BlurInstance {
            task_address: RenderTaskAddress(1),
            src_task_address: RenderTaskAddress(2),
            blur_direction: BlurDirection::Vertical,
        },
        &LayerRect { x: F32Bits(1), y: F32Bits(2), width: F32Bits(3), height: F32Bits(4) },
    );
    assert_eq!((b.task_address, b.src_task_address, b.blur_direction), (1, 2, 1));
    assert_eq!(b.region, [F32Bits(1), F32Bits(2), F32Bits(3), F32Bits(4)]);
    let mut c = ClipMaskInstances::new();
    assert_eq!(c.data_resource_address, [0; 4]);
    c.update(&ClipMaskInstance {
        render_task_address: RenderTaskAddress(9),
        scroll_node_data_index: ClipScrollNodeIndex(8),
        segment: 7,
        clip_data_address: GpuCacheAddress::new(1, 2),
        resource_address: GpuCacheAddress::new(3, 4),
    });
    assert_eq!((c.render_task_address, c.layer_address, c.segment), (9, 8, 7));
    assert_eq!(c.data_resource_address, [1, 2, 3, 4]);
    assert_eq!(Position::new([F32Bits(1), F32Bits(2)]).pos, [F32Bits(1), F32Bits(2), F32Bits(0)]);
    let v = DebugColorVertices::new([F32Bits(1); 2], [F32Bits(2); 4]);
    assert_eq!((v.pos, v.color), ([F32Bits(1); 2], [F32Bits(2); 4]));
    let v = DebugFontVertices::new([F32Bits(1); 2], [F32Bits(2); 4], [F32Bits(3); 2]);
    assert_eq!(v.tex_coord, [F32Bits(3); 2]);
}

#[test]
fn pipeline_states_by_blend_mode() {
    let program = Program::new();
    assert_eq!(program.get_pso(&BlendMode::Alpha, true), PrimitivePso::Alpha { depth_write: true });
    assert_eq!(
        program.get_pso(&BlendMode::PremultipliedAlpha, false),
        PrimitivePso::PremultipliedAlpha { depth_write: false }
    );
    assert_eq!(program.get_pso(&BlendMode::NoBlend, true), PrimitivePso::Opaque { depth_write: true });
    assert_eq!(
        program.get_pso(&BlendMode::SubpixelDualSource, false),
        PrimitivePso::Opaque { depth_write: false }
    );
    assert_eq!(PrimitivePso::Alpha { depth_write: true }.desc().depth, DepthMode::LessEqualWrite);
    assert_eq!(PrimitivePso::Alpha { depth_write: false }.desc().depth, DepthMode::LessEqualTest);
    assert_eq!(PrimitivePso::Alpha { depth_write: false }.desc().blend, Some(BlendState::Alpha));
    assert_eq!(PrimitivePso::Opaque { depth_write: false }.desc().blend, None);
    let brush = webrender::pipelines::BrushProgram::new();
    assert_eq!(brush.get_pso(&BlendMode::Alpha), BrushPso::Alpha);
    assert_eq!(brush.get_pso(&BlendMode::PremultipliedAlpha), BrushPso::PremultipliedAlpha);
    assert_eq!(brush.get_pso(&BlendMode::PremultipliedDestOut), BrushPso::Opaque);
    let text = webrender::pipelines::TextProgram::new();
    assert_eq!(text.get_pso(&BlendMode::PremultipliedAlpha, None), TextPso::PremultipliedAlpha);
    assert_eq!(text.get_pso(&BlendMode::SubpixelVariableTextColor, Some(0)), TextPso::SubpixelPass0);
    assert_eq!(text.get_pso(&BlendMode::SubpixelVariableTextColor, Some(1)), TextPso::SubpixelPass1);
    assert_eq!(TextPso::SubpixelPass1.blend(), BlendState::SubpixelPass1);
    let clip = ClipProgram::new();
    assert_eq!(clip.get_pso(&Some(BlendState::Multiply)), ClipPso::Multiply);
    assert_eq!(clip.get_pso(&Some(BlendState::Max)), ClipPso::Max);
    assert_eq!(clip.get_pso(&Some(BlendState::Alpha)), ClipPso::Replace);
    assert_eq!(clip.get_pso(&None), ClipPso::Replace);
    let _ = BlurProgram::new();
}

#[test]
fn blend_equations() {
    let add = |source, destination| BlendChannel { equation: Equation::Add, source, destination };
    assert_eq!(
        blend_of(BlendState::Alpha),
        Some(Blend {
            color: add(
                Factor::ZeroPlus(BlendValue::SourceAlpha),
                Factor::OneMinus(BlendValue::SourceAlpha)
            ),
            alpha: add(Factor::One, Factor::OneMinus(BlendValue::SourceAlpha)),
        })
    );
    assert_eq!(
        blend_of(BlendState::PremultipliedAlpha),
        Some(Blend {
            color: add(Factor::One, Factor::OneMinus(BlendValue::SourceAlpha)),
            alpha: add(Factor::One, Factor::OneMinus(BlendValue::SourceAlpha)),
        })
    );
    assert_eq!(
        blend_of(BlendState::SubpixelPass1),
        Some(Blend {
            color: add(Factor::Zero, Factor::OneMinus(BlendValue::SourceColor)),
            alpha: add(Factor::Zero, Factor::OneMinus(BlendValue::SourceColor)),
        })
    );
    assert_eq!(
        blend_of(BlendState::Multiply),
        Some(Blend {
            color: add(Factor::Zero, Factor::ZeroPlus(BlendValue::SourceColor)),
            alpha: add(Factor::Zero, Factor::ZeroPlus(BlendValue::SourceAlpha)),
        })
    );
    assert_eq!(
        blend_of(BlendState::Max),
        Some(Blend {
            color: BlendChannel {
                equation: Equation::Max,
                source: Factor::One,
                destination: Factor::One
            },
            alpha: add(Factor::One, Factor::One),
        })
    );
    assert_eq!(
        blend_of(BlendState::SubpixelPass0),
        Some(Blend { color: add(Factor::One, Factor::One), alpha: add(Factor::One, Factor::One) })
    );
    assert_eq!(blend_of(BlendState::SubpixelDualSource), None);
    assert_eq!(
        blend_of(BlendState::SubpixelConstantTextColor(ColorF::new(
            F32Bits(0),
            F32Bits(0),
            F32Bits(0),
            F32Bits(0)
        ))),
        None
    );
}

#[test]
fn upload_cursor_and_instance_buffer() {
    let mut cursor = UploadCursor::new();
    assert!(cursor.has_room(1024));
    assert!(!cursor.has_room(1025));
    assert_eq!(cursor.bind(1000), 0);
    assert_eq!(cursor.bind(24), 1000);
    assert!(cursor.has_room(0));
    assert!(!cursor.has_room(1));
    cursor.reset_upload_offset();
    assert_eq!(cursor.offset, 0);
    let mut program = Program::new();
    program.upload.bind(5);
    program.reset_upload_offset();
    assert_eq!(program.upload.offset, 0);
    let mut buffer = InstanceBuffer::new();
    assert_eq!((buffer.size, buffer.offset), (0, 0));
    buffer.reset();
    assert_eq!((buffer.size, buffer.offset), (1, 0));
}

#[test]
fn upload_region_formula() {
    // Blocks of 16 bytes into a texture of 1024 texels of 4 components.
    let image = VertexDataImage::create(16, 1024, 1024);
    assert_eq!((image.image_stride, image.mem_stride), (4, 4));
    assert!(image.check_can_upload(5, 1024));
    let region = image.update_buffer_and_submit_upload(DeviceUintPoint::new(0, 5), 1024);
    assert_eq!(region.buffer_width, 16384);
    assert_eq!(region.buffer_height, 16384 / 4096 + 1);
    assert_eq!(region.buffer_offset, 5 * 16384);
    let region = image.update_buffer_and_submit_upload(DeviceUintPoint::new(3, 0), 1);
    assert_eq!((region.buffer_width, region.buffer_height, region.buffer_offset), (16, 1, 0));
    assert_eq!(region.image_offset, DeviceUintPoint::new(3, 0));
    // Too tall for the texture.
    let small = VertexDataImage::create(48, 1023, 8);
    assert!(small.check_can_upload(0, 100));
    assert!(small.check_can_upload(0, 596));
    assert!(!small.check_can_upload(0, 682));
    assert!(!VertexDataImage::create(16, 0, 8).check_can_upload(0, 1));
    assert_eq!(buffer_size(12, 6), Some(72));
    assert_eq!(buffer_size(usize::MAX, 2), None);
    assert_eq!(next_framebuffer(0, 3), 1);
    assert_eq!(next_framebuffer(2, 3), 0);
    assert_eq!(next_framebuffer(0, 1), 0);
}

#[test]
fn samplers_have_their_own_slots() {
    let all = [
        TextureSampler::Color0,
        TextureSampler::Color1,
        TextureSampler::Color2,
        TextureSampler::CacheA8,
        TextureSampler::CacheRGBA8,
        TextureSampler::ResourceCache,
        TextureSampler::ClipScrollNodes,
        TextureSampler::RenderTasks,
        TextureSampler::Dither,
        TextureSampler::SharedCacheA8,
        TextureSampler::LocalClipRects,
    ];
    for (i, sampler) in all.iter().enumerate() {
        assert_eq!(sampler.slot(), TextureSlot(i));
    }
    assert_eq!(TextureSampler::color(0), TextureSampler::Color0);
    assert_eq!(TextureSampler::color(1), TextureSampler::Color1);
    assert_eq!(TextureSampler::color(2), TextureSampler::Color2);
}

#[test]
fn image_buffer_kinds_and_features() {
    assert_eq!(ImageBufferKind::Texture2D.get_feature_string(), "TEXTURE_2D");
    assert_eq!(ImageBufferKind::Texture2DArray.get_feature_string(), "");
    assert_eq!(ImageBufferKind::TextureRect.get_feature_string(), "TEXTURE_RECT");
    assert_eq!(ImageBufferKind::TextureExternal.get_feature_string(), "TEXTURE_EXTERNAL");
    assert_eq!(ImageBufferKind::from(TextureTarget::Default), ImageBufferKind::Texture2D);
    assert_eq!(ImageBufferKind::from(TextureTarget::Rect), ImageBufferKind::TextureRect);
    assert_eq!(ImageBufferKind::from(TextureTarget::Array), ImageBufferKind::Texture2DArray);
    assert_eq!(ImageBufferKind::from(TextureTarget::External), ImageBufferKind::TextureExternal);
    let kinds = image_buffer_kinds();
    for (i, kind) in kinds.iter().enumerate() {
        assert_eq!(kind.index(), i);
    }
    assert_eq!(ImageFormat::RGBAF32.bytes_per_pixel(), Some(16));
    assert_eq!(ImageFormat::RGB8.bytes_per_pixel(), Some(3));
    assert_eq!(ImageFormat::Invalid.bytes_per_pixel(), None);
}

#[test]
fn yuv_shader_index_formula() {
    assert_eq!(
        get_yuv_shader_index(ImageBufferKind::Texture2D, YuvFormat::NV12, YuvColorSpace::Rec601),
        0
    );
    assert_eq!(
        get_yuv_shader_index(
            ImageBufferKind::TextureRect,
            YuvFormat::PlanarYCbCr,
            YuvColorSpace::Rec709
        ),
        (1 * 3 + 1) * 2 + 1
    );
    assert_eq!(
        get_yuv_shader_index(
            ImageBufferKind::Texture2DArray,
            YuvFormat::InterleavedYCbCr,
            YuvColorSpace::Rec709
        ),
        23
    );
    assert_eq!(YuvProgram::from_index(9 % 6), YuvProgram::PlanarRec709);
    assert_eq!(YuvProgram::from_index(0), YuvProgram::Nv12);
    assert_eq!(YuvProgram::from_index(5), YuvProgram::InterleavedRec709);
}

#[test]
fn shaders_are_picked_by_kind_blend_and_transform() {
    let shaders = Shaders::new(true);
    let mut device = Device::new(CAPS);
    let pick = |kind: BatchKind, blend: BlendMode, device: &mut Device| {
        shaders.get_batch_program(kind, blend, device)
    };
    assert_eq!(pick(BatchKind::Blend, BlendMode::Alpha, &mut device), ShaderId::PsBlend);
    assert_eq!(pick(BatchKind::SplitComposite, BlendMode::Alpha, &mut device), ShaderId::PsSplitComposite);
    assert_eq!(pick(BatchKind::HardwareComposite, BlendMode::Alpha, &mut device), ShaderId::PsHwComposite);
    assert_eq!(
        pick(BatchKind::Brush(BrushBatchKind::Line), BlendMode::NoBlend, &mut device),
        ShaderId::Brush(BrushProgram::Line, BrushPass::Opaque)
    );
    assert_eq!(
        pick(
            BatchKind::Brush(BrushBatchKind::Picture(BrushImageSourceKind::ColorAlphaMask)),
            BlendMode::SubpixelDualSource,
            &mut device
        ),
        ShaderId::Brush(BrushProgram::PictureRgba8AlphaMask, BrushPass::Alpha)
    );
    assert_eq!(
        pick(
            BatchKind::Brush(BrushBatchKind::Picture(BrushImageSourceKind::Alpha)),
            BlendMode::NoBlend,
            &mut device
        ),
        ShaderId::Brush(BrushProgram::PictureA8, BrushPass::Opaque)
    );
    let transformable = |kind| BatchKind::Transformable(TransformedRectKind::Complex, kind);
    assert_eq!(
        pick(transformable(TransformBatchKind::AlignedGradient), BlendMode::Alpha, &mut device),
        ShaderId::Primitive(PrimitiveProgram::GradientDithering, TransformedRectKind::Complex)
    );
    assert_eq!(
        pick(
            transformable(TransformBatchKind::YuvImage(
                ImageBufferKind::TextureExternal,
                YuvFormat::InterleavedYCbCr,
                YuvColorSpace::Rec601
            )),
            BlendMode::Alpha,
            &mut device
        ),
        ShaderId::Primitive(
            PrimitiveProgram::YuvImage(YuvProgram::Interleaved),
            TransformedRectKind::Complex
        )
    );
    assert_eq!(
        pick(
            BatchKind::Transformable(
                TransformedRectKind::AxisAligned,
                TransformBatchKind::Image(ImageBufferKind::Texture2D)
            ),
            BlendMode::Alpha,
            &mut device
        ),
        ShaderId::Primitive(PrimitiveProgram::Image, TransformedRectKind::AxisAligned)
    );
    // Every program was created once.
    let created = device
        .commands
        .iter()
        .filter(|c| matches!(c, DeviceCommand::CreateProgram(_)))
        .count();
    assert_eq!(created, device.commands.len());
    assert_eq!(created, 9);
    pick(BatchKind::Blend, BlendMode::Alpha, &mut device);
    assert_eq!(device.commands.len(), 9);
    assert_eq!(
        Shaders::new(false).ps_radial_gradient.simple.id,
        ShaderId::Primitive(PrimitiveProgram::RadialGradient, TransformedRectKind::AxisAligned)
    );
    assert_eq!(shaders.cs_blur_a8.kind, ShaderKind::Cache(VertexArrayKind::Blur));
}

#[test]
fn lazily_compiled_shaders() {
    let mut device = Device::new(CAPS);
    let shader = LazilyCompiledShader::new(ShaderKind::ClipCache, ShaderId::CsClipImage);
    shader.reset(&mut device);
    assert!(device.commands.is_empty());
    assert!(!device.has_program(ShaderId::CsClipImage));
    assert_eq!(shader.get(&mut device), ShaderId::CsClipImage);
    assert_eq!(shader.get(&mut device), ShaderId::CsClipImage);
    assert!(device.has_program(ShaderId::CsClipImage));
    shader.reset(&mut device);
    shader.deinit(&mut device);
    assert_eq!(
        device.commands,
        vec![
            DeviceCommand::CreateProgram(ShaderId::CsClipImage),
            DeviceCommand::ResetProgram(ShaderId::CsClipImage),
            DeviceCommand::DeleteProgram(ShaderId::CsClipImage),
        ]
    );
    let text = TextShader::new(TextProgram::Run);
    assert_eq!(
        text.select_id(GlyphFormat::TransformedSubpixel, TransformedRectKind::AxisAligned),
        ShaderId::Text(TextProgram::Run, TextVariant::GlyphTransform)
    );
    assert_eq!(
        text.select_id(GlyphFormat::Subpixel, TransformedRectKind::Complex),
        ShaderId::Text(TextProgram::Run, TextVariant::Transform)
    );
    assert_eq!(
        text.get(GlyphFormat::Bitmap, TransformedRectKind::AxisAligned, &mut device),
        ShaderId::Text(TextProgram::Run, TextVariant::Simple)
    );
    let primitive = PrimitiveShader::new(PrimitiveProgram::BorderEdge);
    assert_eq!(
        primitive.get(TransformedRectKind::Complex, &mut device),
        ShaderId::Primitive(PrimitiveProgram::BorderEdge, TransformedRectKind::Complex)
    );
    let brush = BrushShader::new(BrushProgram::Solid);
    assert_eq!(
        brush.get(BlendMode::Alpha, &mut device),
        ShaderId::Brush(BrushProgram::Solid, BrushPass::Alpha)
    );
}

#[test]
fn text_shader_modes() {
    let modes = [
        TextShaderMode::Alpha,
        TextShaderMode::SubpixelConstantTextColor,
        TextShaderMode::SubpixelPass0,
        TextShaderMode::SubpixelPass1,
        TextShaderMode::SubpixelWithBgColorPass0,
        TextShaderMode::SubpixelWithBgColorPass1,
        TextShaderMode::SubpixelWithBgColorPass2,
        TextShaderMode::SubpixelDualSource,
        TextShaderMode::Bitmap,
        TextShaderMode::ColorBitmap,
    ];
    for (i, mode) in modes.iter().enumerate() {
        assert_eq!(mode.code(), i as i32);
    }
    assert_eq!(TextShaderMode::from_glyph_format(GlyphFormat::Alpha), TextShaderMode::Alpha);
    assert_eq!(TextShaderMode::from_glyph_format(GlyphFormat::TransformedAlpha), TextShaderMode::Alpha);
    assert_eq!(TextShaderMode::from_glyph_format(GlyphFormat::Bitmap), TextShaderMode::Bitmap);
    assert_eq!(TextShaderMode::from_glyph_format(GlyphFormat::ColorBitmap), TextShaderMode::ColorBitmap);
}

#[test]
fn debug_flags() {
    let none = DebugFlags::empty();
    let profiler = DebugFlags { bits: PROFILER_DBG };
    let queries = DebugFlags { bits: GPU_TIME_QUERIES | GPU_SAMPLE_QUERIES };
    let time = DebugFlags { bits: GPU_TIME_QUERIES };
    assert_eq!(flag_changed(none, profiler, profiler), Some(true));
    assert_eq!(flag_changed(profiler, none, profiler), Some(false));
    assert_eq!(flag_changed(profiler, profiler, profiler), None);
    assert_eq!(flag_changed(none, profiler, time), None);
    // Some of the selected switches changed, but not all are on.
    assert_eq!(flag_changed(none, time, queries), Some(false));
    assert_eq!(flag_changed(time, queries, queries), Some(true));
    let mut flags = DebugFlags::from_bits_truncate(0xffff_ffff);
    assert_eq!(flags.bits(), 511);
    flags.remove(queries);
    assert!(!flags.contains(time));
    assert!(flags.contains(profiler));
    flags.insert(time);
    assert!(flags.contains(time));
    assert!(!flags.contains(queries));
    flags.set(queries, true);
    assert!(flags.contains(queries));
    flags.set(profiler, false);
    assert!(!flags.contains(profiler));
    flags.toggle(profiler);
    assert!(flags.contains(profiler));
    assert_eq!(profiler.intersection(queries), none);
    assert!(none.is_empty());
}

#[test]
fn profiles_and_stats() {
    let timers = vec![GpuTimer { time_ns: 5 }, GpuTimer { time_ns: 7 }, GpuTimer { time_ns: 30 }];
    let gpu = GpuProfile::new(FrameId::new(4), &timers);
    assert_eq!(gpu, GpuProfile { frame_id: FrameId(4), paint_time_ns: 42 });
    assert_eq!(GpuProfile::new(FrameId::new(0), &Vec::new()).paint_time_ns, 0);
    let cpu = CpuProfile::new(FrameId::new(1), 2, 3, 4);
    assert_eq!(
        cpu,
        CpuProfile { frame_id: FrameId(1), backend_time_ns: 2, composite_time_ns: 3, draw_calls: 4 }
    );
    let stats = RendererStats::empty();
    assert_eq!(
        (stats.total_draw_calls, stats.alpha_target_count, stats.color_target_count),
        (0, 0, 0)
    );
    let mut server = DebugServer::new();
    server.send("anything".to_string());
}

#[test]
fn vertex_layouts() {
    let prim = desc_prim_instances();
    let names: Vec<&str> = prim.instance_attributes.iter().map(|a| a.name).collect();
    assert_eq!(names, vec!["aData0", "aData1"]);
    assert_eq!(prim.vertex_attributes[0].name, "aPosition");
    assert!(prim.instance_attributes.iter().all(|a| a.count == 4 && a.kind == VertexAttributeKind::I32));
    let blur = desc_blur();
    let names: Vec<&str> = blur.instance_attributes.iter().map(|a| a.name).collect();
    assert_eq!(names, vec!["aBlurRenderTaskAddress", "aBlurSourceTaskAddress", "aBlurDirection"]);
    let clip = desc_clip();
    let last = &clip.instance_attributes[3];
    assert_eq!((last.name, last.count, last.kind), ("aClipDataResourceAddress", 4, VertexAttributeKind::U16));
    let cache = desc_gpu_cache_update();
    assert_eq!(cache.vertex_attributes[0].kind, VertexAttributeKind::U16Norm);
    assert_eq!((cache.vertex_attributes[1].name, cache.vertex_attributes[1].count), ("aValue", 4));
    assert!(cache.instance_attributes.is_empty());
    let (vertices, indices) = quad_vertices();
    assert_eq!(vertices[3].pos, [F32Bits(0x3f80_0000), F32Bits(0x3f80_0000)]);
    assert_eq!(vertices[0].pos, [F32Bits(0), F32Bits(0)]);
    assert_eq!(indices, [0, 1, 2, 2, 1, 3]);
    assert_eq!(F32Bits::one(), F32Bits(1.0f32.to_bits()));
    assert_eq!(F32Bits::zero(), F32Bits(0.0f32.to_bits()));
}

#[test]
fn direct_draws_count_their_calls() {
    let capabilities = DeviceCapabilities { max_texture_size: 1024, supports_dual_source_blending: false };
    let (mut r, _) = Renderer::new(RendererOptions::default(), capabilities).ok().unwrap();
    r.device.commands.clear();
    let data = vec![PrimitiveInstance::new([1; 8]), PrimitiveInstance::new([2; 8])];
    let mut stats = RendererStats::empty();
    r.draw_instanced_batch(&data, VertexArrayKind::Primitive, &BatchTextures::no_texture(), &mut stats);
    assert_eq!(stats.total_draw_calls, 1);
    assert_eq!(
        r.device.commands[1],
        DeviceCommand::DrawIndexedTrianglesInstanced { index_count: 6, instance_count: 2 }
    );
    r.set_debug_flag(DebugFlags { bits: DISABLE_BATCHING }, true);
    r.device.commands.clear();
    r.draw_instanced_batch(&data, VertexArrayKind::Primitive, &BatchTextures::no_texture(), &mut stats);
    assert_eq!(stats.total_draw_calls, 3);
    assert_eq!(r.device.commands.len(), 4);
    assert_eq!(r.device.commands[3], DeviceCommand::DrawTriangles { first_vertex: 0, index_count: 6 });
}

#[test]
fn the_device_records_what_it_is_told() {
    let mut device = Device::new(CAPS);
    let program = ShaderId::PsBlend;
    device.create_program(program);
    device.create_program(program);
    let area: DeviceIntRect = rect(1, 2, 3, 4);
    let red = ColorF::new(F32Bits::one(), F32Bits::zero(), F32Bits::zero(), F32Bits::one());
    device.clear_target(Some(red), None, Some(area));
    device.draw(program);
    let row = DeviceUintRect::new(DeviceUintPoint::new(0, 7), DeviceUintSize::new(1024, 1));
    device.update_resource_cache(row, vec![GpuBlockData::empty(); 2]);
    device.update_node_data(vec![[F32Bits::one(); 28]]);
    device.update_local_rects(vec![[F32Bits::zero(); 4], [F32Bits::one(); 4]]);
    device.update_render_tasks(Vec::new());
    device.swap_buffers();
    assert_eq!(
        device.commands,
        vec![
            DeviceCommand::CreateProgram(program),
            DeviceCommand::ClearTarget { color: Some(red), depth: None, rect: Some(area) },
            DeviceCommand::Draw(program),
            DeviceCommand::UpdateResourceCache { rect: row, data: webrender::device::BufferId(0) },
            DeviceCommand::UpdateNodeData(webrender::device::BufferId(1)),
            DeviceCommand::UpdateLocalRects(webrender::device::BufferId(2)),
            DeviceCommand::UpdateRenderTasks(webrender::device::BufferId(3)),
            DeviceCommand::SwapBuffers,
        ]
    );
    assert_eq!(device.buffers.len(), 4);
    match &device.buffers[0] {
        UploadData::GpuBlocks(blocks) => assert_eq!(blocks.len(), 2),
        _ => panic!("the cache row was recorded as something else"),
    }
    match &device.buffers[2] {
        UploadData::LocalRects(rects) => {
            assert_eq!(rects, &vec![[F32Bits::zero(); 4], [F32Bits::one(); 4]])
        }
        _ => panic!("the rectangles were recorded as something else"),
    }
}

#[test]
fn binding_writes_records_behind_what_is_there() {
    let mut program = Program::new();
    let first = webrender::gpu_types::PrimitiveInstance { data: [1, 2, 3, 4, 5, 6, 7, 8] };
    let second = webrender::gpu_types::PrimitiveInstance { data: [9, 10, 11, 12, 13, 14, 15, 16] };
    let (start, records) = program.bind(&vec![first, second]);
    assert_eq!(start, 0);
    assert_eq!(records.len(), 2);
    assert_eq!((records[0].data0, records[0].data1), ([1, 2, 3, 4], [5, 6, 7, 8]));
    assert_eq!((records[1].data0, records[1].data1), ([9, 10, 11, 12], [13, 14, 15, 16]));
    let (start, records) = program.bind(&vec![second]);
    assert_eq!(start, 2);
    assert_eq!(records[0].data0, [9, 10, 11, 12]);
    assert_eq!(program.upload.offset, 3);
    program.reset_upload_offset();
    let (start, records) = program.bind(&Vec::new());
    assert_eq!((start, records.len(), program.upload.offset), (0, 0, 0));

    let mut blur = BlurProgram::new();
    let instance = BlurInstance {
        task_address: RenderTaskAddress(3),
        src_task_address: RenderTaskAddress(4),
        blur_direction: BlurDirection::Vertical,
    };
    let region = webrender::tiling::LayerRect {
        x: F32Bits(1),
        y: F32Bits(2),
        width: F32Bits(3),
        height: F32Bits(4),
    };
    let (start, records) = blur.bind(&vec![(instance, region)]);
    assert_eq!(start, 0);
    assert_eq!(
        (records[0].task_address, records[0].src_task_address, records[0].blur_direction),
        (3, 4, 1)
    );
    assert_eq!(records[0].region, [F32Bits(1), F32Bits(2), F32Bits(3), F32Bits(4)]);

    let mut clip = ClipProgram::new();
    let mask = ClipMaskInstance {
        render_task_address: RenderTaskAddress(7),
        scroll_node_data_index: ClipScrollNodeIndex(8),
        segment: 9,
        clip_data_address: GpuCacheAddress::new(10, 11),
        resource_address: GpuCacheAddress::new(12, 13),
    };
    let (_, records) = clip.bind(&vec![mask, mask]);
    assert_eq!(records[1].data_resource_address, [10, 11, 12, 13]);
    assert_eq!((records[1].render_task_address, records[1].layer_address, records[1].segment), (7, 8, 9));
    assert_eq!(clip.upload.offset, 2);
}

#[test]
fn the_quad_is_two_triangles() {
    let vertices = webrender::device::quad();
    let corners: Vec<(f32, f32, f32)> = vertices
        .iter()
        .map(|v| {
            (
                f32::from_bits(v.a_position[0].0),
                f32::from_bits(v.a_position[1].0),
                f32::from_bits(v.a_position[2].0),
            )
        })
        .collect();
    assert_eq!(
        corners,
        vec![
            (0.0, 0.0, 0.0),
            (1.0, 0.0, 0.0),
            (0.0, 1.0, 0.0),
            (0.0, 1.0, 0.0),
            (1.0, 0.0, 0.0),
            (1.0, 1.0, 0.0),
        ]
    );
}

#[test]
fn pipeline_states_are_built_in_order() {
    let device = Device::new(CAPS);
    let prim = device.create_prim_psos();
    assert_eq!(prim.len(), 6);
    assert_eq!(prim[0], PrimitivePso::Opaque { depth_write: true });
    assert_eq!(prim[3], PrimitivePso::Alpha { depth_write: false });
    assert_eq!(prim[5], PrimitivePso::PremultipliedAlpha { depth_write: false });
    // The state that a draw selects is among those that were built.
    let program = Program::new();
    for blend in [BlendMode::NoBlend, BlendMode::Alpha, BlendMode::PremultipliedAlpha] {
        for depth_write in [true, false] {
            assert!(prim.contains(&program.get_pso(&blend, depth_write)));
        }
    }
    assert_eq!(
        device.create_brush_psos(),
        [BrushPso::Opaque, BrushPso::Alpha, BrushPso::PremultipliedAlpha]
    );
    assert_eq!(
        device.create_text_psos(),
        [TextPso::PremultipliedAlpha, TextPso::SubpixelPass0, TextPso::SubpixelPass1]
    );
    assert_eq!(device.create_clip_psos(), [ClipPso::Replace, ClipPso::Multiply, ClipPso::Max]);
}

#[test]
fn batches_have_names_and_profile_tags() {
    let image = TransformBatchKind::Image(ImageBufferKind::TextureRect);
    assert_eq!(image.debug_name(), "Image (Rect)");
    assert_eq!(TransformBatchKind::Image(ImageBufferKind::Texture2DArray).debug_name(), "Image (Array)");
    assert_eq!(TransformBatchKind::TextRun(GlyphFormat::Alpha).debug_name(), "TextRun");
    assert_eq!(BatchKind::Brush(BrushBatchKind::Solid).debug_name(), "Brush (Solid)");
    assert_eq!(
        BatchKind::Brush(BrushBatchKind::Picture(BrushImageSourceKind::Color)).debug_name(),
        "Brush (Picture)"
    );
    assert_eq!(BatchKind::HardwareComposite.debug_name(), "HardwareComposite");
    let transformed = BatchKind::Transformable(
        webrender::util::TransformedRectKind::Complex,
        TransformBatchKind::AlignedGradient,
    );
    assert_eq!(transformed.debug_name(), "AlignedGradient");
    let tag = transformed.gpu_sampler_tag();
    assert_eq!(tag.label, "Gradient");
    assert_eq!((tag.color.r, tag.color.g, tag.color.b, tag.color.a), (255, 255, 0, 255));
    let tag = BatchKind::Brush(BrushBatchKind::Line).gpu_sampler_tag();
    assert_eq!((tag.label, tag.color.r, tag.color.g, tag.color.b), ("Line", 139, 0, 0));
    let tag = BatchKind::SplitComposite.gpu_sampler_tag();
    assert_eq!((tag.label, tag.color.b), ("SplitComposite", 139));
    assert_eq!(image.gpu_sampler_tag().label, "Image");
    assert_eq!(TextureSlot::from(TextureSampler::Dither), TextureSlot(8));
    assert_eq!(TextureSlot::from(TextureSampler::Color0), TextureSlot(0));
}

#[test]
fn the_device_tells_what_it_can_do() {
    let device = Device::new(DeviceCapabilities {
        max_texture_size: 2048,
        supports_dual_source_blending: false,
    });
    assert_eq!(device.max_texture_size(), 2048);
    let (renderer, _) = Renderer::new(RendererOptions::default(), CAPS).ok().unwrap();
    assert_eq!(renderer.device.max_texture_size(), 4096);
    assert_eq!(renderer.get_max_texture_size(), 4096);
}

#[test]
fn shaders_have_the_names_of_their_files() {
    use_shader_names();
}

fn use_shader_names() {
    let name = webrender::shaders::shader_name;
    assert_eq!(name(ShaderId::CsTextRun), "cs_text_run");
    assert_eq!(name(ShaderId::CsClipImage), "cs_clip_image_transform");
    assert_eq!(name(ShaderId::PsHwComposite), "ps_hardware_composite");
    assert_eq!(name(ShaderId::GpuCacheUpdate), "gpu_cache_update");
    assert_eq!(name(ShaderId::Brush(BrushProgram::Solid, BrushPass::Opaque)), "brush_solid");
    assert_eq!(
        name(ShaderId::Brush(BrushProgram::PictureRgba8AlphaMask, BrushPass::Alpha)),
        "brush_picture_color_target_alpha_mask_alpha_pass"
    );
    assert_eq!(name(ShaderId::Text(TextProgram::Run, TextVariant::Simple)), "ps_text_run");
    assert_eq!(
        name(ShaderId::Text(TextProgram::RunDualSource, TextVariant::GlyphTransform)),
        "ps_text_run_dual_source_blending_glyph_transform"
    );
    assert_eq!(
        name(ShaderId::Primitive(PrimitiveProgram::Image, TransformedRectKind::AxisAligned)),
        "ps_image"
    );
    assert_eq!(
        name(ShaderId::Primitive(
            PrimitiveProgram::YuvImage(YuvProgram::InterleavedRec709),
            TransformedRectKind::Complex
        )),
        "ps_yuv_image_interleaved_y_cb_cr_yuv_rec709_transform"
    );
    assert_eq!(
        name(ShaderId::Primitive(PrimitiveProgram::RadialGradientDithering, TransformedRectKind::Complex)),
        "ps_radial_gradient_dithering_transform"
    );
}
