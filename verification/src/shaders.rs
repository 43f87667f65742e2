//! The shader programs of the renderer, and the rules that pick one for a
//! draw. A program is created on the device the first time it is asked for.

use vstd::prelude::*;
use vstd::string::StringExecFns;
use crate::api::{YuvColorSpace, YuvFormat, YUV_COLOR_SPACE_COUNT, YUV_FORMAT_COUNT};
use crate::batch::{BatchKind, BrushBatchKind, BrushImageSourceKind, GlyphFormat, TransformBatchKind};
use crate::device::{BrushPass, BrushProgram, Device, DeviceCommand, DeviceView, PrimitiveProgram, ShaderId, ShaderKind, TextProgram, TextVariant, VertexArrayKind, YuvProgram};
use crate::renderer::{BlendMode, ImageBufferKind};
use crate::util::TransformedRectKind;

verus! {

/// The mode number that a text shader is run with.
#[derive(Clone, Copy, Debug, PartialEq, Eq, Structural)]
pub enum TextShaderMode {
    Alpha,
    SubpixelConstantTextColor,
    SubpixelPass0,
    SubpixelPass1,
    SubpixelWithBgColorPass0,
    SubpixelWithBgColorPass1,
    SubpixelWithBgColorPass2,
    SubpixelDualSource,
    Bitmap,
    ColorBitmap,
}

impl TextShaderMode {
    /// The number that the shader reads.
    pub open spec fn spec_code(self) -> i32 {
        match self {
            TextShaderMode::Alpha => 0,
            TextShaderMode::SubpixelConstantTextColor => 1,
            TextShaderMode::SubpixelPass0 => 2,
            TextShaderMode::SubpixelPass1 => 3,
            TextShaderMode::SubpixelWithBgColorPass0 => 4,
            TextShaderMode::SubpixelWithBgColorPass1 => 5,
            TextShaderMode::SubpixelWithBgColorPass2 => 6,
            TextShaderMode::SubpixelDualSource => 7,
            TextShaderMode::Bitmap => 8,
            TextShaderMode::ColorBitmap => 9,
        }
    }

    /// The number that the shader reads.
    pub fn code(self) -> (c: i32)
        ensures
            c == self.spec_code(),
    {
        match self {
            TextShaderMode::Alpha => 0,
            TextShaderMode::SubpixelConstantTextColor => 1,
            TextShaderMode::SubpixelPass0 => 2,
            TextShaderMode::SubpixelPass1 => 3,
            TextShaderMode::SubpixelWithBgColorPass0 => 4,
            TextShaderMode::SubpixelWithBgColorPass1 => 5,
            TextShaderMode::SubpixelWithBgColorPass2 => 6,
            TextShaderMode::SubpixelDualSource => 7,
            TextShaderMode::Bitmap => 8,
            TextShaderMode::ColorBitmap => 9,
        }
    }

    /// The mode for glyphs of `format` that are not subpixel glyphs.
    pub open spec fn spec_from_glyph_format(format: GlyphFormat) -> TextShaderMode {
        match format {
            GlyphFormat::Bitmap => TextShaderMode::Bitmap,
            GlyphFormat::ColorBitmap => TextShaderMode::ColorBitmap,
            _ => TextShaderMode::Alpha,
        }
    }

    /// The mode for glyphs of `format`. Subpixel glyphs have no mode of
    /// their own: the blend mode of their batch decides.
    pub fn from_glyph_format(format: GlyphFormat) -> (mode: TextShaderMode)
        requires
            !(format is Subpixel),
            !(format is TransformedSubpixel),
        ensures
            mode == Self::spec_from_glyph_format(format),
    {
        match format {
            GlyphFormat::Bitmap => TextShaderMode::Bitmap,
            GlyphFormat::ColorBitmap => TextShaderMode::ColorBitmap,
            _ => TextShaderMode::Alpha,
        }
    }
}

impl DeviceView {
    /// The state after `program` was told to forget the instances that it
    /// holds; nothing happens for a program that was never created.
    pub open spec fn reset_program(self, program: ShaderId) -> DeviceView {
        if self.programs.contains(program) {
            self.emit(DeviceCommand::ResetProgram(program))
        } else {
            self
        }
    }

    /// The state after `program` was destroyed; nothing happens for a
    /// program that was never created.
    pub open spec fn delete_program(self, program: ShaderId) -> DeviceView {
        if self.programs.contains(program) {
            self.emit(DeviceCommand::DeleteProgram(program))
        } else {
            self
        }
    }
}

impl Device {
    /// Whether `program` was created.
    pub fn has_program(&self, program: ShaderId) -> (b: bool)
        ensures
            b == self@.programs.contains(program),
    {
        let mut i: usize = 0;
        while i < self.programs.len()
            invariant
                i <= self.programs@.len(),
                forall|k: int| 0 <= k < i ==> self.programs@[k] != program,
            decreases self.programs@.len() - i,
        {
            if self.programs[i] == program {
                return true;
            }
            i += 1;
        }
        false
    }
}

/// A shader program that is created when it is first used.
#[derive(Clone, Copy, Debug, PartialEq, Eq, Structural)]
pub struct LazilyCompiledShader {
    pub id: ShaderId,
    pub kind: ShaderKind,
}

impl LazilyCompiledShader {
    pub fn new(kind: ShaderKind, id: ShaderId) -> (shader: LazilyCompiledShader)
        ensures
            shader.id == id,
            shader.kind == kind,
    {
        LazilyCompiledShader { id, kind }
    }

    /// The program, created first if this is its first use.
    pub fn get(&self, device: &mut Device) -> (program: ShaderId)
        ensures
            program == self.id,
            final(device)@ == old(device)@.create_program(self.id),
    {
        device.create_program(self.id);
        self.id
    }

    /// Tells the program, if it exists, to forget the instances it holds.
    pub fn reset(&self, device: &mut Device)
        ensures
            final(device)@ == old(device)@.reset_program(self.id),
    {
        if device.has_program(self.id) {
            device.emit(DeviceCommand::ResetProgram(self.id));
        }
    }

    /// Destroys the program, if it exists.
    pub fn deinit(self, device: &mut Device)
        ensures
            final(device)@ == old(device)@.delete_program(self.id),
    {
        if device.has_program(self.id) {
            device.emit(DeviceCommand::DeleteProgram(self.id));
        }
    }
}

/// A primitive shader in its two builds.
#[derive(Clone, Copy, Debug, PartialEq, Eq, Structural)]
pub struct PrimitiveShader {
    /// For primitives that stay axis-aligned.
    pub simple: LazilyCompiledShader,
    /// For primitives under any other transform.
    pub transform: LazilyCompiledShader,
}

impl PrimitiveShader {
    pub fn new(program: PrimitiveProgram) -> (shader: PrimitiveShader)
        ensures
            shader.simple == (LazilyCompiledShader {
                id: ShaderId::Primitive(program, TransformedRectKind::AxisAligned),
                kind: ShaderKind::Primitive,
            }),
            shader.transform == (LazilyCompiledShader {
                id: ShaderId::Primitive(program, TransformedRectKind::Complex),
                kind: ShaderKind::Primitive,
            }),
    {
        PrimitiveShader {
            simple: LazilyCompiledShader::new(
                ShaderKind::Primitive,
                ShaderId::Primitive(program, TransformedRectKind::AxisAligned),
            ),
            transform: LazilyCompiledShader::new(
                ShaderKind::Primitive,
                ShaderId::Primitive(program, TransformedRectKind::Complex),
            ),
        }
    }

    /// The build for `transform_kind`.
    pub open spec fn select(self, transform_kind: TransformedRectKind) -> LazilyCompiledShader {
        match transform_kind {
            TransformedRectKind::AxisAligned => self.simple,
            TransformedRectKind::Complex => self.transform,
        }
    }

    /// The program for `transform_kind`, created first if need be.
    pub fn get(&self, transform_kind: TransformedRectKind, device: &mut Device) -> (program: ShaderId)
        ensures
            program == self.select(transform_kind).id,
            final(device)@ == old(device)@.create_program(program),
    {
        match transform_kind {
            TransformedRectKind::AxisAligned => self.simple.get(device),
            TransformedRectKind::Complex => self.transform.get(device),
        }
    }

    pub fn reset(&self, device: &mut Device)
        ensures
            final(device)@ == old(device)@.reset_program(self.simple.id).reset_program(
                self.transform.id,
            ),
    {
        self.simple.reset(device);
        self.transform.reset(device);
    }

    pub fn deinit(self, device: &mut Device)
        ensures
            final(device)@ == old(device)@.delete_program(self.simple.id).delete_program(
                self.transform.id,
            ),
    {
        self.simple.deinit(device);
        self.transform.deinit(device);
    }
}

/// A brush shader in its two builds.
#[derive(Clone, Copy, Debug, PartialEq, Eq, Structural)]
pub struct BrushShader {
    /// For opaque primitives and opaque segments: no clip mask, no
    /// anti-aliasing.
    pub opaque: LazilyCompiledShader,
    /// For the blended pass: anti-aliased edges and a clip mask.
    pub alpha: LazilyCompiledShader,
}

impl BrushShader {
    pub fn new(program: BrushProgram) -> (shader: BrushShader)
        ensures
            shader.opaque == (LazilyCompiledShader {
                id: ShaderId::Brush(program, BrushPass::Opaque),
                kind: ShaderKind::Brush,
            }),
            shader.alpha == (LazilyCompiledShader {
                id: ShaderId::Brush(program, BrushPass::Alpha),
                kind: ShaderKind::Brush,
            }),
    {
        BrushShader {
            opaque: LazilyCompiledShader::new(
                ShaderKind::Brush,
                ShaderId::Brush(program, BrushPass::Opaque),
            ),
            alpha: LazilyCompiledShader::new(
                ShaderKind::Brush,
                ShaderId::Brush(program, BrushPass::Alpha),
            ),
        }
    }

    /// The build for `blend_mode`: the opaque one without blending, the
    /// other one with any blending.
    pub open spec fn select(self, blend_mode: BlendMode) -> LazilyCompiledShader {
        match blend_mode {
            BlendMode::NoBlend => self.opaque,
            _ => self.alpha,
        }
    }

    /// The program for `blend_mode`, created first if need be.
    pub fn get(&self, blend_mode: BlendMode, device: &mut Device) -> (program: ShaderId)
        ensures
            program == self.select(blend_mode).id,
            final(device)@ == old(device)@.create_program(program),
    {
        match blend_mode {
            BlendMode::NoBlend => self.opaque.get(device),
            _ => self.alpha.get(device),
        }
    }

    pub fn reset(&self, device: &mut Device)
        ensures
            final(device)@ == old(device)@.reset_program(self.opaque.id).reset_program(
                self.alpha.id,
            ),
    {
        self.opaque.reset(device);
        self.alpha.reset(device);
    }

    pub fn deinit(self, device: &mut Device)
        ensures
            final(device)@ == old(device)@.delete_program(self.opaque.id).delete_program(
                self.alpha.id,
            ),
    {
        self.opaque.deinit(device);
        self.alpha.deinit(device);
    }
}

/// A text run shader in its three builds.
#[derive(Clone, Copy, Debug, PartialEq, Eq, Structural)]
pub struct TextShader {
    pub simple: LazilyCompiledShader,
    pub transform: LazilyCompiledShader,
    pub glyph_transform: LazilyCompiledShader,
}

impl TextShader {
    pub fn new(program: TextProgram) -> (shader: TextShader)
        ensures
            shader.simple == (LazilyCompiledShader {
                id: ShaderId::Text(program, TextVariant::Simple),
                kind: ShaderKind::Text,
            }),
            shader.transform == (LazilyCompiledShader {
                id: ShaderId::Text(program, TextVariant::Transform),
                kind: ShaderKind::Text,
            }),
            shader.glyph_transform == (LazilyCompiledShader {
                id: ShaderId::Text(program, TextVariant::GlyphTransform),
                kind: ShaderKind::Text,
            }),
    {
        TextShader {
            simple: LazilyCompiledShader::new(
                ShaderKind::Text,
                ShaderId::Text(program, TextVariant::Simple),
            ),
            transform: LazilyCompiledShader::new(
                ShaderKind::Text,
                ShaderId::Text(program, TextVariant::Transform),
            ),
            glyph_transform: LazilyCompiledShader::new(
                ShaderKind::Text,
                ShaderId::Text(program, TextVariant::GlyphTransform),
            ),
        }
    }

    /// The build for glyphs of `glyph_format` under `transform_kind`:
    /// glyphs that were rasterised transformed have a build of their own;
    /// for the others the transform of the run decides.
    pub open spec fn select(self, glyph_format: GlyphFormat, transform_kind: TransformedRectKind) -> LazilyCompiledShader {
        match glyph_format {
            GlyphFormat::TransformedAlpha => self.glyph_transform,
            GlyphFormat::TransformedSubpixel => self.glyph_transform,
            _ => match transform_kind {
                TransformedRectKind::AxisAligned => self.simple,
                TransformedRectKind::Complex => self.transform,
            },
        }
    }

    /// The program for the glyphs and the transform, created first if need
    /// be.
    pub fn get(
        &self,
        glyph_format: GlyphFormat,
        transform_kind: TransformedRectKind,
        device: &mut Device,
    ) -> (program: ShaderId)
        ensures
            program == self.select(glyph_format, transform_kind).id,
            final(device)@ == old(device)@.create_program(program),
    {
        match glyph_format {
            GlyphFormat::TransformedAlpha => self.glyph_transform.get(device),
            GlyphFormat::TransformedSubpixel => self.glyph_transform.get(device),
            _ => match transform_kind {
                TransformedRectKind::AxisAligned => self.simple.get(device),
                TransformedRectKind::Complex => self.transform.get(device),
            },
        }
    }

    pub fn reset(&self, device: &mut Device)
        ensures
            final(device)@ == old(device)@.reset_program(self.simple.id).reset_program(
                self.transform.id,
            ).reset_program(self.glyph_transform.id),
    {
        self.simple.reset(device);
        self.transform.reset(device);
        self.glyph_transform.reset(device);
    }

    pub fn deinit(self, device: &mut Device)
        ensures
            final(device)@ == old(device)@.delete_program(self.simple.id).delete_program(
                self.transform.id,
            ).delete_program(self.glyph_transform.id),
    {
        self.simple.deinit(device);
        self.transform.deinit(device);
        self.glyph_transform.deinit(device);
    }
}

impl ImageBufferKind {
    /// The position of the kind in declaration order.
    pub open spec fn spec_index(self) -> usize {
        match self {
            ImageBufferKind::Texture2D => 0,
            ImageBufferKind::TextureRect => 1,
            ImageBufferKind::TextureExternal => 2,
            ImageBufferKind::Texture2DArray => 3,
        }
    }

    /// The position of the kind in declaration order.
    pub fn index(&self) -> (i: usize)
        ensures
            i == self.spec_index(),
    {
        match self {
            ImageBufferKind::Texture2D => 0,
            ImageBufferKind::TextureRect => 1,
            ImageBufferKind::TextureExternal => 2,
            ImageBufferKind::Texture2DArray => 3,
        }
    }
}

/// The number of YUV image shaders.
pub const YUV_SHADER_COUNT: usize = 6;

/// The position of a YUV image shader in the table of all combinations of
/// buffer kind, plane layout and colour space.
pub open spec fn spec_yuv_shader_index(
    buffer_kind: ImageBufferKind,
    format: YuvFormat,
    color_space: YuvColorSpace,
) -> int {
    (buffer_kind.spec_index() * YUV_FORMAT_COUNT + format.spec_index()) * YUV_COLOR_SPACE_COUNT
        + color_space.spec_index()
}

/// The position of a YUV image shader in the table of all combinations of
/// buffer kind, plane layout and colour space.
pub fn get_yuv_shader_index(
    buffer_kind: ImageBufferKind,
    format: YuvFormat,
    color_space: YuvColorSpace,
) -> (i: usize)
    ensures
        i == spec_yuv_shader_index(buffer_kind, format, color_space),
        i < 24,
{
    (buffer_kind.index() * YUV_FORMAT_COUNT + format.index()) * YUV_COLOR_SPACE_COUNT
        + color_space.index()
}

impl YuvProgram {
    /// The YUV shader at position `i` of the six.
    pub open spec fn spec_from_index(i: int) -> YuvProgram {
        if i == 0 {
            YuvProgram::Nv12
        } else if i == 1 {
            YuvProgram::Nv12Rec709
        } else if i == 2 {
            YuvProgram::Planar
        } else if i == 3 {
            YuvProgram::PlanarRec709
        } else if i == 4 {
            YuvProgram::Interleaved
        } else {
            YuvProgram::InterleavedRec709
        }
    }

    /// The YUV shader at position `i` of the six.
    pub fn from_index(i: usize) -> (p: YuvProgram)
        requires
            i < YUV_SHADER_COUNT,
        ensures
            p == Self::spec_from_index(i as int),
    {
        if i == 0 {
            YuvProgram::Nv12
        } else if i == 1 {
            YuvProgram::Nv12Rec709
        } else if i == 2 {
            YuvProgram::Planar
        } else if i == 3 {
            YuvProgram::PlanarRec709
        } else if i == 4 {
            YuvProgram::Interleaved
        } else {
            YuvProgram::InterleavedRec709
        }
    }

    /// The shader for a plane layout and a colour space.
    pub open spec fn spec_for(format: YuvFormat, color_space: YuvColorSpace) -> YuvProgram {
        match (format, color_space) {
            (YuvFormat::NV12, YuvColorSpace::Rec601) => YuvProgram::Nv12,
            (YuvFormat::NV12, YuvColorSpace::Rec709) => YuvProgram::Nv12Rec709,
            (YuvFormat::PlanarYCbCr, YuvColorSpace::Rec601) => YuvProgram::Planar,
            (YuvFormat::PlanarYCbCr, YuvColorSpace::Rec709) => YuvProgram::PlanarRec709,
            (YuvFormat::InterleavedYCbCr, YuvColorSpace::Rec601) => YuvProgram::Interleaved,
            (YuvFormat::InterleavedYCbCr, YuvColorSpace::Rec709) => YuvProgram::InterleavedRec709,
        }
    }
}

/// The table position of a YUV combination, taken modulo the number of YUV
/// shaders, picks the shader for its plane layout and colour space whatever
/// the buffer kind.
pub proof fn lemma_yuv_shader_by_format(
    buffer_kind: ImageBufferKind,
    format: YuvFormat,
    color_space: YuvColorSpace,
)
    ensures
        YuvProgram::spec_from_index(
            spec_yuv_shader_index(buffer_kind, format, color_space) % (YUV_SHADER_COUNT as int),
        ) == YuvProgram::spec_for(format, color_space),
{
}


/// Every shader program of the renderer.
#[derive(Clone, Copy, Debug)]
pub struct Shaders {
    // Shaders that draw intermediate results into cache targets.
    pub cs_text_run: LazilyCompiledShader,
    pub cs_blur_a8: LazilyCompiledShader,
    pub cs_blur_rgba8: LazilyCompiledShader,
    // Brush shaders.
    pub brush_mask_corner: LazilyCompiledShader,
    pub brush_mask_rounded_rect: LazilyCompiledShader,
    pub brush_picture_rgba8: BrushShader,
    pub brush_picture_rgba8_alpha_mask: BrushShader,
    pub brush_picture_a8: BrushShader,
    pub brush_solid: BrushShader,
    pub brush_line: BrushShader,
    // Shaders that draw clip sources into clip masks.
    pub cs_clip_rectangle: LazilyCompiledShader,
    pub cs_clip_image: LazilyCompiledShader,
    pub cs_clip_border: LazilyCompiledShader,
    // Shaders that draw and blend the final results.
    pub ps_text_run: TextShader,
    pub ps_text_run_dual_source: TextShader,
    pub ps_image: PrimitiveShader,
    pub ps_yuv_image: [PrimitiveShader; 6],
    pub ps_border_corner: PrimitiveShader,
    pub ps_border_edge: PrimitiveShader,
    pub ps_gradient: PrimitiveShader,
    pub ps_angle_gradient: PrimitiveShader,
    pub ps_radial_gradient: PrimitiveShader,
    pub ps_blend: LazilyCompiledShader,
    pub ps_hw_composite: LazilyCompiledShader,
    pub ps_split_composite: LazilyCompiledShader,
    pub ps_composite: LazilyCompiledShader,
}

/// A shader that is not a brush, text or primitive shader.
pub open spec fn plain_shader(kind: ShaderKind, id: ShaderId) -> LazilyCompiledShader {
    LazilyCompiledShader { id, kind }
}

/// The two builds of a primitive shader.
pub open spec fn primitive_shader(program: PrimitiveProgram) -> PrimitiveShader {
    PrimitiveShader {
        simple: LazilyCompiledShader {
            id: ShaderId::Primitive(program, TransformedRectKind::AxisAligned),
            kind: ShaderKind::Primitive,
        },
        transform: LazilyCompiledShader {
            id: ShaderId::Primitive(program, TransformedRectKind::Complex),
            kind: ShaderKind::Primitive,
        },
    }
}

/// The two builds of a brush shader.
pub open spec fn brush_shader(program: BrushProgram) -> BrushShader {
    BrushShader {
        opaque: LazilyCompiledShader {
            id: ShaderId::Brush(program, BrushPass::Opaque),
            kind: ShaderKind::Brush,
        },
        alpha: LazilyCompiledShader {
            id: ShaderId::Brush(program, BrushPass::Alpha),
            kind: ShaderKind::Brush,
        },
    }
}

/// The three builds of a text shader.
pub open spec fn text_shader(program: TextProgram) -> TextShader {
    TextShader {
        simple: LazilyCompiledShader {
            id: ShaderId::Text(program, TextVariant::Simple),
            kind: ShaderKind::Text,
        },
        transform: LazilyCompiledShader {
            id: ShaderId::Text(program, TextVariant::Transform),
            kind: ShaderKind::Text,
        },
        glyph_transform: LazilyCompiledShader {
            id: ShaderId::Text(program, TextVariant::GlyphTransform),
            kind: ShaderKind::Text,
        },
    }
}

impl Shaders {
    /// The shaders of a renderer. With `enable_dithering` the three
    /// gradient shaders are the dithering ones.
    pub open spec fn spec_new(enable_dithering: bool) -> Shaders {
        Shaders {
            cs_text_run: plain_shader(
                ShaderKind::Cache(VertexArrayKind::Primitive),
                ShaderId::CsTextRun,
            ),
            cs_blur_a8: plain_shader(ShaderKind::Cache(VertexArrayKind::Blur), ShaderId::CsBlurA8),
            cs_blur_rgba8: plain_shader(
                ShaderKind::Cache(VertexArrayKind::Blur),
                ShaderId::CsBlurRgba8,
            ),
            brush_mask_corner: plain_shader(ShaderKind::Brush, ShaderId::BrushMaskCorner),
            brush_mask_rounded_rect: plain_shader(ShaderKind::Brush, ShaderId::BrushMaskRoundedRect),
            brush_picture_rgba8: brush_shader(BrushProgram::PictureRgba8),
            brush_picture_rgba8_alpha_mask: brush_shader(BrushProgram::PictureRgba8AlphaMask),
            brush_picture_a8: brush_shader(BrushProgram::PictureA8),
            brush_solid: brush_shader(BrushProgram::Solid),
            brush_line: brush_shader(BrushProgram::Line),
            cs_clip_rectangle: plain_shader(ShaderKind::ClipCache, ShaderId::CsClipRectangle),
            cs_clip_image: plain_shader(ShaderKind::ClipCache, ShaderId::CsClipImage),
            cs_clip_border: plain_shader(ShaderKind::ClipCache, ShaderId::CsClipBorder),
            ps_text_run: text_shader(TextProgram::Run),
            ps_text_run_dual_source: text_shader(TextProgram::RunDualSource),
            ps_image: primitive_shader(PrimitiveProgram::Image),
            ps_yuv_image: [
                primitive_shader(PrimitiveProgram::YuvImage(YuvProgram::Nv12)),
                primitive_shader(PrimitiveProgram::YuvImage(YuvProgram::Nv12Rec709)),
                primitive_shader(PrimitiveProgram::YuvImage(YuvProgram::Planar)),
                primitive_shader(PrimitiveProgram::YuvImage(YuvProgram::PlanarRec709)),
                primitive_shader(PrimitiveProgram::YuvImage(YuvProgram::Interleaved)),
                primitive_shader(PrimitiveProgram::YuvImage(YuvProgram::InterleavedRec709)),
            ],
            ps_border_corner: primitive_shader(PrimitiveProgram::BorderCorner),
            ps_border_edge: primitive_shader(PrimitiveProgram::BorderEdge),
            ps_gradient: primitive_shader(
                if enable_dithering {
                    PrimitiveProgram::GradientDithering
                } else {
                    PrimitiveProgram::Gradient
                },
            ),
            ps_angle_gradient: primitive_shader(
                if enable_dithering {
                    PrimitiveProgram::AngleGradientDithering
                } else {
                    PrimitiveProgram::AngleGradient
                },
            ),
            ps_radial_gradient: primitive_shader(
                if enable_dithering {
                    PrimitiveProgram::RadialGradientDithering
                } else {
                    PrimitiveProgram::RadialGradient
                },
            ),
            ps_blend: plain_shader(ShaderKind::Primitive, ShaderId::PsBlend),
            ps_hw_composite: plain_shader(ShaderKind::Primitive, ShaderId::PsHwComposite),
            ps_split_composite: plain_shader(ShaderKind::Primitive, ShaderId::PsSplitComposite),
            ps_composite: plain_shader(ShaderKind::Primitive, ShaderId::PsComposite),
        }
    }

    /// The shaders of a renderer. With `enable_dithering` the three
    /// gradient shaders are the dithering ones.
    pub fn new(enable_dithering: bool) -> (shaders: Shaders)
        ensures
            shaders == Self::spec_new(enable_dithering),
    {
        let cache_primitive = ShaderKind::Cache(VertexArrayKind::Primitive);
        let cache_blur = ShaderKind::Cache(VertexArrayKind::Blur);
        let shaders = Shaders {
            cs_text_run: LazilyCompiledShader::new(cache_primitive, ShaderId::CsTextRun),
            cs_blur_a8: LazilyCompiledShader::new(cache_blur, ShaderId::CsBlurA8),
            cs_blur_rgba8: LazilyCompiledShader::new(cache_blur, ShaderId::CsBlurRgba8),
            brush_mask_corner: LazilyCompiledShader::new(
                ShaderKind::Brush,
                ShaderId::BrushMaskCorner,
            ),
            brush_mask_rounded_rect: LazilyCompiledShader::new(
                ShaderKind::Brush,
                ShaderId::BrushMaskRoundedRect,
            ),
            brush_picture_rgba8: BrushShader::new(BrushProgram::PictureRgba8),
            brush_picture_rgba8_alpha_mask: BrushShader::new(BrushProgram::PictureRgba8AlphaMask),
            brush_picture_a8: BrushShader::new(BrushProgram::PictureA8),
            brush_solid: BrushShader::new(BrushProgram::Solid),
            brush_line: BrushShader::new(BrushProgram::Line),
            cs_clip_rectangle: LazilyCompiledShader::new(
                ShaderKind::ClipCache,
                ShaderId::CsClipRectangle,
            ),
            cs_clip_image: LazilyCompiledShader::new(ShaderKind::ClipCache, ShaderId::CsClipImage),
            cs_clip_border: LazilyCompiledShader::new(ShaderKind::ClipCache, ShaderId::CsClipBorder),
            ps_text_run: TextShader::new(TextProgram::Run),
            ps_text_run_dual_source: TextShader::new(TextProgram::RunDualSource),
            ps_image: PrimitiveShader::new(PrimitiveProgram::Image),
            ps_yuv_image: [
                PrimitiveShader::new(PrimitiveProgram::YuvImage(YuvProgram::Nv12)),
                PrimitiveShader::new(PrimitiveProgram::YuvImage(YuvProgram::Nv12Rec709)),
                PrimitiveShader::new(PrimitiveProgram::YuvImage(YuvProgram::Planar)),
                PrimitiveShader::new(PrimitiveProgram::YuvImage(YuvProgram::PlanarRec709)),
                PrimitiveShader::new(PrimitiveProgram::YuvImage(YuvProgram::Interleaved)),
                PrimitiveShader::new(PrimitiveProgram::YuvImage(YuvProgram::InterleavedRec709)),
            ],
            ps_border_corner: PrimitiveShader::new(PrimitiveProgram::BorderCorner),
            ps_border_edge: PrimitiveShader::new(PrimitiveProgram::BorderEdge),
            ps_gradient: PrimitiveShader::new(
                if enable_dithering {
                    PrimitiveProgram::GradientDithering
                } else {
                    PrimitiveProgram::Gradient
                },
            ),
            ps_angle_gradient: PrimitiveShader::new(
                if enable_dithering {
                    PrimitiveProgram::AngleGradientDithering
                } else {
                    PrimitiveProgram::AngleGradient
                },
            ),
            ps_radial_gradient: PrimitiveShader::new(
                if enable_dithering {
                    PrimitiveProgram::RadialGradientDithering
                } else {
                    PrimitiveProgram::RadialGradient
                },
            ),
            ps_blend: LazilyCompiledShader::new(ShaderKind::Primitive, ShaderId::PsBlend),
            ps_hw_composite: LazilyCompiledShader::new(
                ShaderKind::Primitive,
                ShaderId::PsHwComposite,
            ),
            ps_split_composite: LazilyCompiledShader::new(
                ShaderKind::Primitive,
                ShaderId::PsSplitComposite,
            ),
            ps_composite: LazilyCompiledShader::new(ShaderKind::Primitive, ShaderId::PsComposite),
        };
        assert(shaders.ps_yuv_image =~= Self::spec_new(enable_dithering).ps_yuv_image);
        shaders
    }

    /// The program that draws a batch of `kind` with `blend_mode`. Text
    /// runs are not drawn through this rule.
    pub open spec fn batch_program(self, kind: BatchKind, blend_mode: BlendMode) -> ShaderId {
        match kind {
            BatchKind::Composite { .. } => self.ps_composite.id,
            BatchKind::HardwareComposite => self.ps_hw_composite.id,
            BatchKind::SplitComposite => self.ps_split_composite.id,
            BatchKind::Blend => self.ps_blend.id,
            BatchKind::Brush(brush_kind) => match brush_kind {
                BrushBatchKind::Solid => self.brush_solid.select(blend_mode).id,
                BrushBatchKind::Line => self.brush_line.select(blend_mode).id,
                BrushBatchKind::Picture(BrushImageSourceKind::Alpha) => self.brush_picture_a8.select(
                    blend_mode,
                ).id,
                BrushBatchKind::Picture(BrushImageSourceKind::Color) => self.brush_picture_rgba8.select(
                    blend_mode,
                ).id,
                BrushBatchKind::Picture(
                    BrushImageSourceKind::ColorAlphaMask,
                ) => self.brush_picture_rgba8_alpha_mask.select(blend_mode).id,
            },
            BatchKind::Transformable(transform_kind, batch_kind) => match batch_kind {
                TransformBatchKind::TextRun(glyph_format) => self.ps_text_run.select(
                    glyph_format,
                    transform_kind,
                ).id,
                TransformBatchKind::Image(_) => self.ps_image.select(transform_kind).id,
                TransformBatchKind::YuvImage(buffer_kind, format, color_space) => self.ps_yuv_image[spec_yuv_shader_index(
                    buffer_kind,
                    format,
                    color_space,
                ) % (YUV_SHADER_COUNT as int)].select(transform_kind).id,
                TransformBatchKind::BorderCorner => self.ps_border_corner.select(transform_kind).id,
                TransformBatchKind::BorderEdge => self.ps_border_edge.select(transform_kind).id,
                TransformBatchKind::AlignedGradient => self.ps_gradient.select(transform_kind).id,
                TransformBatchKind::AngleGradient => self.ps_angle_gradient.select(
                    transform_kind,
                ).id,
                TransformBatchKind::RadialGradient => self.ps_radial_gradient.select(
                    transform_kind,
                ).id,
            },
        }
    }

    /// The program that draws a batch of `kind` with `blend_mode`, created
    /// first if need be.
    pub fn get_batch_program(&self, kind: BatchKind, blend_mode: BlendMode, device: &mut Device) -> (program: ShaderId)
        requires
            !(kind matches BatchKind::Transformable(_, TransformBatchKind::TextRun(_))),
        ensures
            program == self.batch_program(kind, blend_mode),
            final(device)@ == old(device)@.create_program(program),
    {
        match kind {
            BatchKind::Composite { .. } => self.ps_composite.get(device),
            BatchKind::HardwareComposite => self.ps_hw_composite.get(device),
            BatchKind::SplitComposite => self.ps_split_composite.get(device),
            BatchKind::Blend => self.ps_blend.get(device),
            BatchKind::Brush(brush_kind) => match brush_kind {
                BrushBatchKind::Solid => self.brush_solid.get(blend_mode, device),
                BrushBatchKind::Line => self.brush_line.get(blend_mode, device),
                BrushBatchKind::Picture(target_kind) => match target_kind {
                    BrushImageSourceKind::Alpha => self.brush_picture_a8.get(blend_mode, device),
                    BrushImageSourceKind::Color => self.brush_picture_rgba8.get(blend_mode, device),
                    BrushImageSourceKind::ColorAlphaMask => self.brush_picture_rgba8_alpha_mask.get(
                        blend_mode,
                        device,
                    ),
                },
            },
            BatchKind::Transformable(transform_kind, batch_kind) => match batch_kind {
                TransformBatchKind::TextRun(glyph_format) => self.ps_text_run.get(
                    glyph_format,
                    transform_kind,
                    device,
                ),
                TransformBatchKind::Image(_) => self.ps_image.get(transform_kind, device),
                TransformBatchKind::YuvImage(buffer_kind, format, color_space) => {
                    let shader_index = get_yuv_shader_index(buffer_kind, format, color_space)
                        % YUV_SHADER_COUNT;
                    self.ps_yuv_image[shader_index].get(transform_kind, device)
                },
                TransformBatchKind::BorderCorner => self.ps_border_corner.get(transform_kind, device),
                TransformBatchKind::BorderEdge => self.ps_border_edge.get(transform_kind, device),
                TransformBatchKind::AlignedGradient => self.ps_gradient.get(transform_kind, device),
                TransformBatchKind::AngleGradient => self.ps_angle_gradient.get(
                    transform_kind,
                    device,
                ),
                TransformBatchKind::RadialGradient => self.ps_radial_gradient.get(
                    transform_kind,
                    device,
                ),
            },
        }
    }
}


impl TextShader {
    /// The name of the program for the glyphs and the transform.
    pub fn select_id(&self, glyph_format: GlyphFormat, transform_kind: TransformedRectKind) -> (program: ShaderId)
        ensures
            program == self.select(glyph_format, transform_kind).id,
    {
        match glyph_format {
            GlyphFormat::TransformedAlpha => self.glyph_transform.id,
            GlyphFormat::TransformedSubpixel => self.glyph_transform.id,
            _ => match transform_kind {
                TransformedRectKind::AxisAligned => self.simple.id,
                TransformedRectKind::Complex => self.transform.id,
            },
        }
    }
}


impl Shaders {
    /// The device after every program that exists was told to forget the
    /// instances that it holds.
    pub open spec fn reset_all(self, d: DeviceView) -> DeviceView {
        let cache = d.reset_program(self.cs_text_run.id).reset_program(
            self.cs_blur_a8.id,
        ).reset_program(self.cs_blur_rgba8.id).reset_program(
            self.brush_mask_corner.id,
        ).reset_program(self.brush_mask_rounded_rect.id);
        let brushes = self.brush_line.reset_both(
            self.brush_solid.reset_both(
                self.brush_picture_a8.reset_both(
                    self.brush_picture_rgba8_alpha_mask.reset_both(
                        self.brush_picture_rgba8.reset_both(cache),
                    ),
                ),
            ),
        );
        let clips = brushes.reset_program(self.cs_clip_rectangle.id).reset_program(
            self.cs_clip_image.id,
        ).reset_program(self.cs_clip_border.id);
        let text = self.ps_text_run_dual_source.reset_three(self.ps_text_run.reset_three(clips));
        let yuv = self.ps_yuv_image[5].reset_both(
            self.ps_yuv_image[4].reset_both(
                self.ps_yuv_image[3].reset_both(
                    self.ps_yuv_image[2].reset_both(
                        self.ps_yuv_image[1].reset_both(
                            self.ps_yuv_image[0].reset_both(self.ps_image.reset_both(text)),
                        ),
                    ),
                ),
            ),
        );
        let primitives = self.ps_radial_gradient.reset_both(
            self.ps_angle_gradient.reset_both(
                self.ps_gradient.reset_both(
                    self.ps_border_edge.reset_both(self.ps_border_corner.reset_both(yuv)),
                ),
            ),
        );
        primitives.reset_program(self.ps_blend.id).reset_program(
            self.ps_hw_composite.id,
        ).reset_program(self.ps_split_composite.id).reset_program(self.ps_composite.id)
    }

    /// Tells every program that exists to forget the instances it holds.
    pub fn reset(&self, device: &mut Device)
        ensures
            final(device)@ == self.reset_all(old(device)@),
    {
        self.cs_text_run.reset(device);
        self.cs_blur_a8.reset(device);
        self.cs_blur_rgba8.reset(device);
        self.brush_mask_corner.reset(device);
        self.brush_mask_rounded_rect.reset(device);
        self.brush_picture_rgba8.reset(device);
        self.brush_picture_rgba8_alpha_mask.reset(device);
        self.brush_picture_a8.reset(device);
        self.brush_solid.reset(device);
        self.brush_line.reset(device);
        self.cs_clip_rectangle.reset(device);
        self.cs_clip_image.reset(device);
        self.cs_clip_border.reset(device);
        self.ps_text_run.reset(device);
        self.ps_text_run_dual_source.reset(device);
        self.ps_image.reset(device);
        self.ps_yuv_image[0].reset(device);
        self.ps_yuv_image[1].reset(device);
        self.ps_yuv_image[2].reset(device);
        self.ps_yuv_image[3].reset(device);
        self.ps_yuv_image[4].reset(device);
        self.ps_yuv_image[5].reset(device);
        self.ps_border_corner.reset(device);
        self.ps_border_edge.reset(device);
        self.ps_gradient.reset(device);
        self.ps_angle_gradient.reset(device);
        self.ps_radial_gradient.reset(device);
        self.ps_blend.reset(device);
        self.ps_hw_composite.reset(device);
        self.ps_split_composite.reset(device);
        self.ps_composite.reset(device);
    }

    /// The device after every program that exists was destroyed.
    pub open spec fn delete_all(self, d: DeviceView) -> DeviceView {
        let cache = d.delete_program(self.cs_text_run.id).delete_program(
            self.cs_blur_a8.id,
        ).delete_program(self.cs_blur_rgba8.id).delete_program(
            self.brush_mask_rounded_rect.id,
        ).delete_program(self.brush_mask_corner.id);
        let brushes = self.brush_line.delete_both(
            self.brush_solid.delete_both(
                self.brush_picture_a8.delete_both(
                    self.brush_picture_rgba8_alpha_mask.delete_both(
                        self.brush_picture_rgba8.delete_both(cache),
                    ),
                ),
            ),
        );
        let clips = brushes.delete_program(self.cs_clip_rectangle.id).delete_program(
            self.cs_clip_image.id,
        ).delete_program(self.cs_clip_border.id);
        let text = self.ps_text_run_dual_source.delete_three(self.ps_text_run.delete_three(clips));
        let yuv = self.ps_yuv_image[5].delete_both(
            self.ps_yuv_image[4].delete_both(
                self.ps_yuv_image[3].delete_both(
                    self.ps_yuv_image[2].delete_both(
                        self.ps_yuv_image[1].delete_both(
                            self.ps_yuv_image[0].delete_both(self.ps_image.delete_both(text)),
                        ),
                    ),
                ),
            ),
        );
        let primitives = self.ps_radial_gradient.delete_both(
            self.ps_angle_gradient.delete_both(
                self.ps_gradient.delete_both(
                    self.ps_border_edge.delete_both(self.ps_border_corner.delete_both(yuv)),
                ),
            ),
        );
        primitives.delete_program(self.ps_blend.id).delete_program(
            self.ps_hw_composite.id,
        ).delete_program(self.ps_split_composite.id).delete_program(self.ps_composite.id)
    }

    /// Destroys every program that exists.
    pub fn deinit(self, device: &mut Device)
        ensures
            final(device)@ == self.delete_all(old(device)@),
    {
        self.cs_text_run.deinit(device);
        self.cs_blur_a8.deinit(device);
        self.cs_blur_rgba8.deinit(device);
        self.brush_mask_rounded_rect.deinit(device);
        self.brush_mask_corner.deinit(device);
        self.brush_picture_rgba8.deinit(device);
        self.brush_picture_rgba8_alpha_mask.deinit(device);
        self.brush_picture_a8.deinit(device);
        self.brush_solid.deinit(device);
        self.brush_line.deinit(device);
        self.cs_clip_rectangle.deinit(device);
        self.cs_clip_image.deinit(device);
        self.cs_clip_border.deinit(device);
        self.ps_text_run.deinit(device);
        self.ps_text_run_dual_source.deinit(device);
        self.ps_image.deinit(device);
        self.ps_yuv_image[0].deinit(device);
        self.ps_yuv_image[1].deinit(device);
        self.ps_yuv_image[2].deinit(device);
        self.ps_yuv_image[3].deinit(device);
        self.ps_yuv_image[4].deinit(device);
        self.ps_yuv_image[5].deinit(device);
        self.ps_border_corner.deinit(device);
        self.ps_border_edge.deinit(device);
        self.ps_gradient.deinit(device);
        self.ps_angle_gradient.deinit(device);
        self.ps_radial_gradient.deinit(device);
        self.ps_blend.deinit(device);
        self.ps_hw_composite.deinit(device);
        self.ps_split_composite.deinit(device);
        self.ps_composite.deinit(device);
    }
}

impl PrimitiveShader {
    /// The device after both builds were reset.
    pub open spec fn reset_both(self, d: DeviceView) -> DeviceView {
        d.reset_program(self.simple.id).reset_program(self.transform.id)
    }

    /// The device after both builds were destroyed.
    pub open spec fn delete_both(self, d: DeviceView) -> DeviceView {
        d.delete_program(self.simple.id).delete_program(self.transform.id)
    }
}

impl BrushShader {
    /// The device after both builds were reset.
    pub open spec fn reset_both(self, d: DeviceView) -> DeviceView {
        d.reset_program(self.opaque.id).reset_program(self.alpha.id)
    }

    /// The device after both builds were destroyed.
    pub open spec fn delete_both(self, d: DeviceView) -> DeviceView {
        d.delete_program(self.opaque.id).delete_program(self.alpha.id)
    }
}

impl TextShader {
    /// The device after the three builds were reset.
    pub open spec fn reset_three(self, d: DeviceView) -> DeviceView {
        d.reset_program(self.simple.id).reset_program(self.transform.id).reset_program(
            self.glyph_transform.id,
        )
    }

    /// The device after the three builds were destroyed.
    pub open spec fn delete_three(self, d: DeviceView) -> DeviceView {
        d.delete_program(self.simple.id).delete_program(self.transform.id).delete_program(
            self.glyph_transform.id,
        )
    }
}

/// The name of the files of a brush shader, without what its pass adds.
pub open spec fn brush_base_name(program: BrushProgram) -> Seq<char> {
    match program {
        BrushProgram::Solid => "brush_solid"@,
        BrushProgram::Line => "brush_line"@,
        BrushProgram::PictureA8 => "brush_picture_alpha_target"@,
        BrushProgram::PictureRgba8 => "brush_picture_color_target"@,
        BrushProgram::PictureRgba8AlphaMask => "brush_picture_color_target_alpha_mask"@,
    }
}

/// The name of the files of a text shader, without what its variant adds.
pub open spec fn text_base_name(program: TextProgram) -> Seq<char> {
    match program {
        TextProgram::Run => "ps_text_run"@,
        TextProgram::RunDualSource => "ps_text_run_dual_source_blending"@,
    }
}

/// The name of the files of a primitive shader, without what the
/// transformed build adds.
pub open spec fn primitive_base_name(program: PrimitiveProgram) -> Seq<char> {
    match program {
        PrimitiveProgram::Image => "ps_image"@,
        PrimitiveProgram::BorderCorner => "ps_border_corner"@,
        PrimitiveProgram::BorderEdge => "ps_border_edge"@,
        PrimitiveProgram::Gradient => "ps_gradient"@,
        PrimitiveProgram::GradientDithering => "ps_gradient_dithering"@,
        PrimitiveProgram::AngleGradient => "ps_angle_gradient"@,
        PrimitiveProgram::AngleGradientDithering => "ps_angle_gradient_dithering"@,
        PrimitiveProgram::RadialGradient => "ps_radial_gradient"@,
        PrimitiveProgram::RadialGradientDithering => "ps_radial_gradient_dithering"@,
        PrimitiveProgram::YuvImage(YuvProgram::Nv12) => "ps_yuv_image_nv12"@,
        PrimitiveProgram::YuvImage(YuvProgram::Nv12Rec709) => "ps_yuv_image_nv12_yuv_rec709"@,
        PrimitiveProgram::YuvImage(YuvProgram::Planar) => "ps_yuv_image"@,
        PrimitiveProgram::YuvImage(YuvProgram::PlanarRec709) => "ps_yuv_image_yuv_rec709"@,
        PrimitiveProgram::YuvImage(YuvProgram::Interleaved) => "ps_yuv_image_interleaved_y_cb_cr"@,
        PrimitiveProgram::YuvImage(
            YuvProgram::InterleavedRec709,
        ) => "ps_yuv_image_interleaved_y_cb_cr_yuv_rec709"@,
    }
}

/// The name of the files of a shader. The alpha pass of a brush adds
/// `_alpha_pass`; the variants of text add `_transform` and
/// `_glyph_transform`; the transformed build of a primitive shader adds
/// `_transform`.
pub open spec fn spec_shader_name(shader: ShaderId) -> Seq<char> {
    match shader {
        ShaderId::CsTextRun => "cs_text_run"@,
        ShaderId::CsBlurA8 => "cs_blur_a8"@,
        ShaderId::CsBlurRgba8 => "cs_blur_rgba8"@,
        ShaderId::BrushMaskCorner => "brush_mask_corner"@,
        ShaderId::BrushMaskRoundedRect => "brush_mask_rounded_rect"@,
        ShaderId::CsClipRectangle => "cs_clip_rectangle_transform"@,
        ShaderId::CsClipImage => "cs_clip_image_transform"@,
        ShaderId::CsClipBorder => "cs_clip_border_transform"@,
        ShaderId::PsBlend => "ps_blend"@,
        ShaderId::PsHwComposite => "ps_hardware_composite"@,
        ShaderId::PsSplitComposite => "ps_split_composite"@,
        ShaderId::PsComposite => "ps_composite"@,
        ShaderId::GpuCacheUpdate => "gpu_cache_update"@,
        ShaderId::Brush(program, BrushPass::Opaque) => brush_base_name(program),
        ShaderId::Brush(program, BrushPass::Alpha) => brush_base_name(program) + "_alpha_pass"@,
        ShaderId::Text(program, TextVariant::Simple) => text_base_name(program),
        ShaderId::Text(program, TextVariant::Transform) => text_base_name(program) + "_transform"@,
        ShaderId::Text(program, TextVariant::GlyphTransform) => text_base_name(program)
            + "_glyph_transform"@,
        ShaderId::Primitive(program, TransformedRectKind::AxisAligned) => primitive_base_name(
            program,
        ),
        ShaderId::Primitive(program, TransformedRectKind::Complex) => primitive_base_name(program)
            + "_transform"@,
    }
}

/// The name of the files of `shader`; see [`spec_shader_name`].
pub fn shader_name(shader: ShaderId) -> (name: String)
    ensures
        name@ == spec_shader_name(shader),
{
    match shader {
        ShaderId::CsTextRun => String::from_str("cs_text_run"),
        ShaderId::CsBlurA8 => String::from_str("cs_blur_a8"),
        ShaderId::CsBlurRgba8 => String::from_str("cs_blur_rgba8"),
        ShaderId::BrushMaskCorner => String::from_str("brush_mask_corner"),
        ShaderId::BrushMaskRoundedRect => String::from_str("brush_mask_rounded_rect"),
        ShaderId::CsClipRectangle => String::from_str("cs_clip_rectangle_transform"),
        ShaderId::CsClipImage => String::from_str("cs_clip_image_transform"),
        ShaderId::CsClipBorder => String::from_str("cs_clip_border_transform"),
        ShaderId::PsBlend => String::from_str("ps_blend"),
        ShaderId::PsHwComposite => String::from_str("ps_hardware_composite"),
        ShaderId::PsSplitComposite => String::from_str("ps_split_composite"),
        ShaderId::PsComposite => String::from_str("ps_composite"),
        ShaderId::GpuCacheUpdate => String::from_str("gpu_cache_update"),
        ShaderId::Brush(program, pass) => {
            let base: &'static str = match program {
                BrushProgram::Solid => "brush_solid",
                BrushProgram::Line => "brush_line",
                BrushProgram::PictureA8 => "brush_picture_alpha_target",
                BrushProgram::PictureRgba8 => "brush_picture_color_target",
                BrushProgram::PictureRgba8AlphaMask => "brush_picture_color_target_alpha_mask",
            };
            let name = String::from_str(base);
            match pass {
                BrushPass::Opaque => name,
                BrushPass::Alpha => name.concat("_alpha_pass"),
            }
        },
        ShaderId::Text(program, variant) => {
            let base: &'static str = match program {
                TextProgram::Run => "ps_text_run",
                TextProgram::RunDualSource => "ps_text_run_dual_source_blending",
            };
            let name = String::from_str(base);
            match variant {
                TextVariant::Simple => name,
                TextVariant::Transform => name.concat("_transform"),
                TextVariant::GlyphTransform => name.concat("_glyph_transform"),
            }
        },
        ShaderId::Primitive(program, kind) => {
            let base: &'static str = match program {
                PrimitiveProgram::Image => "ps_image",
                PrimitiveProgram::BorderCorner => "ps_border_corner",
                PrimitiveProgram::BorderEdge => "ps_border_edge",
                PrimitiveProgram::Gradient => "ps_gradient",
                PrimitiveProgram::GradientDithering => "ps_gradient_dithering",
                PrimitiveProgram::AngleGradient => "ps_angle_gradient",
                PrimitiveProgram::AngleGradientDithering => "ps_angle_gradient_dithering",
                PrimitiveProgram::RadialGradient => "ps_radial_gradient",
                PrimitiveProgram::RadialGradientDithering => "ps_radial_gradient_dithering",
                PrimitiveProgram::YuvImage(yuv) => match yuv {
                    YuvProgram::Nv12 => "ps_yuv_image_nv12",
                    YuvProgram::Nv12Rec709 => "ps_yuv_image_nv12_yuv_rec709",
                    YuvProgram::Planar => "ps_yuv_image",
                    YuvProgram::PlanarRec709 => "ps_yuv_image_yuv_rec709",
                    YuvProgram::Interleaved => "ps_yuv_image_interleaved_y_cb_cr",
                    YuvProgram::InterleavedRec709 => "ps_yuv_image_interleaved_y_cb_cr_yuv_rec709",
                },
            };
            let name = String::from_str(base);
            match kind {
                TransformedRectKind::AxisAligned => name,
                TransformedRectKind::Complex => name.concat("_transform"),
            }
        },
    }
}

} // verus!
