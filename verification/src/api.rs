//! Identifiers, formats and colours shared by every part of the renderer.

use vstd::prelude::*;
use crate::device::TextureTarget;

verus! {

/// A single-precision number carried by its IEEE-754 bit pattern. The
/// renderer moves such numbers around and never computes with them.
#[derive(Clone, Copy, Debug, PartialEq, Eq, Structural)]
pub struct F32Bits(pub u32);

impl F32Bits {
    /// The bit pattern of `0.0`.
    pub fn zero() -> (v: F32Bits)
        ensures
            v == F32Bits(0),
    {
        F32Bits(0)
    }

    /// The bit pattern of `1.0`.
    pub fn one() -> (v: F32Bits)
        ensures
            v == F32Bits(0x3f80_0000),
    {
        F32Bits(0x3f80_0000)
    }
}

/// The pixel layout of a texture.
#[derive(Clone, Copy, Debug, PartialEq, Eq, Structural)]
pub enum ImageFormat {
    Invalid,
    A8,
    RGB8,
    BGRA8,
    RGBAF32,
    RG8,
}

impl ImageFormat {
    /// Bytes taken by one pixel; `None` for `Invalid`.
    pub open spec fn spec_bytes_per_pixel(self) -> Option<u32> {
        match self {
            ImageFormat::A8 => Some(1u32),
            ImageFormat::RGB8 => Some(3u32),
            ImageFormat::BGRA8 => Some(4u32),
            ImageFormat::RGBAF32 => Some(16u32),
            ImageFormat::RG8 => Some(2u32),
            ImageFormat::Invalid => None,
        }
    }

    /// Bytes taken by one pixel; `None` for `Invalid`.
    pub fn bytes_per_pixel(&self) -> (r: Option<u32>)
        ensures
            r == self.spec_bytes_per_pixel(),
    {
        match self {
            ImageFormat::A8 => Some(1),
            ImageFormat::RGB8 => Some(3),
            ImageFormat::BGRA8 => Some(4),
            ImageFormat::RGBAF32 => Some(16),
            ImageFormat::RG8 => Some(2),
            ImageFormat::Invalid => None,
        }
    }
}

/// Names one document (one independently built scene) of the renderer.
#[derive(Clone, Copy, Debug, PartialEq, Eq, Structural)]
pub struct DocumentId(pub u32, pub u32);

/// Names one pipeline (one display list source).
#[derive(Clone, Copy, Debug, PartialEq, Eq, Structural)]
pub struct PipelineId(pub u32, pub u32);

/// The version of a pipeline's display list that a frame shows.
#[derive(Clone, Copy, Debug, PartialEq, Eq, Structural)]
pub struct Epoch(pub u32);

/// Names an image whose pixels the embedder owns.
#[derive(Clone, Copy, Debug, PartialEq, Eq, Structural)]
pub struct ExternalImageId(pub u64);

/// The stacking position of a document among the active documents.
pub type DocumentLayer = i8;

/// Where the pixels of an external image live.
#[derive(Clone, Copy, Debug, PartialEq, Eq, Structural)]
pub enum ExternalImageType {
    TextureHandle(TextureTarget),
    Buffer,
}

/// A reference to one channel of an external image.
#[derive(Clone, Copy, Debug, PartialEq, Eq, Structural)]
pub struct ExternalImageData {
    pub id: ExternalImageId,
    pub channel_index: u8,
    pub image_type: ExternalImageType,
}

/// A colour with four single-precision channels.
#[derive(Clone, Copy, Debug, PartialEq, Eq, Structural)]
pub struct ColorF {
    pub r: F32Bits,
    pub g: F32Bits,
    pub b: F32Bits,
    pub a: F32Bits,
}

impl ColorF {
    pub fn new(r: F32Bits, g: F32Bits, b: F32Bits, a: F32Bits) -> (c: ColorF)
        ensures
            c == (ColorF { r, g, b, a }),
    {
        ColorF { r, g, b, a }
    }

    /// The channels in the order red, green, blue, alpha.
    pub open spec fn spec_to_array(self) -> [F32Bits; 4] {
        [self.r, self.g, self.b, self.a]
    }

    /// The channels in the order red, green, blue, alpha.
    pub fn to_array(&self) -> (a: [F32Bits; 4])
        ensures
            a == self.spec_to_array(),
    {
        [self.r, self.g, self.b, self.a]
    }
}

/// A colour with four 8-bit channels.
#[derive(Clone, Copy, Debug, PartialEq, Eq, Structural)]
pub struct ColorU {
    pub r: u8,
    pub g: u8,
    pub b: u8,
    pub a: u8,
}

/// A rectangle in texel space by its two corners.
#[derive(Clone, Copy, Debug, PartialEq, Eq, Structural)]
pub struct TexelRect {
    pub u0: F32Bits,
    pub v0: F32Bits,
    pub u1: F32Bits,
    pub v1: F32Bits,
}

/// How glyphs are anti-aliased.
#[derive(Clone, Copy, Debug, PartialEq, Eq, Structural)]
pub enum FontRenderMode {
    Mono,
    Alpha,
    Subpixel,
}

/// The colour space of a YUV image.
#[derive(Clone, Copy, Debug, PartialEq, Eq, Structural)]
pub enum YuvColorSpace {
    Rec601,
    Rec709,
}

/// The plane layout of a YUV image.
#[derive(Clone, Copy, Debug, PartialEq, Eq, Structural)]
pub enum YuvFormat {
    NV12,
    PlanarYCbCr,
    InterleavedYCbCr,
}

/// The number of YUV colour spaces.
pub const YUV_COLOR_SPACE_COUNT: usize = 2;

/// The number of YUV plane layouts.
pub const YUV_FORMAT_COUNT: usize = 3;

impl YuvColorSpace {
    /// The position of the colour space in declaration order.
    pub open spec fn spec_index(self) -> usize {
        match self {
            YuvColorSpace::Rec601 => 0,
            YuvColorSpace::Rec709 => 1,
        }
    }

    /// The position of the colour space in declaration order.
    pub fn index(&self) -> (i: usize)
        ensures
            i == self.spec_index(),
            i < YUV_COLOR_SPACE_COUNT,
    {
        match self {
            YuvColorSpace::Rec601 => 0,
            YuvColorSpace::Rec709 => 1,
        }
    }
}

impl YuvFormat {
    /// The position of the layout in declaration order.
    pub open spec fn spec_index(self) -> usize {
        match self {
            YuvFormat::NV12 => 0,
            YuvFormat::PlanarYCbCr => 1,
            YuvFormat::InterleavedYCbCr => 2,
        }
    }

    /// The position of the layout in declaration order.
    pub fn index(&self) -> (i: usize)
        ensures
            i == self.spec_index(),
            i < YUV_FORMAT_COUNT,
    {
        match self {
            YuvFormat::NV12 => 0,
            YuvFormat::PlanarYCbCr => 1,
            YuvFormat::InterleavedYCbCr => 2,
        }
    }
}

/// A request from the debugger front end.
#[derive(Clone, Copy, Debug, PartialEq, Eq, Structural)]
pub enum DebugCommand {
    EnableProfiler(bool),
    EnableTextureCacheDebug(bool),
    EnableRenderTargetDebug(bool),
    EnableAlphaRectsDebug(bool),
    EnableGpuTimeQueries(bool),
    EnableGpuSampleQueries(bool),
    EnableDualSourceBlending(bool),
    FetchDocuments,
    FetchPasses,
    FetchClipScrollTree,
    FetchRenderTasks,
    FetchScreenshot,
    SaveCapture,
    LoadCapture,
}

} // verus!
