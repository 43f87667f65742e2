//! Names and colours under which a profile shows the work of the device.

use vstd::prelude::*;
use crate::api::ColorU;
use crate::batch::{BatchKind, BrushBatchKind, TransformBatchKind};
use crate::renderer::ImageBufferKind;

verus! {

/// The name and the colour of one kind of work in a profile.
#[derive(Clone, Copy, Debug, PartialEq, Eq)]
pub struct GpuProfileTag {
    pub label: &'static str,
    pub color: ColorU,
}

/// An opaque colour of eight bits a channel.
pub open spec fn rgb(r: u8, g: u8, b: u8) -> ColorU {
    ColorU { r, g, b, a: 255 }
}

fn tag(label: &'static str, r: u8, g: u8, b: u8) -> (t: GpuProfileTag)
    ensures
        t.label@ == label@,
        t.color == rgb(r, g, b),
{
    GpuProfileTag { label, color: ColorU { r, g, b, a: 255 } }
}

impl TransformBatchKind {
    /// The name that a debugger shows for batches of the kind.
    pub open spec fn spec_debug_name(self) -> Seq<char> {
        match self {
            TransformBatchKind::TextRun(_) => "TextRun"@,
            TransformBatchKind::Image(ImageBufferKind::Texture2D) => "Image (2D)"@,
            TransformBatchKind::Image(ImageBufferKind::TextureRect) => "Image (Rect)"@,
            TransformBatchKind::Image(ImageBufferKind::TextureExternal) => "Image (External)"@,
            TransformBatchKind::Image(ImageBufferKind::Texture2DArray) => "Image (Array)"@,
            TransformBatchKind::YuvImage(_, _, _) => "YuvImage"@,
            TransformBatchKind::AlignedGradient => "AlignedGradient"@,
            TransformBatchKind::AngleGradient => "AngleGradient"@,
            TransformBatchKind::RadialGradient => "RadialGradient"@,
            TransformBatchKind::BorderCorner => "BorderCorner"@,
            TransformBatchKind::BorderEdge => "BorderEdge"@,
        }
    }

    /// The name that a debugger shows for batches of the kind.
    pub fn debug_name(&self) -> (name: &'static str)
        ensures
            name@ == self.spec_debug_name(),
    {
        match *self {
            TransformBatchKind::TextRun(_) => "TextRun",
            TransformBatchKind::Image(image_buffer_kind) => match image_buffer_kind {
                ImageBufferKind::Texture2D => "Image (2D)",
                ImageBufferKind::TextureRect => "Image (Rect)",
                ImageBufferKind::TextureExternal => "Image (External)",
                ImageBufferKind::Texture2DArray => "Image (Array)",
            },
            TransformBatchKind::YuvImage(_, _, _) => "YuvImage",
            TransformBatchKind::AlignedGradient => "AlignedGradient",
            TransformBatchKind::AngleGradient => "AngleGradient",
            TransformBatchKind::RadialGradient => "RadialGradient",
            TransformBatchKind::BorderCorner => "BorderCorner",
            TransformBatchKind::BorderEdge => "BorderEdge",
        }
    }

    /// The label under which a profile shows draws of the kind.
    pub open spec fn spec_sampler_label(self) -> Seq<char> {
        match self {
            TransformBatchKind::TextRun(_) => "TextRun"@,
            TransformBatchKind::Image(_) => "Image"@,
            TransformBatchKind::YuvImage(_, _, _) => "YuvImage"@,
            TransformBatchKind::BorderCorner => "BorderCorner"@,
            TransformBatchKind::BorderEdge => "BorderEdge"@,
            TransformBatchKind::AlignedGradient => "Gradient"@,
            TransformBatchKind::AngleGradient => "AngleGradient"@,
            TransformBatchKind::RadialGradient => "RadialGradient"@,
        }
    }

    /// The colour in which a profile shows draws of the kind: blue for
    /// text, green for images, dark green for YUV images, dark slate grey
    /// and lavender for borders, yellow, powder blue and light pink for
    /// gradients.
    pub open spec fn spec_sampler_color(self) -> ColorU {
        match self {
            TransformBatchKind::TextRun(_) => rgb(0, 0, 255),
            TransformBatchKind::Image(_) => rgb(0, 128, 0),
            TransformBatchKind::YuvImage(_, _, _) => rgb(0, 100, 0),
            TransformBatchKind::BorderCorner => rgb(47, 79, 79),
            TransformBatchKind::BorderEdge => rgb(230, 230, 250),
            TransformBatchKind::AlignedGradient => rgb(255, 255, 0),
            TransformBatchKind::AngleGradient => rgb(176, 224, 230),
            TransformBatchKind::RadialGradient => rgb(255, 182, 193),
        }
    }

    /// The label and the colour under which a profile shows draws of the
    /// kind.
    pub fn gpu_sampler_tag(&self) -> (t: GpuProfileTag)
        ensures
            t.label@ == self.spec_sampler_label(),
            t.color == self.spec_sampler_color(),
    {
        match *self {
            TransformBatchKind::TextRun(_) => tag("TextRun", 0, 0, 255),
            TransformBatchKind::Image(_) => tag("Image", 0, 128, 0),
            TransformBatchKind::YuvImage(_, _, _) => tag("YuvImage", 0, 100, 0),
            TransformBatchKind::BorderCorner => tag("BorderCorner", 47, 79, 79),
            TransformBatchKind::BorderEdge => tag("BorderEdge", 230, 230, 250),
            TransformBatchKind::AlignedGradient => tag("Gradient", 255, 255, 0),
            TransformBatchKind::AngleGradient => tag("AngleGradient", 176, 224, 230),
            TransformBatchKind::RadialGradient => tag("RadialGradient", 255, 182, 193),
        }
    }
}

impl BatchKind {
    /// The name that a debugger shows for batches of the kind.
    pub open spec fn spec_debug_name(self) -> Seq<char> {
        match self {
            BatchKind::Composite { .. } => "Composite"@,
            BatchKind::HardwareComposite => "HardwareComposite"@,
            BatchKind::SplitComposite => "SplitComposite"@,
            BatchKind::Blend => "Blend"@,
            BatchKind::Brush(BrushBatchKind::Picture(_)) => "Brush (Picture)"@,
            BatchKind::Brush(BrushBatchKind::Solid) => "Brush (Solid)"@,
            BatchKind::Brush(BrushBatchKind::Line) => "Brush (Line)"@,
            BatchKind::Transformable(_, batch_kind) => batch_kind.spec_debug_name(),
        }
    }

    /// The name that a debugger shows for batches of the kind.
    pub fn debug_name(&self) -> (name: &'static str)
        ensures
            name@ == self.spec_debug_name(),
    {
        match *self {
            BatchKind::Composite { .. } => "Composite",
            BatchKind::HardwareComposite => "HardwareComposite",
            BatchKind::SplitComposite => "SplitComposite",
            BatchKind::Blend => "Blend",
            BatchKind::Brush(kind) => match kind {
                BrushBatchKind::Picture(_) => "Brush (Picture)",
                BrushBatchKind::Solid => "Brush (Solid)",
                BrushBatchKind::Line => "Brush (Line)",
            },
            BatchKind::Transformable(_, batch_kind) => batch_kind.debug_name(),
        }
    }

    /// The label under which a profile shows draws of the kind.
    pub open spec fn spec_sampler_label(self) -> Seq<char> {
        match self {
            BatchKind::Composite { .. } => "Composite"@,
            BatchKind::HardwareComposite => "HwComposite"@,
            BatchKind::SplitComposite => "SplitComposite"@,
            BatchKind::Blend => "Blend"@,
            BatchKind::Brush(BrushBatchKind::Picture(_)) => "B_Picture"@,
            BatchKind::Brush(BrushBatchKind::Solid) => "B_Solid"@,
            BatchKind::Brush(BrushBatchKind::Line) => "Line"@,
            BatchKind::Transformable(_, batch_kind) => batch_kind.spec_sampler_label(),
        }
    }

    /// The colour in which a profile shows draws of the kind: magenta,
    /// dodger blue and dark blue for the composites, light blue for
    /// blends, silver, red and dark red for the brushes.
    pub open spec fn spec_sampler_color(self) -> ColorU {
        match self {
            BatchKind::Composite { .. } => rgb(255, 0, 255),
            BatchKind::HardwareComposite => rgb(30, 144, 255),
            BatchKind::SplitComposite => rgb(0, 0, 139),
            BatchKind::Blend => rgb(173, 216, 230),
            BatchKind::Brush(BrushBatchKind::Picture(_)) => rgb(192, 192, 192),
            BatchKind::Brush(BrushBatchKind::Solid) => rgb(255, 0, 0),
            BatchKind::Brush(BrushBatchKind::Line) => rgb(139, 0, 0),
            BatchKind::Transformable(_, batch_kind) => batch_kind.spec_sampler_color(),
        }
    }

    /// The label and the colour under which a profile shows draws of the
    /// kind.
    pub fn gpu_sampler_tag(&self) -> (t: GpuProfileTag)
        ensures
            t.label@ == self.spec_sampler_label(),
            t.color == self.spec_sampler_color(),
    {
        match *self {
            BatchKind::Composite { .. } => tag("Composite", 255, 0, 255),
            BatchKind::HardwareComposite => tag("HwComposite", 30, 144, 255),
            BatchKind::SplitComposite => tag("SplitComposite", 0, 0, 139),
            BatchKind::Blend => tag("Blend", 173, 216, 230),
            BatchKind::Brush(kind) => match kind {
                BrushBatchKind::Picture(_) => tag("B_Picture", 192, 192, 192),
                BrushBatchKind::Solid => tag("B_Solid", 255, 0, 0),
                BrushBatchKind::Line => tag("Line", 139, 0, 0),
            },
            BatchKind::Transformable(_, batch_kind) => batch_kind.gpu_sampler_tag(),
        }
    }
}

} // verus!
