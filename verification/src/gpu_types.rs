//! Instance records as the frame builder writes them.

use vstd::prelude::*;

verus! {

/// The address of a block in the GPU cache: column `u` of row `v`.
#[derive(Clone, Copy, Debug, PartialEq, Eq, Structural)]
pub struct GpuCacheAddress {
    pub u: u16,
    pub v: u16,
}

impl GpuCacheAddress {
    pub fn new(u: u16, v: u16) -> (a: GpuCacheAddress)
        ensures
            a.u == u,
            a.v == v,
    {
        GpuCacheAddress { u, v }
    }
}

/// The slot of a render task in the render task data.
#[derive(Clone, Copy, Debug, PartialEq, Eq, Structural)]
pub struct RenderTaskAddress(pub u32);

/// The slot of a clip-scroll node in the node data.
#[derive(Clone, Copy, Debug, PartialEq, Eq, Structural)]
pub struct ClipScrollNodeIndex(pub u32);

/// The axis of one pass of a separable blur.
#[derive(Clone, Copy, Debug, PartialEq, Eq, Structural)]
pub enum BlurDirection {
    Horizontal,
    Vertical,
}

impl BlurDirection {
    /// The number that shaders read for the direction.
    pub open spec fn spec_code(self) -> i32 {
        match self {
            BlurDirection::Horizontal => 0,
            BlurDirection::Vertical => 1,
        }
    }

    /// The number that shaders read for the direction.
    pub fn code(&self) -> (c: i32)
        ensures
            c == self.spec_code(),
    {
        match self {
            BlurDirection::Horizontal => 0,
            BlurDirection::Vertical => 1,
        }
    }
}

/// One blur to run: which task receives it and which task it reads.
#[derive(Clone, Copy, Debug, PartialEq, Eq, Structural)]
pub struct BlurInstance {
    pub task_address: RenderTaskAddress,
    pub src_task_address: RenderTaskAddress,
    pub blur_direction: BlurDirection,
}

/// One clip source to draw into a clip mask.
#[derive(Clone, Copy, Debug, PartialEq, Eq, Structural)]
pub struct ClipMaskInstance {
    pub render_task_address: RenderTaskAddress,
    pub scroll_node_data_index: ClipScrollNodeIndex,
    pub segment: i32,
    pub clip_data_address: GpuCacheAddress,
    pub resource_address: GpuCacheAddress,
}

/// One primitive to draw: eight integers whose meaning the shader defines.
#[derive(Clone, Copy, Debug, PartialEq, Eq)]
pub struct PrimitiveInstance {
    pub data: [i32; 8],
}

} // verus!
