//! Small classifications used across the renderer.

use vstd::prelude::*;

verus! {

/// Whether a primitive's rectangle stays axis-aligned after its transform.
#[derive(Clone, Copy, Debug, PartialEq, Eq, Structural)]
pub enum TransformedRectKind {
    AxisAligned,
    Complex,
}

} // verus!
