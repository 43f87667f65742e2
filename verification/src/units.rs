//! Integer geometry in device pixels.

use vstd::prelude::*;

verus! {

/// A point in unsigned device pixels.
#[derive(Clone, Copy, Debug, PartialEq, Eq, Structural)]
pub struct DeviceUintPoint {
    pub x: u32,
    pub y: u32,
}

/// A size in unsigned device pixels.
#[derive(Clone, Copy, Debug, PartialEq, Eq, Structural)]
pub struct DeviceUintSize {
    pub width: u32,
    pub height: u32,
}

/// A rectangle in unsigned device pixels.
#[derive(Clone, Copy, Debug, PartialEq, Eq, Structural)]
pub struct DeviceUintRect {
    pub origin: DeviceUintPoint,
    pub size: DeviceUintSize,
}

/// A point in signed device pixels.
#[derive(Clone, Copy, Debug, PartialEq, Eq, Structural)]
pub struct DeviceIntPoint {
    pub x: i32,
    pub y: i32,
}

/// A size in signed device pixels.
#[derive(Clone, Copy, Debug, PartialEq, Eq, Structural)]
pub struct DeviceIntSize {
    pub width: i32,
    pub height: i32,
}

/// A rectangle in signed device pixels.
#[derive(Clone, Copy, Debug, PartialEq, Eq, Structural)]
pub struct DeviceIntRect {
    pub origin: DeviceIntPoint,
    pub size: DeviceIntSize,
}

impl DeviceUintPoint {
    pub fn new(x: u32, y: u32) -> (p: DeviceUintPoint)
        ensures
            p.x == x,
            p.y == y,
    {
        DeviceUintPoint { x, y }
    }

    pub fn zero() -> (p: DeviceUintPoint)
        ensures
            p.x == 0,
            p.y == 0,
    {
        DeviceUintPoint { x: 0, y: 0 }
    }
}

impl DeviceUintSize {
    pub fn new(width: u32, height: u32) -> (s: DeviceUintSize)
        ensures
            s.width == width,
            s.height == height,
    {
        DeviceUintSize { width, height }
    }

    pub fn zero() -> (s: DeviceUintSize)
        ensures
            s.width == 0,
            s.height == 0,
    {
        DeviceUintSize { width: 0, height: 0 }
    }

    /// Both dimensions fit a signed 32-bit integer.
    pub open spec fn fits_i32(self) -> bool {
        self.width <= i32::MAX && self.height <= i32::MAX
    }

    /// The same size with signed components.
    pub fn to_i32(&self) -> (s: DeviceIntSize)
        requires
            self.fits_i32(),
        ensures
            s.width == self.width,
            s.height == self.height,
    {
        DeviceIntSize { width: self.width as i32, height: self.height as i32 }
    }
}

impl DeviceUintRect {
    pub fn new(origin: DeviceUintPoint, size: DeviceUintSize) -> (r: DeviceUintRect)
        ensures
            r.origin == origin,
            r.size == size,
    {
        DeviceUintRect { origin, size }
    }

    /// The first column right of the rectangle.
    pub open spec fn max_x(self) -> int {
        self.origin.x + self.size.width
    }

    /// The first row below the rectangle.
    pub open spec fn max_y(self) -> int {
        self.origin.y + self.size.height
    }

    /// The far corner is representable, so that edge arithmetic cannot wrap.
    pub open spec fn fits(self) -> bool {
        self.max_x() <= u32::MAX && self.max_y() <= u32::MAX
    }

    /// Every component fits a signed 32-bit integer.
    pub open spec fn fits_i32(self) -> bool {
        self.origin.x <= i32::MAX && self.origin.y <= i32::MAX && self.size.fits_i32()
    }

    /// Each rectangle begins, on both axes, before the other ends. For
    /// rectangles that are not empty this means that they share a pixel.
    pub open spec fn intersects_spec(self, other: DeviceUintRect) -> bool {
        &&& self.origin.x < other.max_x()
        &&& other.origin.x < self.max_x()
        &&& self.origin.y < other.max_y()
        &&& other.origin.y < self.max_y()
    }

    /// Whether each rectangle begins, on both axes, before the other ends.
    pub fn intersects(&self, other: &DeviceUintRect) -> (r: bool)
        requires
            self.fits(),
            other.fits(),
        ensures
            r == self.intersects_spec(*other),
    {
        rect_intersects(self, other)
    }

    /// The same rectangle with signed components.
    pub fn to_i32(&self) -> (r: DeviceIntRect)
        requires
            self.fits_i32(),
        ensures
            r.origin.x == self.origin.x,
            r.origin.y == self.origin.y,
            r.size.width == self.size.width,
            r.size.height == self.size.height,
    {
        DeviceIntRect {
            origin: DeviceIntPoint { x: self.origin.x as i32, y: self.origin.y as i32 },
            size: DeviceIntSize { width: self.size.width as i32, height: self.size.height as i32 },
        }
    }
}

impl DeviceIntPoint {
    pub fn new(x: i32, y: i32) -> (p: DeviceIntPoint)
        ensures
            p.x == x,
            p.y == y,
    {
        DeviceIntPoint { x, y }
    }

    pub fn zero() -> (p: DeviceIntPoint)
        ensures
            p.x == 0,
            p.y == 0,
    {
        DeviceIntPoint { x: 0, y: 0 }
    }
}

impl DeviceIntSize {
    pub fn new(width: i32, height: i32) -> (s: DeviceIntSize)
        ensures
            s.width == width,
            s.height == height,
    {
        DeviceIntSize { width, height }
    }
}

impl DeviceIntRect {
    pub fn new(origin: DeviceIntPoint, size: DeviceIntSize) -> (r: DeviceIntRect)
        ensures
            r.origin == origin,
            r.size == size,
    {
        DeviceIntRect { origin, size }
    }
}

/// Shorthand for a signed rectangle from its four components.
pub fn rect(x: i32, y: i32, w: i32, h: i32) -> (r: DeviceIntRect)
    ensures
        r.origin.x == x,
        r.origin.y == y,
        r.size.width == w,
        r.size.height == h,
{
    DeviceIntRect { origin: DeviceIntPoint { x, y }, size: DeviceIntSize { width: w, height: h } }
}

/// `euclid::TypedRect::intersects` on two `u32` rectangles. The contract
/// restates that method's four strict comparisons of each origin against the
/// other rectangle's far edge; the far edges are sums in `u32`, hence the
/// demand that they are representable.
#[verifier::external_body]
fn rect_intersects(a: &DeviceUintRect, b: &DeviceUintRect) -> (r: bool)
    requires
        a.fits(),
        b.fits(),
    ensures
        r == a.intersects_spec(*b),
{
    let ra: euclid::Rect<u32> = euclid::rect(a.origin.x, a.origin.y, a.size.width, a.size.height);
    let rb: euclid::Rect<u32> = euclid::rect(b.origin.x, b.origin.y, b.size.width, b.size.height);
    ra.intersects(&rb)
}


impl DeviceIntRect {
    /// The first column right of the rectangle.
    pub open spec fn max_x(self) -> int {
        self.origin.x + self.size.width
    }

    /// The first row below the rectangle.
    pub open spec fn max_y(self) -> int {
        self.origin.y + self.size.height
    }

    /// Each rectangle begins, on both axes, before the other ends. For
    /// rectangles that are not empty this means that they share a pixel.
    pub open spec fn intersects_spec(self, other: DeviceIntRect) -> bool {
        &&& self.origin.x < other.max_x()
        &&& other.origin.x < self.max_x()
        &&& self.origin.y < other.max_y()
        &&& other.origin.y < self.max_y()
    }

    /// Whether each rectangle begins, on both axes, before the other ends.
    pub fn intersects(&self, other: &DeviceIntRect) -> (r: bool)
        ensures
            r == self.intersects_spec(*other),
    {
        let self_max_x: i64 = self.origin.x as i64 + self.size.width as i64;
        let self_max_y: i64 = self.origin.y as i64 + self.size.height as i64;
        let other_max_x: i64 = other.origin.x as i64 + other.size.width as i64;
        let other_max_y: i64 = other.origin.y as i64 + other.size.height as i64;
        (self.origin.x as i64) < other_max_x && (other.origin.x as i64) < self_max_x && (
        self.origin.y as i64) < other_max_y && (other.origin.y as i64) < self_max_y
    }
}

/// Intersection is symmetric.
pub proof fn lemma_intersects_symmetric(a: DeviceIntRect, b: DeviceIntRect)
    ensures
        a.intersects_spec(b) == b.intersects_spec(a),
{
}


impl DeviceUintRect {
    /// Whether the far corner is representable.
    pub fn check_fits(&self) -> (b: bool)
        ensures
            b == self.fits(),
    {
        self.size.width <= u32::MAX - self.origin.x && self.size.height <= u32::MAX - self.origin.y
    }

    /// Whether each rectangle begins, on both axes, before the other ends,
    /// for any two rectangles: those whose far corner is not representable
    /// are compared in wider numbers.
    pub fn overlaps(&self, other: &DeviceUintRect) -> (r: bool)
        ensures
            r == self.intersects_spec(*other),
    {
        if self.check_fits() && other.check_fits() {
            self.intersects(other)
        } else {
            let self_max_x: u64 = self.origin.x as u64 + self.size.width as u64;
            let self_max_y: u64 = self.origin.y as u64 + self.size.height as u64;
            let other_max_x: u64 = other.origin.x as u64 + other.size.width as u64;
            let other_max_y: u64 = other.origin.y as u64 + other.size.height as u64;
            (self.origin.x as u64) < other_max_x && (other.origin.x as u64) < self_max_x && (
            self.origin.y as u64) < other_max_y && (other.origin.y as u64) < self_max_y
        }
    }
}

} // verus!
