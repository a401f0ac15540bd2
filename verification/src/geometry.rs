//! Points, sizes and rectangles in pixel coordinates.
//!
//! The value types here are plain data. Their arithmetic is done by the
//! `figures` crate; the functions that call it state what it returns.

use figures::Rectlike;
use vstd::prelude::*;

verus! {

/// A location on a two-dimensional surface.
#[derive(Debug, Clone, Copy, PartialEq, Eq)]
pub struct Point<T> {
    pub x: T,
    pub y: T,
}

/// A width and a height.
#[derive(Debug, Clone, Copy, PartialEq, Eq)]
pub struct Size<T> {
    pub width: T,
    pub height: T,
}

/// A rectangle given by its origin and its size.
#[derive(Debug, Clone, Copy, PartialEq, Eq)]
pub struct SizedRect<T> {
    pub origin: Point<T>,
    pub size: Size<T>,
}

/// A rectangle given by two of its corners.
#[derive(Debug, Clone, Copy, PartialEq, Eq)]
pub struct ExtentsRect<T> {
    pub origin: Point<T>,
    pub extent: Point<T>,
}

/// The value of `x as u32` for a 32-bit signed `x`: negative values wrap
/// around.
pub open spec fn wrap_u32(x: int) -> int {
    if x < 0 {
        x + 0x1_0000_0000
    } else {
        x
    }
}

/// `figures::Size::area` at `u32`: the width multiplied by the height. The
/// multiplication is the primitive one, so a product that does not fit is
/// left out.
#[verifier::external_body]
fn figures_size_area_u32(width: u32, height: u32) -> (area: u32)
    requires
        width * height <= u32::MAX,
    ensures
        area == width * height,
{
    figures::Size::<u32, figures::Pixels>::new(width, height).area().get()
}

/// `figures::Size::area` at `usize`: the width multiplied by the height.
#[verifier::external_body]
fn figures_size_area_usize(width: usize, height: usize) -> (area: usize)
    requires
        width * height <= usize::MAX,
    ensures
        area == width * height,
{
    figures::Size::<usize, figures::Pixels>::new(width, height).area().get()
}

/// `figures::Size::cast` from `u32` to `usize`: both components keep their
/// value, since every `u32` fits.
#[verifier::external_body]
fn figures_size_cast_usize(width: u32, height: u32) -> (size: Size<usize>)
    ensures
        size.width == width,
        size.height == height,
{
    let s = figures::Size::<u32, figures::Pixels>::new(width, height).cast::<usize>();
    Size { width: s.width, height: s.height }
}

/// `figures::Size::abs` at `i32`: the absolute value of each component.
/// Negating `i32::MIN` overflows, so it is left out.
#[verifier::external_body]
fn figures_size_abs(width: i32, height: i32) -> (size: Size<i32>)
    requires
        width > i32::MIN,
        height > i32::MIN,
    ensures
        size.width == (if width < 0 { -width } else { width as int }),
        size.height == (if height < 0 { -height } else { height as int }),
{
    let s = figures::Size::<i32, figures::Pixels>::new(width, height).abs();
    Size { width: s.width, height: s.height }
}

/// `figures::Size::cast` from `i32` to `u32`: both components keep their
/// value. It panics on a negative component, which is left out.
#[verifier::external_body]
fn figures_size_cast_u32(width: i32, height: i32) -> (size: Size<u32>)
    requires
        width >= 0,
        height >= 0,
    ensures
        size.width == width,
        size.height == height,
{
    let s = figures::Size::<i32, figures::Pixels>::new(width, height).cast::<u32>();
    Size { width: s.width, height: s.height }
}

/// `figures::Rectlike::as_extents` on a `SizedRect<i32>`: the origin stays,
/// and the extent is the origin plus the size, component by component.
#[verifier::external_body]
fn figures_as_extents(rect: SizedRect<i32>) -> (out: ExtentsRect<i32>)
    requires
        i32::MIN <= rect.origin.x + rect.size.width <= i32::MAX,
        i32::MIN <= rect.origin.y + rect.size.height <= i32::MAX,
    ensures
        out.origin == rect.origin,
        out.extent.x == rect.origin.x + rect.size.width,
        out.extent.y == rect.origin.y + rect.size.height,
{
    let e = figures::SizedRect::<i32, figures::Pixels>::new(
        figures::Point::new(rect.origin.x, rect.origin.y),
        figures::Size::new(rect.size.width, rect.size.height),
    ).as_extents();
    ExtentsRect {
        origin: Point { x: e.origin.x, y: e.origin.y },
        extent: Point { x: e.extent.x, y: e.extent.y },
    }
}

/// `figures::Rectlike::as_sized` on an `ExtentsRect<i32>`: the origin stays,
/// and the size is the extent minus the origin, component by component.
#[verifier::external_body]
fn figures_as_sized(rect: ExtentsRect<i32>) -> (out: SizedRect<i32>)
    requires
        i32::MIN <= rect.extent.x - rect.origin.x <= i32::MAX,
        i32::MIN <= rect.extent.y - rect.origin.y <= i32::MAX,
    ensures
        out.origin == rect.origin,
        out.size.width == rect.extent.x - rect.origin.x,
        out.size.height == rect.extent.y - rect.origin.y,
{
    let s = figures::ExtentsRect::<i32, figures::Pixels>::new(
        figures::Point::new(rect.origin.x, rect.origin.y),
        figures::Point::new(rect.extent.x, rect.extent.y),
    ).as_sized();
    SizedRect {
        origin: Point { x: s.origin.x, y: s.origin.y },
        size: Size { width: s.size.width, height: s.size.height },
    }
}

/// `figures::Rectlike::area` on a `SizedRect<u32>`: the width of its size
/// multiplied by the height of its size.
#[verifier::external_body]
fn figures_rect_area(rect: SizedRect<u32>) -> (area: u32)
    requires
        rect.size.width * rect.size.height <= u32::MAX,
    ensures
        area == rect.size.width * rect.size.height,
{
    figures::SizedRect::<u32, figures::Pixels>::new(
        figures::Point::new(rect.origin.x, rect.origin.y),
        figures::Size::new(rect.size.width, rect.size.height),
    ).area().get()
}

impl Size<u32> {
    /// The number of pixels a surface of this size holds.
    pub open spec fn spec_area(self) -> int {
        self.width * self.height
    }

    /// The number of pixels a surface of this size holds.
    pub fn area(self) -> (area: u32)
        requires
            self.spec_area() <= u32::MAX,
        ensures
            area == self.spec_area(),
    {
        figures_size_area_u32(self.width, self.height)
    }

    /// The number of pixels a surface of this size holds, as a count of
    /// elements in memory.
    pub fn texels(self) -> (count: usize)
        requires
            self.spec_area() <= usize::MAX,
        ensures
            count == self.spec_area(),
    {
        let wide = figures_size_cast_usize(self.width, self.height);
        figures_size_area_usize(wide.width, wide.height)
    }

    /// Whether the area fits in a `u32`.
    pub fn area_fits(self) -> (fits: bool)
        ensures
            fits == (self.spec_area() <= u32::MAX),
    {
        proof {
            lemma_product_bound(self.width, self.height);
        }
        let wide: u64 = (self.width as u64) * (self.height as u64);
        wide <= 0xffff_ffff
    }
}

/// The product of two 32-bit numbers fits in 64 bits.
pub proof fn lemma_product_bound(a: u32, b: u32)
    ensures
        0 <= a * b <= 0xffff_fffe_0000_0001,
{
    assert(0 <= a * b <= 0xffff_ffff * 0xffff_ffff) by (nonlinear_arith)
        requires
            0 <= a <= 0xffff_ffff,
            0 <= b <= 0xffff_ffff,
    ;
}

impl Size<i32> {
    /// The size with both components made non-negative, as unsigned
    /// numbers.
    pub fn magnitude(self) -> (out: Size<u32>)
        requires
            self.width > i32::MIN,
            self.height > i32::MIN,
        ensures
            out.width == (if self.width < 0 { -self.width } else { self.width as int }),
            out.height == (if self.height < 0 { -self.height } else { self.height as int }),
    {
        let positive = figures_size_abs(self.width, self.height);
        figures_size_cast_u32(positive.width, positive.height)
    }
}

impl SizedRect<i32> {
    /// The same rectangle, given by its origin and the opposite corner.
    pub fn as_extents(self) -> (out: ExtentsRect<i32>)
        requires
            i32::MIN <= self.origin.x + self.size.width <= i32::MAX,
            i32::MIN <= self.origin.y + self.size.height <= i32::MAX,
        ensures
            out.origin == self.origin,
            out.extent.x == self.origin.x + self.size.width,
            out.extent.y == self.origin.y + self.size.height,
    {
        figures_as_extents(self)
    }
}

impl ExtentsRect<i32> {
    /// The same rectangle, given by its origin and its size.
    pub fn as_sized(self) -> (out: SizedRect<i32>)
        requires
            i32::MIN <= self.extent.x - self.origin.x <= i32::MAX,
            i32::MIN <= self.extent.y - self.origin.y <= i32::MAX,
        ensures
            out.origin == self.origin,
            out.size.width == self.extent.x - self.origin.x,
            out.size.height == self.extent.y - self.origin.y,
    {
        figures_as_sized(self)
    }
}

impl SizedRect<u32> {
    /// The number of pixels the rectangle covers.
    pub open spec fn spec_area(self) -> int {
        self.size.width * self.size.height
    }

    /// The number of pixels the rectangle covers.
    pub fn area(self) -> (area: u32)
        requires
            self.spec_area() <= u32::MAX,
        ensures
            area == self.spec_area(),
    {
        figures_rect_area(self)
    }
}

} // verus!
