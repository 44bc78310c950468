//! Integer geometry and colours shared by shapes and paint commands.
use vstd::prelude::*;

verus! {

/// A position on the canvas, in logical pixels.
#[derive(PartialEq, Eq, Structural, Clone, Copy, Debug)]
pub struct Point {
    pub x: i32,
    pub y: i32,
}

/// A displacement, in logical pixels.
#[derive(PartialEq, Eq, Structural, Clone, Copy, Debug)]
pub struct Offset {
    pub dx: i32,
    pub dy: i32,
}

/// A displacement wide enough to hold the sum of two `Offset`s.
#[derive(PartialEq, Eq, Structural, Clone, Copy, Debug)]
pub struct WideOffset {
    pub dx: i64,
    pub dy: i64,
}

/// A width and a height, in logical pixels.
#[derive(PartialEq, Eq, Structural, Clone, Copy, Debug)]
pub struct Size {
    pub width: u32,
    pub height: u32,
}

/// A position handed to the painter: a sum of a few `Point`s and `Offset`s,
/// which needs more room than one coordinate.
#[derive(PartialEq, Eq, Structural, Clone, Copy, Debug)]
pub struct PaintPoint {
    pub x: i64,
    pub y: i64,
}

/// An RGBA colour with premultiplied alpha, one byte per channel.
#[derive(PartialEq, Eq, Structural, Clone, Copy, Debug)]
pub struct Color {
    pub r: u8,
    pub g: u8,
    pub b: u8,
    pub a: u8,
}

impl Point {
    pub fn new(x: i32, y: i32) -> (p: Point)
        ensures
            p.x == x,
            p.y == y,
    {
        Point { x, y }
    }

    /// This position as a displacement from the origin.
    pub open spec fn to_offset_spec(self) -> Offset {
        Offset { dx: self.x, dy: self.y }
    }

    /// This position as a displacement from the origin.
    pub fn to_offset(self) -> (o: Offset)
        ensures
            o == self.to_offset_spec(),
    {
        Offset { dx: self.x, dy: self.y }
    }
}

impl Offset {
    pub fn new(dx: i32, dy: i32) -> (o: Offset)
        ensures
            o.dx == dx,
            o.dy == dy,
    {
        Offset { dx, dy }
    }

    /// This displacement followed by `other`.
    pub open spec fn spec_plus(self, other: Offset) -> WideOffset {
        WideOffset { dx: (self.dx + other.dx) as i64, dy: (self.dy + other.dy) as i64 }
    }

    /// This displacement followed by `other`; the sum of two 32-bit
    /// coordinates always fits in 64 bits.
    pub fn plus(self, other: Offset) -> (r: WideOffset)
        ensures
            r == self.spec_plus(other),
    {
        WideOffset { dx: self.dx as i64 + other.dx as i64, dy: self.dy as i64 + other.dy as i64 }
    }

    /// The displacement that moves nothing.
    pub fn zero() -> (o: Offset)
        ensures
            o.dx == 0,
            o.dy == 0,
    {
        Offset { dx: 0, dy: 0 }
    }
}

impl Size {
    pub fn new(width: u32, height: u32) -> (s: Size)
        ensures
            s.width == width,
            s.height == height,
    {
        Size { width, height }
    }
}

/// `o` is small enough that moving any `Point` by it stays within 64 bits.
pub open spec fn fits_shift(o: WideOffset) -> bool {
    &&& i64::MIN - i32::MIN <= o.dx <= i64::MAX - i32::MAX
    &&& i64::MIN - i32::MIN <= o.dy <= i64::MAX - i32::MAX
}

/// Where `p` lands once moved by `o`.
pub open spec fn spec_shift(p: Point, o: WideOffset) -> PaintPoint {
    PaintPoint { x: (p.x + o.dx) as i64, y: (p.y + o.dy) as i64 }
}

/// Moves `p` by `o`.
pub fn shift(p: Point, o: WideOffset) -> (r: PaintPoint)
    requires
        fits_shift(o),
    ensures
        r == spec_shift(p, o),
        r.x == p.x + o.dx,
        r.y == p.y + o.dy,
{
    PaintPoint { x: p.x as i64 + o.dx, y: p.y as i64 + o.dy }
}

/// Where `p` lands once translated by `first` and then by `second`.
pub open spec fn spec_translate(p: Point, first: Offset, second: Offset) -> PaintPoint {
    PaintPoint {
        x: (p.x + first.dx + second.dx) as i64,
        y: (p.y + first.dy + second.dy) as i64,
    }
}

/// Translates `p` by `first` and then by `second`; the sum of three 32-bit
/// coordinates always fits in 64 bits.
pub fn translate(p: Point, first: Offset, second: Offset) -> (r: PaintPoint)
    ensures
        r == spec_translate(p, first, second),
        r.x == p.x + first.dx + second.dx,
        r.y == p.y + first.dy + second.dy,
{
    PaintPoint {
        x: p.x as i64 + first.dx as i64 + second.dx as i64,
        y: p.y as i64 + first.dy as i64 + second.dy as i64,
    }
}

impl Color {
    /// An opaque colour.
    pub open spec fn from_rgb_spec(r: u8, g: u8, b: u8) -> Color {
        Color { r, g, b, a: 255 }
    }

    /// An opaque colour.
    pub fn from_rgb(r: u8, g: u8, b: u8) -> (c: Color)
        ensures
            c == Color::from_rgb_spec(r, g, b),
    {
        Color { r, g, b, a: 255 }
    }

    /// A colour whose channels are already multiplied by its alpha.
    pub fn from_rgba_premultiplied(r: u8, g: u8, b: u8, a: u8) -> (c: Color)
        ensures
            c == (Color { r, g, b, a }),
    {
        Color { r, g, b, a }
    }

    pub fn black() -> (c: Color)
        ensures
            c == (Color { r: 0, g: 0, b: 0, a: 255 }),
    {
        Color::from_rgb(0, 0, 0)
    }

    /// Nothing at all: zero alpha.
    pub fn transparent() -> (c: Color)
        ensures
            c == (Color { r: 0, g: 0, b: 0, a: 0 }),
    {
        Color::from_rgba_premultiplied(0, 0, 0, 0)
    }
}

} // verus!
