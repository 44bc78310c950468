//! Shapes: a common base of position and style, and three kinds of geometry.
use vstd::prelude::*;

use crate::geometry::{
    fits_shift, shift, spec_shift, spec_translate, translate, Color, Offset, PaintPoint, Point, Size,
    WideOffset,
};
use crate::paint::{PaintOp, PaintView, Stroke};

verus! {

/// How a polyline's stroke is drawn.
#[derive(PartialEq, Eq, Structural, Clone, Copy, Debug)]
pub enum LineStyle {
    Solid,
    Dashed,
    Dotted,
}

/// Position and style common to every shape.
///
/// `points` is used by polylines only, relative to `location`. The line
/// width is unsigned, so it and every length derived from it are never
/// negative.
#[derive(Debug)]
pub struct ShapeBase {
    pub location: Point,
    pub points: Vec<Point>,
    pub color: Color,
    pub fill_color: Color,
    pub line_width: u32,
    pub line_style: LineStyle,
}

/// Length of one dash of a dashed line drawn `line_width` wide.
pub open spec fn spec_dash_length(line_width: u32) -> u64 {
    (4 * line_width) as u64
}

/// Gap between two dashes, and distance between two dots, of a line drawn
/// `line_width` wide.
pub open spec fn spec_dash_gap(line_width: u32) -> u64 {
    (1 + 2 * line_width) as u64
}

impl Default for ShapeBase {
    /// The values every shape starts with: at the origin, no points, a black
    /// dotted outline two pixels wide, and a transparent fill.
    fn default() -> (b: ShapeBase)
        ensures
            b.location == (Point { x: 0, y: 0 }),
            b.points@.len() == 0,
            b.color == (Color { r: 0, g: 0, b: 0, a: 255 }),
            b.fill_color == (Color { r: 0, g: 0, b: 0, a: 0 }),
            b.line_width == 2,
            b.line_style == LineStyle::Dotted,
    {
        ShapeBase {
            location: Point::new(0, 0),
            points: Vec::new(),
            color: Color::black(),
            fill_color: Color::transparent(),
            line_width: 2,
            line_style: LineStyle::Dotted,
        }
    }
}

impl ShapeBase {
    /// The polyline points, each moved by `offset`.
    pub open spec fn spec_points_translated(&self, offset: WideOffset) -> Seq<PaintPoint> {
        self.points@.map_values(|p: Point| spec_shift(p, offset))
    }

    /// The outline pen of this base.
    pub open spec fn spec_stroke(&self) -> Stroke {
        Stroke { width: self.line_width, color: self.color }
    }

    pub fn move_to(&mut self, location: Point)
        ensures
            *final(self) == (ShapeBase { location, ..*old(self) }),
    {
        self.location = location;
    }

    pub fn location(&self) -> (p: Point)
        ensures
            p == self.location,
    {
        self.location
    }

    pub fn color(&self) -> (c: Color)
        ensures
            c == self.color,
    {
        self.color
    }

    pub fn set_color(&mut self, col: Color)
        ensures
            *final(self) == (ShapeBase { color: col, ..*old(self) }),
    {
        self.color = col;
    }

    pub fn fill_color(&self) -> (c: Color)
        ensures
            c == self.fill_color,
    {
        self.fill_color
    }

    pub fn set_fill_color(&mut self, col: Color)
        ensures
            *final(self) == (ShapeBase { fill_color: col, ..*old(self) }),
    {
        self.fill_color = col;
    }

    pub fn line_width(&self) -> (w: u32)
        ensures
            w == self.line_width,
    {
        self.line_width
    }

    pub fn set_line_width(&mut self, lw: u32)
        ensures
            *final(self) == (ShapeBase { line_width: lw, ..*old(self) }),
    {
        self.line_width = lw;
    }

    pub fn line_style(&self) -> (s: LineStyle)
        ensures
            s == self.line_style,
    {
        self.line_style
    }

    pub fn set_line_style(&mut self, style: LineStyle)
        ensures
            *final(self) == (ShapeBase { line_style: style, ..*old(self) }),
    {
        self.line_style = style;
    }

    /// The outline pen: the line width and the stroke colour.
    pub fn stroke(&self) -> (s: Stroke)
        ensures
            s == self.spec_stroke(),
    {
        Stroke { width: self.line_width, color: self.color }
    }

    /// The polyline points, each moved by `offset`. A polyline passes its
    /// location here, plus any further displacement, to place its points.
    pub fn points_translated(&self, offset: WideOffset) -> (r: Vec<PaintPoint>)
        requires
            fits_shift(offset),
        ensures
            r@ == self.spec_points_translated(offset),
    {
        let mut r: Vec<PaintPoint> = Vec::new();
        let mut i: usize = 0;
        while i < self.points.len()
            invariant
                i <= self.points@.len(),
                fits_shift(offset),
                r@ == self.spec_points_translated(offset).take(i as int),
            decreases self.points@.len() - i,
        {
            r.push(shift(self.points[i], offset));
            i = i + 1;
            assert(r@ =~= self.spec_points_translated(offset).take(i as int));
        }
        assert(r@ =~= self.spec_points_translated(offset));
        r
    }

    /// Length of one dash of a dashed line: four line widths.
    pub fn dash_length(&self) -> (d: u64)
        ensures
            d == spec_dash_length(self.line_width),
    {
        4 * self.line_width as u64
    }

    /// Gap between two dashes: one pixel more than two line widths.
    pub fn dash_gap(&self) -> (d: u64)
        ensures
            d == spec_dash_gap(self.line_width),
    {
        1 + 2 * self.line_width as u64
    }

    /// Diameter of one dot of a dotted line: the line width, so that each
    /// dot's radius is half the line width.
    pub fn dot_diameter(&self) -> (d: u32)
        ensures
            d == self.line_width,
    {
        self.line_width
    }

    /// Distance between two dots: one pixel more than two line widths.
    pub fn dot_spacing(&self) -> (d: u64)
        ensures
            d == spec_dash_gap(self.line_width),
    {
        1 + 2 * self.line_width as u64
    }
}

/// Anything that can be painted on a canvas.
///
/// A shape owns a `ShapeBase` and knows how to turn itself into one paint
/// command. Every setter changes the base only and leaves the geometry that
/// is particular to the kind of shape as it was.
pub trait Shape: Sized {
    /// The base of position and style.
    spec fn spec_base(&self) -> ShapeBase;

    /// This shape with its base replaced by `base`.
    spec fn spec_with_base(&self, base: ShapeBase) -> Self;

    /// The paint command that draws this shape translated by `offset`.
    spec fn spec_draw_at(&self, offset: Offset) -> PaintView;

    fn base(&self) -> (r: &ShapeBase)
        ensures
            *r == self.spec_base(),
    ;

    fn base_mut(&mut self) -> (r: &mut ShapeBase)
        ensures
            *r == old(self).spec_base(),
            *final(self) == old(self).spec_with_base(*final(r)),
    ;

    /// Translates this shape by `offset`, then paints it.
    fn draw_at(&self, offset: Offset) -> (r: PaintOp)
        ensures
            r@ == self.spec_draw_at(offset),
    ;

    /// Paints this shape where it stands.
    fn draw(&self) -> (r: PaintOp)
        ensures
            r@ == self.spec_draw_at(Offset { dx: 0, dy: 0 }),
    {
        self.draw_at(Offset::zero())
    }

    fn move_to(&mut self, location: Point)
        ensures
            *final(self) == old(self).spec_with_base(
                ShapeBase { location, ..old(self).spec_base() },
            ),
    {
        self.base_mut().move_to(location)
    }

    fn location(&self) -> (p: Point)
        ensures
            p == self.spec_base().location,
    {
        self.base().location()
    }

    fn color(&self) -> (c: Color)
        ensures
            c == self.spec_base().color,
    {
        self.base().color()
    }

    fn set_color(&mut self, col: Color)
        ensures
            *final(self) == old(self).spec_with_base(
                ShapeBase { color: col, ..old(self).spec_base() },
            ),
    {
        self.base_mut().set_color(col)
    }

    fn fill_color(&self) -> (c: Color)
        ensures
            c == self.spec_base().fill_color,
    {
        self.base().fill_color()
    }

    fn set_fill_color(&mut self, col: Color)
        ensures
            *final(self) == old(self).spec_with_base(
                ShapeBase { fill_color: col, ..old(self).spec_base() },
            ),
    {
        self.base_mut().set_fill_color(col)
    }

    fn line_width(&self) -> (w: u32)
        ensures
            w == self.spec_base().line_width,
    {
        self.base().line_width()
    }

    fn set_line_width(&mut self, lw: u32)
        ensures
            *final(self) == old(self).spec_with_base(
                ShapeBase { line_width: lw, ..old(self).spec_base() },
            ),
    {
        self.base_mut().set_line_width(lw)
    }

    fn set_line_style(&mut self, style: LineStyle)
        ensures
            *final(self) == old(self).spec_with_base(
                ShapeBase { line_style: style, ..old(self).spec_base() },
            ),
    {
        self.base_mut().set_line_style(style)
    }
}

/// A disc centred on its base's location.
#[derive(Debug)]
pub struct Circle {
    pub base: ShapeBase,
    pub radius: u32,
}

impl Circle {
    pub fn new(center: Point, radius: u32) -> (c: Circle)
        ensures
            c.base.location == center,
            c.radius == radius,
            c.base.points@.len() == 0,
            c.base.color == (Color { r: 0, g: 0, b: 0, a: 255 }),
            c.base.fill_color == (Color { r: 0, g: 0, b: 0, a: 0 }),
            c.base.line_width == 2,
            c.base.line_style == LineStyle::Dotted,
    {
        let mut base = ShapeBase::default();
        base.location = center;
        Circle { base, radius }
    }
}

impl Shape for Circle {
    open spec fn spec_base(&self) -> ShapeBase {
        self.base
    }

    open spec fn spec_with_base(&self, base: ShapeBase) -> Circle {
        Circle { base, ..*self }
    }

    open spec fn spec_draw_at(&self, offset: Offset) -> PaintView {
        PaintView::Circle {
            center: spec_translate(self.base.location, offset, Offset { dx: 0, dy: 0 }),
            radius: self.radius,
            fill: self.base.fill_color,
            stroke: self.base.spec_stroke(),
        }
    }

    fn base(&self) -> (r: &ShapeBase) {
        &self.base
    }

    fn base_mut(&mut self) -> (r: &mut ShapeBase) {
        &mut self.base
    }

    fn draw_at(&self, offset: Offset) -> (r: PaintOp) {
        PaintOp::Circle {
            center: translate(self.base.location, offset, Offset::zero()),
            radius: self.radius,
            fill: self.base.fill_color,
            stroke: self.base.stroke(),
        }
    }
}

/// A rectangle with square corners centred on its base's location.
#[derive(Debug)]
pub struct Rectangle {
    pub base: ShapeBase,
    pub size: Size,
}

impl Rectangle {
    pub fn new(center: Point, size: Size) -> (r: Rectangle)
        ensures
            r.base.location == center,
            r.size == size,
            r.base.points@.len() == 0,
            r.base.color == (Color { r: 0, g: 0, b: 0, a: 255 }),
            r.base.fill_color == (Color { r: 0, g: 0, b: 0, a: 0 }),
            r.base.line_width == 2,
            r.base.line_style == LineStyle::Dotted,
    {
        let mut base = ShapeBase::default();
        base.location = center;
        Rectangle { base, size }
    }
}

impl Shape for Rectangle {
    open spec fn spec_base(&self) -> ShapeBase {
        self.base
    }

    open spec fn spec_with_base(&self, base: ShapeBase) -> Rectangle {
        Rectangle { base, ..*self }
    }

    open spec fn spec_draw_at(&self, offset: Offset) -> PaintView {
        PaintView::Rect {
            center: spec_translate(self.base.location, offset, Offset { dx: 0, dy: 0 }),
            size: self.size,
            fill: self.base.fill_color,
            stroke: self.base.spec_stroke(),
        }
    }

    fn base(&self) -> (r: &ShapeBase) {
        &self.base
    }

    fn base_mut(&mut self) -> (r: &mut ShapeBase) {
        &mut self.base
    }

    fn draw_at(&self, offset: Offset) -> (r: PaintOp) {
        PaintOp::Rect {
            center: translate(self.base.location, offset, Offset::zero()),
            size: self.size,
            fill: self.base.fill_color,
            stroke: self.base.stroke(),
        }
    }
}

/// A line through the base's points, each relative to the base's location.
#[derive(Debug)]
pub struct Polyline {
    pub base: ShapeBase,
}

impl Polyline {
    pub fn new(location: Point, points: Vec<Point>) -> (p: Polyline)
        ensures
            p.base.location == location,
            p.base.points@ == points@,
            p.base.color == (Color { r: 0, g: 0, b: 0, a: 255 }),
            p.base.fill_color == (Color { r: 0, g: 0, b: 0, a: 0 }),
            p.base.line_width == 2,
            p.base.line_style == LineStyle::Dotted,
    {
        let mut base = ShapeBase::default();
        base.location = location;
        base.points = points;
        Polyline { base }
    }
}

/// The paint command of a polyline moved by `offset`: its points placed at
/// its location plus `offset`, drawn as one stroke when solid, otherwise as
/// dashes or dots whose lengths follow from the line width.
pub open spec fn spec_polyline_paint(base: ShapeBase, offset: Offset) -> PaintView {
    let points = base.spec_points_translated(base.location.to_offset_spec().spec_plus(offset));
    match base.line_style {
        LineStyle::Solid => PaintView::Path { points, stroke: base.spec_stroke() },
        LineStyle::Dashed => PaintView::DashedPath {
            points,
            stroke: base.spec_stroke(),
            dash_length: spec_dash_length(base.line_width),
            gap_length: spec_dash_gap(base.line_width),
        },
        LineStyle::Dotted => PaintView::DottedPath {
            points,
            color: base.color,
            spacing: spec_dash_gap(base.line_width),
            dot_diameter: base.line_width,
        },
    }
}

impl Shape for Polyline {
    open spec fn spec_base(&self) -> ShapeBase {
        self.base
    }

    open spec fn spec_with_base(&self, base: ShapeBase) -> Polyline {
        Polyline { base }
    }

    open spec fn spec_draw_at(&self, offset: Offset) -> PaintView {
        spec_polyline_paint(self.base, offset)
    }

    fn base(&self) -> (r: &ShapeBase) {
        &self.base
    }

    fn base_mut(&mut self) -> (r: &mut ShapeBase) {
        &mut self.base
    }

    fn draw_at(&self, offset: Offset) -> (r: PaintOp) {
        let points = self.base.points_translated(self.base.location.to_offset().plus(offset));
        match self.base.line_style {
            LineStyle::Solid => PaintOp::Path { points, stroke: self.base.stroke() },
            LineStyle::Dashed => PaintOp::DashedPath {
                points,
                stroke: self.base.stroke(),
                dash_length: self.base.dash_length(),
                gap_length: self.base.dash_gap(),
            },
            LineStyle::Dotted => PaintOp::DottedPath {
                points,
                color: self.base.color,
                spacing: self.base.dot_spacing(),
                dot_diameter: self.base.dot_diameter(),
            },
        }
    }
}

/// A shape of any of the three kinds, as a canvas stores it.
#[derive(Debug)]
pub enum AnyShape {
    Circle(Circle),
    Rectangle(Rectangle),
    Polyline(Polyline),
}

impl Shape for AnyShape {
    open spec fn spec_base(&self) -> ShapeBase {
        match *self {
            AnyShape::Circle(c) => c.base,
            AnyShape::Rectangle(r) => r.base,
            AnyShape::Polyline(p) => p.base,
        }
    }

    open spec fn spec_with_base(&self, base: ShapeBase) -> AnyShape {
        match *self {
            AnyShape::Circle(c) => AnyShape::Circle(c.spec_with_base(base)),
            AnyShape::Rectangle(r) => AnyShape::Rectangle(r.spec_with_base(base)),
            AnyShape::Polyline(p) => AnyShape::Polyline(p.spec_with_base(base)),
        }
    }

    open spec fn spec_draw_at(&self, offset: Offset) -> PaintView {
        match *self {
            AnyShape::Circle(c) => c.spec_draw_at(offset),
            AnyShape::Rectangle(r) => r.spec_draw_at(offset),
            AnyShape::Polyline(p) => p.spec_draw_at(offset),
        }
    }

    fn base(&self) -> (r: &ShapeBase) {
        match self {
            AnyShape::Circle(c) => c.base(),
            AnyShape::Rectangle(r) => r.base(),
            AnyShape::Polyline(p) => p.base(),
        }
    }

    fn base_mut(&mut self) -> (r: &mut ShapeBase) {
        match self {
            AnyShape::Circle(c) => c.base_mut(),
            AnyShape::Rectangle(r) => r.base_mut(),
            AnyShape::Polyline(p) => p.base_mut(),
        }
    }

    fn draw_at(&self, offset: Offset) -> (r: PaintOp) {
        match self {
            AnyShape::Circle(c) => c.draw_at(offset),
            AnyShape::Rectangle(r) => r.draw_at(offset),
            AnyShape::Polyline(p) => p.draw_at(offset),
        }
    }
}

} // verus!
