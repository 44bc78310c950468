//! Paint commands: what a render pass asks the host's painter to draw.
use vstd::prelude::*;

use crate::geometry::{Color, PaintPoint, Size};

verus! {

/// The pen that outlines a shape.
#[derive(PartialEq, Eq, Structural, Clone, Copy, Debug)]
pub struct Stroke {
    pub width: u32,
    pub color: Color,
}

/// One drawing instruction for the host's painter.
#[derive(PartialEq, Debug)]
pub enum PaintOp {
    /// Fill the whole drawing region.
    Background(Color),
    /// A filled, outlined disc.
    Circle { center: PaintPoint, radius: u32, fill: Color, stroke: Stroke },
    /// A filled, outlined rectangle with square corners, centred on `center`.
    Rect { center: PaintPoint, size: Size, fill: Color, stroke: Stroke },
    /// One continuous line through `points`.
    Path { points: Vec<PaintPoint>, stroke: Stroke },
    /// Dashes of `dash_length` separated by gaps of `gap_length` along `points`.
    DashedPath { points: Vec<PaintPoint>, stroke: Stroke, dash_length: u64, gap_length: u64 },
    /// Dots `spacing` apart along `points`; each dot's diameter is `dot_diameter`,
    /// so its radius is half of that.
    DottedPath { points: Vec<PaintPoint>, color: Color, spacing: u64, dot_diameter: u32 },
}

/// The mathematical value of a `PaintOp`: the same, with sequences for vectors.
pub enum PaintView {
    Background(Color),
    Circle { center: PaintPoint, radius: u32, fill: Color, stroke: Stroke },
    Rect { center: PaintPoint, size: Size, fill: Color, stroke: Stroke },
    Path { points: Seq<PaintPoint>, stroke: Stroke },
    DashedPath { points: Seq<PaintPoint>, stroke: Stroke, dash_length: u64, gap_length: u64 },
    DottedPath { points: Seq<PaintPoint>, color: Color, spacing: u64, dot_diameter: u32 },
}

impl View for PaintOp {
    type V = PaintView;

    open spec fn view(&self) -> PaintView {
        match *self {
            PaintOp::Background(c) => PaintView::Background(c),
            PaintOp::Circle { center, radius, fill, stroke } => PaintView::Circle {
                center,
                radius,
                fill,
                stroke,
            },
            PaintOp::Rect { center, size, fill, stroke } => PaintView::Rect {
                center,
                size,
                fill,
                stroke,
            },
            PaintOp::Path { points, stroke } => PaintView::Path { points: points@, stroke },
            PaintOp::DashedPath { points, stroke, dash_length, gap_length } => PaintView::DashedPath {
                points: points@,
                stroke,
                dash_length,
                gap_length,
            },
            PaintOp::DottedPath { points, color, spacing, dot_diameter } => PaintView::DottedPath {
                points: points@,
                color,
                spacing,
                dot_diameter,
            },
        }
    }
}

/// The views of a list of paint commands, in order.
pub open spec fn views_of(ops: Seq<PaintOp>) -> Seq<PaintView> {
    ops.map_values(|op: PaintOp| op@)
}

} // verus!
