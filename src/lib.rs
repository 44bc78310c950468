//! Shapes, widgets and a canvas that composes them.
//!
//! The canvas keeps shapes in an arena and paints them back to front in the
//! order of a list of identity handles, which can be reordered. Widgets turn
//! what the host user interface reports about them into typed messages. The
//! library never paints by itself: a render pass yields a list of paint
//! commands for the host to execute.
pub mod geometry;
pub mod paint;
pub mod shape;
pub mod widget;
pub mod zorder;
pub mod canvas;
pub mod demo;

pub use crate::canvas::BasicCanvas;
pub use crate::widget::Button;
