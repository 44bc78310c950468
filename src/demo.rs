//! A demonstration application: four shapes and a button on one canvas, a
//! polyline held in place, and a small circle that blinks between red and
//! blue twice a second.
use vstd::prelude::*;

use crate::canvas::{BasicCanvas, PanelLayout, ShapeHandle};
use crate::geometry::{Color, Point, Size};
use crate::shape::{AnyShape, Circle, LineStyle, Polyline, Rectangle, Shape};
use crate::widget::{AnyWidget, Button, ButtonId};

verus! {

/// Milliseconds between two colour changes of the blinking circle.
pub const BLINK_PERIOD_MS: u64 = 500;

/// The canvas of the demonstration, with the handles of its shapes.
#[derive(Debug)]
pub struct DemoCanvas {
    pub canvas: BasicCanvas,
    /// The large circle.
    pub sc1: ShapeHandle,
    /// The small circle drawn over the large one.
    pub sc2: ShapeHandle,
    /// The rectangle.
    pub sr: ShapeHandle,
    /// The polyline.
    pub sp: ShapeHandle,
}

impl DemoCanvas {
    /// The canvas is well formed, and the handles name four different
    /// shapes of it.
    pub open spec fn wf(&self) -> bool {
        &&& self.canvas.wf()
        &&& seq![self.sc1, self.sc2, self.sr, self.sp].no_duplicates()
        &&& self.canvas.is_live(self.sc1)
        &&& self.canvas.is_live(self.sc2)
        &&& self.canvas.is_live(self.sr)
        &&& self.canvas.is_live(self.sp)
    }

    /// The canvas holds what `new` puts in it: a large dark red circle, a
    /// small transparent circle over it, a gold rectangle and a red zigzag
    /// polyline, each with a black outline unless said otherwise, and one
    /// "Push me" button.
    pub open spec fn has_demo_contents(&self) -> bool {
        let black = Color::from_rgb_spec(0, 0, 0);
        let transparent = Color { r: 0, g: 0, b: 0, a: 0 };
        let c1 = self.canvas.spec_shape(self.sc1);
        let c2 = self.canvas.spec_shape(self.sc2);
        let r = self.canvas.spec_shape(self.sr);
        let p = self.canvas.spec_shape(self.sp);
        let ws = self.canvas.spec_widgets();
        &&& c1 is Circle
        &&& c1->Circle_0.radius == 75
        &&& c1.spec_base().location == (Point { x: 200, y: 200 })
        &&& c1.spec_base().points@.len() == 0
        &&& c1.spec_base().color == black
        &&& c1.spec_base().fill_color == Color::from_rgb_spec(0x8b, 0, 0)
        &&& c1.spec_base().line_width == 4
        &&& c1.spec_base().line_style == LineStyle::Dotted
        &&& c2 is Circle
        &&& c2->Circle_0.radius == 10
        &&& c2.spec_base().location == (Point { x: 200, y: 200 })
        &&& c2.spec_base().points@.len() == 0
        &&& c2.spec_base().color == black
        &&& c2.spec_base().fill_color == transparent
        &&& c2.spec_base().line_width == 2
        &&& c2.spec_base().line_style == LineStyle::Dotted
        &&& r is Rectangle
        &&& r->Rectangle_0.size == (Size { width: 150, height: 100 })
        &&& r.spec_base().location == (Point { x: 400, y: 200 })
        &&& r.spec_base().points@.len() == 0
        &&& r.spec_base().color == black
        &&& r.spec_base().fill_color == Color::from_rgb_spec(255, 215, 0)
        &&& r.spec_base().line_width == 2
        &&& r.spec_base().line_style == LineStyle::Dotted
        &&& p is Polyline
        &&& p.spec_base().location == (Point { x: 550, y: 200 })
        &&& p.spec_base().points@ == seq![
            Point { x: 0, y: 0 },
            Point { x: 25, y: 50 },
            Point { x: 75, y: -50i32 },
            Point { x: 125, y: 50 },
            Point { x: 175, y: -50i32 },
            Point { x: 225, y: 50 },
            Point { x: 250, y: 0 },
        ]
        &&& p.spec_base().color == Color::from_rgb_spec(255, 0, 0)
        &&& p.spec_base().fill_color == transparent
        &&& p.spec_base().line_width == 2
        &&& p.spec_base().line_style == LineStyle::Dotted
        &&& ws.len() == 1
        &&& ws[0] is Button
        &&& ws[0]->Button_0.id == ButtonId(0)
        &&& ws[0]->Button_0.width == 120
        &&& ws[0]->Button_0.height == 40
        &&& ws[0]->Button_0.label@ == "Push me"@
        &&& self.canvas.spec_background() == Color::from_rgb_spec(200, 200, 210)
        &&& self.canvas.spec_layout() == PanelLayout::NoPanel
    }

    /// Builds the canvas: a large dark red circle, a small circle on top of
    /// it, a gold rectangle and a red zigzag polyline, painted in that order,
    /// and a "Push me" button.
    pub fn new() -> (d: DemoCanvas)
        ensures
            d.wf(),
            d.canvas.spec_order() == seq![d.sc1, d.sc2, d.sr, d.sp],
            d.has_demo_contents(),
    {
        let mut canvas = BasicCanvas::new();
        canvas.set_background(Color::from_rgb(200, 200, 210));
        canvas.set_layout(PanelLayout::NoPanel);

        let mut c1 = Circle::new(Point::new(200, 200), 75);
        c1.set_line_width(4);
        c1.set_fill_color(Color::from_rgb(0x8b, 0, 0));
        let sc1 = canvas.create_shape(AnyShape::Circle(c1));
        canvas.add_shape(sc1);

        let c2 = Circle::new(Point::new(200, 200), 10);
        let sc2 = canvas.create_shape(AnyShape::Circle(c2));
        canvas.add_shape(sc2);

        let mut r = Rectangle::new(Point::new(400, 200), Size::new(150, 100));
        r.set_fill_color(Color::from_rgb(255, 215, 0));
        let sr = canvas.create_shape(AnyShape::Rectangle(r));
        canvas.add_shape(sr);

        let mut p = Polyline::new(
            Point::new(550, 200),
            vec![
                Point::new(0, 0),
                Point::new(25, 50),
                Point::new(75, -50),
                Point::new(125, 50),
                Point::new(175, -50),
                Point::new(225, 50),
                Point::new(250, 0),
            ],
        );
        p.set_line_width(2);
        p.set_color(Color::from_rgb(255, 0, 0));
        let sp = canvas.create_shape(AnyShape::Polyline(p));
        canvas.add_shape(sp);

        let wb = Button::new(ButtonId(0), 120, 40, "Push me".to_string());
        canvas.add_widget(AnyWidget::Button(wb));

        DemoCanvas { canvas, sc1, sc2, sr, sp }
    }

    pub fn canvas(&self) -> (c: &BasicCanvas)
        ensures
            *c == self.canvas,
    {
        &self.canvas
    }

    pub fn canvas_mut(&mut self) -> (c: &mut BasicCanvas)
        ensures
            *c == old(self).canvas,
            *final(self) == (DemoCanvas { canvas: *final(c), ..*old(self) }),
    {
        &mut self.canvas
    }
}

/// The demonstration's state: its canvas and the blinking circle's clock.
#[derive(Debug)]
pub struct DemoApp {
    pub canvas: DemoCanvas,
    /// When the blinking circle last changed colour, in milliseconds.
    pub last_toggle_ms: u64,
    pub is_red: bool,
}

/// The blinking circle's colour: red or blue.
pub open spec fn blink_color(is_red: bool) -> Color {
    if is_red {
        Color::from_rgb_spec(255, 0, 0)
    } else {
        Color::from_rgb_spec(0, 0, 255)
    }
}

/// Whether, at `now_ms`, a whole blink period has passed since `last_ms`.
pub open spec fn blink_due(last_ms: u64, now_ms: u64) -> bool {
    now_ms >= last_ms && now_ms - last_ms >= BLINK_PERIOD_MS
}

impl DemoApp {
    pub fn new() -> (a: DemoApp)
        ensures
            a.canvas.wf(),
            a.canvas.canvas.spec_order() == seq![a.canvas.sc1, a.canvas.sc2, a.canvas.sr, a.canvas.sp],
            a.canvas.has_demo_contents(),
            a.last_toggle_ms == 0,
            a.is_red,
    {
        DemoApp { canvas: DemoCanvas::new(), last_toggle_ms: 0, is_red: true }
    }

    /// The state changes of one frame at time `now_ms`: the polyline is put
    /// back at (550, 400), and once a blink period has passed since the last
    /// change, the small circle switches between red and blue.
    pub fn update(&mut self, now_ms: u64)
        requires
            old(self).canvas.wf(),
        ensures
            final(self).canvas.wf(),
            final(self).canvas.canvas.spec_order() == old(self).canvas.canvas.spec_order(),
            final(self).canvas.canvas.spec_widgets() == old(self).canvas.canvas.spec_widgets(),
            final(self).canvas.sc1 == old(self).canvas.sc1,
            final(self).canvas.sc2 == old(self).canvas.sc2,
            final(self).canvas.sr == old(self).canvas.sr,
            final(self).canvas.sp == old(self).canvas.sp,
            forall|g: ShapeHandle|
                g != old(self).canvas.sp && g != old(self).canvas.sc2 && old(
                    self,
                ).canvas.canvas.is_live(g) ==> #[trigger] final(self).canvas.canvas.spec_shape(g)
                    == old(self).canvas.canvas.spec_shape(g),
            final(self).canvas.canvas.spec_shape(old(self).canvas.sp).spec_base().location == (Point {
                x: 550,
                y: 400,
            }),
            blink_due(old(self).last_toggle_ms, now_ms) ==> {
                &&& final(self).last_toggle_ms == now_ms
                &&& final(self).is_red == !old(self).is_red
                &&& final(self).canvas.canvas.spec_shape(old(self).canvas.sc2).spec_base().fill_color
                    == blink_color(final(self).is_red)
            },
            !blink_due(old(self).last_toggle_ms, now_ms) ==> {
                &&& final(self).last_toggle_ms == old(self).last_toggle_ms
                &&& final(self).is_red == old(self).is_red
                &&& final(self).canvas.canvas.spec_shape(old(self).canvas.sc2)
                    == old(self).canvas.canvas.spec_shape(old(self).canvas.sc2)
            },
    {
        let sp = self.canvas.sp;
        let sc2 = self.canvas.sc2;
        if let Some(s) = self.canvas.canvas.shape_mut(sp) {
            s.move_to(Point::new(550, 400));
        }
        if now_ms >= self.last_toggle_ms && now_ms - self.last_toggle_ms >= BLINK_PERIOD_MS {
            self.last_toggle_ms = now_ms;
            self.is_red = !self.is_red;
            let c = if self.is_red {
                Color::from_rgb(255, 0, 0)
            } else {
                Color::from_rgb(0, 0, 255)
            };
            if let Some(s) = self.canvas.canvas.shape_mut(sc2) {
                s.set_fill_color(c);
            }
        }
    }
}

} // verus!
