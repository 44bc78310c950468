use graphics::canvas::PanelLayout;
use graphics::demo::{DemoApp, DemoCanvas};
use graphics::geometry::{Color, Point, Size};
use graphics::shape::{AnyShape, LineStyle, Shape};
use graphics::widget::AnyWidget;

#[test]
fn demo_canvas_layout() {
    let d = DemoCanvas::new();
    assert_eq!(d.canvas().z_order(), vec![d.sc1, d.sc2, d.sr, d.sp]);
    assert_eq!(d.canvas().paint_list().len(), 5);
    assert_eq!(d.canvas().layout(), PanelLayout::NoPanel);
    assert_eq!(d.canvas().shape(d.sc1).unwrap().fill_color(), Color::from_rgb(0x8b, 0, 0));
    assert_eq!(d.canvas().shape(d.sc1).unwrap().line_width(), 4);
    assert_eq!(d.canvas().shape(d.sp).unwrap().color(), Color::from_rgb(255, 0, 0));
    match &d.canvas().widgets()[0] {
        AnyWidget::Button(b) => {
            assert_eq!(b.label, "Push me");
            assert_eq!((b.width, b.height), (120, 40));
        }
        other => panic!("unexpected widget {:?}", other),
    }
}

#[test]
fn demo_canvas_shapes() {
    let d = DemoCanvas::new();
    let c = d.canvas();
    assert_eq!(c.background(), Color::from_rgb(200, 200, 210));
    match c.shape(d.sc1).unwrap() {
        AnyShape::Circle(s) => {
            assert_eq!(s.radius, 75);
            assert_eq!(s.base.location, Point::new(200, 200));
            assert_eq!(s.base.color, Color::black());
        }
        other => panic!("unexpected shape {:?}", other),
    }
    match c.shape(d.sc2).unwrap() {
        AnyShape::Circle(s) => {
            assert_eq!(s.radius, 10);
            assert_eq!(s.base.line_width, 2);
            assert_eq!(s.base.fill_color, Color::transparent());
        }
        other => panic!("unexpected shape {:?}", other),
    }
    match c.shape(d.sr).unwrap() {
        AnyShape::Rectangle(s) => {
            assert_eq!(s.size, Size::new(150, 100));
            assert_eq!(s.base.location, Point::new(400, 200));
            assert_eq!(s.base.fill_color, Color::from_rgb(255, 215, 0));
        }
        other => panic!("unexpected shape {:?}", other),
    }
    match c.shape(d.sp).unwrap() {
        AnyShape::Polyline(s) => {
            assert_eq!(s.base.location, Point::new(550, 200));
            assert_eq!(
                s.base.points,
                vec![
                    Point::new(0, 0),
                    Point::new(25, 50),
                    Point::new(75, -50),
                    Point::new(125, 50),
                    Point::new(175, -50),
                    Point::new(225, 50),
                    Point::new(250, 0),
                ]
            );
            assert_eq!(s.base.line_style, LineStyle::Dotted);
        }
        other => panic!("unexpected shape {:?}", other),
    }
}

#[test]
fn demo_canvas_mut_reorders() {
    let mut d = DemoCanvas::new();
    let sc1 = d.sc1;
    assert!(d.canvas_mut().put_on_top(sc1));
    assert_eq!(d.canvas().z_order(), vec![d.sc2, d.sr, d.sp, d.sc1]);
}

#[test]
fn demo_blinks_every_half_second() {
    let mut app = DemoApp::new();
    assert!(app.is_red);
    app.update(499);
    assert!(app.is_red);
    assert_eq!(app.last_toggle_ms, 0);
    let sp = app.canvas.sp;
    assert_eq!(app.canvas.canvas().shape(sp).unwrap().location(), Point::new(550, 400));
    app.update(500);
    assert!(!app.is_red);
    assert_eq!(app.last_toggle_ms, 500);
    let sc2 = app.canvas.sc2;
    assert_eq!(app.canvas.canvas().shape(sc2).unwrap().fill_color(), Color::from_rgb(0, 0, 255));
    app.update(999);
    assert!(!app.is_red);
    app.update(1000);
    assert!(app.is_red);
    assert_eq!(app.canvas.canvas().shape(sc2).unwrap().fill_color(), Color::from_rgb(255, 0, 0));
}

#[test]
fn demo_ignores_a_clock_that_goes_back() {
    let mut app = DemoApp::new();
    app.update(2000);
    assert!(!app.is_red);
    app.update(100);
    assert!(!app.is_red);
    assert_eq!(app.last_toggle_ms, 2000);
}
