use graphics::canvas::{BasicCanvas, PanelLayout, ShapeHandle};
use graphics::geometry::{Color, PaintPoint, Point, Size};
use graphics::paint::{PaintOp, Stroke};
use graphics::shape::{AnyShape, Circle, Rectangle, Shape};
use graphics::widget::{
    AnyWidget, Button, ButtonId, DragFloat, DragFloatId, Interaction, Slider, SliderId, Space,
    WidgetMsg,
};

fn circle(x: i32, y: i32, r: u32) -> AnyShape {
    AnyShape::Circle(Circle::new(Point::new(x, y), r))
}

fn canvas_with(n: usize) -> (BasicCanvas, Vec<ShapeHandle>) {
    let mut c = BasicCanvas::new();
    let mut hs = Vec::new();
    for i in 0..n {
        let h = c.create_shape(circle(0, 0, i as u32 + 1));
        c.add_shape(h);
        hs.push(h);
    }
    (c, hs)
}

fn radii(ops: &[PaintOp]) -> Vec<u32> {
    ops.iter()
        .filter_map(|op| match op {
            PaintOp::Circle { radius, .. } => Some(*radius),
            _ => None,
        })
        .collect()
}

#[test]
fn new_canvas_is_empty() {
    let c = BasicCanvas::new();
    assert!(c.z_order().is_empty());
    assert!(c.widgets().is_empty());
    assert_eq!(c.layout(), PanelLayout::TopPanel);
    assert_eq!(c.paint_list(), vec![PaintOp::Background(Color::from_rgb(255, 255, 255))]);
}

#[test]
fn render_paints_in_insertion_order() {
    let (mut c, hs) = canvas_with(5);
    assert_eq!(c.z_order(), hs);
    let mut out = Vec::new();
    let ops = c.run(&Vec::new(), &mut out);
    assert_eq!(ops.len(), 6);
    assert!(matches!(ops[0], PaintOp::Background(_)));
    assert_eq!(radii(&ops), vec![1, 2, 3, 4, 5]);
    assert!(out.is_empty());
}

#[test]
fn created_shape_is_not_painted_until_added() {
    let mut c = BasicCanvas::new();
    let h = c.create_shape(circle(1, 2, 3));
    assert_eq!(c.paint_list().len(), 1);
    c.add_shape(h);
    assert_eq!(c.paint_list().len(), 2);
}

#[test]
fn adding_a_handle_twice_keeps_one_entry() {
    let (mut c, hs) = canvas_with(3);
    c.add_shape(hs[0]);
    assert_eq!(c.z_order(), hs);
}

#[test]
fn put_on_top_paints_last() {
    for start in 0..4 {
        let (mut c, hs) = canvas_with(4);
        assert!(c.put_on_top(hs[start]));
        let order = c.z_order();
        assert_eq!(order.len(), 4);
        assert_eq!(*order.last().unwrap(), hs[start]);
        let r = radii(&c.paint_list());
        assert_eq!(*r.last().unwrap(), start as u32 + 1);
    }
}

#[test]
fn put_on_top_when_already_on_top_keeps_the_order() {
    let (mut c, hs) = canvas_with(3);
    assert!(c.put_on_top(hs[2]));
    assert_eq!(c.z_order(), hs);
}

#[test]
fn put_on_top_of_an_absent_shape_is_false() {
    let (mut c, hs) = canvas_with(3);
    assert!(c.remove_shape(hs[1]));
    assert!(!c.put_on_top(hs[1]));
    assert_eq!(c.z_order(), vec![hs[0], hs[2]]);
}

#[test]
fn put_on_top_of_places_just_above() {
    let (mut c, hs) = canvas_with(4);
    assert!(c.put_on_top_of(hs[3], hs[0]));
    assert_eq!(c.z_order(), vec![hs[0], hs[3], hs[1], hs[2]]);
    assert!(c.put_on_top_of(hs[0], hs[2]));
    assert_eq!(c.z_order(), vec![hs[3], hs[1], hs[2], hs[0]]);
}

#[test]
fn put_on_top_of_when_already_above_changes_nothing() {
    let (mut c, hs) = canvas_with(3);
    assert!(c.put_on_top_of(hs[1], hs[0]));
    assert_eq!(c.z_order(), hs);
    assert!(c.put_on_top_of(hs[2], hs[1]));
    assert_eq!(c.z_order(), hs);
}

#[test]
fn put_on_top_of_itself_is_true_and_inert() {
    let (mut c, hs) = canvas_with(3);
    assert!(c.put_on_top_of(hs[1], hs[1]));
    assert_eq!(c.z_order(), hs);
}

#[test]
fn put_on_top_of_with_a_missing_shape_is_false() {
    let (mut c, hs) = canvas_with(3);
    let loose = c.create_shape(circle(0, 0, 9));
    assert!(!c.put_on_top_of(loose, hs[0]));
    assert!(!c.put_on_top_of(hs[0], loose));
    assert!(!c.put_on_top_of(loose, loose));
    assert_eq!(c.z_order(), hs);
}

#[test]
fn put_on_top_of_twice_is_idempotent() {
    let (mut c, hs) = canvas_with(4);
    assert!(c.put_on_top_of(hs[0], hs[2]));
    let once = c.z_order();
    assert!(c.put_on_top_of(hs[0], hs[2]));
    assert_eq!(c.z_order(), once);
}

#[test]
fn remove_shape_removes_by_identity() {
    let mut c = BasicCanvas::new();
    let a = c.create_shape(circle(5, 5, 5));
    let b = c.create_shape(circle(5, 5, 5));
    c.add_shape(a);
    c.add_shape(b);
    assert_ne!(a, b);
    assert!(c.remove_shape(b));
    assert_eq!(c.z_order(), vec![a]);
    assert!(!c.remove_shape(b));
    assert_eq!(c.z_order(), vec![a]);
}

#[test]
fn removed_shape_can_be_added_again() {
    let (mut c, hs) = canvas_with(3);
    assert!(c.remove_shape(hs[0]));
    c.add_shape(hs[0]);
    assert_eq!(c.z_order(), vec![hs[1], hs[2], hs[0]]);
}

#[test]
fn large_circle_put_on_top_of_small_one() {
    let mut c = BasicCanvas::new();
    let mut large = Circle::new(Point::new(200, 200), 75);
    large.set_fill_color(Color::from_rgb(160, 160, 160));
    let large = c.create_shape(AnyShape::Circle(large));
    let small = c.create_shape(AnyShape::Circle(Circle::new(Point::new(200, 200), 10)));
    c.add_shape(large);
    c.add_shape(small);
    assert_eq!(radii(&c.paint_list()), vec![75, 10]);
    assert!(c.put_on_top(large));
    assert_eq!(c.z_order(), vec![small, large]);
    let ops = c.paint_list();
    assert_eq!(radii(&ops), vec![10, 75]);
    match &ops[2] {
        PaintOp::Circle { fill, .. } => assert_eq!(*fill, Color::from_rgb(160, 160, 160)),
        other => panic!("unexpected paint command {:?}", other),
    }
}

#[test]
fn three_shapes_reordered_then_one_removed() {
    let (mut c, hs) = canvas_with(3);
    let (a, b, cc) = (hs[0], hs[1], hs[2]);
    assert!(c.put_on_top_of(a, b));
    assert_eq!(c.z_order(), vec![b, a, cc]);
    assert!(c.remove_shape(b));
    assert_eq!(c.z_order(), vec![a, cc]);
}

#[test]
fn button_click_emits_one_message() {
    let mut c = BasicCanvas::new();
    c.add_widget(AnyWidget::Button(Button::new(ButtonId(7), 120, 40, "Push me".to_string())));
    c.add_widget(AnyWidget::Button(Button::new(ButtonId(8), 120, 40, "Other".to_string())));
    let mut out = Vec::new();
    c.run(&vec![Interaction::Clicked, Interaction::Idle], &mut out);
    assert_eq!(out, vec![WidgetMsg::ButtonClicked(ButtonId(7))]);
    out.clear();
    c.run(&vec![Interaction::Idle, Interaction::Idle], &mut out);
    assert!(out.is_empty());
}

#[test]
fn run_appends_to_what_the_buffer_holds() {
    let mut c = BasicCanvas::new();
    c.add_widget(AnyWidget::Button(Button::new(ButtonId(1), 10, 10, "b".to_string())));
    let mut out = vec![WidgetMsg::ButtonClicked(ButtonId(99))];
    c.run(&vec![Interaction::Clicked], &mut out);
    assert_eq!(out, vec![WidgetMsg::ButtonClicked(ButtonId(99)), WidgetMsg::ButtonClicked(ButtonId(1))]);
}

#[test]
fn widgets_emit_in_list_order() {
    let mut c = BasicCanvas::new();
    c.add_widget(AnyWidget::Slider(Slider::new(SliderId(1), 5, 0, 10, "s".to_string())));
    c.add_widget(AnyWidget::Space(Space::new(8)));
    c.add_widget(AnyWidget::DragFloat(DragFloat::new(DragFloatId(2), 0, "d".to_string())));
    c.add_widget(AnyWidget::Button(Button::new(ButtonId(3), 10, 10, "b".to_string())));
    let mut out = Vec::new();
    let events = vec![
        Interaction::Changed(7),
        Interaction::Clicked,
        Interaction::Changed(-4),
        Interaction::Clicked,
    ];
    c.invoke_widgets(&events, &mut out);
    assert_eq!(
        out,
        vec![
            WidgetMsg::SliderChanged(SliderId(1), 7),
            WidgetMsg::DragFloatChanged(DragFloatId(2), -4),
            WidgetMsg::ButtonClicked(ButtonId(3)),
        ]
    );
    match &c.widgets()[0] {
        AnyWidget::Slider(s) => assert_eq!(s.value, 7),
        other => panic!("unexpected widget {:?}", other),
    }
    match &c.widgets()[2] {
        AnyWidget::DragFloat(d) => assert_eq!(d.value, -4),
        other => panic!("unexpected widget {:?}", other),
    }
}

#[test]
fn mismatched_events_emit_nothing() {
    let mut c = BasicCanvas::new();
    c.add_widget(AnyWidget::Button(Button::new(ButtonId(1), 10, 10, "b".to_string())));
    c.add_widget(AnyWidget::Slider(Slider::new(SliderId(2), 3, 0, 10, "s".to_string())));
    let mut out = Vec::new();
    c.run(&vec![Interaction::Changed(4), Interaction::Clicked], &mut out);
    assert!(out.is_empty());
    match &c.widgets()[1] {
        AnyWidget::Slider(s) => assert_eq!(s.value, 3),
        other => panic!("unexpected widget {:?}", other),
    }
}

#[test]
fn widgets_past_the_events_are_idle() {
    let mut c = BasicCanvas::new();
    c.add_widget(AnyWidget::Button(Button::new(ButtonId(1), 10, 10, "a".to_string())));
    c.add_widget(AnyWidget::Button(Button::new(ButtonId(2), 10, 10, "b".to_string())));
    let mut out = Vec::new();
    c.run(&vec![Interaction::Clicked], &mut out);
    assert_eq!(out, vec![WidgetMsg::ButtonClicked(ButtonId(1))]);
}

#[test]
fn render_twice_without_changes_is_the_same() {
    let (mut c, _) = canvas_with(3);
    c.add_widget(AnyWidget::Button(Button::new(ButtonId(1), 10, 10, "b".to_string())));
    let mut out = Vec::new();
    let first = c.run(&vec![Interaction::Idle], &mut out);
    assert!(out.is_empty());
    out.clear();
    let second = c.run(&vec![Interaction::Idle], &mut out);
    assert!(out.is_empty());
    assert_eq!(first, second);
}

#[test]
fn shape_changes_show_on_the_next_render() {
    let (mut c, hs) = canvas_with(2);
    let s = c.shape_mut(hs[0]).unwrap();
    s.move_to(Point::new(30, 40));
    s.set_fill_color(Color::from_rgb(1, 2, 3));
    let ops = c.paint_list();
    assert_eq!(
        ops[1],
        PaintOp::Circle {
            center: PaintPoint { x: 30, y: 40 },
            radius: 1,
            fill: Color::from_rgb(1, 2, 3),
            stroke: Stroke { width: 2, color: Color::black() },
        }
    );
    assert_eq!(c.shape(hs[0]).unwrap().location(), Point::new(30, 40));
}

#[test]
fn get_shape_mut_goes_by_draw_position() {
    let (mut c, hs) = canvas_with(3);
    assert!(c.put_on_top(hs[0]));
    c.get_shape_mut(2).unwrap().set_line_width(9);
    assert_eq!(c.shape(hs[0]).unwrap().line_width(), 9);
    assert_eq!(c.shape(hs[1]).unwrap().line_width(), 2);
    assert!(c.get_shape_mut(3).is_none());
}

#[test]
fn background_and_layout_are_kept() {
    let mut c = BasicCanvas::new();
    c.set_background(Color::from_rgb(200, 200, 210));
    c.set_layout(PanelLayout::SidePanel);
    assert_eq!(c.background(), Color::from_rgb(200, 200, 210));
    assert_eq!(c.layout(), PanelLayout::SidePanel);
    let r = c.create_shape(AnyShape::Rectangle(Rectangle::new(Point::new(1, 1), Size::new(2, 2))));
    c.add_shape(r);
    let ops = c.paint_list();
    assert_eq!(ops[0], PaintOp::Background(Color::from_rgb(200, 200, 210)));
}
