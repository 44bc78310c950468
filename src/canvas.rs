//! The canvas: an arena of shapes, a back-to-front list of their handles,
//! a list of widgets, and the render pass over them.
use vstd::prelude::*;

use crate::geometry::{Color, Offset};
use crate::paint::{views_of, PaintOp, PaintView};
use crate::shape::{AnyShape, Shape};
use crate::widget::{
    event_at, lemma_idle_pass_emits_nothing, messages_of, messages_upto, widgets_after, AnyWidget,
    Interaction, Widget, WidgetMsg,
};
use crate::zorder::{
    lemma_adds_keep_insertion_order, lemma_index_of_unique, lemma_insert_keeps_distinct,
    lemma_put_on_top_puts_last, lemma_remove_keeps_distinct, order_after_add, order_after_adds,
    order_after_put_on_top, order_after_put_on_top_of, order_after_remove,
};

verus! {

/// The identity of a shape stored in a canvas.
///
/// Handles compare by identity, never by the shape's attributes: two shapes
/// that look the same have different handles, and copies of one handle all
/// name the same shape.
#[derive(PartialEq, Eq, Structural, Clone, Copy, Debug)]
pub struct ShapeHandle {
    index: usize,
}

impl ShapeHandle {
    /// Where the shape stands in its canvas's arena.
    pub closed spec fn spec_index(self) -> int {
        self.index as int
    }
}

/// Where the host places the widgets relative to the drawing region.
#[derive(PartialEq, Eq, Structural, Clone, Copy, Debug)]
pub enum PanelLayout {
    /// In a bar above the drawing region.
    TopPanel,
    /// In a bar to the left of the drawing region.
    SidePanel,
    /// In the drawing region itself, after the shapes.
    NoPanel,
}

/// A container of shapes and widgets.
///
/// Shapes live in an arena for as long as the canvas does; the draw list
/// holds the handles of those that are painted, back to front, each once.
/// Taking a shape off the draw list leaves it in the arena, where its
/// handle still reaches it and can put it back.
#[derive(Debug)]
pub struct BasicCanvas {
    store: Vec<AnyShape>,
    shapes: Vec<ShapeHandle>,
    widgets: Vec<AnyWidget>,
    background: Color,
    layout: PanelLayout,
}

impl BasicCanvas {
    /// The draw list, back to front.
    pub closed spec fn spec_order(&self) -> Seq<ShapeHandle> {
        self.shapes@
    }

    /// The shapes of the arena, in the order they were stored.
    pub closed spec fn spec_store(&self) -> Seq<AnyShape> {
        self.store@
    }

    /// The widgets, in the order they are invoked.
    pub closed spec fn spec_widgets(&self) -> Seq<AnyWidget> {
        self.widgets@
    }

    pub closed spec fn spec_background(&self) -> Color {
        self.background
    }

    pub closed spec fn spec_layout(&self) -> PanelLayout {
        self.layout
    }

    /// `h` names a shape of this canvas's arena.
    pub open spec fn is_live(&self, h: ShapeHandle) -> bool {
        0 <= h.spec_index() < self.spec_store().len()
    }

    /// The shape that `h` names.
    pub open spec fn spec_shape(&self, h: ShapeHandle) -> AnyShape {
        self.spec_store()[h.spec_index()]
    }

    /// The arena with the shape that `h` names replaced by `s`.
    pub open spec fn store_with(&self, h: ShapeHandle, s: AnyShape) -> Seq<AnyShape> {
        self.spec_store().update(h.spec_index(), s)
    }

    /// Every handle on the draw list names a stored shape, and none is there
    /// twice.
    pub closed spec fn wf(&self) -> bool {
        &&& self.shapes@.no_duplicates()
        &&& forall|k: int| 0 <= k < self.shapes@.len() ==> self.is_live(#[trigger] self.shapes@[k])
    }

    /// What painting the handles of `order`, back to front, over this
    /// canvas's background yields.
    pub open spec fn paint_for(&self, order: Seq<ShapeHandle>) -> Seq<PaintView> {
        seq![PaintView::Background(self.spec_background())] + order.map_values(
            |h: ShapeHandle| self.spec_shape(h).spec_draw_at(Offset { dx: 0, dy: 0 }),
        )
    }

    /// What a render pass paints: the background, then each shape of the
    /// draw list, back to front.
    pub open spec fn spec_paint(&self) -> Seq<PaintView> {
        self.paint_for(self.spec_order())
    }

    /// An empty canvas with a white background and the widgets in a top panel.
    pub fn new() -> (c: BasicCanvas)
        ensures
            c.wf(),
            c.spec_order().len() == 0,
            c.spec_store().len() == 0,
            c.spec_widgets().len() == 0,
            c.spec_background() == Color::from_rgb_spec(255, 255, 255),
            c.spec_layout() == PanelLayout::TopPanel,
    {
        BasicCanvas {
            store: Vec::new(),
            shapes: Vec::new(),
            widgets: Vec::new(),
            background: Color::from_rgb(255, 255, 255),
            layout: PanelLayout::TopPanel,
        }
    }

    /// Stores `s` in the arena and returns its handle. The shape is not
    /// painted until its handle is added to the draw list.
    pub fn create_shape(&mut self, s: AnyShape) -> (h: ShapeHandle)
        requires
            old(self).wf(),
        ensures
            final(self).wf(),
            h.spec_index() == old(self).spec_store().len(),
            !old(self).is_live(h),
            !old(self).spec_order().contains(h),
            final(self).is_live(h),
            final(self).spec_store() == old(self).spec_store().push(s),
            final(self).spec_shape(h) == s,
            final(self).spec_order() == old(self).spec_order(),
            final(self).spec_widgets() == old(self).spec_widgets(),
            final(self).spec_background() == old(self).spec_background(),
            final(self).spec_layout() == old(self).spec_layout(),
    {
        let h = ShapeHandle { index: self.store.len() };
        self.store.push(s);
        h
    }

    /// Where `h` stands on the draw list, if it is there.
    fn position_of(&self, h: ShapeHandle) -> (r: Option<usize>)
        requires
            self.wf(),
        ensures
            match r {
                Some(i) => i < self.spec_order().len() && self.spec_order()[i as int] == h
                    && self.spec_order().index_of(h) == i,
                None => !self.spec_order().contains(h),
            },
    {
        let mut i: usize = 0;
        while i < self.shapes.len()
            invariant
                self.wf(),
                i <= self.shapes@.len(),
                forall|k: int| 0 <= k < i ==> self.shapes@[k] != h,
            decreases self.shapes@.len() - i,
        {
            if self.shapes[i] == h {
                proof {
                    lemma_index_of_unique(self.shapes@, i as int);
                }
                return Some(i);
            }
            i = i + 1;
        }
        None
    }

    /// Adds `s` on top of every shape of the draw list. A handle that is
    /// already on the list, or that names no stored shape, changes nothing.
    pub fn add_shape(&mut self, s: ShapeHandle)
        requires
            old(self).wf(),
        ensures
            final(self).wf(),
            final(self).spec_order() == if old(self).is_live(s) {
                order_after_add(old(self).spec_order(), s)
            } else {
                old(self).spec_order()
            },
            final(self).spec_store() == old(self).spec_store(),
            final(self).spec_widgets() == old(self).spec_widgets(),
            final(self).spec_background() == old(self).spec_background(),
            final(self).spec_layout() == old(self).spec_layout(),
    {
        if s.index < self.store.len() {
            if self.position_of(s).is_none() {
                let ghost before = self.shapes@;
                self.shapes.push(s);
                proof {
                    lemma_insert_keeps_distinct(before, before.len() as int, s);
                    assert(before.insert(before.len() as int, s) =~= self.shapes@);
                }
            }
        }
    }

    /// Moves the shape `h` to the top of the draw list. Returns whether it
    /// was on the list; when it was not, nothing changes.
    pub fn put_on_top(&mut self, h: ShapeHandle) -> (found: bool)
        requires
            old(self).wf(),
        ensures
            final(self).wf(),
            found == old(self).spec_order().contains(h),
            final(self).spec_order() == order_after_put_on_top(old(self).spec_order(), h),
            final(self).spec_store() == old(self).spec_store(),
            final(self).spec_widgets() == old(self).spec_widgets(),
            final(self).spec_background() == old(self).spec_background(),
            final(self).spec_layout() == old(self).spec_layout(),
    {
        match self.position_of(h) {
            None => false,
            Some(i) => {
                let ghost before = self.shapes@;
                let x = self.shapes.remove(i);
                proof {
                    lemma_remove_keeps_distinct(before, i as int);
                }
                let ghost rest = self.shapes@;
                self.shapes.push(x);
                proof {
                    lemma_insert_keeps_distinct(rest, rest.len() as int, h);
                    assert(rest.insert(rest.len() as int, h) =~= self.shapes@);
                    assert forall|k: int| 0 <= k < self.shapes@.len() implies self.is_live(
                        #[trigger] self.shapes@[k],
                    ) by {
                        if k < rest.len() {
                            assert(rest.contains(self.shapes@[k]));
                        }
                    }
                }
                true
            },
        }
    }

    /// Takes `a` out of the draw list and puts it back just above `b`, where
    /// `b` stands once `a` is out. Returns false, changing nothing, when
    /// either is not on the list; when both name the same shape, returns true
    /// and changes nothing.
    pub fn put_on_top_of(&mut self, a: ShapeHandle, b: ShapeHandle) -> (done: bool)
        requires
            old(self).wf(),
        ensures
            final(self).wf(),
            done == (old(self).spec_order().contains(a) && old(self).spec_order().contains(b)),
            final(self).spec_order() == order_after_put_on_top_of(old(self).spec_order(), a, b),
            final(self).spec_store() == old(self).spec_store(),
            final(self).spec_widgets() == old(self).spec_widgets(),
            final(self).spec_background() == old(self).spec_background(),
            final(self).spec_layout() == old(self).spec_layout(),
    {
        let ia = match self.position_of(a) {
            None => { return false; },
            Some(i) => i,
        };
        if self.position_of(b).is_none() {
            return false;
        }
        if a == b {
            return true;
        }
        let ghost before = self.shapes@;
        self.shapes.remove(ia);
        proof {
            lemma_remove_keeps_distinct(before, ia as int);
        }
        let ghost rest = self.shapes@;
        assert forall|k: int| 0 <= k < rest.len() implies self.is_live(#[trigger] rest[k]) by {
            assert(rest.contains(rest[k]));
        }
        // `b` differs from `a`, so it is still on the list and is found.
        let ib = match self.position_of(b) {
            Some(i) => i,
            None => { return true; },
        };
        self.shapes.insert(ib + 1, a);
        proof {
            lemma_insert_keeps_distinct(rest, ib + 1, a);
            assert forall|k: int| 0 <= k < self.shapes@.len() implies self.is_live(
                #[trigger] self.shapes@[k],
            ) by {
                let x = self.shapes@[k];
                assert(rest.insert(ib + 1, a).contains(x));
                if x != a {
                    assert(rest.contains(x));
                }
            }
        }
        true
    }

    /// The shape that `h` names, if it names one of this canvas.
    pub fn shape(&self, h: ShapeHandle) -> (r: Option<&AnyShape>)
        ensures
            match r {
                Some(s) => self.is_live(h) && *s == self.spec_shape(h),
                None => !self.is_live(h),
            },
    {
        if h.index < self.store.len() {
            Some(&self.store[h.index])
        } else {
            None
        }
    }

    /// The shape that `h` names, to change in place, if it names one of this
    /// canvas. The change shows on the next render pass, wherever the shape
    /// stands on the draw list.
    pub fn shape_mut(&mut self, h: ShapeHandle) -> (r: Option<&mut AnyShape>)
        requires
            old(self).wf(),
        ensures
            match r {
                Some(s) => {
                    &&& old(self).is_live(h)
                    &&& *s == old(self).spec_shape(h)
                    &&& final(self).spec_store() == old(self).store_with(h, *final(s))
                    &&& final(self).spec_shape(h) == *final(s)
                    &&& forall|g: ShapeHandle|
                        g != h && old(self).is_live(g) ==> #[trigger] final(self).spec_shape(g)
                            == old(self).spec_shape(g)
                    &&& final(self).spec_order() == old(self).spec_order()
                    &&& final(self).spec_widgets() == old(self).spec_widgets()
                    &&& final(self).spec_background() == old(self).spec_background()
                    &&& final(self).spec_layout() == old(self).spec_layout()
                },
                None => !old(self).is_live(h) && *final(self) == *old(self),
            },
            final(self).wf(),
    {
        if h.index < self.store.len() {
            Some(&mut self.store[h.index])
        } else {
            None
        }
    }

    /// The shape standing `index`-th from the back of the draw list, to
    /// change in place, if the list is that long.
    pub fn get_shape_mut(&mut self, index: usize) -> (r: Option<&mut AnyShape>)
        requires
            old(self).wf(),
        ensures
            match r {
                Some(s) => {
                    let h = old(self).spec_order()[index as int];
                    &&& index < old(self).spec_order().len()
                    &&& *s == old(self).spec_shape(h)
                    &&& final(self).spec_store() == old(self).store_with(h, *final(s))
                    &&& final(self).spec_shape(h) == *final(s)
                    &&& forall|g: ShapeHandle|
                        g != h && old(self).is_live(g) ==> #[trigger] final(self).spec_shape(g)
                            == old(self).spec_shape(g)
                    &&& final(self).spec_order() == old(self).spec_order()
                    &&& final(self).spec_widgets() == old(self).spec_widgets()
                    &&& final(self).spec_background() == old(self).spec_background()
                    &&& final(self).spec_layout() == old(self).spec_layout()
                },
                None => index >= old(self).spec_order().len() && *final(self) == *old(self),
            },
            final(self).wf(),
    {
        if index < self.shapes.len() {
            let h = self.shapes[index];
            Some(&mut self.store[h.index])
        } else {
            None
        }
    }

    /// The draw list, back to front.
    pub fn z_order(&self) -> (r: Vec<ShapeHandle>)
        ensures
            r@ == self.spec_order(),
    {
        let mut r: Vec<ShapeHandle> = Vec::new();
        let mut i: usize = 0;
        while i < self.shapes.len()
            invariant
                i <= self.shapes@.len(),
                r@ == self.shapes@.take(i as int),
            decreases self.shapes@.len() - i,
        {
            r.push(self.shapes[i]);
            i = i + 1;
            assert(r@ =~= self.shapes@.take(i as int));
        }
        assert(r@ =~= self.shapes@);
        r
    }

    /// The widgets, in the order they are invoked.
    pub fn widgets(&self) -> (r: &Vec<AnyWidget>)
        ensures
            r@ == self.spec_widgets(),
    {
        &self.widgets
    }

    pub fn background(&self) -> (c: Color)
        ensures
            c == self.spec_background(),
    {
        self.background
    }

    pub fn set_background(&mut self, c: Color)
        requires
            old(self).wf(),
        ensures
            final(self).wf(),
            final(self).spec_background() == c,
            final(self).spec_order() == old(self).spec_order(),
            final(self).spec_store() == old(self).spec_store(),
            final(self).spec_widgets() == old(self).spec_widgets(),
            final(self).spec_layout() == old(self).spec_layout(),
    {
        self.background = c;
    }

    pub fn layout(&self) -> (l: PanelLayout)
        ensures
            l == self.spec_layout(),
    {
        self.layout
    }

    pub fn set_layout(&mut self, layout: PanelLayout)
        requires
            old(self).wf(),
        ensures
            final(self).wf(),
            final(self).spec_layout() == layout,
            final(self).spec_order() == old(self).spec_order(),
            final(self).spec_store() == old(self).spec_store(),
            final(self).spec_widgets() == old(self).spec_widgets(),
            final(self).spec_background() == old(self).spec_background(),
    {
        self.layout = layout;
    }

    /// Appends `w` after every widget the canvas has.
    pub fn add_widget(&mut self, w: AnyWidget)
        requires
            old(self).wf(),
        ensures
            final(self).wf(),
            final(self).spec_widgets() == old(self).spec_widgets().push(w),
            final(self).spec_order() == old(self).spec_order(),
            final(self).spec_store() == old(self).spec_store(),
            final(self).spec_background() == old(self).spec_background(),
            final(self).spec_layout() == old(self).spec_layout(),
    {
        self.widgets.push(w);
    }

    /// The paint commands of a render pass: the background, then every shape
    /// of the draw list, back to front.
    pub fn paint_list(&self) -> (r: Vec<PaintOp>)
        requires
            self.wf(),
        ensures
            views_of(r@) == self.spec_paint(),
    {
        let mut r: Vec<PaintOp> = Vec::new();
        r.push(PaintOp::Background(self.background));
        let mut i: usize = 0;
        assert(views_of(r@) =~= self.paint_for(self.shapes@.take(0)));
        while i < self.shapes.len()
            invariant
                self.wf(),
                i <= self.shapes@.len(),
                views_of(r@) == self.paint_for(self.shapes@.take(i as int)),
            decreases self.shapes@.len() - i,
        {
            let h = self.shapes[i];
            let op = self.store[h.index].draw();
            let ghost before = r@;
            r.push(op);
            proof {
                assert(self.shapes@.take(i + 1) =~= self.shapes@.take(i as int).push(h));
                assert(views_of(r@) =~= views_of(before).push(op@));
                assert(self.paint_for(self.shapes@.take(i + 1)) =~= self.paint_for(
                    self.shapes@.take(i as int),
                ).push(self.spec_shape(h).spec_draw_at(Offset { dx: 0, dy: 0 })));
            }
            i = i + 1;
        }
        assert(self.shapes@.take(i as int) =~= self.shapes@);
        r
    }

    /// Hands each widget, in order, its event of `events` (none, for those
    /// past the end of `events`), and appends the messages they emit to `out`.
    pub fn invoke_widgets(&mut self, events: &Vec<Interaction>, out: &mut Vec<WidgetMsg>)
        requires
            old(self).wf(),
        ensures
            final(self).wf(),
            final(self).spec_widgets() == widgets_after(old(self).spec_widgets(), events@),
            final(out)@ == old(out)@ + messages_of(old(self).spec_widgets(), events@),
            final(self).spec_order() == old(self).spec_order(),
            final(self).spec_store() == old(self).spec_store(),
            final(self).spec_background() == old(self).spec_background(),
            final(self).spec_layout() == old(self).spec_layout(),
    {
        let ghost ws = self.widgets@;
        let ghost out0 = out@;
        let ghost order0 = self.shapes@;
        let ghost store0 = self.store@;
        let mut i: usize = 0;
        while i < self.widgets.len()
            invariant
                self.wf(),
                i <= self.widgets@.len(),
                self.widgets@.len() == ws.len(),
                self.shapes@ == order0,
                self.store@ == store0,
                self.background == old(self).background,
                self.layout == old(self).layout,
                forall|k: int| 0 <= k < i ==> self.widgets@[k] == ws[k].spec_after(event_at(events@, k)),
                forall|k: int| i <= k < ws.len() ==> self.widgets@[k] == ws[k],
                out@ == out0 + messages_upto(ws, events@, i as nat),
            decreases self.widgets@.len() - i,
        {
            let event = if i < events.len() {
                events[i]
            } else {
                Interaction::Idle
            };
            self.widgets[i].invoke(event, out);
            assert(out@ =~= out0 + messages_upto(ws, events@, (i + 1) as nat));
            i = i + 1;
        }
        assert(self.widgets@ =~= widgets_after(ws, events@));
    }

    /// One frame's render pass: returns the paint commands of the background
    /// and of every shape, back to front, then invokes the widgets in order
    /// with what the host observed of each, appending their messages to
    /// `out`. The caller clears `out` before the pass and handles its
    /// messages after it; the pass itself never removes any.
    pub fn run(&mut self, events: &Vec<Interaction>, out: &mut Vec<WidgetMsg>) -> (r: Vec<PaintOp>)
        requires
            old(self).wf(),
        ensures
            final(self).wf(),
            views_of(r@) == old(self).spec_paint(),
            final(self).spec_widgets() == widgets_after(old(self).spec_widgets(), events@),
            final(out)@ == old(out)@ + messages_of(old(self).spec_widgets(), events@),
            final(self).spec_order() == old(self).spec_order(),
            final(self).spec_store() == old(self).spec_store(),
            final(self).spec_background() == old(self).spec_background(),
            final(self).spec_layout() == old(self).spec_layout(),
    {
        let r = self.paint_list();
        self.invoke_widgets(events, out);
        r
    }

    /// Takes the shape `h` off the draw list. Returns whether it was there;
    /// the shape stays in the arena either way.
    pub fn remove_shape(&mut self, h: ShapeHandle) -> (found: bool)
        requires
            old(self).wf(),
        ensures
            final(self).wf(),
            found == old(self).spec_order().contains(h),
            final(self).spec_order() == order_after_remove(old(self).spec_order(), h),
            final(self).spec_store() == old(self).spec_store(),
            final(self).spec_widgets() == old(self).spec_widgets(),
            final(self).spec_background() == old(self).spec_background(),
            final(self).spec_layout() == old(self).spec_layout(),
    {
        match self.position_of(h) {
            None => false,
            Some(i) => {
                let ghost before = self.shapes@;
                self.shapes.remove(i);
                proof {
                    lemma_remove_keeps_distinct(before, i as int);
                    assert forall|k: int| 0 <= k < self.shapes@.len() implies self.is_live(
                        #[trigger] self.shapes@[k],
                    ) by {
                        assert(self.shapes@.contains(self.shapes@[k]));
                    }
                }
                true
            },
        }
    }
}

/// In a well-formed canvas each shape stands on the draw list at most once,
/// and every handle on the list names a shape of the canvas.
pub proof fn lemma_wf_order(c: BasicCanvas)
    requires
        c.wf(),
    ensures
        c.spec_order().no_duplicates(),
        forall|k: int| 0 <= k < c.spec_order().len() ==> c.is_live(#[trigger] c.spec_order()[k]),
{
}

/// Adding distinct shapes of a canvas one after another to its empty draw
/// list makes a render pass paint them in the order they were added, the
/// first added at the bottom, over the background.
pub proof fn lemma_paints_in_insertion_order(c: BasicCanvas, hs: Seq<ShapeHandle>)
    requires
        c.wf(),
        c.spec_order().len() == 0,
        hs.no_duplicates(),
        forall|k: int| 0 <= k < hs.len() ==> c.is_live(#[trigger] hs[k]),
    ensures
        order_after_adds(c.spec_order(), hs) == hs,
        c.paint_for(hs).len() == hs.len() + 1,
        c.paint_for(hs)[0] == PaintView::Background(c.spec_background()),
        forall|k: int|
            0 <= k < hs.len() ==> c.paint_for(hs)[k + 1] == #[trigger] c.spec_shape(hs[k]).spec_draw_at(
                Offset { dx: 0, dy: 0 },
            ),
{
    assert(c.spec_order() =~= Seq::<ShapeHandle>::empty());
    lemma_adds_keep_insertion_order(hs);
}

/// After a shape on the draw list is put on top, a render pass paints it
/// last of all.
pub proof fn lemma_put_on_top_paints_last(c: BasicCanvas, h: ShapeHandle)
    requires
        c.wf(),
        c.spec_order().contains(h),
    ensures
        c.paint_for(order_after_put_on_top(c.spec_order(), h)).last() == c.spec_shape(h).spec_draw_at(
            Offset { dx: 0, dy: 0 },
        ),
{
    lemma_put_on_top_puts_last(c.spec_order(), h);
}

/// Two render passes with nothing changed in between, and nothing done to
/// any widget, paint the same commands and emit no message: `after` is the
/// canvas as the first pass leaves it.
pub proof fn lemma_render_is_idempotent(
    before: BasicCanvas,
    after: BasicCanvas,
    events: Seq<Interaction>,
)
    requires
        before.wf(),
        forall|j: int| 0 <= j < before.spec_widgets().len() ==> event_at(events, j) == Interaction::Idle,
        after.spec_order() == before.spec_order(),
        after.spec_store() == before.spec_store(),
        after.spec_background() == before.spec_background(),
        after.spec_widgets() == widgets_after(before.spec_widgets(), events),
    ensures
        after.spec_paint() == before.spec_paint(),
        after.spec_widgets() == before.spec_widgets(),
        messages_of(before.spec_widgets(), events) == Seq::<WidgetMsg>::empty(),
        messages_of(after.spec_widgets(), events) == Seq::<WidgetMsg>::empty(),
{
    lemma_idle_pass_emits_nothing(before.spec_widgets(), events);
    assert(after.paint_for(after.spec_order()) =~= before.paint_for(before.spec_order()));
}

} // verus!
