//! Widgets: interactive controls that report what the user did with them as
//! typed messages.
//!
//! The host user interface draws each control and tells the widget, as an
//! `Interaction`, what happened to it this frame; the widget updates its own
//! state and appends at most one message to the frame's outgoing list.
use vstd::prelude::*;

verus! {

/// What the host user interface observed of one widget during one frame.
#[derive(PartialEq, Eq, Structural, Clone, Copy, Debug)]
pub enum Interaction {
    /// Nothing happened.
    Idle,
    /// The control was clicked.
    Clicked,
    /// The control's value was dragged or slid to a new value.
    Changed(i64),
}

/// Identifies a button in the messages it emits.
#[derive(PartialEq, Eq, Structural, Clone, Copy, Debug)]
pub struct ButtonId(pub u32);

/// Identifies a slider in the messages it emits.
#[derive(PartialEq, Eq, Structural, Clone, Copy, Debug)]
pub struct SliderId(pub u32);

/// Identifies a drag value in the messages it emits.
#[derive(PartialEq, Eq, Structural, Clone, Copy, Debug)]
pub struct DragFloatId(pub u32);

/// A message emitted by a widget during a render pass, for the application
/// to handle once the pass is over.
#[derive(PartialEq, Eq, Structural, Clone, Copy, Debug)]
pub enum WidgetMsg {
    ButtonClicked(ButtonId),
    SliderChanged(SliderId, i64),
    DragFloatChanged(DragFloatId, i64),
}

/// The sequence holding the message of `m`, if there is one.
pub open spec fn message_seq(m: Option<WidgetMsg>) -> Seq<WidgetMsg> {
    match m {
        Some(msg) => seq![msg],
        None => Seq::empty(),
    }
}

/// An interactive control.
pub trait Widget: Sized {
    /// The message this widget emits when `event` happens to it, if any.
    spec fn spec_message(&self, event: Interaction) -> Option<WidgetMsg>;

    /// This widget once `event` has happened to it.
    spec fn spec_after(&self, event: Interaction) -> Self;

    /// Handles what happened to this widget in this frame: updates its
    /// state and appends its message, if any, to `out`.
    fn invoke(&mut self, event: Interaction, out: &mut Vec<WidgetMsg>)
        ensures
            *final(self) == old(self).spec_after(event),
            final(out)@ == old(out)@ + message_seq(old(self).spec_message(event)),
    ;
}

/// A push button that reports clicks.
#[derive(Debug)]
pub struct Button {
    pub id: ButtonId,
    pub width: u32,
    pub height: u32,
    pub label: String,
}

impl Button {
    pub fn new(id: ButtonId, width: u32, height: u32, label: String) -> (b: Button)
        ensures
            b.id == id,
            b.width == width,
            b.height == height,
            b.label@ == label@,
    {
        Button { id, width, height, label }
    }
}

impl Widget for Button {
    open spec fn spec_message(&self, event: Interaction) -> Option<WidgetMsg> {
        match event {
            Interaction::Clicked => Some(WidgetMsg::ButtonClicked(self.id)),
            _ => None,
        }
    }

    open spec fn spec_after(&self, event: Interaction) -> Button {
        *self
    }

    fn invoke(&mut self, event: Interaction, out: &mut Vec<WidgetMsg>) {
        if let Interaction::Clicked = event {
            out.push(WidgetMsg::ButtonClicked(self.id));
        }
    }
}

/// A slider over the range `min..=max`; the host keeps the value it reports
/// within that range.
#[derive(Debug)]
pub struct Slider {
    pub id: SliderId,
    pub value: i64,
    pub min: i64,
    pub max: i64,
    pub label: String,
}

impl Slider {
    pub fn new(id: SliderId, value: i64, min: i64, max: i64, label: String) -> (s: Slider)
        ensures
            s.id == id,
            s.value == value,
            s.min == min,
            s.max == max,
            s.label@ == label@,
    {
        Slider { id, value, min, max, label }
    }
}

impl Widget for Slider {
    open spec fn spec_message(&self, event: Interaction) -> Option<WidgetMsg> {
        match event {
            Interaction::Changed(v) => Some(WidgetMsg::SliderChanged(self.id, v)),
            _ => None,
        }
    }

    open spec fn spec_after(&self, event: Interaction) -> Slider {
        match event {
            Interaction::Changed(v) => Slider { value: v, ..*self },
            _ => *self,
        }
    }

    fn invoke(&mut self, event: Interaction, out: &mut Vec<WidgetMsg>) {
        if let Interaction::Changed(v) = event {
            self.value = v;
            out.push(WidgetMsg::SliderChanged(self.id, v));
        }
    }
}

/// A value changed by dragging; it reports the new value when a drag
/// changed it.
#[derive(Debug)]
pub struct DragFloat {
    pub id: DragFloatId,
    pub value: i64,
    pub label: String,
}

impl DragFloat {
    pub fn new(id: DragFloatId, value: i64, label: String) -> (d: DragFloat)
        ensures
            d.id == id,
            d.value == value,
            d.label@ == label@,
    {
        DragFloat { id, value, label }
    }
}

impl Widget for DragFloat {
    open spec fn spec_message(&self, event: Interaction) -> Option<WidgetMsg> {
        match event {
            Interaction::Changed(v) => Some(WidgetMsg::DragFloatChanged(self.id, v)),
            _ => None,
        }
    }

    open spec fn spec_after(&self, event: Interaction) -> DragFloat {
        match event {
            Interaction::Changed(v) => DragFloat { value: v, ..*self },
            _ => *self,
        }
    }

    fn invoke(&mut self, event: Interaction, out: &mut Vec<WidgetMsg>) {
        if let Interaction::Changed(v) = event {
            self.value = v;
            out.push(WidgetMsg::DragFloatChanged(self.id, v));
        }
    }
}

/// Empty room between two widgets; it never emits anything.
#[derive(PartialEq, Eq, Structural, Clone, Copy, Debug)]
pub struct Space {
    pub amount: u32,
}

impl Space {
    pub fn new(amount: u32) -> (s: Space)
        ensures
            s.amount == amount,
    {
        Space { amount }
    }
}

impl Widget for Space {
    open spec fn spec_message(&self, event: Interaction) -> Option<WidgetMsg> {
        None
    }

    open spec fn spec_after(&self, event: Interaction) -> Space {
        *self
    }

    fn invoke(&mut self, event: Interaction, out: &mut Vec<WidgetMsg>) {
    }
}

/// A widget of any of the four kinds, as a canvas stores it.
#[derive(Debug)]
pub enum AnyWidget {
    Button(Button),
    Slider(Slider),
    DragFloat(DragFloat),
    Space(Space),
}

impl Widget for AnyWidget {
    open spec fn spec_message(&self, event: Interaction) -> Option<WidgetMsg> {
        match *self {
            AnyWidget::Button(w) => w.spec_message(event),
            AnyWidget::Slider(w) => w.spec_message(event),
            AnyWidget::DragFloat(w) => w.spec_message(event),
            AnyWidget::Space(w) => w.spec_message(event),
        }
    }

    open spec fn spec_after(&self, event: Interaction) -> AnyWidget {
        match *self {
            AnyWidget::Button(w) => AnyWidget::Button(w.spec_after(event)),
            AnyWidget::Slider(w) => AnyWidget::Slider(w.spec_after(event)),
            AnyWidget::DragFloat(w) => AnyWidget::DragFloat(w.spec_after(event)),
            AnyWidget::Space(w) => AnyWidget::Space(w.spec_after(event)),
        }
    }

    fn invoke(&mut self, event: Interaction, out: &mut Vec<WidgetMsg>) {
        match self {
            AnyWidget::Button(w) => w.invoke(event, out),
            AnyWidget::Slider(w) => w.invoke(event, out),
            AnyWidget::DragFloat(w) => w.invoke(event, out),
            AnyWidget::Space(w) => w.invoke(event, out),
        }
    }
}

/// What happened to the `i`-th widget: the `i`-th event, or nothing when
/// the host reported fewer events than there are widgets.
pub open spec fn event_at(events: Seq<Interaction>, i: int) -> Interaction {
    if 0 <= i < events.len() {
        events[i]
    } else {
        Interaction::Idle
    }
}

/// The widgets `ws` once each has handled its event of `events`.
pub open spec fn widgets_after(ws: Seq<AnyWidget>, events: Seq<Interaction>) -> Seq<AnyWidget> {
    Seq::new(ws.len(), |i: int| ws[i].spec_after(event_at(events, i)))
}

/// The messages that the first `n` widgets of `ws` emit for `events`, in
/// widget order.
pub open spec fn messages_upto(ws: Seq<AnyWidget>, events: Seq<Interaction>, n: nat) -> Seq<
    WidgetMsg,
>
    decreases n,
{
    if n == 0 {
        Seq::empty()
    } else {
        messages_upto(ws, events, (n - 1) as nat) + message_seq(
            ws[n - 1].spec_message(event_at(events, n - 1)),
        )
    }
}

/// The messages that all of `ws` emit for `events`, in widget order.
pub open spec fn messages_of(ws: Seq<AnyWidget>, events: Seq<Interaction>) -> Seq<WidgetMsg> {
    messages_upto(ws, events, ws.len())
}

/// A widget that emits nothing and keeps its state when nothing happens to it.
pub proof fn lemma_idle_is_inert(w: AnyWidget)
    ensures
        w.spec_message(Interaction::Idle) == None::<WidgetMsg>,
        w.spec_after(Interaction::Idle) == w,
{
}

/// When nothing happens to any widget, no widget changes and no message is
/// emitted.
pub proof fn lemma_idle_pass_emits_nothing(ws: Seq<AnyWidget>, events: Seq<Interaction>)
    requires
        forall|j: int| 0 <= j < ws.len() ==> event_at(events, j) == Interaction::Idle,
    ensures
        widgets_after(ws, events) == ws,
        messages_of(ws, events) == Seq::<WidgetMsg>::empty(),
{
    assert forall|j: int| 0 <= j < ws.len() implies #[trigger] ws[j].spec_after(event_at(events, j))
        == ws[j] by {
        lemma_idle_is_inert(ws[j]);
    }
    assert(widgets_after(ws, events) =~= ws);
    lemma_idle_prefix_emits_nothing(ws, events, ws.len());
}

proof fn lemma_idle_prefix_emits_nothing(ws: Seq<AnyWidget>, events: Seq<Interaction>, n: nat)
    requires
        n <= ws.len(),
        forall|j: int| 0 <= j < ws.len() ==> event_at(events, j) == Interaction::Idle,
    ensures
        messages_upto(ws, events, n) == Seq::<WidgetMsg>::empty(),
    decreases n,
{
    if n > 0 {
        lemma_idle_prefix_emits_nothing(ws, events, (n - 1) as nat);
        lemma_idle_is_inert(ws[n - 1]);
        assert(messages_upto(ws, events, n) =~= Seq::<WidgetMsg>::empty());
    }
}

/// A pass in which one button is clicked and nothing happens to any other
/// widget emits exactly one message: that the button with its own id was
/// clicked.
pub proof fn lemma_click_emits_one_message(ws: Seq<AnyWidget>, events: Seq<Interaction>, i: int)
    requires
        0 <= i < ws.len(),
        ws[i] is Button,
        event_at(events, i) == Interaction::Clicked,
        forall|j: int| 0 <= j < ws.len() && j != i ==> event_at(events, j) == Interaction::Idle,
    ensures
        messages_of(ws, events) == seq![WidgetMsg::ButtonClicked(ws[i]->Button_0.id)],
{
    lemma_click_prefix(ws, events, i, ws.len());
}

proof fn lemma_click_prefix(ws: Seq<AnyWidget>, events: Seq<Interaction>, i: int, n: nat)
    requires
        0 <= i < ws.len(),
        n <= ws.len(),
        ws[i] is Button,
        event_at(events, i) == Interaction::Clicked,
        forall|j: int| 0 <= j < ws.len() && j != i ==> event_at(events, j) == Interaction::Idle,
    ensures
        n <= i ==> messages_upto(ws, events, n) == Seq::<WidgetMsg>::empty(),
        n > i ==> messages_upto(ws, events, n) == seq![WidgetMsg::ButtonClicked(ws[i]->Button_0.id)],
    decreases n,
{
    if n > 0 {
        lemma_click_prefix(ws, events, i, (n - 1) as nat);
        if n - 1 != i {
            lemma_idle_is_inert(ws[n - 1]);
        }
        assert(messages_upto(ws, events, n) =~= messages_upto(ws, events, (n - 1) as nat)
            + message_seq(ws[n - 1].spec_message(event_at(events, n - 1))));
        if n - 1 == i {
            assert(messages_upto(ws, events, n) =~= seq![WidgetMsg::ButtonClicked(ws[i]->Button_0.id)]);
        } else if n > i {
            assert(messages_upto(ws, events, n) =~= seq![WidgetMsg::ButtonClicked(ws[i]->Button_0.id)]);
        } else {
            assert(messages_upto(ws, events, n) =~= Seq::<WidgetMsg>::empty());
        }
    }
}

} // verus!
