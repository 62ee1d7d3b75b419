use vstd::prelude::*;
use vstd::string::*;
use crate::context::{AppState, HandlerContext};
use crate::widget::{Config, Container, Widget};

verus! {

/// What the surface is asked to draw for one widget, or the bounds of a
/// grouping region.
#[derive(Debug, Clone, PartialEq, Eq)]
pub enum Render {
    PanelBegin,
    PanelEnd,
    HorizontalBegin,
    HorizontalEnd,
    Label { text: String },
    Slider { value: u32, start: u32, end: u32, text: String },
    Button { text: String },
    Image { uri: String },
    TextEdit { value: String },
}

/// A `Render` as mathematical values.
pub enum Drawn {
    PanelBegin,
    PanelEnd,
    HorizontalBegin,
    HorizontalEnd,
    Label(Seq<char>),
    Slider(u32, u32, u32, Seq<char>),
    Button(Seq<char>),
    Image(Seq<char>),
    TextEdit(Seq<char>),
}

impl View for Render {
    type V = Drawn;

    open spec fn view(&self) -> Drawn {
        match self {
            Render::PanelBegin => Drawn::PanelBegin,
            Render::PanelEnd => Drawn::PanelEnd,
            Render::HorizontalBegin => Drawn::HorizontalBegin,
            Render::HorizontalEnd => Drawn::HorizontalEnd,
            Render::Label { text } => Drawn::Label(text@),
            Render::Slider { value, start, end, text } => Drawn::Slider(*value, *start, *end, text@),
            Render::Button { text } => Drawn::Button(text@),
            Render::Image { uri } => Drawn::Image(uri@),
            Render::TextEdit { value } => Drawn::TextEdit(value@),
        }
    }
}

/// What the surface reported for one widget in a frame.
#[derive(Debug, Clone, PartialEq, Eq)]
pub enum Event {
    /// No interaction.
    Idle,
    /// A numeric control now shows this value.
    Changed(u32),
    /// An editable text now holds this text.
    Edited(String),
    /// The control was activated.
    Clicked,
}

/// The views of a sequence of renders.
pub open spec fn drawn_view(v: Seq<Render>) -> Seq<Drawn> {
    v.map_values(|r: Render| r@)
}

/// `v` brought into `start..=end`; a value below `start` gives `start`.
pub open spec fn clamp(v: u32, start: u32, end: u32) -> u32 {
    if v < start {
        start
    } else if v > end {
        end
    } else {
        v
    }
}

fn clamp_exec(v: u32, start: u32, end: u32) -> (r: u32)
    ensures
        r == clamp(v, start, end),
{
    if v < start {
        start
    } else if v > end {
        end
    } else {
        v
    }
}

/// The locator of an image file at `path`.
pub open spec fn file_uri(path: Seq<char>) -> Seq<char> {
    seq!['f', 'i', 'l', 'e', ':', '/', '/'] + path
}

/// What is drawn for a widget in state `st`; a layout opens its region.
pub open spec fn drawn_of(w: Widget, st: AppState) -> Drawn {
    match w {
        Widget::Label(l) => Drawn::Label(l.text.eval(st)),
        Widget::HorizontalLayout(_) => Drawn::HorizontalBegin,
        Widget::TextEdit(t) => Drawn::TextEdit(t.value.eval(st)),
        Widget::Slider(s) => Drawn::Slider(
            clamp(s.value.eval(st), s.start, s.end),
            s.start,
            s.end,
            s.text.eval(st),
        ),
        Widget::Button(b) => Drawn::Button(b.text.eval(st)),
        Widget::Image(i) => Drawn::Image(file_uri(i.src.eval(st))),
    }
}

/// Whether the report `ev` makes widget `w` run its command.
pub open spec fn fires(w: Widget, ev: Event) -> bool {
    match w {
        Widget::Slider(_) => ev is Changed,
        Widget::TextEdit(_) => ev is Edited,
        Widget::Button(_) => ev is Clicked,
        _ => false,
    }
}

/// The state after widget `w` ran its command once on the report `ev`.
/// A slider's value is brought into its range first.
pub open spec fn dispatch(w: Widget, ev: Event, st: AppState) -> AppState {
    match w {
        Widget::Slider(s) => match ev {
            Event::Changed(v) => s.on_change.apply(clamp(v, s.start, s.end), st),
            _ => st,
        },
        Widget::TextEdit(t) => match ev {
            Event::Edited(x) => t.on_change.apply(x@, st),
            _ => st,
        },
        Widget::Button(b) => b.on_click.apply(st),
        _ => st,
    }
}

/// The state after widget `w` got the report `ev`.
pub open spec fn react_spec(w: Widget, ev: Event, st: AppState) -> AppState {
    if fires(w, ev) {
        dispatch(w, ev, st)
    } else {
        st
    }
}

/// The report at position `k`; past the end of the reports, no interaction.
pub open spec fn event_at(evs: Seq<Event>, k: int) -> Event {
    if 0 <= k < evs.len() {
        evs[k]
    } else {
        Event::Idle
    }
}

/// The position of the next report.
pub open spec fn advance(evs: Seq<Event>, k: int) -> int {
    if k < evs.len() {
        k + 1
    } else {
        k
    }
}

/// Where a walk over part of the tree ends: the state, everything drawn so
/// far, and the position of the next report.
pub struct Walk {
    pub state: AppState,
    pub drawn: Seq<Drawn>,
    pub next: int,
}

/// The walk over one widget. Each widget other than a layout is drawn with the
/// state as it stands, then takes one report and may run its command.
pub open spec fn walk_widget(w: Widget, st: AppState, drawn: Seq<Drawn>, evs: Seq<Event>, k: int) -> Walk
    decreases w,
{
    match w {
        Widget::HorizontalLayout(l) => {
            let inner = walk_widgets(l.widgets@, st, drawn.push(Drawn::HorizontalBegin), evs, k);
            Walk { drawn: inner.drawn.push(Drawn::HorizontalEnd), ..inner }
        },
        _ => Walk {
            state: react_spec(w, event_at(evs, k), st),
            drawn: drawn.push(drawn_of(w, st)),
            next: advance(evs, k),
        },
    }
}

/// The walk over a sequence of widgets, in order.
pub open spec fn walk_widgets(ws: Seq<Widget>, st: AppState, drawn: Seq<Drawn>, evs: Seq<Event>, k: int) -> Walk
    decreases ws,
{
    if ws.len() == 0 {
        Walk { state: st, drawn, next: k }
    } else {
        let prev = walk_widgets(ws.drop_last(), st, drawn, evs, k);
        walk_widget(ws.last(), prev.state, prev.drawn, evs, prev.next)
    }
}

/// The walk over one container: its region, and its widgets inside.
pub open spec fn walk_container(c: Container, st: AppState, drawn: Seq<Drawn>, evs: Seq<Event>, k: int) -> Walk {
    match c {
        Container::CentralPanel(p) => {
            let inner = walk_widgets(p.widgets@, st, drawn.push(Drawn::PanelBegin), evs, k);
            Walk { drawn: inner.drawn.push(Drawn::PanelEnd), ..inner }
        },
    }
}

/// The walk over a sequence of containers, in order.
pub open spec fn walk_containers(cs: Seq<Container>, st: AppState, drawn: Seq<Drawn>, evs: Seq<Event>, k: int) -> Walk
    decreases cs.len(),
{
    if cs.len() == 0 {
        Walk { state: st, drawn, next: k }
    } else {
        let prev = walk_containers(cs.drop_last(), st, drawn, evs, k);
        walk_container(cs.last(), prev.state, prev.drawn, evs, prev.next)
    }
}

/// One frame over a whole configuration, from state `st`, with the reports
/// `evs` handed out one per widget other than a layout, in the order drawn.
pub open spec fn frame(c: Config, st: AppState, evs: Seq<Event>) -> Walk {
    walk_containers(c.containers@, st, seq![], evs, 0)
}

fn push_render(drawn: &mut Vec<Render>, r: Render)
    ensures
        drawn_view(final(drawn)@) == drawn_view(old(drawn)@).push(r@),
{
    let ghost r_view = r@;
    drawn.push(r);
    proof {
        assert(drawn_view(final(drawn)@) =~= drawn_view(old(drawn)@).push(r_view));
    }
}

impl HandlerContext {
    /// What to draw for `widget` in the current state; for a layout, the
    /// opening of its region.
    pub fn draw(&self, widget: &Widget) -> (r: Render)
        ensures
            r@ == drawn_of(*widget, self@),
    {
        match widget {
            Widget::Label(label) => Render::Label { text: label.text.as_string(self) },
            Widget::HorizontalLayout(_) => Render::HorizontalBegin,
            Widget::TextEdit(text_edit) => Render::TextEdit { value: text_edit.value.as_string(self) },
            Widget::Slider(slider) => {
                let value = slider.value.as_u32(self);
                Render::Slider {
                    value: clamp_exec(value, slider.start, slider.end),
                    start: slider.start,
                    end: slider.end,
                    text: slider.text.as_string(self),
                }
            },
            Widget::Button(button) => Render::Button { text: button.text.as_string(self) },
            Widget::Image(image) => {
                let mut uri = String::new();
                uri.append("file://");
                let path = image.src.as_string(self);
                uri.append(path.as_str());
                proof {
                    reveal_strlit("file://");
                    assert(uri@ =~= file_uri(image.src.eval(self@)));
                }
                Render::Image { uri }
            },
        }
    }

    /// Hands the surface's report for `widget` to it: runs the widget's
    /// command once when the report is the one that the widget acts on.
    pub fn react(&mut self, widget: &Widget, event: &Event)
        ensures
            final(self)@ == react_spec(*widget, *event, old(self)@),
    {
        match widget {
            Widget::Slider(slider) => {
                if let Event::Changed(v) = event {
                    let value = clamp_exec(*v, slider.start, slider.end);
                    slider.on_change.run(value, self);
                }
            },
            Widget::TextEdit(text_edit) => {
                if let Event::Edited(text) = event {
                    text_edit.on_change.run(text.clone(), self);
                }
            },
            Widget::Button(button) => {
                if let Event::Clicked = event {
                    button.on_click.run(self);
                }
            },
            _ => {},
        }
    }

    /// Walks `widget` for one frame: draws it into `drawn` from the state as
    /// it stands, then hands it the report at `pos` in `events`. Returns the
    /// position of the next report.
    pub fn update_widget(&mut self, widget: &Widget, events: &Vec<Event>, pos: usize, drawn: &mut Vec<Render>) -> (next: usize)
        ensures
            ({
                let w = walk_widget(*widget, old(self)@, drawn_view(old(drawn)@), events@, pos as int);
                &&& final(self)@ == w.state
                &&& drawn_view(final(drawn)@) == w.drawn
                &&& next == w.next
            }),
        decreases widget,
    {
        match widget {
            Widget::HorizontalLayout(layout) => {
                push_render(drawn, Render::HorizontalBegin);
                let next = self.update_widgets(&layout.widgets, events, pos, drawn);
                push_render(drawn, Render::HorizontalEnd);
                next
            },
            _ => {
                let r = self.draw(widget);
                push_render(drawn, r);
                if pos < events.len() {
                    self.react(widget, &events[pos]);
                    pos + 1
                } else {
                    pos
                }
            },
        }
    }

    /// Walks `widgets` in order for one frame, as `update_widget` walks each.
    pub fn update_widgets(&mut self, widgets: &Vec<Widget>, events: &Vec<Event>, pos: usize, drawn: &mut Vec<Render>) -> (next: usize)
        ensures
            ({
                let w = walk_widgets(widgets@, old(self)@, drawn_view(old(drawn)@), events@, pos as int);
                &&& final(self)@ == w.state
                &&& drawn_view(final(drawn)@) == w.drawn
                &&& next == w.next
            }),
        decreases widgets,
    {
        let ghost st0 = self@;
        let ghost d0 = drawn_view(drawn@);
        let mut next = pos;
        let mut i: usize = 0;
        while i < widgets.len()
            invariant
                i <= widgets@.len(),
                ({
                    let w = walk_widgets(widgets@.take(i as int), st0, d0, events@, pos as int);
                    &&& self@ == w.state
                    &&& drawn_view(drawn@) == w.drawn
                    &&& next == w.next
                }),
            decreases widgets@.len() - i,
        {
            proof {
                assert(widgets@.take(i + 1).drop_last() =~= widgets@.take(i as int));
            }
            next = self.update_widget(&widgets[i], events, next, drawn);
            i = i + 1;
        }
        proof {
            assert(widgets@.take(i as int) =~= widgets@);
        }
        next
    }

    /// Walks `container` for one frame: opens its region and walks its
    /// widgets inside.
    pub fn update_container(&mut self, container: &Container, events: &Vec<Event>, pos: usize, drawn: &mut Vec<Render>) -> (next: usize)
        ensures
            ({
                let w = walk_container(*container, old(self)@, drawn_view(old(drawn)@), events@, pos as int);
                &&& final(self)@ == w.state
                &&& drawn_view(final(drawn)@) == w.drawn
                &&& next == w.next
            }),
    {
        match container {
            Container::CentralPanel(panel) => {
                push_render(drawn, Render::PanelBegin);
                let next = self.update_widgets(&panel.widgets, events, pos, drawn);
                push_render(drawn, Render::PanelEnd);
                next
            },
        }
    }
}

} // verus!
