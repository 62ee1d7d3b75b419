use vstd::prelude::*;
use crate::context::AppState;
use crate::frame::{
    Drawn, Event, advance, dispatch, drawn_of, event_at, fires, frame, react_spec,
    walk_containers, walk_widget, walk_widgets,
};
use crate::widget::{Config, Container, Slider, Widget};

verus! {

/// Every report in `evs` says that nothing happened.
pub open spec fn all_idle(evs: Seq<Event>) -> bool {
    forall|i: int| 0 <= i < evs.len() ==> (#[trigger] evs[i]) is Idle
}

proof fn lemma_idle_widget(w: Widget, st: AppState, d: Seq<Drawn>, evs: Seq<Event>, k: int)
    requires
        all_idle(evs),
    ensures
        walk_widget(w, st, d, evs, k).state == st,
    decreases w,
{
    match w {
        Widget::HorizontalLayout(l) => {
            lemma_idle_widgets(l.widgets@, st, d.push(Drawn::HorizontalBegin), evs, k);
        },
        _ => {},
    }
}

proof fn lemma_idle_widgets(ws: Seq<Widget>, st: AppState, d: Seq<Drawn>, evs: Seq<Event>, k: int)
    requires
        all_idle(evs),
    ensures
        walk_widgets(ws, st, d, evs, k).state == st,
    decreases ws,
{
    if ws.len() > 0 {
        lemma_idle_widgets(ws.drop_last(), st, d, evs, k);
        let prev = walk_widgets(ws.drop_last(), st, d, evs, k);
        lemma_idle_widget(ws.last(), prev.state, prev.drawn, evs, prev.next);
    }
}

proof fn lemma_idle_containers(cs: Seq<Container>, st: AppState, d: Seq<Drawn>, evs: Seq<Event>, k: int)
    requires
        all_idle(evs),
    ensures
        walk_containers(cs, st, d, evs, k).state == st,
    decreases cs.len(),
{
    if cs.len() > 0 {
        lemma_idle_containers(cs.drop_last(), st, d, evs, k);
        let prev = walk_containers(cs.drop_last(), st, d, evs, k);
        match cs.last() {
            Container::CentralPanel(p) => {
                lemma_idle_widgets(p.widgets@, prev.state, prev.drawn.push(Drawn::PanelBegin), evs, prev.next);
            },
        }
    }
}

/// A frame in which nothing happens leaves the state as it was, so a second
/// such frame draws exactly what the first drew.
pub proof fn lemma_quiet_frame(c: Config, st: AppState, evs: Seq<Event>)
    requires
        all_idle(evs),
    ensures
        frame(c, st, evs).state == st,
        frame(c, frame(c, st, evs).state, evs) == frame(c, st, evs),
{
    lemma_idle_containers(c.containers@, st, seq![], evs, 0);
}

/// A widget other than a layout is drawn from the state before its own
/// command runs in the same frame; the command's effect shows from the next
/// widget on.
pub proof fn lemma_drawn_before_command(w: Widget, st: AppState, d: Seq<Drawn>, evs: Seq<Event>, k: int)
    requires
        !(w is HorizontalLayout),
    ensures
        walk_widget(w, st, d, evs, k).drawn == d.push(drawn_of(w, st)),
        walk_widget(w, st, d, evs, k).state == react_spec(w, event_at(evs, k), st),
{
}

/// A widget takes exactly one report per frame and runs its command at most
/// once on it.
pub proof fn lemma_one_dispatch(w: Widget, st: AppState, d: Seq<Drawn>, evs: Seq<Event>, k: int)
    requires
        !(w is HorizontalLayout),
        0 <= k,
    ensures
        walk_widget(w, st, d, evs, k).next == advance(evs, k),
        advance(evs, k) <= k + 1,
        fires(w, event_at(evs, k)) ==> walk_widget(w, st, d, evs, k).state == dispatch(w, event_at(evs, k), st),
        !fires(w, event_at(evs, k)) ==> walk_widget(w, st, d, evs, k).state == st,
{
}

/// A slider whose surface reports a value within its range sets the age to
/// exactly that value, whatever the state was.
pub proof fn lemma_slider_sets_value(s: Slider, v: u32, st: AppState)
    requires
        s.start <= v <= s.end,
    ensures
        react_spec(Widget::Slider(s), Event::Changed(v), st) == (AppState { age: v, ..st }),
{
}

} // verus!
