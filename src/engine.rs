use vstd::prelude::*;
use crate::context::HandlerContext;
use crate::frame::{Event, Render, drawn_view, frame, walk_containers};
use crate::widget::Config;

verus! {

/// The interpreter: an interface description and the state it owns.
pub struct Engine {
    pub config: Config,
    pub context: HandlerContext,
}

impl Engine {
    /// An interpreter over `config` that starts from `context`.
    pub fn new(config: Config, context: HandlerContext) -> (r: Engine)
        ensures
            r.config == config,
            r.context@ == context@,
    {
        Engine { config, context }
    }

    /// Runs one frame: walks every container in order, drawing each widget
    /// from the state as it stands and handing it the next of `events`.
    /// Returns what was drawn, in order.
    pub fn update(&mut self, events: &Vec<Event>) -> (drawn: Vec<Render>)
        ensures
            final(self).config == old(self).config,
            final(self).context@ == frame(old(self).config, old(self).context@, events@).state,
            drawn_view(drawn@) == frame(old(self).config, old(self).context@, events@).drawn,
    {
        let ghost st0 = self.context@;
        let mut drawn: Vec<Render> = Vec::new();
        proof {
            assert(drawn_view(drawn@) =~= seq![]);
        }
        let mut next: usize = 0;
        let mut i: usize = 0;
        while i < self.config.containers.len()
            invariant
                self.config == old(self).config,
                i <= self.config.containers@.len(),
                ({
                    let w = walk_containers(self.config.containers@.take(i as int), st0, seq![], events@, 0);
                    &&& self.context@ == w.state
                    &&& drawn_view(drawn@) == w.drawn
                    &&& next == w.next
                }),
            decreases self.config.containers@.len() - i,
        {
            proof {
                assert(self.config.containers@.take(i + 1).drop_last() =~= self.config.containers@.take(i as int));
            }
            next = self.context.update_container(&self.config.containers[i], events, next, &mut drawn);
            i = i + 1;
        }
        proof {
            assert(self.config.containers@.take(i as int) =~= self.config.containers@);
        }
        drawn
    }
}

} // verus!
