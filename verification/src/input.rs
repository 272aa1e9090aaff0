//! Dispatch: from an event to the messages it gives rise to.

use vstd::prelude::*;
use crate::event::Event;
use crate::input::handler::{messages_of, mode_after_action, Bindings, Context, Handler};
use crate::message::LumaMessage;
use crate::mode::{context_of, Mode};

pub mod handler;

verus! {

/// The messages that `event` gives rise to under the bindings `bound` in
/// `context`.
///
/// A tick always asks for a repaint and is never looked up: the screen is
/// to follow what happens outside the pipeline at least once a second.  A
/// key gives what its binding gives, and nothing if it has none.
pub open spec fn emitted(bound: Bindings, context: Context, event: Event) -> Seq<LumaMessage> {
    match event {
        Event::Tick => seq![LumaMessage::Redraw],
        Event::Key(key) => if bound.contains_key((context, key)) {
            messages_of(bound[(context, key)], context)
        } else {
            Seq::empty()
        },
    }
}

/// The mode that dispatching `event` leaves behind.
pub open spec fn mode_after(bound: Bindings, mode: Mode, event: Event) -> Mode {
    match event {
        Event::Tick => mode,
        Event::Key(key) => if bound.contains_key((context_of(mode), key)) {
            mode_after_action(bound[(context_of(mode), key)], mode)
        } else {
            mode
        },
    }
}

/// The mode that dispatching `events` one after the other leaves behind.
pub open spec fn mode_after_all(bound: Bindings, mode: Mode, events: Seq<Event>) -> Mode
    decreases events.len(),
{
    if events.len() == 0 {
        mode
    } else {
        mode_after(bound, mode_after_all(bound, mode, events.drop_last()), events.last())
    }
}

/// Dispatches one event: resolves it against the bindings of the current
/// mode, performs the action that is bound to it, and returns the messages
/// for the render task in the order in which they are to be sent.
///
/// A key without a binding in the current context is ignored: it gives no
/// message and leaves the mode as it is.
pub fn handle(event: Event, handler: &Handler, mode: &mut Mode) -> (msgs: Vec<LumaMessage>)
    ensures
        msgs@ == emitted(handler@, context_of(*old(mode)), event),
        *final(mode) == mode_after(handler@, *old(mode), event),
        context_of(*final(mode)) == context_of(*old(mode)),
        event matches Event::Key(key) && !handler@.contains_key((context_of(*old(mode)), key))
            ==> msgs@.len() == 0 && *final(mode) == *old(mode),
{
    match event {
        Event::Tick => vec![LumaMessage::Redraw],
        Event::Key(key) => {
            let context = mode.context();
            match handler.resolve(context, key) {
                Some(action) => action.run(mode),
                None => Vec::new(),
            }
        },
    }
}

/// Dispatches a run of events in the order given, against one mode.
///
/// The messages are those of the first event, then those of the second,
/// and so on: nothing is reordered, merged or left out, and an event
/// without messages leaves no gap.
pub fn handle_all(events: &[Event], handler: &Handler, mode: &mut Mode) -> (msgs: Vec<LumaMessage>)
    ensures
        msgs@ == events@.map_values(
            |event: Event| emitted(handler@, context_of(*old(mode)), event),
        ).flatten(),
        *final(mode) == mode_after_all(handler@, *old(mode), events@),
        context_of(*final(mode)) == context_of(*old(mode)),
{
    let ghost context = context_of(*mode);
    let ghost each = |event: Event| emitted(handler@, context, event);
    let mut msgs: Vec<LumaMessage> = Vec::new();
    let mut i: usize = 0;
    while i < events.len()
        invariant
            i <= events@.len(),
            context == context_of(*old(mode)),
            context == context_of(*mode),
            each == |event: Event| emitted(handler@, context, event),
            msgs@ == events@.take(i as int).map_values(each).flatten(),
            *mode == mode_after_all(handler@, *old(mode), events@.take(i as int)),
        decreases events@.len() - i,
    {
        let mut more = handle(events[i], handler, mode);
        msgs.append(&mut more);
        proof {
            let done = events@.take(i as int);
            let wider = events@.take(i as int + 1);
            assert(wider.drop_last() =~= done);
            assert(wider.map_values(each) =~= done.map_values(each).push(each(events@[i as int])));
            done.map_values(each).lemma_flatten_push(each(events@[i as int]));
        }
        i += 1;
    }
    proof {
        assert(events@.take(events@.len() as int) =~= events@);
    }
    msgs
}

} // verus!
