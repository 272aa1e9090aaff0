//! The three tasks and their two channels as one state machine, and what
//! holds of it however the tasks take turns.
//!
//! Nothing here runs.  A turn of a task is what the step functions of
//! `task` and `input` say it is; the channels are queues with a limit, and
//! a task that finds its channel full waits.

use vstd::prelude::*;
use crate::event::Event;
use crate::input::handler::{Bindings, Context};
use crate::input::{emitted, mode_after};
use crate::message::LumaMessage;
use crate::mode::{context_of, Mode};
use crate::task::{
    input_step_of, mode_after_render, render_step_of, InputStep, InputWake, RenderStep, Stop,
    EVENT_CAPACITY, MESSAGE_CAPACITY,
};

verus! {

/// The pipeline at one instant.
pub struct Pipeline {
    /// The shared interaction mode.
    pub mode: Mode,
    /// The events in the channel from input to dispatch, oldest first.
    pub inbound: Seq<Event>,
    /// The messages that the dispatch task has in hand and has not sent.
    pub unsent: Seq<LumaMessage>,
    /// The messages in the channel from dispatch to render, oldest first.
    pub outbound: Seq<LumaMessage>,
    /// The messages that the render task has taken, oldest first.
    pub taken: Seq<LumaMessage>,
    /// Why the input task has ended, once it has.
    pub input: Option<Stop>,
    /// Why the dispatch task has ended, once it has.
    pub dispatch: Option<Stop>,
    /// Why the render task has ended, once it has.
    pub render: Option<Stop>,
    /// Every event that the input task has sent, oldest first.
    pub published: Seq<Event>,
    /// For each event that the dispatch task has taken, the context it was
    /// resolved in.
    pub contexts: Seq<Context>,
}

/// Which task takes a turn.
pub enum Turn {
    /// The input task, woken by `InputWake`.
    Input(InputWake),
    /// The dispatch task, with whatever is ready for it.
    Dispatch,
    /// The dispatch task, after its idle limit has passed.
    DispatchIdle,
    /// The render task.
    Render,
}

/// The pipeline before any task has run.
pub open spec fn start(mode: Mode) -> Pipeline {
    Pipeline {
        mode,
        inbound: Seq::empty(),
        unsent: Seq::empty(),
        outbound: Seq::empty(),
        taken: Seq::empty(),
        input: None,
        dispatch: None,
        render: None,
        published: Seq::empty(),
        contexts: Seq::empty(),
    }
}

/// A turn of the input task.  Once the dispatch task is gone it ends; a
/// full channel makes it wait, with the event still to come.
pub open spec fn input_turn(p: Pipeline, wake: InputWake) -> Pipeline {
    if p.input is Some {
        p
    } else if p.dispatch is Some {
        Pipeline { input: Some(Stop::ReceiverGone), ..p }
    } else {
        match input_step_of(wake) {
            InputStep::Publish(event) => if p.inbound.len() < EVENT_CAPACITY {
                Pipeline {
                    inbound: p.inbound.push(event),
                    published: p.published.push(event),
                    ..p
                }
            } else {
                p
            },
            InputStep::Skip => p,
            InputStep::Stop(why) => if why == Stop::ReceiverGone {
                p
            } else {
                Pipeline { input: Some(why), ..p }
            },
        }
    }
}

/// A turn of the dispatch task.  It first sends what it has in hand, one
/// message a turn, and waits while the channel is full; then it takes the
/// next event.  It ends when the render task is gone, or when the input
/// task is gone and nothing is left to do.
pub open spec fn dispatch_turn(bound: Bindings, p: Pipeline) -> Pipeline {
    if p.dispatch is Some {
        p
    } else if p.render is Some {
        Pipeline { dispatch: Some(Stop::ReceiverGone), ..p }
    } else if p.unsent.len() > 0 {
        if p.outbound.len() < MESSAGE_CAPACITY {
            Pipeline {
                unsent: p.unsent.drop_first(),
                outbound: p.outbound.push(p.unsent.first()),
                ..p
            }
        } else {
            p
        }
    } else if p.inbound.len() > 0 {
        Pipeline {
            mode: mode_after(bound, p.mode, p.inbound.first()),
            inbound: p.inbound.drop_first(),
            unsent: emitted(bound, context_of(p.mode), p.inbound.first()),
            contexts: p.contexts.push(context_of(p.mode)),
            ..p
        }
    } else if p.input is Some {
        Pipeline { dispatch: Some(Stop::SourceEnded), ..p }
    } else {
        p
    }
}

/// The idle limit of the dispatch task passes.  With nothing in hand and
/// nothing to take the task ends, whatever the input task is doing.
pub open spec fn dispatch_idle(p: Pipeline) -> Pipeline {
    if p.dispatch is None && p.render is None && p.unsent.len() == 0 && p.inbound.len() == 0 {
        Pipeline { dispatch: Some(Stop::Idle), ..p }
    } else {
        p
    }
}

/// A turn of the render task.  It takes the oldest message, if there is
/// one, and ends on an exit message or when the dispatch task is gone and
/// the channel is drained.
pub open spec fn render_turn(p: Pipeline) -> Pipeline {
    if p.render is Some {
        p
    } else if p.outbound.len() > 0 {
        let msg = Some(p.outbound.first());
        Pipeline {
            mode: mode_after_render(p.mode, msg),
            outbound: p.outbound.drop_first(),
            taken: p.taken.push(p.outbound.first()),
            render: match render_step_of(msg) {
                RenderStep::Stop(why) => Some(why),
                _ => None,
            },
            ..p
        }
    } else if p.dispatch is Some {
        Pipeline {
            render: match render_step_of(None) {
                RenderStep::Stop(why) => Some(why),
                _ => None,
            },
            ..p
        }
    } else {
        p
    }
}

/// The pipeline after one turn.
pub open spec fn next(bound: Bindings, p: Pipeline, turn: Turn) -> Pipeline {
    match turn {
        Turn::Input(wake) => input_turn(p, wake),
        Turn::Dispatch => dispatch_turn(bound, p),
        Turn::DispatchIdle => dispatch_idle(p),
        Turn::Render => render_turn(p),
    }
}

/// The pipeline after the turns in `turns`, taken in order.
pub open spec fn run(bound: Bindings, p: Pipeline, turns: Seq<Turn>) -> Pipeline
    decreases turns.len(),
{
    if turns.len() == 0 {
        p
    } else {
        next(bound, run(bound, p, turns.drop_last()), turns.last())
    }
}

/// What each event that the dispatch task has taken gave rise to, in the
/// order in which the events were taken.
pub open spec fn outputs(bound: Bindings, p: Pipeline) -> Seq<Seq<LumaMessage>> {
    Seq::new(p.contexts.len(), |i: int| emitted(bound, p.contexts[i], p.published[i]))
}

/// Every message that the dispatch task has produced, oldest first.
pub open spec fn produced(bound: Bindings, p: Pipeline) -> Seq<LumaMessage> {
    outputs(bound, p).flatten()
}

/// What holds of the pipeline at every instant.
pub open spec fn ordered(bound: Bindings, p: Pipeline) -> bool {
    &&& p.contexts.len() <= p.published.len()
    &&& p.inbound == p.published.skip(p.contexts.len() as int)
    &&& p.taken + p.outbound + p.unsent == produced(bound, p)
    &&& p.inbound.len() <= EVENT_CAPACITY
    &&& p.outbound.len() <= MESSAGE_CAPACITY
    &&& (p.render matches Some(why) ==> why == Stop::Exit || why == Stop::SourceEnded)
    &&& (p.render == Some(Stop::Exit) ==> p.taken.len() > 0 && p.taken.last()
        == LumaMessage::Exit)
    &&& (p.render == Some(Stop::SourceEnded) ==> p.outbound.len() == 0 && p.dispatch is Some
        && p.dispatch != Some(Stop::ReceiverGone))
    &&& (p.render is None ==> forall|i: int| 0 <= i < p.taken.len() ==> p.taken[i]
        != LumaMessage::Exit)
    &&& (p.dispatch == Some(Stop::ReceiverGone) ==> p.render is Some)
    &&& (p.dispatch == Some(Stop::SourceEnded) ==> p.input is Some)
    &&& (p.dispatch is Some && p.dispatch != Some(Stop::ReceiverGone) ==> p.unsent.len() == 0
        && p.inbound.len() == 0)
}

proof fn lemma_take_event(bound: Bindings, p: Pipeline)
    requires
        ordered(bound, p),
        p.dispatch is None,
        p.render is None,
        p.unsent.len() == 0,
        p.inbound.len() > 0,
    ensures
        ordered(bound, dispatch_turn(bound, p)),
{
    let q = dispatch_turn(bound, p);
    let gave = emitted(bound, context_of(p.mode), p.inbound.first());
    assert(outputs(bound, q) =~= outputs(bound, p).push(gave));
    outputs(bound, p).lemma_flatten_push(gave);
    assert(q.inbound =~= q.published.skip(q.contexts.len() as int));
}

/// A turn leaves the pipeline in order.
pub proof fn lemma_next_ordered(bound: Bindings, p: Pipeline, turn: Turn)
    requires
        ordered(bound, p),
    ensures
        ordered(bound, next(bound, p, turn)),
{
    let q = next(bound, p, turn);
    match turn {
        Turn::Input(wake) => {
            assert(outputs(bound, q) =~= outputs(bound, p));
            if q.inbound != p.inbound {
                assert(q.inbound =~= q.published.skip(q.contexts.len() as int));
            }
        },
        Turn::Dispatch => {
            if p.dispatch is None && p.render is None {
                if p.unsent.len() > 0 {
                    if p.outbound.len() < MESSAGE_CAPACITY {
                        assert(q.taken + q.outbound + q.unsent =~= p.taken + p.outbound
                            + p.unsent);
                    }
                } else if p.inbound.len() > 0 {
                    lemma_take_event(bound, p);
                }
            }
        },
        Turn::DispatchIdle => {},
        Turn::Render => {
            if p.render is None && p.outbound.len() > 0 {
                assert(q.taken + q.outbound + q.unsent =~= p.taken + p.outbound + p.unsent);
            }
        },
    }
}

/// Messages reach the render task in the order in which they were
/// produced, and none is lost on the way: whatever turns the tasks have
/// taken from the start, what the render task has taken, then what waits
/// in the channel, then what the dispatch task has in hand, is the
/// messages of the first event, then those of the second, and so on.
/// Events are dispatched in the order in which they were published.
pub proof fn lemma_fifo(bound: Bindings, mode: Mode, turns: Seq<Turn>)
    ensures
        ({
            let p = run(bound, start(mode), turns);
            &&& ordered(bound, p)
            &&& p.taken + p.outbound + p.unsent == outputs(bound, p).flatten()
            &&& outputs(bound, p).len() == p.contexts.len() <= p.published.len()
            &&& forall|i: int|
                0 <= i < p.contexts.len() ==> #[trigger] outputs(bound, p)[i] == emitted(
                    bound,
                    p.contexts[i],
                    p.published[i],
                )
            &&& p.published == p.published.take(p.contexts.len() as int) + p.inbound
        }),
    decreases turns.len(),
{
    if turns.len() > 0 {
        lemma_fifo(bound, mode, turns.drop_last());
        lemma_next_ordered(bound, run(bound, start(mode), turns.drop_last()), turns.last());
    }
    let p = run(bound, start(mode), turns);
    assert(p.published =~= p.published.take(p.contexts.len() as int) + p.inbound);
}

/// An event gives rise to at most one message.
pub proof fn lemma_emitted_short(bound: Bindings, context: Context, event: Event)
    ensures
        emitted(bound, context, event).len() <= 1,
{
}

/// A full channel makes the dispatch task wait, message in hand: its turn
/// changes nothing, so nothing is dropped or overtaken.  Once the render
/// task has taken a message without ending, the next turn of the dispatch
/// task puts the waiting message at the back of the channel.
pub proof fn lemma_backpressure(bound: Bindings, p: Pipeline)
    requires
        ordered(bound, p),
        p.dispatch is None,
        p.render is None,
        p.unsent.len() > 0,
        p.outbound.len() == MESSAGE_CAPACITY,
    ensures
        dispatch_turn(bound, p) == p,
        render_turn(p).render is None ==> dispatch_turn(bound, render_turn(p)).outbound
            == p.outbound.drop_first().push(p.unsent.first()) && dispatch_turn(
            bound,
            render_turn(p),
        ).unsent == p.unsent.drop_first(),
{
}

/// The turns of `rounds` rounds in which the dispatch task and then the
/// render task take a turn each.
pub open spec fn rounds_of(rounds: nat) -> Seq<Turn>
    decreases rounds,
{
    if rounds == 0 {
        Seq::empty()
    } else {
        rounds_of((rounds - 1) as nat).push(Turn::Dispatch).push(Turn::Render)
    }
}

/// A bound on the rounds that the dispatch and render tasks still need
/// once the input task has ended.
pub open spec fn effort(p: Pipeline) -> nat {
    let dispatch = if p.dispatch is None {
        3 * p.inbound.len() + 2 * p.unsent.len() + 1
    } else {
        0
    };
    let render = if p.render is None {
        p.outbound.len() + 1
    } else {
        0
    };
    (dispatch + render) as nat
}

proof fn lemma_round(bound: Bindings, p: Pipeline)
    requires
        ordered(bound, p),
        p.input is Some,
    ensures
        ({
            let q = render_turn(dispatch_turn(bound, p));
            &&& ordered(bound, q)
            &&& q.input is Some
            &&& effort(p) > 0 ==> effort(q) < effort(p)
            &&& effort(p) == 0 ==> q == p
        }),
{
    let d = dispatch_turn(bound, p);
    lemma_next_ordered(bound, p, Turn::Dispatch);
    lemma_next_ordered(bound, d, Turn::Render);
    if p.dispatch is None && p.render is None && p.unsent.len() == 0 && p.inbound.len() > 0 {
        lemma_emitted_short(bound, context_of(p.mode), p.inbound.first());
    }
}

proof fn lemma_rounds(bound: Bindings, p: Pipeline, rounds: nat)
    requires
        ordered(bound, p),
        p.input is Some,
    ensures
        ({
            let q = run(bound, p, rounds_of(rounds));
            &&& ordered(bound, q)
            &&& q.input is Some
            &&& effort(q) + rounds <= effort(p) || effort(q) == 0
        }),
    decreases rounds,
{
    if rounds > 0 {
        let before = rounds_of((rounds - 1) as nat);
        let turns = rounds_of(rounds);
        lemma_rounds(bound, p, (rounds - 1) as nat);
        let mid = run(bound, p, before);
        let half = before.push(Turn::Dispatch);
        assert(turns.drop_last() =~= half);
        assert(half.drop_last() =~= before);
        assert(run(bound, p, turns) == render_turn(run(bound, p, half)));
        lemma_round(bound, mid);
    }
}

/// Shutdown runs through the pipeline.  Once the terminal stream has
/// ended, a bounded number of rounds of the other two tasks ends both of
/// them, whatever the channels held and however the tasks had taken turns
/// before.  If the render task ends because its channel ran dry, every
/// event that was published has been dispatched and every message that
/// was produced has been taken.  Otherwise it ends on an exit message, and
/// that message is the last one it took.
pub proof fn lemma_winds_down(bound: Bindings, p: Pipeline)
    requires
        ordered(bound, p),
    ensures
        ({
            let closed = next(bound, p, Turn::Input(InputWake::EndOfStream));
            let q = run(bound, closed, rounds_of(effort(closed)));
            &&& closed.input is Some
            &&& q.input is Some && q.dispatch is Some && q.render is Some
            &&& ordered(bound, q)
            &&& q.render == Some(Stop::SourceEnded) || q.render == Some(Stop::Exit)
            &&& q.render == Some(Stop::SourceEnded) ==> q.inbound.len() == 0 && q.unsent.len() == 0
                && q.outbound.len() == 0 && q.contexts.len() == q.published.len() && q.taken
                == produced(bound, q)
            &&& q.render == Some(Stop::Exit) ==> q.taken.len() > 0 && q.taken.last()
                == LumaMessage::Exit
        }),
{
    let closed = next(bound, p, Turn::Input(InputWake::EndOfStream));
    lemma_next_ordered(bound, p, Turn::Input(InputWake::EndOfStream));
    lemma_rounds(bound, closed, effort(closed));
}

/// The dispatch task gives up when it has been idle for its limit, even
/// though the input task is still there.  This is meant: a stalled input
/// task must not keep the pipeline alive.
pub proof fn lemma_idle_ends_dispatch(p: Pipeline)
    requires
        p.input is None,
        p.dispatch is None,
        p.render is None,
        p.unsent.len() == 0,
        p.inbound.len() == 0,
    ensures
        dispatch_idle(p).dispatch == Some(Stop::Idle),
        dispatch_idle(p).mode == p.mode,
        dispatch_idle(p).taken == p.taken,
        dispatch_idle(p).outbound == p.outbound,
{
}

} // verus!
