//! One turn of each of the three tasks.
//!
//! A task waits, elsewhere, for whatever wakes it next; what it does about
//! it is decided here.  The program around this crate runs the loops: it
//! waits, hands over what woke the task, and carries out the step that
//! comes back.

use vstd::prelude::*;
use tokio::sync::oneshot::Sender;
use crate::event::key::{decoded, Key, KeyPress};
use crate::event::Event;
use crate::input::handler::Handler;
use crate::input::{emitted, handle, mode_after};
use crate::message::{LumaMessage, QuestionComponents};
use crate::mode::{context_of, Mode};

verus! {

/// Seconds of terminal silence after which the input task publishes a tick.
pub const TICK_SECONDS: u64 = 1;

/// Seconds without an event after which the dispatch task gives up.
pub const IDLE_SECONDS: u64 = 2;

/// Capacity of the channel from the input task to the dispatch task.
pub const EVENT_CAPACITY: usize = 16;

/// Capacity of the channel from the dispatch task to the render task.
pub const MESSAGE_CAPACITY: usize = 32;

/// Why a task ends.  None of these is a failure.
#[derive(PartialEq, Eq, Clone, Copy, Hash, Debug, Structural)]
pub enum Stop {
    /// What the task reads from has ended: the terminal stream for the
    /// input task, the incoming channel for the other two.
    SourceEnded,
    /// Nobody receives what the task sends.
    ReceiverGone,
    /// The dispatch task heard nothing for `IDLE_SECONDS`.  It then takes
    /// the input task for stalled and ends the pipeline on its own.
    Idle,
    /// The render task was told to exit.
    Exit,
}

/// Something the terminal reported.
#[derive(PartialEq, Eq, Clone, Copy, Hash, Debug, Structural)]
pub enum TerminalInput {
    Key(KeyPress),
    /// Anything that is no keypress: mouse, resize, focus, paste.
    Other,
}

/// What woke the input task.
#[derive(PartialEq, Eq, Clone, Copy, Hash, Debug, Structural)]
pub enum InputWake {
    /// The dispatch task no longer receives.  A failed send counts as this.
    ReceiverGone,
    /// The terminal was silent for `TICK_SECONDS`.
    Silence,
    /// The terminal reported something.
    Terminal(TerminalInput),
    /// The terminal stream has ended.
    EndOfStream,
}

/// What the input task does next.
#[derive(PartialEq, Eq, Clone, Copy, Hash, Debug, Structural)]
pub enum InputStep {
    /// Send the event, then wait again.
    Publish(Event),
    /// Wait again.
    Skip,
    /// Leave the loop and release the terminal.
    Stop(Stop),
}

/// The step that the input task takes on `wake`.
pub open spec fn input_step_of(wake: InputWake) -> InputStep {
    match wake {
        InputWake::ReceiverGone => InputStep::Stop(Stop::ReceiverGone),
        InputWake::Silence => InputStep::Publish(Event::Tick),
        InputWake::Terminal(TerminalInput::Key(press)) => InputStep::Publish(
            Event::Key(decoded(press)),
        ),
        InputWake::Terminal(TerminalInput::Other) => InputStep::Skip,
        InputWake::EndOfStream => InputStep::Stop(Stop::SourceEnded),
    }
}

/// One turn of the input task.  Silence becomes a tick, a keypress its
/// key, anything else the terminal reports is passed over, and the task
/// ends when the terminal stream does or when nobody listens.
pub fn input_step(wake: InputWake) -> (step: InputStep)
    ensures
        step == input_step_of(wake),
{
    match wake {
        InputWake::ReceiverGone => InputStep::Stop(Stop::ReceiverGone),
        InputWake::Silence => InputStep::Publish(Event::Tick),
        InputWake::Terminal(TerminalInput::Key(press)) => InputStep::Publish(
            Event::Key(Key::from(press)),
        ),
        InputWake::Terminal(TerminalInput::Other) => InputStep::Skip,
        InputWake::EndOfStream => InputStep::Stop(Stop::SourceEnded),
    }
}

/// What woke the dispatch task.
#[derive(PartialEq, Eq, Clone, Copy, Hash, Debug, Structural)]
pub enum DispatchWake {
    /// The render task no longer receives.  A failed send counts as this.
    ReceiverGone,
    /// Nothing came in for `IDLE_SECONDS`.
    Silence,
    /// An event came in.
    Inbound(Event),
    /// The input task is gone and its channel is drained.
    InboundClosed,
}

/// What the dispatch task does next.
#[derive(Debug)]
pub enum DispatchStep {
    /// Send these messages in order, then wait again.
    Forward(Vec<LumaMessage>),
    /// Leave the loop.
    Stop(Stop),
}

/// One turn of the dispatch task.  An event is dispatched and its messages
/// are handed out for sending; on anything else the task ends and the mode
/// stays as it is.
pub fn dispatch_step(wake: DispatchWake, handler: &Handler, mode: &mut Mode) -> (step:
    DispatchStep)
    ensures
        match wake {
            DispatchWake::Inbound(event) => step matches DispatchStep::Forward(msgs) && msgs@
                == emitted(handler@, context_of(*old(mode)), event) && *final(mode) == mode_after(
                handler@,
                *old(mode),
                event,
            ),
            DispatchWake::ReceiverGone => step == DispatchStep::Stop(Stop::ReceiverGone)
                && *final(mode) == *old(mode),
            DispatchWake::Silence => step == DispatchStep::Stop(Stop::Idle) && *final(mode) == *old(
                mode,
            ),
            DispatchWake::InboundClosed => step == DispatchStep::Stop(Stop::SourceEnded)
                && *final(mode) == *old(mode),
        },
{
    match wake {
        DispatchWake::Inbound(event) => DispatchStep::Forward(handle(event, handler, mode)),
        DispatchWake::ReceiverGone => DispatchStep::Stop(Stop::ReceiverGone),
        DispatchWake::Silence => DispatchStep::Stop(Stop::Idle),
        DispatchWake::InboundClosed => DispatchStep::Stop(Stop::SourceEnded),
    }
}

/// What the render task does next.
#[derive(Debug)]
pub enum RenderStep {
    /// Paint the links and the mode as they are now.
    Paint,
    /// Give up the terminal, put the question, send the answer on the
    /// channel, and take the terminal back.
    Ask(QuestionComponents, Sender<String>),
    /// Leave the loop.
    Stop(Stop),
}

/// The step that the render task takes on `msg`; `None` stands for a
/// channel that is closed and drained.
pub open spec fn render_step_of(msg: Option<LumaMessage>) -> RenderStep {
    match msg {
        Some(LumaMessage::Redraw) => RenderStep::Paint,
        Some(LumaMessage::Exit) => RenderStep::Stop(Stop::Exit),
        Some(LumaMessage::SetMode(_)) => RenderStep::Paint,
        Some(LumaMessage::AskQuestion(question, reply)) => RenderStep::Ask(question, reply),
        None => RenderStep::Stop(Stop::SourceEnded),
    }
}

/// The mode after the render task has taken `msg`: only a mode change
/// writes it, and it replaces the mode whole.
pub open spec fn mode_after_render(mode: Mode, msg: Option<LumaMessage>) -> Mode {
    match msg {
        Some(LumaMessage::SetMode(next)) => next,
        _ => mode,
    }
}

/// One turn of the render task.
pub fn render_step(msg: Option<LumaMessage>, mode: &mut Mode) -> (step: RenderStep)
    ensures
        step == render_step_of(msg),
        *final(mode) == mode_after_render(*old(mode), msg),
{
    match msg {
        Some(LumaMessage::Redraw) => RenderStep::Paint,
        Some(LumaMessage::Exit) => RenderStep::Stop(Stop::Exit),
        Some(LumaMessage::SetMode(next)) => {
            *mode = next;
            RenderStep::Paint
        },
        Some(LumaMessage::AskQuestion(question, reply)) => RenderStep::Ask(question, reply),
        None => RenderStep::Stop(Stop::SourceEnded),
    }
}

/// Sends the user's answer to whoever asked.  If they no longer wait for
/// it, the answer comes back; the render task goes on either way.
pub fn deliver(reply: Sender<String>, answer: String) -> (sent: Result<(), String>)
    ensures
        sent matches Err(back) ==> back == answer,
{
    reply.send(answer)
}

} // verus!
