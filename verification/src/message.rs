//! What the dispatch task tells the render task.

use vstd::prelude::*;
use tokio::sync::oneshot::Sender;
use crate::mode::Mode;

verus! {

/// How a question is put to the user.
#[derive(PartialEq, Eq, Clone, Copy, Hash, Debug, Structural)]
pub enum QuestionType {
    Editor,
}

/// A question for the user that takes free text as its answer.
#[derive(Debug)]
pub struct QuestionComponents {
    pub name: String,
    pub question: QuestionType,
    pub default: String,
}

/// An instruction for the render task.
#[derive(Debug)]
pub enum LumaMessage {
    /// Paint again.
    Redraw,
    /// Stop consuming messages.
    Exit,
    /// Replace the interaction mode, then paint.
    SetMode(Mode),
    /// Give the terminal to the user for a question, and send the answer
    /// on the channel.
    AskQuestion(QuestionComponents, Sender<String>),
}

} // verus!
