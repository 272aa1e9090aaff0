//! The interaction mode, and how a pending prompt is answered.

use vstd::prelude::*;
use tokio::sync::oneshot::Sender;
use crate::input::handler::Context;

verus! {

/// What the user can answer to a prompt.
#[derive(PartialEq, Eq, Clone, Copy, Hash, Debug, Structural)]
pub enum PromptResponse {
    Yes,
    No,
    Cancel,
}

/// The payload of prompt mode: the text on display, the slot that holds
/// the reply channel until the prompt is answered, and the answer that was
/// handed to that channel once it has been.
#[derive(Debug)]
pub struct PromptData {
    pub prompt: String,
    pub resp: Option<Sender<PromptResponse>>,
    pub answer: Option<PromptResponse>,
}

/// The current top-level interaction state.
#[derive(Debug)]
pub enum Mode {
    Normal,
    Prompt(PromptData),
}

/// The context whose bindings apply in `mode`.
pub open spec fn context_of(mode: Mode) -> Context {
    match mode {
        Mode::Normal => Context::Normal,
        Mode::Prompt(_) => Context::Prompt,
    }
}

/// `mode` once `answer` has been given to its prompt, if it shows one.
pub open spec fn answered(mode: Mode, answer: PromptResponse) -> Mode {
    match mode {
        Mode::Normal => Mode::Normal,
        Mode::Prompt(data) => Mode::Prompt(data.answered_with(answer)),
    }
}

impl Mode {
    /// The context whose bindings apply in this mode.
    pub fn context(&self) -> (context: Context)
        ensures
            context == context_of(*self),
    {
        match self {
            Mode::Normal => Context::Normal,
            Mode::Prompt(_) => Context::Prompt,
        }
    }
}

impl Default for Mode {
    /// The mode in which the program starts.
    fn default() -> (mode: Mode)
        ensures
            mode == Mode::Normal,
    {
        Mode::Normal
    }
}

/// What became of an answer.
#[derive(PartialEq, Eq, Clone, Copy, Hash, Debug, Structural)]
pub enum Reply {
    /// The reply channel took the answer.
    Delivered,
    /// Nobody waits for the answer any more; it is handed back here.
    Unclaimed(PromptResponse),
    /// The prompt had been answered before; nothing was sent.
    Spent,
}

impl PromptData {
    /// True while the prompt still holds its reply channel.
    pub open spec fn pending(&self) -> bool {
        self.resp is Some
    }

    /// The prompt once `answer` has been given to it: the same text and the
    /// reply slot empty.  A pending prompt records `answer` as the one that
    /// went to its reply channel; a prompt that had been answered before
    /// keeps the answer it has.
    pub open spec fn answered_with(&self, answer: PromptResponse) -> PromptData {
        PromptData {
            prompt: self.prompt,
            resp: None,
            answer: if self.pending() {
                Some(answer)
            } else {
                self.answer
            },
        }
    }

    /// A prompt that waits for its answer.
    pub fn new(prompt: String, resp: Sender<PromptResponse>) -> (data: PromptData)
        ensures
            data.prompt == prompt,
            data.resp == Some(resp),
            data.answer is None,
    {
        PromptData { prompt, resp: Some(resp), answer: None }
    }

    /// Answers the prompt.  A pending prompt hands `answer` to its reply
    /// channel and records it.  The channel leaves its slot for good, so a
    /// prompt is answered at most once: a second call finds the slot
    /// empty, sends and records nothing, and reports `Spent`.
    pub fn resolve(&mut self, answer: PromptResponse) -> (reply: Reply)
        ensures
            *final(self) == old(self).answered_with(answer),
            reply == Reply::Spent <==> !old(self).pending(),
            reply matches Reply::Unclaimed(back) ==> back == answer,
    {
        match self.resp.take() {
            Some(sender) => {
                self.answer = Some(answer);
                match sender.send(answer) {
                    Ok(()) => Reply::Delivered,
                    Err(back) => Reply::Unclaimed(back),
                }
            },
            None => Reply::Spent,
        }
    }
}

/// A prompt is answered at most once, and the mode leaves it behind.
///
/// When a key that answers is dispatched in prompt mode, the answer handed
/// to a pending reply channel is the one that the key's action stands for,
/// the reply slot is empty afterwards, and the one message produced asks
/// for normal mode.  Until the render task has taken that message the mode
/// is still the prompt, now spent: dispatching anything more leaves it as
/// it is, so no second answer is sent.  When the render task takes the
/// message, the mode is normal.
pub proof fn lemma_prompt_answered_once(
    bound: crate::input::handler::Bindings,
    mode: Mode,
    key: crate::event::key::Key,
    later: crate::event::Event,
)
    requires
        mode is Prompt,
        bound.contains_key((Context::Prompt, key)),
        crate::input::handler::response_of(bound[(Context::Prompt, key)]) is Some,
    ensures
        ({
            let event = crate::event::Event::Key(key);
            let action = bound[(Context::Prompt, key)];
            let answer = crate::input::handler::response_of(action)->Some_0;
            let spent = crate::input::mode_after(bound, mode, event);
            let msgs = crate::input::emitted(bound, Context::Prompt, event);
            &&& spent == answered(mode, answer)
            &&& spent matches Mode::Prompt(data) && !data.pending()
            &&& mode->Prompt_0.pending() ==> spent->Prompt_0.answer == Some(answer)
            &&& !mode->Prompt_0.pending() ==> spent->Prompt_0.answer == mode->Prompt_0.answer
            &&& msgs == seq![crate::message::LumaMessage::SetMode(Mode::Normal)]
            &&& crate::input::mode_after(bound, spent, later) == spent
            &&& crate::task::mode_after_render(spent, Some(msgs[0])) == Mode::Normal
        }),
{
}

} // verus!
