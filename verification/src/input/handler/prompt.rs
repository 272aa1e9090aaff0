//! What the keys do while a prompt is up.

use vstd::prelude::*;
use crate::event::key::Key;
use crate::input::handler::{
    admits, clashes, extended, Action, Bindings, Context, Duplicate, Handler,
};
use crate::message::LumaMessage;
use crate::mode::{Mode, PromptData, PromptResponse};

verus! {

/// The keys that answer yes.
pub open spec fn accept_keys() -> Seq<Key> {
    seq![Key::Char('y'), Key::Char('Y')]
}

/// The keys that answer no.
pub open spec fn decline_keys() -> Seq<Key> {
    seq![Key::Char('n'), Key::Char('N'), Key::Enter]
}

/// The keys that dismiss the prompt.
pub open spec fn cancel_keys() -> Seq<Key> {
    seq![Key::Esc, Key::Char('q'), Key::Ctrl('c')]
}

/// The eight prompt keys, in the order in which `add_all` looks at them.
pub open spec fn prompt_keys() -> Seq<Key> {
    accept_keys() + decline_keys() + cancel_keys()
}

/// `bound` with the prompt bindings added.
pub open spec fn with_prompt_keys(bound: Bindings) -> Bindings {
    extended(
        extended(
            extended(bound, Context::Prompt, accept_keys(), Action::Accept),
            Context::Prompt,
            decline_keys(),
            Action::Decline,
        ),
        Context::Prompt,
        cancel_keys(),
        Action::Cancel,
    )
}

/// What a key does while a prompt is up, by the bindings of `add_all`.
pub open spec fn prompt_binding(key: Key) -> Option<Action> {
    if key == Key::Char('y') || key == Key::Char('Y') {
        Some(Action::Accept)
    } else if key == Key::Char('n') || key == Key::Char('N') || key == Key::Enter {
        Some(Action::Decline)
    } else if key == Key::Esc || key == Key::Char('q') || key == Key::Ctrl('c') {
        Some(Action::Cancel)
    } else {
        None
    }
}

/// What the registry holds once the prompt bindings have been added: each
/// prompt key does what `prompt_binding` says, and every other binding is
/// as it was.
pub proof fn lemma_prompt_bindings(bound: Bindings, context: Context, key: Key)
    ensures
        context == Context::Prompt && prompt_binding(key) is Some ==> with_prompt_keys(
            bound,
        ).contains_key((context, key)) && Some(with_prompt_keys(bound)[(context, key)])
            == prompt_binding(key),
        !(context == Context::Prompt && prompt_binding(key) is Some) ==> (with_prompt_keys(
            bound,
        ).contains_key((context, key)) <==> bound.contains_key((context, key))),
        !(context == Context::Prompt && prompt_binding(key) is Some) && bound.contains_key(
            (context, key),
        ) ==> with_prompt_keys(bound)[(context, key)] == bound[(context, key)],
{
}

/// Registers the prompt bindings: `y` and `Y` accept; `n`, `N` and Enter
/// decline; Esc, `q` and Ctrl-c cancel.
///
/// If one of these keys has a prompt binding already, nothing is
/// registered and the error names the first such key, in the order above.
pub fn add_all(h: &mut Handler) -> (done: Result<(), Duplicate>)
    ensures
        done is Ok <==> admits(old(h)@, Context::Prompt, prompt_keys()),
        done is Ok ==> final(h)@ == with_prompt_keys(old(h)@),
        done matches Err(refused) ==> final(h)@ == old(h)@ && refused.context == Context::Prompt
            && exists|i: int|
            0 <= i < prompt_keys().len() && prompt_keys()[i] == refused.key && clashes(
                old(h)@,
                Context::Prompt,
                prompt_keys(),
                i,
            ) && forall|j: int| 0 <= j < i ==> !clashes(old(h)@, Context::Prompt, prompt_keys(), j),
{
    let ghost all = prompt_keys();
    let keys = [
        Key::Char('y'),
        Key::Char('Y'),
        Key::Char('n'),
        Key::Char('N'),
        Key::Enter,
        Key::Esc,
        Key::Char('q'),
        Key::Ctrl('c'),
    ];
    let mut i: usize = 0;
    while i < 8
        invariant
            i <= 8,
            keys@ == all,
            all == prompt_keys(),
            *h == *old(h),
            forall|j: int| 0 <= j < i ==> !h@.contains_key((Context::Prompt, all[j])),
        decreases 8 - i,
    {
        if h.resolve(Context::Prompt, keys[i]).is_some() {
            assert(clashes(old(h)@, Context::Prompt, all, i as int));
            assert(forall|j: int| 0 <= j < i ==> !clashes(old(h)@, Context::Prompt, all, j));
            return Err(Duplicate { context: Context::Prompt, key: keys[i] });
        }
        i += 1;
    }
    let accepting = [Key::Char('y'), Key::Char('Y')];
    let declining = [Key::Char('n'), Key::Char('N'), Key::Enter];
    let cancelling = [Key::Esc, Key::Char('q'), Key::Ctrl('c')];
    match h.add_prompt_handlers(accepting.as_slice(), Action::Accept) {
        Ok(()) => {},
        Err(refused) => {
            return Err(refused);
        },
    }
    match h.add_prompt_handlers(declining.as_slice(), Action::Decline) {
        Ok(()) => {},
        Err(refused) => {
            return Err(refused);
        },
    }
    match h.add_prompt_handlers(cancelling.as_slice(), Action::Cancel) {
        Ok(()) => {},
        Err(refused) => {
            return Err(refused);
        },
    }
    Ok(())
}

/// The message that ends a prompt.
pub open spec fn back_to_normal() -> Seq<LumaMessage> {
    seq![LumaMessage::SetMode(Mode::Normal)]
}

/// Hands `response` to the reply channel of the prompt and records it, if
/// the prompt has not been answered yet, and asks for normal mode.
pub fn respond(data: &mut PromptData, response: PromptResponse) -> (msgs: Vec<LumaMessage>)
    ensures
        *final(data) == old(data).answered_with(response),
        msgs@ == back_to_normal(),
{
    let _ = data.resolve(response);
    vec![LumaMessage::SetMode(Mode::Normal)]
}

/// Answers the prompt with `Yes`.
pub fn accept(data: &mut PromptData) -> (msgs: Vec<LumaMessage>)
    ensures
        *final(data) == old(data).answered_with(PromptResponse::Yes),
        msgs@ == back_to_normal(),
{
    respond(data, PromptResponse::Yes)
}

/// Answers the prompt with `No`.
pub fn decline(data: &mut PromptData) -> (msgs: Vec<LumaMessage>)
    ensures
        *final(data) == old(data).answered_with(PromptResponse::No),
        msgs@ == back_to_normal(),
{
    respond(data, PromptResponse::No)
}

/// Answers the prompt with `Cancel`.
pub fn cancel(data: &mut PromptData) -> (msgs: Vec<LumaMessage>)
    ensures
        *final(data) == old(data).answered_with(PromptResponse::Cancel),
        msgs@ == back_to_normal(),
{
    respond(data, PromptResponse::Cancel)
}

} // verus!
