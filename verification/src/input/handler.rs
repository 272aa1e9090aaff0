//! The key-binding registry.

use vstd::prelude::*;
use crate::event::key::Key;
use crate::input::handler::prompt::{accept, back_to_normal, cancel, decline};
use crate::message::LumaMessage;
use crate::mode::{answered, context_of, Mode, PromptResponse};

pub mod prompt;

verus! {

/// Which set of bindings applies: the same key may mean one thing while
/// browsing and another while a prompt is up.
#[derive(PartialEq, Eq, Clone, Copy, Hash, Debug, Structural)]
pub enum Context {
    Normal,
    Prompt,
}

/// What a key can be bound to.
#[derive(PartialEq, Eq, Clone, Copy, Hash, Debug, Structural)]
pub enum Action {
    /// Answer the prompt with yes.
    Accept,
    /// Answer the prompt with no.
    Decline,
    /// Dismiss the prompt without an answer.
    Cancel,
    /// Ask for a repaint.
    Redraw,
    /// Ask the render task to stop.
    Exit,
}

/// The answer that `action` gives to a prompt, if it is one that answers.
pub open spec fn response_of(action: Action) -> Option<PromptResponse> {
    match action {
        Action::Accept => Some(PromptResponse::Yes),
        Action::Decline => Some(PromptResponse::No),
        Action::Cancel => Some(PromptResponse::Cancel),
        Action::Redraw => None,
        Action::Exit => None,
    }
}

/// The messages that `action` gives rise to in `context`.  An answer asks
/// for normal mode where there is a prompt, and for nothing where there is
/// none.
pub open spec fn messages_of(action: Action, context: Context) -> Seq<LumaMessage> {
    match action {
        Action::Redraw => seq![LumaMessage::Redraw],
        Action::Exit => seq![LumaMessage::Exit],
        _ => if context == Context::Prompt {
            back_to_normal()
        } else {
            Seq::empty()
        },
    }
}

/// The mode that `action` leaves behind: an action that answers gives its
/// answer to the prompt, and nothing else changes.
pub open spec fn mode_after_action(action: Action, mode: Mode) -> Mode {
    match response_of(action) {
        Some(answer) => answered(mode, answer),
        None => mode,
    }
}

impl Action {
    /// The answer that this action gives to a prompt, if it is one that
    /// answers.
    pub fn response(self) -> (response: Option<PromptResponse>)
        ensures
            response == response_of(self),
    {
        match self {
            Action::Accept => Some(PromptResponse::Yes),
            Action::Decline => Some(PromptResponse::No),
            Action::Cancel => Some(PromptResponse::Cancel),
            Action::Redraw => None,
            Action::Exit => None,
        }
    }

    /// Performs the action on the mode and returns the messages for the
    /// render task, in the order in which they are to be sent.
    pub fn run(self, mode: &mut Mode) -> (msgs: Vec<LumaMessage>)
        ensures
            msgs@ == messages_of(self, context_of(*old(mode))),
            *final(mode) == mode_after_action(self, *old(mode)),
    {
        match self {
            Action::Redraw => vec![LumaMessage::Redraw],
            Action::Exit => vec![LumaMessage::Exit],
            Action::Accept => match mode {
                Mode::Prompt(data) => accept(data),
                Mode::Normal => Vec::new(),
            },
            Action::Decline => match mode {
                Mode::Prompt(data) => decline(data),
                Mode::Normal => Vec::new(),
            },
            Action::Cancel => match mode {
                Mode::Prompt(data) => cancel(data),
                Mode::Normal => Vec::new(),
            },
        }
    }
}

/// One entry of the registry.
#[derive(PartialEq, Eq, Clone, Copy, Hash, Debug, Structural)]
pub struct Binding {
    pub context: Context,
    pub key: Key,
    pub action: Action,
}

/// A registration that was refused: `key` would have had two bindings in
/// `context`.
#[derive(PartialEq, Eq, Clone, Copy, Hash, Debug, Structural)]
pub struct Duplicate {
    pub context: Context,
    pub key: Key,
}

/// The registry as a mathematical map.
pub type Bindings = Map<(Context, Key), Action>;

/// True if `keys[i]` cannot be bound in `context`: it has a binding there
/// already, or it stands earlier in `keys` as well.
pub open spec fn clashes(bound: Bindings, context: Context, keys: Seq<Key>, i: int) -> bool {
    bound.contains_key((context, keys[i])) || exists|j: int| 0 <= j < i && keys[j] == keys[i]
}

/// True if all of `keys` can be bound in `context` together.
pub open spec fn admits(bound: Bindings, context: Context, keys: Seq<Key>) -> bool {
    forall|i: int| 0 <= i < keys.len() ==> !clashes(bound, context, keys, i)
}

/// `bound`, and each of `keys` bound to `action` in `context`.
pub open spec fn extended(bound: Bindings, context: Context, keys: Seq<Key>, action: Action)
    -> Bindings {
    bound.union_prefer_right(
        Map::new(|slot: (Context, Key)| slot.0 == context && keys.contains(slot.1), |slot: (Context, Key)| action),
    )
}

/// The map that a list of entries stands for.
spec fn table(entries: Seq<Binding>) -> Bindings
    decreases entries.len(),
{
    if entries.len() == 0 {
        Map::empty()
    } else {
        let last = entries.last();
        table(entries.drop_last()).insert((last.context, last.key), last.action)
    }
}

/// No two entries bind the same key in the same context.
spec fn distinct(entries: Seq<Binding>) -> bool {
    forall|i: int, j: int|
        0 <= i < j < entries.len() ==> !(entries[i].context == entries[j].context
            && entries[i].key == entries[j].key)
}

proof fn lemma_table_domain(entries: Seq<Binding>, slot: (Context, Key))
    ensures
        table(entries).contains_key(slot) <==> exists|i: int|
            0 <= i < entries.len() && entries[i].context == slot.0 && entries[i].key == slot.1,
    decreases entries.len(),
{
    if entries.len() > 0 {
        let rest = entries.drop_last();
        lemma_table_domain(rest, slot);
        if exists|i: int|
            0 <= i < entries.len() && entries[i].context == slot.0 && entries[i].key == slot.1 {
            let i = choose|i: int|
                0 <= i < entries.len() && entries[i].context == slot.0 && entries[i].key == slot.1;
            if i < rest.len() {
                assert(rest[i].context == slot.0 && rest[i].key == slot.1);
            }
        }
    }
}

proof fn lemma_table_entry(entries: Seq<Binding>, i: int)
    requires
        distinct(entries),
        0 <= i < entries.len(),
    ensures
        table(entries).contains_key((entries[i].context, entries[i].key)),
        table(entries)[(entries[i].context, entries[i].key)] == entries[i].action,
    decreases entries.len(),
{
    let rest = entries.drop_last();
    if i < entries.len() - 1 {
        lemma_table_entry(rest, i);
        let last = entries.len() - 1;
        assert(!(entries[i].context == entries[last].context && entries[i].key
            == entries[last].key));
    }
}

/// The registry of key bindings: for each context and key at most one
/// action.  It is filled before the dispatch task starts and only read
/// afterwards.
pub struct Handler {
    bindings: Vec<Binding>,
}

impl View for Handler {
    type V = Bindings;

    closed spec fn view(&self) -> Bindings {
        table(self.bindings@)
    }
}

impl Handler {
    #[verifier::type_invariant]
    spec fn unambiguous(&self) -> bool {
        distinct(self.bindings@)
    }

    /// A registry without bindings.
    pub fn new() -> (handler: Handler)
        ensures
            handler@ == Bindings::empty(),
    {
        Handler { bindings: Vec::new() }
    }

    /// Where the binding of `key` in `context` stands, if there is one.
    fn position(&self, context: Context, key: Key) -> (found: Option<usize>)
        ensures
            match found {
                Some(i) => i < self.bindings@.len() && self.bindings@[i as int].context == context
                    && self.bindings@[i as int].key == key,
                None => forall|i: int|
                    0 <= i < self.bindings@.len() ==> !(self.bindings@[i].context == context
                        && self.bindings@[i].key == key),
            },
    {
        let mut i: usize = 0;
        while i < self.bindings.len()
            invariant
                i <= self.bindings@.len(),
                forall|j: int|
                    0 <= j < i ==> !(self.bindings@[j].context == context && self.bindings@[j].key
                        == key),
            decreases self.bindings@.len() - i,
        {
            if self.bindings[i].context == context && self.bindings[i].key == key {
                return Some(i);
            }
            i += 1;
        }
        None
    }

    /// Looks up the action bound to `key` in `context`.
    pub fn resolve(&self, context: Context, key: Key) -> (found: Option<Action>)
        ensures
            found is Some <==> self@.contains_key((context, key)),
            found matches Some(action) ==> action == self@[(context, key)],
    {
        proof {
            use_type_invariant(self);
            lemma_table_domain(self.bindings@, (context, key));
        }
        match self.position(context, key) {
            Some(i) => {
                proof {
                    lemma_table_entry(self.bindings@, i as int);
                }
                Some(self.bindings[i].action)
            },
            None => None,
        }
    }

    /// Binds each of `keys` to `action` in `context`, or none of them.
    ///
    /// The registration is refused when one of the keys has a binding in
    /// `context` already or stands twice in `keys`; the error names the
    /// first such key, and the registry is left as it was.
    pub fn register(&mut self, context: Context, keys: &[Key], action: Action) -> (done: Result<
        (),
        Duplicate,
    >)
        ensures
            done is Ok <==> admits(old(self)@, context, keys@),
            done is Ok ==> final(self)@ == extended(old(self)@, context, keys@, action),
            done matches Err(refused) ==> final(self)@ == old(self)@ && refused.context == context
                && exists|i: int|
                0 <= i < keys@.len() && keys@[i] == refused.key && clashes(
                    old(self)@,
                    context,
                    keys@,
                    i,
                ) && forall|j: int| 0 <= j < i ==> !clashes(old(self)@, context, keys@, j),
    {
        proof {
            use_type_invariant(&*self);
        }
        let mut i: usize = 0;
        while i < keys.len()
            invariant
                i <= keys@.len(),
                *self == *old(self),
                distinct(self.bindings@),
                forall|j: int| 0 <= j < i ==> !clashes(self@, context, keys@, j),
            decreases keys@.len() - i,
        {
            let key = keys[i];
            proof {
                lemma_table_domain(self.bindings@, (context, key));
            }
            let mut clash = self.position(context, key).is_some();
            let mut j: usize = 0;
            while j < i
                invariant
                    j <= i < keys@.len(),
                    key == keys@[i as int],
                    clash <==> self@.contains_key((context, key)) || exists|k: int|
                        0 <= k < j && keys@[k] == key,
                decreases i - j,
            {
                if keys[j] == key {
                    clash = true;
                }
                j += 1;
            }
            if clash {
                assert(clashes(self@, context, keys@, i as int));
                return Err(Duplicate { context, key });
            }
            i += 1;
        }
        let mut entries: Vec<Binding> = Vec::new();
        std::mem::swap(&mut entries, &mut self.bindings);
        let mut n: usize = 0;
        while n < keys.len()
            invariant
                n <= keys@.len(),
                admits(old(self)@, context, keys@),
                distinct(entries@),
                table(entries@) == extended(old(self)@, context, keys@.take(n as int), action),
            decreases keys@.len() - n,
        {
            let key = keys[n];
            let ghost before = entries@;
            proof {
                lemma_table_domain(before, (context, key));
                assert(!clashes(old(self)@, context, keys@, n as int));
            }
            entries.push(Binding { context, key, action });
            proof {
                assert(entries@.drop_last() =~= before);
                let wider = keys@.take(n as int + 1);
                assert forall|k: Key| wider.contains(k) <==> keys@.take(n as int).contains(k) || k
                    == key by {
                    if k == key {
                        assert(wider[n as int] == k);
                    }
                }
            }
            n += 1;
        }
        proof {
            assert(keys@.take(keys@.len() as int) =~= keys@);
        }
        self.bindings = entries;
        Ok(())
    }

    /// Binds each of `keys` to `action` while a prompt is up.
    pub fn add_prompt_handlers(&mut self, keys: &[Key], action: Action) -> (done: Result<
        (),
        Duplicate,
    >)
        ensures
            done is Ok <==> admits(old(self)@, Context::Prompt, keys@),
            done is Ok ==> final(self)@ == extended(old(self)@, Context::Prompt, keys@, action),
            done matches Err(refused) ==> final(self)@ == old(self)@ && refused.context
                == Context::Prompt && exists|i: int|
                0 <= i < keys@.len() && keys@[i] == refused.key && clashes(
                    old(self)@,
                    Context::Prompt,
                    keys@,
                    i,
                ) && forall|j: int| 0 <= j < i ==> !clashes(old(self)@, Context::Prompt, keys@, j),
    {
        self.register(Context::Prompt, keys, action)
    }
}

} // verus!
