use luma::event::key::Key;
use luma::input::handler::prompt::{accept, add_all, cancel, decline, respond};
use luma::input::handler::{Action, Context, Duplicate, Handler};
use luma::message::LumaMessage;
use luma::mode::{Mode, PromptData, PromptResponse, Reply};
use tokio::sync::oneshot::channel;
use tokio::sync::oneshot::error::TryRecvError;

fn only_back_to_normal(msgs: &[LumaMessage]) -> bool {
    msgs.len() == 1 && matches!(msgs[0], LumaMessage::SetMode(Mode::Normal))
}

#[test]
fn add_all_binds_the_eight_prompt_keys() {
    let mut h = Handler::new();
    assert_eq!(add_all(&mut h), Ok(()));
    assert_eq!(h.resolve(Context::Prompt, Key::Char('y')), Some(Action::Accept));
    assert_eq!(h.resolve(Context::Prompt, Key::Char('Y')), Some(Action::Accept));
    assert_eq!(h.resolve(Context::Prompt, Key::Char('n')), Some(Action::Decline));
    assert_eq!(h.resolve(Context::Prompt, Key::Char('N')), Some(Action::Decline));
    assert_eq!(h.resolve(Context::Prompt, Key::Enter), Some(Action::Decline));
    assert_eq!(h.resolve(Context::Prompt, Key::Esc), Some(Action::Cancel));
    assert_eq!(h.resolve(Context::Prompt, Key::Char('q')), Some(Action::Cancel));
    assert_eq!(h.resolve(Context::Prompt, Key::Ctrl('c')), Some(Action::Cancel));
}

#[test]
fn add_all_binds_nothing_else() {
    let mut h = Handler::new();
    assert_eq!(add_all(&mut h), Ok(()));
    assert_eq!(h.resolve(Context::Prompt, Key::Char('z')), None);
    assert_eq!(h.resolve(Context::Prompt, Key::Char('c')), None);
    assert_eq!(h.resolve(Context::Prompt, Key::Alt('y')), None);
    assert_eq!(h.resolve(Context::Prompt, Key::Tab), None);
    assert_eq!(h.resolve(Context::Normal, Key::Char('y')), None);
    assert_eq!(h.resolve(Context::Normal, Key::Enter), None);
    assert_eq!(h.resolve(Context::Normal, Key::Esc), None);
}

#[test]
fn add_all_keeps_what_was_bound() {
    let mut h = Handler::new();
    assert_eq!(h.register(Context::Normal, &[Key::Char('q')], Action::Exit), Ok(()));
    assert_eq!(h.register(Context::Prompt, &[Key::Tab], Action::Redraw), Ok(()));
    assert_eq!(add_all(&mut h), Ok(()));
    assert_eq!(h.resolve(Context::Normal, Key::Char('q')), Some(Action::Exit));
    assert_eq!(h.resolve(Context::Prompt, Key::Tab), Some(Action::Redraw));
    assert_eq!(h.resolve(Context::Prompt, Key::Char('q')), Some(Action::Cancel));
}

#[test]
fn add_all_twice_is_refused() {
    let mut h = Handler::new();
    assert_eq!(add_all(&mut h), Ok(()));
    assert_eq!(
        add_all(&mut h),
        Err(Duplicate { context: Context::Prompt, key: Key::Char('y') })
    );
    assert_eq!(h.resolve(Context::Prompt, Key::Enter), Some(Action::Decline));
}

#[test]
fn add_all_is_all_or_nothing() {
    let mut h = Handler::new();
    assert_eq!(h.add_prompt_handlers(&[Key::Char('q')], Action::Redraw), Ok(()));
    assert_eq!(
        add_all(&mut h),
        Err(Duplicate { context: Context::Prompt, key: Key::Char('q') })
    );
    assert_eq!(h.resolve(Context::Prompt, Key::Char('y')), None);
    assert_eq!(h.resolve(Context::Prompt, Key::Enter), None);
    assert_eq!(h.resolve(Context::Prompt, Key::Esc), None);
    assert_eq!(h.resolve(Context::Prompt, Key::Char('q')), Some(Action::Redraw));
}

#[test]
fn add_all_names_the_first_key_in_its_order() {
    let mut h = Handler::new();
    assert_eq!(h.add_prompt_handlers(&[Key::Ctrl('c'), Key::Enter], Action::Redraw), Ok(()));
    assert_eq!(
        add_all(&mut h),
        Err(Duplicate { context: Context::Prompt, key: Key::Enter })
    );
}

#[test]
fn accept_sends_yes() {
    let (tx, mut rx) = channel();
    let mut data = PromptData { prompt: String::from("Delete?"), resp: Some(tx), answer: None };
    let msgs = accept(&mut data);
    assert!(only_back_to_normal(&msgs));
    assert!(data.resp.is_none());
    assert_eq!(data.answer, Some(PromptResponse::Yes));
    assert_eq!(data.prompt, "Delete?");
    assert_eq!(rx.try_recv(), Ok(PromptResponse::Yes));
}

#[test]
fn decline_sends_no() {
    let (tx, mut rx) = channel();
    let mut data = PromptData { prompt: String::from("Delete?"), resp: Some(tx), answer: None };
    let msgs = decline(&mut data);
    assert!(only_back_to_normal(&msgs));
    assert!(data.resp.is_none());
    assert_eq!(data.answer, Some(PromptResponse::No));
    assert_eq!(rx.try_recv(), Ok(PromptResponse::No));
}

#[test]
fn cancel_sends_cancel() {
    let (tx, mut rx) = channel();
    let mut data = PromptData { prompt: String::from("Delete?"), resp: Some(tx), answer: None };
    let msgs = cancel(&mut data);
    assert!(only_back_to_normal(&msgs));
    assert!(data.resp.is_none());
    assert_eq!(data.answer, Some(PromptResponse::Cancel));
    assert_eq!(rx.try_recv(), Ok(PromptResponse::Cancel));
}

#[test]
fn a_second_answer_is_not_sent() {
    let (tx, mut rx) = channel();
    let mut data = PromptData { prompt: String::from("Sure?"), resp: Some(tx), answer: None };
    assert!(only_back_to_normal(&accept(&mut data)));
    assert!(only_back_to_normal(&decline(&mut data)));
    assert!(only_back_to_normal(&respond(&mut data, PromptResponse::Cancel)));
    assert_eq!(rx.try_recv(), Ok(PromptResponse::Yes));
    assert_eq!(rx.try_recv(), Err(TryRecvError::Closed));
    assert_eq!(data.answer, Some(PromptResponse::Yes));
    assert_eq!(data.prompt, "Sure?");
}

#[test]
fn an_answer_nobody_waits_for_is_let_go() {
    let (tx, rx) = channel();
    drop(rx);
    let mut data = PromptData { prompt: String::from("Sure?"), resp: Some(tx), answer: None };
    assert!(only_back_to_normal(&accept(&mut data)));
    assert!(data.resp.is_none());
    assert_eq!(data.answer, Some(PromptResponse::Yes));
}

#[test]
fn resolve_reports_what_became_of_the_answer() {
    let (tx, mut rx) = channel();
    let mut data = PromptData { prompt: String::from("Sure?"), resp: Some(tx), answer: None };
    assert_eq!(data.resolve(PromptResponse::No), Reply::Delivered);
    assert_eq!(rx.try_recv(), Ok(PromptResponse::No));
    assert_eq!(data.resolve(PromptResponse::Yes), Reply::Spent);
    assert_eq!(data.resolve(PromptResponse::Cancel), Reply::Spent);

    let (tx, rx) = channel();
    drop(rx);
    let mut data = PromptData { prompt: String::new(), resp: Some(tx), answer: None };
    assert_eq!(data.resolve(PromptResponse::Yes), Reply::Unclaimed(PromptResponse::Yes));
    assert_eq!(data.resolve(PromptResponse::Yes), Reply::Spent);

    let mut data = PromptData { prompt: String::new(), resp: None, answer: None };
    assert_eq!(data.resolve(PromptResponse::Yes), Reply::Spent);
    assert!(data.resp.is_none());
    assert_eq!(data.answer, None);

    let mut data =
        PromptData { prompt: String::new(), resp: None, answer: Some(PromptResponse::No) };
    assert_eq!(data.resolve(PromptResponse::Yes), Reply::Spent);
    assert_eq!(data.answer, Some(PromptResponse::No));
}

#[test]
fn a_new_prompt_waits_for_its_answer() {
    let (tx, mut rx) = channel();
    let mut data = PromptData::new(String::from("Open?"), tx);
    assert_eq!(data.prompt, "Open?");
    assert!(data.resp.is_some());
    assert_eq!(data.answer, None);
    assert_eq!(rx.try_recv(), Err(TryRecvError::Empty));
    assert_eq!(data.resolve(PromptResponse::Cancel), Reply::Delivered);
    assert_eq!(data.answer, Some(PromptResponse::Cancel));
    assert_eq!(rx.try_recv(), Ok(PromptResponse::Cancel));
}

#[test]
fn modes_know_their_context() {
    assert_eq!(Mode::Normal.context(), Context::Normal);
    let mode = Mode::Prompt(PromptData { prompt: String::from("?"), resp: None, answer: None });
    assert_eq!(mode.context(), Context::Prompt);
    assert!(matches!(Mode::default(), Mode::Normal));
}

#[test]
fn answering_actions_do_nothing_without_a_prompt() {
    let mut mode = Mode::Normal;
    assert!(Action::Accept.run(&mut mode).is_empty());
    assert!(Action::Decline.run(&mut mode).is_empty());
    assert!(Action::Cancel.run(&mut mode).is_empty());
    assert!(matches!(mode, Mode::Normal));
}

#[test]
fn plain_actions_give_their_message_in_either_mode() {
    let mut mode = Mode::Normal;
    let msgs = Action::Redraw.run(&mut mode);
    assert!(msgs.len() == 1 && matches!(msgs[0], LumaMessage::Redraw));
    let msgs = Action::Exit.run(&mut mode);
    assert!(msgs.len() == 1 && matches!(msgs[0], LumaMessage::Exit));

    let (tx, mut rx) = channel::<PromptResponse>();
    let mut mode = Mode::Prompt(PromptData { prompt: String::from("?"), resp: Some(tx), answer: None });
    let msgs = Action::Exit.run(&mut mode);
    assert!(msgs.len() == 1 && matches!(msgs[0], LumaMessage::Exit));
    assert!(matches!(&mode, Mode::Prompt(data) if data.resp.is_some() && data.prompt == "?"));
    assert_eq!(rx.try_recv(), Err(TryRecvError::Empty));
}
