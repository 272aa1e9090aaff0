//! The input pipeline of a terminal link browser.
//!
//! Three tasks cooperate: one captures terminal input, one resolves each
//! event against the key bindings of the current interaction mode, and one
//! repaints the screen.  This crate holds what those tasks decide; waiting
//! on channels, timers and the terminal is left to the program around it.
//!
//! - `event` has the events and the decoding of keypresses,
//! - `mode` the interaction mode and the answering of prompts,
//! - `input` the key-binding registry and the dispatch of one event,
//! - `message` what the dispatch task tells the render task,
//! - `task` one turn of each task,
//! - `pipeline` the three tasks as one state machine, with what holds of
//!   it: order, no loss, and shutdown,
//! - `state` the link collection,
//! - `reply` the channel on which an answer travels back.

pub mod event;
pub mod input;
pub mod message;
pub mod mode;
pub mod pipeline;
pub mod reply;
pub mod state;
pub mod task;

pub use crate::message::{LumaMessage, QuestionComponents, QuestionType};
