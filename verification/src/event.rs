//! Events that the input task publishes.

use vstd::prelude::*;

pub mod key;

use crate::event::key::Key;

verus! {

/// One unit of input: a keypress, or the periodic tick that the input task
/// emits when the terminal has been silent for a second.
#[derive(PartialEq, Eq, Clone, Copy, Hash, Debug, Structural)]
pub enum Event {
    Tick,
    Key(Key),
}

} // verus!
