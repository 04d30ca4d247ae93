//! The decisions of a chat bot that greets people who introduce themselves.
//!
//! A message such as "I'm Alex" makes the bot rename its author to "Alex"
//! and answer "Hi Alex, I'm bot!". Everything here is pure: the functions
//! say what is to be sent, and the program around them sends it.

use vstd::prelude::*;

pub mod delivery;
pub mod error;
pub mod event;
pub mod message;
pub mod pattern;
pub mod ping;
pub mod text;

verus! {

/// What every handler is given besides the event. Handling an event needs
/// no state, so it holds nothing.
#[derive(Clone, Copy, Debug, Default)]
pub struct Data {}

} // verus!
