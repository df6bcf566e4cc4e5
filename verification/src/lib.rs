//! A terminal mini-game launcher, verified: a menu over three short
//! reflex/memory games, each an input- and timer-driven finite state
//! machine.
//!
//! The state machines, the scoring rules and the menu dispatch logic live
//! here with full contracts. Reading keys, drawing frames and the clock
//! are collaborators: the caller reads one key press, translates it to a
//! [`input::KeyInput`], asks the clock for a monotonic time in
//! milliseconds, and hands both to the machines.

pub mod games;
pub mod input;
pub mod menu;
pub mod number_memory;
pub mod reaction;
mod rng;
mod text;
pub mod verbal_memory;
