//! A dialogue box engine: queues of paragraphs made of styled sentences,
//! revealed character by character and advanced by the player's keys.
//!
//! Every quantity is an integer. A sentence is fully revealed at
//! [`typewriter::TIME_FULL`]; speeds are millionths of a sentence per second
//! and frame times are microseconds, so that one microsecond at one
//! millionth per second is exactly one unit of reveal and no step rounds.

pub mod action;
pub mod dialogue;
pub mod input;
pub mod layout;
pub mod paragraph;
pub mod plugin;
pub mod prelude;
pub mod sentence;
pub mod style;
pub mod typewriter;
