//! Decision core of a bridge that keeps one worker process alive and relays
//! its output to a user interface.
//!
//! Nothing here spawns, sleeps, locks or writes. The driver around this crate
//! performs that work and reports every result back as a plain value; what
//! happens next, and what is said to the interface, is decided here.

pub mod event;
pub mod greet;
pub mod input;
pub mod pump;
pub mod slot;
pub mod supervisor;
pub mod text;
pub mod trace;
