//! An interval-training round timer, verified.
//!
//! The heart of the crate is the timer engine in [`engine`]: a state value
//! and one total transition function over discrete events (configuration
//! text, start/pause/resume/stop commands, one-second ticks), producing a
//! deterministic new state and a chime intent.  [`parse`] gives the grammar
//! of the numeric configuration text, and [`laws`] states and proves the
//! engine's laws once and for all.  Rendering, the event-loop runtime and
//! the audio device live outside the library and only consume its state.

pub mod engine;
pub mod laws;
pub mod parse;
