//! An in-memory terminal model and a fixed-cadence compositor for visual effects.
//!
//! The shadow terminal feeds the bytes of a pseudo-terminal to an interpreter and turns
//! the interpreter's state into surfaces: the visible screen and the scrollback. The
//! loader ticks a set of effect producers once per frame and paces the frames. Both are
//! written without I/O: they take events and answer with what has to be sent.

pub mod cell;
pub mod config;
pub mod errors;
pub mod frame;
pub mod interpreter;
pub mod loader;
pub mod protocol;
pub mod scroll;
pub mod shadow_terminal;
pub mod surface;
pub mod window;
