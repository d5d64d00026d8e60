//! A verified CHIP-8 interpreter core: memory, registers, call stack, timers,
//! framebuffer and keypad, with one-instruction-at-a-time execution.
//!
//! * [`state`] defines the abstract machine state and its constants.
//! * [`decode`] splits instruction words into fields and operations.
//! * [`screen`] says what drawing a sprite means, and does it.
//! * [`semantics`] gives every operation its meaning on the abstract state.
//! * [`processor`] is the machine proper; its contracts refer to the above.
//! * [`keypad`] maps keyboard symbols to keypad slots.
//! * [`rom`] knows the stored programs by name.
//! * [`laws`] proves properties of the instruction set.
//!
//! Window, keyboard events, files and pacing are left to the caller, which
//! drives the machine with `fetch_opcode`, `execute_opcode` and `set_timers`.

pub mod decode;
mod entropy;
pub mod keypad;
pub mod laws;
pub mod processor;
pub mod rom;
pub mod screen;
pub mod semantics;
pub mod state;
