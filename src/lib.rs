//! Input subsystem of a multi-board handheld device: fixed-layout wire codecs for
//! the combined input state, the prefix-coded metadata that describes auxiliary
//! payloads, the merge policy over the local board and two extensions, the bus
//! responder state machine, and the multi-tap letter selector.
pub mod bits;
pub mod packing;
pub mod numpad;
pub mod keypad;
pub mod auxiliary;
pub mod analog;
pub mod other;
pub mod input;
pub mod aggregate;
pub mod multitap;
pub mod controller;
pub mod responder;
pub mod board;
pub mod laws;
