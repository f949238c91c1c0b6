//! Keycode remapping between the Dvorak and QWERTY keyboard layouts.
//!
//! The library holds the decision pipeline of a system-wide key remapper:
//! the fixed keycode tables, the modifier gate, the layout-identifier
//! comparison, and the event-tap state machine.  Everything here is pure:
//! the surrounding binary performs the operating-system calls and hands
//! their results in as plain values.

pub mod errors;
pub mod keycodes;
pub mod layout;
pub mod modifiers;
pub mod remap;
pub mod tap;
