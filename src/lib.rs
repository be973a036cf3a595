//! A bridge that carries pin-change interrupts, raised in interrupt context,
//! to an ordinary consumer through a bounded mailbox.
//!
//! The interrupt registry is a table indexed by pin: the trampoline finds the
//! callback cell of a pin by a lookup, and a detached pin has no cell to find.
pub mod error;
pub mod laws;
pub mod mailbox;
pub mod message;
pub mod pin;
pub mod service;
