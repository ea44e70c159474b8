//! Model of a tray-resident utility that keeps a desktop system awake.
//!
//! The library decides everything the program does: it decodes packed
//! cursor positions, turns each window message into the exact sequence of
//! operating-system calls to issue, and lays out the startup and shutdown
//! sequences. A thin driver executes those calls against the real OS.

pub mod coords;
pub mod dispatch;
pub mod session;
