//! Decision logic of the QEMU D-Bus display clients: console object paths,
//! the listener loop, option handling, VM lookup, audio and serial helpers.

pub mod decimal;
pub mod console;
pub mod startup;
pub mod audio;
pub mod serial;
