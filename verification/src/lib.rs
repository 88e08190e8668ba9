//! Control-plane core of an unattended signage display.
//!
//! The display shows scrolling or static text bulletins, runs a numbered
//! bingo draw and a countdown, and accepts live remote commands while
//! broadcasting status responses to any number of observers.  This crate
//! holds the verified core: the command queue and response bus that bridge
//! the network domain and the tick domain, and the three state machines
//! (text queue, countdown, bingo draw) that the tick owner drives.
//! Network transport, rendering and file loading live outside the crate.

pub mod bingo;
pub mod channel;
pub mod conn;
pub mod countdown;
pub mod loader;
pub mod server;
pub mod text;
