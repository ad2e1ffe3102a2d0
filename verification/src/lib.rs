//! The core of a desktop front-end for WireGuard tunnels: which configuration
//! files a directory holds, what is read from and written to them, how a
//! tunnel is brought up and down, and how the application state answers each
//! message of its user interface.
//!
//! The library reads no file and runs no command. Every transition returns
//! an [`Effect`] that names the outside work still owed; the host performs
//! it and hands the result back as a [`Reply`]. The one thing the library
//! asks of the operating system itself is, once at start-up, whether the
//! process has elevated rights.

pub mod gui;
pub mod names;
pub mod store;
pub mod tunnel;

pub use gui::{Editor, Effect, Followup, Message, Reply, Screen, WireGui};
pub use store::{DirEntry, ReadOutcome, WriteRequest};
pub use tunnel::RunOutcome;
