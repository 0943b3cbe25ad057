//! Client-side logic for controlling a ZSA keyboard through the Keymapp daemon.
//!
//! The crate holds the parts of the client that decide and compute: the color
//! codec, the Voyager layout table, how requests to the daemon are built and how
//! its replies become results, the step loop behind brightness changes, and the
//! text the command line prints. Talking to the daemon is left to the caller.
pub mod text;
pub mod utils;

pub mod api;
pub mod cli;
pub mod connection;
