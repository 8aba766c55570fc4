//! A live-reloading static file server's decisions, stated and proved.
//!
//! The server serves a directory, or one file at the root URL, and makes the
//! pages it serves reload when something below the root changes. This library
//! holds what the server decides: what a control command does to the serving
//! state, which path a request may read, what is sent for a file or a
//! directory, where the reload script goes, and what the filesystem watch does
//! next. What touches the filesystem, the network or the terminal stands
//! outside and hands plain values in.

pub mod browser;
pub mod cli;
pub mod control;
pub mod ipc;
pub mod listing;
pub mod media;
pub mod order;
pub mod path;
pub mod reload;
pub mod resolve;
pub mod respond;
pub mod serve;
pub mod state;
pub mod text;
pub mod watch;
