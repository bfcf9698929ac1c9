//! Logic for two small file-watching utilities: one runs a shell command
//! whenever a watched file changes, the other blocks until a target file
//! exists. The decisions both tools make (which events trigger work, when to
//! stop, how to react to a child process's exit) live here as verified
//! functions; the surrounding processes feed them plain values.

pub mod errors;
pub mod event;
pub mod path;
pub mod runner;
pub mod waiter;
