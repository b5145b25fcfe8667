//! Concatenate text sources line by line, optionally prefixing each line
//! with a running number.
//!
//! The crate is split along the flow of a run: `args` turns command-line
//! tokens into a [`config::Config`], `source` tells standard input from a
//! file, `numbering` renders the number prefix, `emit` decides what is
//! written for every line of a source, and `transcript` puts the sources of
//! a run together.

pub mod args;
pub mod config;
pub mod emit;
pub mod numbering;
pub mod source;
pub mod transcript;

pub use crate::args::get_args;
pub use crate::config::Config;
pub use crate::transcript::run;
