//! Argument parsing that runs the same way in a native process and in a
//! browser: the decisions of the adapter layer, proved, around `clap`.

pub mod command;
pub mod laws;
pub mod outcome;
pub mod outside;
pub mod parser;
pub mod source;

pub use command::WeCommand;
pub use outcome::{Exit, Notice, Outcome, Sink, Target};
pub use outside::Failure;
pub use parser::WeParser;
pub use source::ArgSource;
