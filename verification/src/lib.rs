//! A thin, verified facade over clap's `Command` and `ArgMatches`.
//!
//! The library builds a command definition, parses arguments against
//! it, and reads typed values back out as plain dynamic values. Every
//! call into clap goes through a trusted wrapper; where clap's outcome
//! is a function of the arguments, the wrapper's contract names it,
//! and the value-coercion logic on top of those wrappers is verified.

pub mod arg_matches;
pub mod command;
pub mod value;

pub use arg_matches::ArgMatches;
pub use command::Command;
pub use value::Value;
pub use value::ValueView;
