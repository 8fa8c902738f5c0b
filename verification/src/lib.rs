//! Shell completion scripts for a command line, chosen by one enumerated
//! target.
//!
//! [`Shell`] names every supported completion target. Each target is bound to
//! exactly one generator ([`Generators`]), and the generator produces the
//! name of the completion file and the bytes of the completion script.

pub mod generator;
pub mod shell;
pub mod text;

pub use generator::Dialect;
pub use generator::Generators;
pub use shell::CompletionFile;
pub use shell::Shell;
