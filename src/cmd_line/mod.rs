//! Command line options: flags and options with values, looked up by short or long name.

pub mod dummy;
pub mod generic;
pub mod matching;
pub mod shared;

pub use dummy::{DummyParsed, DummyParser};
pub use generic::ParsingError;
pub use shared::ArgId;
