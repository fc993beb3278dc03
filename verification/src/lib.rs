//! Conversion of a numeric literal between decimal, hexadecimal, binary,
//! octal and printable-ASCII notation, and the command-line grammar that
//! selects the notations.

pub mod constants;
pub mod convert;
pub mod opts;
pub mod ordered;
pub mod text;
pub mod ui;

pub use convert::{InputConverterType, OutputConverterType};
pub use opts::Opts;
