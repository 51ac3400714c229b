//! Parser input that carries a read-only configuration value beside the
//! stream being parsed, for use with nom's combinators.
pub mod byte_input;
pub mod configured;
pub mod laws;
pub mod nom_types;
pub mod primitives;
pub mod replace;

pub use configured::Configured;
pub use nom::IResult;
