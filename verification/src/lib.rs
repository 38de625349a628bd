//! Parsing and serialization of PHC strings, the `$id$params$salt$hash`
//! encoding of password hashes, together with typed parameter extraction.

pub mod ascii;
pub mod codec;
pub mod decimal;
pub mod grammar;
pub mod laws;
pub mod params;
pub mod parser;
pub mod raw;
pub mod salt;
pub mod value;

pub use self::params::{GenParam, Param};
pub use self::salt::Salt;
