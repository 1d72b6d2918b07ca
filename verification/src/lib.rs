//! Translation of command-line parse errors into the application's own
//! error values, with a verified sentence-casing routine for argument names.

pub mod casing;
pub mod error;
