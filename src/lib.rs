//! A table-driven stand-in for a device-bridge command-line tool.
//!
//! A [`ResponseTable`] maps command names to canned responses. Resolving an
//! invocation string picks an exact name match first, then the first entry
//! (in table order) whose pattern occurs in the string, and otherwise
//! synthesizes an "unrecognized command" failure.
use vstd::prelude::*;

pub mod pattern;
pub mod response;
pub mod session;
pub mod table;

pub use pattern::CompiledPattern;
pub use response::{ResponseEntry, ResponseView};
pub use session::{respond, InvocationRecord};
pub use table::{ConfigError, ResponseTable};

verus! {

} // verus!
