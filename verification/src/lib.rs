//! A host for scripts that drive a render engine tick by tick.
//!
//! A [`Script`] owns the text of a script and its compiled form. On each tick
//! it hands the script a fresh [`link::WvrLink`], the bridge through which the
//! script emits [`command::Command`]s and reaches the input providers, and
//! keeps the script's global variables for the next tick.

pub mod command;
pub mod interpreter;
pub mod link;
pub mod provider;
mod random;
pub mod script;
pub mod table;

pub use crate::script::Script;
