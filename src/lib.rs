//! Line-oriented concatenation of text inputs, with optional line numbering
//! (all lines, or non-blank lines only) and visible line ends.
//!
//! `config` resolves the settings of a run, `format` writes numbers and line
//! ends, `emit` formats the lines of one input, and `session` decides, event by
//! event, what a run writes and when it ends; the caller does the reading and
//! writing.
use vstd::prelude::*;

pub mod config;
pub mod emit;
pub mod format;
pub mod session;

verus! {

} // verus!
