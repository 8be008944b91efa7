//! Core of a terminal "synthetic activity" display: the shared control flags,
//! the terminal session state machine, the keyboard dispatcher, and the
//! scheduling and content of the background generator.
use vstd::prelude::*;

pub mod control;
pub mod terminal;
pub mod dispatcher;
pub mod text;
pub mod random;
pub mod tables;
pub mod logs;
pub mod matrix;
pub mod generator;
pub mod advisory;
pub mod startup;

verus! {

} // verus!
