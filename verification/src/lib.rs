//! An interactive terminal list-selection widget: an ordered list of labeled
//! options, a cursor moved by keyboard or pointer input, and a single commit
//! or cancel outcome reported to the caller.
//!
//! The selection state machine, the input dispatcher, and the render engine
//! are verified; the terminal I/O around them lives outside this crate.

pub mod input;
pub mod item;
pub mod render;
pub mod select;
pub mod ucli;
