//! Data model and decision logic of the Lazo suite: blocks with their
//! terminals, the project descriptor, and the state of the three front ends.

pub mod block;
pub mod cli;
pub mod descriptor;
pub mod geometry;
pub mod launcher;
pub mod model;
pub mod node;
pub mod terminal;
pub mod text;
