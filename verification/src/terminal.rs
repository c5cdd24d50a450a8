//! Terminals: the named connection points of a block.

use vstd::prelude::*;
use crate::geometry::Vec2;

verus! {

/// The direction of a terminal.
#[derive(Debug, Clone, Copy, PartialEq, Eq, Structural)]
pub enum TerminalKind {
    Input,
    Output,
}

/// A named connection point on a block.
#[derive(Debug, Clone, PartialEq, Eq)]
pub struct Terminal {
    pub id: String,
    pub kind: TerminalKind,
    /// Signal polarity.
    pub sign: i32,
    pub size: Vec2,
}

/// What a terminal is, as a mathematical value.
pub struct TerminalView {
    pub id: Seq<char>,
    pub kind: TerminalKind,
    pub sign: int,
    pub size: Vec2,
}

impl View for Terminal {
    type V = TerminalView;

    open spec fn view(&self) -> TerminalView {
        TerminalView { id: self.id@, kind: self.kind, sign: self.sign as int, size: self.size }
    }
}

impl Terminal {
    /// A terminal with the given name, direction, polarity and size.
    pub fn new(id: &str, kind: TerminalKind, sign: i32, size: Vec2) -> (t: Terminal)
        ensures
            t@ == (TerminalView { id: id@, kind, sign: sign as int, size }),
    {
        Terminal { id: String::from_str(id), kind, sign, size }
    }
}

} // verus!
