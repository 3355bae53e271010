//! Source locations attached to diagnostics.
use vstd::prelude::*;
use vstd::string::StringExecFns;

use crate::text::{decimal, push_decimal};

verus! {

/// A location in a script: a line and a column, or no location at all.
#[derive(Clone, Copy, Debug, PartialEq, Eq, Structural)]
pub enum Position {
    /// The location is not known (yet).
    Unknown,
    /// One-based line and column.
    At { line: usize, column: usize },
}

impl Position {
    /// A position at the given line and column.
    pub fn new(line: usize, column: usize) -> (r: Position)
        ensures
            r == (Position::At { line, column }),
    {
        Position::At { line, column }
    }

    /// The "unknown" position.
    pub fn none() -> (r: Position)
        ensures
            r == Position::Unknown,
    {
        Position::Unknown
    }

    /// Whether this is the "unknown" position.
    pub fn is_none(&self) -> (r: bool)
        ensures
            r == (*self is Unknown),
    {
        match self {
            Position::Unknown => true,
            Position::At { .. } => false,
        }
    }

    /// The line number, if the position is known.
    pub fn line(&self) -> (r: Option<usize>)
        ensures
            r == (match *self {
                Position::Unknown => None,
                Position::At { line, .. } => Some(line),
            }),
    {
        match self {
            Position::Unknown => None,
            Position::At { line, .. } => Some(*line),
        }
    }

    /// The column number, if the position is known.
    pub fn column(&self) -> (r: Option<usize>)
        ensures
            r == (match *self {
                Position::Unknown => None,
                Position::At { column, .. } => Some(column),
            }),
    {
        match self {
            Position::Unknown => None,
            Position::At { column, .. } => Some(*column),
        }
    }

    /// The text of a position: `none`, or `line L, position C`.
    pub open spec fn text(self) -> Seq<char> {
        match self {
            Position::Unknown => "none"@,
            Position::At { line, column } => "line "@ + decimal(line as nat) + ", position "@
                + decimal(column as nat),
        }
    }

    /// Appends the text of this position to `out`.
    pub fn write_to(&self, out: &mut String)
        ensures
            final(out)@ == old(out)@ + self.text(),
    {
        match self {
            Position::Unknown => out.append("none"),
            Position::At { line, column } => {
                out.append("line ");
                push_decimal(out, *line as u64);
                out.append(", position ");
                push_decimal(out, *column as u64);
            },
        }
    }

    /// The text of this position as a new string.
    pub fn to_text(&self) -> (r: String)
        ensures
            r@ == self.text(),
    {
        let mut out = String::new();
        self.write_to(&mut out);
        out
    }
}

} // verus!
