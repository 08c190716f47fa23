//! Source positions and spans.
//!
//! A position is a one-based line and column; a span is a pair of positions.
//! Positions are ordered by line, then by column.

use vstd::prelude::*;

verus! {

/// A one-based line and column in the source text.
#[derive(Debug, Clone, Copy, Hash, PartialEq, Eq, PartialOrd, Ord, Structural)]
pub struct Position {
    pub line: u32,
    pub column: u32,
}

/// A range of the source text, from `start` up to `end`.
#[derive(Debug, Clone, Copy, Hash, PartialEq, Eq, Structural)]
pub struct Span {
    pub start: Position,
    pub end: Position,
}

impl Position {
    /// The order of positions: line first, then column.
    pub open spec fn at_most(self, other: Position) -> bool {
        self.line < other.line || (self.line == other.line && self.column <= other.column)
    }

    /// The earlier of two positions.
    pub open spec fn spec_earliest(self, other: Position) -> Position {
        if self.at_most(other) {
            self
        } else {
            other
        }
    }

    /// The later of two positions.
    pub open spec fn spec_latest(self, other: Position) -> Position {
        if self.at_most(other) {
            other
        } else {
            self
        }
    }

    /// Creates a position from a line and a column.
    pub fn new(line: u32, column: u32) -> (r: Position)
        ensures
            r == (Position { line, column }),
    {
        Position { line, column }
    }

    /// Tells whether `self` comes before `other` or is equal to it.
    pub fn precedes(&self, other: &Position) -> (r: bool)
        ensures
            r == self.at_most(*other),
    {
        self.line < other.line || (self.line == other.line && self.column <= other.column)
    }

    /// The earlier of two positions.
    pub fn earliest(self, other: Position) -> (r: Position)
        ensures
            r == self.spec_earliest(other),
    {
        if self.precedes(&other) {
            self
        } else {
            other
        }
    }

    /// The later of two positions.
    pub fn latest(self, other: Position) -> (r: Position)
        ensures
            r == self.spec_latest(other),
    {
        if self.precedes(&other) {
            other
        } else {
            self
        }
    }
}

impl Default for Position {
    fn default() -> (r: Position)
        ensures
            r == (Position { line: 0, column: 0 }),
    {
        Position { line: 0, column: 0 }
    }
}

impl Default for Span {
    fn default() -> (r: Span)
        ensures
            r == (Span {
                start: Position { line: 0, column: 0 },
                end: Position { line: 0, column: 0 },
            }),
    {
        Span { start: Position { line: 0, column: 0 }, end: Position { line: 0, column: 0 } }
    }
}

impl Span {
    /// The smallest span that covers both spans: the earlier start and the
    /// later end.
    pub open spec fn spec_union(self, other: Span) -> Span {
        Span {
            start: self.start.spec_earliest(other.start),
            end: self.end.spec_latest(other.end),
        }
    }

    /// Creates a span from its two ends.
    pub fn new(start: Position, end: Position) -> (r: Span)
        ensures
            r == (Span { start, end }),
    {
        Span { start, end }
    }

    /// The smallest span that covers both spans.
    pub fn union(self, other: Span) -> (r: Span)
        ensures
            r == self.spec_union(other),
    {
        Span { start: self.start.earliest(other.start), end: self.end.latest(other.end) }
    }

    /// Widens `self` so that it covers `other` too.
    pub fn extend(&mut self, other: Span)
        ensures
            *final(self) == old(self).spec_union(other),
    {
        self.start = self.start.earliest(other.start);
        self.end = self.end.latest(other.end);
    }
}

/// The order of positions is reflexive.
pub proof fn lemma_at_most_reflexive(a: Position)
    ensures
        a.at_most(a),
{
}

/// The order of positions is transitive.
pub proof fn lemma_at_most_transitive(a: Position, b: Position, c: Position)
    requires
        a.at_most(b),
        b.at_most(c),
    ensures
        a.at_most(c),
{
}

/// The order of positions is total and antisymmetric.
pub proof fn lemma_at_most_total(a: Position, b: Position)
    ensures
        a.at_most(b) || b.at_most(a),
        a.at_most(b) && b.at_most(a) ==> a == b,
{
}

/// The union of spans is commutative.
pub proof fn lemma_union_commutative(a: Span, b: Span)
    ensures
        a.spec_union(b) == b.spec_union(a),
{
}

/// The union of spans is associative.
pub proof fn lemma_union_associative(a: Span, b: Span, c: Span)
    ensures
        a.spec_union(b).spec_union(c) == a.spec_union(b.spec_union(c)),
{
}

/// The union of a span with itself is that span.
pub proof fn lemma_union_idempotent(a: Span)
    ensures
        a.spec_union(a) == a,
{
}

} // verus!
