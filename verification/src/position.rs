use vstd::prelude::*;

verus! {

/// A zero-based (line, column) location in a source document, measured in
/// code units.
#[derive(Clone, Copy, PartialEq, Eq, Structural, Debug)]
pub struct Position {
    pub line: u32,
    pub character: u32,
}

/// A span of source text from `start` to `end`, both zero-based.
#[derive(Clone, Copy, PartialEq, Eq, Structural, Debug)]
pub struct Range {
    pub start: Position,
    pub end: Position,
}

/// `a` comes no later than `b` in line-major document order.
pub open spec fn pos_leq(a: Position, b: Position) -> bool {
    a.line < b.line || (a.line == b.line && a.character <= b.character)
}

/// A cursor is inside a range iff it lies, in line-major document order, in
/// the closed interval between the range's start and end.
pub open spec fn contains_position(range: Range, pos: Position) -> bool {
    pos_leq(range.start, pos) && pos_leq(pos, range.end)
}

/// `inner` lies entirely within `outer` in document order.
pub open spec fn range_within(inner: Range, outer: Range) -> bool {
    pos_leq(outer.start, inner.start) && pos_leq(inner.end, outer.end)
}

/// The all-zero span, used as the default before a node's span is known.
pub open spec fn range_zero() -> Range {
    Range {
        start: Position { line: 0, character: 0 },
        end: Position { line: 0, character: 0 },
    }
}

impl Default for Position {
    fn default() -> (r: Self)
        ensures
            r == (Position { line: 0, character: 0 }),
    {
        Position { line: 0, character: 0 }
    }
}

impl Default for Range {
    fn default() -> (r: Self)
        ensures
            r == range_zero(),
    {
        Range {
            start: Position { line: 0, character: 0 },
            end: Position { line: 0, character: 0 },
        }
    }
}

/// Decides whether an editing cursor falls inside a span, using the closed
/// containment test over line-major document order.
pub fn is_position_in_range(pos: Position, range: Range) -> (r: bool)
    ensures
        r == contains_position(range, pos),
{
    if pos.line < range.start.line || pos.line > range.end.line {
        return false;
    }
    if pos.line == range.start.line && pos.character < range.start.character {
        return false;
    }
    if pos.line == range.end.line && pos.character > range.end.character {
        return false;
    }
    true
}

} // verus!
