use vstd::prelude::*;

verus! {

/// A zero-based editor position: a line and a column within that line.
#[derive(Debug, Clone, Copy, PartialEq, Eq, Structural)]
pub struct Position {
    pub line: u32,
    pub character: u32,
}

/// A span of a document, from `start` to `end`.
#[derive(Debug, Clone, Copy, PartialEq, Eq, Structural)]
pub struct Range {
    pub start: Position,
    pub end: Position,
}

/// A zero-based point as the syntax tree reports it: a row and a column.
#[derive(Debug, Clone, Copy, PartialEq, Eq, Structural)]
pub struct Point {
    pub row: usize,
    pub column: usize,
}

/// Positions are ordered by line, then by column.
pub open spec fn pos_le(a: Position, b: Position) -> bool {
    a.line < b.line || (a.line == b.line && a.character <= b.character)
}

pub open spec fn pos_min(a: Position, b: Position) -> Position {
    if pos_le(a, b) { a } else { b }
}

pub open spec fn pos_max(a: Position, b: Position) -> Position {
    if pos_le(a, b) { b } else { a }
}

/// Containment is inclusive at both ends.
pub open spec fn spec_range_contains(range: Range, pos: Position) -> bool {
    pos_le(range.start, pos) && pos_le(pos, range.end)
}

/// A single integer that orders ranges by start, then by end.
pub open spec fn range_key(r: Range) -> int {
    r.start.line * 0x1_0000_0000_0000_0000_0000_0000 + r.start.character * 0x1_0000_0000_0000_0000
        + r.end.line * 0x1_0000_0000 + r.end.character
}

pub open spec fn spec_point_to_position(point: Point) -> Position {
    Position { line: point.row as u32, character: point.column as u32 }
}

pub fn position_le(a: Position, b: Position) -> (r: bool)
    ensures
        r == pos_le(a, b),
{
    a.line < b.line || (a.line == b.line && a.character <= b.character)
}

/// Whether range `a` sorts at or before range `b`: by start, then by end.
pub fn range_key_le(a: Range, b: Range) -> (r: bool)
    ensures
        r == (range_key(a) <= range_key(b)),
{
    if a.start != b.start {
        position_le(a.start, b.start)
    } else {
        position_le(a.end, b.end)
    }
}

/// Converts a syntax-tree point to an editor position; each coordinate is
/// narrowed to 32 bits.
pub fn point_to_position(point: Point) -> (r: Position)
    ensures
        r == spec_point_to_position(point),
{
    Position {
        line: #[verifier::truncate] (point.row as u32),
        character: #[verifier::truncate] (point.column as u32),
    }
}

/// Whether `pos` lies within `range`, both ends included.
pub fn range_contains(range: Range, pos: Position) -> (r: bool)
    ensures
        r == spec_range_contains(range, pos),
{
    position_le(range.start, pos) && position_le(pos, range.end)
}

/// The smallest range covering both: the earlier start and the later end.
pub fn range_extend(range: Range, other: Range) -> (r: Range)
    ensures
        r.start == pos_min(range.start, other.start),
        r.end == pos_max(range.end, other.end),
{
    let start = if position_le(range.start, other.start) {
        range.start
    } else {
        other.start
    };
    let end = if position_le(range.end, other.end) {
        other.end
    } else {
        range.end
    };
    Range { start, end }
}

} // verus!
