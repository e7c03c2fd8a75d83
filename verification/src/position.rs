use vstd::prelude::*;

verus! {

/// A location in original source text: 1-indexed line, 0-indexed column.
#[derive(Clone, Copy, PartialEq, Eq, Structural, Debug)]
pub struct Pos {
    pub line: u64,
    pub column: u64,
}

/// The range of source text a token occupied, start and end inclusive.
#[derive(Clone, Copy, PartialEq, Eq, Structural, Debug)]
pub struct Span {
    pub start: Pos,
    pub end: Pos,
}

/// The overloaded origin value `{line 1, column 0}`: it is both the initial
/// cursor of a serialization and the marker meaning "no real source
/// position" on a programmatically built token.
pub open spec fn origin() -> Pos {
    Pos { line: 1, column: 0 }
}

/// Whether `p` is the sentinel origin, i.e. carries no usable position.
pub open spec fn is_sentinel(p: Pos) -> bool {
    p.line == 1 && p.column == 0
}

/// Lexicographic order on positions: line first, then column.
pub open spec fn pos_le(a: Pos, b: Pos) -> bool {
    a.line < b.line || (a.line == b.line && a.column <= b.column)
}

/// `a` lies strictly after `b` in source order.
pub open spec fn pos_after(a: Pos, b: Pos) -> bool {
    a.line > b.line || (a.line == b.line && a.column > b.column)
}

impl Pos {
    /// The sentinel origin position as a runtime value.
    pub fn sentinel() -> (r: Pos)
        ensures
            r == origin(),
    {
        Pos { line: 1, column: 0 }
    }
}

impl Span {
    /// A span with no real position data on either side.
    pub fn synthetic() -> (r: Span)
        ensures
            r.start == origin(),
            r.end == origin(),
    {
        Span { start: Pos::sentinel(), end: Pos::sentinel() }
    }
}

} // verus!
