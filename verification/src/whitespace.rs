use vstd::prelude::*;
use vstd::string::StringExecFns;

use crate::position::{is_sentinel, pos_after, Pos};

verus! {

/// A run of `n` copies of the character `ch`.
pub open spec fn char_run(ch: char, n: nat) -> Seq<char> {
    Seq::new(n, |i| ch)
}

/// The exact whitespace needed to advance from `prev` (last emitted
/// position) to `curr` (next target position): newlines down to the target
/// line, then spaces along the arrival line.  Nothing is emitted when either
/// side is the sentinel origin (no real position to measure from or to) or
/// when `prev` lies strictly after `curr` (a stale span must never produce a
/// negative gap).
pub open spec fn gap_text(prev: Pos, curr: Pos) -> Seq<char> {
    if is_sentinel(prev) || is_sentinel(curr) || pos_after(prev, curr) {
        Seq::empty()
    } else {
        let newlines = (curr.line - prev.line) as nat;
        let spaces = if curr.line > prev.line {
            curr.column as nat
        } else {
            (curr.column - prev.column) as nat
        };
        char_run('\n', newlines) + char_run(' ', spaces)
    }
}

/// Appends `n` copies of the single character held by `unit` to `code`.
fn push_repeat(code: &mut String, unit: &str, n: u64)
    requires
        unit@.len() == 1,
    ensures
        final(code)@ == old(code)@ + char_run(unit@[0], n as nat),
{
    let ghost start = code@;
    let mut i: u64 = 0;
    proof {
        assert(code@ =~= start + char_run(unit@[0], 0));
    }
    while i < n
        invariant
            unit@.len() == 1,
            i <= n,
            code@ == start + char_run(unit@[0], i as nat),
        decreases n - i,
    {
        code.append(unit);
        i = i + 1;
        proof {
            assert(start + char_run(unit@[0], (i - 1) as nat) + unit@ =~= start + char_run(
                unit@[0],
                i as nat,
            ));
        }
    }
}

/// Appends to `code` exactly `gap_text(*prev, *curr)`: the whitespace that
/// carries the cursor from `prev` to `curr`.
pub fn fill_whitespace(prev: &Pos, curr: &Pos, code: &mut String)
    ensures
        final(code)@ == old(code)@ + gap_text(*prev, *curr),
{
    proof {
        reveal_strlit("\n");
        reveal_strlit(" ");
    }
    if (prev.line == 1 && prev.column == 0) || (curr.line == 1 && curr.column == 0) || prev.line
        > curr.line || (prev.line == curr.line && prev.column > curr.column) {
        proof {
            assert(code@ =~= code@ + gap_text(*prev, *curr));
        }
        return ;
    }
    let newlines: u64 = curr.line - prev.line;
    let spaces: u64 = if curr.line > prev.line {
        curr.column
    } else {
        curr.column - prev.column
    };
    let ghost start = code@;
    push_repeat(code, "\n", newlines);
    push_repeat(code, " ", spaces);
    proof {
        assert(code@ =~= start + gap_text(*prev, *curr));
    }
}

} // verus!
