use vstd::prelude::*;

use crate::position::{origin, pos_le, Pos, Span};
use crate::serialize::{stream_from, token_step};
use crate::tokens::{stream_ordered, Token};

verus! {

/// The cursor and adjacent-identifier flag the serializer holds just before
/// it processes the token at index `j`, in a run over `toks` that starts
/// from cursor `c` and flag `ns`.
pub open spec fn state_before(toks: Seq<Token>, j: int, c: Pos, ns: bool) -> (Pos, bool)
    decreases j,
{
    if j <= 0 {
        (c, ns)
    } else {
        let prev = state_before(toks, j - 1, c, ns);
        let s = token_step(toks[j - 1], prev.0, prev.1);
        (s.1, s.2)
    }
}

/// The text the serializer has emitted just before it processes the token at
/// index `j`, in a run over `toks` from cursor `c` and flag `ns`.
pub open spec fn text_before(toks: Seq<Token>, j: int, c: Pos, ns: bool) -> Seq<char>
    decreases j,
{
    if j <= 0 {
        Seq::empty()
    } else {
        let prev = state_before(toks, j - 1, c, ns);
        text_before(toks, j - 1, c, ns) + token_step(toks[j - 1], prev.0, prev.1).0
    }
}

/// After any single token, the cursor stands exactly at that token's end
/// position, whatever the cursor and flag were before it.
pub proof fn lemma_token_step_end(t: Token, c: Pos, ns: bool)
    ensures
        token_step(t, c, ns).1 == t.end(),
{
}

/// A run over a whole stream splits at any index `j`: what it emits is the
/// text emitted before token `j` followed by the suffix's text, the suffix
/// continues exactly from the state reached before token `j`, and it ends in
/// the same cursor and flag as the whole run.
pub proof fn lemma_run_splits(toks: Seq<Token>, j: int, c: Pos, ns: bool)
    requires
        0 <= j <= toks.len(),
    ensures
        ({
            let sb = state_before(toks, j, c, ns);
            let whole = stream_from(toks, 0, c, ns);
            let suffix = stream_from(toks, j, sb.0, sb.1);
            &&& whole.0 == text_before(toks, j, c, ns) + suffix.0
            &&& whole.1 == suffix.1
            &&& whole.2 == suffix.2
        }),
    decreases j,
{
    let sb = state_before(toks, j, c, ns);
    let whole = stream_from(toks, 0, c, ns);
    let suffix = stream_from(toks, j, sb.0, sb.1);
    if j == 0 {
        assert(whole.0 =~= text_before(toks, j, c, ns) + suffix.0);
    } else {
        lemma_run_splits(toks, j - 1, c, ns);
        let prev = state_before(toks, j - 1, c, ns);
        let step = token_step(toks[j - 1], prev.0, prev.1);
        assert(stream_from(toks, j - 1, prev.0, prev.1).0 =~= step.0 + suffix.0);
        assert(whole.0 =~= text_before(toks, j, c, ns) + suffix.0);
    }
}

/// Monotonic cursor: in a stream whose spans are in source order, the cursor
/// the serializer holds just before any token after the first is no later,
/// lexicographically, than that token's start position.
pub proof fn lemma_monotonic_cursor(toks: Seq<Token>, j: int, c: Pos, ns: bool)
    requires
        stream_ordered(toks),
        1 <= j < toks.len(),
    ensures
        pos_le(state_before(toks, j, c, ns).0, toks[j].start()),
{
    let prev = state_before(toks, j - 1, c, ns);
    lemma_token_step_end(toks[j - 1], prev.0, prev.1);
    assert(pos_le(toks[j - 1].end(), toks[j].start()));
}

/// Forced spacing: two adjacent identifiers both carrying the sentinel span
/// serialize, from any starting cursor and no pending identifier, to the
/// first identifier's text, exactly one space, and the second identifier's
/// text — never zero spaces, whatever the cursor was.
pub proof fn lemma_forced_space(a: String, b: String, c: Pos)
    ensures
        ({
            let s = Span { start: origin(), end: origin() };
            let toks = seq![
                Token::Ident { text: a, span: s },
                Token::Ident { text: b, span: s },
            ];
            stream_from(toks, 0, c, false).0 == a@ + seq![' '] + b@
        }),
{
    let s = Span { start: origin(), end: origin() };
    let toks = seq![Token::Ident { text: a, span: s }, Token::Ident { text: b, span: s }];
    let first = token_step(toks[0], c, false);
    assert(first.0 =~= a@);
    let second = token_step(toks[1], first.1, first.2);
    assert(second.0 =~= seq![' '] + b@);
    assert(stream_from(toks, 2, second.1, second.2).0 =~= Seq::<char>::empty());
    assert(stream_from(toks, 1, first.1, first.2).0 =~= second.0 + stream_from(
        toks,
        2,
        second.1,
        second.2,
    ).0);
    assert(stream_from(toks, 0, c, false).0 =~= first.0 + stream_from(toks, 1, first.1, first.2).0);
    assert(stream_from(toks, 0, c, false).0 =~= a@ + seq![' '] + b@);
}

} // verus!
