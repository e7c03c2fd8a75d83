use vstd::prelude::*;
use vstd::string::StringExecFns;

use crate::position::{is_sentinel, origin, Pos};
use crate::tokens::{Delim, Token};
use crate::whitespace::{fill_whitespace, gap_text};

verus! {

/// The character that opens a group of the given delimiter kind.  An
/// invisible grouping is rendered with a placeholder glyph.
pub open spec fn open_text(d: Delim) -> Seq<char> {
    match d {
        Delim::Parenthesis => seq!['('],
        Delim::Brace => seq!['{'],
        Delim::Bracket => seq!['['],
        Delim::NoDelim => seq!['\u{d8}'],
    }
}

/// The character that closes a group of the given delimiter kind.
pub open spec fn close_text(d: Delim) -> Seq<char> {
    match d {
        Delim::Parenthesis => seq![')'],
        Delim::Brace => seq!['}'],
        Delim::Bracket => seq![']'],
        Delim::NoDelim => seq!['\u{d8}'],
    }
}

/// The cursor value right after a group's open delimiter: one column past
/// the delimiter's start, which occupies exactly one character.  The bump
/// stops at the machine limit so the serializer stays total.
pub open spec fn after_open(p: Pos) -> Pos {
    Pos {
        line: p.line,
        column: if p.column == u64::MAX {
            p.column
        } else {
            (p.column + 1) as u64
        },
    }
}

/// The whitespace target before a close delimiter: the delimiter span's end
/// with the column stepped back by one (never below zero), i.e. the position
/// just before the closing character itself.
pub open spec fn before_close(p: Pos) -> Pos {
    Pos {
        line: p.line,
        column: if p.column > 0 {
            (p.column - 1) as u64
        } else {
            0
        },
    }
}

/// Serializing one token from cursor `c` with adjacent-identifier flag `ns`:
/// the text emitted, the cursor afterwards, and the flag afterwards.
///
/// A leaf emits the gap from `c` to its start, then its own text, and leaves
/// the cursor at its end.  An identifier whose gap cannot be measured (the
/// cursor or the identifier's start is the sentinel) is preceded by one
/// forced space when the previous token was also an identifier, so two
/// synthetic identifiers never glue together.  A group emits the gap to its
/// open delimiter, the delimiter, its inner stream from a fresh flag, the
/// gap to just before its close delimiter, and the close delimiter, and
/// leaves the cursor at the close delimiter's true end.
pub open spec fn token_step(t: Token, c: Pos, ns: bool) -> (Seq<char>, Pos, bool)
    decreases t, 0nat, 0nat,
{
    match t {
        Token::Ident { text, span } => {
            let forced: Seq<char> = if ns && (is_sentinel(c) || is_sentinel(span.start)) {
                seq![' ']
            } else {
                Seq::empty()
            };
            (forced + gap_text(c, span.start) + text@, span.end, true)
        },
        Token::Literal { text, span } => (gap_text(c, span.start) + text@, span.end, false),
        Token::Punct { text, span } => (gap_text(c, span.start) + text@, span.end, false),
        Token::Group { delim, open, close, inner } => {
            let body = stream_from(inner@, 0, after_open(open.start), false);
            (
                gap_text(c, open.start) + open_text(delim) + body.0 + gap_text(
                    body.1,
                    before_close(close.end),
                ) + close_text(delim),
                close.end,
                false,
            )
        },
    }
}

/// Serializing the tokens of `toks` from index `i` on, from cursor `c` and
/// adjacent-identifier flag `ns`: the text emitted, the final cursor, and
/// the final flag.
pub open spec fn stream_from(toks: Seq<Token>, i: int, c: Pos, ns: bool) -> (Seq<char>, Pos, bool)
    decreases toks, toks.len() - i + 1, 1nat,
{
    if i < 0 || i >= toks.len() {
        (Seq::empty(), c, ns)
    } else {
        let first = token_step(toks[i], c, ns);
        let rest = stream_from(toks, i + 1, first.1, first.2);
        (first.0 + rest.0, rest.1, rest.2)
    }
}

/// The raw source text a whole stream reconstructs to: serialization from a
/// fresh origin cursor with no pending identifier.
pub open spec fn raw_code(toks: Seq<Token>) -> Seq<char> {
    stream_from(toks, 0, origin(), false).0
}

/// Appends the open-delimiter character of `d` to `code`.
fn push_open(d: &Delim, code: &mut String)
    ensures
        final(code)@ == old(code)@ + open_text(*d),
{
    proof {
        reveal_strlit("(");
        reveal_strlit("{");
        reveal_strlit("[");
        reveal_strlit("\u{d8}");
    }
    match d {
        Delim::Parenthesis => code.append("("),
        Delim::Brace => code.append("{"),
        Delim::Bracket => code.append("["),
        Delim::NoDelim => code.append("\u{d8}"),
    }
    proof {
        assert(code@ =~= old(code)@ + open_text(*d));
    }
}

/// Appends the close-delimiter character of `d` to `code`.
fn push_close(d: &Delim, code: &mut String)
    ensures
        final(code)@ == old(code)@ + close_text(*d),
{
    proof {
        reveal_strlit(")");
        reveal_strlit("}");
        reveal_strlit("]");
        reveal_strlit("\u{d8}");
    }
    match d {
        Delim::Parenthesis => code.append(")"),
        Delim::Brace => code.append("}"),
        Delim::Bracket => code.append("]"),
        Delim::NoDelim => code.append("\u{d8}"),
    }
    proof {
        assert(code@ =~= old(code)@ + close_text(*d));
    }
}

/// Serializes the tokens of `tokens` from index `i` on into `code`,
/// threading the cursor and the adjacent-identifier flag, and returns the
/// flag's final value; emitted text, cursor and flag are exactly what
/// `stream_from` says.
#[verifier::rlimit(60)]
fn emit_from(tokens: &Vec<Token>, i: usize, code: &mut String, cursor: &mut Pos, ns: bool) -> (r:
    bool)
    requires
        i <= tokens@.len(),
    ensures
        ({
            let s = stream_from(tokens@, i as int, *old(cursor), ns);
            &&& final(code)@ == old(code)@ + s.0
            &&& *final(cursor) == s.1
            &&& r == s.2
        }),
    decreases tokens@, tokens@.len() - i + 1, 1nat,
{
    if i == tokens.len() {
        proof {
            assert(code@ =~= code@ + Seq::<char>::empty());
        }
        return ns;
    }
    let ghost c0 = *cursor;
    let ghost code0 = code@;
    let ghost step = token_step(tokens@[i as int], c0, ns);
    match &tokens[i] {
        Token::Ident { text, span } => {
            if ns && ((cursor.line == 1 && cursor.column == 0) || (span.start.line == 1
                && span.start.column == 0)) {
                proof {
                    reveal_strlit(" ");
                }
                code.append(" ");
                proof {
                    assert(code@ =~= code0 + seq![' ']);
                }
            }
            fill_whitespace(cursor, &span.start, code);
            code.append(text.as_str());
            *cursor = span.end;
            proof {
                assert(code@ =~= code0 + step.0);
            }
            emit_from(tokens, i + 1, code, cursor, true)
        },
        Token::Literal { text, span } => {
            fill_whitespace(cursor, &span.start, code);
            code.append(text.as_str());
            *cursor = span.end;
            proof {
                assert(code@ =~= code0 + step.0);
            }
            emit_from(tokens, i + 1, code, cursor, false)
        },
        Token::Punct { text, span } => {
            fill_whitespace(cursor, &span.start, code);
            code.append(text.as_str());
            *cursor = span.end;
            proof {
                assert(code@ =~= code0 + step.0);
            }
            emit_from(tokens, i + 1, code, cursor, false)
        },
        Token::Group { delim, open, close, inner } => {
            fill_whitespace(cursor, &open.start, code);
            let bumped: u64 = if open.start.column == u64::MAX {
                open.start.column
            } else {
                open.start.column + 1
            };
            *cursor = Pos { line: open.start.line, column: bumped };
            push_open(delim, code);
            let _inner_flag = emit_from(inner, 0, code, cursor, false);
            let target = Pos {
                line: close.end.line,
                column: if close.end.column > 0 {
                    close.end.column - 1
                } else {
                    0
                },
            };
            fill_whitespace(cursor, &target, code);
            *cursor = close.end;
            push_close(delim, code);
            proof {
                assert(code@ =~= code0 + step.0);
            }
            emit_from(tokens, i + 1, code, cursor, false)
        },
    }
}

/// Serializes a whole token stream into `code`, threading `cursor` through
/// every emitted token; the cursor starts as the caller left it, so sibling
/// streams can share one cursor across calls.
pub fn into_code_with_original_whitespace(tokens: &Vec<Token>, code: &mut String, cursor: &mut Pos)
    ensures
        ({
            let s = stream_from(tokens@, 0, *old(cursor), false);
            &&& final(code)@ == old(code)@ + s.0
            &&& *final(cursor) == s.1
        }),
{
    let _ = emit_from(tokens, 0, code, cursor, false);
}

/// Reconstructs the raw source text of a whole stream, from a fresh buffer
/// and a fresh origin cursor.
pub fn to_code_text(tokens: &Vec<Token>) -> (r: String)
    ensures
        r@ == raw_code(tokens@),
{
    let mut code = String::new();
    let mut cursor = Pos::sentinel();
    into_code_with_original_whitespace(tokens, &mut code, &mut cursor);
    proof {
        assert(code@ =~= raw_code(tokens@));
    }
    code
}

} // verus!
