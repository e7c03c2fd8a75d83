use vstd::prelude::*;

use crate::position::{pos_le, Pos, Span};

verus! {

/// The delimiter kind of a group.  `NoDelim` is an invisible grouping with
/// no delimiter characters of its own in the original source.
#[derive(Clone, Copy, PartialEq, Eq, Structural, Debug)]
pub enum Delim {
    Parenthesis,
    Brace,
    Bracket,
    NoDelim,
}

/// One node of the token tree.  Leaf tokens carry their literal text and the
/// span they occupied in original source; a group carries its delimiter
/// kind, the spans of the open and close delimiter characters, and the
/// nested stream between them.
pub enum Token {
    Ident { text: String, span: Span },
    Literal { text: String, span: Span },
    Punct { text: String, span: Span },
    Group { delim: Delim, open: Span, close: Span, inner: Vec<Token> },
}

impl Token {
    /// Where the token's first character stood in original source; for a
    /// group, where its open delimiter stood.
    pub open spec fn start(self) -> Pos {
        match self {
            Token::Ident { span, .. } => span.start,
            Token::Literal { span, .. } => span.start,
            Token::Punct { span, .. } => span.start,
            Token::Group { open, .. } => open.start,
        }
    }

    /// Where the token ended in original source; for a group, the end of its
    /// close delimiter.
    pub open spec fn end(self) -> Pos {
        match self {
            Token::Ident { span, .. } => span.end,
            Token::Literal { span, .. } => span.end,
            Token::Punct { span, .. } => span.end,
            Token::Group { close, .. } => close.end,
        }
    }
}

/// The spans of a stream appear in source order: each token ends no later
/// (lexicographically) than its successor starts.
pub open spec fn stream_ordered(toks: Seq<Token>) -> bool {
    forall|i: int|
        0 <= i && i + 1 < toks.len() ==> pos_le(#[trigger] toks[i].end(), toks[i + 1].start())
}

} // verus!
