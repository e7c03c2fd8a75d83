use proc_macro2_whitespace::position::{Pos, Span};
use proc_macro2_whitespace::serialize::{into_code_with_original_whitespace, to_code_text};
use proc_macro2_whitespace::tokens::{Delim, Token};

fn ident(text: &str, span: Span) -> Token {
    Token::Ident { text: text.to_string(), span }
}

fn punct(text: &str, span: Span) -> Token {
    Token::Punct { text: text.to_string(), span }
}

fn at(line: u64, column: u64) -> Pos {
    Pos { line, column }
}

fn real_span(l1: u64, c1: u64, l2: u64, c2: u64) -> Span {
    Span { start: at(l1, c1), end: at(l2, c2) }
}

#[test]
fn empty_stream_serializes_to_nothing() {
    let toks: Vec<Token> = Vec::new();
    assert_eq!(to_code_text(&toks), "");
}

#[test]
fn empty_parenthesis_group_serializes_to_bare_delimiters() {
    let toks = vec![Token::Group {
        delim: Delim::Parenthesis,
        open: Span::synthetic(),
        close: Span::synthetic(),
        inner: Vec::new(),
    }];
    assert_eq!(to_code_text(&toks), "()");
}

#[test]
fn adjacent_synthetic_identifiers_get_exactly_one_space() {
    let toks = vec![
        ident("pub", Span::synthetic()),
        ident("fn", Span::synthetic()),
    ];
    assert_eq!(to_code_text(&toks), "pub fn");
}

#[test]
fn no_forced_space_after_non_identifier() {
    let toks = vec![
        punct(";", Span::synthetic()),
        ident("fn", Span::synthetic()),
    ];
    assert_eq!(to_code_text(&toks), ";fn");
}

#[test]
fn same_line_gap_becomes_spaces() {
    let toks = vec![
        ident("x", real_span(1, 1, 1, 2)),
        ident("y", real_span(1, 7, 1, 8)),
    ];
    // The first token has a real position, but the cursor starts as the
    // sentinel, so nothing precedes it; then 7 - 2 = 5 spaces.
    assert_eq!(to_code_text(&toks), "x     y");
}

#[test]
fn line_gap_becomes_newlines_then_absolute_column() {
    let toks = vec![
        ident("x", real_span(1, 1, 1, 2)),
        punct(";", real_span(3, 4, 3, 5)),
    ];
    assert_eq!(to_code_text(&toks), "x\n\n    ;");
}

#[test]
fn stale_span_emits_no_whitespace_and_no_forced_space() {
    let toks = vec![
        ident("a", real_span(3, 0, 3, 1)),
        ident("b", real_span(1, 5, 1, 6)),
    ];
    // The second token starts before the cursor: the gap is dropped rather
    // than made negative, and both sides have real positions, so no forced
    // space either.
    assert_eq!(to_code_text(&toks), "ab");
}

#[test]
fn synthetic_function_tree_serializes_with_minimal_spacing() {
    let s = Span::synthetic;
    let toks = vec![
        ident("pub", s()),
        ident("fn", s()),
        ident("nop", s()),
        Token::Group {
            delim: Delim::Parenthesis,
            open: s(),
            close: s(),
            inner: vec![
                ident("arg", s()),
                punct(":", s()),
                punct("&", s()),
                punct("'", s()),
                ident("static", s()),
                ident("str", s()),
            ],
        },
        punct("-", s()),
        punct(">", s()),
        punct("&", s()),
        punct("'", s()),
        ident("static", s()),
        ident("str", s()),
        Token::Group {
            delim: Delim::Brace,
            open: s(),
            close: s(),
            inner: vec![ident("arg", s())],
        },
    ];
    assert_eq!(
        to_code_text(&toks),
        "pub fn nop(arg:&'static str)->&'static str{arg}"
    );
}

#[test]
fn invisible_delimiter_uses_placeholder_glyph() {
    let toks = vec![Token::Group {
        delim: Delim::NoDelim,
        open: Span::synthetic(),
        close: Span::synthetic(),
        inner: Vec::new(),
    }];
    assert_eq!(to_code_text(&toks), "\u{d8}\u{d8}");
}

#[test]
fn cursor_ends_at_last_token_end() {
    let toks = vec![ident("x", real_span(1, 5, 1, 6))];
    let mut code = String::new();
    let mut cursor = Pos::sentinel();
    into_code_with_original_whitespace(&toks, &mut code, &mut cursor);
    assert_eq!(code, "x");
    assert_eq!(cursor, at(1, 6));
}

#[test]
fn serialization_resumes_from_a_threaded_cursor() {
    let toks = vec![ident("y", real_span(1, 5, 1, 6))];
    let mut code = String::new();
    let mut cursor = at(1, 1);
    into_code_with_original_whitespace(&toks, &mut code, &mut cursor);
    assert_eq!(code, "    y");
    assert_eq!(cursor, at(1, 6));
}

#[test]
fn group_close_aligns_to_column_before_close_character() {
    // A brace group whose close delimiter sits at the start of a later line:
    // the gap inside the group runs to the column just before the brace.
    let toks = vec![Token::Group {
        delim: Delim::Brace,
        open: real_span(1, 13, 1, 14),
        close: real_span(3, 0, 3, 1),
        inner: vec![ident("arg", real_span(2, 4, 2, 7))],
    }];
    assert_eq!(to_code_text(&toks), "{\n    arg\n}");
}
