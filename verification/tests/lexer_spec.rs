use katex::lexer::{last_non_combining_mark_index, Lexer};
use katex::types::tokens::Token;
use katex::types::{ParseErrorKind, Settings, SourceLocation, StrictSetting};
use std::sync::Arc;

fn lexer_for(input: &str) -> Lexer {
    Lexer::new(Arc::new(input.to_string()), Settings::new())
}

fn strict_lexer_for(input: &str) -> Lexer {
    Lexer::new(Arc::new(input.to_string()), Settings { strict: StrictSetting::Error })
}

fn next_token(lexer: &mut Lexer) -> Token {
    lexer.lex().expect("expected a token")
}

#[test]
fn lexer_inner_lex() {
    // rejects lone backslash at end of input
    let mut lexer = strict_lexer_for("\\");
    let error = lexer.lex().expect_err("expected a lexing error");
    match error.kind {
        ParseErrorKind::UnexpectedCharacter { character } => {
            assert_eq!(character, "\\");
        },
        other => panic!("Unexpected error kind: {other:?}"),
    }
}

#[test]
fn control_words_exclude_trailing_whitespace() {
    // The token text stops at the word; the position moves past the
    // whitespace consumed after it.
    let mut lexer = lexer_for("\\foo  x");
    let token = next_token(&mut lexer);
    assert_eq!(token.text(), "\\foo");
    assert_eq!(token.loc, Some(SourceLocation { start: 0, end: 6 }));
    assert_eq!(lexer.position(), 6);
    let token = next_token(&mut lexer);
    assert_eq!(token.text(), "x");
    assert_eq!(lexer.position(), 7);
}

#[test]
fn control_word_at_end_of_input() {
    let mut lexer = lexer_for("\\alpha");
    let token = next_token(&mut lexer);
    assert_eq!(token.text(), "\\alpha");
    assert_eq!(lexer.position(), 6);
    let token = next_token(&mut lexer);
    assert_eq!(token.text(), "EOF");
}

#[test]
fn whitespace_collapses_to_one_space_token() {
    let mut lexer = lexer_for(" \t\r\n y");
    let token = next_token(&mut lexer);
    assert_eq!(token.text(), " ");
    assert_eq!(token.loc, Some(SourceLocation { start: 0, end: 5 }));
    assert_eq!(lexer.position(), 5);
}

#[test]
fn control_space_swallows_following_blanks() {
    let mut lexer = lexer_for("\\ \t x");
    let token = next_token(&mut lexer);
    assert_eq!(token.text(), "\\ ");
    assert_eq!(lexer.position(), 4);
    let token = next_token(&mut lexer);
    assert_eq!(token.text(), "x");
}

#[test]
fn control_symbol_is_one_character() {
    let mut lexer = lexer_for("\\%b");
    let token = next_token(&mut lexer);
    assert_eq!(token.text(), "\\%");
    assert_eq!(lexer.position(), 2);
}

#[test]
fn verb_runs_to_matching_delimiter() {
    let mut lexer = lexer_for("\\verb|hi|x");
    let token = next_token(&mut lexer);
    assert_eq!(token.text(), "\\verb|hi|");
    assert_eq!(lexer.position(), 9);
    let token = next_token(&mut lexer);
    assert_eq!(token.text(), "x");
}

#[test]
fn verb_star_allows_letter_delimiter() {
    let mut lexer = lexer_for("\\verb*zaz rest");
    let token = next_token(&mut lexer);
    assert_eq!(token.text(), "\\verb*zaz");
    assert_eq!(lexer.position(), 9);
}

#[test]
fn verb_without_delimiter_falls_back_to_control_word() {
    // Without a matching delimiter on the line, the verbatim rule fails and
    // the word lexes as an ordinary control word.
    let mut lexer = lexer_for("\\verb|hello");
    let token = next_token(&mut lexer);
    assert_eq!(token.text(), "\\verb");
    assert_eq!(lexer.position(), 5);
}

#[test]
fn verb_stops_at_line_break() {
    let mut lexer = lexer_for("\\verb|hello\nworld|");
    let token = next_token(&mut lexer);
    assert_eq!(token.text(), "\\verb");
}

#[test]
fn combining_marks_stay_with_their_base_character() {
    let mut lexer = lexer_for("e\u{0301}x");
    let token = next_token(&mut lexer);
    assert_eq!(token.text(), "e\u{0301}");
    assert_eq!(lexer.position(), 2);
    let token = next_token(&mut lexer);
    assert_eq!(token.text(), "x");
}

#[test]
fn unexpected_character_is_reported_with_its_span() {
    let mut lexer = lexer_for("a\u{0007}b");
    let token = next_token(&mut lexer);
    assert_eq!(token.text(), "a");
    let error = lexer.lex().expect_err("expected a lexing error");
    match error.kind {
        ParseErrorKind::UnexpectedCharacter { character } => {
            assert_eq!(character, "\u{0007}");
        },
        other => panic!("Unexpected error kind: {other:?}"),
    }
    assert_eq!(error.loc, Some(SourceLocation { start: 1, end: 2 }));
}

#[test]
fn comments_run_to_the_end_of_the_line() {
    let mut lexer = lexer_for("a%ignored\nb");
    assert_eq!(next_token(&mut lexer).text(), "a");
    // The comment is skipped; the line break lexes as the space token.
    assert_eq!(next_token(&mut lexer).text(), " ");
    assert_eq!(next_token(&mut lexer).text(), "b");
    assert_eq!(next_token(&mut lexer).text(), "EOF");
}

#[test]
fn comment_at_end_is_fatal_under_the_strict_policy() {
    let mut lexer = strict_lexer_for("a%no newline");
    assert_eq!(next_token(&mut lexer).text(), "a");
    let error = lexer.lex().expect_err("expected a strict-mode error");
    match error.kind {
        ParseErrorKind::StrictModeError { code } => {
            assert_eq!(code, "commentAtEnd");
        },
        other => panic!("Unexpected error kind: {other:?}"),
    }
}

#[test]
fn comment_at_end_records_a_warning_when_warning() {
    let mut lexer = Lexer::new(
        Arc::new("a%no newline".to_string()),
        Settings { strict: StrictSetting::Warn },
    );
    assert_eq!(next_token(&mut lexer).text(), "a");
    let token = next_token(&mut lexer);
    assert_eq!(token.text(), "EOF");
    assert_eq!(lexer.warnings.len(), 1);
    assert_eq!(lexer.warnings[0], "commentAtEnd");
}

#[test]
fn comment_at_end_is_silent_by_default() {
    let mut lexer = lexer_for("a%no newline");
    assert_eq!(next_token(&mut lexer).text(), "a");
    assert_eq!(next_token(&mut lexer).text(), "EOF");
    assert!(lexer.warnings.is_empty());
}

#[test]
fn catcodes_can_be_changed_and_read_back() {
    let mut lexer = lexer_for("zq rest\nb");
    assert_eq!(lexer.get_catcode('%'), Some(14));
    assert_eq!(lexer.get_catcode('~'), Some(13));
    assert_eq!(lexer.get_catcode('q'), None);
    lexer.set_catcode('q', 14);
    assert_eq!(lexer.get_catcode('q'), Some(14));
    assert_eq!(next_token(&mut lexer).text(), "z");
    // With its new category code, the character starts a comment.
    assert_eq!(next_token(&mut lexer).text(), " ");
    assert_eq!(next_token(&mut lexer).text(), "b");
    lexer.set_catcode('q', 12);
    assert_eq!(lexer.get_catcode('q'), Some(12));
}

#[test]
fn positions_support_backtracking() {
    let mut lexer = lexer_for("ab");
    assert_eq!(next_token(&mut lexer).text(), "a");
    assert_eq!(lexer.position(), 1);
    lexer.set_position(0);
    assert_eq!(next_token(&mut lexer).text(), "a");
    assert_eq!(next_token(&mut lexer).text(), "b");
}

#[test]
fn eof_token_is_located_at_the_end() {
    let mut lexer = lexer_for("");
    let token = next_token(&mut lexer);
    assert_eq!(token.text(), "EOF");
    assert_eq!(token.loc, Some(SourceLocation { start: 0, end: 0 }));
    assert_eq!(token.noexpand, None);
    assert_eq!(token.treat_as_relax, None);
}

#[test]
fn last_non_combining_mark_index_finds_the_trailing_run() {
    assert_eq!(last_non_combining_mark_index("abc"), None);
    assert_eq!(last_non_combining_mark_index(""), None);
    assert_eq!(last_non_combining_mark_index("ab\u{0301}"), Some(2));
    assert_eq!(last_non_combining_mark_index("a\u{0301}\u{0302}"), Some(1));
    assert_eq!(last_non_combining_mark_index("\u{0301}\u{0302}"), Some(0));
}
