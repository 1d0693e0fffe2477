//! End-to-end tests of the scanning engine.

use highlighter::{CaptureScopes, Lexer, LexerContext, Scope, Token, TokenContext};

fn plain_registry(rules: &[(Scope, &str)]) -> LexerContext<CaptureScopes> {
    let mut cx = LexerContext::new();
    for (scope, pattern) in rules {
        cx.token(*scope, pattern).expect("pattern should compile");
    }
    cx
}

fn token(scope: Scope, value: &str) -> Token {
    Token { scope, value: value.to_string() }
}

#[test]
fn token_context_accumulates_in_order() {
    let mut acc = TokenContext::new();
    acc.token(Scope::Comment, "a");
    acc.token(Scope::Invalid, "b");
    assert_eq!(
        acc.into_tokens(),
        vec![token(Scope::Comment, "a"), token(Scope::Invalid, "b")]
    );
}

#[test]
fn keywords_and_numbers_scenario() {
    let cx = plain_registry(&[
        (Scope::KeywordControl, r"\b(if|else)\b"),
        (Scope::ConstantNumber, r"\b[0-9]+\b"),
    ]);
    let tokens = Lexer::from_context(cx).lex("if 0 else 1");
    assert_eq!(
        tokens,
        vec![
            token(Scope::KeywordControl, "if"),
            token(Scope::Unscoped, " "),
            token(Scope::ConstantNumber, "0"),
            token(Scope::Unscoped, " "),
            token(Scope::KeywordControl, "else"),
            token(Scope::Unscoped, " "),
            token(Scope::ConstantNumber, "1"),
        ]
    );
}

#[test]
fn handler_scenario() {
    let mut cx = LexerContext::new();
    let handler = CaptureScopes::new(vec![(1, Scope::NameFunction), (2, Scope::KeywordOther)]);
    cx.advanced_token(r"(name)(\(\))", handler).expect("pattern should compile");
    let tokens = Lexer::from_context(cx).lex("name()");
    assert_eq!(
        tokens,
        vec![token(Scope::NameFunction, "name"), token(Scope::KeywordOther, "()")]
    );
}

#[test]
fn handler_skips_absent_groups() {
    let mut cx = LexerContext::new();
    let handler = CaptureScopes::new(vec![
        (1, Scope::ConstantNumber),
        (2, Scope::NameFunction),
        (7, Scope::Invalid),
    ]);
    cx.advanced_token(r"([0-9]+)|([a-z]+)", handler).expect("pattern should compile");
    let tokens = Lexer::from_context(cx).lex("abc12");
    assert_eq!(
        tokens,
        vec![token(Scope::NameFunction, "abc"), token(Scope::ConstantNumber, "12")]
    );
}

#[test]
fn empty_registry_one_fallback_token_per_character() {
    let cx: LexerContext<CaptureScopes> = LexerContext::new();
    let tokens = Lexer::from_context(cx).lex("ab c");
    assert_eq!(
        tokens,
        vec![
            token(Scope::Unscoped, "a"),
            token(Scope::Unscoped, "b"),
            token(Scope::Unscoped, " "),
            token(Scope::Unscoped, "c"),
        ]
    );
}

#[test]
fn empty_input_yields_no_tokens() {
    let cx = plain_registry(&[(Scope::Comment, "a+")]);
    assert_eq!(Lexer::from_context(cx).lex(""), vec![]);
}

#[test]
fn round_trip_reconstructs_input() {
    let input = "let x = 42; // answer";
    let cx = plain_registry(&[
        (Scope::Comment, r"//[^\n]*"),
        (Scope::StorageType, r"\blet\b"),
        (Scope::ConstantNumber, r"\b[0-9]+\b"),
        (Scope::VariableOther, r"[a-z_][a-z0-9_]*"),
    ]);
    let tokens = Lexer::from_context(cx).lex(input);
    let rebuilt: String = tokens.iter().map(|t| t.value.as_str()).collect();
    assert_eq!(rebuilt, input);
}

#[test]
fn scanning_twice_is_deterministic() {
    let cx = plain_registry(&[
        (Scope::KeywordControl, r"\b(if|while)\b"),
        (Scope::ConstantNumber, r"[0-9]+"),
    ]);
    let lexer = Lexer::from_context(cx);
    let input = "while 10 if 2";
    assert_eq!(lexer.lex(input), lexer.lex(input));
}

#[test]
fn earlier_pattern_wins_even_when_shorter() {
    let cx = plain_registry(&[(Scope::KeywordOther, "ab"), (Scope::NameFunction, "abc")]);
    let tokens = Lexer::from_context(cx).lex("abc");
    assert_eq!(
        tokens,
        vec![token(Scope::KeywordOther, "ab"), token(Scope::Unscoped, "c")]
    );
}

#[test]
fn earlier_pattern_wins_even_when_longer() {
    let cx = plain_registry(&[(Scope::NameFunction, "abc"), (Scope::KeywordOther, "ab")]);
    let tokens = Lexer::from_context(cx).lex("abc");
    assert_eq!(tokens, vec![token(Scope::NameFunction, "abc")]);
}

#[test]
fn zero_width_match_is_rejected_and_scan_terminates() {
    let cx = plain_registry(&[(Scope::Invalid, "x*")]);
    let tokens = Lexer::from_context(cx).lex("ab");
    assert_eq!(
        tokens,
        vec![token(Scope::Unscoped, "a"), token(Scope::Unscoped, "b")]
    );
}

#[test]
fn zero_width_at_some_offsets_only() {
    let cx = plain_registry(&[(Scope::ConstantOther, "a*")]);
    let tokens = Lexer::from_context(cx).lex("aab");
    assert_eq!(
        tokens,
        vec![token(Scope::ConstantOther, "aa"), token(Scope::Unscoped, "b")]
    );
}

#[test]
fn match_elsewhere_than_cursor_is_rejected() {
    let cx = plain_registry(&[(Scope::KeywordOther, "b+")]);
    let tokens = Lexer::from_context(cx).lex("abb");
    assert_eq!(
        tokens,
        vec![token(Scope::Unscoped, "a"), token(Scope::KeywordOther, "bb")]
    );
}

#[test]
fn offsets_count_characters_not_bytes() {
    let cx = plain_registry(&[(Scope::NameFunction, "l+")]);
    let tokens = Lexer::from_context(cx).lex("h\u{e9}llo");
    assert_eq!(
        tokens,
        vec![
            token(Scope::Unscoped, "h"),
            token(Scope::Unscoped, "\u{e9}"),
            token(Scope::NameFunction, "ll"),
            token(Scope::Unscoped, "o"),
        ]
    );
}

#[test]
fn multibyte_fallback_characters() {
    let cx: LexerContext<CaptureScopes> = LexerContext::new();
    let tokens = Lexer::from_context(cx).lex("\u{65e5}\u{672c}");
    assert_eq!(
        tokens,
        vec![token(Scope::Unscoped, "\u{65e5}"), token(Scope::Unscoped, "\u{672c}")]
    );
}

#[test]
fn invalid_pattern_is_reported_with_its_text() {
    let mut cx: LexerContext<CaptureScopes> = LexerContext::new();
    let err = cx.token(Scope::Comment, "[").expect_err("pattern should not compile");
    assert_eq!(err.pattern(), "[");
    let handler = CaptureScopes::new(vec![(0, Scope::Comment)]);
    let err = cx.advanced_token("(unclosed", handler).expect_err("pattern should not compile");
    assert_eq!(err.pattern(), "(unclosed");
}

#[test]
fn failed_registration_leaves_registry_unchanged() {
    let mut cx: LexerContext<CaptureScopes> = LexerContext::new();
    cx.token(Scope::KeywordOther, "a").expect("pattern should compile");
    cx.token(Scope::Comment, "[").expect_err("pattern should not compile");
    let tokens = Lexer::from_context(cx).lex("ab");
    assert_eq!(
        tokens,
        vec![token(Scope::KeywordOther, "a"), token(Scope::Unscoped, "b")]
    );
}
