//! Tests of the bundled language and the top-level entry points.

use highlighter::{
    highlight, highlight_language, language, Brainheck, CaptureScopes, Language, LexerContext,
    PatternError, Scope, Token,
};

fn token(scope: Scope, value: &str) -> Token {
    Token { scope, value: value.to_string() }
}

struct MyLanguage;

// The `spec_*` trait members are ghost: they are erased before execution and
// never called at run time, so an unverified implementation stubs them out.
impl Language for MyLanguage {
    type H = CaptureScopes;

    fn spec_name(&self) -> vstd::seq::Seq<char> {
        unreachable!()
    }

    fn spec_patterns(&self) -> vstd::seq::Seq<highlighter::lexer::PatternModel<CaptureScopes>> {
        unreachable!()
    }

    fn name(&self) -> String {
        "my-language".to_string()
    }

    fn names(&self) -> Vec<String> {
        vec!["my-language".to_string()]
    }

    fn init(&self, cx: &mut LexerContext<CaptureScopes>) -> Result<(), PatternError> {
        cx.token(Scope::KeywordControl, r"\b(if|else|while)\b")?;
        cx.token(Scope::ConstantNumber, r"\b[0-9][0-9_]*\b")?;
        Ok(())
    }
}

struct BrokenLanguage;

impl Language for BrokenLanguage {
    type H = CaptureScopes;

    fn spec_name(&self) -> vstd::seq::Seq<char> {
        unreachable!()
    }

    fn spec_patterns(&self) -> vstd::seq::Seq<highlighter::lexer::PatternModel<CaptureScopes>> {
        unreachable!()
    }

    fn name(&self) -> String {
        "broken".to_string()
    }

    fn names(&self) -> Vec<String> {
        vec!["broken".to_string()]
    }

    fn init(&self, cx: &mut LexerContext<CaptureScopes>) -> Result<(), PatternError> {
        cx.token(Scope::Comment, "(unclosed")?;
        Ok(())
    }
}

#[test]
fn third_party_language_extension() {
    let tokens = highlight(MyLanguage, "while 42").expect("patterns should compile");
    assert_eq!(
        tokens,
        vec![
            token(Scope::KeywordControl, "while"),
            token(Scope::Unscoped, " "),
            token(Scope::ConstantNumber, "42"),
        ]
    );
}

#[test]
fn invalid_language_pattern_aborts_engine_construction() {
    let err = highlight(BrokenLanguage, "anything").expect_err("init should fail");
    assert_eq!(err.pattern(), "(unclosed");
}

#[test]
fn brainheck_names() {
    assert_eq!(Brainheck.name(), "brainheck");
    assert_eq!(Brainheck.names(), vec!["brainheck".to_string(), "bf".to_string()]);
}

#[test]
fn brainheck_classifies_commands_and_comments() {
    let tokens = highlight(Brainheck, "++[->+<]. hello").expect("patterns should compile");
    assert_eq!(
        tokens,
        vec![
            token(Scope::KeywordOther, "++[->+<]."),
            token(Scope::Comment, " hello"),
        ]
    );
}

#[test]
fn highlight_round_trips_brainheck_source() {
    let input = "abc+-<>.,[]xyz";
    let tokens = highlight(Brainheck, input).expect("patterns should compile");
    let rebuilt: String = tokens.iter().map(|t| t.value.as_str()).collect();
    assert_eq!(rebuilt, input);
}

#[test]
fn lookup_is_case_insensitive() {
    assert!(language("brainheck").is_some());
    assert!(language("BrainHeck").is_some());
    assert!(language("BRAINHECK").is_some());
    assert!(language("bf").is_none());
    assert!(language("rust").is_none());
}

#[test]
fn highlight_language_selects_by_name() {
    let tokens = highlight_language("Brainheck", "+a")
        .expect("the language should be found")
        .expect("patterns should compile");
    assert_eq!(tokens, vec![token(Scope::KeywordOther, "+"), token(Scope::Comment, "a")]);
    assert!(highlight_language("unknown", "+a").is_none());
}
