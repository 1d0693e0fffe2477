//! An embeddable lexical tokenizer for syntax-highlighting pipelines.
//!
//! A [`Language`](language::Language) registers an ordered list of patterns
//! in a [`LexerContext`](lexer::LexerContext); a [`Lexer`](lexer::Lexer)
//! built from it classifies every character of an input into an ordered
//! sequence of [`Token`](lexer::Token)s, which a render target such as
//! [`HighlighterTargetHtml`](html::HighlighterTargetHtml) turns into
//! formatted output.

use vstd::prelude::*;

pub mod html;
pub mod language;
pub mod languages;
pub mod laws;
pub mod lexer;
pub mod matcher;
pub mod scope;

use crate::language::all_compile;
use crate::lexer::spec_scan_from;

pub use crate::html::HighlighterTargetHtml;
pub use crate::language::Language;
pub use crate::languages::{highlight_language, language, Brainheck};
pub use crate::lexer::{
    CaptureScopes, Handler, Lexer, LexerContext, PatternError, Token, TokenContext,
};
pub use crate::scope::Scope;

verus! {

/// Highlights the provided source text with the given language.
///
/// Builds an engine from the language (running its `init`) and scans the
/// text once. Fails exactly when one of the language's patterns does not
/// compile, never because of scanning: the scan itself is total.
pub fn highlight<L: Language>(language: L, src: &str) -> (r: Result<Vec<Token>, PatternError>)
    ensures
        r is Ok <==> all_compile(language.spec_patterns()),
        r matches Ok(tokens) ==> tokens.deep_view() == spec_scan_from(
            language.spec_patterns(),
            src@,
            0,
        ),
{
    match Lexer::<L::H>::new(language) {
        Ok(lexer) => Ok(lexer.lex(src)),
        Err(e) => Err(e),
    }
}

} // verus!
