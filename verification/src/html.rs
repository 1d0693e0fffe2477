//! An HTML render target: escapes each token's text and wraps it in a
//! `span` element classed by the token's scope.

use vstd::prelude::*;
use vstd::string::{StrSliceExecFns, StringExecFns};

use crate::lexer::{Token, TokenModel};
use crate::scope::spec_snake_case;

verus! {

/// What one character escapes to: each of `<`, `>`, `&`, `"` and `'` maps
/// to its named entity, and every other character to itself.
pub open spec fn spec_escape_char(c: char) -> Seq<char> {
    if c == '>' {
        "&gt;"@
    } else if c == '<' {
        "&lt;"@
    } else if c == '&' {
        "&amp;"@
    } else if c == '\'' {
        "&#39;"@
    } else if c == '"' {
        "&quot;"@
    } else {
        seq![c]
    }
}

/// What a text escapes to: each character's escape, in order. Escaping is
/// defined for every character, so it cannot fail.
pub open spec fn spec_escape(text: Seq<char>) -> Seq<char>
    decreases text.len(),
{
    if text.len() == 0 {
        Seq::empty()
    } else {
        spec_escape(text.drop_last()) + spec_escape_char(text.last())
    }
}

/// Escapes the characters HTML reserves, leaving every other character as
/// it is.
pub fn html_escape(text: &str) -> (r: String)
    ensures
        r@ == spec_escape(text@),
{
    let len = text.unicode_len();
    let mut r = String::new();
    let mut i: usize = 0;
    while i < len
        invariant
            i <= len,
            len == text@.len(),
            r@ == spec_escape(text@.subrange(0, i as int)),
        decreases len - i,
    {
        let c = text.get_char(i);
        if c == '>' {
            r.append("&gt;");
        } else if c == '<' {
            r.append("&lt;");
        } else if c == '&' {
            r.append("&amp;");
        } else if c == '\'' {
            r.append("&#39;");
        } else if c == '"' {
            r.append("&quot;");
        } else {
            let one = text.substring_char(i, i + 1);
            proof {
                assert(one@ =~= seq![c]);
            }
            r.append(one);
        }
        i += 1;
        proof {
            let done = text@.subrange(0, i as int);
            assert(done.drop_last() =~= text@.subrange(0, i as int - 1));
            assert(r@ == spec_escape(done));
        }
    }
    proof {
        assert(text@.subrange(0, len as int) =~= text@);
    }
    r
}

/// The configuration of an HTML target in mathematical form.
pub ghost struct HtmlTargetModel {
    /// Wraps the start of the output.
    pub html_prefix: Seq<char>,
    /// Wraps the end of the output.
    pub html_suffix: Seq<char>,
    /// The namespace prepended to each scope's canonical identifier to form
    /// a class name.
    pub class_prefix: Seq<char>,
}

/// The element one token renders to: its escaped text inside a `span`
/// whose class is the class prefix followed by the scope's canonical
/// identifier.
pub open spec fn spec_render_token(cfg: HtmlTargetModel, token: TokenModel) -> Seq<char> {
    "<span class=\""@ + cfg.class_prefix + spec_snake_case(token.scope) + "\">"@ + spec_escape(
        token.value,
    ) + "</span>"@
}

/// What a token sequence renders to: each token's element, in order.
pub open spec fn spec_render_tokens(cfg: HtmlTargetModel, tokens: Seq<TokenModel>) -> Seq<char>
    decreases tokens.len(),
{
    if tokens.len() == 0 {
        Seq::empty()
    } else {
        spec_render_tokens(cfg, tokens.drop_last()) + spec_render_token(cfg, tokens.last())
    }
}

/// An HTML target for the highlighter: renders a token sequence into a
/// string of HTML, one classed `span` element per token, between a
/// configurable prefix and suffix.
#[derive(Clone, Debug, PartialEq)]
pub struct HighlighterTargetHtml {
    html_prefix: String,
    html_suffix: String,
    class_prefix: String,
}

impl View for HighlighterTargetHtml {
    type V = HtmlTargetModel;

    closed spec fn view(&self) -> HtmlTargetModel {
        HtmlTargetModel {
            html_prefix: self.html_prefix@,
            html_suffix: self.html_suffix@,
            class_prefix: self.class_prefix@,
        }
    }
}

impl HighlighterTargetHtml {
    /// A default target: empty prefix and suffix, and class prefix
    /// `scope-`.
    pub fn new() -> (r: HighlighterTargetHtml)
        ensures
            r@.html_prefix == Seq::<char>::empty(),
            r@.html_suffix == Seq::<char>::empty(),
            r@.class_prefix == "scope-"@,
    {
        HighlighterTargetHtml {
            html_prefix: String::new(),
            html_suffix: String::new(),
            class_prefix: String::from_str("scope-"),
        }
    }

    /// This target, with the provided HTML prefix.
    pub fn with_html_prefix(self, html_prefix: &str) -> (r: HighlighterTargetHtml)
        ensures
            r@ == (HtmlTargetModel { html_prefix: html_prefix@, ..self@ }),
    {
        HighlighterTargetHtml { html_prefix: String::from_str(html_prefix), ..self }
    }

    /// This target, with the provided HTML suffix.
    pub fn with_html_suffix(self, html_suffix: &str) -> (r: HighlighterTargetHtml)
        ensures
            r@ == (HtmlTargetModel { html_suffix: html_suffix@, ..self@ }),
    {
        HighlighterTargetHtml { html_suffix: String::from_str(html_suffix), ..self }
    }

    /// This target, with the provided class prefix.
    pub fn with_class_prefix(self, class_prefix: &str) -> (r: HighlighterTargetHtml)
        ensures
            r@ == (HtmlTargetModel { class_prefix: class_prefix@, ..self@ }),
    {
        HighlighterTargetHtml { class_prefix: String::from_str(class_prefix), ..self }
    }

    /// Builds the given tokens into a string of HTML: the configured prefix,
    /// then one element per token in order, then the configured suffix.
    pub fn build(&self, tokens: Vec<Token>) -> (r: String)
        ensures
            r@ == self@.html_prefix + spec_render_tokens(self@, tokens.deep_view())
                + self@.html_suffix,
    {
        let ghost models = tokens.deep_view();
        let mut r = self.html_prefix.clone();
        let mut k: usize = 0;
        while k < tokens.len()
            invariant
                k <= tokens.len(),
                models == tokens.deep_view(),
                models.len() == tokens.len(),
                r@ == self@.html_prefix + spec_render_tokens(self@, models.subrange(0, k as int)),
            decreases tokens.len() - k,
        {
            let token = &tokens[k];
            r.append("<span class=\"");
            r.append(self.class_prefix.as_str());
            r.append(token.scope.snake_case());
            r.append("\">");
            let escaped = html_escape(token.value.as_str());
            r.append(escaped.as_str());
            r.append("</span>");
            k += 1;
            proof {
                let done = models.subrange(0, k as int);
                assert(done.drop_last() =~= models.subrange(0, k as int - 1));
                assert(done.last() == tokens[k - 1]@);
                assert(r@ == self@.html_prefix + spec_render_tokens(self@, done));
            }
        }
        proof {
            assert(models.subrange(0, tokens.len() as int) =~= models);
        }
        r.append(self.html_suffix.as_str());
        r
    }
}

} // verus!
