//! Tests of the HTML render target and the scope identifiers.

use highlighter::html::html_escape;
use highlighter::{HighlighterTargetHtml, Scope, Token};

fn token(scope: Scope, value: &str) -> Token {
    Token { scope, value: value.to_string() }
}

#[test]
fn escapes_each_reserved_character_exactly_once() {
    assert_eq!(html_escape("<>&\"'"), "&lt;&gt;&amp;&quot;&#39;");
}

#[test]
fn escapes_reserved_characters_in_context() {
    assert_eq!(html_escape("a < b && c > 'd'"), "a &lt; b &amp;&amp; c &gt; &#39;d&#39;");
    assert_eq!(html_escape("plain text"), "plain text");
    assert_eq!(html_escape(""), "");
}

#[test]
fn build_wraps_each_token_in_a_classed_span() {
    let target = HighlighterTargetHtml::new();
    let html = target.build(vec![
        token(Scope::KeywordControl, "if"),
        token(Scope::Unscoped, " "),
        token(Scope::ConstantNumber, "1"),
    ]);
    assert_eq!(
        html,
        "<span class=\"scope-keyword_control\">if</span>\
         <span class=\"scope-none\"> </span>\
         <span class=\"scope-constant_number\">1</span>"
    );
}

#[test]
fn build_escapes_token_values() {
    let target = HighlighterTargetHtml::new();
    let html = target.build(vec![token(Scope::StringQuoted, "\"<b>\"")]);
    assert_eq!(html, "<span class=\"scope-string_quoted\">&quot;&lt;b&gt;&quot;</span>");
}

#[test]
fn build_honors_prefix_suffix_and_class_prefix() {
    let target = HighlighterTargetHtml::new()
        .with_html_prefix("<pre>")
        .with_html_suffix("</pre>")
        .with_class_prefix("hl-");
    let html = target.build(vec![token(Scope::Comment, "c")]);
    assert_eq!(html, "<pre><span class=\"hl-comment\">c</span></pre>");
}

#[test]
fn build_of_no_tokens_is_prefix_and_suffix_alone() {
    let target = HighlighterTargetHtml::new().with_html_prefix("[").with_html_suffix("]");
    assert_eq!(target.build(vec![]), "[]");
}

#[test]
fn every_scope_has_its_canonical_identifier() {
    let expected = vec![
        (Scope::Comment, "comment"),
        (Scope::ConstantNumber, "constant_number"),
        (Scope::ConstantChar, "constant_char"),
        (Scope::ConstantLanguage, "constant_language"),
        (Scope::ConstantOther, "constant_other"),
        (Scope::NameFunction, "name_function"),
        (Scope::NameType, "name_type"),
        (Scope::NameTag, "name_tag"),
        (Scope::NameSection, "name_section"),
        (Scope::Invalid, "invalid"),
        (Scope::Deprecated, "deprecated"),
        (Scope::StorageType, "storage_type"),
        (Scope::StorageModifier, "storage_modifier"),
        (Scope::StringQuoted, "string_quoted"),
        (Scope::StringEvaluated, "string_evaluated"),
        (Scope::StringRegex, "string_regex"),
        (Scope::StringOther, "string_other"),
        (Scope::SupportFunction, "support_function"),
        (Scope::SupportType, "support_type"),
        (Scope::SupportConstant, "support_constant"),
        (Scope::SupportVar, "support_var"),
        (Scope::SupportOther, "support_other"),
        (Scope::VariableParameter, "variable_parameter"),
        (Scope::VariableLanguage, "variable_language"),
        (Scope::VariableOther, "variable_other"),
        (Scope::KeywordControl, "keyword_control"),
        (Scope::KeywordOther, "keyword_other"),
        (Scope::Unscoped, "none"),
    ];
    for (scope, identifier) in expected {
        assert_eq!(scope.snake_case(), identifier);
        assert!(!identifier.is_empty());
    }
}

#[test]
fn class_attribute_is_class_prefix_plus_identifier_for_every_scope() {
    let target = HighlighterTargetHtml::new().with_class_prefix("cls-");
    for scope in [Scope::Comment, Scope::KeywordControl, Scope::Unscoped] {
        let html = target.clone().build(vec![token(scope, "x")]);
        let expected = format!("<span class=\"cls-{}\">x</span>", scope.snake_case());
        assert_eq!(html, expected);
    }
}
