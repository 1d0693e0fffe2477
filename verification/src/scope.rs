//! The closed taxonomy of lexical categories a token can carry.

use vstd::prelude::*;

verus! {

/// The scope of a token: a closed set of lexical category tags.
///
/// Every variant has a stable canonical identifier, returned by
/// [`Scope::snake_case`]; renderers use it verbatim (for example as a CSS
/// class suffix). [`Scope::Unscoped`] is a first-class scope meaning
/// "unclassified character"; its canonical identifier is `none`.
#[derive(Clone, Copy, Debug, PartialEq, Eq, Structural)]
pub enum Scope {
    /// A comment, such as `// ...` or `/* ... */`.
    Comment,
    /// A numeric constant, such as `1234` or `0x42`.
    ConstantNumber,
    /// A character constant, such as `'A'`.
    ConstantChar,
    /// A constant the language itself defines, such as `true` or `nullptr`.
    ConstantLanguage,
    /// Any other constant.
    ConstantOther,
    /// A function name, such as `main` in `main()`.
    NameFunction,
    /// A type name, such as a `struct` name.
    NameType,
    /// The name of a markup tag, such as `<name>`.
    NameTag,
    /// The name of a section, such as a markdown header.
    NameSection,
    /// An invalid token.
    Invalid,
    /// A deprecated construct.
    Deprecated,
    /// A storage type keyword, such as `class`, `function` or `var`.
    StorageType,
    /// A storage modifier keyword, such as `static` or `mut`.
    StorageModifier,
    /// A quoted string.
    StringQuoted,
    /// A string that is evaluated, such as a template string.
    StringEvaluated,
    /// A regular-expression literal.
    StringRegex,
    /// Any other kind of string.
    StringOther,
    /// A function provided by the language or standard library.
    SupportFunction,
    /// A type provided by the language or standard library.
    SupportType,
    /// A constant provided by the language or standard library.
    SupportConstant,
    /// A variable provided by the language or standard library.
    SupportVar,
    /// Any other supporting value.
    SupportOther,
    /// A variable declared as a function parameter.
    VariableParameter,
    /// A special variable such as `super` or `this`.
    VariableLanguage,
    /// Any other variable name.
    VariableOther,
    /// A controlling keyword, such as `if`, `break` or `while`.
    KeywordControl,
    /// Any other keyword.
    KeywordOther,
    /// No scope matches this token: an unclassified character.
    Unscoped,
}

/// The canonical identifier of each scope, as a sequence of characters.
pub open spec fn spec_snake_case(s: Scope) -> Seq<char> {
    match s {
        Scope::Comment => "comment"@,
        Scope::ConstantNumber => "constant_number"@,
        Scope::ConstantChar => "constant_char"@,
        Scope::ConstantLanguage => "constant_language"@,
        Scope::ConstantOther => "constant_other"@,
        Scope::NameFunction => "name_function"@,
        Scope::NameType => "name_type"@,
        Scope::NameTag => "name_tag"@,
        Scope::NameSection => "name_section"@,
        Scope::Invalid => "invalid"@,
        Scope::Deprecated => "deprecated"@,
        Scope::StorageType => "storage_type"@,
        Scope::StorageModifier => "storage_modifier"@,
        Scope::StringQuoted => "string_quoted"@,
        Scope::StringEvaluated => "string_evaluated"@,
        Scope::StringRegex => "string_regex"@,
        Scope::StringOther => "string_other"@,
        Scope::SupportFunction => "support_function"@,
        Scope::SupportType => "support_type"@,
        Scope::SupportConstant => "support_constant"@,
        Scope::SupportVar => "support_var"@,
        Scope::SupportOther => "support_other"@,
        Scope::VariableParameter => "variable_parameter"@,
        Scope::VariableLanguage => "variable_language"@,
        Scope::VariableOther => "variable_other"@,
        Scope::KeywordControl => "keyword_control"@,
        Scope::KeywordOther => "keyword_other"@,
        Scope::Unscoped => "none"@,
    }
}

impl Scope {
    /// The canonical snake-case identifier of this scope.
    pub fn snake_case(&self) -> (r: &'static str)
        ensures
            r@ == spec_snake_case(*self),
    {
        match self {
            Scope::Comment => "comment",
            Scope::ConstantNumber => "constant_number",
            Scope::ConstantChar => "constant_char",
            Scope::ConstantLanguage => "constant_language",
            Scope::ConstantOther => "constant_other",
            Scope::NameFunction => "name_function",
            Scope::NameType => "name_type",
            Scope::NameTag => "name_tag",
            Scope::NameSection => "name_section",
            Scope::Invalid => "invalid",
            Scope::Deprecated => "deprecated",
            Scope::StorageType => "storage_type",
            Scope::StorageModifier => "storage_modifier",
            Scope::StringQuoted => "string_quoted",
            Scope::StringEvaluated => "string_evaluated",
            Scope::StringRegex => "string_regex",
            Scope::StringOther => "string_other",
            Scope::SupportFunction => "support_function",
            Scope::SupportType => "support_type",
            Scope::SupportConstant => "support_constant",
            Scope::SupportVar => "support_var",
            Scope::SupportOther => "support_other",
            Scope::VariableParameter => "variable_parameter",
            Scope::VariableLanguage => "variable_language",
            Scope::VariableOther => "variable_other",
            Scope::KeywordControl => "keyword_control",
            Scope::KeywordOther => "keyword_other",
            Scope::Unscoped => "none",
        }
    }
}

/// Every scope's canonical identifier is non-empty: the taxonomy's mapping
/// to identifiers is total and never produces an empty class suffix.
pub proof fn lemma_snake_case_nonempty(s: Scope)
    ensures
        spec_snake_case(s).len() > 0,
{
    reveal_strlit("comment");
    reveal_strlit("constant_number");
    reveal_strlit("constant_char");
    reveal_strlit("constant_language");
    reveal_strlit("constant_other");
    reveal_strlit("name_function");
    reveal_strlit("name_type");
    reveal_strlit("name_tag");
    reveal_strlit("name_section");
    reveal_strlit("invalid");
    reveal_strlit("deprecated");
    reveal_strlit("storage_type");
    reveal_strlit("storage_modifier");
    reveal_strlit("string_quoted");
    reveal_strlit("string_evaluated");
    reveal_strlit("string_regex");
    reveal_strlit("string_other");
    reveal_strlit("support_function");
    reveal_strlit("support_type");
    reveal_strlit("support_constant");
    reveal_strlit("support_var");
    reveal_strlit("support_other");
    reveal_strlit("variable_parameter");
    reveal_strlit("variable_language");
    reveal_strlit("variable_other");
    reveal_strlit("keyword_control");
    reveal_strlit("keyword_other");
    reveal_strlit("none");
}

} // verus!
