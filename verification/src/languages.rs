//! Bundled language definitions and name-based lookup.

use vstd::prelude::*;
use vstd::string::{StrSliceExecFns, StringExecFns};

use crate::highlight;
use crate::language::{all_compile, Language};
use crate::lexer::{spec_scan_from, CaptureScopes, LexerContext, PatternError, PatternModel, Token};
use crate::scope::Scope;

verus! {

/// The ASCII-lowercase form of one character: an ASCII capital letter maps
/// to its small form, every other character to itself.
pub open spec fn spec_lower_char(c: char) -> char {
    if c == 'A' {
        'a'
    } else if c == 'B' {
        'b'
    } else if c == 'C' {
        'c'
    } else if c == 'D' {
        'd'
    } else if c == 'E' {
        'e'
    } else if c == 'F' {
        'f'
    } else if c == 'G' {
        'g'
    } else if c == 'H' {
        'h'
    } else if c == 'I' {
        'i'
    } else if c == 'J' {
        'j'
    } else if c == 'K' {
        'k'
    } else if c == 'L' {
        'l'
    } else if c == 'M' {
        'm'
    } else if c == 'N' {
        'n'
    } else if c == 'O' {
        'o'
    } else if c == 'P' {
        'p'
    } else if c == 'Q' {
        'q'
    } else if c == 'R' {
        'r'
    } else if c == 'S' {
        's'
    } else if c == 'T' {
        't'
    } else if c == 'U' {
        'u'
    } else if c == 'V' {
        'v'
    } else if c == 'W' {
        'w'
    } else if c == 'X' {
        'x'
    } else if c == 'Y' {
        'y'
    } else if c == 'Z' {
        'z'
    } else {
        c
    }
}

/// The ASCII-lowercase form of a text, character by character.
pub open spec fn spec_lower(s: Seq<char>) -> Seq<char> {
    Seq::new(s.len(), |i: int| spec_lower_char(s[i]))
}

fn lower_char(c: char) -> (r: char)
    ensures
        r == spec_lower_char(c),
{
    match c {
        'A' => 'a',
        'B' => 'b',
        'C' => 'c',
        'D' => 'd',
        'E' => 'e',
        'F' => 'f',
        'G' => 'g',
        'H' => 'h',
        'I' => 'i',
        'J' => 'j',
        'K' => 'k',
        'L' => 'l',
        'M' => 'm',
        'N' => 'n',
        'O' => 'o',
        'P' => 'p',
        'Q' => 'q',
        'R' => 'r',
        'S' => 's',
        'T' => 't',
        'U' => 'u',
        'V' => 'v',
        'W' => 'w',
        'X' => 'x',
        'Y' => 'y',
        'Z' => 'z',
        _ => c,
    }
}

/// Compares two names up to ASCII case.
fn eq_ignore_case(a: &str, b: &str) -> (r: bool)
    ensures
        r == (spec_lower(a@) == spec_lower(b@)),
{
    let a_len = a.unicode_len();
    let b_len = b.unicode_len();
    if a_len != b_len {
        proof {
            assert(spec_lower(a@).len() != spec_lower(b@).len());
        }
        return false;
    }
    let mut i: usize = 0;
    while i < a_len
        invariant
            i <= a_len,
            a_len == a@.len(),
            a_len == b@.len(),
            forall|m: int| 0 <= m < i ==> spec_lower(a@)[m] == spec_lower(b@)[m],
        decreases a_len - i,
    {
        let ca = lower_char(a.get_char(i));
        let cb = lower_char(b.get_char(i));
        if ca != cb {
            proof {
                assert(spec_lower(a@)[i as int] != spec_lower(b@)[i as int]);
            }
            return false;
        }
        i += 1;
    }
    proof {
        assert(spec_lower(a@) =~= spec_lower(b@));
    }
    true
}

/// The Brainheck language: runs of its eight command characters are
/// keywords, and every other run of characters is a comment.
pub struct Brainheck;

impl Language for Brainheck {
    type H = CaptureScopes;

    open spec fn spec_name(&self) -> Seq<char> {
        "brainheck"@
    }

    open spec fn spec_names(&self) -> Seq<Seq<char>> {
        seq!["brainheck"@, "bf"@]
    }

    open spec fn spec_patterns(&self) -> Seq<PatternModel<CaptureScopes>> {
        seq![
            (PatternModel::Plain { scope: Scope::KeywordOther, pattern: "[+\\-<>\\.,\\[\\]]+"@ }),
            (PatternModel::Plain { scope: Scope::Comment, pattern: "[^+\\-<>\\.,\\[\\]]+"@ }),
        ]
    }

    fn name(&self) -> (r: String) {
        String::from_str("brainheck")
    }

    fn names(&self) -> (r: Vec<String>) {
        let mut names: Vec<String> = Vec::new();
        names.push(String::from_str("brainheck"));
        names.push(String::from_str("bf"));
        proof {
            assert(names.deep_view() =~= seq!["brainheck"@, "bf"@]);
        }
        names
    }

    fn init(&self, cx: &mut LexerContext<CaptureScopes>) -> (r: Result<(), PatternError>) {
        match cx.token(Scope::KeywordOther, "[+\\-<>\\.,\\[\\]]+") {
            Ok(()) => {},
            Err(e) => {
                proof {
                    assert(!crate::matcher::regex_compiles(
                        crate::lexer::pattern_text(self.spec_patterns()[0]),
                    ));
                }
                return Err(e);
            },
        }
        match cx.token(Scope::Comment, "[^+\\-<>\\.,\\[\\]]+") {
            Ok(()) => {},
            Err(e) => {
                proof {
                    assert(!crate::matcher::regex_compiles(
                        crate::lexer::pattern_text(self.spec_patterns()[1]),
                    ));
                }
                return Err(e);
            },
        }
        proof {
            assert(cx@ =~= old(cx)@ + self.spec_patterns());
            assert(forall|k: int|
                0 <= k < self.spec_patterns().len() ==> crate::matcher::regex_compiles(
                    crate::lexer::pattern_text(#[trigger] self.spec_patterns()[k]),
                ));
        }
        Ok(())
    }
}

/// Returns the bundled language with the given name, compared up to ASCII
/// case, if any.
pub fn language(name: &str) -> (r: Option<Brainheck>)
    ensures
        r is Some <==> spec_lower(name@) == spec_lower("brainheck"@),
{
    if eq_ignore_case(name, "brainheck") {
        Some(Brainheck)
    } else {
        None
    }
}

/// Highlights the source text with the bundled language of the given name,
/// compared up to ASCII case; `None` when no bundled language has that
/// name.
pub fn highlight_language(language: &str, src: &str) -> (r: Option<
    Result<Vec<Token>, PatternError>,
>)
    ensures
        r is Some <==> spec_lower(language@) == spec_lower("brainheck"@),
        r matches Some(res) ==> {
            &&& res is Ok <==> all_compile(Brainheck.spec_patterns())
            &&& (res matches Ok(tokens) ==> tokens.deep_view() == spec_scan_from(
                Brainheck.spec_patterns(),
                src@,
                0,
            ))
        },
{
    if eq_ignore_case(language, "brainheck") {
        Some(highlight(Brainheck, src))
    } else {
        None
    }
}

} // verus!
