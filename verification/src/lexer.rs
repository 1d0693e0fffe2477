//! Tokens, the pattern registry, and the scanning engine.
//!
//! A [`LexerContext`] accumulates an ordered list of patterns; a [`Lexer`]
//! built from it scans an input string, classifying every character into an
//! ordered sequence of [`Token`]s. The scan is anchored at a cursor: at each
//! offset the first registered pattern with a non-empty match starting
//! exactly there wins; when none matches, the single character at the cursor
//! becomes an unclassified token.

use vstd::prelude::*;
use vstd::string::StrSliceExecFns;

use crate::language::{all_compile, Language};
use crate::matcher::{regex_captures_at, regex_compiles, Matcher};
use crate::scope::Scope;

verus! {

/// A token in mathematical form: a scope and the characters it covers.
pub ghost struct TokenModel {
    /// The token's lexical category.
    pub scope: Scope,
    /// The characters the token covers.
    pub value: Seq<char>,
}

/// A token: an immutable (scope, text) pair, the engine's unit of output.
#[derive(Clone, Debug, PartialEq)]
pub struct Token {
    /// The scope of this token.
    pub scope: Scope,
    /// The raw text of this token.
    pub value: String,
}

impl View for Token {
    type V = TokenModel;

    open spec fn view(&self) -> TokenModel {
        TokenModel { scope: self.scope, value: self.value@ }
    }
}

impl DeepView for Token {
    type V = TokenModel;

    open spec fn deep_view(&self) -> TokenModel {
        self@
    }
}

/// The per-scan accumulator: an append-only sequence of tokens, viewed as the
/// sequence of token models appended so far.
pub struct TokenContext {
    tokens: Vec<Token>,
}

impl View for TokenContext {
    type V = Seq<TokenModel>;

    closed spec fn view(&self) -> Seq<TokenModel> {
        self.tokens.deep_view()
    }
}

impl TokenContext {
    /// An empty accumulator.
    pub fn new() -> (r: TokenContext)
        ensures
            r@ == Seq::<TokenModel>::empty(),
    {
        let cx = TokenContext { tokens: Vec::new() };
        proof {
            assert(cx@ =~= Seq::<TokenModel>::empty());
        }
        cx
    }

    /// Appends one token to the accumulator.
    pub fn token(&mut self, scope: Scope, value: &str)
        ensures
            final(self)@ == old(self)@ + seq![(TokenModel { scope, value: value@ })],
    {
        self.tokens.push(Token { scope, value: value.to_owned() });
        proof {
            assert(self@ =~= old(self)@ + seq![(TokenModel { scope, value: value@ })]);
        }
    }

    /// Hands the accumulated tokens to the caller, consuming the accumulator.
    pub fn into_tokens(self) -> (r: Vec<Token>)
        ensures
            r.deep_view() == self@,
    {
        self.tokens
    }
}

/// The error a registration operation reports when a pattern's textual
/// syntax cannot be compiled into a matcher. Its view is the offending
/// pattern text.
#[derive(Debug)]
pub struct PatternError {
    pattern: String,
}

impl View for PatternError {
    type V = Seq<char>;

    closed spec fn view(&self) -> Seq<char> {
        self.pattern@
    }
}

impl PatternError {
    /// The pattern text that failed to compile.
    pub fn pattern(&self) -> (r: &str)
        ensures
            r@ == self@,
    {
        self.pattern.as_str()
    }
}

/// A handler turns one match of a handled pattern into zero or more tokens.
///
/// A handler is a pure mapping from the capture spans of the match (group 0
/// is the whole match; a group that did not participate is `None`; offsets
/// count characters of `source`) and the full source text to the tokens it
/// appends; `spec_handle` names that mapping and `handle` performs it. A
/// handler sees no cursor state and must not re-scan.
pub trait Handler: Sized {
    /// The tokens this handler emits for a match with capture spans `caps`
    /// over `source`.
    spec fn spec_handle(&self, caps: Seq<Option<(usize, usize)>>, source: Seq<char>) -> Seq<
        TokenModel,
    >;

    /// Appends the tokens for one match to the accumulator.
    fn handle(&self, caps: &Vec<Option<(usize, usize)>>, source: &str, acc: &mut TokenContext)
        requires
            forall|g: int|
                0 <= g < caps@.len() ==> ((#[trigger] caps@[g]) matches Some(span)
                    ==> span.0 <= span.1 <= source@.len()),
        ensures
            final(acc)@ == old(acc)@ + self.spec_handle(caps@, source@),
    ;
}

/// The tokens [`CaptureScopes`] emits: for each rule in order, one token per
/// participating capture group, covering that group's span of the source.
pub open spec fn spec_capture_tokens(
    rules: Seq<(usize, Scope)>,
    caps: Seq<Option<(usize, usize)>>,
    source: Seq<char>,
) -> Seq<TokenModel>
    decreases rules.len(),
{
    if rules.len() == 0 {
        Seq::empty()
    } else {
        let rule = rules.last();
        let emitted = if 0 <= rule.0 < caps.len() {
            match caps[rule.0 as int] {
                Some(span) => seq![
                    (TokenModel {
                        scope: rule.1,
                        value: source.subrange(span.0 as int, span.1 as int),
                    }),
                ],
                None => Seq::empty(),
            }
        } else {
            Seq::empty()
        };
        spec_capture_tokens(rules.drop_last(), caps, source) + emitted
    }
}

/// A capture-driven handler: an ordered list of (capture group, scope)
/// rules. For each rule whose group participated in the match it emits one
/// token of that scope covering the group's span.
pub struct CaptureScopes {
    rules: Vec<(usize, Scope)>,
}

impl View for CaptureScopes {
    type V = Seq<(usize, Scope)>;

    closed spec fn view(&self) -> Seq<(usize, Scope)> {
        self.rules@
    }
}

impl CaptureScopes {
    /// A handler that applies the given (capture group, scope) rules in
    /// order.
    pub fn new(rules: Vec<(usize, Scope)>) -> (r: CaptureScopes)
        ensures
            r@ == rules@,
    {
        CaptureScopes { rules }
    }
}

impl Handler for CaptureScopes {
    open spec fn spec_handle(&self, caps: Seq<Option<(usize, usize)>>, source: Seq<char>) -> Seq<
        TokenModel,
    > {
        spec_capture_tokens(self@, caps, source)
    }

    fn handle(&self, caps: &Vec<Option<(usize, usize)>>, source: &str, acc: &mut TokenContext) {
        let mut k: usize = 0;
        while k < self.rules.len()
            invariant
                k <= self.rules.len(),
                forall|g: int|
                    0 <= g < caps@.len() ==> ((#[trigger] caps@[g]) matches Some(span)
                        ==> span.0 <= span.1 <= source@.len()),
                acc@ == old(acc)@ + spec_capture_tokens(self@.subrange(0, k as int), caps@, source@),
            decreases self.rules.len() - k,
        {
            let (group, scope) = self.rules[k];
            if group < caps.len() {
                match caps[group] {
                    Some((from, to)) => {
                        let value = source.substring_char(from, to);
                        acc.token(scope, value);
                    },
                    None => {},
                }
            }
            k += 1;
            proof {
                let done = self@.subrange(0, k as int);
                assert(done.drop_last() =~= self@.subrange(0, k as int - 1));
            }
        }
        proof {
            assert(self@.subrange(0, self@.len() as int) =~= self@);
        }
    }
}

/// A pattern in mathematical form: either a plain rule emitting one token of
/// a fixed scope, or a handled rule whose handler decides the emission. The
/// `pattern` field is the regular-expression text of the rule's matcher.
pub ghost enum PatternModel<H> {
    /// On a match, emits one token of `scope` covering the whole match.
    Plain { scope: Scope, pattern: Seq<char> },
    /// On a match, emits whatever `handler` maps the match's captures to.
    Handled { pattern: Seq<char>, handler: H },
}

/// The regular-expression text of a pattern.
pub open spec fn pattern_text<H>(p: PatternModel<H>) -> Seq<char> {
    match p {
        PatternModel::Plain { pattern, .. } => pattern,
        PatternModel::Handled { pattern, .. } => pattern,
    }
}

enum Pattern<H> {
    Plain { scope: Scope, matcher: Matcher },
    Handled { matcher: Matcher, handler: H },
}

impl<H> View for Pattern<H> {
    type V = PatternModel<H>;

    closed spec fn view(&self) -> PatternModel<H> {
        match self {
            Pattern::Plain { scope, matcher } => PatternModel::Plain {
                scope: *scope,
                pattern: matcher@,
            },
            Pattern::Handled { matcher, handler } => PatternModel::Handled {
                pattern: matcher@,
                handler: *handler,
            },
        }
    }
}

impl<H> DeepView for Pattern<H> {
    type V = PatternModel<H>;

    closed spec fn deep_view(&self) -> PatternModel<H> {
        self@
    }
}

/// The pattern registry: an ordered collection of matching rules, built once
/// per language and immutable once a [`Lexer`] owns it. Its view is the
/// ordered sequence of pattern models; registration order defines matching
/// precedence.
pub struct LexerContext<H: Handler> {
    patterns: Vec<Pattern<H>>,
}

impl<H: Handler> View for LexerContext<H> {
    type V = Seq<PatternModel<H>>;

    closed spec fn view(&self) -> Seq<PatternModel<H>> {
        self.patterns.deep_view()
    }
}

impl<H: Handler> LexerContext<H> {
    /// An empty registry.
    pub fn new() -> (r: LexerContext<H>)
        ensures
            r@ == Seq::<PatternModel<H>>::empty(),
    {
        let cx = LexerContext { patterns: Vec::new() };
        proof {
            assert(cx@ =~= Seq::<PatternModel<H>>::empty());
        }
        cx
    }

    /// Registers a plain pattern: on a match it emits one token of `scope`.
    ///
    /// Succeeds exactly when `pattern` is valid syntax; on success the rule
    /// is appended after every rule registered before it, and on failure the
    /// registry is unchanged and the error carries the offending text.
    pub fn token(&mut self, scope: Scope, pattern: &str) -> (r: Result<(), PatternError>)
        ensures
            r is Ok <==> regex_compiles(pattern@),
            r is Ok ==> final(self)@ == old(self)@ + seq![
                (PatternModel::<H>::Plain { scope, pattern: pattern@ }),
            ],
            r is Err ==> final(self)@ == old(self)@,
            r matches Err(e) ==> e@ == pattern@,
    {
        match Matcher::new(pattern) {
            Some(matcher) => {
                self.patterns.push(Pattern::Plain { scope, matcher });
                proof {
                    assert(self@ =~= old(self)@ + seq![
                        (PatternModel::<H>::Plain { scope, pattern: pattern@ }),
                    ]);
                }
                Ok(())
            },
            None => Err(PatternError { pattern: pattern.to_owned() }),
        }
    }

    /// Registers a handled pattern: on a match, `handler` decides what to
    /// emit.
    ///
    /// Succeeds exactly when `pattern` is valid syntax; on success the rule
    /// is appended after every rule registered before it, and on failure the
    /// registry is unchanged and the error carries the offending text.
    pub fn advanced_token(&mut self, pattern: &str, handler: H) -> (r: Result<(), PatternError>)
        ensures
            r is Ok <==> regex_compiles(pattern@),
            r is Ok ==> final(self)@ == old(self)@ + seq![
                (PatternModel::Handled { pattern: pattern@, handler }),
            ],
            r is Err ==> final(self)@ == old(self)@,
            r matches Err(e) ==> e@ == pattern@,
    {
        match Matcher::new(pattern) {
            Some(matcher) => {
                self.patterns.push(Pattern::Handled { matcher, handler });
                proof {
                    assert(self@ =~= old(self)@ + seq![
                        (PatternModel::Handled { pattern: pattern@, handler }),
                    ]);
                }
                Ok(())
            },
            None => Err(PatternError { pattern: pattern.to_owned() }),
        }
    }
}

/// Does `pattern` produce an anchored, non-empty match at offset `i` of
/// `input`? The match must begin exactly at `i` and end strictly after it;
/// a match that begins elsewhere, or that covers an empty span, is rejected.
pub open spec fn anchored_hit(pattern: Seq<char>, input: Seq<char>, i: int) -> bool {
    match regex_captures_at(pattern, input, i) {
        Some(caps) => caps.len() > 0 && match caps[0] {
            Some(whole) => whole.0 == i && i < whole.1 <= input.len(),
            None => false,
        },
        None => false,
    }
}

/// The end offset of the anchored match of `pattern` at `i` (meaningful only
/// when [`anchored_hit`] holds).
pub open spec fn hit_end(pattern: Seq<char>, input: Seq<char>, i: int) -> int {
    match regex_captures_at(pattern, input, i) {
        Some(caps) => match caps[0] {
            Some(whole) => whole.1 as int,
            None => i + 1,
        },
        None => i + 1,
    }
}

/// The capture spans of the anchored match of `pattern` at `i` (meaningful
/// only when [`anchored_hit`] holds).
pub open spec fn hit_caps(pattern: Seq<char>, input: Seq<char>, i: int) -> Seq<
    Option<(usize, usize)>,
> {
    match regex_captures_at(pattern, input, i) {
        Some(caps) => caps,
        None => Seq::empty(),
    }
}

/// The index of the first pattern at or after position `j` of `pats` with an
/// anchored, non-empty match at offset `i`, if any: registration order is
/// matching precedence.
pub open spec fn spec_select_from<H>(
    pats: Seq<PatternModel<H>>,
    input: Seq<char>,
    i: int,
    j: int,
) -> Option<int>
    decreases pats.len() - j,
{
    if j < 0 || j >= pats.len() {
        None
    } else if anchored_hit(pattern_text(pats[j]), input, i) {
        Some(j)
    } else {
        spec_select_from(pats, input, i, j + 1)
    }
}

/// What [`spec_select_from`] returns: the first anchored hit at or after
/// `j`, or `None` exactly when no pattern from `j` on hits.
pub proof fn lemma_select_from_spec<H>(pats: Seq<PatternModel<H>>, input: Seq<char>, i: int, j: int)
    requires
        0 <= j,
    ensures
        match spec_select_from(pats, input, i, j) {
            Some(chosen) => {
                &&& j <= chosen < pats.len()
                &&& anchored_hit(pattern_text(pats[chosen]), input, i)
                &&& forall|m: int|
                    j <= m < chosen ==> !anchored_hit(pattern_text(#[trigger] pats[m]), input, i)
            },
            None => forall|m: int|
                j <= m < pats.len() ==> !anchored_hit(pattern_text(#[trigger] pats[m]), input, i),
        },
    decreases pats.len() - j,
{
    if j < 0 || j >= pats.len() {
    } else if anchored_hit(pattern_text(pats[j]), input, i) {
    } else {
        lemma_select_from_spec(pats, input, i, j + 1);
    }
}

/// The token sequence the scan produces from offset `i` of `input` on.
///
/// At each offset the first pattern (in registration order) with an
/// anchored, non-empty match wins: a plain pattern emits one token covering
/// the match, a handled pattern emits whatever its handler maps the match's
/// captures to, and the cursor jumps to the match's end. When no pattern
/// hits, the single character at the cursor becomes one unclassified token
/// and the cursor advances by one. The cursor strictly advances at every
/// step, so the scan terminates on every input.
pub open spec fn spec_scan_from<H: Handler>(
    pats: Seq<PatternModel<H>>,
    input: Seq<char>,
    i: int,
) -> Seq<TokenModel>
    decreases input.len() - i,
    when i >= 0
    via spec_scan_from_dec::<H>
{
    if i >= input.len() {
        Seq::empty()
    } else {
        match spec_select_from(pats, input, i, 0) {
            Some(chosen) => {
                let p = pats[chosen];
                let end = hit_end(pattern_text(p), input, i);
                let emitted = match p {
                    PatternModel::Plain { scope, .. } => seq![
                        (TokenModel { scope, value: input.subrange(i, end) }),
                    ],
                    PatternModel::Handled { handler, .. } => handler.spec_handle(
                        hit_caps(pattern_text(p), input, i),
                        input,
                    ),
                };
                emitted + spec_scan_from(pats, input, end)
            },
            None => seq![(TokenModel { scope: Scope::Unscoped, value: seq![input[i]] })]
                + spec_scan_from(pats, input, i + 1),
        }
    }
}

#[via_fn]
proof fn spec_scan_from_dec<H: Handler>(pats: Seq<PatternModel<H>>, input: Seq<char>, i: int) {
    lemma_select_from_spec(pats, input, i, 0);
}

/// The scanning engine: an immutable ordered pattern registry, stateless
/// across scans. Its view is the registry's sequence of pattern models.
pub struct Lexer<H: Handler> {
    ctx: LexerContext<H>,
}

impl<H: Handler> View for Lexer<H> {
    type V = Seq<PatternModel<H>>;

    closed spec fn view(&self) -> Seq<PatternModel<H>> {
        self.ctx@
    }
}

impl<H: Handler> Lexer<H> {
    /// An engine over an explicitly built registry.
    pub fn from_context(ctx: LexerContext<H>) -> (r: Lexer<H>)
        ensures
            r@ == ctx@,
    {
        Lexer { ctx }
    }

    /// An engine for the given language: runs its `init` on a fresh
    /// registry.
    ///
    /// Succeeds exactly when every pattern of the language compiles; the
    /// engine's registry is then exactly the language's pattern sequence.
    pub fn new<L: Language<H = H>>(language: L) -> (r: Result<Lexer<H>, PatternError>)
        ensures
            r is Ok <==> all_compile(language.spec_patterns()),
            r matches Ok(lexer) ==> lexer@ == language.spec_patterns(),
    {
        let mut ctx = LexerContext::new();
        match language.init(&mut ctx) {
            Ok(()) => {
                proof {
                    assert(ctx@ =~= language.spec_patterns());
                }
                Ok(Lexer { ctx })
            },
            Err(e) => Err(e),
        }
    }

    /// The index of the first pattern with an anchored, non-empty match at
    /// offset `i`, with the match's capture spans, or `None` when no pattern
    /// hits there.
    fn first_match_at(&self, input: &str, i: usize) -> (r: Option<
        (usize, Vec<Option<(usize, usize)>>),
    >)
        requires
            i <= input@.len(),
        ensures
            match r {
                Some(hit) => {
                    &&& hit.0 < self@.len()
                    &&& spec_select_from(self@, input@, i as int, 0) == Some(hit.0 as int)
                    &&& hit.1@ == hit_caps(pattern_text(self@[hit.0 as int]), input@, i as int)
                    &&& forall|g: int|
                        0 <= g < hit.1@.len() ==> ((#[trigger] hit.1@[g]) matches Some(span)
                            ==> span.0 <= span.1 <= input@.len())
                },
                None => spec_select_from(self@, input@, i as int, 0) is None,
            },
    {
        let mut j: usize = 0;
        while j < self.ctx.patterns.len()
            invariant
                i <= input@.len(),
                j <= self@.len(),
                self@.len() == self.ctx.patterns@.len(),
                forall|m: int|
                    0 <= m < j ==> !anchored_hit(pattern_text(#[trigger] self@[m]), input@, i as int),
            decreases self.ctx.patterns.len() - j,
        {
            let matcher = match &self.ctx.patterns[j] {
                Pattern::Plain { matcher, .. } => matcher,
                Pattern::Handled { matcher, .. } => matcher,
            };
            proof {
                assert(matcher@ == pattern_text(self@[j as int]));
            }
            match matcher.captures_at(input, i) {
                Some(caps) => {
                    let (start, end) = match caps[0] {
                        Some(span) => span,
                        None => (0, 0),
                    };
                    if start == i && end > i {
                        proof {
                            assert(anchored_hit(pattern_text(self@[j as int]), input@, i as int));
                            lemma_select_from_spec(self@, input@, i as int, 0);
                            assert(caps@ == hit_caps(
                                pattern_text(self@[j as int]),
                                input@,
                                i as int,
                            ));
                        }
                        return Some((j, caps));
                    }
                    proof {
                        assert(!anchored_hit(pattern_text(self@[j as int]), input@, i as int));
                    }
                },
                None => {
                    proof {
                        assert(!anchored_hit(pattern_text(self@[j as int]), input@, i as int));
                    }
                },
            }
            j += 1;
        }
        proof {
            lemma_select_from_spec(self@, input@, i as int, 0);
        }
        None
    }

    /// Tokenizes a string: the result is exactly the scan of the input over
    /// this engine's registry, so every scan is total and deterministic.
    pub fn lex(&self, input: &str) -> (r: Vec<Token>)
        ensures
            r.deep_view() == spec_scan_from(self@, input@, 0),
    {
        let input_len = input.unicode_len();
        let mut i: usize = 0;
        let mut acc = TokenContext::new();
        while i < input_len
            invariant
                i <= input_len,
                input_len == input@.len(),
                acc@ + spec_scan_from(self@, input@, i as int) == spec_scan_from(self@, input@, 0),
            decreases input_len - i,
        {
            let ghost prev = acc@;
            match self.first_match_at(input, i) {
                Some((chosen, caps)) => {
                    proof {
                        lemma_select_from_spec(self@, input@, i as int, 0);
                        assert(anchored_hit(pattern_text(self@[chosen as int]), input@, i as int));
                    }
                    let end = match caps[0] {
                        Some(span) => span.1,
                        None => i + 1,
                    };
                    proof {
                        assert(end == hit_end(pattern_text(self@[chosen as int]), input@, i as int));
                    }
                    match &self.ctx.patterns[chosen] {
                        Pattern::Plain { scope, .. } => {
                            let value = input.substring_char(i, end);
                            acc.token(*scope, value);
                        },
                        Pattern::Handled { handler, .. } => {
                            handler.handle(&caps, input, &mut acc);
                        },
                    }
                    proof {
                        assert(acc@ + spec_scan_from(self@, input@, end as int) =~= prev
                            + spec_scan_from(self@, input@, i as int));
                    }
                    i = end;
                },
                None => {
                    let value = input.substring_char(i, i + 1);
                    proof {
                        assert(value@ =~= seq![input@[i as int]]);
                    }
                    acc.token(Scope::Unscoped, value);
                    proof {
                        assert(acc@ + spec_scan_from(self@, input@, i as int + 1) =~= prev
                            + spec_scan_from(self@, input@, i as int));
                    }
                    i += 1;
                },
            }
        }
        proof {
            assert(spec_scan_from(self@, input@, input_len as int) =~= Seq::<TokenModel>::empty());
            assert(acc@ =~= spec_scan_from(self@, input@, 0));
        }
        acc.into_tokens()
    }
}

} // verus!
