//! The engine's laws: totality, round-trip, determinism, precedence, and
//! the rejection of zero-width matches, each proved of the scan.

use vstd::prelude::*;

use crate::lexer::{
    anchored_hit, hit_caps, hit_end, lemma_select_from_spec, pattern_text, spec_scan_from,
    spec_select_from, Handler, PatternModel, TokenModel,
};
use crate::matcher::regex_captures_at;
use crate::scope::Scope;

verus! {

/// The concatenation of the values of a token sequence, in emission order.
pub open spec fn concat_values(tokens: Seq<TokenModel>) -> Seq<char>
    decreases tokens.len(),
{
    if tokens.len() == 0 {
        Seq::empty()
    } else {
        tokens[0].value + concat_values(tokens.drop_first())
    }
}

/// Concatenating the values of two token sequences in order concatenates
/// their values.
pub proof fn lemma_concat_values_add(a: Seq<TokenModel>, b: Seq<TokenModel>)
    ensures
        concat_values(a + b) == concat_values(a) + concat_values(b),
    decreases a.len(),
{
    if a.len() == 0 {
        assert(a + b =~= b);
        assert(concat_values(a) + concat_values(b) =~= concat_values(b));
    } else {
        lemma_concat_values_add(a.drop_first(), b);
        assert((a + b).drop_first() =~= a.drop_first() + b);
        assert(concat_values(a + b) =~= concat_values(a) + concat_values(b));
    }
}

/// A single token's sequence concatenates to that token's value.
pub proof fn lemma_concat_values_singleton(token: TokenModel)
    ensures
        concat_values(seq![token]) == token.value,
{
    assert(seq![token].drop_first() =~= Seq::<TokenModel>::empty());
    assert(concat_values(Seq::<TokenModel>::empty()) == Seq::<char>::empty());
    assert(concat_values(seq![token]) =~= token.value);
}

/// A covering handler: for every match, the values of the tokens it emits
/// concatenate to exactly the span of the source that the match covers.
pub open spec fn covering_handler<H: Handler>(handler: H) -> bool {
    forall|caps: Seq<Option<(usize, usize)>>, source: Seq<char>|
        match caps[0] {
            Some(whole) => (caps.len() > 0 && whole.0 <= whole.1 <= source.len())
                ==> concat_values(#[trigger] handler.spec_handle(caps, source))
                    == source.subrange(whole.0 as int, whole.1 as int),
            None => true,
        }
}

/// A pattern whose handler, if it has one, is covering.
pub open spec fn pattern_covering<H: Handler>(p: PatternModel<H>) -> bool {
    match p {
        PatternModel::Plain { .. } => true,
        PatternModel::Handled { handler, .. } => covering_handler(handler),
    }
}

proof fn lemma_round_trip_from<H: Handler>(pats: Seq<PatternModel<H>>, input: Seq<char>, i: int)
    requires
        forall|k: int| 0 <= k < pats.len() ==> pattern_covering(#[trigger] pats[k]),
        0 <= i <= input.len(),
    ensures
        concat_values(spec_scan_from(pats, input, i)) == input.subrange(i, input.len() as int),
    decreases input.len() - i,
{
    if i >= input.len() {
        assert(input.subrange(i, input.len() as int) =~= Seq::<char>::empty());
    } else {
        lemma_select_from_spec(pats, input, i, 0);
        match spec_select_from(pats, input, i, 0) {
            Some(chosen) => {
                let p = pats[chosen];
                let end = hit_end(pattern_text(p), input, i);
                let emitted = match p {
                    PatternModel::Plain { scope, .. } => seq![
                        (TokenModel { scope, value: input.subrange(i, end) }),
                    ],
                    PatternModel::Handled { handler, .. } => handler.spec_handle(
                        hit_caps(pattern_text(p), input, i),
                        input,
                    ),
                };
                assert(concat_values(emitted) == input.subrange(i, end)) by {
                    match p {
                        PatternModel::Plain { scope, .. } => {
                            lemma_concat_values_singleton(
                                TokenModel { scope, value: input.subrange(i, end) },
                            );
                        },
                        PatternModel::Handled { handler, .. } => {
                            assert(pattern_covering(pats[chosen]));
                        },
                    }
                }
                lemma_round_trip_from(pats, input, end);
                lemma_concat_values_add(emitted, spec_scan_from(pats, input, end));
                assert(input.subrange(i, end) + input.subrange(end, input.len() as int)
                    =~= input.subrange(i, input.len() as int));
            },
            None => {
                lemma_round_trip_from(pats, input, i + 1);
                let fallback = seq![
                    (TokenModel { scope: Scope::Unscoped, value: seq![input[i]] }),
                ];
                lemma_concat_values_add(fallback, spec_scan_from(pats, input, i + 1));
                lemma_concat_values_singleton(
                    TokenModel { scope: Scope::Unscoped, value: seq![input[i]] },
                );
                assert(seq![input[i]] + input.subrange(i + 1, input.len() as int)
                    =~= input.subrange(i, input.len() as int));
            },
        }
    }
}

/// Round-trip: over a registry whose handlers are covering, concatenating
/// the values of the scanned tokens in emission order reproduces the input
/// exactly — no character is dropped, duplicated or reordered. (Plain and
/// fallback tokens always cover; only a handler can break coverage, so only
/// handlers need the hypothesis.)
pub proof fn lemma_round_trip<H: Handler>(pats: Seq<PatternModel<H>>, input: Seq<char>)
    requires
        forall|k: int| 0 <= k < pats.len() ==> pattern_covering(#[trigger] pats[k]),
    ensures
        concat_values(spec_scan_from(pats, input, 0)) == input,
{
    lemma_round_trip_from(pats, input, 0);
    assert(input.subrange(0, input.len() as int) =~= input);
}

/// Determinism: the scan is a function of the registry and the input alone,
/// so two scans of the same input over the same registry yield identical
/// token sequences. (`Lexer::lex` ensures its result equals
/// `spec_scan_from` of the engine's view and the input.)
pub proof fn lemma_scan_deterministic<H: Handler>(
    pats: Seq<PatternModel<H>>,
    input: Seq<char>,
    first: Seq<TokenModel>,
    second: Seq<TokenModel>,
)
    requires
        first == spec_scan_from(pats, input, 0),
        second == spec_scan_from(pats, input, 0),
    ensures
        first == second,
{
}

proof fn lemma_empty_registry_from<H: Handler>(input: Seq<char>, i: int)
    requires
        0 <= i <= input.len(),
    ensures
        ({
            let tokens = spec_scan_from(Seq::<PatternModel<H>>::empty(), input, i);
            &&& tokens.len() == input.len() - i
            &&& forall|k: int|
                0 <= k < tokens.len() ==> #[trigger] tokens[k] == (TokenModel {
                    scope: Scope::Unscoped,
                    value: seq![input[i + k]],
                })
        }),
    decreases input.len() - i,
{
    if i < input.len() {
        lemma_empty_registry_from::<H>(input, i + 1);
    }
}

/// Totality and fallback: an engine with an empty registry classifies every
/// character of any input as exactly one unclassified token, one token per
/// character, in source order — adjacent fallback characters are not
/// coalesced.
pub proof fn lemma_empty_registry_fallback<H: Handler>(input: Seq<char>)
    ensures
        ({
            let tokens = spec_scan_from(Seq::<PatternModel<H>>::empty(), input, 0);
            &&& tokens.len() == input.len()
            &&& forall|k: int|
                0 <= k < tokens.len() ==> #[trigger] tokens[k] == (TokenModel {
                    scope: Scope::Unscoped,
                    value: seq![input[k]],
                })
        }),
{
    lemma_empty_registry_from::<H>(input, 0);
}

proof fn lemma_plain_scan_tokens_nonempty_from<H: Handler>(
    pats: Seq<PatternModel<H>>,
    input: Seq<char>,
    i: int,
)
    requires
        forall|k: int| 0 <= k < pats.len() ==> (#[trigger] pats[k]) is Plain,
        0 <= i <= input.len(),
    ensures
        forall|t: int|
            0 <= t < spec_scan_from(pats, input, i).len() ==> #[trigger] spec_scan_from(
                pats,
                input,
                i,
            )[t].value.len() > 0,
    decreases input.len() - i,
{
    if i < input.len() {
        lemma_select_from_spec(pats, input, i, 0);
        match spec_select_from(pats, input, i, 0) {
            Some(chosen) => {
                let end = hit_end(pattern_text(pats[chosen]), input, i);
                lemma_plain_scan_tokens_nonempty_from(pats, input, end);
            },
            None => {
                lemma_plain_scan_tokens_nonempty_from(pats, input, i + 1);
            },
        }
    }
}

/// Every token of a scan over a registry without handled patterns covers at
/// least one character: a plain pattern is selected only on a non-empty
/// anchored match, and the fallback token covers exactly one character, so
/// no token's value is empty.
pub proof fn lemma_plain_scan_tokens_nonempty<H: Handler>(
    pats: Seq<PatternModel<H>>,
    input: Seq<char>,
)
    requires
        forall|k: int| 0 <= k < pats.len() ==> (#[trigger] pats[k]) is Plain,
    ensures
        forall|t: int|
            0 <= t < spec_scan_from(pats, input, 0).len() ==> #[trigger] spec_scan_from(
                pats,
                input,
                0,
            )[t].value.len() > 0,
{
    lemma_plain_scan_tokens_nonempty_from(pats, input, 0);
}

/// Precedence: when two patterns both have an anchored, non-empty match at
/// the same offset, the scan selects the one registered earlier — or an even
/// earlier one — never the later one, regardless of either match's length.
pub proof fn lemma_precedence<H: Handler>(
    pats: Seq<PatternModel<H>>,
    input: Seq<char>,
    i: int,
    earlier: int,
    later: int,
)
    requires
        0 <= earlier < later < pats.len(),
        anchored_hit(pattern_text(pats[earlier]), input, i),
        anchored_hit(pattern_text(pats[later]), input, i),
    ensures
        spec_select_from(pats, input, i, 0) matches Some(chosen) && chosen <= earlier,
        spec_select_from(pats, input, i, 0) != Some(later),
{
    lemma_select_from_spec(pats, input, i, 0);
}

/// No zero-width stall: a pattern whose match at an offset covers an empty
/// span is never selected as the anchored match there; the scan falls
/// through to later patterns or to the single-character fallback, so the
/// cursor always advances and scanning terminates.
pub proof fn lemma_zero_width_never_selected<H: Handler>(
    pats: Seq<PatternModel<H>>,
    input: Seq<char>,
    i: int,
    j: int,
)
    requires
        0 <= j < pats.len(),
        regex_captures_at(pattern_text(pats[j]), input, i) matches Some(caps) && (match caps[0] {
            Some(whole) => whole.0 == whole.1,
            None => true,
        }),
    ensures
        spec_select_from(pats, input, i, 0) != Some(j),
{
    assert(!anchored_hit(pattern_text(pats[j]), input, i));
    lemma_select_from_spec(pats, input, i, 0);
}

} // verus!
