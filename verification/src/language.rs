//! The contract a language plugin implements to populate a pattern registry.

use vstd::prelude::*;

use crate::lexer::{Handler, LexerContext, PatternError, PatternModel};
use crate::matcher::regex_compiles;

verus! {

/// Does every pattern in the sequence compile?
pub open spec fn all_compile<H>(pats: Seq<PatternModel<H>>) -> bool {
    forall|k: int|
        0 <= k < pats.len() ==> regex_compiles(crate::lexer::pattern_text(#[trigger] pats[k]))
}

/// A language definition: a stateless capability that configures a pattern
/// registry once.
///
/// A language is modeled by three values: its primary name, its non-empty
/// list of aliases, and the ordered pattern sequence `init` registers.
/// Registration order is matching precedence, so an implementation must
/// order keyword rules before more general catch-all rules.
pub trait Language: Sized {
    /// The handler type of this language's handled patterns.
    type H: Handler;

    /// The language's primary name.
    spec fn spec_name(&self) -> Seq<char>;

    /// All of the language's names, in order, the primary name included.
    /// By default, the primary name alone.
    open spec fn spec_names(&self) -> Seq<Seq<char>> {
        seq![self.spec_name()]
    }

    /// The ordered pattern sequence `init` registers.
    spec fn spec_patterns(&self) -> Seq<PatternModel<Self::H>>;

    /// Returns the name of the language, used for registry lookup.
    fn name(&self) -> (r: String)
        ensures
            r@ == self.spec_name(),
    ;

    /// Returns all of the names of the language, the primary name included.
    fn names(&self) -> (r: Vec<String>)
        ensures
            r.deep_view() == self.spec_names(),
            r.len() >= 1,
    ;

    /// Populates the registry with this language's patterns, in order.
    ///
    /// Succeeds exactly when every pattern of the language compiles; on
    /// success the language's patterns stand appended, in order, after
    /// whatever the registry already held.
    fn init(&self, cx: &mut LexerContext<Self::H>) -> (r: Result<(), PatternError>)
        ensures
            r is Ok <==> all_compile(self.spec_patterns()),
            r is Ok ==> final(cx)@ == old(cx)@ + self.spec_patterns(),
    ;
}

} // verus!
