//! The compiled-pattern type: a thin, trusted boundary around the `regex`
//! crate.
//!
//! A [`Matcher`] pairs a compiled `regex::Regex` with the pattern text it was
//! compiled from; the text is the matcher's view, and everything the engine
//! proves about matching is stated over two named functions of that text:
//! [`regex_compiles`] and [`regex_captures_at`].

use vstd::prelude::*;

verus! {

#[verifier::external_type_specification]
#[verifier::external_body]
pub struct ExRegex(regex::Regex);

/// Whether `regex::Regex::new` accepts the pattern text. Compilation is a
/// function of the text alone.
pub uninterp spec fn regex_compiles(pattern: Seq<char>) -> bool;

/// The capture spans that `regex::Regex::captures_read_at` reports for the
/// compiled `pattern` when the search starts at character offset `start` of
/// `text`: `None` when nothing matches at or after `start`, otherwise one
/// entry per capture group (group 0 is the whole match), `None` for a group
/// that did not participate. All offsets count characters, not bytes. The
/// result is a function of the three arguments alone.
pub uninterp spec fn regex_captures_at(pattern: Seq<char>, text: Seq<char>, start: int) -> Option<
    Seq<Option<(usize, usize)>>,
>;

/// A compiled pattern, viewed as the pattern text it was compiled from.
pub struct Matcher {
    pattern: String,
    regex: regex::Regex,
}

impl View for Matcher {
    type V = Seq<char>;

    closed spec fn view(&self) -> Seq<char> {
        self.pattern@
    }
}

impl Matcher {
    /// Compiles a pattern, keeping the text beside the compiled form.
    ///
    /// Relies on `regex::Regex::new`: it returns `Ok` or `Err` on the pattern
    /// text alone, and the compiled value it returns matches as that text
    /// prescribes (the stored text is what every later contract about this
    /// matcher speaks of).
    #[verifier::external_body]
    pub fn new(pattern: &str) -> (r: Option<Matcher>)
        ensures
            r is Some <==> regex_compiles(pattern@),
            r matches Some(m) ==> m@ == pattern@,
    {
        match regex::Regex::new(pattern) {
            Ok(regex) => Some(Matcher { pattern: pattern.to_owned(), regex }),
            Err(_) => None,
        }
    }

    /// Reports the capture spans of the leftmost match whose search starts at
    /// character offset `start`, or `None` if nothing matches there or later.
    ///
    /// Relies on `regex::Regex::captures_read_at` (with a fresh
    /// `CaptureLocations` from `regex::Regex::capture_locations`): the search
    /// is deterministic in the pattern, the haystack and the start offset; on
    /// a match, group 0 is the whole match, it begins no earlier than `start`,
    /// and every participating group's span is a well-formed range within the
    /// haystack. Byte offsets are converted to character offsets on the way
    /// in and out.
    #[verifier::external_body]
    pub fn captures_at(&self, text: &str, start: usize) -> (r: Option<
        Vec<Option<(usize, usize)>>,
    >)
        requires
            start <= text@.len(),
        ensures
            r.deep_view() == regex_captures_at(self@, text@, start as int),
            r matches Some(caps) ==> {
                &&& caps@.len() > 0
                &&& caps@[0] matches Some(whole) && start <= whole.0 <= whole.1 <= text@.len()
                &&& forall|g: int|
                    0 <= g < caps@.len() ==> ((#[trigger] caps@[g]) matches Some(span)
                        ==> span.0 <= span.1 <= text@.len())
            },
    {
        let byte_start = text.char_indices().map(|(b, _)| b).nth(start).unwrap_or(text.len());
        let mut locs = self.regex.capture_locations();
        self.regex.captures_read_at(&mut locs, text, byte_start)?;
        let to_chars = |b: usize| text[..b].chars().count();
        Some(
            (0..locs.len()).map(
                |g| locs.get(g).map(|(s, e)| (to_chars(s), to_chars(e))),
            ).collect(),
        )
    }
}

} // verus!
