//! The regex filter over a directory listing.
//!
//! A listing entry is kept exactly when the user-supplied regex matches
//! somewhere in the entire raw entry string — not only in its base name.
//! Compilation and matching are done by the `regex` crate; what a pattern
//! accepts is named, not restated, and everything around the two calls is
//! verified against those names.

use vstd::prelude::*;
use crate::errors::FatalError;

verus! {

/// The `regex` crate's compiled regular expression.
#[verifier::external_type_specification]
#[verifier::external_body]
pub struct ExRegex(regex::Regex);

/// The `regex` crate's compilation error.
#[verifier::external_type_specification]
#[verifier::external_body]
pub struct ExRegexError(regex::Error);

/// Whether `regex::Regex::new` accepts the pattern `p` (with the default
/// builder settings): a function of the pattern text alone.
pub uninterp spec fn pattern_valid(p: Seq<char>) -> bool;

/// Whether the regex compiled from pattern `p` matches anywhere in the
/// haystack `hay`: what `regex::Regex::is_match` returns, a function of the
/// two texts alone.
pub uninterp spec fn regex_match(p: Seq<char>, hay: Seq<char>) -> bool;

/// Relies on `regex::Regex::new`: compilation succeeds or fails as a
/// function of the pattern text alone, under the default builder settings.
#[verifier::external_body]
fn compile_pattern(pattern: &str) -> (r: Result<regex::Regex, regex::Error>)
    ensures
        r is Ok <==> pattern_valid(pattern@),
{
    regex::Regex::new(pattern)
}

/// A compiled pattern, paired with the text it was compiled from.
pub struct Matcher {
    regex: regex::Regex,
    text: String,
}

impl Matcher {
    /// The pattern text this matcher was built from.
    pub closed spec fn pattern(self) -> Seq<char> {
        self.text@
    }

    /// Compile `pattern`; a pattern the regex engine rejects is a fatal
    /// error.
    pub fn new(pattern: &str) -> (r: Result<Matcher, FatalError>)
        ensures
            r is Ok <==> pattern_valid(pattern@),
            r matches Ok(m) ==> m.pattern() == pattern@,
            r matches Err(e) ==> e == FatalError::InvalidPattern,
    {
        match compile_pattern(pattern) {
            Ok(regex) => Ok(Matcher { regex, text: pattern.to_owned() }),
            Err(_) => Err(FatalError::InvalidPattern),
        }
    }

    /// Relies on `regex::Regex::is_match`: whether a match exists anywhere
    /// in `hay`, a function of the compiled pattern's text and of `hay`
    /// alone. `new` is the only constructor and compiles `regex` from
    /// `text`.
    #[verifier::external_body]
    pub fn is_match(&self, hay: &str) -> (r: bool)
        ensures
            r == regex_match(self.pattern(), hay@),
    {
        self.regex.is_match(hay)
    }
}

/// The entries of `entries` that the regex compiled from `p` matches, in
/// their original order: the ordered subsequence of entries satisfying the
/// match.
pub open spec fn regex_filtered(entries: Seq<Seq<char>>, p: Seq<char>) -> Seq<Seq<char>> {
    entries.filter(|e: Seq<char>| regex_match(p, e))
}

/// An entry occurs in the regex-filtered output exactly when it occurs in
/// the listing and the pattern matches it; nothing else is added or
/// dropped.
pub proof fn lemma_regex_filter_membership(entries: Seq<Seq<char>>, p: Seq<char>, x: Seq<char>)
    ensures
        regex_filtered(entries, p).contains(x) <==> entries.contains(x) && regex_match(p, x),
    decreases entries.len(),
{
    reveal(Seq::filter);
    let pred = |e: Seq<char>| regex_match(p, e);
    let out = entries.filter(pred);
    if entries.len() > 0 {
        lemma_regex_filter_membership(entries.drop_last(), p, x);
        let rest = entries.drop_last().filter(pred);
        if entries.contains(x) && regex_match(p, x) {
            if x == entries.last() {
                assert(out[out.len() - 1] == x);
            } else {
                let k = choose|k: int| 0 <= k < entries.len() && entries[k] == x;
                assert(entries.drop_last()[k] == x);
                let j = choose|j: int| 0 <= j < rest.len() && rest[j] == x;
                assert(out[j] == x);
            }
        }
        if out.contains(x) {
            let j = choose|j: int| 0 <= j < out.len() && out[j] == x;
            if pred(entries.last()) && j == out.len() - 1 {
                assert(x == entries.last());
                assert(entries[entries.len() - 1] == x);
            } else {
                assert(rest[j] == x);
                let k = choose|k: int| 0 <= k < entries.drop_last().len()
                    && entries.drop_last()[k] == x;
                assert(entries[k] == x);
            }
        }
    }
}

/// Keep the listing entries that the matcher's pattern matches, in their
/// original order. The whole raw entry string is the match haystack, not
/// only its base name.
pub fn filter_files(matcher: &Matcher, entries: &Vec<String>) -> (r: Vec<String>)
    ensures
        r.deep_view() == regex_filtered(entries.deep_view(), matcher.pattern()),
{
    let ghost pred = |e: Seq<char>| regex_match(matcher.pattern(), e);
    let mut out: Vec<String> = Vec::new();
    let mut i: usize = 0;
    proof {
        reveal(Seq::filter);
        assert(entries.deep_view().take(0).filter(pred) =~= Seq::<Seq<char>>::empty());
    }
    while i < entries.len()
        invariant
            i <= entries@.len(),
            out.deep_view() == entries.deep_view().take(i as int).filter(pred),
            pred == (|e: Seq<char>| regex_match(matcher.pattern(), e)),
        decreases entries@.len() - i,
    {
        let ghost prev = out.deep_view();
        if matcher.is_match(entries[i].as_str()) {
            out.push(entries[i].clone());
        }
        proof {
            reveal(Seq::filter);
            let taken = entries.deep_view().take(i as int);
            assert(entries.deep_view().take(i + 1) =~= taken.push(
                entries.deep_view()[i as int],
            ));
            assert(taken.push(entries.deep_view()[i as int]).drop_last() =~= taken);
            if pred(entries.deep_view()[i as int]) {
                assert(out.deep_view() =~= prev.push(entries.deep_view()[i as int]));
            }
        }
        i += 1;
    }
    proof {
        assert(entries.deep_view().take(entries@.len() as int) =~= entries.deep_view());
    }
    out
}

} // verus!
