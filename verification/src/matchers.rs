//! Trusted bridge to the regex crate: compiled patterns and what their
//! matching functions return.

use vstd::prelude::*;

verus! {

/// Whether the regex crate accepts `pat` as a pattern.
pub uninterp spec fn regex_ok(pat: Seq<char>) -> bool;

/// The successive non-overlapping matches the pattern `pat` finds in `text`,
/// leftmost first.
pub uninterp spec fn regex_found(pat: Seq<char>, text: Seq<char>) -> Seq<Seq<char>>;

/// Whether the pattern `pat` matches anywhere in `text`.
pub uninterp spec fn regex_hit(pat: Seq<char>, text: Seq<char>) -> bool;

/// The first capture group of the first match of `pat` in `text`, if any.
pub uninterp spec fn regex_capture(pat: Seq<char>, text: Seq<char>) -> Option<Seq<char>>;

/// A compiled pattern, paired with the text it was compiled from.  Only
/// `compile` builds one, so the field and the compiled value always agree.
pub struct Matcher {
    pattern: String,
    re: regex::Regex,
}

impl Matcher {
    /// The pattern this matcher was compiled from.
    pub closed spec fn pat(&self) -> Seq<char> {
        self.pattern@
    }

    /// Relies on regex::Regex::new: it returns Ok exactly on the patterns
    /// the crate accepts, a function of the pattern text alone.
    #[verifier::external_body]
    pub fn compile(pat: &str) -> (r: Option<Matcher>)
        ensures
            r is Some <==> regex_ok(pat@),
            r matches Some(m) ==> m.pat() == pat@,
    {
        match regex::Regex::new(pat) {
            Ok(re) => Some(Matcher { pattern: pat.to_string(), re }),
            Err(_) => None,
        }
    }

    /// Relies on regex::Regex::find_iter: the non-overlapping matches of the
    /// pattern in `text`, leftmost first; Match::as_str is the matched text.
    #[verifier::external_body]
    pub fn find_all(&self, text: &str) -> (r: Vec<String>)
        ensures
            r.deep_view() == regex_found(self.pat(), text@),
    {
        self.re.find_iter(text).map(|m| m.as_str().to_string()).collect()
    }

    /// Relies on regex::Regex::is_match: whether the pattern matches anywhere
    /// in `text`.
    #[verifier::external_body]
    pub fn is_match(&self, text: &str) -> (r: bool)
        ensures
            r == regex_hit(self.pat(), text@),
    {
        self.re.is_match(text)
    }

    /// Relies on regex::Regex::captures and Captures::get: the text of
    /// capture group 1 of the first match; None when the pattern does not
    /// match or the group did not participate.
    #[verifier::external_body]
    pub fn capture_first(&self, text: &str) -> (r: Option<String>)
        ensures
            r.deep_view() == regex_capture(self.pat(), text@),
    {
        match self.re.captures(text) {
            Some(cap) => match cap.get(1) {
                Some(m) => Some(m.as_str().to_string()),
                None => None,
            },
            None => None,
        }
    }
}

/// regex::Regex, held opaquely inside a Matcher.
#[verifier::external_type_specification]
#[verifier::external_body]
pub struct ExRegex(regex::Regex);

} // verus!
