//! URL normalization, domain matching and status-code filtering.

use vstd::prelude::*;
use vstd::string::*;

use crate::matchers::Matcher;
use crate::matchers::regex_hit;
use crate::matchers::regex_ok;
use crate::strutil::dir_prefix;
use crate::strutil::parse_u16;
use crate::strutil::spec_dir_prefix;
use crate::strutil::spec_parse_u16;
use crate::strutil::spec_split;
use crate::strutil::spec_starts_with;
use crate::strutil::spec_trim;
use crate::strutil::split_char;
use crate::strutil::str_concat;
use crate::strutil::str_starts_with;
use crate::strutil::trim_spaces;
use crate::urlparse::UrlParts;
use crate::urlparse::parse_url_parts;
use crate::urlparse::url_host;
use crate::urlparse::url_ok;
use crate::urlparse::url_path;
use crate::urlparse::url_scheme;

verus! {

/// Why an extracted string could not be normalized to an absolute URL.
#[derive(Debug, Clone, Copy, PartialEq, Eq, Structural)]
pub enum UrlError {
    /// The base URL does not parse, so a relative reference has no anchor.
    BadBase,
}

/// The host sequence, or empty when the URL has none.
pub open spec fn spec_host_or_empty(h: Option<Seq<char>>) -> Seq<char> {
    match h {
        Some(x) => x,
        None => Seq::empty(),
    }
}

/// The normalization rules, in order: an absolute URL is kept unchanged; a
/// scheme-relative one gets the base's scheme; a root-relative one gets the
/// base's scheme and host; anything else resolves against the directory of
/// the base's path.  None when the base is needed but does not parse.
pub open spec fn spec_normalize_url(url: Seq<char>, base: Seq<char>) -> Option<Seq<char>> {
    if spec_starts_with(url, "http://"@) || spec_starts_with(url, "https://"@) {
        Some(url)
    } else if !url_ok(base) {
        None
    } else if spec_starts_with(url, "//"@) {
        Some(url_scheme(base) + ":"@ + url)
    } else if spec_starts_with(url, "/"@) {
        Some(url_scheme(base) + "://"@ + spec_host_or_empty(url_host(base)) + url)
    } else {
        Some(
            url_scheme(base) + "://"@ + spec_host_or_empty(url_host(base)) + spec_dir_prefix(
                url_path(base),
            ) + url,
        )
    }
}

/// Resolves an extracted string to an absolute URL against `base_url`.
pub fn normalize_url(url: &str, base_url: &str) -> (r: Result<String, UrlError>)
    ensures
        r matches Ok(u) ==> spec_normalize_url(url@, base_url@) == Some(u@),
        r is Err <==> spec_normalize_url(url@, base_url@) is None,
{
    if str_starts_with(url, "http://") || str_starts_with(url, "https://") {
        return Ok(String::from_str(url));
    }
    let parts: UrlParts = match parse_url_parts(base_url) {
        Some(p) => p,
        None => {
            return Err(UrlError::BadBase);
        },
    };
    if str_starts_with(url, "//") {
        let s1 = str_concat(parts.scheme.as_str(), ":");
        let out = str_concat(s1.as_str(), url);
        proof {
            assert(out@ =~= url_scheme(base_url@) + ":"@ + url@);
        }
        return Ok(out);
    }
    let host: String = match parts.host {
        Some(h) => h,
        None => String::new(),
    };
    proof {
        assert(host@ =~= spec_host_or_empty(url_host(base_url@)));
    }
    if str_starts_with(url, "/") {
        let s1 = str_concat(parts.scheme.as_str(), "://");
        let s2 = str_concat(s1.as_str(), host.as_str());
        let out = str_concat(s2.as_str(), url);
        proof {
            assert(out@ =~= url_scheme(base_url@) + "://"@ + spec_host_or_empty(
                url_host(base_url@),
            ) + url@);
        }
        Ok(out)
    } else {
        let dir = dir_prefix(parts.path.as_str());
        let s1 = str_concat(parts.scheme.as_str(), "://");
        let s2 = str_concat(s1.as_str(), host.as_str());
        let s3 = str_concat(s2.as_str(), dir.as_str());
        let out = str_concat(s3.as_str(), url);
        proof {
            assert(out@ =~= url_scheme(base_url@) + "://"@ + spec_host_or_empty(
                url_host(base_url@),
            ) + spec_dir_prefix(url_path(base_url@)) + url@);
        }
        Ok(out)
    }
}

/// Whether `url` parses and its host matches the domain pattern.
pub open spec fn spec_is_domain_match(url: Seq<char>, pat: Seq<char>) -> bool {
    url_ok(url) && regex_ok(pat) && match url_host(url) {
        Some(h) => regex_hit(pat, h),
        None => false,
    }
}

/// Tests the host of `url` against a domain regular expression; false when
/// the URL does not parse, has no host, or the pattern does not compile.
pub fn is_domain_match(url: &str, domain_pattern: &str) -> (r: bool)
    ensures
        r == spec_is_domain_match(url@, domain_pattern@),
{
    match parse_url_parts(url) {
        Some(p) => match p.host {
            Some(h) => match Matcher::compile(domain_pattern) {
                Some(m) => m.is_match(h.as_str()),
                None => false,
            },
            None => false,
        },
        None => false,
    }
}

/// `s` spells "all", ignoring ASCII case.
pub open spec fn spec_is_all(s: Seq<char>) -> bool {
    s.len() == 3 && (s[0] == 'a' || s[0] == 'A') && (s[1] == 'l' || s[1] == 'L') && (s[2] == 'l'
        || s[2] == 'L')
}

/// The status codes kept from the comma-separated pieces: each piece trimmed
/// of whitespace and read as a decimal `u16`; unreadable pieces are dropped.
pub open spec fn spec_kept_codes(pieces: Seq<Seq<char>>) -> Seq<u16>
    decreases pieces.len(),
{
    if pieces.len() == 0 {
        Seq::empty()
    } else {
        let rest = spec_kept_codes(pieces.drop_last());
        match spec_parse_u16(spec_trim(pieces.last())) {
            Some(v) => rest.push(v),
            None => rest,
        }
    }
}

/// The status-code constraint a filter string denotes: "all" (any ASCII
/// case) means no constraint, otherwise the readable codes in the list.
pub open spec fn spec_parse_status_codes(s: Seq<char>) -> Seq<u16> {
    if spec_is_all(s) {
        Seq::empty()
    } else {
        spec_kept_codes(spec_split(s, ','))
    }
}

/// Parses a comma-separated status-code filter; "all" means unfiltered.
pub fn parse_status_codes(status_str: &str) -> (r: Vec<u16>)
    ensures
        r@ == spec_parse_status_codes(status_str@),
{
    let n = status_str.unicode_len();
    if n == 3 {
        let c0 = status_str.get_char(0);
        let c1 = status_str.get_char(1);
        let c2 = status_str.get_char(2);
        if (c0 == 'a' || c0 == 'A') && (c1 == 'l' || c1 == 'L') && (c2 == 'l' || c2 == 'L') {
            return Vec::new();
        }
    }
    let pieces = split_char(status_str, ',');
    let mut out: Vec<u16> = Vec::new();
    let m = pieces.len();
    let mut i: usize = 0;
    while i < m
        invariant
            i <= m,
            m == pieces.len(),
            pieces.deep_view() == spec_split(status_str@, ','),
            out@ == spec_kept_codes(pieces.deep_view().subrange(0, i as int)),
        decreases m - i,
    {
        proof {
            assert(pieces.deep_view().subrange(0, i + 1).drop_last() =~= pieces.deep_view()
                .subrange(0, i as int));
            assert(pieces.deep_view()[i as int] == pieces@[i as int]@);
        }
        let t = trim_spaces(pieces[i].as_str());
        if let Some(v) = parse_u16(t.as_str()) {
            out.push(v);
        }
        i = i + 1;
    }
    proof {
        assert(pieces.deep_view().subrange(0, m as int) =~= pieces.deep_view());
    }
    out
}

/// A status code passes the constraint list exactly when the list is empty
/// or holds the code.
pub open spec fn spec_is_status_match(status: u16, codes: Seq<u16>) -> bool {
    codes.len() == 0 || codes.contains(status)
}

/// Whether a status code passes the constraint list: an empty list admits
/// every code, a non-empty one only its members.
pub fn is_status_match(status: u16, filter_status: &[u16]) -> (r: bool)
    ensures
        r == spec_is_status_match(status, filter_status@),
{
    let n = filter_status.len();
    if n == 0 {
        return true;
    }
    let mut i: usize = 0;
    while i < n
        invariant
            i <= n,
            n == filter_status@.len(),
            forall|j: int| 0 <= j < i ==> filter_status@[j] != status,
        decreases n - i,
    {
        if filter_status[i] == status {
            return true;
        }
        i = i + 1;
    }
    false
}

/// The unfiltered case of the status filter: "all" parses to the empty
/// constraint list, and the empty list admits every status code.
pub proof fn lemma_status_filter_all(code: u16)
    ensures
        spec_parse_status_codes("all"@) =~= Seq::<u16>::empty(),
        spec_is_status_match(code, spec_parse_status_codes("all"@)),
{
    reveal_strlit("all");
}

} // verus!
