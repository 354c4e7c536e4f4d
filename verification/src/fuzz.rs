//! The machinery both fuzz generators share: base-path derivation from a
//! URL, within-call deduplication, and the base-times-suffix product.

use vstd::prelude::*;
use vstd::string::*;

use crate::matchers::Matcher;
use crate::matchers::regex_capture;
use crate::matchers::regex_ok;
use crate::strutil::dir_prefix;
use crate::strutil::spec_dir_prefix;
use crate::strutil::str_concat;
use crate::strutil::vec_contains_string;
use crate::urlparse::parse_url_parts;
use crate::urlparse::url_ok;
use crate::urlparse::url_origin;
use crate::urlparse::url_path;

verus! {

/// The fallback pattern that recovers a URL's scheme-and-host prefix.
pub open spec fn spec_origin_pattern() -> Seq<char> {
    "(https?://[^/]+)/"@
}

/// The path has a directory below the root: it starts with `/` and its
/// directory prefix reaches past that first `/`.
pub open spec fn spec_has_dir(p: Seq<char>) -> bool {
    p.len() > 0 && p[0] == '/' && spec_dir_prefix(p).len() >= 2
}

/// The base paths one URL contributes, in order: its origin joined with the
/// directory of its path (without the trailing `/`), when the path has a
/// directory below the root; then the scheme-and-host prefix the fallback
/// pattern captures, when it matches.
pub open spec fn spec_bases_of_url(u: Seq<char>) -> Seq<Seq<char>> {
    (if url_ok(u) && spec_has_dir(url_path(u)) {
        seq![url_origin(u) + spec_dir_prefix(url_path(u)).drop_last()]
    } else {
        Seq::empty()
    }) + (if regex_ok(spec_origin_pattern()) {
        match regex_capture(spec_origin_pattern(), u) {
            Some(b) => seq![b],
            None => Seq::empty(),
        }
    } else {
        Seq::empty()
    })
}

/// Collects the base paths of one URL into `out`.
pub(crate) fn push_bases_of_url(u: &str, origin_matcher: &Option<Matcher>, out: &mut Vec<String>)
    requires
        origin_matcher matches Some(m) ==> m.pat() == spec_origin_pattern(),
        origin_matcher is Some <==> regex_ok(spec_origin_pattern()),
    ensures
        final(out).deep_view() == old(out).deep_view() + spec_bases_of_url(u@),
{
    let ghost start = out.deep_view();
    match parse_url_parts(u) {
        Some(p) => {
            let path = p.path.as_str();
            let n = path.unicode_len();
            if n > 0 && path.get_char(0) == '/' {
                let dir = dir_prefix(path);
                let dn = dir.as_str().unicode_len();
                if dn >= 2 {
                    let trimmed = dir.as_str().substring_char(0, dn - 1);
                    proof {
                        assert(trimmed@ =~= spec_dir_prefix(url_path(u@)).drop_last());
                    }
                    let base = str_concat(p.origin.as_str(), trimmed);
                    out.push(base);
                }
            }
        },
        None => {},
    }
    proof {
        let dir_part = if url_ok(u@) && spec_has_dir(url_path(u@)) {
            seq![url_origin(u@) + spec_dir_prefix(url_path(u@)).drop_last()]
        } else {
            Seq::<Seq<char>>::empty()
        };
        assert(out.deep_view() =~= start + dir_part);
    }
    let ghost mid = out.deep_view();
    match origin_matcher {
        Some(m) => {
            match m.capture_first(u) {
                Some(b) => {
                    out.push(b);
                },
                None => {},
            }
        },
        None => {},
    }
    proof {
        let origin_part = if regex_ok(spec_origin_pattern()) {
            match regex_capture(spec_origin_pattern(), u@) {
                Some(b) => seq![b],
                None => Seq::<Seq<char>>::empty(),
            }
        } else {
            Seq::<Seq<char>>::empty()
        };
        assert(out.deep_view() =~= mid + origin_part);
        assert(out.deep_view() =~= start + spec_bases_of_url(u@));
    }
}

/// First occurrences kept, later duplicates dropped.
pub open spec fn spec_dedup(s: Seq<Seq<char>>) -> Seq<Seq<char>>
    decreases s.len(),
{
    if s.len() == 0 {
        Seq::empty()
    } else {
        let rest = spec_dedup(s.drop_last());
        if s.drop_last().contains(s.last()) {
            rest
        } else {
            rest.push(s.last())
        }
    }
}

proof fn lemma_dedup_same_members(s: Seq<Seq<char>>, x: Seq<char>)
    ensures
        spec_dedup(s).contains(x) == s.contains(x),
    decreases s.len(),
{
    if s.len() > 0 {
        let d = s.drop_last();
        lemma_dedup_same_members(d, x);
        assert(d.contains(x) ==> s.contains(x)) by {
            if d.contains(x) {
                let i = choose|i: int| 0 <= i < d.len() && d[i] == x;
                assert(s[i] == x);
            }
        }
        assert(s.last() == x ==> s.contains(x)) by {
            if s.last() == x {
                assert(s[s.len() - 1] == x);
            }
        }
        assert(s.contains(x) ==> d.contains(x) || s.last() == x) by {
            if s.contains(x) {
                let i = choose|i: int| 0 <= i < s.len() && s[i] == x;
                if i < s.len() - 1 {
                    assert(d[i] == x);
                }
            }
        }
        if !d.contains(s.last()) {
            let rest = spec_dedup(d);
            assert(rest.push(s.last()).contains(x) == (rest.contains(x) || s.last() == x)) by {
                if rest.push(s.last()).contains(x) {
                    let i = choose|i: int|
                        0 <= i < rest.push(s.last()).len() && rest.push(s.last())[i] == x;
                    if i < rest.len() {
                        assert(rest[i] == x);
                    }
                }
                if rest.contains(x) {
                    let i = choose|i: int| 0 <= i < rest.len() && rest[i] == x;
                    assert(rest.push(s.last())[i] == x);
                }
                if s.last() == x {
                    assert(rest.push(s.last())[rest.len() as int] == x);
                }
            }
        }
    }
}

/// Drops every string already seen earlier in the list.
pub(crate) fn dedup_strings(v: &Vec<String>) -> (r: Vec<String>)
    ensures
        r.deep_view() == spec_dedup(v.deep_view()),
{
    let mut out: Vec<String> = Vec::new();
    let n = v.len();
    let mut i: usize = 0;
    proof {
        assert(v.deep_view().subrange(0, 0) =~= Seq::<Seq<char>>::empty());
        assert(out.deep_view() =~= Seq::<Seq<char>>::empty());
    }
    while i < n
        invariant
            i <= n,
            n == v.len(),
            out.deep_view() == spec_dedup(v.deep_view().subrange(0, i as int)),
        decreases n - i,
    {
        let ghost prefix = v.deep_view().subrange(0, i as int);
        proof {
            assert(v.deep_view().subrange(0, i + 1).drop_last() =~= prefix);
            assert(v.deep_view()[i as int] == v@[i as int]@);
            lemma_dedup_same_members(prefix, v.deep_view()[i as int]);
        }
        let seen = vec_contains_string(&out, &v[i]);
        if !seen {
            out.push(v[i].clone());
            proof {
                assert(out.deep_view() =~= spec_dedup(prefix).push(v.deep_view()[i as int]));
            }
        }
        i = i + 1;
    }
    proof {
        assert(v.deep_view().subrange(0, n as int) =~= v.deep_view());
    }
    out
}

/// One base concatenated with every suffix, in order.
pub open spec fn spec_suffixed(base: Seq<char>, suffixes: Seq<Seq<char>>) -> Seq<Seq<char>>
    decreases suffixes.len(),
{
    if suffixes.len() == 0 {
        Seq::empty()
    } else {
        spec_suffixed(base, suffixes.drop_last()).push(base + suffixes.last())
    }
}

/// Every base concatenated with every suffix: bases outermost, suffixes in
/// order within each base.
pub open spec fn spec_product(bases: Seq<Seq<char>>, suffixes: Seq<Seq<char>>) -> Seq<Seq<char>>
    decreases bases.len(),
{
    if bases.len() == 0 {
        Seq::empty()
    } else {
        spec_product(bases.drop_last(), suffixes) + spec_suffixed(bases.last(), suffixes)
    }
}

/// Builds the full base-times-suffix candidate list.
pub(crate) fn product_strings(bases: &Vec<String>, suffixes: &Vec<String>) -> (r: Vec<String>)
    ensures
        r.deep_view() == spec_product(bases.deep_view(), suffixes.deep_view()),
{
    let mut out: Vec<String> = Vec::new();
    let n = bases.len();
    let mut i: usize = 0;
    proof {
        assert(bases.deep_view().subrange(0, 0) =~= Seq::<Seq<char>>::empty());
        assert(out.deep_view() =~= Seq::<Seq<char>>::empty());
    }
    while i < n
        invariant
            i <= n,
            n == bases.len(),
            out.deep_view() == spec_product(
                bases.deep_view().subrange(0, i as int),
                suffixes.deep_view(),
            ),
        decreases n - i,
    {
        proof {
            assert(bases.deep_view().subrange(0, i + 1).drop_last() =~= bases.deep_view().subrange(
                0,
                i as int,
            ));
            assert(bases.deep_view()[i as int] == bases@[i as int]@);
        }
        let m = suffixes.len();
        let mut k: usize = 0;
        let ghost before = out.deep_view();
        while k < m
            invariant
                k <= m,
                m == suffixes.len(),
                i < n,
                n == bases.len(),
                out.deep_view() == before + spec_suffixed(
                    bases.deep_view()[i as int],
                    suffixes.deep_view().subrange(0, k as int),
                ),
            decreases m - k,
        {
            proof {
                assert(suffixes.deep_view().subrange(0, k + 1).drop_last() =~= suffixes.deep_view()
                    .subrange(0, k as int));
                assert(suffixes.deep_view()[k as int] == suffixes@[k as int]@);
                assert(bases.deep_view()[i as int] == bases@[i as int]@);
            }
            let cand = str_concat(bases[i].as_str(), suffixes[k].as_str());
            let ghost pre = out.deep_view();
            out.push(cand);
            proof {
                assert(out.deep_view() =~= pre.push(
                    bases.deep_view()[i as int] + suffixes.deep_view()[k as int],
                ));
                assert(spec_suffixed(
                    bases.deep_view()[i as int],
                    suffixes.deep_view().subrange(0, k + 1),
                ) == spec_suffixed(
                    bases.deep_view()[i as int],
                    suffixes.deep_view().subrange(0, k as int),
                ).push(bases.deep_view()[i as int] + suffixes.deep_view()[k as int]));
                assert(out.deep_view() =~= before + spec_suffixed(
                    bases.deep_view()[i as int],
                    suffixes.deep_view().subrange(0, k + 1),
                ));
            }
            k = k + 1;
        }
        proof {
            assert(suffixes.deep_view().subrange(0, m as int) =~= suffixes.deep_view());
            assert(out.deep_view() =~= spec_product(
                bases.deep_view().subrange(0, i + 1),
                suffixes.deep_view(),
            ));
        }
        i = i + 1;
    }
    proof {
        assert(bases.deep_view().subrange(0, n as int) =~= bases.deep_view());
    }
    out
}

} // verus!
