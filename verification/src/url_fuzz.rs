//! The URL fuzz generator: candidate probe URLs derived from pages that
//! came back 404.

use vstd::prelude::*;
use vstd::string::*;

use crate::config::Config;
use crate::crawler::CrawlResult;
use crate::crawler::CrawlResultModel;
use crate::fuzz::dedup_strings;
use crate::fuzz::product_strings;
use crate::fuzz::push_bases_of_url;
use crate::fuzz::spec_bases_of_url;
use crate::fuzz::spec_dedup;
use crate::fuzz::spec_origin_pattern;
use crate::fuzz::spec_product;
use crate::matchers::Matcher;
use crate::urlparse::parse_url_parts;
use crate::urlparse::url_ok;

verus! {

/// The base paths all 404 results contribute, in input order.
pub open spec fn spec_url_fuzz_bases(results: Seq<CrawlResultModel>) -> Seq<Seq<char>>
    decreases results.len(),
{
    if results.len() == 0 {
        Seq::empty()
    } else {
        spec_url_fuzz_bases(results.drop_last()) + (if results.last().status == 404 {
            spec_bases_of_url(results.last().url)
        } else {
            Seq::empty()
        })
    }
}

/// Derives candidate probe URLs from results whose fetch came back 404.
pub struct UrlFuzzer {
    config: Config,
}

impl UrlFuzzer {
    /// The configured URL fuzz path suffixes.
    pub closed spec fn spec_fuzz_paths(&self) -> Seq<Seq<char>> {
        self.config.url_fuzz_paths.deep_view()
    }

    /// Wraps a ruleset for URL fuzzing.
    pub fn new(config: Config) -> (r: UrlFuzzer)
        ensures
            r.spec_fuzz_paths() == config.url_fuzz_paths.deep_view(),
    {
        UrlFuzzer { config }
    }

    /// The candidates: base paths of every 404 result's URL, de-duplicated
    /// within the call, crossed with the configured URL fuzz paths.  Empty
    /// when no fallback domain is given and the fallback target does not
    /// parse.
    pub fn fuzz(&self, results: &[CrawlResult], target_url: &str, domain: Option<&str>) -> (r: Vec<
        String,
    >)
        ensures
            r.deep_view() == (if domain is None && !url_ok(target_url@) {
                Seq::<Seq<char>>::empty()
            } else {
                spec_product(
                    spec_dedup(spec_url_fuzz_bases(results.deep_view())),
                    self.spec_fuzz_paths(),
                )
            }),
    {
        let origin_matcher = Matcher::compile("(https?://[^/]+)/");
        let mut paths: Vec<String> = Vec::new();
        let n = results.len();
        let mut i: usize = 0;
        proof {
            assert(results.deep_view().subrange(0, 0) =~= Seq::<CrawlResultModel>::empty());
            assert(paths.deep_view() =~= Seq::<Seq<char>>::empty());
        }
        while i < n
            invariant
                i <= n,
                n == results@.len(),
                origin_matcher matches Some(m) ==> m.pat() == spec_origin_pattern(),
                origin_matcher is Some <==> crate::matchers::regex_ok(spec_origin_pattern()),
                paths.deep_view() == spec_url_fuzz_bases(
                    results.deep_view().subrange(0, i as int),
                ),
            decreases n - i,
        {
            proof {
                assert(results.deep_view().subrange(0, i + 1).drop_last() =~= results.deep_view()
                    .subrange(0, i as int));
                assert(results.deep_view()[i as int] == results@[i as int]@);
            }
            let res = &results[i];
            let ghost before = paths.deep_view();
            if res.status == 404 {
                push_bases_of_url(res.url.as_str(), &origin_matcher, &mut paths);
            }
            proof {
                assert(paths.deep_view() =~= spec_url_fuzz_bases(
                    results.deep_view().subrange(0, i + 1),
                ));
            }
            i = i + 1;
        }
        proof {
            assert(results.deep_view().subrange(0, n as int) =~= results.deep_view());
        }
        let have_base = match domain {
            Some(_) => true,
            None => match parse_url_parts(target_url) {
                Some(_) => true,
                None => false,
            },
        };
        if !have_base {
            let empty: Vec<String> = Vec::new();
            proof {
                assert(empty.deep_view() =~= Seq::<Seq<char>>::empty());
            }
            return empty;
        }
        let bases = dedup_strings(&paths);
        product_strings(&bases, &self.config.url_fuzz_paths)
    }
}

} // verus!
