//! The JS fuzz generator: candidate probe URLs derived from every
//! discovered JS URL, unconditionally.

use vstd::prelude::*;
use vstd::string::*;

use crate::config::Config;
use crate::crawler::CrawlResult;
use crate::crawler::CrawlResultModel;
use crate::fuzz::dedup_strings;
use crate::fuzz::product_strings;
use crate::fuzz::push_bases_of_url;
use crate::fuzz::spec_bases_of_url;
use crate::fuzz::spec_dedup;
use crate::fuzz::spec_origin_pattern;
use crate::fuzz::spec_product;
use crate::matchers::Matcher;

verus! {

/// The base paths one result's JS URL list contributes, in order.
pub open spec fn spec_js_bases_of_list(js: Seq<Seq<char>>) -> Seq<Seq<char>>
    decreases js.len(),
{
    if js.len() == 0 {
        Seq::empty()
    } else {
        spec_js_bases_of_list(js.drop_last()) + spec_bases_of_url(js.last())
    }
}

/// The base paths all results' JS URLs contribute, in input order.
pub open spec fn spec_js_fuzz_bases(results: Seq<CrawlResultModel>) -> Seq<Seq<char>>
    decreases results.len(),
{
    if results.len() == 0 {
        Seq::empty()
    } else {
        spec_js_fuzz_bases(results.drop_last()) + spec_js_bases_of_list(results.last().js_urls)
    }
}

/// Derives candidate probe URLs from discovered JS URLs.
pub struct JsFuzzer {
    config: Config,
}

impl JsFuzzer {
    /// The configured JS fuzz path suffixes.
    pub closed spec fn spec_fuzz_paths(&self) -> Seq<Seq<char>> {
        self.config.js_fuzz_paths.deep_view()
    }

    /// Wraps a ruleset for JS fuzzing.
    pub fn new(config: Config) -> (r: JsFuzzer)
        ensures
            r.spec_fuzz_paths() == config.js_fuzz_paths.deep_view(),
    {
        JsFuzzer { config }
    }

    /// The candidates: base paths of every discovered JS URL, de-duplicated
    /// within the call, crossed with the configured JS fuzz paths.
    pub fn fuzz(&self, results: &[CrawlResult]) -> (r: Vec<String>)
        ensures
            r.deep_view() == spec_product(
                spec_dedup(spec_js_fuzz_bases(results.deep_view())),
                self.spec_fuzz_paths(),
            ),
    {
        let origin_matcher = Matcher::compile("(https?://[^/]+)/");
        let mut paths: Vec<String> = Vec::new();
        let n = results.len();
        let mut i: usize = 0;
        proof {
            assert(results.deep_view().subrange(0, 0) =~= Seq::<CrawlResultModel>::empty());
            assert(paths.deep_view() =~= Seq::<Seq<char>>::empty());
        }
        while i < n
            invariant
                i <= n,
                n == results@.len(),
                origin_matcher matches Some(m) ==> m.pat() == spec_origin_pattern(),
                origin_matcher is Some <==> crate::matchers::regex_ok(spec_origin_pattern()),
                paths.deep_view() == spec_js_fuzz_bases(results.deep_view().subrange(0, i as int)),
            decreases n - i,
        {
            proof {
                assert(results.deep_view().subrange(0, i + 1).drop_last() =~= results.deep_view()
                    .subrange(0, i as int));
                assert(results.deep_view()[i as int] == results@[i as int]@);
            }
            let res = &results[i];
            let ghost outer_before = paths.deep_view();
            let ghost js_list = results.deep_view()[i as int].js_urls;
            let m = res.js_urls.len();
            let mut k: usize = 0;
            proof {
                assert(js_list.subrange(0, 0) =~= Seq::<Seq<char>>::empty());
                assert(paths.deep_view() =~= outer_before + spec_js_bases_of_list(
                    js_list.subrange(0, 0),
                ));
            }
            while k < m
                invariant
                    k <= m,
                    i < n,
                    n == results@.len(),
                    m == results@[i as int].js_urls.len(),
                    js_list == results.deep_view()[i as int].js_urls,
                    js_list == results@[i as int].js_urls.deep_view(),
                    origin_matcher matches Some(mm) ==> mm.pat() == spec_origin_pattern(),
                    origin_matcher is Some <==> crate::matchers::regex_ok(spec_origin_pattern()),
                    paths.deep_view() == outer_before + spec_js_bases_of_list(
                        js_list.subrange(0, k as int),
                    ),
                decreases m - k,
            {
                proof {
                    assert(js_list.subrange(0, k + 1).drop_last() =~= js_list.subrange(
                        0,
                        k as int,
                    ));
                    assert(js_list[k as int] == results@[i as int].js_urls@[k as int]@);
                }
                let js_url = &results[i].js_urls[k];
                push_bases_of_url(js_url.as_str(), &origin_matcher, &mut paths);
                proof {
                    assert(paths.deep_view() =~= outer_before + spec_js_bases_of_list(
                        js_list.subrange(0, k + 1),
                    ));
                }
                k = k + 1;
            }
            proof {
                assert(js_list.subrange(0, m as int) =~= js_list);
                assert(paths.deep_view() =~= spec_js_fuzz_bases(
                    results.deep_view().subrange(0, i + 1),
                ));
            }
            i = i + 1;
        }
        proof {
            assert(results.deep_view().subrange(0, n as int) =~= results.deep_view());
        }
        let bases = dedup_strings(&paths);
        product_strings(&bases, &self.config.js_fuzz_paths)
    }
}

} // verus!
