//! The crawler core: compiled ruleset, mode-gated extraction, filtering and
//! normalization of one fetched response into a classified result.
//!
//! The network call itself stays outside the library; callers hand in the
//! fetched status, content type and body as plain values.

use vstd::prelude::*;
use vstd::string::*;

use crate::config::Config;
use crate::matchers::Matcher;
use crate::matchers::regex_found;
use crate::matchers::regex_hit;
use crate::matchers::regex_ok;
use crate::utils::is_domain_match;
use crate::utils::is_status_match;
use crate::utils::normalize_url;
use crate::utils::parse_status_codes;
use crate::utils::spec_is_domain_match;
use crate::utils::spec_normalize_url;
use crate::utils::spec_parse_status_codes;

verus! {

/// A fatal ruleset problem, surfaced once at load time.
#[derive(Debug)]
pub enum ConfigError {
    /// A pattern in the ruleset is not a valid regular expression.
    BadPattern(String),
}

/// One fetched page with its classified discoveries.
#[derive(Debug)]
pub struct CrawlResult {
    pub url: String,
    pub status: u16,
    pub content_type: String,
    pub urls: Vec<String>,
    pub js_urls: Vec<String>,
    pub sensitive_info: Vec<String>,
    pub source: String,
}

/// The abstract value of a crawl result.
#[verifier::ext_equal]
pub struct CrawlResultModel {
    pub url: Seq<char>,
    pub status: u16,
    pub content_type: Seq<char>,
    pub urls: Seq<Seq<char>>,
    pub js_urls: Seq<Seq<char>>,
    pub sensitive_info: Seq<Seq<char>>,
    pub source: Seq<char>,
}

impl View for CrawlResult {
    type V = CrawlResultModel;

    open spec fn view(&self) -> CrawlResultModel {
        CrawlResultModel {
            url: self.url@,
            status: self.status,
            content_type: self.content_type@,
            urls: self.urls.deep_view(),
            js_urls: self.js_urls.deep_view(),
            sensitive_info: self.sensitive_info.deep_view(),
            source: self.source@,
        }
    }
}

/// An element-wise copy of a string list, with the same view.
pub fn clone_vec_string(v: &Vec<String>) -> (r: Vec<String>)
    ensures
        r.deep_view() == v.deep_view(),
{
    let mut out: Vec<String> = Vec::new();
    let n = v.len();
    let mut i: usize = 0;
    proof {
        assert(out.deep_view() =~= v.deep_view().subrange(0, 0));
    }
    while i < n
        invariant
            i <= n,
            n == v.len(),
            out.deep_view() == v.deep_view().subrange(0, i as int),
        decreases n - i,
    {
        proof {
            assert(v.deep_view()[i as int] == v@[i as int]@);
        }
        let ghost pre = out.deep_view();
        out.push(v[i].clone());
        proof {
            assert(out.deep_view() =~= pre.push(v.deep_view()[i as int]));
            assert(out.deep_view() =~= v.deep_view().subrange(0, i + 1));
        }
        i = i + 1;
    }
    proof {
        assert(v.deep_view().subrange(0, n as int) =~= v.deep_view());
    }
    out
}

impl CrawlResult {
    /// A copy with the same abstract value.
    pub fn duplicate(&self) -> (r: CrawlResult)
        ensures
            r@ == self@,
    {
        let r = CrawlResult {
            url: self.url.clone(),
            status: self.status,
            content_type: self.content_type.clone(),
            urls: clone_vec_string(&self.urls),
            js_urls: clone_vec_string(&self.js_urls),
            sensitive_info: clone_vec_string(&self.sensitive_info),
            source: self.source.clone(),
        };
        proof {
            assert(r@ =~= self@);
        }
        r
    }
}

impl DeepView for CrawlResult {
    type V = CrawlResultModel;

    open spec fn deep_view(&self) -> CrawlResultModel {
        self.view()
    }
}

/// The patterns a list of compiled matchers was compiled from.
pub open spec fn spec_pats_of(ms: Seq<Matcher>) -> Seq<Seq<char>> {
    ms.map_values(|m: Matcher| m.pat())
}

/// Every pattern in the list is a valid regular expression.
pub open spec fn spec_all_ok(pats: Seq<Seq<char>>) -> bool {
    forall|i: int| 0 <= i < pats.len() ==> regex_ok(pats[i])
}

/// All matches of every pattern in `body`, in pattern order then match order.
pub open spec fn spec_matches_of(pats: Seq<Seq<char>>, body: Seq<char>) -> Seq<Seq<char>>
    decreases pats.len(),
{
    if pats.len() == 0 {
        Seq::empty()
    } else {
        spec_matches_of(pats.drop_last(), body) + regex_found(pats.last(), body)
    }
}

/// Whether any filter pattern matches `u`.
pub open spec fn spec_filtered(filters: Seq<Seq<char>>, u: Seq<char>) -> bool {
    exists|i: int| 0 <= i < filters.len() && regex_hit(filters[i], u)
}

/// Raw matches refined in order: filtered entries dropped, the rest
/// normalized against `base`, entries the normalizer rejects dropped
/// silently.
pub open spec fn spec_refine(
    raw: Seq<Seq<char>>,
    filters: Seq<Seq<char>>,
    base: Seq<char>,
) -> Seq<Seq<char>>
    decreases raw.len(),
{
    if raw.len() == 0 {
        Seq::empty()
    } else {
        let rest = spec_refine(raw.drop_last(), filters, base);
        if spec_filtered(filters, raw.last()) {
            rest
        } else {
            match spec_normalize_url(raw.last(), base) {
                Some(u) => rest.push(u),
                None => rest,
            }
        }
    }
}

/// Compiles every pattern of one list, failing on the first invalid one.
fn compile_all(pats: &Vec<String>) -> (r: Result<Vec<Matcher>, ConfigError>)
    ensures
        r matches Ok(v) ==> spec_pats_of(v@) == pats.deep_view(),
        r is Ok <==> spec_all_ok(pats.deep_view()),
        r matches Err(e) ==> (e matches ConfigError::BadPattern(p) && !regex_ok(p@)
            && pats.deep_view().contains(p@)),
{
    let mut out: Vec<Matcher> = Vec::new();
    let n = pats.len();
    let mut i: usize = 0;
    while i < n
        invariant
            i <= n,
            n == pats.len(),
            out@.len() == i,
            forall|j: int| 0 <= j < i ==> (#[trigger] out@[j]).pat() == pats.deep_view()[j],
            forall|j: int| 0 <= j < i ==> regex_ok(#[trigger] pats.deep_view()[j]),
        decreases n - i,
    {
        assert(pats.deep_view()[i as int] == pats@[i as int]@);
        match Matcher::compile(pats[i].as_str()) {
            Some(m) => {
                out.push(m);
            },
            None => {
                assert(!regex_ok(pats.deep_view()[i as int]));
                let bad = pats[i].clone();
                assert(pats.deep_view().contains(bad@));
                return Err(ConfigError::BadPattern(bad));
            },
        }
        i = i + 1;
    }
    assert(spec_pats_of(out@) =~= pats.deep_view());
    Ok(out)
}

/// The ruleset with every pattern compiled once, at load time.
pub struct Rules {
    url_matchers: Vec<Matcher>,
    js_matchers: Vec<Matcher>,
    sensitive_matchers: Vec<Matcher>,
    url_filters: Vec<Matcher>,
    js_filters: Vec<Matcher>,
}

impl Rules {
    /// The page-URL patterns.
    pub closed spec fn url_pats(&self) -> Seq<Seq<char>> {
        spec_pats_of(self.url_matchers@)
    }

    /// The JS-URL patterns.
    pub closed spec fn js_pats(&self) -> Seq<Seq<char>> {
        spec_pats_of(self.js_matchers@)
    }

    /// The sensitive-information patterns.
    pub closed spec fn sensitive_pats(&self) -> Seq<Seq<char>> {
        spec_pats_of(self.sensitive_matchers@)
    }

    /// The page-URL filter patterns.
    pub closed spec fn url_filter_pats(&self) -> Seq<Seq<char>> {
        spec_pats_of(self.url_filters@)
    }

    /// The JS-URL filter patterns.
    pub closed spec fn js_filter_pats(&self) -> Seq<Seq<char>> {
        spec_pats_of(self.js_filters@)
    }

    /// Compiles the five pattern lists of a ruleset; a malformed pattern in
    /// any list is a fatal configuration error.
    pub fn compile(config: &Config) -> (r: Result<Rules, ConfigError>)
        ensures
            r is Ok <==> spec_all_ok(config.url_patterns.deep_view()) && spec_all_ok(
                config.js_patterns.deep_view(),
            ) && spec_all_ok(config.sensitive_patterns.deep_view()) && spec_all_ok(
                config.url_filters.deep_view(),
            ) && spec_all_ok(config.js_filters.deep_view()),
            r matches Ok(rules) ==> rules.url_pats() == config.url_patterns.deep_view()
                && rules.js_pats() == config.js_patterns.deep_view() && rules.sensitive_pats()
                == config.sensitive_patterns.deep_view() && rules.url_filter_pats()
                == config.url_filters.deep_view() && rules.js_filter_pats()
                == config.js_filters.deep_view(),
            r matches Err(e) ==> (e matches ConfigError::BadPattern(p) && !regex_ok(p@)),
    {
        let url_matchers = match compile_all(&config.url_patterns) {
            Ok(v) => v,
            Err(e) => {
                return Err(e);
            },
        };
        let js_matchers = match compile_all(&config.js_patterns) {
            Ok(v) => v,
            Err(e) => {
                return Err(e);
            },
        };
        let sensitive_matchers = match compile_all(&config.sensitive_patterns) {
            Ok(v) => v,
            Err(e) => {
                return Err(e);
            },
        };
        let url_filters = match compile_all(&config.url_filters) {
            Ok(v) => v,
            Err(e) => {
                return Err(e);
            },
        };
        let js_filters = match compile_all(&config.js_filters) {
            Ok(v) => v,
            Err(e) => {
                return Err(e);
            },
        };
        Ok(Rules { url_matchers, js_matchers, sensitive_matchers, url_filters, js_filters })
    }
}

/// All matches of every matcher in `body`, flattened in order.
fn find_all_matches(matchers: &Vec<Matcher>, body: &str) -> (r: Vec<String>)
    ensures
        r.deep_view() == spec_matches_of(spec_pats_of(matchers@), body@),
{
    let mut out: Vec<String> = Vec::new();
    let n = matchers.len();
    let mut i: usize = 0;
    proof {
        assert(out.deep_view() =~= spec_matches_of(spec_pats_of(matchers@.subrange(0, 0)), body@));
    }
    while i < n
        invariant
            i <= n,
            n == matchers.len(),
            out.deep_view() == spec_matches_of(spec_pats_of(matchers@.subrange(0, i as int)), body@),
        decreases n - i,
    {
        let mut found = matchers[i].find_all(body);
        let ghost prev = out.deep_view();
        let ghost found_v = found.deep_view();
        out.append(&mut found);
        proof {
            let pre = matchers@.subrange(0, i as int);
            let cur = matchers@.subrange(0, i + 1);
            assert(cur.drop_last() =~= pre);
            assert(spec_pats_of(cur).drop_last() =~= spec_pats_of(pre));
            assert(spec_pats_of(cur).last() == matchers@[i as int].pat());
            assert(out.deep_view() =~= prev + found_v);
            assert(spec_matches_of(spec_pats_of(cur), body@) == spec_matches_of(
                spec_pats_of(cur).drop_last(),
                body@,
            ) + regex_found(spec_pats_of(cur).last(), body@));
        }
        i = i + 1;
    }
    proof {
        assert(matchers@.subrange(0, n as int) =~= matchers@);
    }
    out
}

/// Whether any of the filter matchers matches `u`.
fn any_filter_hits(filters: &Vec<Matcher>, u: &str) -> (r: bool)
    ensures
        r == spec_filtered(spec_pats_of(filters@), u@),
{
    let n = filters.len();
    let mut i: usize = 0;
    while i < n
        invariant
            i <= n,
            n == filters.len(),
            forall|j: int| 0 <= j < i ==> !regex_hit(spec_pats_of(filters@)[j], u@),
        decreases n - i,
    {
        if filters[i].is_match(u) {
            assert(regex_hit(spec_pats_of(filters@)[i as int], u@));
            return true;
        }
        i = i + 1;
    }
    false
}

/// Drops filtered entries and normalizes the rest against `base`; entries
/// the normalizer rejects are dropped silently.
fn refine_matches(raw: &Vec<String>, filters: &Vec<Matcher>, base: &str) -> (r: Vec<String>)
    ensures
        r.deep_view() == spec_refine(raw.deep_view(), spec_pats_of(filters@), base@),
{
    let mut out: Vec<String> = Vec::new();
    let n = raw.len();
    let mut i: usize = 0;
    proof {
        assert(raw.deep_view().subrange(0, 0) =~= Seq::<Seq<char>>::empty());
        assert(out.deep_view() =~= Seq::<Seq<char>>::empty());
    }
    while i < n
        invariant
            i <= n,
            n == raw.len(),
            out.deep_view() == spec_refine(
                raw.deep_view().subrange(0, i as int),
                spec_pats_of(filters@),
                base@,
            ),
        decreases n - i,
    {
        proof {
            assert(raw.deep_view().subrange(0, i + 1).drop_last() =~= raw.deep_view().subrange(
                0,
                i as int,
            ));
            assert(raw.deep_view()[i as int] == raw@[i as int]@);
        }
        let item = &raw[i];
        if !any_filter_hits(filters, item.as_str()) {
            let ghost prev = out.deep_view();
            match normalize_url(item.as_str(), base) {
                Ok(u) => {
                    out.push(u);
                    proof {
                        assert(out.deep_view() =~= prev.push(
                            spec_normalize_url(raw.deep_view()[i as int], base@).unwrap(),
                        ));
                    }
                },
                Err(_) => {},
            }
        }
        i = i + 1;
    }
    proof {
        assert(raw.deep_view().subrange(0, n as int) =~= raw.deep_view());
    }
    out
}

/// The model of a skipped fetch: status zero and nothing classified.
pub open spec fn spec_skip_result(url: Seq<char>) -> CrawlResultModel {
    CrawlResultModel {
        url,
        status: 0,
        content_type: Seq::empty(),
        urls: Seq::empty(),
        js_urls: Seq::empty(),
        sensitive_info: Seq::empty(),
        source: Seq::empty(),
    }
}

/// The crawler core: compiled rules plus the run parameters that gate and
/// shape classification.  The network client itself lives with the caller.
pub struct Crawler {
    rules: Rules,
    mode: u8,
    fuzz_mode: Option<u8>,
    base_url: Option<String>,
    domain: Option<String>,
    status: Option<String>,
    max_count: Option<usize>,
}

impl Crawler {
    /// The compiled rules.
    pub closed spec fn spec_rules(&self) -> Rules {
        self.rules
    }

    /// The extraction mode of the run.
    pub closed spec fn spec_mode(&self) -> u8 {
        self.mode
    }

    /// The fuzz mode of the run, if any.
    pub closed spec fn spec_fuzz_mode(&self) -> Option<u8> {
        self.fuzz_mode
    }

    /// The run-level base-URL override, if any.
    pub closed spec fn spec_base_url(&self) -> Option<Seq<char>> {
        self.base_url.deep_view()
    }

    /// The domain filter pattern, if any.
    pub closed spec fn spec_domain(&self) -> Option<Seq<char>> {
        self.domain.deep_view()
    }

    /// The status filter string, if any.
    pub closed spec fn spec_status_filter(&self) -> Option<Seq<char>> {
        self.status.deep_view()
    }

    /// The discovery quota, if any.
    pub closed spec fn spec_max_count(&self) -> Option<usize> {
        self.max_count
    }

    /// Builds a crawler: compiles the ruleset once and keeps the run
    /// parameters; fails exactly when a pattern is malformed.
    pub fn new(
        config: &Config,
        mode: u8,
        max_count: Option<usize>,
        base_url: Option<String>,
        domain: Option<String>,
        status: Option<String>,
        fuzz_mode: Option<u8>,
    ) -> (r: Result<Crawler, ConfigError>)
        ensures
            r is Ok <==> spec_all_ok(config.url_patterns.deep_view()) && spec_all_ok(
                config.js_patterns.deep_view(),
            ) && spec_all_ok(config.sensitive_patterns.deep_view()) && spec_all_ok(
                config.url_filters.deep_view(),
            ) && spec_all_ok(config.js_filters.deep_view()),
            r matches Ok(c) ==> c.spec_rules().url_pats() == config.url_patterns.deep_view()
                && c.spec_rules().js_pats() == config.js_patterns.deep_view()
                && c.spec_rules().sensitive_pats() == config.sensitive_patterns.deep_view()
                && c.spec_rules().url_filter_pats() == config.url_filters.deep_view()
                && c.spec_rules().js_filter_pats() == config.js_filters.deep_view()
                && c.spec_mode() == mode && c.spec_fuzz_mode() == fuzz_mode && c.spec_base_url()
                == base_url.deep_view() && c.spec_domain() == domain.deep_view()
                && c.spec_status_filter() == status.deep_view() && c.spec_max_count() == max_count,
            r matches Err(e) ==> (e matches ConfigError::BadPattern(p) && !regex_ok(p@)),
    {
        let rules = match Rules::compile(config) {
            Ok(v) => v,
            Err(e) => {
                return Err(e);
            },
        };
        Ok(Crawler { rules, mode, fuzz_mode, base_url, domain, status, max_count })
    }

    /// The extraction mode of the run.
    pub fn get_mode(&self) -> (r: u8)
        ensures
            r == self.spec_mode(),
    {
        self.mode
    }

    /// The fuzz mode of the run, if any.
    pub fn get_fuzz_mode(&self) -> (r: Option<u8>)
        ensures
            r == self.spec_fuzz_mode(),
    {
        self.fuzz_mode
    }

    /// How many pages this crawler has fetched; tracking is not wired up,
    /// so the count stays at zero.
    pub fn crawled_count(&self) -> (r: usize)
        ensures
            r == 0,
    {
        0
    }

    /// Whether the pre-fetch gates skip this target: a configured domain
    /// filter the target's host does not match, or a discovery quota the
    /// crawled count (zero) already meets.
    pub open spec fn spec_gate_skips(&self, target: Seq<char>) -> bool {
        (match self.spec_domain() {
            Some(d) => !spec_is_domain_match(target, d),
            None => false,
        }) || (match self.spec_max_count() {
            Some(m) => m == 0,
            None => false,
        })
    }

    /// Checks the pre-fetch gates; a skipped target yields the sentinel
    /// result with status zero, which classification treats as "nothing".
    pub fn check_fetch_gates(&self, target_url: &str) -> (r: Option<CrawlResult>)
        ensures
            r is Some <==> self.spec_gate_skips(target_url@),
            r matches Some(c) ==> c@ == spec_skip_result(target_url@),
    {
        let skip = match &self.domain {
            Some(d) => !is_domain_match(target_url, d.as_str()),
            None => false,
        };
        let skip = skip || match self.max_count {
            Some(m) => self.crawled_count() >= m,
            None => false,
        };
        if skip {
            let c = CrawlResult {
                url: String::from_str(target_url),
                status: 0,
                content_type: String::new(),
                urls: Vec::new(),
                js_urls: Vec::new(),
                sensitive_info: Vec::new(),
                source: String::new(),
            };
            proof {
                assert(c@.urls =~= Seq::<Seq<char>>::empty());
                assert(c@.js_urls =~= Seq::<Seq<char>>::empty());
                assert(c@.sensitive_info =~= Seq::<Seq<char>>::empty());
            }
            Some(c)
        } else {
            None
        }
    }

    /// Whether a fetched status passes the run's status filter.
    pub open spec fn spec_status_passes(&self, status: u16) -> bool {
        match self.spec_status_filter() {
            Some(fs) => {
                let codes = spec_parse_status_codes(fs);
                codes.len() == 0 || codes.contains(status)
            },
            None => true,
        }
    }

    /// The base every extracted item of this fetch resolves against: the
    /// run-level override when configured, else the fetched URL itself.
    pub open spec fn spec_effective_base(&self, target: Seq<char>) -> Seq<char> {
        match self.spec_base_url() {
            Some(b) => b,
            None => target,
        }
    }

    /// What classification yields for the page-URL category.
    pub open spec fn spec_classified_urls(&self, target: Seq<char>, body: Seq<char>) -> Seq<
        Seq<char>,
    > {
        spec_refine(
            spec_matches_of(self.spec_rules().url_pats(), body),
            self.spec_rules().url_filter_pats(),
            self.spec_effective_base(target),
        )
    }

    /// What classification yields for the JS-URL category.
    pub open spec fn spec_classified_js(&self, target: Seq<char>, body: Seq<char>) -> Seq<
        Seq<char>,
    > {
        spec_refine(
            spec_matches_of(self.spec_rules().js_pats(), body),
            self.spec_rules().js_filter_pats(),
            self.spec_effective_base(target),
        )
    }

    /// Classifies one fetched response.  Mode gates the categories: page
    /// URLs from mode 1 up, JS URLs from mode 2 up, sensitive strings only
    /// at mode 3; a status outside the run's filter yields empty categories;
    /// extracted entries are filtered, then normalized, and entries the
    /// normalizer rejects are dropped silently.
    pub fn classify_response(
        &self,
        target_url: &str,
        status: u16,
        content_type: String,
        body: String,
    ) -> (r: CrawlResult)
        ensures
            r@.url == target_url@,
            r@.status == status,
            r@.content_type == content_type@,
            r@.source == body@,
            r@.urls == (if self.spec_status_passes(status) && 1 <= self.spec_mode()
                && self.spec_mode() <= 3 {
                self.spec_classified_urls(target_url@, body@)
            } else {
                Seq::<Seq<char>>::empty()
            }),
            r@.js_urls == (if self.spec_status_passes(status) && 2 <= self.spec_mode()
                && self.spec_mode() <= 3 {
                self.spec_classified_js(target_url@, body@)
            } else {
                Seq::<Seq<char>>::empty()
            }),
            r@.sensitive_info == (if self.spec_status_passes(status) && self.spec_mode() == 3 {
                spec_matches_of(self.spec_rules().sensitive_pats(), body@)
            } else {
                Seq::<Seq<char>>::empty()
            }),
    {
        let passes = match &self.status {
            Some(fs) => {
                let codes = parse_status_codes(fs.as_str());
                is_status_match(status, &codes)
            },
            None => true,
        };
        let mut urls: Vec<String> = Vec::new();
        let mut js_urls: Vec<String> = Vec::new();
        let mut sensitive_info: Vec<String> = Vec::new();
        proof {
            assert(urls.deep_view() =~= Seq::<Seq<char>>::empty());
            assert(js_urls.deep_view() =~= Seq::<Seq<char>>::empty());
            assert(sensitive_info.deep_view() =~= Seq::<Seq<char>>::empty());
        }
        if passes {
            let base: &str = match &self.base_url {
                Some(b) => b.as_str(),
                None => target_url,
            };
            if 1 <= self.mode && self.mode <= 3 {
                let raw = find_all_matches(&self.rules.url_matchers, body.as_str());
                urls = refine_matches(&raw, &self.rules.url_filters, base);
            }
            if 2 <= self.mode && self.mode <= 3 {
                let raw = find_all_matches(&self.rules.js_matchers, body.as_str());
                js_urls = refine_matches(&raw, &self.rules.js_filters, base);
            }
            if self.mode == 3 {
                sensitive_info = find_all_matches(&self.rules.sensitive_matchers, body.as_str());
            }
        }
        CrawlResult {
            url: String::from_str(target_url),
            status,
            content_type,
            urls,
            js_urls,
            sensitive_info,
            source: body,
        }
    }
}

/// The header value a fetch uses: the run-level override when given, else
/// the ruleset's default.
pub fn effective_header(explicit: Option<String>, fallback: &String) -> (r: String)
    ensures
        r@ == (match explicit {
            Some(v) => v@,
            None => fallback@,
        }),
{
    match explicit {
        Some(v) => v,
        None => fallback.clone(),
    }
}

} // verus!
