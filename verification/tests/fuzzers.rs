use urlfinder::config::{Config, Headers};
use urlfinder::crawler::CrawlResult;
use urlfinder::js_fuzz::JsFuzzer;
use urlfinder::url_fuzz::UrlFuzzer;

fn fuzz_config() -> Config {
    Config {
        headers: Headers {
            user_agent: String::new(),
            cookie: String::new(),
            accept: String::new(),
            accept_language: String::new(),
            accept_encoding: String::new(),
        },
        url_patterns: vec![],
        js_patterns: vec![],
        sensitive_patterns: vec![],
        url_filters: vec![],
        js_filters: vec![],
        url_depth: 1,
        js_depth: 3,
        url_fuzz_paths: vec!["/admin".to_string(), "/api".to_string()],
        js_fuzz_paths: vec!["config.js".to_string()],
    }
}

fn result(url: &str, status: u16, js_urls: Vec<String>) -> CrawlResult {
    CrawlResult {
        url: url.to_string(),
        status,
        content_type: String::new(),
        urls: vec![],
        js_urls,
        sensitive_info: vec![],
        source: String::new(),
    }
}

#[test]
fn url_fuzz_derives_both_base_forms() {
    let f = UrlFuzzer::new(fuzz_config());
    let results = vec![result("http://h.test/a/b", 404, vec![])];
    let cands = f.fuzz(&results, "http://h.test/a/b", None);
    assert_eq!(
        cands,
        vec![
            "http://h.test/a/admin".to_string(),
            "http://h.test/a/api".to_string(),
            "http://h.test/admin".to_string(),
            "http://h.test/api".to_string(),
        ]
    );
}

#[test]
fn url_fuzz_skips_non_404_results() {
    let f = UrlFuzzer::new(fuzz_config());
    let results = vec![result("http://h.test/a/b", 200, vec![])];
    let cands = f.fuzz(&results, "http://h.test/a/b", None);
    assert_eq!(cands, Vec::<String>::new());
}

#[test]
fn url_fuzz_deduplicates_bases_within_a_call() {
    let f = UrlFuzzer::new(fuzz_config());
    // A root page: the directory base and the captured origin coincide only
    // for the second form; the single-segment path contributes no directory.
    let results = vec![
        result("http://h.test/x", 404, vec![]),
        result("http://h.test/y", 404, vec![]),
    ];
    let cands = f.fuzz(&results, "http://h.test/x", None);
    assert_eq!(
        cands,
        vec!["http://h.test/admin".to_string(), "http://h.test/api".to_string()]
    );
}

#[test]
fn url_fuzz_needs_a_parseable_fallback() {
    let f = UrlFuzzer::new(fuzz_config());
    let results = vec![result("http://h.test/a/b", 404, vec![])];
    assert_eq!(f.fuzz(&results, "not a url", None), Vec::<String>::new());
    // A fallback domain keeps the run alive even then.
    let cands = f.fuzz(&results, "not a url", Some("h.test"));
    assert!(!cands.is_empty());
}

#[test]
fn js_fuzz_is_not_gated_on_status() {
    let f = JsFuzzer::new(fuzz_config());
    let results = vec![result(
        "http://h.test/page",
        200,
        vec!["http://h.test/js/app.js".to_string()],
    )];
    let cands = f.fuzz(&results);
    assert_eq!(
        cands,
        vec![
            "http://h.test/jsconfig.js".to_string(),
            "http://h.testconfig.js".to_string(),
        ]
    );
}

#[test]
fn js_fuzz_without_js_urls_yields_nothing() {
    let f = JsFuzzer::new(fuzz_config());
    let results = vec![result("http://h.test/page", 404, vec![])];
    assert_eq!(f.fuzz(&results), Vec::<String>::new());
}
