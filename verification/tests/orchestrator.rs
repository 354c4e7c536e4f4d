use urlfinder::config::{Config, Headers};
use urlfinder::crawler::{CrawlResult, Crawler};
use urlfinder::js_fuzz::JsFuzzer;
use urlfinder::mode::Mode;
use urlfinder::state::State;
use urlfinder::url_fuzz::UrlFuzzer;

fn config_with(url_patterns: Vec<String>) -> Config {
    Config {
        headers: Headers {
            user_agent: String::new(),
            cookie: String::new(),
            accept: String::new(),
            accept_language: String::new(),
            accept_encoding: String::new(),
        },
        url_patterns,
        js_patterns: vec![],
        sensitive_patterns: vec![],
        url_filters: vec![],
        js_filters: vec![],
        url_depth: 1,
        js_depth: 3,
        url_fuzz_paths: vec!["/admin".to_string()],
        js_fuzz_paths: vec!["config.js".to_string()],
    }
}

fn orchestrator(config: Config) -> Mode {
    let js = JsFuzzer::new(config_with(vec![]));
    let url = UrlFuzzer::new(config);
    Mode::new(State::new(), js, url)
}

fn bare_result(url: &str, status: u16, urls: Vec<String>) -> CrawlResult {
    CrawlResult {
        url: url.to_string(),
        status,
        content_type: String::new(),
        urls,
        js_urls: vec![],
        sensitive_info: vec![],
        source: String::new(),
    }
}

#[test]
fn end_to_end_seed_scenario() {
    // Fetching http://t.test/page returns a body with one root-relative link.
    let config = config_with(vec!["/[a-z]+".to_string()]);
    let crawler = Crawler::new(&config, 1, None, None, None, None, None).unwrap();
    let result = crawler.classify_response(
        "http://t.test/page",
        200,
        "text/html".to_string(),
        r#"<a href="/admin">"#.to_string(),
    );
    assert_eq!(result.urls, vec!["http://t.test/admin".to_string()]);

    let mut mode = orchestrator(config_with(vec![]));
    let first = mode.process(&result, 1, None);
    assert_eq!(first, vec!["http://t.test/admin".to_string()]);

    // The same result processed again: everything is already visited.
    let second = mode.process(&result, 1, None);
    assert_eq!(second, Vec::<String>::new());
}

#[test]
fn url_fuzz_runs_only_on_404() {
    let mut mode = orchestrator(config_with(vec![]));
    let ok_result = bare_result("http://h.test/a/b", 200, vec!["http://n.test/new".to_string()]);
    // Status 200 with fuzz mode 1: no fuzz-derived candidates at all.
    let out = mode.process(&ok_result, 1, Some(1));
    assert_eq!(out, vec!["http://n.test/new".to_string()]);

    // Status 404 with the same fuzz mode: candidates appear.
    let missing = bare_result("http://h.test/a/b", 404, vec![]);
    let out = mode.process(&missing, 1, Some(1));
    assert_eq!(
        out,
        vec!["http://h.test/a/admin".to_string(), "http://h.test/admin".to_string()]
    );
}

#[test]
fn fuzz_candidates_are_deduped_across_calls() {
    let mut mode = orchestrator(config_with(vec![]));
    let missing = bare_result("http://h.test/a/b", 404, vec![]);
    let out = mode.process(&missing, 1, Some(1));
    assert_eq!(out.len(), 2);
    // A second 404 under the same directory adds nothing new.
    let missing2 = bare_result("http://h.test/a/c", 404, vec![]);
    let out2 = mode.process(&missing2, 1, Some(1));
    assert_eq!(out2, Vec::<String>::new());
}

#[test]
fn js_urls_are_emitted_from_deep_mode_only() {
    let mut mode = orchestrator(config_with(vec![]));
    let mut result = bare_result("http://t.test/p", 200, vec![]);
    result.js_urls = vec!["http://t.test/app.js".to_string()];
    let out = mode.process(&result, 1, None);
    assert_eq!(out, Vec::<String>::new());
    let out = mode.process(&result, 2, None);
    assert_eq!(out, vec!["http://t.test/app.js".to_string()]);
    // Already in the JS set now.
    let out = mode.process(&result, 2, None);
    assert_eq!(out, Vec::<String>::new());
}

#[test]
fn js_fuzz_mode_probes_js_siblings() {
    let mut mode = orchestrator(config_with(vec![]));
    let mut result = bare_result("http://t.test/p", 200, vec![]);
    result.js_urls = vec!["http://t.test/js/app.js".to_string()];
    let out = mode.process(&result, 1, Some(2));
    assert_eq!(
        out,
        vec![
            "http://t.test/jsconfig.js".to_string(),
            "http://t.testconfig.js".to_string(),
        ]
    );
}

#[test]
fn findings_notification_is_mode_gated() {
    let mut result = bare_result("http://t.test/p", 200, vec![]);
    result.sensitive_info = vec!["password=x".to_string()];
    assert!(Mode::has_findings(&result, 3));
    assert!(!Mode::has_findings(&result, 2));
    let empty = bare_result("http://t.test/p", 200, vec![]);
    assert!(!Mode::has_findings(&empty, 3));
}

#[test]
fn visited_url_is_marked_even_without_discoveries() {
    let mut mode = orchestrator(config_with(vec![]));
    let seed = bare_result("http://t.test/p", 200, vec![]);
    assert_eq!(mode.process(&seed, 1, None), Vec::<String>::new());
    // The page URL itself now counts as visited: a discovery of it is old.
    let other = bare_result("http://t.test/q", 200, vec!["http://t.test/p".to_string()]);
    assert_eq!(mode.process(&other, 1, None), Vec::<String>::new());
}
