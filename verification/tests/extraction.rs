use urlfinder::config::{Config, Headers};
use urlfinder::crawler::{ConfigError, Crawler};

fn test_config() -> Config {
    Config {
        headers: Headers {
            user_agent: String::new(),
            cookie: String::new(),
            accept: String::new(),
            accept_language: String::new(),
            accept_encoding: String::new(),
        },
        url_patterns: vec![r"http://u\.test/[a-z]+".to_string()],
        js_patterns: vec![r"http://j\.test/[a-z]+\.js".to_string()],
        sensitive_patterns: vec![r"password=[a-z]+".to_string()],
        url_filters: vec![],
        js_filters: vec![],
        url_depth: 1,
        js_depth: 3,
        url_fuzz_paths: vec![],
        js_fuzz_paths: vec![],
    }
}

const BODY: &str = "see http://u.test/one and http://j.test/app.js and password=hunter";

#[test]
fn normal_mode_extracts_only_page_urls() {
    let c = Crawler::new(&test_config(), 1, None, None, None, None, None).unwrap();
    let r = c.classify_response("http://t.test/page", 200, "text/html".to_string(), BODY.to_string());
    assert_eq!(r.urls, vec!["http://u.test/one".to_string()]);
    assert_eq!(r.js_urls.len(), 0);
    assert_eq!(r.sensitive_info.len(), 0);
}

#[test]
fn deep_mode_adds_js_urls() {
    let c = Crawler::new(&test_config(), 2, None, None, None, None, None).unwrap();
    let r = c.classify_response("http://t.test/page", 200, "text/html".to_string(), BODY.to_string());
    assert_eq!(r.urls.len(), 1);
    assert_eq!(r.js_urls, vec!["http://j.test/app.js".to_string()]);
    assert_eq!(r.sensitive_info.len(), 0);
}

#[test]
fn deep_safe_mode_adds_sensitive_info() {
    let c = Crawler::new(&test_config(), 3, None, None, None, None, None).unwrap();
    let r = c.classify_response("http://t.test/page", 200, "text/html".to_string(), BODY.to_string());
    assert_eq!(r.urls.len(), 1);
    assert_eq!(r.js_urls.len(), 1);
    assert_eq!(r.sensitive_info, vec!["password=hunter".to_string()]);
}

#[test]
fn result_carries_fetch_fields() {
    let c = Crawler::new(&test_config(), 1, None, None, None, None, None).unwrap();
    let r = c.classify_response("http://t.test/page", 200, "text/html".to_string(), BODY.to_string());
    assert_eq!(r.url, "http://t.test/page");
    assert_eq!(r.status, 200);
    assert_eq!(r.content_type, "text/html");
    assert_eq!(r.source, BODY);
}

#[test]
fn status_filter_empties_the_categories() {
    let c = Crawler::new(&test_config(), 3, None, None, None, Some("200".to_string()), None)
        .unwrap();
    let r = c.classify_response("http://t.test/page", 404, "text/html".to_string(), BODY.to_string());
    assert_eq!(r.urls.len(), 0);
    assert_eq!(r.js_urls.len(), 0);
    assert_eq!(r.sensitive_info.len(), 0);
    assert_eq!(r.status, 404);
    assert_eq!(r.source, BODY);
}

#[test]
fn url_filters_drop_matching_entries() {
    let mut config = test_config();
    config.url_patterns = vec![r"http://u\.test/[a-z\.]+".to_string()];
    config.url_filters = vec![r"\.css$".to_string()];
    let c = Crawler::new(&config, 1, None, None, None, None, None).unwrap();
    let body = "http://u.test/keep and http://u.test/style.css";
    let r = c.classify_response("http://t.test/page", 200, String::new(), body.to_string());
    assert_eq!(r.urls, vec!["http://u.test/keep".to_string()]);
}

#[test]
fn base_override_wins_over_target() {
    let mut config = test_config();
    config.url_patterns = vec![r"/[a-z]+\.html".to_string()];
    let c = Crawler::new(
        &config,
        1,
        None,
        Some("http://base.test/dir/ix".to_string()),
        None,
        None,
        None,
    )
    .unwrap();
    let r = c.classify_response(
        "http://t.test/page",
        200,
        String::new(),
        r#"<a href="/next.html">"#.to_string(),
    );
    assert_eq!(r.urls, vec!["http://base.test/next.html".to_string()]);
}

#[test]
fn malformed_pattern_fails_at_load() {
    let mut config = test_config();
    config.js_patterns = vec!["(".to_string()];
    let r = Crawler::new(&config, 2, None, None, None, None, None);
    assert!(matches!(r, Err(ConfigError::BadPattern(_))));
}

#[test]
fn domain_gate_yields_sentinel() {
    let c = Crawler::new(&test_config(), 1, None, None, Some("only\\.test".to_string()), None, None)
        .unwrap();
    let skipped = c.check_fetch_gates("http://t.test/page").unwrap();
    assert_eq!(skipped.status, 0);
    assert_eq!(skipped.url, "http://t.test/page");
    assert_eq!(skipped.urls.len(), 0);
    assert!(c.check_fetch_gates("http://only.test/page").is_none());
}

#[test]
fn quota_gate_yields_sentinel() {
    let c = Crawler::new(&test_config(), 1, Some(0), None, None, None, None).unwrap();
    let skipped = c.check_fetch_gates("http://t.test/page").unwrap();
    assert_eq!(skipped.status, 0);
    let c = Crawler::new(&test_config(), 1, Some(5), None, None, None, None).unwrap();
    assert!(c.check_fetch_gates("http://t.test/page").is_none());
    assert_eq!(c.crawled_count(), 0);
    assert_eq!(c.get_mode(), 1);
    assert_eq!(c.get_fuzz_mode(), None);
}
