use urlfinder::cli::{Cli, CliError, CliRunner};
use urlfinder::config::{default_js_depth, default_url_depth, Config};
use urlfinder::crawler::{effective_header, CrawlResult};
use urlfinder::output::{OutputResult, OutputWriter};

fn base_cli() -> Cli {
    Cli {
        url: Some("http://t.test/".to_string()),
        file: None,
        unified_file: None,
        user_agent: None,
        base_url: None,
        cookie: None,
        domain: None,
        config: None,
        mode: 1,
        max_count: None,
        output: None,
        status: None,
        threads: 50,
        timeout: 5,
        proxy: None,
        fuzz: None,
    }
}

#[test]
fn validate_accepts_a_plain_run() {
    let runner = CliRunner::new(base_cli());
    assert_eq!(runner.validate(), Ok(()));
}

#[test]
fn validate_requires_a_target() {
    let mut cli = base_cli();
    cli.url = None;
    let runner = CliRunner::new(cli);
    assert_eq!(runner.validate(), Err(CliError::MissingTarget));
    let mut cli = base_cli();
    cli.url = None;
    cli.file = Some("urls.txt".to_string());
    assert_eq!(CliRunner::new(cli).validate(), Ok(()));
}

#[test]
fn validate_checks_the_mode_range() {
    let mut cli = base_cli();
    cli.mode = 0;
    assert_eq!(CliRunner::new(cli).validate(), Err(CliError::BadMode));
    let mut cli = base_cli();
    cli.mode = 4;
    assert_eq!(CliRunner::new(cli).validate(), Err(CliError::BadMode));
    let mut cli = base_cli();
    cli.mode = 3;
    assert_eq!(CliRunner::new(cli).validate(), Ok(()));
}

#[test]
fn validate_checks_the_fuzz_mode_range() {
    let mut cli = base_cli();
    cli.fuzz = Some(0);
    assert_eq!(CliRunner::new(cli).validate(), Err(CliError::BadFuzzMode));
    let mut cli = base_cli();
    cli.fuzz = Some(4);
    assert_eq!(CliRunner::new(cli).validate(), Err(CliError::BadFuzzMode));
    let mut cli = base_cli();
    cli.fuzz = Some(2);
    assert_eq!(CliRunner::new(cli).validate(), Ok(()));
}

#[test]
fn getters_hand_the_parameters_back() {
    let mut cli = base_cli();
    cli.user_agent = Some("ua".to_string());
    cli.cookie = Some("c=1".to_string());
    cli.proxy = Some("http://p.test".to_string());
    cli.base_url = Some("http://b.test/".to_string());
    cli.domain = Some("t\\.test".to_string());
    cli.status = Some("200".to_string());
    cli.config = Some("conf.yaml".to_string());
    cli.output = Some("out".to_string());
    cli.max_count = Some(9);
    cli.fuzz = Some(3);
    let runner = CliRunner::new(cli);
    assert_eq!(runner.get_threads(), 50);
    assert_eq!(runner.get_timeout(), 5);
    assert_eq!(runner.get_mode(), 1);
    assert_eq!(runner.get_max_count(), Some(9));
    assert_eq!(runner.get_fuzz_mode(), Some(3));
    assert_eq!(runner.get_user_agent(), Some("ua".to_string()));
    assert_eq!(runner.get_cookie(), Some("c=1".to_string()));
    assert_eq!(runner.get_proxy(), Some("http://p.test".to_string()));
    assert_eq!(runner.get_base_url(), Some("http://b.test/".to_string()));
    assert_eq!(runner.get_domain_filter(), Some("t\\.test".to_string()));
    assert_eq!(runner.get_status_filter(), Some("200".to_string()));
    assert_eq!(runner.get_config_path(), Some("conf.yaml".to_string()));
    assert_eq!(runner.get_output_path(), Some("out".to_string()));
}

#[test]
fn urls_assemble_in_order() {
    let runner = CliRunner::new(base_cli());
    let from_file = vec!["http://a.test/".to_string()];
    let from_unified = vec!["http://b.test/".to_string(), "http://c.test/".to_string()];
    let urls = runner.assemble_urls(&from_file, &from_unified);
    assert_eq!(
        urls,
        vec![
            "http://t.test/".to_string(),
            "http://a.test/".to_string(),
            "http://b.test/".to_string(),
            "http://c.test/".to_string(),
        ]
    );
}

#[test]
fn default_config_has_the_builtin_rules() {
    let c = Config::default();
    assert_eq!(c.url_patterns.len(), 2);
    assert_eq!(c.js_patterns.len(), 2);
    assert_eq!(c.sensitive_patterns.len(), 2);
    assert_eq!(c.url_filters.len(), 1);
    assert_eq!(c.js_filters.len(), 1);
    assert_eq!(c.url_depth, 1);
    assert_eq!(c.js_depth, 3);
    assert_eq!(
        c.url_fuzz_paths,
        vec!["/admin", "/api", "/v1", "/v2", "/swagger", "/docs"]
    );
    assert_eq!(
        c.js_fuzz_paths,
        vec!["config.js", "api.js", "main.js", "app.js", "index.js"]
    );
    assert!(c.headers.user_agent.starts_with("Mozilla/5.0"));
    assert_eq!(default_url_depth(), 1);
    assert_eq!(default_js_depth(), 3);
}

#[test]
fn header_override_falls_back_to_the_ruleset() {
    let fallback = "default-agent".to_string();
    assert_eq!(effective_header(Some("mine".to_string()), &fallback), "mine");
    assert_eq!(effective_header(None, &fallback), "default-agent");
}

#[test]
fn output_record_drops_the_source() {
    let result = CrawlResult {
        url: "http://t.test/p".to_string(),
        status: 200,
        content_type: "text/html".to_string(),
        urls: vec!["http://t.test/a".to_string()],
        js_urls: vec![],
        sensitive_info: vec![],
        source: "<html>".to_string(),
    };
    let out = OutputResult::from_crawl(result);
    assert_eq!(out.url, "http://t.test/p");
    assert_eq!(out.status, 200);
    assert_eq!(out.content_type, "text/html");
    assert_eq!(out.urls, vec!["http://t.test/a".to_string()]);
    let writer = OutputWriter::new("reports".to_string());
    assert_eq!(writer.path(), "reports");
}
