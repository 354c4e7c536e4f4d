//! The ruleset: pattern lists, filter lists, fuzz path lists and default
//! request headers, immutable once loaded.

use vstd::prelude::*;
use vstd::string::*;

verus! {

/// Default request header values.
#[derive(Debug)]
pub struct Headers {
    pub user_agent: String,
    pub cookie: String,
    pub accept: String,
    pub accept_language: String,
    pub accept_encoding: String,
}

impl Default for Headers {
    /// Every header value empty.
    fn default() -> (r: Headers)
        ensures
            r.user_agent@ == Seq::<char>::empty(),
            r.cookie@ == Seq::<char>::empty(),
            r.accept@ == Seq::<char>::empty(),
            r.accept_language@ == Seq::<char>::empty(),
            r.accept_encoding@ == Seq::<char>::empty(),
    {
        Headers {
            user_agent: String::new(),
            cookie: String::new(),
            accept: String::new(),
            accept_language: String::new(),
            accept_encoding: String::new(),
        }
    }
}

/// The ruleset shared read-only by every fetch of a run.
#[derive(Debug)]
pub struct Config {
    pub headers: Headers,
    pub url_patterns: Vec<String>,
    pub js_patterns: Vec<String>,
    pub sensitive_patterns: Vec<String>,
    pub url_filters: Vec<String>,
    pub js_filters: Vec<String>,
    pub url_depth: u8,
    pub js_depth: u8,
    pub url_fuzz_paths: Vec<String>,
    pub js_fuzz_paths: Vec<String>,
}

/// The depth applied to page-URL recursion when none is configured.
pub fn default_url_depth() -> (r: u8)
    ensures
        r == 1,
{
    1
}

/// The depth applied to JS recursion when none is configured.
pub fn default_js_depth() -> (r: u8)
    ensures
        r == 3,
{
    3
}

impl Config {
    /// The built-in ruleset used when no configuration file is given.
    pub fn default() -> (r: Config)
        ensures
            r.url_patterns.deep_view() =~= seq![
                r#"https?://[\w\-\.]+(:\d+)?(/[\w\-\./?%&=]*)?"#@,
                r#"(/[\w\-\./?%&=]+)+"#@,
            ],
            r.js_patterns.deep_view() =~= seq![
                r#"https?://[\w\-\.]+(:\d+)?[\w\-\./?%&=]*\.js"#@,
                r#"(/[\w\-\./?%&=]*\.js)+"#@,
            ],
            r.sensitive_patterns.deep_view() =~= seq![
                r#"(password|secret|token|key)\s*[=:]\s*['"][^'"]+['"]"#@,
                r#"(api|v1|v2|v3)/[\w\-\./?%&=]+"#@,
            ],
            r.url_filters.deep_view() =~= seq![
                r#"\.(css|png|jpg|jpeg|gif|ico|svg|woff|woff2|ttf|eot|mp3|mp4|avi|swf)$"#@,
            ],
            r.js_filters.deep_view() =~= seq![r#"^(https?:)?//cdn\."#@],
            r.url_depth == 1,
            r.js_depth == 3,
            r.url_fuzz_paths.deep_view() =~= seq![
                "/admin"@,
                "/api"@,
                "/v1"@,
                "/v2"@,
                "/swagger"@,
                "/docs"@,
            ],
            r.js_fuzz_paths.deep_view() =~= seq![
                "config.js"@,
                "api.js"@,
                "main.js"@,
                "app.js"@,
                "index.js"@,
            ],
            r.headers.user_agent@
                == "Mozilla/5.0 (Windows NT 10.0; Win64; x64) AppleWebKit/537.36 (KHTML, like Gecko) Chrome/120.0.0.0 Safari/537.36"@,
            r.headers.cookie@ == Seq::<char>::empty(),
            r.headers.accept@
                == "text/html,application/xhtml+xml,application/xml;q=0.9,image/avif,image/webp,*/*;q=0.8"@,
            r.headers.accept_language@ == "en-US,en;q=0.5"@,
            r.headers.accept_encoding@ == "gzip, deflate"@,
    {
        let mut url_patterns: Vec<String> = Vec::new();
        url_patterns.push(String::from_str(r#"https?://[\w\-\.]+(:\d+)?(/[\w\-\./?%&=]*)?"#));
        url_patterns.push(String::from_str(r#"(/[\w\-\./?%&=]+)+"#));
        let mut js_patterns: Vec<String> = Vec::new();
        js_patterns.push(String::from_str(r#"https?://[\w\-\.]+(:\d+)?[\w\-\./?%&=]*\.js"#));
        js_patterns.push(String::from_str(r#"(/[\w\-\./?%&=]*\.js)+"#));
        let mut sensitive_patterns: Vec<String> = Vec::new();
        sensitive_patterns.push(
            String::from_str(r#"(password|secret|token|key)\s*[=:]\s*['"][^'"]+['"]"#),
        );
        sensitive_patterns.push(String::from_str(r#"(api|v1|v2|v3)/[\w\-\./?%&=]+"#));
        let mut url_filters: Vec<String> = Vec::new();
        url_filters.push(
            String::from_str(
                r#"\.(css|png|jpg|jpeg|gif|ico|svg|woff|woff2|ttf|eot|mp3|mp4|avi|swf)$"#,
            ),
        );
        let mut js_filters: Vec<String> = Vec::new();
        js_filters.push(String::from_str(r#"^(https?:)?//cdn\."#));
        let mut url_fuzz_paths: Vec<String> = Vec::new();
        url_fuzz_paths.push(String::from_str("/admin"));
        url_fuzz_paths.push(String::from_str("/api"));
        url_fuzz_paths.push(String::from_str("/v1"));
        url_fuzz_paths.push(String::from_str("/v2"));
        url_fuzz_paths.push(String::from_str("/swagger"));
        url_fuzz_paths.push(String::from_str("/docs"));
        let mut js_fuzz_paths: Vec<String> = Vec::new();
        js_fuzz_paths.push(String::from_str("config.js"));
        js_fuzz_paths.push(String::from_str("api.js"));
        js_fuzz_paths.push(String::from_str("main.js"));
        js_fuzz_paths.push(String::from_str("app.js"));
        js_fuzz_paths.push(String::from_str("index.js"));
        Config {
            headers: Headers {
                user_agent: String::from_str(
                    "Mozilla/5.0 (Windows NT 10.0; Win64; x64) AppleWebKit/537.36 (KHTML, like Gecko) Chrome/120.0.0.0 Safari/537.36",
                ),
                cookie: String::new(),
                accept: String::from_str(
                    "text/html,application/xhtml+xml,application/xml;q=0.9,image/avif,image/webp,*/*;q=0.8",
                ),
                accept_language: String::from_str("en-US,en;q=0.5"),
                accept_encoding: String::from_str("gzip, deflate"),
            },
            url_patterns,
            js_patterns,
            sensitive_patterns,
            url_filters,
            js_filters,
            url_depth: default_url_depth(),
            js_depth: default_js_depth(),
            url_fuzz_paths,
            js_fuzz_paths,
        }
    }
}

} // verus!
