//! A reconnaissance crawler library: the fetch–extract–dedup–fuzz pipeline.
//!
//! The library turns a fetched page (URL, status, body) into classified
//! discoveries: in-page URLs, JavaScript asset URLs and sensitive-looking
//! strings, normalized against a base URL, filtered, de-duplicated across
//! the run, and optionally extended with fuzz candidate URLs derived from
//! discovered paths.  Network I/O and output rendering live outside the
//! library; callers hand in plain values.

pub mod cli;
pub mod config;
pub mod crawler;
pub mod fuzz;
pub mod js_fuzz;
pub mod matchers;
pub mod mode;
pub mod output;
pub mod state;
pub mod strutil;
pub mod url_fuzz;
pub mod urlparse;
pub mod utils;
