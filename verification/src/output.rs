//! The records handed to the output-writing layer.  Rendering them to
//! files is the caller's business; the library only shapes the data.

use vstd::prelude::*;
use vstd::string::*;

use crate::crawler::CrawlResult;

verus! {

/// One record of the final report: a crawl result without its page source.
#[derive(Debug)]
pub struct OutputResult {
    pub url: String,
    pub status: u16,
    pub content_type: String,
    pub urls: Vec<String>,
    pub js_urls: Vec<String>,
    pub sensitive_info: Vec<String>,
}

impl OutputResult {
    /// Shapes a crawl result into a report record, dropping the source.
    pub fn from_crawl(result: CrawlResult) -> (r: OutputResult)
        ensures
            r.url@ == result@.url,
            r.status == result@.status,
            r.content_type@ == result@.content_type,
            r.urls.deep_view() == result@.urls,
            r.js_urls.deep_view() == result@.js_urls,
            r.sensitive_info.deep_view() == result@.sensitive_info,
    {
        OutputResult {
            url: result.url,
            status: result.status,
            content_type: result.content_type,
            urls: result.urls,
            js_urls: result.js_urls,
            sensitive_info: result.sensitive_info,
        }
    }
}

/// Where the report files go.
pub struct OutputWriter {
    output_path: String,
}

impl OutputWriter {
    /// The directory the writer was created with.
    pub closed spec fn spec_path(&self) -> Seq<char> {
        self.output_path@
    }

    /// A writer rooted at `output_path`.
    pub fn new(output_path: String) -> (r: OutputWriter)
        ensures
            r.spec_path() == output_path@,
    {
        OutputWriter { output_path }
    }

    /// The directory the report files go to.
    pub fn path(&self) -> (r: &String)
        ensures
            r@ == self.spec_path(),
    {
        &self.output_path
    }
}

} // verus!
