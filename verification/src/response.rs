//! The outward-facing response: the extracted list, or an upstream failure
//! message passed through unchanged, wrapped with a generation timestamp.

use vstd::prelude::*;

use crate::extract::{extract_news, news_of};
use crate::html::{doc_of, parse_document};
use crate::item::{items_view, NewsItem};
use crate::query::QuerySet;

verus! {

/// One extraction result: the assembly timestamp, the capped ordered item
/// list, and the upstream failure message if the document never arrived.
#[derive(Debug)]
pub struct NewsResponse {
    pub scraped_at: String,
    pub news: Vec<NewsItem>,
    pub error: Option<String>,
}

/// Relies on chrono::Utc::now and chrono::DateTime::to_rfc3339 for the
/// generation timestamp; nothing is assumed about the clock's value.
#[verifier::external_body]
fn now_rfc3339() -> String {
    chrono::Utc::now().to_rfc3339()
}

/// Extract the capped, ordered news list of a document given as text.
pub fn extract_from_text(text: &str, qs: &QuerySet) -> (r: Vec<NewsItem>)
    ensures
        items_view(r@) == news_of(doc_of(text@), qs@),
{
    let doc = parse_document(text);
    extract_news(&doc, qs)
}

/// Assemble the outward response: from fetched document text, the extracted
/// list and no error; from an upstream failure, an empty list and the failure
/// message passed through unchanged. The timestamp is taken at assembly.
pub fn assemble_response(fetched: Result<String, String>, qs: &QuerySet) -> (r: NewsResponse)
    ensures
        match fetched {
            Ok(text) => items_view(r.news@) == news_of(doc_of(text@), qs@) && r.error is None,
            Err(msg) => r.news@ == Seq::<NewsItem>::empty() && r.error == Some(msg),
        },
{
    match fetched {
        Ok(text) => {
            let news = extract_from_text(text.as_str(), qs);
            NewsResponse { scraped_at: now_rfc3339(), news, error: None }
        },
        Err(msg) => NewsResponse {
            scraped_at: now_rfc3339(),
            news: Vec::new(),
            error: Some(msg),
        },
    }
}

} // verus!
