//! The normalized record extracted for one article.

use vstd::prelude::*;

verus! {

/// One extracted article: a non-empty trimmed title, a description (possibly
/// empty), an absolute link (or the empty string), and an optional absolute
/// image URL.
#[derive(Debug, PartialEq)]
pub struct NewsItem {
    pub title: String,
    pub description: String,
    pub link: String,
    pub image_url: Option<String>,
}

/// The mathematical value of a `NewsItem`.
pub struct NewsItemV {
    pub title: Seq<char>,
    pub description: Seq<char>,
    pub link: Seq<char>,
    pub image_url: Option<Seq<char>>,
}

impl View for NewsItem {
    type V = NewsItemV;

    open spec fn view(&self) -> NewsItemV {
        NewsItemV {
            title: self.title@,
            description: self.description@,
            link: self.link@,
            image_url: match self.image_url {
                Some(ref u) => Some(u@),
                None => None,
            },
        }
    }
}

/// The views of a sequence of news items.
pub open spec fn items_view(s: Seq<NewsItem>) -> Seq<NewsItemV> {
    s.map_values(|it: NewsItem| it@)
}

/// The view of an optional news item.
pub open spec fn opt_item_view(r: Option<NewsItem>) -> Option<NewsItemV> {
    match r {
        Some(it) => Some(it@),
        None => None,
    }
}

} // verus!
