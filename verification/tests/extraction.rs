use corriere_news::extract::MAX_ITEMS;
use corriere_news::query::QuerySet;
use corriere_news::response::{assemble_response, extract_from_text};

fn article(title: &str, href: &str, summary: &str, img: &str) -> String {
    format!(
        "<div class=\"bck-media-news\">\
           <h4 class=\"title-art-hp\"><a href=\"{href}\">{title}</a></h4>\
           <p class=\"subtitle-art\">{summary}</p>\
           <img class=\"is_full_image\" data-src=\"{img}\" alt=\"ALT\">\
         </div>"
    )
}

fn page(inner: &str) -> String {
    format!("<html><head></head><body><div class=\"body-hp\">{inner}</div></body></html>")
}

#[test]
fn one_article_full_fields() {
    let qs = QuerySet::new();
    let html = page(&article("Breaking News", "/a/1", "desc", "/img.jpg"));
    let news = extract_from_text(&html, &qs);
    assert_eq!(news.len(), 1);
    assert_eq!(news[0].title, "Breaking News");
    assert_eq!(news[0].link, "https://www.corriere.it/a/1");
    assert_eq!(news[0].description, "desc");
    assert_eq!(
        news[0].image_url.as_deref(),
        Some("https://www.corriere.it/img.jpg")
    );
}

#[test]
fn twenty_five_articles_capped_in_order() {
    let qs = QuerySet::new();
    let mut inner = String::new();
    for k in 1..=25 {
        inner.push_str(&article(
            &format!("Title {k}"),
            &format!("/a/{k}"),
            "s",
            "/i.jpg",
        ));
    }
    let news = extract_from_text(&page(&inner), &qs);
    assert_eq!(news.len(), MAX_ITEMS);
    for (k, item) in news.iter().enumerate() {
        assert_eq!(item.title, format!("Title {}", k + 1));
        assert_eq!(item.link, format!("https://www.corriere.it/a/{}", k + 1));
    }
}

#[test]
fn no_body_container_yields_empty_news_and_no_error() {
    let qs = QuerySet::new();
    let html = format!(
        "<html><body><div class=\"other\">{}</div></body></html>",
        article("T", "/a", "s", "/i.jpg")
    );
    let news = extract_from_text(&html, &qs);
    assert!(news.is_empty());
    let resp = assemble_response(Ok(html), &qs);
    assert!(resp.news.is_empty());
    assert!(resp.error.is_none());
}

#[test]
fn body_without_articles_yields_empty_news() {
    let qs = QuerySet::new();
    let html = page("<div class=\"plain\"><p>nothing here</p></div>");
    let news = extract_from_text(&html, &qs);
    assert!(news.is_empty());
}

#[test]
fn article_without_title_is_skipped() {
    let qs = QuerySet::new();
    let html = page(
        "<div class=\"bck-media-news\">\
           <p class=\"subtitle-art\">only a summary</p>\
         </div>",
    );
    let news = extract_from_text(&html, &qs);
    assert!(news.is_empty());
}

#[test]
fn empty_title_is_discarded() {
    let qs = QuerySet::new();
    let html = page(
        "<div class=\"bck-media-news\">\
           <h4 class=\"title-art-hp\">   </h4>\
         </div>",
    );
    let news = extract_from_text(&html, &qs);
    assert!(news.is_empty());
}

#[test]
fn title_without_anchor_yields_empty_link() {
    let qs = QuerySet::new();
    let html = page(
        "<div class=\"bck-media-news\">\
           <h4 class=\"title-art-hp\">Plain Title</h4>\
         </div>",
    );
    let news = extract_from_text(&html, &qs);
    assert_eq!(news.len(), 1);
    assert_eq!(news[0].title, "Plain Title");
    assert_eq!(news[0].link, "");
    assert_eq!(news[0].description, "");
    assert!(news[0].image_url.is_none());
}

#[test]
fn anchor_without_href_yields_empty_link() {
    let qs = QuerySet::new();
    let html = page(
        "<div class=\"bck-media-news\">\
           <h4 class=\"title-art-hp\"><a>No Href</a></h4>\
         </div>",
    );
    let news = extract_from_text(&html, &qs);
    assert_eq!(news.len(), 1);
    assert_eq!(news[0].link, "");
}

#[test]
fn empty_href_is_not_prefixed() {
    let qs = QuerySet::new();
    let html = page(
        "<div class=\"bck-media-news\">\
           <h4 class=\"title-art-hp\"><a href=\"\">T</a></h4>\
         </div>",
    );
    let news = extract_from_text(&html, &qs);
    assert_eq!(news.len(), 1);
    assert_eq!(news[0].link, "");
}

#[test]
fn absolute_href_left_unchanged() {
    let qs = QuerySet::new();
    let html = page(&article("T", "https://elsewhere.example/x", "s", "http://cdn.example/i.jpg"));
    let news = extract_from_text(&html, &qs);
    assert_eq!(news.len(), 1);
    assert_eq!(news[0].link, "https://elsewhere.example/x");
    assert_eq!(news[0].image_url.as_deref(), Some("http://cdn.example/i.jpg"));
}

#[test]
fn relative_href_normalized_to_origin() {
    let qs = QuerySet::new();
    let html = page(&article("T", "/a/1", "s", "/i.jpg"));
    let news = extract_from_text(&html, &qs);
    assert_eq!(news[0].link, "https://www.corriere.it/a/1");
}

#[test]
fn alt_text_is_description_fallback() {
    let qs = QuerySet::new();
    let html = page(
        "<div class=\"bck-media-news\">\
           <h4 class=\"title-art-hp\"><a href=\"/a\">T</a></h4>\
           <img class=\"is_full_image\" src=\"/i.jpg\" alt=\"X\">\
         </div>",
    );
    let news = extract_from_text(&html, &qs);
    assert_eq!(news.len(), 1);
    assert_eq!(news[0].description, "X");
    assert_eq!(news[0].image_url.as_deref(), Some("https://www.corriere.it/i.jpg"));
}

#[test]
fn summary_preferred_over_alt_text() {
    let qs = QuerySet::new();
    let html = page(&article("T", "/a", "the summary", "/i.jpg"));
    let news = extract_from_text(&html, &qs);
    assert_eq!(news[0].description, "the summary");
}

#[test]
fn lazy_source_preferred_over_direct_source() {
    let qs = QuerySet::new();
    let html = page(
        "<div class=\"bck-media-news\">\
           <h4 class=\"title-art-hp\"><a href=\"/a\">T</a></h4>\
           <img class=\"is_full_image\" data-src=\"/lazy.jpg\" src=\"/eager.jpg\">\
         </div>",
    );
    let news = extract_from_text(&html, &qs);
    assert_eq!(
        news[0].image_url.as_deref(),
        Some("https://www.corriere.it/lazy.jpg")
    );
}

#[test]
fn direct_source_used_without_lazy_attribute() {
    let qs = QuerySet::new();
    let html = page(
        "<div class=\"bck-media-news\">\
           <h4 class=\"title-art-hp\"><a href=\"/a\">T</a></h4>\
           <img class=\"is_full_image\" src=\"/eager.jpg\">\
         </div>",
    );
    let news = extract_from_text(&html, &qs);
    assert_eq!(
        news[0].image_url.as_deref(),
        Some("https://www.corriere.it/eager.jpg")
    );
}

#[test]
fn no_image_yields_no_image_url() {
    let qs = QuerySet::new();
    let html = page(
        "<div class=\"bck-media-news\">\
           <h4 class=\"title-art-hp\"><a href=\"/a\">T</a></h4>\
           <p class=\"subtitle-art\">s</p>\
         </div>",
    );
    let news = extract_from_text(&html, &qs);
    assert!(news[0].image_url.is_none());
}

#[test]
fn title_text_is_joined_and_trimmed() {
    let qs = QuerySet::new();
    let html = page(
        "<div class=\"bck-media-news\">\
           <h4 class=\"title-art-hp\">  <a href=\"/a\">Two</a> <span>Parts</span>  </h4>\
         </div>",
    );
    let news = extract_from_text(&html, &qs);
    assert_eq!(news.len(), 1);
    assert!(news[0].title.starts_with("Two"));
    assert!(news[0].title.ends_with("Parts"));
    assert_eq!(news[0].title.trim(), news[0].title);
}

#[test]
fn first_title_match_is_used() {
    let qs = QuerySet::new();
    let html = page(
        "<div class=\"bck-media-news\">\
           <h4 class=\"title-art-hp\"><a href=\"/first\">First</a></h4>\
           <h4 class=\"title-art-hp\"><a href=\"/second\">Second</a></h4>\
         </div>",
    );
    let news = extract_from_text(&html, &qs);
    assert_eq!(news.len(), 1);
    assert_eq!(news[0].title, "First");
    assert_eq!(news[0].link, "https://www.corriere.it/first");
}

#[test]
fn summary_class_must_start_with_prefix() {
    let qs = QuerySet::new();
    let html = page(
        "<div class=\"bck-media-news\">\
           <h4 class=\"title-art-hp\"><a href=\"/a\">T</a></h4>\
           <p class=\"art subtitle\">not a summary</p>\
           <img class=\"is_full_image\" src=\"/i.jpg\" alt=\"X\">\
         </div>",
    );
    let news = extract_from_text(&html, &qs);
    assert_eq!(news.len(), 1);
    assert_eq!(news[0].description, "X");
}

#[test]
fn only_first_body_container_is_scanned() {
    let qs = QuerySet::new();
    let html = format!(
        "<html><body>\
           <div class=\"body-hp\"><p>empty section</p></div>\
           <div class=\"body-hp\">{}</div>\
         </body></html>",
        article("T", "/a", "s", "/i.jpg")
    );
    let news = extract_from_text(&html, &qs);
    assert!(news.is_empty());
}

#[test]
fn extraction_is_idempotent() {
    let qs = QuerySet::new();
    let mut inner = String::new();
    for k in 1..=5 {
        inner.push_str(&article(&format!("T{k}"), &format!("/a/{k}"), "s", "/i.jpg"));
    }
    let html = page(&inner);
    let first = extract_from_text(&html, &qs);
    let second = extract_from_text(&html, &qs);
    assert_eq!(first, second);
}

#[test]
fn fetch_failure_passes_message_through() {
    let qs = QuerySet::new();
    let msg = "Failed to fetch URL: connection refused".to_string();
    let resp = assemble_response(Err(msg.clone()), &qs);
    assert!(resp.news.is_empty());
    assert_eq!(resp.error.as_deref(), Some(msg.as_str()));
}

#[test]
fn fetched_text_yields_no_error() {
    let qs = QuerySet::new();
    let resp = assemble_response(Ok(page(&article("T", "/a", "s", "/i.jpg"))), &qs);
    assert_eq!(resp.news.len(), 1);
    assert!(resp.error.is_none());
    assert!(!resp.scraped_at.is_empty());
}
