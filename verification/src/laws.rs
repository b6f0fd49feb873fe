//! Laws of the extraction engine, stated and proved over the same spec
//! functions that the executable functions' contracts use.

use vstd::prelude::*;

use crate::dom::NodeV;
use crate::extract::{
    attrs_of, cap_items, first_match, item_at, items_in, news_of, normalize_url, origin_spec,
    scheme_spec, subtree_end, MAX_ITEMS,
};
use crate::html::doc_of;
use crate::item::NewsItemV;
use crate::query::{attr_of, QuerySetV};

verus! {

/// A document in which nothing matches the page-body query yields an empty
/// news list; the absence of the container is not an error.
pub proof fn lemma_no_body_no_news(ns: Seq<NodeV>, qs: QuerySetV)
    requires
        first_match(ns, 0, ns.len() as int, qs.body) is None,
    ensures
        news_of(ns, qs) == Seq::<NewsItemV>::empty(),
{
}

/// An article fragment with no title-matching descendant contributes no item.
pub proof fn lemma_no_title_no_item(ns: Seq<NodeV>, i: int, qs: QuerySetV)
    requires
        first_match(ns, i + 1, subtree_end(ns, i), qs.title) is None,
    ensures
        item_at(ns, i, qs) is None,
{
}

/// An article whose title element holds no anchor gets the empty link.
pub proof fn lemma_no_anchor_empty_link(
    ns: Seq<NodeV>,
    i: int,
    t: int,
    it: NewsItemV,
    qs: QuerySetV,
)
    requires
        first_match(ns, i + 1, subtree_end(ns, i), qs.title) == Some(t),
        first_match(ns, t + 1, subtree_end(ns, t), qs.link) is None,
        item_at(ns, i, qs) == Some(it),
    ensures
        it.link.len() == 0,
{
    assert(normalize_url(Seq::<char>::empty()) == Seq::<char>::empty());
}

/// URL normalization: a URL already starting with the absolute scheme is left
/// unchanged, a non-empty relative one is prefixed with the fixed origin, and
/// an empty one stays empty.
pub proof fn lemma_normalize_url(u: Seq<char>)
    ensures
        scheme_spec().is_prefix_of(u) ==> normalize_url(u) == u,
        u.len() > 0 && !scheme_spec().is_prefix_of(u) ==> normalize_url(u) == origin_spec() + u,
        u.len() == 0 ==> normalize_url(u) == u,
{
}

/// With no summary match in the article scope, the alternative text of the
/// matched image becomes the description of the item produced.
pub proof fn lemma_alt_text_description(
    ns: Seq<NodeV>,
    i: int,
    g: int,
    alt: Seq<char>,
    it: NewsItemV,
    qs: QuerySetV,
)
    requires
        first_match(ns, i + 1, subtree_end(ns, i), qs.summary) is None,
        first_match(ns, i + 1, subtree_end(ns, i), qs.image) == Some(g),
        attr_of(attrs_of(ns[g]), "alt"@) == Some(alt),
        item_at(ns, i, qs) == Some(it),
    ensures
        it.description == alt,
{
}

/// With at least `MAX_ITEMS` qualifying articles inside the body container,
/// exactly the first `MAX_ITEMS`, in document order, are returned.
pub proof fn lemma_cap(ns: Seq<NodeV>, b: int, qs: QuerySetV)
    requires
        first_match(ns, 0, ns.len() as int, qs.body) == Some(b),
        items_in(ns, b + 1, subtree_end(ns, b), qs).len() >= MAX_ITEMS,
    ensures
        news_of(ns, qs) == items_in(ns, b + 1, subtree_end(ns, b), qs).take(MAX_ITEMS as int),
        news_of(ns, qs).len() == MAX_ITEMS,
{
    let all = items_in(ns, b + 1, subtree_end(ns, b), qs);
    if all.len() == MAX_ITEMS {
        assert(all.take(MAX_ITEMS as int) =~= all);
    }
}

/// What is returned is always an initial segment, in document order, of the
/// full uncapped item list of the body container: items are never reordered
/// and none is skipped in favour of a later one.
pub proof fn lemma_news_is_prefix(ns: Seq<NodeV>, b: int, qs: QuerySetV)
    requires
        first_match(ns, 0, ns.len() as int, qs.body) == Some(b),
    ensures
        news_of(ns, qs).is_prefix_of(items_in(ns, b + 1, subtree_end(ns, b), qs)),
{
    let all = items_in(ns, b + 1, subtree_end(ns, b), qs);
    if all.len() <= MAX_ITEMS {
        assert(all =~= all.subrange(0, all.len() as int));
    } else {
        assert(all.take(MAX_ITEMS as int) =~= all.subrange(0, MAX_ITEMS as int));
    }
}

/// A news list never exceeds the cap.
pub proof fn lemma_news_bounded(ns: Seq<NodeV>, qs: QuerySetV)
    ensures
        news_of(ns, qs).len() <= MAX_ITEMS,
{
}

/// Extraction is deterministic: two extractions of the same document text
/// with the same queries yield the same news sequence.
pub proof fn lemma_extract_deterministic(
    text: Seq<char>,
    qs: QuerySetV,
    r1: Seq<NewsItemV>,
    r2: Seq<NewsItemV>,
)
    requires
        r1 == news_of(doc_of(text), qs),
        r2 == news_of(doc_of(text), qs),
    ensures
        r1 == r2,
{
}

/// Every item of the uncapped item list carries a non-empty title.
proof fn lemma_items_in_titles(ns: Seq<NodeV>, lo: int, hi: int, qs: QuerySetV)
    requires
        lo <= hi,
    ensures
        forall|k: int|
            0 <= k < items_in(ns, lo, hi, qs).len() ==> items_in(ns, lo, hi, qs)[k].title.len()
                > 0,
    decreases hi - lo,
{
    if lo < hi {
        lemma_items_in_titles(ns, lo + 1, hi, qs);
    }
}

/// Every item a document yields carries a non-empty (trimmed) title: an
/// article whose title trims to nothing is discarded, never emitted.
pub proof fn lemma_titles_nonempty(ns: Seq<NodeV>, qs: QuerySetV)
    ensures
        forall|k: int| 0 <= k < news_of(ns, qs).len() ==> news_of(ns, qs)[k].title.len() > 0,
{
    match first_match(ns, 0, ns.len() as int, qs.body) {
        None => {
        },
        Some(b) => {
            crate::extract::lemma_first_match_bounds(ns, 0, ns.len() as int, qs.body);
            crate::extract::lemma_scan_end_bounds(ns, b + 1, ns[b].depth);
            let e = subtree_end(ns, b);
            lemma_items_in_titles(ns, b + 1, e, qs);
            let all = items_in(ns, b + 1, e, qs);
            assert(news_of(ns, qs) == cap_items(all));
            assert forall|k: int| 0 <= k < news_of(ns, qs).len() implies news_of(ns, qs)[k].title.len()
                > 0 by {
                if all.len() > MAX_ITEMS {
                    assert(news_of(ns, qs)[k] == all[k]);
                }
            }
        },
    }
}

} // verus!
