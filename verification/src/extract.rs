//! The extraction engine: locate the page-body container, walk the article
//! fragments inside it in document order, and reduce each to a normalized
//! news item, stopping for good once twenty items have been produced.

use vstd::prelude::*;
use vstd::string::StrSliceExecFns;
use vstd::string::StringExecFns;

use crate::dom::{Document, NodeData, NodeDataV, NodeV};
use crate::item::{items_view, opt_item_view, NewsItem, NewsItemV};
use crate::query::{attr_of, find_attr, node_matches, node_matches_at, Query, QueryV, QuerySet, QuerySetV};
use crate::strutil::{space_join, str_has_prefix, strs_view, trim_spec, trim_str, join_spaces};

verus! {

/// The hard cap on the number of items extracted from one document.
pub const MAX_ITEMS: usize = 20;

/// The fixed origin used to resolve site-relative URLs.
pub open spec fn origin_spec() -> Seq<char> {
    "https://www.corriere.it"@
}

/// The prefix that marks a URL as already absolute.
pub open spec fn scheme_spec() -> Seq<char> {
    "http"@
}

/// Absolute-URL normalization: a non-empty URL that does not already start
/// with the absolute scheme is prefixed with the fixed site origin; anything
/// else is left unchanged.
pub open spec fn normalize_url(u: Seq<char>) -> Seq<char> {
    if u.len() > 0 && !scheme_spec().is_prefix_of(u) {
        origin_spec() + u
    } else {
        u
    }
}

/// Normalize a URL to an absolute one.
pub fn normalize(u: &str) -> (r: String)
    ensures
        r@ == normalize_url(u@),
{
    if !u.is_empty() && !str_has_prefix(u, "http") {
        let mut out = "https://www.corriere.it".to_owned();
        out.append(u);
        out
    } else {
        u.to_owned()
    }
}

/// The first position at or after `j` whose node sits at depth `d` or higher
/// in the tree (that is, leaves the subtree opened just before `j`), or the
/// length of the document if the subtree runs to its end.
pub open spec fn scan_end(ns: Seq<NodeV>, j: int, d: nat) -> int
    decreases ns.len() - j when 0 <= j <= ns.len()
{
    if j >= ns.len() {
        ns.len() as int
    } else if ns[j].depth <= d {
        j
    } else {
        scan_end(ns, j + 1, d)
    }
}

/// One past the last node of the subtree rooted at position `i`.
pub open spec fn subtree_end(ns: Seq<NodeV>, i: int) -> int {
    scan_end(ns, i + 1, ns[i].depth)
}

/// The end of a scan lies between its start and the end of the document.
pub proof fn lemma_scan_end_bounds(ns: Seq<NodeV>, j: int, d: nat)
    requires
        0 <= j <= ns.len(),
    ensures
        j <= scan_end(ns, j, d) <= ns.len(),
    decreases ns.len() - j,
{
    if j < ns.len() && ns[j].depth > d {
        lemma_scan_end_bounds(ns, j + 1, d);
    }
}

/// One past the last node of the subtree rooted at position `i`.
pub fn subtree_end_at(doc: &Document, i: usize) -> (e: usize)
    requires
        i < doc@.len(),
    ensures
        e == subtree_end(doc@, i as int),
        i < e <= doc@.len(),
{
    let n = doc.nodes.len();
    proof {
        assert(doc@.len() == doc.nodes@.len());
        assert(doc@[i as int] == doc.nodes@[i as int]@);
    }
    let d = doc.nodes[i].depth;
    let mut j = i + 1;
    while j < n && doc.nodes[j].depth > d
        invariant
            i + 1 <= j <= n,
            n == doc@.len(),
            d as nat == doc@[i as int].depth,
            forall|m: int| 0 <= m < n ==> doc@[m] == doc.nodes@[m]@,
            scan_end(doc@, i as int + 1, d as nat) == scan_end(doc@, j as int, d as nat),
        decreases n - j,
    {
        j = j + 1;
    }
    j
}

/// The position of the first node in `[lo, hi)` that matches `q`, if any.
pub open spec fn first_match(ns: Seq<NodeV>, lo: int, hi: int, q: QueryV) -> Option<int>
    decreases hi - lo when lo <= hi
{
    if lo >= hi {
        None
    } else if node_matches(ns[lo], q) {
        Some(lo)
    } else {
        first_match(ns, lo + 1, hi, q)
    }
}

/// A found first match lies in its range and matches the query.
pub proof fn lemma_first_match_bounds(ns: Seq<NodeV>, lo: int, hi: int, q: QueryV)
    requires
        lo <= hi,
    ensures
        match first_match(ns, lo, hi, q) {
            Some(k) => lo <= k < hi && node_matches(ns[k], q),
            None => true,
        },
    decreases hi - lo,
{
    if lo < hi && !node_matches(ns[lo], q) {
        lemma_first_match_bounds(ns, lo + 1, hi, q);
    }
}

/// Find the first node in `[lo, hi)` that matches `q`.
pub fn find_first(doc: &Document, lo: usize, hi: usize, q: &Query) -> (r: Option<usize>)
    requires
        lo <= hi <= doc@.len(),
    ensures
        match r {
            Some(k) => lo <= k < hi && first_match(doc@, lo as int, hi as int, q@) == Some(
                k as int,
            ),
            None => first_match(doc@, lo as int, hi as int, q@) is None,
        },
{
    let mut j = lo;
    while j < hi
        invariant
            lo <= j <= hi <= doc@.len(),
            first_match(doc@, lo as int, hi as int, q@) == first_match(
                doc@,
                j as int,
                hi as int,
                q@,
            ),
        decreases hi - j,
    {
        if node_matches_at(doc, j, q) {
            return Some(j);
        }
        j = j + 1;
    }
    None
}

/// The text chunks of the nodes in `[lo, hi)`, in document order.
pub open spec fn texts_in(ns: Seq<NodeV>, lo: int, hi: int) -> Seq<Seq<char>>
    decreases hi - lo when lo <= hi
{
    if lo >= hi {
        Seq::empty()
    } else {
        match ns[lo].data {
            NodeDataV::Text { content } => seq![content] + texts_in(ns, lo + 1, hi),
            NodeDataV::Element { .. } => texts_in(ns, lo + 1, hi),
        }
    }
}

/// Collect the text chunks of the nodes in `[lo, hi)`, in document order.
pub fn collect_texts(doc: &Document, lo: usize, hi: usize) -> (r: Vec<String>)
    requires
        lo <= hi <= doc@.len(),
    ensures
        strs_view(r@) == texts_in(doc@, lo as int, hi as int),
{
    let mut out: Vec<String> = Vec::new();
    let mut j = lo;
    proof {
        assert(strs_view(out@) =~= Seq::<Seq<char>>::empty());
        assert(Seq::<Seq<char>>::empty() + texts_in(doc@, lo as int, hi as int) =~= texts_in(
            doc@,
            lo as int,
            hi as int,
        ));
    }
    while j < hi
        invariant
            lo <= j <= hi <= doc@.len(),
            strs_view(out@) + texts_in(doc@, j as int, hi as int) == texts_in(
                doc@,
                lo as int,
                hi as int,
            ),
        decreases hi - j,
    {
        proof {
            assert(doc@[j as int] == doc.nodes@[j as int]@);
        }
        match &doc.nodes[j].data {
            NodeData::Text { content } => {
                let ghost before = strs_view(out@);
                out.push(content.clone());
                proof {
                    assert(strs_view(out@) =~= before.push(content@));
                    assert(before.push(content@) + texts_in(doc@, j as int + 1, hi as int) =~= (
                    before + (seq![content@] + texts_in(doc@, j as int + 1, hi as int))));
                }
            }
            NodeData::Element { .. } => {},
        }
        j = j + 1;
    }
    proof {
        assert(strs_view(out@) + Seq::<Seq<char>>::empty() =~= strs_view(out@));
    }
    out
}

/// The attribute pairs of a node: an element's attributes, or nothing for text.
pub open spec fn attrs_of(n: NodeV) -> Seq<(Seq<char>, Seq<char>)> {
    match n.data {
        NodeDataV::Element { attrs, .. } => attrs,
        NodeDataV::Text { .. } => Seq::empty(),
    }
}

/// The value of the named attribute of the node at position `i`, if any.
pub fn get_attr(doc: &Document, i: usize, name: &String) -> (r: Option<String>)
    requires
        i < doc@.len(),
    ensures
        match r {
            Some(v) => attr_of(attrs_of(doc@[i as int]), name@) == Some(v@),
            None => attr_of(attrs_of(doc@[i as int]), name@) is None,
        },
{
    proof {
        assert(doc@[i as int] == doc.nodes@[i as int]@);
    }
    match &doc.nodes[i].data {
        NodeData::Element { attrs, .. } => match find_attr(attrs, name) {
            Some(v) => Some(v.clone()),
            None => None,
        },
        NodeData::Text { .. } => None,
    }
}

/// The trimmed, space-joined text of the subtree rooted at `t`, read past the
/// root node itself.
pub open spec fn gathered_text(ns: Seq<NodeV>, t: int) -> Seq<char> {
    trim_spec(space_join(texts_in(ns, t + 1, subtree_end(ns, t))))
}

/// The item the article fragment rooted at position `i` yields, if any: no
/// title-matching descendant, or a title that trims to nothing, yields none;
/// otherwise the fields are filled with their per-step fallbacks.
pub open spec fn item_at(ns: Seq<NodeV>, i: int, qs: QuerySetV) -> Option<NewsItemV> {
    let hi = subtree_end(ns, i);
    match first_match(ns, i + 1, hi, qs.title) {
        None => None,
        Some(t) => {
            let te = subtree_end(ns, t);
            let title = gathered_text(ns, t);
            if title.len() == 0 {
                None
            } else {
                let href = match first_match(ns, t + 1, te, qs.link) {
                    None => Seq::<char>::empty(),
                    Some(a) => match attr_of(attrs_of(ns[a]), "href"@) {
                        Some(h) => h,
                        None => Seq::<char>::empty(),
                    },
                };
                let link = normalize_url(href);
                let base_desc = match first_match(ns, i + 1, hi, qs.summary) {
                    None => Seq::<char>::empty(),
                    Some(sm) => gathered_text(ns, sm),
                };
                match first_match(ns, i + 1, hi, qs.image) {
                    None => Some(
                        NewsItemV { title, description: base_desc, link, image_url: None },
                    ),
                    Some(g) => {
                        let src = match attr_of(attrs_of(ns[g]), "data-src"@) {
                            Some(u) => Some(u),
                            None => attr_of(attrs_of(ns[g]), "src"@),
                        };
                        let image_url = match src {
                            Some(u) => Some(normalize_url(u)),
                            None => None,
                        };
                        let description = if base_desc.len() == 0 {
                            match attr_of(attrs_of(ns[g]), "alt"@) {
                                Some(alt) => alt,
                                None => base_desc,
                            }
                        } else {
                            base_desc
                        };
                        Some(NewsItemV { title, description, link, image_url })
                    },
                }
            }
        },
    }
}

/// Gather and normalize the text of the subtree rooted at `t`.
fn gather_text(doc: &Document, t: usize) -> (r: String)
    requires
        t < doc@.len(),
    ensures
        r@ == gathered_text(doc@, t as int),
{
    let te = subtree_end_at(doc, t);
    let parts = collect_texts(doc, t + 1, te);
    let joined = join_spaces(&parts);
    trim_str(joined.as_str())
}

/// Extract the news item of the article fragment rooted at position `i`.
pub fn extract_article(doc: &Document, i: usize, qs: &QuerySet) -> (r: Option<NewsItem>)
    requires
        i < doc@.len(),
    ensures
        opt_item_view(r) == item_at(doc@, i as int, qs@),
{
    let hi = subtree_end_at(doc, i);
    let t = match find_first(doc, i + 1, hi, &qs.title) {
        None => {
            return None;
        },
        Some(t) => t,
    };
    let te = subtree_end_at(doc, t);
    let title = gather_text(doc, t);
    if title.as_str().is_empty() {
        return None;
    }
    let href = match find_first(doc, t + 1, te, &qs.link) {
        None => String::new(),
        Some(a) => match get_attr(doc, a, &String::from_str("href")) {
            Some(h) => h,
            None => String::new(),
        },
    };
    let link = normalize(href.as_str());
    let base_desc = match find_first(doc, i + 1, hi, &qs.summary) {
        None => String::new(),
        Some(sm) => gather_text(doc, sm),
    };
    match find_first(doc, i + 1, hi, &qs.image) {
        None => Some(NewsItem { title, description: base_desc, link, image_url: None }),
        Some(g) => {
            let src = match get_attr(doc, g, &String::from_str("data-src")) {
                Some(u) => Some(u),
                None => get_attr(doc, g, &String::from_str("src")),
            };
            let image_url = match src {
                Some(u) => Some(normalize(u.as_str())),
                None => None,
            };
            let description = if base_desc.as_str().is_empty() {
                match get_attr(doc, g, &String::from_str("alt")) {
                    Some(alt) => alt,
                    None => base_desc,
                }
            } else {
                base_desc
            };
            Some(NewsItem { title, description, link, image_url })
        },
    }
}

/// The items of the article fragments in `[lo, hi)`, in document order,
/// without the cap.
pub open spec fn items_in(ns: Seq<NodeV>, lo: int, hi: int, qs: QuerySetV) -> Seq<NewsItemV>
    decreases hi - lo when lo <= hi
{
    if lo >= hi {
        Seq::empty()
    } else {
        let rest = items_in(ns, lo + 1, hi, qs);
        if node_matches(ns[lo], qs.article) {
            match item_at(ns, lo, qs) {
                Some(it) => seq![it] + rest,
                None => rest,
            }
        } else {
            rest
        }
    }
}

/// At most the first `MAX_ITEMS` of `items`.
pub open spec fn cap_items(items: Seq<NewsItemV>) -> Seq<NewsItemV> {
    if items.len() <= MAX_ITEMS {
        items
    } else {
        items.take(MAX_ITEMS as int)
    }
}

/// What extraction yields on a whole document: nothing when no page-body
/// container matches; otherwise the capped item list of the article fragments
/// inside the first such container.
pub open spec fn news_of(ns: Seq<NodeV>, qs: QuerySetV) -> Seq<NewsItemV> {
    match first_match(ns, 0, ns.len() as int, qs.body) {
        None => Seq::empty(),
        Some(b) => cap_items(items_in(ns, b + 1, subtree_end(ns, b), qs)),
    }
}

/// Extract the capped, ordered news list of a parsed document.
#[verifier::loop_isolation(false)]
pub fn extract_news(doc: &Document, qs: &QuerySet) -> (r: Vec<NewsItem>)
    ensures
        items_view(r@) == news_of(doc@, qs@),
{
    let n = doc.nodes.len();
    proof {
        assert(doc@.len() == doc.nodes@.len());
    }
    let b = match find_first(doc, 0, n, &qs.body) {
        None => {
            let r: Vec<NewsItem> = Vec::new();
            proof {
                assert(items_view(r@) =~= Seq::<NewsItemV>::empty());
            }
            return r;
        },
        Some(b) => b,
    };
    let e = subtree_end_at(doc, b);
    let mut out: Vec<NewsItem> = Vec::new();
    let mut i = b + 1;
    proof {
        assert(items_view(out@) =~= Seq::<NewsItemV>::empty());
        assert(Seq::<NewsItemV>::empty() + items_in(doc@, i as int, e as int, qs@) =~= items_in(
            doc@,
            i as int,
            e as int,
            qs@,
        ));
    }
    while i < e
        invariant
            b + 1 <= i <= e,
            out.len() < MAX_ITEMS,
            items_view(out@) + items_in(doc@, i as int, e as int, qs@) == items_in(
                doc@,
                (b + 1) as int,
                e as int,
                qs@,
            ),
            items_view(out@).len() == out.len(),
        decreases e - i,
    {
        if node_matches_at(doc, i, &qs.article) {
            match extract_article(doc, i, qs) {
                Some(item) => {
                    let ghost before = items_view(out@);
                    let ghost itv = item@;
                    out.push(item);
                    proof {
                        assert(items_view(out@) =~= before.push(itv));
                        assert(items_in(doc@, i as int, e as int, qs@) == seq![itv] + items_in(
                            doc@,
                            i as int + 1,
                            e as int,
                            qs@,
                        ));
                        assert(before.push(itv) + items_in(doc@, i as int + 1, e as int, qs@) =~= (
                        before + (seq![itv] + items_in(doc@, i as int + 1, e as int, qs@))));
                    }
                    if out.len() >= MAX_ITEMS {
                        proof {
                            let all = items_in(doc@, (b + 1) as int, e as int, qs@);
                            let rest = items_in(doc@, i as int + 1, e as int, qs@);
                            assert(all == items_view(out@) + rest);
                            assert(all.take(MAX_ITEMS as int) =~= items_view(out@));
                            assert(items_view(out@) == cap_items(all));
                        }
                        return out;
                    }
                },
                None => {},
            }
        }
        i = i + 1;
    }
    proof {
        assert(items_view(out@) + Seq::<NewsItemV>::empty() =~= items_view(out@));
    }
    out
}

} // verus!
