//! Structural queries: declarative patterns that locate elements by tag name,
//! class, or attribute-value prefix, and the fixed set of six queries the
//! extractor works with.

use vstd::prelude::*;
use vstd::string::StringExecFns;

use crate::dom::{Document, NodeData, NodeDataV, NodeV};
use crate::strutil::str_has_prefix;

verus! {

/// A structural query over document elements.
pub enum Query {
    /// Any element with this tag name.
    Tag { tag: String },
    /// Any element whose class list holds this class.
    HasClass { class: String },
    /// An element with this tag name whose class list holds this class.
    TagClass { tag: String, class: String },
    /// An element with this tag name whose named attribute starts with the
    /// given prefix.
    TagAttrPrefix { tag: String, attr: String, prefix: String },
}

/// The mathematical value of a `Query`.
pub enum QueryV {
    Tag { tag: Seq<char> },
    HasClass { class: Seq<char> },
    TagClass { tag: Seq<char>, class: Seq<char> },
    TagAttrPrefix { tag: Seq<char>, attr: Seq<char>, prefix: Seq<char> },
}

impl View for Query {
    type V = QueryV;

    open spec fn view(&self) -> QueryV {
        match self {
            Query::Tag { tag } => QueryV::Tag { tag: tag@ },
            Query::HasClass { class } => QueryV::HasClass { class: class@ },
            Query::TagClass { tag, class } => QueryV::TagClass { tag: tag@, class: class@ },
            Query::TagAttrPrefix { tag, attr, prefix } => QueryV::TagAttrPrefix {
                tag: tag@,
                attr: attr@,
                prefix: prefix@,
            },
        }
    }
}

/// The value of the first attribute with the given name, if any.
pub open spec fn attr_of(attrs: Seq<(Seq<char>, Seq<char>)>, name: Seq<char>) -> Option<Seq<char>>
    decreases attrs.len(),
{
    if attrs.len() == 0 {
        None
    } else if attrs[0].0 == name {
        Some(attrs[0].1)
    } else {
        attr_of(attrs.drop_first(), name)
    }
}

/// Whether an element with the given tag, classes and attributes matches `q`.
pub open spec fn elem_matches(
    tag: Seq<char>,
    classes: Seq<Seq<char>>,
    attrs: Seq<(Seq<char>, Seq<char>)>,
    q: QueryV,
) -> bool {
    match q {
        QueryV::Tag { tag: t } => tag == t,
        QueryV::HasClass { class } => classes.contains(class),
        QueryV::TagClass { tag: t, class } => tag == t && classes.contains(class),
        QueryV::TagAttrPrefix { tag: t, attr, prefix } => tag == t && match attr_of(attrs, attr) {
            Some(v) => prefix.is_prefix_of(v),
            None => false,
        },
    }
}

/// Whether a node is an element that matches `q`; text never matches.
pub open spec fn node_matches(n: NodeV, q: QueryV) -> bool {
    match n.data {
        NodeDataV::Element { tag, classes, attrs } => elem_matches(tag, classes, attrs, q),
        NodeDataV::Text { .. } => false,
    }
}

/// Whether `x` occurs among the strings of `v`.
fn contains_string(v: &Vec<String>, x: &String) -> (r: bool)
    ensures
        r == v@.map_values(|s: String| s@).contains(x@),
{
    let ghost cv = v@.map_values(|s: String| s@);
    let mut k: usize = 0;
    while k < v.len()
        invariant
            0 <= k <= v.len(),
            cv == v@.map_values(|s: String| s@),
            cv.len() == v@.len(),
            forall|m: int| 0 <= m < k ==> cv[m] != x@,
        decreases v.len() - k,
    {
        if v[k].eq(x) {
            proof {
                assert(cv[k as int] == x@);
            }
            return true;
        }
        k = k + 1;
    }
    false
}

/// Look up the first attribute with the given name.
pub(crate) fn find_attr<'a>(attrs: &'a Vec<(String, String)>, name: &String) -> (r: Option<&'a String>)
    ensures
        match r {
            Some(v) => attr_of(
                attrs@.map_values(|p: (String, String)| (p.0@, p.1@)),
                name@,
            ) == Some(v@),
            None => attr_of(
                attrs@.map_values(|p: (String, String)| (p.0@, p.1@)),
                name@,
            ) is None,
        },
{
    let ghost av = attrs@.map_values(|p: (String, String)| (p.0@, p.1@));
    let mut k: usize = 0;
    proof {
        assert(av.skip(0) =~= av);
    }
    while k < attrs.len()
        invariant
            0 <= k <= attrs.len(),
            av == attrs@.map_values(|p: (String, String)| (p.0@, p.1@)),
            av.len() == attrs@.len(),
            attr_of(av, name@) == attr_of(av.skip(k as int), name@),
        decreases attrs.len() - k,
    {
        proof {
            assert(av.skip(k as int)[0] == av[k as int]);
            assert(av.skip(k as int).drop_first() =~= av.skip(k as int + 1));
        }
        if attrs[k].0.eq(name) {
            return Some(&attrs[k].1);
        }
        k = k + 1;
    }
    proof {
        assert(av.skip(attrs@.len() as int) =~= Seq::<(Seq<char>, Seq<char>)>::empty());
    }
    None
}

/// Whether the node at position `i` of the document matches `q`.
pub fn node_matches_at(doc: &Document, i: usize, q: &Query) -> (r: bool)
    requires
        i < doc@.len(),
    ensures
        r == node_matches(doc@[i as int], q@),
{
    proof {
        assert(doc@[i as int] == doc.nodes@[i as int]@);
    }
    match &doc.nodes[i].data {
        NodeData::Text { .. } => false,
        NodeData::Element { tag, classes, attrs } => match q {
            Query::Tag { tag: t } => tag.eq(t),
            Query::HasClass { class } => contains_string(classes, class),
            Query::TagClass { tag: t, class } => tag.eq(t) && contains_string(classes, class),
            Query::TagAttrPrefix { tag: t, attr, prefix } => tag.eq(t) && match find_attr(
                attrs,
                attr,
            ) {
                Some(v) => str_has_prefix(v.as_str(), prefix.as_str()),
                None => false,
            },
        },
    }
}

/// The six fixed queries of the extractor: the article container, the title,
/// the anchor, the summary paragraph, the full-size image, and the page-body
/// container.
pub struct QuerySet {
    pub article: Query,
    pub title: Query,
    pub link: Query,
    pub summary: Query,
    pub image: Query,
    pub body: Query,
}

/// The mathematical value of a `QuerySet`.
pub struct QuerySetV {
    pub article: QueryV,
    pub title: QueryV,
    pub link: QueryV,
    pub summary: QueryV,
    pub image: QueryV,
    pub body: QueryV,
}

impl View for QuerySet {
    type V = QuerySetV;

    open spec fn view(&self) -> QuerySetV {
        QuerySetV {
            article: self.article@,
            title: self.title@,
            link: self.link@,
            summary: self.summary@,
            image: self.image@,
            body: self.body@,
        }
    }
}

/// The fixed values of the six queries.
pub open spec fn fixed_queries() -> QuerySetV {
    QuerySetV {
        article: QueryV::HasClass { class: "bck-media-news"@ },
        title: QueryV::TagClass { tag: "h4"@, class: "title-art-hp"@ },
        link: QueryV::Tag { tag: "a"@ },
        summary: QueryV::TagAttrPrefix { tag: "p"@, attr: "class"@, prefix: "subtitle"@ },
        image: QueryV::TagClass { tag: "img"@, class: "is_full_image"@ },
        body: QueryV::HasClass { class: "body-hp"@ },
    }
}

impl QuerySet {
    /// Build the fixed query set. The queries are constants of the library,
    /// so construction cannot fail; the set is immutable and may be shared
    /// across any number of extractions.
    pub fn new() -> (qs: QuerySet)
        ensures
            qs@ == fixed_queries(),
    {
        QuerySet {
            article: Query::HasClass { class: String::from_str("bck-media-news") },
            title: Query::TagClass {
                tag: String::from_str("h4"),
                class: String::from_str("title-art-hp"),
            },
            link: Query::Tag { tag: String::from_str("a") },
            summary: Query::TagAttrPrefix {
                tag: String::from_str("p"),
                attr: String::from_str("class"),
                prefix: String::from_str("subtitle"),
            },
            image: Query::TagClass {
                tag: String::from_str("img"),
                class: String::from_str("is_full_image"),
            },
            body: Query::HasClass { class: String::from_str("body-hp") },
        }
    }
}

} // verus!
