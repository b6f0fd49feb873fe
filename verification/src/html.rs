//! The bridge to the HTML parser: the parsed tree is transcribed, node for
//! node, into the flat token stream that the rest of the library works on.

use vstd::prelude::*;

use crate::dom::{build_nodes, tokens_view, Document, NodeData, NodeV, Token, TokenV};

verus! {

/// Declares scraper's node type (one node of the parsed tree) so that the
/// transcription below can take it apart.
#[verifier::external_type_specification]
#[verifier::external_body]
pub struct ExNode(scraper::Node);

/// Declares ego_tree's traversal edge (a node as it is entered or left) so
/// that the transcription below can take it apart.
#[verifier::external_type_specification]
#[verifier::external_body]
#[verifier::reject_recursive_types(T)]
pub struct ExEdge<'a, T: 'a>(ego_tree::iter::Edge<'a, T>);

/// The pre-order token stream that parsing a document text yields: a `Node`
/// token as each element or text node is entered, a `Close` token as each
/// element's children end. Parsing is a function of the text alone.
pub uninterp spec fn tokens_of(text: Seq<char>) -> Seq<TokenV>;

/// Relies on scraper::Node: an element edge becomes one token carrying the
/// tag name, class list and attribute pairs; a text edge becomes one token
/// carrying the text; other node kinds carry no content and yield none.
#[verifier::external_body]
fn edge_token(edge: ego_tree::iter::Edge<'_, scraper::Node>) -> (t: Option<Token>) {
    match edge {
        ego_tree::iter::Edge::Open(n) => match n.value() {
            scraper::Node::Element(e) => Some(Token::Node(NodeData::Element {
                tag: e.name().to_string(),
                classes: e.classes().map(|c| c.to_string()).collect(),
                attrs: e.attrs().map(|(k, v)| (k.to_string(), v.to_string())).collect(),
            })),
            scraper::Node::Text(t) => Some(Token::Node(NodeData::Text { content: t.to_string() })),
            _ => None,
        },
        ego_tree::iter::Edge::Close(n) if n.value().is_element() => Some(Token::Close),
        _ => None,
    }
}

/// Relies on scraper::Html::parse_document (an html5ever parse, deterministic
/// in the text) and on the pre-order edge traversal of the parsed tree.
#[verifier::external_body]
fn parse_tokens(text: &str) -> (r: Vec<Token>)
    ensures
        tokens_view(r@) == tokens_of(text@),
{
    let html = scraper::Html::parse_document(text);
    html.root_element().traverse().filter_map(edge_token).collect()
}

/// The document that parsing a given text yields.
pub open spec fn doc_of(text: Seq<char>) -> Seq<NodeV> {
    build_nodes(tokens_of(text))
}

/// Parse a document text into the flat document model.
pub fn parse_document(text: &str) -> (d: Document)
    ensures
        d@ == doc_of(text@),
{
    let toks = parse_tokens(text);
    Document::from_tokens(&toks)
}

} // verus!
