//! The document model: a parsed page as a flat sequence of nodes in document
//! (pre-order) order, each annotated with its depth in the tree. The subtree
//! of a node consists of the nodes that follow it while their depth stays
//! greater; this is all the extraction queries need.

use vstd::prelude::*;

verus! {

/// What one node of the document holds: an element (lowercased tag name, the
/// class list, the attribute pairs) or a chunk of text.
pub enum NodeData {
    Element { tag: String, classes: Vec<String>, attrs: Vec<(String, String)> },
    Text { content: String },
}

/// The mathematical value of a `NodeData`.
pub enum NodeDataV {
    Element { tag: Seq<char>, classes: Seq<Seq<char>>, attrs: Seq<(Seq<char>, Seq<char>)> },
    Text { content: Seq<char> },
}

impl View for NodeData {
    type V = NodeDataV;

    open spec fn view(&self) -> NodeDataV {
        match self {
            NodeData::Element { tag, classes, attrs } => NodeDataV::Element {
                tag: tag@,
                classes: classes@.map_values(|c: String| c@),
                attrs: attrs@.map_values(|p: (String, String)| (p.0@, p.1@)),
            },
            NodeData::Text { content } => NodeDataV::Text { content: content@ },
        }
    }
}

/// One node of the flattened document.
pub struct FlatNode {
    pub depth: usize,
    pub data: NodeData,
}

/// The mathematical value of a `FlatNode`.
pub struct NodeV {
    pub depth: nat,
    pub data: NodeDataV,
}

impl View for FlatNode {
    type V = NodeV;

    open spec fn view(&self) -> NodeV {
        NodeV { depth: self.depth as nat, data: self.data@ }
    }
}

/// One event of a pre-order walk of the parsed tree: a node as it is entered,
/// or the end of an element's children.
pub enum Token {
    Node(NodeData),
    Close,
}

/// The mathematical value of a `Token`.
pub enum TokenV {
    Node(NodeDataV),
    Close,
}

impl View for Token {
    type V = TokenV;

    open spec fn view(&self) -> TokenV {
        match self {
            Token::Node(d) => TokenV::Node(d@),
            Token::Close => TokenV::Close,
        }
    }
}

/// The views of a sequence of tokens.
pub open spec fn tokens_view(s: Seq<Token>) -> Seq<TokenV> {
    s.map_values(|t: Token| t@)
}

/// The depth of the children of a node entered at `depth`: one more for an
/// element, unchanged for text, which has no children.
pub open spec fn enter_depth(d: NodeDataV, depth: nat) -> nat {
    match d {
        NodeDataV::Element { .. } => depth + 1,
        NodeDataV::Text { .. } => depth,
    }
}

/// The flat, depth-annotated node list that a token stream describes, reading
/// the stream at the given depth. A surplus `Close` leaves depth at zero.
pub open spec fn build_rec(toks: Seq<TokenV>, depth: nat) -> Seq<NodeV>
    decreases toks.len(),
{
    if toks.len() == 0 {
        Seq::empty()
    } else {
        match toks[0] {
            TokenV::Node(d) => seq![NodeV { depth, data: d }] + build_rec(
                toks.drop_first(),
                enter_depth(d, depth),
            ),
            TokenV::Close => build_rec(
                toks.drop_first(),
                if depth > 0 {
                    (depth - 1) as nat
                } else {
                    0
                },
            ),
        }
    }
}

/// The document a token stream describes.
pub open spec fn build_nodes(toks: Seq<TokenV>) -> Seq<NodeV> {
    build_rec(toks, 0)
}

/// A parsed document, flattened in document order.
pub struct Document {
    pub nodes: Vec<FlatNode>,
}

impl View for Document {
    type V = Seq<NodeV>;

    open spec fn view(&self) -> Seq<NodeV> {
        self.nodes@.map_values(|n: FlatNode| n@)
    }
}

/// Copy a vector of strings.
fn copy_strings(v: &Vec<String>) -> (r: Vec<String>)
    ensures
        r@.map_values(|s: String| s@) == v@.map_values(|s: String| s@),
        r@.len() == v@.len(),
{
    let mut r: Vec<String> = Vec::new();
    let mut k: usize = 0;
    while k < v.len()
        invariant
            0 <= k <= v.len(),
            r@.len() == k,
            forall|m: int| 0 <= m < k ==> r@[m]@ == v@[m]@,
        decreases v.len() - k,
    {
        r.push(v[k].clone());
        k = k + 1;
    }
    proof {
        assert(r@.map_values(|s: String| s@) =~= v@.map_values(|s: String| s@));
    }
    r
}

/// Copy a vector of attribute pairs.
fn copy_pairs(v: &Vec<(String, String)>) -> (r: Vec<(String, String)>)
    ensures
        r@.map_values(|p: (String, String)| (p.0@, p.1@)) == v@.map_values(
            |p: (String, String)| (p.0@, p.1@),
        ),
{
    let mut r: Vec<(String, String)> = Vec::new();
    let mut k: usize = 0;
    while k < v.len()
        invariant
            0 <= k <= v.len(),
            r@.len() == k,
            forall|m: int| 0 <= m < k ==> r@[m].0@ == v@[m].0@ && r@[m].1@ == v@[m].1@,
        decreases v.len() - k,
    {
        let p = (v[k].0.clone(), v[k].1.clone());
        r.push(p);
        k = k + 1;
    }
    proof {
        assert(r@.map_values(|p: (String, String)| (p.0@, p.1@)) =~= v@.map_values(
            |p: (String, String)| (p.0@, p.1@),
        ));
    }
    r
}

/// Copy one node datum.
fn copy_data(d: &NodeData) -> (r: NodeData)
    ensures
        r@ == d@,
{
    match d {
        NodeData::Element { tag, classes, attrs } => NodeData::Element {
            tag: tag.clone(),
            classes: copy_strings(classes),
            attrs: copy_pairs(attrs),
        },
        NodeData::Text { content } => NodeData::Text { content: content.clone() },
    }
}

impl Document {
    /// Flatten a pre-order token stream into the node list it describes.
    pub fn from_tokens(toks: &Vec<Token>) -> (d: Document)
        ensures
            d@ == build_nodes(tokens_view(toks@)),
    {
        let ghost tv = tokens_view(toks@);
        let mut nodes: Vec<FlatNode> = Vec::new();
        let mut depth: usize = 0;
        let mut i: usize = 0;
        proof {
            assert(tv.skip(0) =~= tv);
            assert(nodes@.map_values(|n: FlatNode| n@) =~= Seq::<NodeV>::empty());
            assert(Seq::<NodeV>::empty() + build_nodes(tv) =~= build_nodes(tv));
        }
        while i < toks.len()
            invariant
                0 <= i <= toks.len(),
                depth <= i,
                tv == tokens_view(toks@),
                tv.len() == toks@.len(),
                nodes@.map_values(|n: FlatNode| n@) + build_rec(tv.skip(i as int), depth as nat)
                    == build_nodes(tv),
            decreases toks.len() - i,
        {
            let ghost rest = tv.skip(i as int);
            proof {
                assert(rest[0] == tv[i as int]);
                assert(rest.drop_first() =~= tv.skip(i as int + 1));
            }
            match &toks[i] {
                Token::Node(d) => {
                    let nd = copy_data(d);
                    let is_elem = match &nd {
                        NodeData::Element { .. } => true,
                        NodeData::Text { .. } => false,
                    };
                    let node = FlatNode { depth, data: nd };
                    let ghost before = nodes@.map_values(|n: FlatNode| n@);
                    nodes.push(node);
                    proof {
                        assert(nodes@.map_values(|n: FlatNode| n@) =~= before + seq![
                            NodeV { depth: depth as nat, data: d@ },
                        ]);
                        assert(before + (seq![NodeV { depth: depth as nat, data: d@ }]
                            + build_rec(rest.drop_first(), enter_depth(d@, depth as nat))) =~= (
                        before + seq![NodeV { depth: depth as nat, data: d@ }]) + build_rec(
                            rest.drop_first(),
                            enter_depth(d@, depth as nat),
                        ));
                    }
                    if is_elem {
                        depth = depth + 1;
                    }
                }
                Token::Close => {
                    if depth > 0 {
                        depth = depth - 1;
                    }
                }
            }
            i = i + 1;
        }
        proof {
            assert(tv.skip(toks@.len() as int) =~= Seq::<TokenV>::empty());
            assert(nodes@.map_values(|n: FlatNode| n@) + Seq::<NodeV>::empty() =~= nodes@
                .map_values(|n: FlatNode| n@));
        }
        Document { nodes }
    }
}

} // verus!
