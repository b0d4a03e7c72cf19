//! The parsed Markdown tree, as far as the converter reads it.

use markdown::mdast::Node;
use vstd::prelude::*;

verus! {

/// A node of the Markdown syntax tree. Kinds the converter has no use for are
/// kept as `Other`, with the parser's own description of the node.
#[derive(Debug)]
pub enum MdNode {
    Paragraph { children: Vec<MdNode> },
    Text { value: String },
    Link { url: String, children: Vec<MdNode> },
    Code { value: String },
    Other { description: String },
}

#[verifier::external_type_specification]
#[verifier::external_body]
pub struct ExMdastNode(Node);

/// The top-level nodes that the parser makes of a Markdown text.
pub uninterp spec fn mdast_of(md: Seq<char>) -> Seq<MdNode>;

/// Relies on markdown::to_mdast with the default (CommonMark) options: the
/// top-level nodes of the document, which depend on the text alone. With MDX
/// off, as the defaults have it, the parser never fails.
#[verifier::external_body]
pub(crate) fn parse_markdown(md: &str) -> (r: Result<Vec<MdNode>, String>)
    ensures
        r is Ok,
        r matches Ok(v) ==> v@ == mdast_of(md@),
{
    let root = markdown::to_mdast(md, &markdown::ParseOptions::default()).map_err(|e| e.to_string())?;
    Ok(root.children().map_or(Vec::new(), |c| c.iter().map(MdNode::from_mdast).collect()))
}

impl MdNode {
    /// Relies on the node types of markdown::mdast: copies a node's kind and
    /// the fields the converter reads, children included, one for one.
    #[verifier::external_body]
    fn from_mdast(n: &Node) -> MdNode {
        match n {
            Node::Paragraph(p) => MdNode::Paragraph { children: p.children.iter().map(MdNode::from_mdast).collect() },
            Node::Text(t) => MdNode::Text { value: t.value.clone() },
            Node::Link(l) => MdNode::Link { url: l.url.clone(), children: l.children.iter().map(MdNode::from_mdast).collect() },
            Node::Code(c) => MdNode::Code { value: c.value.clone() },
            other => MdNode::Other { description: format!("{:?}", other) },
        }
    }

    /// The name of a node's kind, or the parser's description for the others.
    pub open spec fn description(self) -> Seq<char> {
        match self {
            MdNode::Paragraph { .. } => "Paragraph"@,
            MdNode::Text { .. } => "Text"@,
            MdNode::Link { .. } => "Link"@,
            MdNode::Code { .. } => "Code"@,
            MdNode::Other { description } => description@,
        }
    }

    pub fn describe(&self) -> (r: String)
        ensures
            r@ == self.description(),
    {
        match self {
            MdNode::Paragraph { .. } => "Paragraph".to_string(),
            MdNode::Text { .. } => "Text".to_string(),
            MdNode::Link { .. } => "Link".to_string(),
            MdNode::Code { .. } => "Code".to_string(),
            MdNode::Other { description } => description.clone(),
        }
    }
}

} // verus!
