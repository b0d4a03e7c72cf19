//! The walk from the Markdown tree to the document tree, under an allow-list.

use crate::adf::{
    all_blocks, is_link_text, is_plain_text, AdfNode, Document, DocumentBuilder,
};
use crate::mdtree::{mdast_of, parse_markdown, MdNode};
use crate::render::{document_json, render_document};
use vstd::prelude::*;

verus! {

/// Why a conversion failed.
#[derive(Debug)]
pub enum ConvertError {
    /// A node of a kind outside the supported subset; holds its description.
    UnsupportedNode { description: String },
}

/// Inline kinds a paragraph may hold.
pub open spec fn is_supported_inline(n: MdNode) -> bool {
    n is Text || n is Link
}

/// Block kinds a document may hold: code, and paragraphs of supported inline kinds.
pub open spec fn is_supported_block(n: MdNode) -> bool {
    match n {
        MdNode::Paragraph { children } => forall|k: int|
            0 <= k < children@.len() ==> is_supported_inline(#[trigger] children@[k]),
        MdNode::Code { .. } => true,
        _ => false,
    }
}

pub open spec fn all_supported(nodes: Seq<MdNode>) -> bool {
    forall|i: int| 0 <= i < nodes.len() ==> is_supported_block(#[trigger] nodes[i])
}

/// The text shown for a link: its first child when that is text, else the URL.
pub open spec fn display_text(url: Seq<char>, children: Seq<MdNode>) -> Seq<char> {
    if children.len() > 0 && children[0] is Text {
        match children[0] {
            MdNode::Text { value } => value@,
            _ => url,
        }
    } else {
        url
    }
}

/// `a` is what the inline node `m` becomes.
pub open spec fn converts_inline(a: AdfNode, m: MdNode) -> bool {
    match m {
        MdNode::Text { value } => is_plain_text(a, value@),
        MdNode::Link { url, children } => is_link_text(a, display_text(url@, children@), url@),
        _ => false,
    }
}

/// `a` is what the block node `m` becomes.
pub open spec fn converts_block(a: AdfNode, m: MdNode) -> bool {
    match m {
        MdNode::Paragraph { children } => {
            &&& a matches AdfNode::Paragraph(p)
            &&& p.content@.len() == children@.len()
            &&& forall|k: int|
                0 <= k < children@.len() ==> converts_inline(#[trigger] p.content@[k], children@[k])
        },
        MdNode::Code { value } => {
            &&& a matches AdfNode::CodeBlock(c)
            &&& c.content@.len() == 1
            &&& is_plain_text(c.content@[0], value@)
        },
        _ => false,
    }
}

/// `content` is what the blocks `nodes` become, one for one and in order.
pub open spec fn converts(content: Seq<AdfNode>, nodes: Seq<MdNode>) -> bool {
    &&& content.len() == nodes.len()
    &&& forall|i: int| 0 <= i < nodes.len() ==> converts_block(#[trigger] content[i], nodes[i])
}

/// Among inline nodes `children`, the first unsupported one is described by `d`.
pub open spec fn refuses_inline(children: Seq<MdNode>, d: Seq<char>) -> bool {
    exists|k: int|
        0 <= k < children.len() && (forall|j: int|
            0 <= j < k ==> is_supported_inline(#[trigger] children[j]))
            && !is_supported_inline(#[trigger] children[k]) && children[k].description() == d
}

/// Block `n` is refused, and `d` describes the node that stops it: the first
/// unsupported child of a paragraph, or the block itself.
pub open spec fn refuses_block(n: MdNode, d: Seq<char>) -> bool {
    match n {
        MdNode::Paragraph { children } => refuses_inline(children@, d),
        MdNode::Code { .. } => false,
        _ => n.description() == d,
    }
}

/// The first refused block among `nodes` is described by `d`.
pub open spec fn first_refusal(nodes: Seq<MdNode>, d: Seq<char>) -> bool {
    exists|i: int|
        0 <= i < nodes.len() && (forall|j: int| 0 <= j < i ==> is_supported_block(#[trigger] nodes[j]))
            && #[trigger] refuses_block(nodes[i], d)
}

/// Maps the top-level Markdown nodes to a document, or fails on the first
/// node outside the supported subset.
pub fn convert(nodes: &Vec<MdNode>) -> (r: Result<Document, ConvertError>)
    ensures
        r is Ok <==> all_supported(nodes@),
        r matches Ok(d) ==> d.wf() && converts(d.content@, nodes@),
        r matches Err(e) ==> (e matches ConvertError::UnsupportedNode { description }
            && first_refusal(nodes@, description@)),
{
    let mut builder = DocumentBuilder::new();
    let mut i: usize = 0;
    while i < nodes.len()
        invariant
            0 <= i <= nodes.len(),
            builder.content@.len() == i,
            all_blocks(builder.content@),
            forall|j: int| 0 <= j < i ==> is_supported_block(#[trigger] nodes@[j]),
            forall|j: int| 0 <= j < i ==> converts_block(#[trigger] builder.content@[j], nodes@[j]),
        decreases nodes.len() - i,
    {
        match &nodes[i] {
            MdNode::Paragraph { children } => {
                let ghost before = builder.content@;
                let mut paragraph = builder.paragraph();
                let mut k: usize = 0;
                while k < children.len()
                    invariant
                        0 <= k <= children.len(),
                        i < nodes.len(),
                        nodes@[i as int] == (MdNode::Paragraph { children: *children }),
                        forall|j: int| 0 <= j < i ==> is_supported_block(#[trigger] nodes@[j]),
                        after_borrow(builder).content@ == before.push(
                            AdfNode::Paragraph(*final(paragraph.paragraph)),
                        ),
                        paragraph.paragraph.content@.len() == k,
                        forall|j: int| 0 <= j < k ==> is_supported_inline(#[trigger] children@[j]),
                        forall|j: int|
                            0 <= j < k ==> converts_inline(
                                #[trigger] paragraph.paragraph.content@[j],
                                children@[j],
                            ),
                    decreases children.len() - k,
                {
                    let ghost prev = paragraph.paragraph.content@;
                    paragraph = match &children[k] {
                        MdNode::Text { value } => paragraph.text(value.as_str()),
                        MdNode::Link { url, children: inner } => {
                            let text: &str = if inner.len() > 0 {
                                match &inner[0] {
                                    MdNode::Text { value } => value.as_str(),
                                    _ => url.as_str(),
                                }
                            } else {
                                url.as_str()
                            };
                            paragraph.link(text, url.as_str())
                        },
                        other => {
                            proof {
                                assert(!is_supported_inline(children@[k as int]));
                                assert(refuses_inline(children@, other.description()));
                                assert(refuses_block(nodes@[i as int], other.description()));
                                assert(!is_supported_block(nodes@[i as int]));
                            }
                            return Err(ConvertError::UnsupportedNode { description: other.describe() });
                        },
                    };
                    proof {
                        assert forall|j: int| 0 <= j < k implies converts_inline(
                            #[trigger] paragraph.paragraph.content@[j],
                            children@[j],
                        ) by {
                            assert(paragraph.paragraph.content@[j] == prev[j]);
                        }
                    }
                    k = k + 1;
                }
            },
            MdNode::Code { value } => {
                builder.code_block().text(value.as_str());
            },
            other => {
                proof {
                    assert(refuses_block(nodes@[i as int], other.description()));
                    assert(!is_supported_block(nodes@[i as int]));
                }
                return Err(ConvertError::UnsupportedNode { description: other.describe() });
            },
        }
        i = i + 1;
    }
    Ok(builder.build())
}

/// `s` is the JSON text of a document made of what the blocks `nodes` become.
pub open spec fn is_json_of(nodes: Seq<MdNode>, s: Seq<char>) -> bool {
    exists|d: Document| d.wf() && converts(d.content@, nodes) && s == #[trigger] document_json(d)
}

/// The JSON text of the document that the top-level Markdown nodes become,
/// or the first node outside the supported subset.
pub fn convert_to_json(nodes: &Vec<MdNode>) -> (r: Result<String, ConvertError>)
    ensures
        r is Ok <==> all_supported(nodes@),
        r matches Ok(s) ==> is_json_of(nodes@, s@),
        r matches Err(ConvertError::UnsupportedNode { description }) ==> first_refusal(
            nodes@,
            description@,
        ),
{
    let doc = convert(nodes)?;
    let s = render_document(&doc);
    proof {
        assert(doc.wf() && converts(doc.content@, nodes@) && s@ == document_json(doc));
    }
    Ok(s)
}

/// Parses Markdown text and converts it to the JSON text of a document, or
/// names the first node outside the supported subset.
pub fn from_markdown(md: &str) -> (r: Result<String, ConvertError>)
    ensures
        r is Ok <==> all_supported(mdast_of(md@)),
        r matches Ok(s) ==> is_json_of(mdast_of(md@), s@),
        r matches Err(ConvertError::UnsupportedNode { description }) ==> first_refusal(
            mdast_of(md@),
            description@,
        ),
{
    let nodes = parse_markdown(md).unwrap();
    convert_to_json(&nodes)
}

} // verus!
