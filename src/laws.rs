//! Properties of the conversion that hold for every input.

use crate::adf::{all_blocks, is_block, AdfNode, Document, Mark, Text};
use crate::convert::{
    all_supported, converts, converts_block, converts_inline, display_text, is_json_of,
    is_supported_block,
};
use crate::mdtree::MdNode;
use crate::render::{
    block_json, document_json, inline_json, join, json_string_of, mark_json, marks_json, text_json,
};
use vstd::prelude::*;

verus! {

proof fn lemma_inline_json_determined(a1: AdfNode, a2: AdfNode, m: MdNode)
    requires
        converts_inline(a1, m),
        converts_inline(a2, m),
    ensures
        inline_json(a1) == inline_json(a2),
{
    let t1 = a1->Text_0;
    let t2 = a2->Text_0;
    if t1.marks@.len() > 0 {
        assert(mark_json(t1.marks@[0]) == mark_json(t2.marks@[0]));
        assert(t1.marks@.map_values(|k: Mark| mark_json(k)) =~= t2.marks@.map_values(
            |k: Mark| mark_json(k),
        ));
    }
}

proof fn lemma_block_json_determined(a1: AdfNode, a2: AdfNode, m: MdNode)
    requires
        converts_block(a1, m),
        converts_block(a2, m),
    ensures
        block_json(a1) == block_json(a2),
{
    let (c1, c2) = match (a1, a2) {
        (AdfNode::Paragraph(p1), AdfNode::Paragraph(p2)) => (p1.content@, p2.content@),
        (AdfNode::CodeBlock(b1), AdfNode::CodeBlock(b2)) => (b1.content@, b2.content@),
        _ => (Seq::empty(), Seq::empty()),
    };
    assert forall|k: int| 0 <= k < c1.len() implies inline_json(c1[k]) == inline_json(c2[k]) by {
        match m {
            MdNode::Paragraph { children } => lemma_inline_json_determined(c1[k], c2[k], children@[k]),
            _ => {},
        }
    }
    assert(c1.map_values(|n: AdfNode| inline_json(n)) =~= c2.map_values(|n: AdfNode| inline_json(n)));
}

/// Converting the same Markdown nodes twice gives the same JSON text: the
/// text depends on the nodes alone. (Whether a conversion succeeds depends on
/// them alone too: see `convert_to_json` and `from_markdown`.)
pub proof fn lemma_json_deterministic(nodes: Seq<MdNode>, s1: Seq<char>, s2: Seq<char>)
    requires
        is_json_of(nodes, s1),
        is_json_of(nodes, s2),
    ensures
        s1 == s2,
{
    let d1 = choose|d: Document| d.wf() && converts(d.content@, nodes) && s1 == document_json(d);
    let d2 = choose|d: Document| d.wf() && converts(d.content@, nodes) && s2 == document_json(d);
    assert forall|i: int| 0 <= i < nodes.len() implies block_json(d1.content@[i]) == block_json(
        d2.content@[i],
    ) by {
        lemma_block_json_determined(d1.content@[i], d2.content@[i], nodes[i]);
    }
    assert(d1.content@.map_values(|n: AdfNode| block_json(n)) =~= d2.content@.map_values(
        |n: AdfNode| block_json(n),
    ));
}

/// The inline nodes of a block.
pub open spec fn block_content(n: AdfNode) -> Seq<AdfNode> {
    match n {
        AdfNode::Paragraph(p) => p.content@,
        AdfNode::CodeBlock(c) => c.content@,
        _ => Seq::empty(),
    }
}

/// Every node of `s` is a text node with at most one mark.
pub open spec fn texts_with_at_most_one_mark(s: Seq<AdfNode>) -> bool {
    forall|k: int|
        0 <= k < s.len() ==> (#[trigger] s[k] is Text && s[k]->Text_0.marks@.len() <= 1)
}

/// What the Markdown nodes become is a well-formed document body: paragraphs
/// and code blocks only, holding text nodes with at most one mark, a link.
pub proof fn lemma_converted_shape(content: Seq<AdfNode>, nodes: Seq<MdNode>)
    requires
        converts(content, nodes),
    ensures
        all_blocks(content),
        forall|i: int|
            0 <= i < content.len() ==> (#[trigger] content[i] is Paragraph || content[i] is CodeBlock)
                && texts_with_at_most_one_mark(block_content(content[i])),
{
    assert forall|i: int| 0 <= i < content.len() implies is_block(#[trigger] content[i])
        && texts_with_at_most_one_mark(block_content(content[i])) by {
        assert(converts_block(content[i], nodes[i]));
        let c = block_content(content[i]);
        assert forall|k: int| 0 <= k < c.len() implies (#[trigger] c[k] is Text
            && c[k]->Text_0.marks@.len() <= 1) by {
            match nodes[i] {
                MdNode::Paragraph { children } => assert(converts_inline(c[k], children@[k])),
                _ => {},
            }
        }
    }
}

proof fn lemma_join_nonempty(parts: Seq<Seq<char>>)
    requires
        parts.len() > 0,
        forall|i: int| 0 <= i < parts.len() ==> (#[trigger] parts[i]).len() > 0,
    ensures
        join(parts).len() > 0,
    decreases parts.len(),
{
    if parts.len() > 1 {
        assert(parts.last() == parts[parts.len() - 1]);
    }
}

/// A text node without marks is written with no `marks` field; one with marks
/// is written with a `marks` array that is not empty.
pub proof fn lemma_mark_omission(t: Text)
    ensures
        t.marks@.len() == 0 ==> text_json(t) == "{\"type\":\"text\",\"text\":"@ + json_string_of(
            t.text@,
        ) + "}"@,
        t.marks@.len() > 0 ==> text_json(t) == "{\"type\":\"text\",\"text\":"@ + json_string_of(
            t.text@,
        ) + ",\"marks\":["@ + marks_json(t.marks@) + "]}"@ && marks_json(t.marks@).len() > 0,
{
    if t.marks@.len() > 0 {
        let parts = t.marks@.map_values(|m: Mark| mark_json(m));
        assert forall|i: int| 0 <= i < parts.len() implies (#[trigger] parts[i]).len() > 0 by {
            reveal_strlit("{\"type\":\"link\",\"attrs\":{\"href\":");
        }
        lemma_join_nonempty(parts);
        assert(("{\"type\":\"text\",\"text\":"@ + json_string_of(t.text@)) + (",\"marks\":["@
            + marks_json(t.marks@) + "]}"@) =~= "{\"type\":\"text\",\"text\":"@ + json_string_of(
            t.text@,
        ) + ",\"marks\":["@ + marks_json(t.marks@) + "]}"@);
    }
}

/// A document with a top-level node outside the supported subset, or with a
/// paragraph holding such an inline node, is refused as a whole.
pub proof fn lemma_allow_list(nodes: Seq<MdNode>, i: int)
    requires
        0 <= i < nodes.len(),
        nodes[i] is Other || nodes[i] is Text || nodes[i] is Link || (nodes[i] matches MdNode::Paragraph {
            children,
        } && exists|k: int| 0 <= k < children@.len() && !(#[trigger] children@[k] is Text || children@[k] is Link)),
    ensures
        !all_supported(nodes),
{
    assert(!is_supported_block(nodes[i]));
}

/// A link shows the text of its first child where that child is text, and
/// its URL where it has no children or the first one is not text.
pub proof fn lemma_link_display_text(url: Seq<char>, children: Seq<MdNode>)
    ensures
        children.len() > 0 ==> (children[0] matches MdNode::Text { value } ==> display_text(
            url,
            children,
        ) == value@),
        children.len() == 0 || !(children[0] is Text) ==> display_text(url, children) == url,
{
}

} // verus!
