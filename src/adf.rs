//! The target document tree and the builders that fill it.

use vstd::prelude::*;

verus! {

/// An annotation on a text node. A link is the only kind there is.
#[derive(Debug)]
pub enum Mark {
    Link { href: String },
}

/// An inline leaf: literal text and the marks applied to it.
#[derive(Debug)]
pub struct Text {
    pub text: String,
    pub marks: Vec<Mark>,
}

#[derive(Debug)]
pub struct Paragraph {
    pub content: Vec<AdfNode>,
}

#[derive(Debug)]
pub struct CodeBlock {
    pub content: Vec<AdfNode>,
}

/// A node of the document tree, told apart by its `type` on the wire.
#[derive(Debug)]
pub enum AdfNode {
    Paragraph(Paragraph),
    CodeBlock(CodeBlock),
    Text(Text),
    Mark(Mark),
}

impl Text {
    /// A text node without marks.
    pub fn new(text: &str) -> (r: Text)
        ensures
            r.text@ == text@,
            r.marks@.len() == 0,
    {
        Text { text: text.to_string(), marks: Vec::new() }
    }

    /// Appends `mark` to the marks of this node.
    pub fn add_mark(&mut self, mark: Mark)
        ensures
            final(self).text == old(self).text,
            final(self).marks@ == old(self).marks@.push(mark),
    {
        self.marks.push(mark);
    }
}

impl Paragraph {
    /// An empty paragraph.
    pub fn new() -> (r: Paragraph)
        ensures
            r.content@.len() == 0,
    {
        Paragraph { content: Vec::new() }
    }
}

impl CodeBlock {
    /// An empty code block.
    pub fn new() -> (r: CodeBlock)
        ensures
            r.content@.len() == 0,
    {
        CodeBlock { content: Vec::new() }
    }
}

/// The root of a finished document.
#[derive(Debug)]
pub struct Document {
    pub content: Vec<AdfNode>,
    pub version: u32,
}

/// The schema version that every document carries.
pub const SCHEMA_VERSION: u32 = 1;

/// `n` is a text node holding `s`, with no marks.
pub open spec fn is_plain_text(n: AdfNode, s: Seq<char>) -> bool {
    &&& n matches AdfNode::Text(t)
    &&& t.text@ == s
    &&& t.marks@.len() == 0
}

/// `n` is a text node holding `s`, with one mark: a link to `href`.
pub open spec fn is_link_text(n: AdfNode, s: Seq<char>, href: Seq<char>) -> bool {
    &&& n matches AdfNode::Text(t)
    &&& t.text@ == s
    &&& t.marks@.len() == 1
    &&& t.marks@[0] matches Mark::Link { href: h }
    &&& h@ == href
}

/// Inline content: a text node.
pub open spec fn is_inline(n: AdfNode) -> bool {
    n is Text
}

pub open spec fn all_inline(s: Seq<AdfNode>) -> bool {
    forall|i: int| 0 <= i < s.len() ==> is_inline(#[trigger] s[i])
}

/// Block content: a paragraph or a code block, each holding inline content only.
pub open spec fn is_block(n: AdfNode) -> bool {
    match n {
        AdfNode::Paragraph(p) => all_inline(p.content@),
        AdfNode::CodeBlock(c) => all_inline(c.content@),
        _ => false,
    }
}

pub open spec fn all_blocks(s: Seq<AdfNode>) -> bool {
    forall|i: int| 0 <= i < s.len() ==> is_block(#[trigger] s[i])
}

impl Document {
    /// The root holds blocks only and carries the schema version.
    pub open spec fn wf(&self) -> bool {
        &&& self.version == SCHEMA_VERSION
        &&& all_blocks(self.content@)
    }
}

/// Appends inline content to one paragraph of a document.
pub struct ParagraphBuilder<'a> {
    pub paragraph: &'a mut Paragraph,
}

impl<'a> ParagraphBuilder<'a> {
    pub fn new(paragraph: &'a mut Paragraph) -> (r: Self)
        ensures
            *r.paragraph == *old(paragraph),
            *final(r.paragraph) == *final(paragraph),
    {
        ParagraphBuilder { paragraph }
    }

    /// Appends a text node without marks.
    pub fn text(self, text: &str) -> (r: Self)
        ensures
            r.paragraph.content@.len() == old(self.paragraph).content@.len() + 1,
            r.paragraph.content@.drop_last() == old(self.paragraph).content@,
            is_plain_text(r.paragraph.content@.last(), text@),
            *final(r.paragraph) == *final(self.paragraph),
    {
        self.paragraph.content.push(AdfNode::Text(Text::new(text)));
        self
    }

    /// Appends a text node showing `text` and carrying a link to `url`.
    pub fn link(self, text: &str, url: &str) -> (r: Self)
        ensures
            r.paragraph.content@.len() == old(self.paragraph).content@.len() + 1,
            r.paragraph.content@.drop_last() == old(self.paragraph).content@,
            is_link_text(r.paragraph.content@.last(), text@, url@),
            *final(r.paragraph) == *final(self.paragraph),
    {
        let mut node = Text::new(text);
        node.add_mark(Mark::Link { href: url.to_string() });
        self.paragraph.content.push(AdfNode::Text(node));
        self
    }
}

/// Appends inline content to one code block of a document.
pub struct CodeBlockBuilder<'a> {
    pub code_block: &'a mut CodeBlock,
}

impl<'a> CodeBlockBuilder<'a> {
    pub fn new(code_block: &'a mut CodeBlock) -> (r: Self)
        ensures
            *r.code_block == *old(code_block),
            *final(r.code_block) == *final(code_block),
    {
        CodeBlockBuilder { code_block }
    }

    /// Appends a text node without marks.
    pub fn text(self, text: &str) -> (r: Self)
        ensures
            r.code_block.content@.len() == old(self.code_block).content@.len() + 1,
            r.code_block.content@.drop_last() == old(self.code_block).content@,
            is_plain_text(r.code_block.content@.last(), text@),
            *final(r.code_block) == *final(self.code_block),
    {
        self.code_block.content.push(AdfNode::Text(Text::new(text)));
        self
    }
}

/// Accumulates the blocks of a document, one after another.
#[derive(Debug)]
pub struct DocumentBuilder {
    pub content: Vec<AdfNode>,
}

impl DocumentBuilder {
    pub fn new() -> (r: Self)
        ensures
            r.content@.len() == 0,
    {
        DocumentBuilder { content: Vec::new() }
    }

    /// Appends an empty paragraph and hands back a builder for it.
    pub fn paragraph(&mut self) -> (r: ParagraphBuilder<'_>)
        ensures
            r.paragraph.content@.len() == 0,
            final(self).content@ == old(self).content@.push(AdfNode::Paragraph(*final(r.paragraph))),
    {
        self.content.push(AdfNode::Paragraph(Paragraph::new()));
        let last: usize = self.content.len() - 1;
        let slot: Option<&mut Paragraph> = match &mut self.content[last] {
            AdfNode::Paragraph(p) => Some(p),
            _ => None,
        };
        ParagraphBuilder::new(slot.unwrap())
    }

    /// Appends an empty code block and hands back a builder for it.
    pub fn code_block(&mut self) -> (r: CodeBlockBuilder<'_>)
        ensures
            r.code_block.content@.len() == 0,
            final(self).content@ == old(self).content@.push(AdfNode::CodeBlock(*final(r.code_block))),
    {
        self.content.push(AdfNode::CodeBlock(CodeBlock::new()));
        let last: usize = self.content.len() - 1;
        let slot: Option<&mut CodeBlock> = match &mut self.content[last] {
            AdfNode::CodeBlock(c) => Some(c),
            _ => None,
        };
        CodeBlockBuilder::new(slot.unwrap())
    }

    /// Wraps the blocks gathered so far in the document root.
    pub fn build(self) -> (r: Document)
        ensures
            r.content == self.content,
            r.version == SCHEMA_VERSION,
    {
        Document { content: self.content, version: SCHEMA_VERSION }
    }
}

} // verus!
