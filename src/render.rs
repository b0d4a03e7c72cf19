//! The JSON text of a document.

use crate::adf::{all_blocks, all_inline, AdfNode, Document, Mark, Text};
use vstd::prelude::*;

verus! {

#[verifier::external_type_specification]
#[verifier::external_body]
pub struct ExJsonError(serde_json::Error);

/// The lowercase hexadecimal digit for `n` below 16.
pub open spec fn hex_digit(n: u32) -> char {
    "0123456789abcdef"@[n as int]
}

/// How one character stands inside a JSON string literal: a quote, a
/// backslash and the control characters below 0x20 are escaped, the short
/// forms where JSON has them; every other character stands as it is.
pub open spec fn escape_char(c: char) -> Seq<char> {
    if c == '"' {
        "\\\""@
    } else if c == '\\' {
        "\\\\"@
    } else if c == '\x08' {
        "\\b"@
    } else if c == '\t' {
        "\\t"@
    } else if c == '\n' {
        "\\n"@
    } else if c == '\x0c' {
        "\\f"@
    } else if c == '\r' {
        "\\r"@
    } else if (c as u32) < 0x20 {
        "\\u00"@ + seq![hex_digit((c as u32) / 16), hex_digit((c as u32) % 16)]
    } else {
        seq![c]
    }
}

/// The JSON string literal for `s`: its characters, escaped, between quotes.
pub open spec fn json_string_of(s: Seq<char>) -> Seq<char> {
    "\""@ + s.map_values(|c: char| escape_char(c)).flatten() + "\""@
}

/// Relies on serde_json::to_string for a `str`: the string literal that
/// serde_json's escape table gives, written into a `Vec`, which cannot fail.
#[verifier::external_body]
fn encode_str(s: &str) -> (r: Result<String, serde_json::Error>)
    ensures
        r is Ok,
        r matches Ok(t) ==> t@ == json_string_of(s@),
{
    serde_json::to_string(s)
}

/// `parts` one after another, with a comma between each two.
pub open spec fn join(parts: Seq<Seq<char>>) -> Seq<char>
    decreases parts.len(),
{
    if parts.len() == 0 {
        Seq::empty()
    } else if parts.len() == 1 {
        parts[0]
    } else {
        join(parts.drop_last()) + ","@ + parts.last()
    }
}

/// The separator that goes before part `i` of a joined list.
pub open spec fn separator(i: int) -> Seq<char> {
    if i == 0 {
        Seq::empty()
    } else {
        ","@
    }
}

pub proof fn lemma_join_step(parts: Seq<Seq<char>>, i: int)
    requires
        0 <= i < parts.len(),
    ensures
        join(parts.take(i + 1)) == join(parts.take(i)) + separator(i) + parts[i],
{
    let next = parts.take(i + 1);
    assert(next.drop_last() =~= parts.take(i));
    assert(next.last() == parts[i]);
    if i == 0 {
        assert(parts.take(0) =~= Seq::<Seq<char>>::empty());
        assert(join(parts.take(0)) == Seq::<char>::empty());
        assert(Seq::<char>::empty() + Seq::<char>::empty() + parts[0] =~= parts[0]);
    }
}

pub open spec fn mark_json(m: Mark) -> Seq<char> {
    match m {
        Mark::Link { href } => "{\"type\":\"link\",\"attrs\":{\"href\":"@ + json_string_of(href@) + "}}"@,
    }
}

pub open spec fn marks_json(marks: Seq<Mark>) -> Seq<char> {
    join(marks.map_values(|m: Mark| mark_json(m)))
}

/// A text node; the `marks` field only where there are marks.
pub open spec fn text_json(t: Text) -> Seq<char> {
    "{\"type\":\"text\",\"text\":"@ + json_string_of(t.text@) + if t.marks@.len() == 0 {
        "}"@
    } else {
        ",\"marks\":["@ + marks_json(t.marks@) + "]}"@
    }
}

pub open spec fn inline_json(n: AdfNode) -> Seq<char> {
    match n {
        AdfNode::Text(t) => text_json(t),
        _ => Seq::empty(),
    }
}

pub open spec fn inlines_json(s: Seq<AdfNode>) -> Seq<char> {
    join(s.map_values(|n: AdfNode| inline_json(n)))
}

pub open spec fn block_json(n: AdfNode) -> Seq<char> {
    match n {
        AdfNode::Paragraph(p) => "{\"type\":\"paragraph\",\"content\":["@ + inlines_json(p.content@) + "]}"@,
        AdfNode::CodeBlock(c) => "{\"type\":\"codeBlock\",\"content\":["@ + inlines_json(c.content@) + "]}"@,
        _ => Seq::empty(),
    }
}

pub open spec fn blocks_json(s: Seq<AdfNode>) -> Seq<char> {
    join(s.map_values(|n: AdfNode| block_json(n)))
}

/// The JSON text of a document.
pub open spec fn document_json(d: Document) -> Seq<char> {
    "{\"content\":["@ + blocks_json(d.content@) + "],\"type\":\"doc\",\"version\":1}"@
}

fn write_str(out: &mut String, s: &str)
    ensures
        final(out)@ == old(out)@ + json_string_of(s@),
{
    let t = encode_str(s).unwrap();
    out.append(t.as_str());
}

fn write_mark(out: &mut String, m: &Mark)
    ensures
        final(out)@ == old(out)@ + mark_json(*m),
{
    match m {
        Mark::Link { href } => {
            out.append("{\"type\":\"link\",\"attrs\":{\"href\":");
            write_str(out, href.as_str());
            out.append("}}");
        },
    }
}

fn write_text(out: &mut String, t: &Text)
    ensures
        final(out)@ == old(out)@ + text_json(*t),
{
    out.append("{\"type\":\"text\",\"text\":");
    write_str(out, t.text.as_str());
    if t.marks.len() == 0 {
        out.append("}");
    } else {
        out.append(",\"marks\":[");
        let ghost head = out@;
        let ghost parts = t.marks@.map_values(|m: Mark| mark_json(m));
        let mut i: usize = 0;
        while i < t.marks.len()
            invariant
                0 <= i <= t.marks@.len(),
                parts == t.marks@.map_values(|m: Mark| mark_json(m)),
                out@ == head + join(parts.take(i as int)),
            decreases t.marks@.len() - i,
        {
            if i > 0 {
                out.append(",");
            }
            write_mark(out, &t.marks[i]);
            proof {
                lemma_join_step(parts, i as int);
            }
            i = i + 1;
        }
        proof {
            assert(parts.take(t.marks@.len() as int) =~= parts);
        }
        out.append("]}");
    }
}

fn write_inlines(out: &mut String, content: &Vec<AdfNode>)
    requires
        all_inline(content@),
    ensures
        final(out)@ == old(out)@ + inlines_json(content@),
{
    let ghost head = out@;
    let ghost parts = content@.map_values(|n: AdfNode| inline_json(n));
    let mut i: usize = 0;
    while i < content.len()
        invariant
            0 <= i <= content@.len(),
            all_inline(content@),
            parts == content@.map_values(|n: AdfNode| inline_json(n)),
            out@ == head + join(parts.take(i as int)),
        decreases content@.len() - i,
    {
        if i > 0 {
            out.append(",");
        }
        match &content[i] {
            AdfNode::Text(t) => {
                write_text(out, t);
            },
            _ => {},
        }
        proof {
            lemma_join_step(parts, i as int);
        }
        i = i + 1;
    }
    proof {
        assert(parts.take(content@.len() as int) =~= parts);
    }
}

fn write_block(out: &mut String, n: &AdfNode)
    requires
        crate::adf::is_block(*n),
    ensures
        final(out)@ == old(out)@ + block_json(*n),
{
    match n {
        AdfNode::Paragraph(p) => {
            out.append("{\"type\":\"paragraph\",\"content\":[");
            write_inlines(out, &p.content);
            out.append("]}");
        },
        AdfNode::CodeBlock(c) => {
            out.append("{\"type\":\"codeBlock\",\"content\":[");
            write_inlines(out, &c.content);
            out.append("]}");
        },
        _ => {},
    }
}

/// The JSON text of a well-formed document.
pub fn render_document(d: &Document) -> (r: String)
    requires
        d.wf(),
    ensures
        r@ == document_json(*d),
{
    let mut out = String::new();
    out.append("{\"content\":[");
    let ghost head = out@;
    let ghost parts = d.content@.map_values(|n: AdfNode| block_json(n));
    let mut i: usize = 0;
    while i < d.content.len()
        invariant
            0 <= i <= d.content@.len(),
            all_blocks(d.content@),
            parts == d.content@.map_values(|n: AdfNode| block_json(n)),
            out@ == head + join(parts.take(i as int)),
        decreases d.content@.len() - i,
    {
        if i > 0 {
            out.append(",");
        }
        write_block(&mut out, &d.content[i]);
        proof {
            lemma_join_step(parts, i as int);
        }
        i = i + 1;
    }
    proof {
        assert(parts.take(d.content@.len() as int) =~= parts);
    }
    out.append("],\"type\":\"doc\",\"version\":1}");
    out
}

} // verus!
