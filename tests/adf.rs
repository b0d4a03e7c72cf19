use md_adf::adf::{AdfNode, DocumentBuilder, Mark, Paragraph, ParagraphBuilder, Text};
use md_adf::convert::{convert, convert_to_json, ConvertError};
use md_adf::from_markdown;
use md_adf::mdtree::MdNode;
use md_adf::render::render_document;

fn json(s: &str) -> serde_json::Value {
    s.parse::<serde_json::Value>().unwrap()
}

fn unsupported(md: &str) -> String {
    match from_markdown(md) {
        Err(ConvertError::UnsupportedNode { description }) => description,
        other => panic!("expected an unsupported node, got {:?}", other),
    }
}

#[test]
fn one_text_paragraph() {
    let expected = r#"{"version": 1, "type": "doc", "content": [{"type": "paragraph", "content": [{"type": "text", "text": "this is some paragraph"}]}]}"#;
    let actual = from_markdown("this is some paragraph").unwrap();
    assert_eq!(json(expected), json(&actual));
}

#[test]
fn paragraph_with_links() {
    let expected = r#"{"version": 1, "type": "doc", "content": [
        {"type": "paragraph", "content": [
            {"type": "text", "text": "alamakota", "marks": [
                {"type": "link", "attrs": {"href": "http://duckduck.go"}}
            ]},
            {"type": "text", "text": " "},
            {"type": "text", "text": "http://google.com", "marks": [
                {"type": "link", "attrs": {"href": "http://google.com"}}
            ]},
            {"type": "text", "text": " this is some paragraph"}
        ]}
    ]}"#;
    let actual = from_markdown(
        "[alamakota](http://duckduck.go) <http://google.com> this is some paragraph",
    )
    .unwrap();
    assert_eq!(json(expected), json(&actual));
}

#[test]
fn code_block() {
    let expected = r#"{"version": 1, "type": "doc", "content": [{"type": "codeBlock", "content": [{"type": "text", "text": "a = 42"}]}]}"#;
    let actual = from_markdown("```\na = 42\n```").unwrap();
    assert_eq!(json(expected), json(&actual));
}

#[test]
fn exact_text_of_one_paragraph() {
    let actual = from_markdown("this is some paragraph").unwrap();
    assert_eq!(
        actual,
        r#"{"content":[{"type":"paragraph","content":[{"type":"text","text":"this is some paragraph"}]}],"type":"doc","version":1}"#
    );
}

#[test]
fn empty_input_gives_empty_document() {
    assert_eq!(from_markdown("").unwrap(), r#"{"content":[],"type":"doc","version":1}"#);
}

#[test]
fn code_block_drops_language_tag() {
    let expected = r#"{"version": 1, "type": "doc", "content": [{"type": "codeBlock", "content": [{"type": "text", "text": "fn x() {}\nlet y = 1;"}]}]}"#;
    let actual = from_markdown("```rust title\nfn x() {}\nlet y = 1;\n```").unwrap();
    assert_eq!(json(expected), json(&actual));
}

#[test]
fn paragraphs_and_code_keep_their_order() {
    let expected = r#"{"version": 1, "type": "doc", "content": [
        {"type": "paragraph", "content": [{"type": "text", "text": "one"}]},
        {"type": "codeBlock", "content": [{"type": "text", "text": "two"}]},
        {"type": "paragraph", "content": [{"type": "text", "text": "three"}]}
    ]}"#;
    let actual = from_markdown("one\n\n```\ntwo\n```\n\nthree").unwrap();
    assert_eq!(json(expected), json(&actual));
}

#[test]
fn strings_are_escaped() {
    let actual = from_markdown("say \"hi\" \\\\ now").unwrap();
    assert!(actual.contains(r#""text":"say \"hi\" \\ now""#));
    let value = json(&actual);
    assert_eq!(value["content"][0]["content"][0]["text"], "say \"hi\" \\ now");
}

#[test]
fn unmarked_text_has_no_marks_field() {
    let actual = from_markdown("[a](http://x.y) b").unwrap();
    let value = json(&actual);
    let inline = &value["content"][0]["content"];
    assert!(inline[0].get("marks").is_some());
    assert_eq!(inline[0]["marks"].as_array().unwrap().len(), 1);
    assert!(inline[1].get("marks").is_none());
    assert!(!actual.contains("\"marks\":[]"));
}

#[test]
fn heading_is_unsupported() {
    assert!(unsupported("# Title").starts_with("Heading"));
}

#[test]
fn emphasis_is_unsupported() {
    assert!(unsupported("*hi*").starts_with("Emphasis"));
}

#[test]
fn list_is_unsupported() {
    assert!(unsupported("- a\n- b").starts_with("List"));
}

#[test]
fn blockquote_is_unsupported() {
    assert!(unsupported("> quoted").starts_with("Blockquote"));
}

#[test]
fn image_is_unsupported() {
    assert!(unsupported("see ![alt](http://x.y/i.png)").starts_with("Image"));
}

#[test]
fn inline_code_is_unsupported() {
    assert!(unsupported("run `ls` now").starts_with("InlineCode"));
}

#[test]
fn thematic_break_is_unsupported() {
    assert!(unsupported("a\n\n***\n\nb").starts_with("ThematicBreak"));
}

#[test]
fn first_refusal_is_reported() {
    assert!(unsupported("text\n\n# Title\n\n- item").starts_with("Heading"));
    assert!(unsupported("*a* `b`").starts_with("Emphasis"));
}

#[test]
fn link_without_text_shows_url() {
    let actual = from_markdown("[](http://x.y)").unwrap();
    let value = json(&actual);
    let node = &value["content"][0]["content"][0];
    assert_eq!(node["text"], "http://x.y");
    assert_eq!(node["marks"][0]["attrs"]["href"], "http://x.y");
}

#[test]
fn link_with_emphasis_shows_url() {
    let actual = from_markdown("[*hi*](http://x.y)").unwrap();
    let value = json(&actual);
    assert_eq!(value["content"][0]["content"][0]["text"], "http://x.y");
}

#[test]
fn link_display_from_nodes() {
    let nodes = vec![MdNode::Paragraph {
        children: vec![
            MdNode::Link { url: "u1".to_string(), children: vec![] },
            MdNode::Link {
                url: "u2".to_string(),
                children: vec![MdNode::Other { description: "Strong".to_string() }],
            },
            MdNode::Link {
                url: "u3".to_string(),
                children: vec![
                    MdNode::Text { value: "shown".to_string() },
                    MdNode::Text { value: "not shown".to_string() },
                ],
            },
        ],
    }];
    let actual = convert_to_json(&nodes).unwrap();
    assert_eq!(
        actual,
        r#"{"content":[{"type":"paragraph","content":[{"type":"text","text":"u1","marks":[{"type":"link","attrs":{"href":"u1"}}]},{"type":"text","text":"u2","marks":[{"type":"link","attrs":{"href":"u2"}}]},{"type":"text","text":"shown","marks":[{"type":"link","attrs":{"href":"u3"}}]}]}],"type":"doc","version":1}"#
    );
}

#[test]
fn unsupported_node_in_tree() {
    let nodes = vec![
        MdNode::Code { value: "x".to_string() },
        MdNode::Paragraph {
            children: vec![
                MdNode::Text { value: "a".to_string() },
                MdNode::Other { description: "Strong".to_string() },
                MdNode::Other { description: "Delete".to_string() },
            ],
        },
        MdNode::Other { description: "Table".to_string() },
    ];
    match convert(&nodes) {
        Err(ConvertError::UnsupportedNode { description }) => assert_eq!(description, "Strong"),
        other => panic!("unexpected {:?}", other),
    }
    let top = vec![MdNode::Text { value: "a".to_string() }];
    match convert_to_json(&top) {
        Err(ConvertError::UnsupportedNode { description }) => assert_eq!(description, "Text"),
        other => panic!("unexpected {:?}", other),
    }
}

#[test]
fn conversion_is_deterministic() {
    let md = "[a](http://x.y) b\n\n```\nc\n```";
    assert_eq!(from_markdown(md).unwrap(), from_markdown(md).unwrap());
}

#[test]
fn builders_fill_the_document() {
    let mut builder = DocumentBuilder::new();
    builder.paragraph().text("plain").link("site", "http://s.t");
    builder.code_block().text("x = 1");
    let doc = builder.build();
    assert_eq!(doc.version, 1);
    assert_eq!(doc.content.len(), 2);
    match &doc.content[0] {
        AdfNode::Paragraph(p) => {
            assert_eq!(p.content.len(), 2);
            match &p.content[1] {
                AdfNode::Text(t) => {
                    assert_eq!(t.text, "site");
                    match &t.marks[0] {
                        Mark::Link { href } => assert_eq!(href, "http://s.t"),
                    }
                }
                _ => panic!("expected text"),
            }
        }
        _ => panic!("expected a paragraph"),
    }
    assert_eq!(
        render_document(&doc),
        r#"{"content":[{"type":"paragraph","content":[{"type":"text","text":"plain"},{"type":"text","text":"site","marks":[{"type":"link","attrs":{"href":"http://s.t"}}]}]},{"type":"codeBlock","content":[{"type":"text","text":"x = 1"}]}],"type":"doc","version":1}"#
    );
}

#[test]
fn paragraph_builder_on_own_paragraph() {
    let mut p = Paragraph::new();
    ParagraphBuilder::new(&mut p).text("a").text("b");
    assert_eq!(p.content.len(), 2);
    let mut t = Text::new("c");
    assert!(t.marks.is_empty());
    t.add_mark(Mark::Link { href: "h".to_string() });
    assert_eq!(t.marks.len(), 1);
}

#[test]
fn control_characters_are_escaped() {
    let actual = from_markdown("```\na\tb\u{1}c\u{7f}\n```").unwrap();
    assert_eq!(
        actual,
        "{\"content\":[{\"type\":\"codeBlock\",\"content\":[{\"type\":\"text\",\"text\":\"a\\tb\\u0001c\u{7f}\"}]}],\"type\":\"doc\",\"version\":1}"
    );
}
