use markdown_ast::nodes::{
    BlockQuote, Code, Heading, HorizontalRule, Node, Paragraph, Ranged, SoftBreak, Text,
};
use markdown_ast::source::{Context, Range};

fn text_node(start: usize, end: usize, content: &str) -> Text {
    Text { range: Range { start, end }, text: content.to_string() }
}

#[test]
fn text_returns_exact_source_slice() {
    let source = "hello world";
    let context = Context { file_text: source };
    let node = text_node(0, 5, "hello");
    assert_eq!(node.text(&context), "hello");
    let node = text_node(6, 11, "world");
    assert_eq!(node.text(&context), "world");
    let node = text_node(0, 11, "hello world");
    assert_eq!(node.text(&context), "hello world");
}

#[test]
fn text_slices_multibyte_source_on_boundaries() {
    // 'h' is one byte, 'é' is two bytes, so "hé" covers bytes 0..3
    let source = "héllo";
    let context = Context { file_text: source };
    let node = text_node(0, 3, "hé");
    assert_eq!(node.text(&context), "hé");
    let node = text_node(1, 3, "é");
    assert_eq!(node.text(&context), "é");
}

#[test]
fn text_through_polymorphic_dispatch() {
    let source = "# title";
    let context = Context { file_text: source };
    let heading = Heading { range: Range { start: 0, end: 7 }, level: 1, children: Vec::new() };
    let node: Node = heading.into();
    assert_eq!(node.text(&context), "# title");
    assert_eq!(node.range().start, 0);
    assert_eq!(node.range().end, 7);
}

#[test]
fn wrapping_preserves_range_for_each_kind() {
    let r = Range { start: 3, end: 9 };
    let heading = Heading { range: r, level: 2, children: Vec::new() };
    assert_eq!(*heading.range(), r);
    let node: Node = heading.into();
    assert_eq!(*node.range(), r);

    let paragraph = Paragraph { range: r, children: Vec::new() };
    let node: Node = paragraph.into();
    assert_eq!(*node.range(), r);

    let quote = BlockQuote { range: r, children: Vec::new() };
    let node: Node = quote.into();
    assert_eq!(*node.range(), r);

    let code = Code { range: r, code: "x".to_string() };
    let node: Node = code.into();
    assert_eq!(*node.range(), r);

    let rule = HorizontalRule { range: r };
    let node: Node = rule.into();
    assert_eq!(*node.range(), r);

    let soft = SoftBreak { range: r };
    let node: Node = soft.into();
    assert_eq!(*node.range(), r);

    let text = text_node(3, 9, "abcdef");
    let node: Node = text.into();
    assert_eq!(*node.range(), r);
}

#[test]
fn no_preceding_space_at_offset_zero() {
    let node: Node = text_node(0, 5, "hello").into();
    assert!(!node.has_preceeding_space("hello world"));
}

#[test]
fn preceding_space_detected() {
    let source = "a bc";
    let node: Node = text_node(2, 4, "bc").into();
    assert!(node.has_preceeding_space(source));
    let node: Node = text_node(1, 4, " bc").into();
    assert!(!node.has_preceeding_space(source));
}

#[test]
fn preceding_byte_beyond_source_is_no_space() {
    let node: Node = text_node(10, 12, "xy").into();
    assert!(!node.has_preceeding_space("ab"));
}

#[test]
fn only_a_literal_space_counts_as_preceding_space() {
    let source = "a\tbc";
    let node: Node = text_node(2, 4, "bc").into();
    assert!(!node.has_preceeding_space(source));
}

#[test]
fn ends_with_punctuation_scenarios() {
    let source = "Hello.";
    let node: Node = text_node(0, 6, "Hello.").into();
    assert!(node.ends_with_punctuation(source));

    let source = "Hello";
    let node: Node = text_node(0, 5, "Hello").into();
    assert!(!node.ends_with_punctuation(source));
}

#[test]
fn starts_with_punctuation_scenarios() {
    let source = "!wow";
    let node: Node = text_node(0, 4, "!wow").into();
    assert!(node.starts_with_punctuation(source));
    assert!(!node.ends_with_punctuation(source));

    let source = "wow";
    let node: Node = text_node(0, 3, "wow").into();
    assert!(!node.starts_with_punctuation(source));
}

#[test]
fn non_ascii_punctuation_does_not_count() {
    // '«' is punctuation but not ASCII punctuation; it encodes in two bytes
    let source = "«x»";
    let node: Node = text_node(0, 5, "«x»").into();
    assert!(!node.starts_with_punctuation(source));
    assert!(!node.ends_with_punctuation(source));
}

#[test]
fn multibyte_source_with_ascii_punctuation_at_the_edges() {
    let source = ".é!";
    let node: Node = text_node(0, 4, ".é!").into();
    assert!(node.starts_with_punctuation(source));
    assert!(node.ends_with_punctuation(source));
}

#[test]
fn empty_node_yields_false_from_all_predicates() {
    let source = "anything";
    let empty: Node = text_node(3, 3, "").into();
    assert!(!empty.starts_with_punctuation(source));
    assert!(!empty.ends_with_punctuation(source));
    assert!(!empty.starts_with_list_word());
}
