use markdown_ast::nodes::{Node, Text};
use markdown_ast::source::Range;
use markdown_ast::words::{first_word_of, is_list_word};

fn text_node(content: &str) -> Text {
    Text { range: Range { start: 0, end: content.len() }, text: content.to_string() }
}

#[test]
fn first_word_stops_at_whitespace() {
    assert_eq!(first_word_of("1. item"), "1.");
    assert_eq!(first_word_of("item"), "item");
    assert_eq!(first_word_of(""), "");
    assert_eq!(first_word_of("a\tb"), "a");
    assert_eq!(first_word_of("a\nb"), "a");
    assert_eq!(first_word_of(" leading"), "");
}

#[test]
fn first_word_stops_at_unicode_whitespace() {
    // U+00A0 is a no-break space, which carries the white-space property
    assert_eq!(first_word_of("a\u{00a0}b"), "a");
    assert_eq!(first_word_of("ab\u{2003}cd"), "ab");
}

#[test]
fn single_character_markers_are_list_words() {
    assert!(is_list_word("-"));
    assert!(is_list_word("*"));
    assert!(is_list_word("+"));
}

#[test]
fn numbered_markers_are_list_words() {
    assert!(is_list_word("1."));
    assert!(is_list_word("12."));
    assert!(is_list_word("3)"));
    assert!(is_list_word("456)"));
}

#[test]
fn non_markers_are_not_list_words() {
    assert!(!is_list_word(""));
    assert!(!is_list_word("item"));
    assert!(!is_list_word("1"));
    assert!(!is_list_word("."));
    assert!(!is_list_word(")"));
    assert!(!is_list_word("a."));
    assert!(!is_list_word("1.2."));
    assert!(!is_list_word("--"));
}

#[test]
fn text_node_starting_with_list_word() {
    assert!(text_node("1. item").starts_with_list_word());
    assert!(text_node("- item").starts_with_list_word());
    assert!(!text_node("item").starts_with_list_word());
    assert!(!text_node("").starts_with_list_word());
}

#[test]
fn only_text_nodes_start_with_list_words() {
    let node: Node = text_node("1. item").into();
    assert!(node.starts_with_list_word());
    let node: Node = markdown_ast::nodes::SoftBreak { range: Range { start: 0, end: 0 } }.into();
    assert!(!node.starts_with_list_word());
}
