use markdown_ast::nodes::{
    Item, Node, Paragraph, Ranged, SourceFile, Table, TableCell, TableHead, TableRow,
    TaskListMarker, Text, YamlHeader,
};
use markdown_ast::source::{Context, Range};

fn text_node(start: usize, end: usize, content: &str) -> Node {
    Node::Text(Text { range: Range { start, end }, text: content.to_string() })
}

fn paragraph(start: usize, end: usize, children: Vec<Node>) -> Node {
    Node::Paragraph(Paragraph { range: Range { start, end }, children })
}

#[test]
fn ordered_contained_siblings_are_well_formed() {
    let tree = paragraph(0, 11, vec![text_node(0, 5, "hello"), text_node(6, 11, "world")]);
    assert!(tree.is_well_formed());
}

#[test]
fn overlapping_siblings_are_not_well_formed() {
    let tree = paragraph(0, 11, vec![text_node(0, 7, "hello w"), text_node(6, 11, "world")]);
    assert!(!tree.is_well_formed());
}

#[test]
fn siblings_out_of_source_order_are_not_well_formed() {
    let tree = paragraph(0, 11, vec![text_node(6, 11, "world"), text_node(0, 5, "hello")]);
    assert!(!tree.is_well_formed());
}

#[test]
fn child_outside_parent_is_not_well_formed() {
    let tree = paragraph(0, 5, vec![text_node(3, 8, "lo wo")]);
    assert!(!tree.is_well_formed());
}

#[test]
fn reversed_span_is_not_well_formed() {
    let tree = text_node(5, 2, "x");
    assert!(!tree.is_well_formed());
}

#[test]
fn nested_tree_well_formedness() {
    let inner = paragraph(4, 9, vec![text_node(4, 9, "inner")]);
    let root = Node::SourceFile(SourceFile {
        range: Range { start: 0, end: 9 },
        children: vec![text_node(0, 3, "abc"), inner],
        yaml_header: None,
    });
    assert!(root.is_well_formed());

    let bad_inner = paragraph(4, 9, vec![text_node(2, 9, "c inner")]);
    let root = Node::SourceFile(SourceFile {
        range: Range { start: 0, end: 9 },
        children: vec![text_node(0, 3, "abc"), bad_inner],
        yaml_header: None,
    });
    assert!(!root.is_well_formed());
}

#[test]
fn yaml_header_must_lie_within_the_file() {
    let root = Node::SourceFile(SourceFile {
        range: Range { start: 0, end: 10 },
        children: Vec::new(),
        yaml_header: Some(YamlHeader { range: Range { start: 0, end: 20 }, text: String::new() }),
    });
    assert!(!root.is_well_formed());
}

#[test]
fn item_marker_and_sub_lists_are_checked() {
    let item = Node::Item(Item {
        range: Range { start: 0, end: 10 },
        marker: Some(TaskListMarker { range: Range { start: 0, end: 3 }, is_checked: false }),
        children: vec![text_node(4, 8, "todo")],
        sub_lists: Vec::new(),
    });
    assert!(item.is_well_formed());

    let item = Node::Item(Item {
        range: Range { start: 0, end: 10 },
        marker: Some(TaskListMarker { range: Range { start: 8, end: 12 }, is_checked: false }),
        children: Vec::new(),
        sub_lists: Vec::new(),
    });
    assert!(!item.is_well_formed());
}

fn small_table() -> Table {
    let cell = |s: usize, e: usize, t: &str| TableCell {
        range: Range { start: s, end: e },
        children: vec![text_node(s, e, t)],
    };
    Table {
        range: Range { start: 0, end: 11 },
        header: TableHead {
            range: Range { start: 0, end: 5 },
            cells: vec![cell(0, 2, "ab"), cell(3, 5, "cd")],
        },
        column_alignment: Vec::new(),
        rows: vec![TableRow {
            range: Range { start: 6, end: 11 },
            cells: vec![cell(6, 8, "ef"), cell(9, 11, "gh")],
        }],
    }
}

#[test]
fn table_structure_is_checked() {
    let node: Node = small_table().into();
    assert!(node.is_well_formed());

    let mut bad = small_table();
    bad.rows[0].cells[1].range = Range { start: 7, end: 11 };
    let node: Node = bad.into();
    assert!(!node.is_well_formed());
}

#[test]
fn valid_spans_make_every_text_defined() {
    let source = "hello world";
    let context = Context { file_text: source };
    let tree = paragraph(0, 11, vec![text_node(0, 5, "hello"), text_node(6, 11, "world")]);
    assert!(tree.spans_valid_for(source));
    assert!(tree.is_well_formed());
    assert_eq!(tree.text(&context), "hello world");
    if let Node::Paragraph(p) = &tree {
        assert_eq!(p.children[0].text(&context), "hello");
        assert_eq!(p.children[1].text(&context), "world");
    } else {
        unreachable!();
    }
}

#[test]
fn span_beyond_source_is_invalid() {
    let tree = text_node(0, 20, "too long");
    assert!(!tree.spans_valid_for("short"));
}

#[test]
fn span_splitting_a_character_is_invalid() {
    // 'é' occupies bytes 1..3, so offset 2 is not a character boundary
    let source = "héllo";
    let tree = text_node(0, 2, "h?");
    assert!(!tree.spans_valid_for(source));
    let tree = text_node(0, 3, "hé");
    assert!(tree.spans_valid_for(source));
}
