//! The structural invariant of a parsed tree and the laws that follow
//! from it: each child's span lies within its parent's span, sibling
//! spans mirror source order, and in a tree whose spans are all valid
//! for the run's source every node's verbatim text is defined.
//!
//! Trees are built by the upstream parser and are immutable afterwards,
//! so the invariant is stated as a predicate the producer owes rather
//! than as a property of constructors in this crate.

use vstd::prelude::*;

use crate::nodes::{Node, Ranged, TableCell, TableRow};
use crate::source::Range;
use vstd::string::StringSliceAdditionalSpecFns;

verus! {

/// The span `r` is ordered and lies within `parent`.
pub open spec fn span_in(parent: Range, r: Range) -> bool {
    parent.start <= r.start && r.start <= r.end && r.end <= parent.end
}

/// Containment and order of one container's direct children: every
/// child's span is ordered and lies within the parent's span, and each
/// sibling's span ends no later than the next sibling's begins.
pub open spec fn child_spans_ok(parent: Range, cs: Seq<Node>) -> bool {
    &&& forall|i: int| 0 <= i < cs.len() ==> span_in(parent, (#[trigger] cs[i]).spec_range())
    &&& forall|i: int|
        0 <= i && i + 1 < cs.len() ==> (#[trigger] cs[i]).spec_range().end
            <= cs[i + 1].spec_range().start
}

/// The same sibling invariant for a row's or header's cells.
pub open spec fn cell_spans_ok(parent: Range, cells: Seq<TableCell>) -> bool {
    &&& forall|i: int| 0 <= i < cells.len() ==> span_in(parent, (#[trigger] cells[i]).range)
    &&& forall|i: int|
        0 <= i && i + 1 < cells.len() ==> (#[trigger] cells[i]).range.end <= cells[i + 1].range.start
}

/// The same sibling invariant for a table's rows.
pub open spec fn row_spans_ok(parent: Range, rows: Seq<TableRow>) -> bool {
    &&& forall|i: int| 0 <= i < rows.len() ==> span_in(parent, (#[trigger] rows[i]).range)
    &&& forall|i: int|
        0 <= i && i + 1 < rows.len() ==> (#[trigger] rows[i]).range.end <= rows[i + 1].range.start
}


/// The structural invariant of a tree: every node's span is ordered,
/// and for every container in the tree its direct children satisfy the
/// sibling invariant against that container's own span.
pub open spec fn well_formed(n: Node) -> bool
    decreases n,
{
    match n {
        Node::NotImplemented(x) => x.range.start <= x.range.end,
        Node::Text(x) => x.range.start <= x.range.end,
        Node::Html(x) => x.range.start <= x.range.end,
        Node::FootnoteReference(x) => x.range.start <= x.range.end,
        Node::LinkReference(x) => x.range.start <= x.range.end,
        Node::InlineImage(x) => x.range.start <= x.range.end,
        Node::ReferenceImage(x) => x.range.start <= x.range.end,
        Node::TaskListMarker(x) => x.range.start <= x.range.end,
        Node::SoftBreak(x) => x.range.start <= x.range.end,
        Node::HardBreak(x) => x.range.start <= x.range.end,
        Node::Code(x) => x.range.start <= x.range.end,
        Node::CodeBlock(x) => x.range.start <= x.range.end,
        Node::HorizontalRule(x) => x.range.start <= x.range.end,
        Node::SourceFile(x) => {
            &&& x.range.start <= x.range.end
            &&& child_spans_ok(x.range, x.children@)
            &&& forall|i: int|
                0 <= i < x.children@.len() ==> well_formed(#[trigger] x.children@[i])
            &&& match x.yaml_header {
                Option::Some(h) => span_in(x.range, h.range),
                Option::None => true,
            }
        },
        Node::Heading(x) => {
            &&& x.range.start <= x.range.end
            &&& child_spans_ok(x.range, x.children@)
            &&& forall|i: int|
                0 <= i < x.children@.len() ==> well_formed(#[trigger] x.children@[i])
        },
        Node::Paragraph(x) => {
            &&& x.range.start <= x.range.end
            &&& child_spans_ok(x.range, x.children@)
            &&& forall|i: int|
                0 <= i < x.children@.len() ==> well_formed(#[trigger] x.children@[i])
        },
        Node::BlockQuote(x) => {
            &&& x.range.start <= x.range.end
            &&& child_spans_ok(x.range, x.children@)
            &&& forall|i: int|
                0 <= i < x.children@.len() ==> well_formed(#[trigger] x.children@[i])
        },
        Node::TextDecoration(x) => {
            &&& x.range.start <= x.range.end
            &&& child_spans_ok(x.range, x.children@)
            &&& forall|i: int|
                0 <= i < x.children@.len() ==> well_formed(#[trigger] x.children@[i])
        },
        Node::FootnoteDefinition(x) => {
            &&& x.range.start <= x.range.end
            &&& child_spans_ok(x.range, x.children@)
            &&& forall|i: int|
                0 <= i < x.children@.len() ==> well_formed(#[trigger] x.children@[i])
        },
        Node::InlineLink(x) => {
            &&& x.range.start <= x.range.end
            &&& child_spans_ok(x.range, x.children@)
            &&& forall|i: int|
                0 <= i < x.children@.len() ==> well_formed(#[trigger] x.children@[i])
        },
        Node::ReferenceLink(x) => {
            &&& x.range.start <= x.range.end
            &&& child_spans_ok(x.range, x.children@)
            &&& forall|i: int|
                0 <= i < x.children@.len() ==> well_formed(#[trigger] x.children@[i])
        },
        Node::ShortcutLink(x) => {
            &&& x.range.start <= x.range.end
            &&& child_spans_ok(x.range, x.children@)
            &&& forall|i: int|
                0 <= i < x.children@.len() ==> well_formed(#[trigger] x.children@[i])
        },
        Node::AutoLink(x) => {
            &&& x.range.start <= x.range.end
            &&& child_spans_ok(x.range, x.children@)
            &&& forall|i: int|
                0 <= i < x.children@.len() ==> well_formed(#[trigger] x.children@[i])
        },
        Node::TableCell(x) => {
            &&& x.range.start <= x.range.end
            &&& child_spans_ok(x.range, x.children@)
            &&& forall|i: int|
                0 <= i < x.children@.len() ==> well_formed(#[trigger] x.children@[i])
        },
        Node::Item(x) => {
            &&& x.range.start <= x.range.end
            &&& child_spans_ok(x.range, x.children@)
            &&& child_spans_ok(x.range, x.sub_lists@)
            &&& forall|i: int|
                0 <= i < x.children@.len() ==> well_formed(#[trigger] x.children@[i])
            &&& forall|i: int|
                0 <= i < x.sub_lists@.len() ==> well_formed(#[trigger] x.sub_lists@[i])
            &&& match x.marker {
                Option::Some(mk) => span_in(x.range, mk.range),
                Option::None => true,
            }
        },
        Node::List(x) => {
            &&& x.range.start <= x.range.end
            &&& child_spans_ok(x.range, x.children@)
            &&& forall|i: int|
                0 <= i < x.children@.len() ==> well_formed(#[trigger] x.children@[i])
        },
        Node::TableHead(x) => {
            &&& x.range.start <= x.range.end
            &&& cell_spans_ok(x.range, x.cells@)
            &&& forall|i: int|
                0 <= i < x.cells@.len() ==> child_spans_ok(
                    (#[trigger] x.cells@[i]).range,
                    x.cells@[i].children@,
                )
            &&& forall|i: int, j: int|
                0 <= i < x.cells@.len() && 0 <= j < x.cells@[i].children@.len()
                    ==> well_formed(#[trigger] x.cells@[i].children@[j])
        },
        Node::TableRow(x) => {
            &&& x.range.start <= x.range.end
            &&& cell_spans_ok(x.range, x.cells@)
            &&& forall|i: int|
                0 <= i < x.cells@.len() ==> child_spans_ok(
                    (#[trigger] x.cells@[i]).range,
                    x.cells@[i].children@,
                )
            &&& forall|i: int, j: int|
                0 <= i < x.cells@.len() && 0 <= j < x.cells@[i].children@.len()
                    ==> well_formed(#[trigger] x.cells@[i].children@[j])
        },
        Node::Table(x) => {
            &&& x.range.start <= x.range.end
            &&& span_in(x.range, x.header.range)
            &&& cell_spans_ok(x.header.range, x.header.cells@)
            &&& forall|i: int|
                0 <= i < x.header.cells@.len() ==> child_spans_ok(
                    (#[trigger] x.header.cells@[i]).range,
                    x.header.cells@[i].children@,
                )
            &&& forall|i: int, j: int|
                0 <= i < x.header.cells@.len() && 0 <= j < x.header.cells@[i].children@.len()
                    ==> well_formed(#[trigger] x.header.cells@[i].children@[j])
            &&& row_spans_ok(x.range, x.rows@)
            &&& forall|i: int|
                0 <= i < x.rows@.len() ==> cell_spans_ok(
                    (#[trigger] x.rows@[i]).range,
                    x.rows@[i].cells@,
                )
            &&& forall|i: int, j: int|
                0 <= i < x.rows@.len() && 0 <= j < x.rows@[i].cells@.len() ==> child_spans_ok(
                    (#[trigger] x.rows@[i].cells@[j]).range,
                    x.rows@[i].cells@[j].children@,
                )
            &&& forall|i: int, j: int, k: int|
                0 <= i < x.rows@.len() && 0 <= j < x.rows@[i].cells@.len() && 0 <= k
                    < x.rows@[i].cells@[j].children@.len() ==> well_formed(
                    #[trigger] x.rows@[i].cells@[j].children@[k],
                )
        },
    }
}


/// `m` is a node of the tree rooted at `n`: `n` itself, or a node of a
/// subtree under one of `n`'s child collections.
pub open spec fn in_tree(m: Node, n: Node) -> bool
    decreases n,
{
    m == n || match n {
        Node::NotImplemented(x) => false,
        Node::Text(x) => false,
        Node::Html(x) => false,
        Node::FootnoteReference(x) => false,
        Node::LinkReference(x) => false,
        Node::InlineImage(x) => false,
        Node::ReferenceImage(x) => false,
        Node::TaskListMarker(x) => false,
        Node::SoftBreak(x) => false,
        Node::HardBreak(x) => false,
        Node::Code(x) => false,
        Node::CodeBlock(x) => false,
        Node::HorizontalRule(x) => false,
        Node::SourceFile(x) => exists|i: int|
            0 <= i < x.children@.len() && in_tree(m, #[trigger] x.children@[i]),
        Node::List(x) => exists|i: int|
            0 <= i < x.children@.len() && in_tree(m, #[trigger] x.children@[i]),
        Node::Heading(x) => exists|i: int|
            0 <= i < x.children@.len() && in_tree(m, #[trigger] x.children@[i]),
        Node::Paragraph(x) => exists|i: int|
            0 <= i < x.children@.len() && in_tree(m, #[trigger] x.children@[i]),
        Node::BlockQuote(x) => exists|i: int|
            0 <= i < x.children@.len() && in_tree(m, #[trigger] x.children@[i]),
        Node::TextDecoration(x) => exists|i: int|
            0 <= i < x.children@.len() && in_tree(m, #[trigger] x.children@[i]),
        Node::FootnoteDefinition(x) => exists|i: int|
            0 <= i < x.children@.len() && in_tree(m, #[trigger] x.children@[i]),
        Node::InlineLink(x) => exists|i: int|
            0 <= i < x.children@.len() && in_tree(m, #[trigger] x.children@[i]),
        Node::ReferenceLink(x) => exists|i: int|
            0 <= i < x.children@.len() && in_tree(m, #[trigger] x.children@[i]),
        Node::ShortcutLink(x) => exists|i: int|
            0 <= i < x.children@.len() && in_tree(m, #[trigger] x.children@[i]),
        Node::AutoLink(x) => exists|i: int|
            0 <= i < x.children@.len() && in_tree(m, #[trigger] x.children@[i]),
        Node::TableCell(x) => exists|i: int|
            0 <= i < x.children@.len() && in_tree(m, #[trigger] x.children@[i]),
        Node::Item(x) => (exists|i: int|
            0 <= i < x.children@.len() && in_tree(m, #[trigger] x.children@[i])) || (exists|i: int|
            0 <= i < x.sub_lists@.len() && in_tree(m, #[trigger] x.sub_lists@[i])),
        Node::TableHead(x) => exists|i: int, j: int|
            0 <= i < x.cells@.len() && 0 <= j < x.cells@[i].children@.len() && in_tree(
                m,
                #[trigger] x.cells@[i].children@[j],
            ),
        Node::TableRow(x) => exists|i: int, j: int|
            0 <= i < x.cells@.len() && 0 <= j < x.cells@[i].children@.len() && in_tree(
                m,
                #[trigger] x.cells@[i].children@[j],
            ),
        Node::Table(x) => (exists|i: int, j: int|
            0 <= i < x.header.cells@.len() && 0 <= j < x.header.cells@[i].children@.len()
                && in_tree(m, #[trigger] x.header.cells@[i].children@[j])) || (exists|
            i: int,
            j: int,
            k: int,
        |
            0 <= i < x.rows@.len() && 0 <= j < x.rows@[i].cells@.len() && 0 <= k
                < x.rows@[i].cells@[j].children@.len() && in_tree(
                m,
                #[trigger] x.rows@[i].cells@[j].children@[k],
            )),
    }
}


/// Every span in the tree rooted at `n` is valid for a source buffer
/// holding `bytes`: the producer contract for one formatting run.
pub open spec fn spans_valid(n: Node, bytes: Seq<u8>) -> bool
    decreases n,
{
    match n {
        Node::NotImplemented(x) => x.range.valid_for(bytes),
        Node::Text(x) => x.range.valid_for(bytes),
        Node::Html(x) => x.range.valid_for(bytes),
        Node::FootnoteReference(x) => x.range.valid_for(bytes),
        Node::LinkReference(x) => x.range.valid_for(bytes),
        Node::InlineImage(x) => x.range.valid_for(bytes),
        Node::ReferenceImage(x) => x.range.valid_for(bytes),
        Node::TaskListMarker(x) => x.range.valid_for(bytes),
        Node::SoftBreak(x) => x.range.valid_for(bytes),
        Node::HardBreak(x) => x.range.valid_for(bytes),
        Node::Code(x) => x.range.valid_for(bytes),
        Node::CodeBlock(x) => x.range.valid_for(bytes),
        Node::HorizontalRule(x) => x.range.valid_for(bytes),
        Node::Heading(x) => {
            &&& x.range.valid_for(bytes)
            &&& forall|i: int|
                0 <= i < x.children@.len() ==> spans_valid(#[trigger] x.children@[i], bytes)
        },
        Node::Paragraph(x) => {
            &&& x.range.valid_for(bytes)
            &&& forall|i: int|
                0 <= i < x.children@.len() ==> spans_valid(#[trigger] x.children@[i], bytes)
        },
        Node::BlockQuote(x) => {
            &&& x.range.valid_for(bytes)
            &&& forall|i: int|
                0 <= i < x.children@.len() ==> spans_valid(#[trigger] x.children@[i], bytes)
        },
        Node::TextDecoration(x) => {
            &&& x.range.valid_for(bytes)
            &&& forall|i: int|
                0 <= i < x.children@.len() ==> spans_valid(#[trigger] x.children@[i], bytes)
        },
        Node::FootnoteDefinition(x) => {
            &&& x.range.valid_for(bytes)
            &&& forall|i: int|
                0 <= i < x.children@.len() ==> spans_valid(#[trigger] x.children@[i], bytes)
        },
        Node::InlineLink(x) => {
            &&& x.range.valid_for(bytes)
            &&& forall|i: int|
                0 <= i < x.children@.len() ==> spans_valid(#[trigger] x.children@[i], bytes)
        },
        Node::ReferenceLink(x) => {
            &&& x.range.valid_for(bytes)
            &&& forall|i: int|
                0 <= i < x.children@.len() ==> spans_valid(#[trigger] x.children@[i], bytes)
        },
        Node::ShortcutLink(x) => {
            &&& x.range.valid_for(bytes)
            &&& forall|i: int|
                0 <= i < x.children@.len() ==> spans_valid(#[trigger] x.children@[i], bytes)
        },
        Node::AutoLink(x) => {
            &&& x.range.valid_for(bytes)
            &&& forall|i: int|
                0 <= i < x.children@.len() ==> spans_valid(#[trigger] x.children@[i], bytes)
        },
        Node::TableCell(x) => {
            &&& x.range.valid_for(bytes)
            &&& forall|i: int|
                0 <= i < x.children@.len() ==> spans_valid(#[trigger] x.children@[i], bytes)
        },
        Node::List(x) => {
            &&& x.range.valid_for(bytes)
            &&& forall|i: int|
                0 <= i < x.children@.len() ==> spans_valid(#[trigger] x.children@[i], bytes)
        },
        Node::SourceFile(x) => {
            &&& x.range.valid_for(bytes)
            &&& forall|i: int|
                0 <= i < x.children@.len() ==> spans_valid(#[trigger] x.children@[i], bytes)
            &&& match x.yaml_header {
                Option::Some(h) => h.range.valid_for(bytes),
                Option::None => true,
            }
        },
        Node::Item(x) => {
            &&& x.range.valid_for(bytes)
            &&& forall|i: int|
                0 <= i < x.children@.len() ==> spans_valid(#[trigger] x.children@[i], bytes)
            &&& forall|i: int|
                0 <= i < x.sub_lists@.len() ==> spans_valid(#[trigger] x.sub_lists@[i], bytes)
            &&& match x.marker {
                Option::Some(mk) => mk.range.valid_for(bytes),
                Option::None => true,
            }
        },
        Node::TableHead(x) => {
            &&& x.range.valid_for(bytes)
            &&& forall|i: int| 0 <= i < x.cells@.len() ==> (#[trigger] x.cells@[i]).range.valid_for(bytes)
            &&& forall|i: int, j: int|
                0 <= i < x.cells@.len() && 0 <= j < x.cells@[i].children@.len() ==> spans_valid(
                    #[trigger] x.cells@[i].children@[j],
                    bytes,
                )
        },
        Node::TableRow(x) => {
            &&& x.range.valid_for(bytes)
            &&& forall|i: int| 0 <= i < x.cells@.len() ==> (#[trigger] x.cells@[i]).range.valid_for(bytes)
            &&& forall|i: int, j: int|
                0 <= i < x.cells@.len() && 0 <= j < x.cells@[i].children@.len() ==> spans_valid(
                    #[trigger] x.cells@[i].children@[j],
                    bytes,
                )
        },
        Node::Table(x) => {
            &&& x.range.valid_for(bytes)
            &&& x.header.range.valid_for(bytes)
            &&& forall|i: int|
                0 <= i < x.header.cells@.len() ==> (#[trigger] x.header.cells@[i]).range.valid_for(
                    bytes,
                )
            &&& forall|i: int, j: int|
                0 <= i < x.header.cells@.len() && 0 <= j < x.header.cells@[i].children@.len()
                    ==> spans_valid(#[trigger] x.header.cells@[i].children@[j], bytes)
            &&& forall|i: int| 0 <= i < x.rows@.len() ==> (#[trigger] x.rows@[i]).range.valid_for(bytes)
            &&& forall|i: int, j: int|
                0 <= i < x.rows@.len() && 0 <= j < x.rows@[i].cells@.len()
                    ==> (#[trigger] x.rows@[i].cells@[j]).range.valid_for(bytes)
            &&& forall|i: int, j: int, k: int|
                0 <= i < x.rows@.len() && 0 <= j < x.rows@[i].cells@.len() && 0 <= k
                    < x.rows@[i].cells@[j].children@.len() ==> spans_valid(
                    #[trigger] x.rows@[i].cells@[j].children@[k],
                    bytes,
                )
        },
    }
}


/// Law: in a container whose children satisfy the sibling invariant,
/// any earlier sibling's span ends no later than a later one's begins.
/// Sibling spans are therefore pairwise non-overlapping and their start
/// offsets are non-decreasing, mirroring source order.
pub proof fn lemma_siblings_ordered(parent: Range, cs: Seq<Node>, i: int, j: int)
    requires
        child_spans_ok(parent, cs),
        0 <= i < j < cs.len(),
    ensures
        cs[i].spec_range().end <= cs[j].spec_range().start,
        cs[i].spec_range().start <= cs[j].spec_range().start,
    decreases j - i,
{
    if i + 1 < j {
        lemma_siblings_ordered(parent, cs, i + 1, j);
    }
}

/// Law: every node of a well-formed tree is itself well-formed, and its
/// span lies within the root's span.
pub proof fn lemma_in_tree_contained(root: Node, m: Node)
    requires
        well_formed(root),
        in_tree(m, root),
    ensures
        root.spec_range().contains_range(m.spec_range()),
        well_formed(m),
    decreases root,
{
    if m == root {
    } else {
        match root {
            Node::NotImplemented(x) => {
                assert(false);
            },
            Node::Text(x) => {
                assert(false);
            },
            Node::Html(x) => {
                assert(false);
            },
            Node::FootnoteReference(x) => {
                assert(false);
            },
            Node::LinkReference(x) => {
                assert(false);
            },
            Node::InlineImage(x) => {
                assert(false);
            },
            Node::ReferenceImage(x) => {
                assert(false);
            },
            Node::TaskListMarker(x) => {
                assert(false);
            },
            Node::SoftBreak(x) => {
                assert(false);
            },
            Node::HardBreak(x) => {
                assert(false);
            },
            Node::Code(x) => {
                assert(false);
            },
            Node::CodeBlock(x) => {
                assert(false);
            },
            Node::HorizontalRule(x) => {
                assert(false);
            },
            Node::SourceFile(x) => {
                let i = choose|i: int|
                    0 <= i < x.children@.len() && in_tree(m, #[trigger] x.children@[i]);
                assert(span_in(x.range, x.children@[i].spec_range()));
                lemma_in_tree_contained(x.children@[i], m);
            },
            Node::List(x) => {
                let i = choose|i: int|
                    0 <= i < x.children@.len() && in_tree(m, #[trigger] x.children@[i]);
                assert(span_in(x.range, x.children@[i].spec_range()));
                lemma_in_tree_contained(x.children@[i], m);
            },
            Node::Heading(x) => {
                let i = choose|i: int|
                    0 <= i < x.children@.len() && in_tree(m, #[trigger] x.children@[i]);
                assert(span_in(x.range, x.children@[i].spec_range()));
                lemma_in_tree_contained(x.children@[i], m);
            },
            Node::Paragraph(x) => {
                let i = choose|i: int|
                    0 <= i < x.children@.len() && in_tree(m, #[trigger] x.children@[i]);
                assert(span_in(x.range, x.children@[i].spec_range()));
                lemma_in_tree_contained(x.children@[i], m);
            },
            Node::BlockQuote(x) => {
                let i = choose|i: int|
                    0 <= i < x.children@.len() && in_tree(m, #[trigger] x.children@[i]);
                assert(span_in(x.range, x.children@[i].spec_range()));
                lemma_in_tree_contained(x.children@[i], m);
            },
            Node::TextDecoration(x) => {
                let i = choose|i: int|
                    0 <= i < x.children@.len() && in_tree(m, #[trigger] x.children@[i]);
                assert(span_in(x.range, x.children@[i].spec_range()));
                lemma_in_tree_contained(x.children@[i], m);
            },
            Node::FootnoteDefinition(x) => {
                let i = choose|i: int|
                    0 <= i < x.children@.len() && in_tree(m, #[trigger] x.children@[i]);
                assert(span_in(x.range, x.children@[i].spec_range()));
                lemma_in_tree_contained(x.children@[i], m);
            },
            Node::InlineLink(x) => {
                let i = choose|i: int|
                    0 <= i < x.children@.len() && in_tree(m, #[trigger] x.children@[i]);
                assert(span_in(x.range, x.children@[i].spec_range()));
                lemma_in_tree_contained(x.children@[i], m);
            },
            Node::ReferenceLink(x) => {
                let i = choose|i: int|
                    0 <= i < x.children@.len() && in_tree(m, #[trigger] x.children@[i]);
                assert(span_in(x.range, x.children@[i].spec_range()));
                lemma_in_tree_contained(x.children@[i], m);
            },
            Node::ShortcutLink(x) => {
                let i = choose|i: int|
                    0 <= i < x.children@.len() && in_tree(m, #[trigger] x.children@[i]);
                assert(span_in(x.range, x.children@[i].spec_range()));
                lemma_in_tree_contained(x.children@[i], m);
            },
            Node::AutoLink(x) => {
                let i = choose|i: int|
                    0 <= i < x.children@.len() && in_tree(m, #[trigger] x.children@[i]);
                assert(span_in(x.range, x.children@[i].spec_range()));
                lemma_in_tree_contained(x.children@[i], m);
            },
            Node::TableCell(x) => {
                let i = choose|i: int|
                    0 <= i < x.children@.len() && in_tree(m, #[trigger] x.children@[i]);
                assert(span_in(x.range, x.children@[i].spec_range()));
                lemma_in_tree_contained(x.children@[i], m);
            },
            Node::Item(x) => {
                if exists|i: int|
                    0 <= i < x.children@.len() && in_tree(m, #[trigger] x.children@[i]) {
                    let i = choose|i: int|
                        0 <= i < x.children@.len() && in_tree(m, #[trigger] x.children@[i]);
                    assert(span_in(x.range, x.children@[i].spec_range()));
                    lemma_in_tree_contained(x.children@[i], m);
                } else {
                    let i = choose|i: int|
                        0 <= i < x.sub_lists@.len() && in_tree(m, #[trigger] x.sub_lists@[i]);
                    assert(span_in(x.range, x.sub_lists@[i].spec_range()));
                    lemma_in_tree_contained(x.sub_lists@[i], m);
                }
            },
            Node::TableHead(x) => {
                let (i, j) = choose|i: int, j: int|
                    0 <= i < x.cells@.len() && 0 <= j < x.cells@[i].children@.len() && in_tree(
                        m,
                        #[trigger] x.cells@[i].children@[j],
                    );
                assert(span_in(x.range, x.cells@[i].range));
                assert(span_in(x.cells@[i].range, x.cells@[i].children@[j].spec_range()));
                lemma_in_tree_contained(x.cells@[i].children@[j], m);
            },
            Node::TableRow(x) => {
                let (i, j) = choose|i: int, j: int|
                    0 <= i < x.cells@.len() && 0 <= j < x.cells@[i].children@.len() && in_tree(
                        m,
                        #[trigger] x.cells@[i].children@[j],
                    );
                assert(span_in(x.range, x.cells@[i].range));
                assert(span_in(x.cells@[i].range, x.cells@[i].children@[j].spec_range()));
                lemma_in_tree_contained(x.cells@[i].children@[j], m);
            },
            Node::Table(x) => {
                if exists|i: int, j: int|
                    0 <= i < x.header.cells@.len() && 0 <= j < x.header.cells@[i].children@.len()
                        && in_tree(m, #[trigger] x.header.cells@[i].children@[j]) {
                    let (i, j) = choose|i: int, j: int|
                        0 <= i < x.header.cells@.len() && 0 <= j
                            < x.header.cells@[i].children@.len() && in_tree(
                            m,
                            #[trigger] x.header.cells@[i].children@[j],
                        );
                    assert(span_in(x.header.range, x.header.cells@[i].range));
                    assert(span_in(
                        x.header.cells@[i].range,
                        x.header.cells@[i].children@[j].spec_range(),
                    ));
                    lemma_in_tree_contained(x.header.cells@[i].children@[j], m);
                } else {
                    let (i, j, k) = choose|i: int, j: int, k: int|
                        0 <= i < x.rows@.len() && 0 <= j < x.rows@[i].cells@.len() && 0 <= k
                            < x.rows@[i].cells@[j].children@.len() && in_tree(
                            m,
                            #[trigger] x.rows@[i].cells@[j].children@[k],
                        );
                    assert(span_in(x.range, x.rows@[i].range));
                    assert(span_in(x.rows@[i].range, x.rows@[i].cells@[j].range));
                    assert(span_in(
                        x.rows@[i].cells@[j].range,
                        x.rows@[i].cells@[j].children@[k].spec_range(),
                    ));
                    lemma_in_tree_contained(x.rows@[i].cells@[j].children@[k], m);
                }
            },
        }
    }
}

/// Law: in a tree all of whose spans are valid for the run's source,
/// every node's span is valid, so every node's verbatim text is defined
/// and equals the source slice its span covers.
pub proof fn lemma_tree_text_defined(root: Node, m: Node, bytes: Seq<u8>)
    requires
        spans_valid(root, bytes),
        in_tree(m, root),
    ensures
        m.spec_range().valid_for(bytes),
    decreases root,
{
    if m == root {
    } else {
        match root {
            Node::NotImplemented(x) => {
                assert(false);
            },
            Node::Text(x) => {
                assert(false);
            },
            Node::Html(x) => {
                assert(false);
            },
            Node::FootnoteReference(x) => {
                assert(false);
            },
            Node::LinkReference(x) => {
                assert(false);
            },
            Node::InlineImage(x) => {
                assert(false);
            },
            Node::ReferenceImage(x) => {
                assert(false);
            },
            Node::TaskListMarker(x) => {
                assert(false);
            },
            Node::SoftBreak(x) => {
                assert(false);
            },
            Node::HardBreak(x) => {
                assert(false);
            },
            Node::Code(x) => {
                assert(false);
            },
            Node::CodeBlock(x) => {
                assert(false);
            },
            Node::HorizontalRule(x) => {
                assert(false);
            },
            Node::SourceFile(x) => {
                let i = choose|i: int|
                    0 <= i < x.children@.len() && in_tree(m, #[trigger] x.children@[i]);
                lemma_tree_text_defined(x.children@[i], m, bytes);
            },
            Node::List(x) => {
                let i = choose|i: int|
                    0 <= i < x.children@.len() && in_tree(m, #[trigger] x.children@[i]);
                lemma_tree_text_defined(x.children@[i], m, bytes);
            },
            Node::Heading(x) => {
                let i = choose|i: int|
                    0 <= i < x.children@.len() && in_tree(m, #[trigger] x.children@[i]);
                lemma_tree_text_defined(x.children@[i], m, bytes);
            },
            Node::Paragraph(x) => {
                let i = choose|i: int|
                    0 <= i < x.children@.len() && in_tree(m, #[trigger] x.children@[i]);
                lemma_tree_text_defined(x.children@[i], m, bytes);
            },
            Node::BlockQuote(x) => {
                let i = choose|i: int|
                    0 <= i < x.children@.len() && in_tree(m, #[trigger] x.children@[i]);
                lemma_tree_text_defined(x.children@[i], m, bytes);
            },
            Node::TextDecoration(x) => {
                let i = choose|i: int|
                    0 <= i < x.children@.len() && in_tree(m, #[trigger] x.children@[i]);
                lemma_tree_text_defined(x.children@[i], m, bytes);
            },
            Node::FootnoteDefinition(x) => {
                let i = choose|i: int|
                    0 <= i < x.children@.len() && in_tree(m, #[trigger] x.children@[i]);
                lemma_tree_text_defined(x.children@[i], m, bytes);
            },
            Node::InlineLink(x) => {
                let i = choose|i: int|
                    0 <= i < x.children@.len() && in_tree(m, #[trigger] x.children@[i]);
                lemma_tree_text_defined(x.children@[i], m, bytes);
            },
            Node::ReferenceLink(x) => {
                let i = choose|i: int|
                    0 <= i < x.children@.len() && in_tree(m, #[trigger] x.children@[i]);
                lemma_tree_text_defined(x.children@[i], m, bytes);
            },
            Node::ShortcutLink(x) => {
                let i = choose|i: int|
                    0 <= i < x.children@.len() && in_tree(m, #[trigger] x.children@[i]);
                lemma_tree_text_defined(x.children@[i], m, bytes);
            },
            Node::AutoLink(x) => {
                let i = choose|i: int|
                    0 <= i < x.children@.len() && in_tree(m, #[trigger] x.children@[i]);
                lemma_tree_text_defined(x.children@[i], m, bytes);
            },
            Node::TableCell(x) => {
                let i = choose|i: int|
                    0 <= i < x.children@.len() && in_tree(m, #[trigger] x.children@[i]);
                lemma_tree_text_defined(x.children@[i], m, bytes);
            },
            Node::Item(x) => {
                if exists|i: int|
                    0 <= i < x.children@.len() && in_tree(m, #[trigger] x.children@[i]) {
                    let i = choose|i: int|
                        0 <= i < x.children@.len() && in_tree(m, #[trigger] x.children@[i]);
                    lemma_tree_text_defined(x.children@[i], m, bytes);
                } else {
                    let i = choose|i: int|
                        0 <= i < x.sub_lists@.len() && in_tree(m, #[trigger] x.sub_lists@[i]);
                    lemma_tree_text_defined(x.sub_lists@[i], m, bytes);
                }
            },
            Node::TableHead(x) => {
                let (i, j) = choose|i: int, j: int|
                    0 <= i < x.cells@.len() && 0 <= j < x.cells@[i].children@.len() && in_tree(
                        m,
                        #[trigger] x.cells@[i].children@[j],
                    );
                lemma_tree_text_defined(x.cells@[i].children@[j], m, bytes);
            },
            Node::TableRow(x) => {
                let (i, j) = choose|i: int, j: int|
                    0 <= i < x.cells@.len() && 0 <= j < x.cells@[i].children@.len() && in_tree(
                        m,
                        #[trigger] x.cells@[i].children@[j],
                    );
                lemma_tree_text_defined(x.cells@[i].children@[j], m, bytes);
            },
            Node::Table(x) => {
                if exists|i: int, j: int|
                    0 <= i < x.header.cells@.len() && 0 <= j < x.header.cells@[i].children@.len()
                        && in_tree(m, #[trigger] x.header.cells@[i].children@[j]) {
                    let (i, j) = choose|i: int, j: int|
                        0 <= i < x.header.cells@.len() && 0 <= j
                            < x.header.cells@[i].children@.len() && in_tree(
                            m,
                            #[trigger] x.header.cells@[i].children@[j],
                        );
                    lemma_tree_text_defined(x.header.cells@[i].children@[j], m, bytes);
                } else {
                    let (i, j, k) = choose|i: int, j: int, k: int|
                        0 <= i < x.rows@.len() && 0 <= j < x.rows@[i].cells@.len() && 0 <= k
                            < x.rows@[i].cells@[j].children@.len() && in_tree(
                            m,
                            #[trigger] x.rows@[i].cells@[j].children@[k],
                        );
                    lemma_tree_text_defined(x.rows@[i].cells@[j].children@[k], m, bytes);
                }
            },
        }
    }
}


/// Checks the sibling invariant of one child list and, recursively, the
/// well-formedness of each child.
fn check_children(parent: &Range, cs: &Vec<Node>) -> (r: bool)
    ensures
        r == (child_spans_ok(*parent, cs@) && (forall|i: int|
            0 <= i < cs@.len() ==> well_formed(#[trigger] cs@[i]))),
    decreases cs@,
{
    let n = cs.len();
    let mut i: usize = 0;
    while i < n
        invariant
            0 <= i <= n,
            n == cs@.len(),
            forall|j: int| 0 <= j < i ==> span_in(*parent, (#[trigger] cs@[j]).spec_range()),
            forall|j: int|
                0 <= j && j + 1 < i ==> (#[trigger] cs@[j]).spec_range().end
                    <= cs@[j + 1].spec_range().start,
            forall|j: int| 0 <= j < i ==> well_formed(#[trigger] cs@[j]),
        decreases n - i,
    {
        let child_range = *cs[i].range();
        if !(parent.start <= child_range.start && child_range.start <= child_range.end
            && child_range.end <= parent.end) {
            assert(!span_in(*parent, cs@[i as int].spec_range()));
            return false;
        }
        if i > 0 {
            let prev_range = *cs[i - 1].range();
            if !(prev_range.end <= child_range.start) {
                return false;
            }
        }
        if !cs[i].is_well_formed() {
            return false;
        }
        i = i + 1;
    }
    true
}

/// Checks the sibling invariant of a header's or row's cells and,
/// recursively, each cell's child list.
fn check_cells(parent: &Range, cells: &Vec<TableCell>) -> (r: bool)
    ensures
        r == (cell_spans_ok(*parent, cells@) && (forall|i: int|
            0 <= i < cells@.len() ==> child_spans_ok(
                (#[trigger] cells@[i]).range,
                cells@[i].children@,
            )) && (forall|i: int, j: int|
            0 <= i < cells@.len() && 0 <= j < cells@[i].children@.len() ==> well_formed(
                #[trigger] cells@[i].children@[j],
            ))),
    decreases cells@,
{
    let n = cells.len();
    let mut i: usize = 0;
    while i < n
        invariant
            0 <= i <= n,
            n == cells@.len(),
            forall|j: int| 0 <= j < i ==> span_in(*parent, (#[trigger] cells@[j]).range),
            forall|j: int|
                0 <= j && j + 1 < i ==> (#[trigger] cells@[j]).range.end <= cells@[j
                    + 1].range.start,
            forall|j: int|
                0 <= j < i ==> child_spans_ok((#[trigger] cells@[j]).range, cells@[j].children@),
            forall|j: int, k: int|
                0 <= j < i && 0 <= k < cells@[j].children@.len() ==> well_formed(
                    #[trigger] cells@[j].children@[k],
                ),
        decreases n - i,
    {
        let cell_range = cells[i].range;
        if !(parent.start <= cell_range.start && cell_range.start <= cell_range.end
            && cell_range.end <= parent.end) {
            assert(!span_in(*parent, cells@[i as int].range));
            return false;
        }
        if i > 0 {
            if !(cells[i - 1].range.end <= cell_range.start) {
                return false;
            }
        }
        if !check_children(&cells[i].range, &cells[i].children) {
            return false;
        }
        i = i + 1;
    }
    true
}

/// Checks the sibling invariant of a table's rows and, recursively,
/// each row's cells.
fn check_rows(parent: &Range, rows: &Vec<TableRow>) -> (r: bool)
    ensures
        r == (row_spans_ok(*parent, rows@) && (forall|i: int|
            0 <= i < rows@.len() ==> cell_spans_ok((#[trigger] rows@[i]).range, rows@[i].cells@))
            && (forall|i: int, j: int|
            0 <= i < rows@.len() && 0 <= j < rows@[i].cells@.len() ==> child_spans_ok(
                (#[trigger] rows@[i].cells@[j]).range,
                rows@[i].cells@[j].children@,
            )) && (forall|i: int, j: int, k: int|
            0 <= i < rows@.len() && 0 <= j < rows@[i].cells@.len() && 0 <= k
                < rows@[i].cells@[j].children@.len() ==> well_formed(
                #[trigger] rows@[i].cells@[j].children@[k],
            ))),
    decreases rows@,
{
    let n = rows.len();
    let mut i: usize = 0;
    while i < n
        invariant
            0 <= i <= n,
            n == rows@.len(),
            forall|j: int| 0 <= j < i ==> span_in(*parent, (#[trigger] rows@[j]).range),
            forall|j: int|
                0 <= j && j + 1 < i ==> (#[trigger] rows@[j]).range.end <= rows@[j + 1].range.start,
            forall|j: int|
                0 <= j < i ==> cell_spans_ok((#[trigger] rows@[j]).range, rows@[j].cells@),
            forall|j: int, k: int|
                0 <= j < i && 0 <= k < rows@[j].cells@.len() ==> child_spans_ok(
                    (#[trigger] rows@[j].cells@[k]).range,
                    rows@[j].cells@[k].children@,
                ),
            forall|j: int, k: int, l: int|
                0 <= j < i && 0 <= k < rows@[j].cells@.len() && 0 <= l
                    < rows@[j].cells@[k].children@.len() ==> well_formed(
                    #[trigger] rows@[j].cells@[k].children@[l],
                ),
        decreases n - i,
    {
        let row_range = rows[i].range;
        if !(parent.start <= row_range.start && row_range.start <= row_range.end
            && row_range.end <= parent.end) {
            assert(!span_in(*parent, rows@[i as int].range));
            return false;
        }
        if i > 0 {
            if !(rows[i - 1].range.end <= row_range.start) {
                return false;
            }
        }
        if !check_cells(&rows[i].range, &rows[i].cells) {
            return false;
        }
        i = i + 1;
    }
    true
}


impl Node {
    /// Checks the structural invariant of the whole tree rooted at this
    /// node: a producer can validate a freshly built tree and fault
    /// loudly instead of letting a corrupted span propagate.
    pub fn is_well_formed(&self) -> (r: bool)
        ensures
            r == well_formed(*self),
        decreases *self,
    {
        match self {
            Node::NotImplemented(x) => x.range.start <= x.range.end,
            Node::Text(x) => x.range.start <= x.range.end,
            Node::Html(x) => x.range.start <= x.range.end,
            Node::FootnoteReference(x) => x.range.start <= x.range.end,
            Node::LinkReference(x) => x.range.start <= x.range.end,
            Node::InlineImage(x) => x.range.start <= x.range.end,
            Node::ReferenceImage(x) => x.range.start <= x.range.end,
            Node::TaskListMarker(x) => x.range.start <= x.range.end,
            Node::SoftBreak(x) => x.range.start <= x.range.end,
            Node::HardBreak(x) => x.range.start <= x.range.end,
            Node::Code(x) => x.range.start <= x.range.end,
            Node::CodeBlock(x) => x.range.start <= x.range.end,
            Node::HorizontalRule(x) => x.range.start <= x.range.end,
            Node::Heading(x) => x.range.start <= x.range.end && check_children(
                &x.range,
                &x.children,
            ),
            Node::Paragraph(x) => x.range.start <= x.range.end && check_children(
                &x.range,
                &x.children,
            ),
            Node::BlockQuote(x) => x.range.start <= x.range.end && check_children(
                &x.range,
                &x.children,
            ),
            Node::TextDecoration(x) => x.range.start <= x.range.end && check_children(
                &x.range,
                &x.children,
            ),
            Node::FootnoteDefinition(x) => x.range.start <= x.range.end && check_children(
                &x.range,
                &x.children,
            ),
            Node::InlineLink(x) => x.range.start <= x.range.end && check_children(
                &x.range,
                &x.children,
            ),
            Node::ReferenceLink(x) => x.range.start <= x.range.end && check_children(
                &x.range,
                &x.children,
            ),
            Node::ShortcutLink(x) => x.range.start <= x.range.end && check_children(
                &x.range,
                &x.children,
            ),
            Node::AutoLink(x) => x.range.start <= x.range.end && check_children(
                &x.range,
                &x.children,
            ),
            Node::TableCell(x) => x.range.start <= x.range.end && check_children(
                &x.range,
                &x.children,
            ),
            Node::List(x) => x.range.start <= x.range.end && check_children(
                &x.range,
                &x.children,
            ),
            Node::SourceFile(x) => {
                let header_ok = match &x.yaml_header {
                    Option::Some(h) => x.range.start <= h.range.start && h.range.start
                        <= h.range.end && h.range.end <= x.range.end,
                    Option::None => true,
                };
                x.range.start <= x.range.end && check_children(&x.range, &x.children) && header_ok
            },
            Node::Item(x) => {
                let marker_ok = match &x.marker {
                    Option::Some(mk) => x.range.start <= mk.range.start && mk.range.start
                        <= mk.range.end && mk.range.end <= x.range.end,
                    Option::None => true,
                };
                x.range.start <= x.range.end && check_children(&x.range, &x.children)
                    && check_children(&x.range, &x.sub_lists) && marker_ok
            },
            Node::TableHead(x) => x.range.start <= x.range.end && check_cells(
                &x.range,
                &x.cells,
            ),
            Node::TableRow(x) => x.range.start <= x.range.end && check_cells(&x.range, &x.cells),
            Node::Table(x) => {
                x.range.start <= x.range.end && (x.range.start <= x.header.range.start
                    && x.header.range.start <= x.header.range.end && x.header.range.end
                    <= x.range.end) && check_cells(&x.header.range, &x.header.cells) && check_rows(
                    &x.range,
                    &x.rows,
                )
            },
        }
    }
}


/// Checks that every span under each node of one child list is valid
/// for the run's source text.
fn check_children_spans(cs: &Vec<Node>, file_text: &str) -> (r: bool)
    ensures
        r == (forall|i: int|
            0 <= i < cs@.len() ==> spans_valid(#[trigger] cs@[i], file_text.spec_bytes())),
    decreases cs@,
{
    let n = cs.len();
    let mut i: usize = 0;
    while i < n
        invariant
            0 <= i <= n,
            n == cs@.len(),
            forall|j: int|
                0 <= j < i ==> spans_valid(#[trigger] cs@[j], file_text.spec_bytes()),
        decreases n - i,
    {
        if !cs[i].spans_valid_for(file_text) {
            return false;
        }
        i = i + 1;
    }
    true
}

/// Checks that every span under each cell of a header or row is valid
/// for the run's source text.
fn check_cells_spans(cells: &Vec<TableCell>, file_text: &str) -> (r: bool)
    ensures
        r == ((forall|i: int|
            0 <= i < cells@.len() ==> (#[trigger] cells@[i]).range.valid_for(
                file_text.spec_bytes(),
            )) && (forall|i: int, j: int|
            0 <= i < cells@.len() && 0 <= j < cells@[i].children@.len() ==> spans_valid(
                #[trigger] cells@[i].children@[j],
                file_text.spec_bytes(),
            ))),
    decreases cells@,
{
    let n = cells.len();
    let mut i: usize = 0;
    while i < n
        invariant
            0 <= i <= n,
            n == cells@.len(),
            forall|j: int|
                0 <= j < i ==> (#[trigger] cells@[j]).range.valid_for(file_text.spec_bytes()),
            forall|j: int, k: int|
                0 <= j < i && 0 <= k < cells@[j].children@.len() ==> spans_valid(
                    #[trigger] cells@[j].children@[k],
                    file_text.spec_bytes(),
                ),
        decreases n - i,
    {
        if !cells[i].range.is_valid_for(file_text) {
            return false;
        }
        if !check_children_spans(&cells[i].children, file_text) {
            return false;
        }
        i = i + 1;
    }
    true
}

/// Checks that every span under each row of a table is valid for the
/// run's source text.
fn check_rows_spans(rows: &Vec<TableRow>, file_text: &str) -> (r: bool)
    ensures
        r == ((forall|i: int|
            0 <= i < rows@.len() ==> (#[trigger] rows@[i]).range.valid_for(file_text.spec_bytes()))
            && (forall|i: int, j: int|
            0 <= i < rows@.len() && 0 <= j < rows@[i].cells@.len()
                ==> (#[trigger] rows@[i].cells@[j]).range.valid_for(file_text.spec_bytes())) && (
        forall|i: int, j: int, k: int|
            0 <= i < rows@.len() && 0 <= j < rows@[i].cells@.len() && 0 <= k
                < rows@[i].cells@[j].children@.len() ==> spans_valid(
                #[trigger] rows@[i].cells@[j].children@[k],
                file_text.spec_bytes(),
            ))),
    decreases rows@,
{
    let n = rows.len();
    let mut i: usize = 0;
    while i < n
        invariant
            0 <= i <= n,
            n == rows@.len(),
            forall|j: int|
                0 <= j < i ==> (#[trigger] rows@[j]).range.valid_for(file_text.spec_bytes()),
            forall|j: int, k: int|
                0 <= j < i && 0 <= k < rows@[j].cells@.len()
                    ==> (#[trigger] rows@[j].cells@[k]).range.valid_for(file_text.spec_bytes()),
            forall|j: int, k: int, l: int|
                0 <= j < i && 0 <= k < rows@[j].cells@.len() && 0 <= l
                    < rows@[j].cells@[k].children@.len() ==> spans_valid(
                    #[trigger] rows@[j].cells@[k].children@[l],
                    file_text.spec_bytes(),
                ),
        decreases n - i,
    {
        if !rows[i].range.is_valid_for(file_text) {
            return false;
        }
        if !check_cells_spans(&rows[i].cells, file_text) {
            return false;
        }
        i = i + 1;
    }
    true
}

impl Node {
    /// Checks the producer contract against the run's source text:
    /// every span in the tree rooted at this node is a valid sub-range
    /// of that text on character boundaries, so the verbatim text of
    /// every node of the tree is defined.
    pub fn spans_valid_for(&self, file_text: &str) -> (r: bool)
        ensures
            r == spans_valid(*self, file_text.spec_bytes()),
        decreases *self,
    {
        match self {
            Node::NotImplemented(x) => x.range.is_valid_for(file_text),
            Node::Text(x) => x.range.is_valid_for(file_text),
            Node::Html(x) => x.range.is_valid_for(file_text),
            Node::FootnoteReference(x) => x.range.is_valid_for(file_text),
            Node::LinkReference(x) => x.range.is_valid_for(file_text),
            Node::InlineImage(x) => x.range.is_valid_for(file_text),
            Node::ReferenceImage(x) => x.range.is_valid_for(file_text),
            Node::TaskListMarker(x) => x.range.is_valid_for(file_text),
            Node::SoftBreak(x) => x.range.is_valid_for(file_text),
            Node::HardBreak(x) => x.range.is_valid_for(file_text),
            Node::Code(x) => x.range.is_valid_for(file_text),
            Node::CodeBlock(x) => x.range.is_valid_for(file_text),
            Node::HorizontalRule(x) => x.range.is_valid_for(file_text),
            Node::Heading(x) => x.range.is_valid_for(file_text) && check_children_spans(
                &x.children,
                file_text,
            ),
            Node::Paragraph(x) => x.range.is_valid_for(file_text) && check_children_spans(
                &x.children,
                file_text,
            ),
            Node::BlockQuote(x) => x.range.is_valid_for(file_text) && check_children_spans(
                &x.children,
                file_text,
            ),
            Node::TextDecoration(x) => x.range.is_valid_for(file_text) && check_children_spans(
                &x.children,
                file_text,
            ),
            Node::FootnoteDefinition(x) => x.range.is_valid_for(file_text) && check_children_spans(
                &x.children,
                file_text,
            ),
            Node::InlineLink(x) => x.range.is_valid_for(file_text) && check_children_spans(
                &x.children,
                file_text,
            ),
            Node::ReferenceLink(x) => x.range.is_valid_for(file_text) && check_children_spans(
                &x.children,
                file_text,
            ),
            Node::ShortcutLink(x) => x.range.is_valid_for(file_text) && check_children_spans(
                &x.children,
                file_text,
            ),
            Node::AutoLink(x) => x.range.is_valid_for(file_text) && check_children_spans(
                &x.children,
                file_text,
            ),
            Node::TableCell(x) => x.range.is_valid_for(file_text) && check_children_spans(
                &x.children,
                file_text,
            ),
            Node::List(x) => x.range.is_valid_for(file_text) && check_children_spans(
                &x.children,
                file_text,
            ),
            Node::SourceFile(x) => {
                let header_ok = match &x.yaml_header {
                    Option::Some(h) => h.range.is_valid_for(file_text),
                    Option::None => true,
                };
                x.range.is_valid_for(file_text) && check_children_spans(&x.children, file_text)
                    && header_ok
            },
            Node::Item(x) => {
                let marker_ok = match &x.marker {
                    Option::Some(mk) => mk.range.is_valid_for(file_text),
                    Option::None => true,
                };
                x.range.is_valid_for(file_text) && check_children_spans(&x.children, file_text)
                    && check_children_spans(&x.sub_lists, file_text) && marker_ok
            },
            Node::TableHead(x) => x.range.is_valid_for(file_text) && check_cells_spans(
                &x.cells,
                file_text,
            ),
            Node::TableRow(x) => x.range.is_valid_for(file_text) && check_cells_spans(
                &x.cells,
                file_text,
            ),
            Node::Table(x) => {
                x.range.is_valid_for(file_text) && x.header.range.is_valid_for(file_text)
                    && check_cells_spans(&x.header.cells, file_text) && check_rows_spans(
                    &x.rows,
                    file_text,
                )
            },
        }
    }
}

} // verus!

