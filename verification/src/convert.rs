//! Lossless conversion from each concrete node kind into the shared
//! polymorphic [`Node`] value, and the law that wrapping a kind and
//! recovering its range through the value's dispatch is the identity on
//! ranges.

use vstd::prelude::*;
use vstd::std_specs::convert::FromSpec;

use crate::nodes::{Node, Ranged, NotImplemented, SourceFile, Heading, Paragraph, BlockQuote, Text, TextDecoration, Html, FootnoteReference, FootnoteDefinition, InlineLink, ReferenceLink, ShortcutLink, AutoLink, LinkReference, InlineImage, ReferenceImage, List, Item, TaskListMarker, SoftBreak, HardBreak, Code, CodeBlock, HorizontalRule, Table, TableHead, TableRow, TableCell};

verus! {

impl From<NotImplemented> for Node {
    fn from(node: NotImplemented) -> Node {
        Node::NotImplemented(node)
    }
}

impl vstd::std_specs::convert::FromSpecImpl<NotImplemented> for Node {
    open spec fn obeys_from_spec() -> bool {
        true
    }

    open spec fn from_spec(node: NotImplemented) -> Node {
        Node::NotImplemented(node)
    }
}

impl From<SourceFile> for Node {
    fn from(node: SourceFile) -> Node {
        Node::SourceFile(node)
    }
}

impl vstd::std_specs::convert::FromSpecImpl<SourceFile> for Node {
    open spec fn obeys_from_spec() -> bool {
        true
    }

    open spec fn from_spec(node: SourceFile) -> Node {
        Node::SourceFile(node)
    }
}

impl From<Heading> for Node {
    fn from(node: Heading) -> Node {
        Node::Heading(node)
    }
}

impl vstd::std_specs::convert::FromSpecImpl<Heading> for Node {
    open spec fn obeys_from_spec() -> bool {
        true
    }

    open spec fn from_spec(node: Heading) -> Node {
        Node::Heading(node)
    }
}

impl From<Paragraph> for Node {
    fn from(node: Paragraph) -> Node {
        Node::Paragraph(node)
    }
}

impl vstd::std_specs::convert::FromSpecImpl<Paragraph> for Node {
    open spec fn obeys_from_spec() -> bool {
        true
    }

    open spec fn from_spec(node: Paragraph) -> Node {
        Node::Paragraph(node)
    }
}

impl From<BlockQuote> for Node {
    fn from(node: BlockQuote) -> Node {
        Node::BlockQuote(node)
    }
}

impl vstd::std_specs::convert::FromSpecImpl<BlockQuote> for Node {
    open spec fn obeys_from_spec() -> bool {
        true
    }

    open spec fn from_spec(node: BlockQuote) -> Node {
        Node::BlockQuote(node)
    }
}

impl From<Text> for Node {
    fn from(node: Text) -> Node {
        Node::Text(node)
    }
}

impl vstd::std_specs::convert::FromSpecImpl<Text> for Node {
    open spec fn obeys_from_spec() -> bool {
        true
    }

    open spec fn from_spec(node: Text) -> Node {
        Node::Text(node)
    }
}

impl From<TextDecoration> for Node {
    fn from(node: TextDecoration) -> Node {
        Node::TextDecoration(node)
    }
}

impl vstd::std_specs::convert::FromSpecImpl<TextDecoration> for Node {
    open spec fn obeys_from_spec() -> bool {
        true
    }

    open spec fn from_spec(node: TextDecoration) -> Node {
        Node::TextDecoration(node)
    }
}

impl From<Html> for Node {
    fn from(node: Html) -> Node {
        Node::Html(node)
    }
}

impl vstd::std_specs::convert::FromSpecImpl<Html> for Node {
    open spec fn obeys_from_spec() -> bool {
        true
    }

    open spec fn from_spec(node: Html) -> Node {
        Node::Html(node)
    }
}

impl From<FootnoteReference> for Node {
    fn from(node: FootnoteReference) -> Node {
        Node::FootnoteReference(node)
    }
}

impl vstd::std_specs::convert::FromSpecImpl<FootnoteReference> for Node {
    open spec fn obeys_from_spec() -> bool {
        true
    }

    open spec fn from_spec(node: FootnoteReference) -> Node {
        Node::FootnoteReference(node)
    }
}

impl From<FootnoteDefinition> for Node {
    fn from(node: FootnoteDefinition) -> Node {
        Node::FootnoteDefinition(node)
    }
}

impl vstd::std_specs::convert::FromSpecImpl<FootnoteDefinition> for Node {
    open spec fn obeys_from_spec() -> bool {
        true
    }

    open spec fn from_spec(node: FootnoteDefinition) -> Node {
        Node::FootnoteDefinition(node)
    }
}

impl From<InlineLink> for Node {
    fn from(node: InlineLink) -> Node {
        Node::InlineLink(node)
    }
}

impl vstd::std_specs::convert::FromSpecImpl<InlineLink> for Node {
    open spec fn obeys_from_spec() -> bool {
        true
    }

    open spec fn from_spec(node: InlineLink) -> Node {
        Node::InlineLink(node)
    }
}

impl From<ReferenceLink> for Node {
    fn from(node: ReferenceLink) -> Node {
        Node::ReferenceLink(node)
    }
}

impl vstd::std_specs::convert::FromSpecImpl<ReferenceLink> for Node {
    open spec fn obeys_from_spec() -> bool {
        true
    }

    open spec fn from_spec(node: ReferenceLink) -> Node {
        Node::ReferenceLink(node)
    }
}

impl From<ShortcutLink> for Node {
    fn from(node: ShortcutLink) -> Node {
        Node::ShortcutLink(node)
    }
}

impl vstd::std_specs::convert::FromSpecImpl<ShortcutLink> for Node {
    open spec fn obeys_from_spec() -> bool {
        true
    }

    open spec fn from_spec(node: ShortcutLink) -> Node {
        Node::ShortcutLink(node)
    }
}

impl From<AutoLink> for Node {
    fn from(node: AutoLink) -> Node {
        Node::AutoLink(node)
    }
}

impl vstd::std_specs::convert::FromSpecImpl<AutoLink> for Node {
    open spec fn obeys_from_spec() -> bool {
        true
    }

    open spec fn from_spec(node: AutoLink) -> Node {
        Node::AutoLink(node)
    }
}

impl From<LinkReference> for Node {
    fn from(node: LinkReference) -> Node {
        Node::LinkReference(node)
    }
}

impl vstd::std_specs::convert::FromSpecImpl<LinkReference> for Node {
    open spec fn obeys_from_spec() -> bool {
        true
    }

    open spec fn from_spec(node: LinkReference) -> Node {
        Node::LinkReference(node)
    }
}

impl From<InlineImage> for Node {
    fn from(node: InlineImage) -> Node {
        Node::InlineImage(node)
    }
}

impl vstd::std_specs::convert::FromSpecImpl<InlineImage> for Node {
    open spec fn obeys_from_spec() -> bool {
        true
    }

    open spec fn from_spec(node: InlineImage) -> Node {
        Node::InlineImage(node)
    }
}

impl From<ReferenceImage> for Node {
    fn from(node: ReferenceImage) -> Node {
        Node::ReferenceImage(node)
    }
}

impl vstd::std_specs::convert::FromSpecImpl<ReferenceImage> for Node {
    open spec fn obeys_from_spec() -> bool {
        true
    }

    open spec fn from_spec(node: ReferenceImage) -> Node {
        Node::ReferenceImage(node)
    }
}

impl From<List> for Node {
    fn from(node: List) -> Node {
        Node::List(node)
    }
}

impl vstd::std_specs::convert::FromSpecImpl<List> for Node {
    open spec fn obeys_from_spec() -> bool {
        true
    }

    open spec fn from_spec(node: List) -> Node {
        Node::List(node)
    }
}

impl From<Item> for Node {
    fn from(node: Item) -> Node {
        Node::Item(node)
    }
}

impl vstd::std_specs::convert::FromSpecImpl<Item> for Node {
    open spec fn obeys_from_spec() -> bool {
        true
    }

    open spec fn from_spec(node: Item) -> Node {
        Node::Item(node)
    }
}

impl From<TaskListMarker> for Node {
    fn from(node: TaskListMarker) -> Node {
        Node::TaskListMarker(node)
    }
}

impl vstd::std_specs::convert::FromSpecImpl<TaskListMarker> for Node {
    open spec fn obeys_from_spec() -> bool {
        true
    }

    open spec fn from_spec(node: TaskListMarker) -> Node {
        Node::TaskListMarker(node)
    }
}

impl From<SoftBreak> for Node {
    fn from(node: SoftBreak) -> Node {
        Node::SoftBreak(node)
    }
}

impl vstd::std_specs::convert::FromSpecImpl<SoftBreak> for Node {
    open spec fn obeys_from_spec() -> bool {
        true
    }

    open spec fn from_spec(node: SoftBreak) -> Node {
        Node::SoftBreak(node)
    }
}

impl From<HardBreak> for Node {
    fn from(node: HardBreak) -> Node {
        Node::HardBreak(node)
    }
}

impl vstd::std_specs::convert::FromSpecImpl<HardBreak> for Node {
    open spec fn obeys_from_spec() -> bool {
        true
    }

    open spec fn from_spec(node: HardBreak) -> Node {
        Node::HardBreak(node)
    }
}

impl From<Code> for Node {
    fn from(node: Code) -> Node {
        Node::Code(node)
    }
}

impl vstd::std_specs::convert::FromSpecImpl<Code> for Node {
    open spec fn obeys_from_spec() -> bool {
        true
    }

    open spec fn from_spec(node: Code) -> Node {
        Node::Code(node)
    }
}

impl From<CodeBlock> for Node {
    fn from(node: CodeBlock) -> Node {
        Node::CodeBlock(node)
    }
}

impl vstd::std_specs::convert::FromSpecImpl<CodeBlock> for Node {
    open spec fn obeys_from_spec() -> bool {
        true
    }

    open spec fn from_spec(node: CodeBlock) -> Node {
        Node::CodeBlock(node)
    }
}

impl From<HorizontalRule> for Node {
    fn from(node: HorizontalRule) -> Node {
        Node::HorizontalRule(node)
    }
}

impl vstd::std_specs::convert::FromSpecImpl<HorizontalRule> for Node {
    open spec fn obeys_from_spec() -> bool {
        true
    }

    open spec fn from_spec(node: HorizontalRule) -> Node {
        Node::HorizontalRule(node)
    }
}

impl From<Table> for Node {
    fn from(node: Table) -> Node {
        Node::Table(node)
    }
}

impl vstd::std_specs::convert::FromSpecImpl<Table> for Node {
    open spec fn obeys_from_spec() -> bool {
        true
    }

    open spec fn from_spec(node: Table) -> Node {
        Node::Table(node)
    }
}

impl From<TableHead> for Node {
    fn from(node: TableHead) -> Node {
        Node::TableHead(node)
    }
}

impl vstd::std_specs::convert::FromSpecImpl<TableHead> for Node {
    open spec fn obeys_from_spec() -> bool {
        true
    }

    open spec fn from_spec(node: TableHead) -> Node {
        Node::TableHead(node)
    }
}

impl From<TableRow> for Node {
    fn from(node: TableRow) -> Node {
        Node::TableRow(node)
    }
}

impl vstd::std_specs::convert::FromSpecImpl<TableRow> for Node {
    open spec fn obeys_from_spec() -> bool {
        true
    }

    open spec fn from_spec(node: TableRow) -> Node {
        Node::TableRow(node)
    }
}

impl From<TableCell> for Node {
    fn from(node: TableCell) -> Node {
        Node::TableCell(node)
    }
}

impl vstd::std_specs::convert::FromSpecImpl<TableCell> for Node {
    open spec fn obeys_from_spec() -> bool {
        true
    }

    open spec fn from_spec(node: TableCell) -> Node {
        Node::TableCell(node)
    }
}

/// For the concrete kind held by `n`: converting that kind into the
/// shared polymorphic value yields exactly `n`, and the range recovered
/// through the value's dispatch equals the concrete node's own range.
pub open spec fn wraps_losslessly(n: Node) -> bool {
    match n {
        Node::NotImplemented(x) => <Node as FromSpec<NotImplemented>>::from_spec(x) == n && n.spec_range() == x.spec_range(),
        Node::SourceFile(x) => <Node as FromSpec<SourceFile>>::from_spec(x) == n && n.spec_range() == x.spec_range(),
        Node::Heading(x) => <Node as FromSpec<Heading>>::from_spec(x) == n && n.spec_range() == x.spec_range(),
        Node::Paragraph(x) => <Node as FromSpec<Paragraph>>::from_spec(x) == n && n.spec_range() == x.spec_range(),
        Node::BlockQuote(x) => <Node as FromSpec<BlockQuote>>::from_spec(x) == n && n.spec_range() == x.spec_range(),
        Node::Text(x) => <Node as FromSpec<Text>>::from_spec(x) == n && n.spec_range() == x.spec_range(),
        Node::TextDecoration(x) => <Node as FromSpec<TextDecoration>>::from_spec(x) == n && n.spec_range() == x.spec_range(),
        Node::Html(x) => <Node as FromSpec<Html>>::from_spec(x) == n && n.spec_range() == x.spec_range(),
        Node::FootnoteReference(x) => <Node as FromSpec<FootnoteReference>>::from_spec(x) == n && n.spec_range() == x.spec_range(),
        Node::FootnoteDefinition(x) => <Node as FromSpec<FootnoteDefinition>>::from_spec(x) == n && n.spec_range() == x.spec_range(),
        Node::InlineLink(x) => <Node as FromSpec<InlineLink>>::from_spec(x) == n && n.spec_range() == x.spec_range(),
        Node::ReferenceLink(x) => <Node as FromSpec<ReferenceLink>>::from_spec(x) == n && n.spec_range() == x.spec_range(),
        Node::ShortcutLink(x) => <Node as FromSpec<ShortcutLink>>::from_spec(x) == n && n.spec_range() == x.spec_range(),
        Node::AutoLink(x) => <Node as FromSpec<AutoLink>>::from_spec(x) == n && n.spec_range() == x.spec_range(),
        Node::LinkReference(x) => <Node as FromSpec<LinkReference>>::from_spec(x) == n && n.spec_range() == x.spec_range(),
        Node::InlineImage(x) => <Node as FromSpec<InlineImage>>::from_spec(x) == n && n.spec_range() == x.spec_range(),
        Node::ReferenceImage(x) => <Node as FromSpec<ReferenceImage>>::from_spec(x) == n && n.spec_range() == x.spec_range(),
        Node::List(x) => <Node as FromSpec<List>>::from_spec(x) == n && n.spec_range() == x.spec_range(),
        Node::Item(x) => <Node as FromSpec<Item>>::from_spec(x) == n && n.spec_range() == x.spec_range(),
        Node::TaskListMarker(x) => <Node as FromSpec<TaskListMarker>>::from_spec(x) == n && n.spec_range() == x.spec_range(),
        Node::SoftBreak(x) => <Node as FromSpec<SoftBreak>>::from_spec(x) == n && n.spec_range() == x.spec_range(),
        Node::HardBreak(x) => <Node as FromSpec<HardBreak>>::from_spec(x) == n && n.spec_range() == x.spec_range(),
        Node::Code(x) => <Node as FromSpec<Code>>::from_spec(x) == n && n.spec_range() == x.spec_range(),
        Node::CodeBlock(x) => <Node as FromSpec<CodeBlock>>::from_spec(x) == n && n.spec_range() == x.spec_range(),
        Node::HorizontalRule(x) => <Node as FromSpec<HorizontalRule>>::from_spec(x) == n && n.spec_range() == x.spec_range(),
        Node::Table(x) => <Node as FromSpec<Table>>::from_spec(x) == n && n.spec_range() == x.spec_range(),
        Node::TableHead(x) => <Node as FromSpec<TableHead>>::from_spec(x) == n && n.spec_range() == x.spec_range(),
        Node::TableRow(x) => <Node as FromSpec<TableRow>>::from_spec(x) == n && n.spec_range() == x.spec_range(),
        Node::TableCell(x) => <Node as FromSpec<TableCell>>::from_spec(x) == n && n.spec_range() == x.spec_range(),
    }
}

/// Law: wrapping any concrete kind into the shared polymorphic value and
/// recovering its range through that value's dispatch yields the same
/// range as the concrete value had on its own.
pub proof fn lemma_wrap_round_trip(n: Node)
    ensures
        wraps_losslessly(n),
{
}

} // verus!
