//! Node kind definitions: one concrete shape per syntactic construct the
//! upstream parser recognizes, and the closed polymorphic `Node` value
//! joining all of them so they can appear interchangeably inside child
//! lists.
//!
//! Every kind owns a [`Range`] plus either scalar fields or a child-node
//! collection it exclusively owns.  Container kinds own an ordered
//! sequence of children in document order; leaf kinds carry scalar or
//! string payloads set by the parser independent of the range.

use vstd::prelude::*;
use vstd::string::StringSliceAdditionalSpecFns;

use crate::source::{
    ends_with_punctuation_spec, is_punctuation_byte, preceded_by_space, slice_of,
    starts_with_punctuation_spec, text_of_range, Context, Range,
};
use crate::words::{first_word, first_word_of, is_list_word, is_list_word_spec};

verus! {

/// Uniform "has a span / can recover its verbatim source text" behavior
/// shared by every node kind.
///
/// `range` returns the node's own span by reference; `text` returns the
/// exact substring of the run's source text covered by that span, with a
/// lifetime tied to the context's backing text rather than to the node
/// itself.  The producing parser owes `Range::valid_for` on every range
/// it builds against the text later supplied as the context's source.
pub trait Ranged {
    /// The node's own span, as contracts speak of it.
    spec fn spec_range(&self) -> Range;

    /// The node's own span.
    fn range(&self) -> (r: &Range)
        ensures
            *r == self.spec_range(),
    ;

    /// The verbatim source fragment covered by the node's span.
    fn text<'a>(&self, context: &Context<'a>) -> (t: &'a str)
        requires
            self.spec_range().valid_for(context.file_text.spec_bytes()),
        ensures
            t.spec_bytes() == slice_of(context.file_text.spec_bytes(), self.spec_range()),
            t@ == vstd::utf8::decode_utf8(
                slice_of(context.file_text.spec_bytes(), self.spec_range()),
            ),
    ;
}

/// Root of a parsed document, owning the top-level children and an
/// optional YAML header block.
pub struct SourceFile {
    pub range: Range,
    pub children: Vec<Node>,
    pub yaml_header: Option<YamlHeader>,
}

pub struct YamlHeader {
    pub range: Range,
    pub text: String,
}

pub struct Heading {
    pub range: Range,
    pub level: u32,
    pub children: Vec<Node>,
}

pub struct Paragraph {
    pub range: Range,
    pub children: Vec<Node>,
}

pub struct BlockQuote {
    pub range: Range,
    pub children: Vec<Node>,
}

pub struct Text {
    pub range: Range,
    pub text: String,
}

#[derive(Clone, Copy, PartialEq, Eq, Structural, Debug)]
pub enum TextDecorationKind {
    Emphasis,
    Strong,
    Strikethrough,
}

pub struct TextDecoration {
    pub range: Range,
    pub kind: TextDecorationKind,
    pub children: Vec<Node>,
}

pub struct Html {
    pub range: Range,
    pub text: String,
}

pub struct FootnoteReference {
    pub range: Range,
    pub name: String,
}

pub struct FootnoteDefinition {
    pub range: Range,
    pub name: String,
    pub children: Vec<Node>,
}

pub struct InlineLink {
    pub range: Range,
    pub children: Vec<Node>,
    pub url: String,
    pub title: Option<String>,
}

pub struct ReferenceLink {
    pub range: Range,
    pub children: Vec<Node>,
    pub reference: String,
}

pub struct ShortcutLink {
    pub range: Range,
    pub children: Vec<Node>,
}

pub struct AutoLink {
    pub range: Range,
    pub children: Vec<Node>,
}

pub struct LinkReference {
    pub range: Range,
    pub name: String,
    pub link: String,
    pub title: Option<String>,
}

pub struct InlineImage {
    pub range: Range,
    pub text: String,
    pub url: String,
    pub title: Option<String>,
}

pub struct ReferenceImage {
    pub range: Range,
    pub text: String,
    pub reference: String,
}

pub struct SoftBreak {
    pub range: Range,
}

pub struct HardBreak {
    pub range: Range,
}

pub struct List {
    pub range: Range,
    pub start_index: Option<u64>,
    pub children: Vec<Node>,
}

pub struct Item {
    pub range: Range,
    pub marker: Option<TaskListMarker>,
    pub children: Vec<Node>,
    pub sub_lists: Vec<Node>,
}

pub struct TaskListMarker {
    pub range: Range,
    pub is_checked: bool,
}

/// Inline code.
pub struct Code {
    pub range: Range,
    pub code: String,
}

pub struct CodeBlock {
    pub range: Range,
    pub tag: Option<String>,
    pub is_fenced: bool,
    pub code: String,
}

pub struct HorizontalRule {
    pub range: Range,
}

pub struct Table {
    pub range: Range,
    pub header: TableHead,
    pub column_alignment: Vec<ColumnAlignment>,
    pub rows: Vec<TableRow>,
}

pub struct TableHead {
    pub range: Range,
    pub cells: Vec<TableCell>,
}

pub struct TableRow {
    pub range: Range,
    pub cells: Vec<TableCell>,
}

pub struct TableCell {
    pub range: Range,
    pub children: Vec<Node>,
}

#[derive(Clone, Copy, PartialEq, Eq, Structural, Debug)]
pub enum ColumnAlignment {
    Unaligned,
    Left,
    Center,
    Right,
}

/// Placeholder for a construct the parser recognized but this model does
/// not represent further; only its span is kept.
pub struct NotImplemented {
    pub range: Range,
}

/// Closed polymorphic value over all node kinds.  The set of variants is
/// exactly the set of concrete shapes above; dispatch on the tag is
/// exhaustive by construction.
pub enum Node {
    NotImplemented(NotImplemented),
    SourceFile(SourceFile),
    Heading(Heading),
    Paragraph(Paragraph),
    BlockQuote(BlockQuote),
    Text(Text),
    TextDecoration(TextDecoration),
    Html(Html),
    FootnoteReference(FootnoteReference),
    FootnoteDefinition(FootnoteDefinition),
    InlineLink(InlineLink),
    ReferenceLink(ReferenceLink),
    ShortcutLink(ShortcutLink),
    AutoLink(AutoLink),
    LinkReference(LinkReference),
    InlineImage(InlineImage),
    ReferenceImage(ReferenceImage),
    List(List),
    Item(Item),
    TaskListMarker(TaskListMarker),
    SoftBreak(SoftBreak),
    HardBreak(HardBreak),
    Code(Code),
    CodeBlock(CodeBlock),
    HorizontalRule(HorizontalRule),
    Table(Table),
    TableHead(TableHead),
    TableRow(TableRow),
    TableCell(TableCell),
}

impl Ranged for SourceFile {
    open spec fn spec_range(&self) -> Range {
        self.range
    }

    fn range(&self) -> &Range {
        &self.range
    }

    fn text<'a>(&self, context: &Context<'a>) -> &'a str {
        text_of_range(&self.range, context.file_text)
    }
}

impl Ranged for NotImplemented {
    open spec fn spec_range(&self) -> Range {
        self.range
    }

    fn range(&self) -> &Range {
        &self.range
    }

    fn text<'a>(&self, context: &Context<'a>) -> &'a str {
        text_of_range(&self.range, context.file_text)
    }
}

impl Ranged for YamlHeader {
    open spec fn spec_range(&self) -> Range {
        self.range
    }

    fn range(&self) -> &Range {
        &self.range
    }

    fn text<'a>(&self, context: &Context<'a>) -> &'a str {
        text_of_range(&self.range, context.file_text)
    }
}

impl Ranged for Heading {
    open spec fn spec_range(&self) -> Range {
        self.range
    }

    fn range(&self) -> &Range {
        &self.range
    }

    fn text<'a>(&self, context: &Context<'a>) -> &'a str {
        text_of_range(&self.range, context.file_text)
    }
}

impl Ranged for Paragraph {
    open spec fn spec_range(&self) -> Range {
        self.range
    }

    fn range(&self) -> &Range {
        &self.range
    }

    fn text<'a>(&self, context: &Context<'a>) -> &'a str {
        text_of_range(&self.range, context.file_text)
    }
}

impl Ranged for BlockQuote {
    open spec fn spec_range(&self) -> Range {
        self.range
    }

    fn range(&self) -> &Range {
        &self.range
    }

    fn text<'a>(&self, context: &Context<'a>) -> &'a str {
        text_of_range(&self.range, context.file_text)
    }
}

impl Ranged for Text {
    open spec fn spec_range(&self) -> Range {
        self.range
    }

    fn range(&self) -> &Range {
        &self.range
    }

    fn text<'a>(&self, context: &Context<'a>) -> &'a str {
        text_of_range(&self.range, context.file_text)
    }
}

impl Ranged for TextDecoration {
    open spec fn spec_range(&self) -> Range {
        self.range
    }

    fn range(&self) -> &Range {
        &self.range
    }

    fn text<'a>(&self, context: &Context<'a>) -> &'a str {
        text_of_range(&self.range, context.file_text)
    }
}

impl Ranged for Html {
    open spec fn spec_range(&self) -> Range {
        self.range
    }

    fn range(&self) -> &Range {
        &self.range
    }

    fn text<'a>(&self, context: &Context<'a>) -> &'a str {
        text_of_range(&self.range, context.file_text)
    }
}

impl Ranged for FootnoteReference {
    open spec fn spec_range(&self) -> Range {
        self.range
    }

    fn range(&self) -> &Range {
        &self.range
    }

    fn text<'a>(&self, context: &Context<'a>) -> &'a str {
        text_of_range(&self.range, context.file_text)
    }
}

impl Ranged for FootnoteDefinition {
    open spec fn spec_range(&self) -> Range {
        self.range
    }

    fn range(&self) -> &Range {
        &self.range
    }

    fn text<'a>(&self, context: &Context<'a>) -> &'a str {
        text_of_range(&self.range, context.file_text)
    }
}

impl Ranged for InlineLink {
    open spec fn spec_range(&self) -> Range {
        self.range
    }

    fn range(&self) -> &Range {
        &self.range
    }

    fn text<'a>(&self, context: &Context<'a>) -> &'a str {
        text_of_range(&self.range, context.file_text)
    }
}

impl Ranged for ReferenceLink {
    open spec fn spec_range(&self) -> Range {
        self.range
    }

    fn range(&self) -> &Range {
        &self.range
    }

    fn text<'a>(&self, context: &Context<'a>) -> &'a str {
        text_of_range(&self.range, context.file_text)
    }
}

impl Ranged for ShortcutLink {
    open spec fn spec_range(&self) -> Range {
        self.range
    }

    fn range(&self) -> &Range {
        &self.range
    }

    fn text<'a>(&self, context: &Context<'a>) -> &'a str {
        text_of_range(&self.range, context.file_text)
    }
}

impl Ranged for AutoLink {
    open spec fn spec_range(&self) -> Range {
        self.range
    }

    fn range(&self) -> &Range {
        &self.range
    }

    fn text<'a>(&self, context: &Context<'a>) -> &'a str {
        text_of_range(&self.range, context.file_text)
    }
}

impl Ranged for LinkReference {
    open spec fn spec_range(&self) -> Range {
        self.range
    }

    fn range(&self) -> &Range {
        &self.range
    }

    fn text<'a>(&self, context: &Context<'a>) -> &'a str {
        text_of_range(&self.range, context.file_text)
    }
}

impl Ranged for InlineImage {
    open spec fn spec_range(&self) -> Range {
        self.range
    }

    fn range(&self) -> &Range {
        &self.range
    }

    fn text<'a>(&self, context: &Context<'a>) -> &'a str {
        text_of_range(&self.range, context.file_text)
    }
}

impl Ranged for ReferenceImage {
    open spec fn spec_range(&self) -> Range {
        self.range
    }

    fn range(&self) -> &Range {
        &self.range
    }

    fn text<'a>(&self, context: &Context<'a>) -> &'a str {
        text_of_range(&self.range, context.file_text)
    }
}

impl Ranged for List {
    open spec fn spec_range(&self) -> Range {
        self.range
    }

    fn range(&self) -> &Range {
        &self.range
    }

    fn text<'a>(&self, context: &Context<'a>) -> &'a str {
        text_of_range(&self.range, context.file_text)
    }
}

impl Ranged for Item {
    open spec fn spec_range(&self) -> Range {
        self.range
    }

    fn range(&self) -> &Range {
        &self.range
    }

    fn text<'a>(&self, context: &Context<'a>) -> &'a str {
        text_of_range(&self.range, context.file_text)
    }
}

impl Ranged for TaskListMarker {
    open spec fn spec_range(&self) -> Range {
        self.range
    }

    fn range(&self) -> &Range {
        &self.range
    }

    fn text<'a>(&self, context: &Context<'a>) -> &'a str {
        text_of_range(&self.range, context.file_text)
    }
}

impl Ranged for SoftBreak {
    open spec fn spec_range(&self) -> Range {
        self.range
    }

    fn range(&self) -> &Range {
        &self.range
    }

    fn text<'a>(&self, context: &Context<'a>) -> &'a str {
        text_of_range(&self.range, context.file_text)
    }
}

impl Ranged for HardBreak {
    open spec fn spec_range(&self) -> Range {
        self.range
    }

    fn range(&self) -> &Range {
        &self.range
    }

    fn text<'a>(&self, context: &Context<'a>) -> &'a str {
        text_of_range(&self.range, context.file_text)
    }
}

impl Ranged for Code {
    open spec fn spec_range(&self) -> Range {
        self.range
    }

    fn range(&self) -> &Range {
        &self.range
    }

    fn text<'a>(&self, context: &Context<'a>) -> &'a str {
        text_of_range(&self.range, context.file_text)
    }
}

impl Ranged for CodeBlock {
    open spec fn spec_range(&self) -> Range {
        self.range
    }

    fn range(&self) -> &Range {
        &self.range
    }

    fn text<'a>(&self, context: &Context<'a>) -> &'a str {
        text_of_range(&self.range, context.file_text)
    }
}

impl Ranged for HorizontalRule {
    open spec fn spec_range(&self) -> Range {
        self.range
    }

    fn range(&self) -> &Range {
        &self.range
    }

    fn text<'a>(&self, context: &Context<'a>) -> &'a str {
        text_of_range(&self.range, context.file_text)
    }
}

impl Ranged for Table {
    open spec fn spec_range(&self) -> Range {
        self.range
    }

    fn range(&self) -> &Range {
        &self.range
    }

    fn text<'a>(&self, context: &Context<'a>) -> &'a str {
        text_of_range(&self.range, context.file_text)
    }
}

impl Ranged for TableHead {
    open spec fn spec_range(&self) -> Range {
        self.range
    }

    fn range(&self) -> &Range {
        &self.range
    }

    fn text<'a>(&self, context: &Context<'a>) -> &'a str {
        text_of_range(&self.range, context.file_text)
    }
}

impl Ranged for TableRow {
    open spec fn spec_range(&self) -> Range {
        self.range
    }

    fn range(&self) -> &Range {
        &self.range
    }

    fn text<'a>(&self, context: &Context<'a>) -> &'a str {
        text_of_range(&self.range, context.file_text)
    }
}

impl Ranged for TableCell {
    open spec fn spec_range(&self) -> Range {
        self.range
    }

    fn range(&self) -> &Range {
        &self.range
    }

    fn text<'a>(&self, context: &Context<'a>) -> &'a str {
        text_of_range(&self.range, context.file_text)
    }
}

impl Ranged for Node {
    open spec fn spec_range(&self) -> Range {
        match self {
            Node::NotImplemented(node) => node.spec_range(),
            Node::SourceFile(node) => node.spec_range(),
            Node::Heading(node) => node.spec_range(),
            Node::Paragraph(node) => node.spec_range(),
            Node::BlockQuote(node) => node.spec_range(),
            Node::Text(node) => node.spec_range(),
            Node::TextDecoration(node) => node.spec_range(),
            Node::Html(node) => node.spec_range(),
            Node::FootnoteReference(node) => node.spec_range(),
            Node::FootnoteDefinition(node) => node.spec_range(),
            Node::InlineLink(node) => node.spec_range(),
            Node::ReferenceLink(node) => node.spec_range(),
            Node::ShortcutLink(node) => node.spec_range(),
            Node::AutoLink(node) => node.spec_range(),
            Node::LinkReference(node) => node.spec_range(),
            Node::InlineImage(node) => node.spec_range(),
            Node::ReferenceImage(node) => node.spec_range(),
            Node::List(node) => node.spec_range(),
            Node::Item(node) => node.spec_range(),
            Node::TaskListMarker(node) => node.spec_range(),
            Node::SoftBreak(node) => node.spec_range(),
            Node::HardBreak(node) => node.spec_range(),
            Node::Code(node) => node.spec_range(),
            Node::CodeBlock(node) => node.spec_range(),
            Node::HorizontalRule(node) => node.spec_range(),
            Node::Table(node) => node.spec_range(),
            Node::TableHead(node) => node.spec_range(),
            Node::TableRow(node) => node.spec_range(),
            Node::TableCell(node) => node.spec_range(),
        }
    }

    fn range(&self) -> &Range {
        match self {
            Node::NotImplemented(node) => node.range(),
            Node::SourceFile(node) => node.range(),
            Node::Heading(node) => node.range(),
            Node::Paragraph(node) => node.range(),
            Node::BlockQuote(node) => node.range(),
            Node::Text(node) => node.range(),
            Node::TextDecoration(node) => node.range(),
            Node::Html(node) => node.range(),
            Node::FootnoteReference(node) => node.range(),
            Node::FootnoteDefinition(node) => node.range(),
            Node::InlineLink(node) => node.range(),
            Node::ReferenceLink(node) => node.range(),
            Node::ShortcutLink(node) => node.range(),
            Node::AutoLink(node) => node.range(),
            Node::LinkReference(node) => node.range(),
            Node::InlineImage(node) => node.range(),
            Node::ReferenceImage(node) => node.range(),
            Node::List(node) => node.range(),
            Node::Item(node) => node.range(),
            Node::TaskListMarker(node) => node.range(),
            Node::SoftBreak(node) => node.range(),
            Node::HardBreak(node) => node.range(),
            Node::Code(node) => node.range(),
            Node::CodeBlock(node) => node.range(),
            Node::HorizontalRule(node) => node.range(),
            Node::Table(node) => node.range(),
            Node::TableHead(node) => node.range(),
            Node::TableRow(node) => node.range(),
            Node::TableCell(node) => node.range(),
        }
    }

    fn text<'a>(&self, context: &Context<'a>) -> &'a str {
        match self {
            Node::NotImplemented(node) => node.text(context),
            Node::SourceFile(node) => node.text(context),
            Node::Heading(node) => node.text(context),
            Node::Paragraph(node) => node.text(context),
            Node::BlockQuote(node) => node.text(context),
            Node::Text(node) => node.text(context),
            Node::TextDecoration(node) => node.text(context),
            Node::Html(node) => node.text(context),
            Node::FootnoteReference(node) => node.text(context),
            Node::FootnoteDefinition(node) => node.text(context),
            Node::InlineLink(node) => node.text(context),
            Node::ReferenceLink(node) => node.text(context),
            Node::ShortcutLink(node) => node.text(context),
            Node::AutoLink(node) => node.text(context),
            Node::LinkReference(node) => node.text(context),
            Node::InlineImage(node) => node.text(context),
            Node::ReferenceImage(node) => node.text(context),
            Node::List(node) => node.text(context),
            Node::Item(node) => node.text(context),
            Node::TaskListMarker(node) => node.text(context),
            Node::SoftBreak(node) => node.text(context),
            Node::HardBreak(node) => node.text(context),
            Node::Code(node) => node.text(context),
            Node::CodeBlock(node) => node.text(context),
            Node::HorizontalRule(node) => node.text(context),
            Node::Table(node) => node.text(context),
            Node::TableHead(node) => node.text(context),
            Node::TableRow(node) => node.text(context),
            Node::TableCell(node) => node.text(context),
        }
    }
}


impl Text {
    /// True exactly when the first whitespace-delimited token of this
    /// node's content is a recognized list-marker word.
    pub fn starts_with_list_word(&self) -> (r: bool)
        ensures
            r == is_list_word_spec(first_word(self.text@)),
    {
        let word = first_word_of(self.text.as_str());
        is_list_word(word)
    }
}

/// The node is a `Text` node whose content starts with a recognized
/// list-marker word; any other kind of node never does.
pub open spec fn starts_with_list_word_spec(n: &Node) -> bool {
    match n {
        Node::Text(text) => is_list_word_spec(first_word(text.text@)),
        _ => false,
    }
}

impl Node {
    /// True exactly when this is a `Text` node whose first
    /// whitespace-delimited token is a recognized list-marker word;
    /// guards against re-emitted text being misparsed as a list item.
    pub fn starts_with_list_word(&self) -> (r: bool)
        ensures
            r == starts_with_list_word_spec(self),
    {
        if let Node::Text(text) = self {
            text.starts_with_list_word()
        } else {
            false
        }
    }

    /// True exactly when the single source byte immediately before this
    /// node's span is an ASCII space; false for a span starting at
    /// offset zero.  The check reads raw bytes and never faults, even on
    /// a span that lies outside the buffer.
    pub fn has_preceeding_space(&self, file_text: &str) -> (r: bool)
        ensures
            r == preceded_by_space(self.spec_range(), file_text.spec_bytes()),
    {
        let range = self.range();
        if range.start == 0 {
            false
        } else {
            let bytes = file_text.as_bytes();
            if range.start - 1 < bytes.len() {
                // 0x20 is the ASCII space byte
                bytes[range.start - 1] == 0x20
            } else {
                false
            }
        }
    }

    /// True exactly when this node's raw source slice is non-empty and
    /// begins with ASCII punctuation; consulted for adjacency rules
    /// around emphasis and link delimiters.
    pub fn starts_with_punctuation(&self, file_text: &str) -> (r: bool)
        requires
            self.spec_range().valid_for(file_text.spec_bytes()),
        ensures
            r == starts_with_punctuation_spec(self.spec_range(), file_text.spec_bytes()),
    {
        let range = self.range();
        if range.start < range.end {
            let bytes = file_text.as_bytes();
            is_punctuation_byte(bytes[range.start])
        } else {
            false
        }
    }

    /// True exactly when this node's raw source slice is non-empty and
    /// ends with ASCII punctuation; consulted for adjacency rules around
    /// emphasis and link delimiters.
    pub fn ends_with_punctuation(&self, file_text: &str) -> (r: bool)
        requires
            self.spec_range().valid_for(file_text.spec_bytes()),
        ensures
            r == ends_with_punctuation_spec(self.spec_range(), file_text.spec_bytes()),
    {
        let range = self.range();
        if range.start < range.end {
            let bytes = file_text.as_bytes();
            is_punctuation_byte(bytes[range.end - 1])
        } else {
            false
        }
    }
}

} // verus!
