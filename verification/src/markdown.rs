//! Layout of a Markdown document as a Word document: the events of a Markdown
//! parser are folded, one at a time, into paragraphs, runs of styled text,
//! hyperlinks and tables.

use vstd::prelude::*;
use crate::text::{decimal, decimal_string, owned, push_decimal};

verus! {

// ---------------------------------------------------------------------------
// Markdown events
// ---------------------------------------------------------------------------

/// The start of a Markdown element, with what the layout reads of it.
#[derive(Debug, Clone)]
pub enum MdTag {
    Paragraph,
    /// A heading of level 1 to 6.
    Heading(u8),
    BlockQuote,
    /// A list; ordered lists carry the number of their first item.
    List(Option<u64>),
    Item,
    Table,
    TableHead,
    TableRow,
    TableCell,
    Strong,
    Emphasis,
    Strikethrough,
    /// A link to the given URL.
    Link(String),
    Image { dest_url: String, title: String },
    CodeBlock,
    /// Any element the layout does not treat.
    Other,
}

/// The end of a Markdown element.
#[derive(Debug, Clone, Copy, PartialEq, Eq, Structural)]
pub enum MdTagEnd {
    Paragraph,
    Heading,
    BlockQuote,
    List,
    Item,
    Table,
    TableHead,
    TableRow,
    TableCell,
    Strong,
    Emphasis,
    Strikethrough,
    Link,
    CodeBlock,
    Other,
}

/// An event of a Markdown parser.
#[derive(Debug, Clone)]
pub enum MdEvent {
    Start(MdTag),
    End(MdTagEnd),
    Text(String),
    Code(String),
    InlineMath(String),
    DisplayMath(String),
    SoftBreak,
    HardBreak,
    Other,
}

pub enum MdTagView {
    Paragraph,
    Heading(u8),
    BlockQuote,
    List(Option<u64>),
    Item,
    Table,
    TableHead,
    TableRow,
    TableCell,
    Strong,
    Emphasis,
    Strikethrough,
    Link(Seq<char>),
    Image { dest_url: Seq<char>, title: Seq<char> },
    CodeBlock,
    Other,
}

pub enum MdEventView {
    Start(MdTagView),
    End(MdTagEnd),
    Text(Seq<char>),
    Code(Seq<char>),
    InlineMath(Seq<char>),
    DisplayMath(Seq<char>),
    SoftBreak,
    HardBreak,
    Other,
}

impl View for MdTag {
    type V = MdTagView;

    open spec fn view(&self) -> MdTagView {
        match self {
            MdTag::Paragraph => MdTagView::Paragraph,
            MdTag::Heading(l) => MdTagView::Heading(*l),
            MdTag::BlockQuote => MdTagView::BlockQuote,
            MdTag::List(s) => MdTagView::List(*s),
            MdTag::Item => MdTagView::Item,
            MdTag::Table => MdTagView::Table,
            MdTag::TableHead => MdTagView::TableHead,
            MdTag::TableRow => MdTagView::TableRow,
            MdTag::TableCell => MdTagView::TableCell,
            MdTag::Strong => MdTagView::Strong,
            MdTag::Emphasis => MdTagView::Emphasis,
            MdTag::Strikethrough => MdTagView::Strikethrough,
            MdTag::Link(u) => MdTagView::Link(u@),
            MdTag::Image { dest_url, title } => MdTagView::Image { dest_url: dest_url@, title: title@ },
            MdTag::CodeBlock => MdTagView::CodeBlock,
            MdTag::Other => MdTagView::Other,
        }
    }
}

impl View for MdEvent {
    type V = MdEventView;

    open spec fn view(&self) -> MdEventView {
        match self {
            MdEvent::Start(t) => MdEventView::Start(t@),
            MdEvent::End(t) => MdEventView::End(*t),
            MdEvent::Text(s) => MdEventView::Text(s@),
            MdEvent::Code(s) => MdEventView::Code(s@),
            MdEvent::InlineMath(s) => MdEventView::InlineMath(s@),
            MdEvent::DisplayMath(s) => MdEventView::DisplayMath(s@),
            MdEvent::SoftBreak => MdEventView::SoftBreak,
            MdEvent::HardBreak => MdEventView::HardBreak,
            MdEvent::Other => MdEventView::Other,
        }
    }
}

// ---------------------------------------------------------------------------
// The document model
// ---------------------------------------------------------------------------

/// The text colours the layout uses.
#[derive(Debug, Clone, Copy, PartialEq, Eq, Structural)]
pub enum RunColor {
    /// Image placeholders.
    Placeholder,
    /// Text inside a code block.
    CodeBlock,
    /// Inline code.
    InlineCode,
    /// Link text.
    Link,
    /// Text inside a block quote.
    Quote,
    /// Math.
    Math,
}

impl RunColor {
    /// The colour as a hexadecimal RGB value.
    pub fn hex(&self) -> (r: &'static str)
        ensures
            r@ == match *self {
                RunColor::Placeholder => "888888"@,
                RunColor::CodeBlock => "333333"@,
                RunColor::InlineCode => "A71D5D"@,
                RunColor::Link => "0000FF"@,
                RunColor::Quote => "555555"@,
                RunColor::Math => "4A154B"@,
            },
    {
        match self {
            RunColor::Placeholder => "888888",
            RunColor::CodeBlock => "333333",
            RunColor::InlineCode => "A71D5D",
            RunColor::Link => "0000FF",
            RunColor::Quote => "555555",
            RunColor::Math => "4A154B",
        }
    }
}

/// A run of text with one style, or a line break when `text` is `None`.
#[derive(Debug, Clone)]
pub struct RunSpec {
    pub text: Option<String>,
    pub bold: bool,
    pub italic: bool,
    pub strike: bool,
    /// A single underline.
    pub underline: bool,
    pub color: Option<RunColor>,
    /// The font size in half-points.
    pub size: Option<u8>,
}

pub struct RunView {
    pub text: Option<Seq<char>>,
    pub bold: bool,
    pub italic: bool,
    pub strike: bool,
    pub underline: bool,
    pub color: Option<RunColor>,
    pub size: Option<u8>,
}

impl View for RunSpec {
    type V = RunView;

    open spec fn view(&self) -> RunView {
        RunView {
            text: match self.text {
                Some(t) => Some(t@),
                None => None,
            },
            bold: self.bold,
            italic: self.italic,
            strike: self.strike,
            underline: self.underline,
            color: self.color,
            size: self.size,
        }
    }
}

/// An element of a paragraph: a run, or a run that links to an external URL.
#[derive(Debug, Clone)]
pub enum ParaItem {
    Run(RunSpec),
    Link(String, RunSpec),
}

pub enum ParaItemView {
    Run(RunView),
    Link(Seq<char>, RunView),
}

impl View for ParaItem {
    type V = ParaItemView;

    open spec fn view(&self) -> ParaItemView {
        match self {
            ParaItem::Run(r) => ParaItemView::Run(r@),
            ParaItem::Link(u, r) => ParaItemView::Link(u@, r@),
        }
    }
}

pub open spec fn items_view(v: Seq<ParaItem>) -> Seq<ParaItemView> {
    v.map_values(|i: ParaItem| i@)
}

/// A finished paragraph: its left indentation in twentieths of a point, whether
/// it is centred, and its elements.
#[derive(Debug, Clone)]
pub struct ParagraphSpec {
    pub indent: Option<i32>,
    pub centered: bool,
    pub items: Vec<ParaItem>,
}

pub struct ParagraphView {
    pub indent: Option<i32>,
    pub centered: bool,
    pub items: Seq<ParaItemView>,
}

impl View for ParagraphSpec {
    type V = ParagraphView;

    open spec fn view(&self) -> ParagraphView {
        ParagraphView { indent: self.indent, centered: self.centered, items: items_view(self.items@) }
    }
}

/// A table cell: one paragraph, or nothing.
#[derive(Debug, Clone)]
pub struct TableCellSpec {
    pub paragraph: Option<ParagraphSpec>,
}

impl View for TableCellSpec {
    type V = Option<ParagraphView>;

    open spec fn view(&self) -> Option<ParagraphView> {
        match self.paragraph {
            Some(p) => Some(p@),
            None => None,
        }
    }
}

pub open spec fn cells_view(v: Seq<TableCellSpec>) -> Seq<Option<ParagraphView>> {
    v.map_values(|c: TableCellSpec| c@)
}

pub open spec fn rows_view(v: Seq<Vec<TableCellSpec>>) -> Seq<Seq<Option<ParagraphView>>> {
    v.map_values(|r: Vec<TableCellSpec>| cells_view(r@))
}

/// A block of the document: a paragraph, or a bordered table of rows of cells.
#[derive(Debug, Clone)]
pub enum DocBlock {
    Paragraph(ParagraphSpec),
    Table(Vec<Vec<TableCellSpec>>),
}

pub enum DocBlockView {
    Paragraph(ParagraphView),
    Table(Seq<Seq<Option<ParagraphView>>>),
}

impl View for DocBlock {
    type V = DocBlockView;

    open spec fn view(&self) -> DocBlockView {
        match self {
            DocBlock::Paragraph(p) => DocBlockView::Paragraph(p@),
            DocBlock::Table(rows) => DocBlockView::Table(rows_view(rows@)),
        }
    }
}

pub open spec fn doc_view(v: Seq<DocBlock>) -> Seq<DocBlockView> {
    v.map_values(|b: DocBlock| b@)
}

// ---------------------------------------------------------------------------
// The layout state
// ---------------------------------------------------------------------------

/// The paragraph being assembled.
#[derive(Debug, Clone)]
pub struct ParaState {
    pub elements: Vec<ParaItem>,
    pub heading_level: Option<u8>,
    pub is_blockquote: bool,
    pub is_list_item: bool,
    /// The depth of list nesting of a list item.
    pub list_indent: usize,
}

pub struct ParaStateView {
    pub elements: Seq<ParaItemView>,
    pub heading_level: Option<u8>,
    pub is_blockquote: bool,
    pub is_list_item: bool,
    pub list_indent: usize,
}

impl View for ParaState {
    type V = ParaStateView;

    open spec fn view(&self) -> ParaStateView {
        ParaStateView {
            elements: items_view(self.elements@),
            heading_level: self.heading_level,
            is_blockquote: self.is_blockquote,
            is_list_item: self.is_list_item,
            list_indent: self.list_indent,
        }
    }
}

/// An open list: whether it is numbered, and the number of its next item.
#[derive(Debug, Clone, Copy, PartialEq, Eq, Structural)]
pub struct ListState {
    pub is_ordered: bool,
    pub counter: u32,
}

/// A table being assembled: its finished rows and the cells of the current row.
#[derive(Debug, Clone)]
pub struct TableState {
    pub rows: Vec<Vec<TableCellSpec>>,
    pub current_row_cells: Vec<TableCellSpec>,
}

pub struct TableView {
    pub rows: Seq<Seq<Option<ParagraphView>>>,
    pub cells: Seq<Option<ParagraphView>>,
}

impl View for TableState {
    type V = TableView;

    open spec fn view(&self) -> TableView {
        TableView { rows: rows_view(self.rows@), cells: cells_view(self.current_row_cells@) }
    }
}

/// Everything the layout keeps between two events.
#[derive(Debug, Clone)]
pub struct MdState {
    /// The blocks finished so far.
    pub doc: Vec<DocBlock>,
    pub bold: bool,
    pub italic: bool,
    pub strikethrough: bool,
    /// The target of the link being read, if any.
    pub link: Option<String>,
    pub current_para: Option<ParaState>,
    pub list_stack: Vec<ListState>,
    pub table: Option<TableState>,
    pub in_code_block: bool,
    /// How many block quotes are open.
    pub quote_depth: usize,
}

pub struct MdStateView {
    pub doc: Seq<DocBlockView>,
    pub bold: bool,
    pub italic: bool,
    pub strikethrough: bool,
    pub link: Option<Seq<char>>,
    pub para: Option<ParaStateView>,
    pub lists: Seq<ListState>,
    pub table: Option<TableView>,
    pub in_code_block: bool,
    pub quote_depth: usize,
}

impl View for MdState {
    type V = MdStateView;

    open spec fn view(&self) -> MdStateView {
        MdStateView {
            doc: doc_view(self.doc@),
            bold: self.bold,
            italic: self.italic,
            strikethrough: self.strikethrough,
            link: match self.link {
                Some(u) => Some(u@),
                None => None,
            },
            para: match self.current_para {
                Some(p) => Some(p@),
                None => None,
            },
            lists: self.list_stack@,
            table: match self.table {
                Some(t) => Some(t@),
                None => None,
            },
            in_code_block: self.in_code_block,
            quote_depth: self.quote_depth,
        }
    }
}

// ---------------------------------------------------------------------------
// The layout rules
// ---------------------------------------------------------------------------

/// A run of plain text.
pub open spec fn plain_run(t: Seq<char>) -> RunView {
    RunView {
        text: Some(t),
        bold: false,
        italic: false,
        strike: false,
        underline: false,
        color: None,
        size: None,
    }
}

/// A line break.
pub open spec fn break_run() -> RunView {
    RunView { text: None, bold: false, italic: false, strike: false, underline: false, color: None, size: None }
}

pub open spec fn with_color(r: RunView, c: RunColor) -> RunView {
    RunView { color: Some(c), ..r }
}

pub open spec fn with_underline(r: RunView) -> RunView {
    RunView { underline: true, ..r }
}

/// An empty paragraph with the given properties.
pub open spec fn new_para(heading: Option<u8>, quote: bool, item: bool, indent: usize) -> ParaStateView {
    ParaStateView {
        elements: Seq::empty(),
        heading_level: heading,
        is_blockquote: quote,
        is_list_item: item,
        list_indent: indent,
    }
}

/// The font size, in half-points, of the text of a heading.
pub open spec fn heading_size(level: u8) -> u8 {
    if level == 1 {
        36
    } else if level == 2 {
        32
    } else if level == 3 {
        28
    } else if level == 4 {
        24
    } else if level == 5 {
        20
    } else {
        18
    }
}

/// A run as it appears in its finished paragraph: heading text is bold and
/// sized by level; quoted text is italic and grey.
pub open spec fn styled_run(r: RunView, heading: Option<u8>, quote: bool) -> RunView {
    let h = match heading {
        Some(l) => RunView { bold: true, size: Some(heading_size(l)), ..r },
        None => r,
    };
    if quote {
        RunView { italic: true, color: Some(RunColor::Quote), ..h }
    } else {
        h
    }
}

pub open spec fn styled_item(i: ParaItemView, heading: Option<u8>, quote: bool) -> ParaItemView {
    match i {
        ParaItemView::Run(r) => ParaItemView::Run(styled_run(r, heading, quote)),
        ParaItemView::Link(u, r) => ParaItemView::Link(u, r),
    }
}

/// The left indentation of a list item: 360 twentieths of a point per level of
/// nesting, computed in 32-bit arithmetic.
pub open spec fn list_indent_twips(depth: usize) -> i32 {
    (depth as i32).wrapping_mul(360)
}

/// A finished paragraph: list items are indented by their depth, block quotes
/// by 720, and the runs take the heading and quote styles.
pub open spec fn build_paragraph_view(p: ParaStateView) -> ParagraphView {
    ParagraphView {
        indent: if p.is_list_item {
            Some(list_indent_twips(p.list_indent))
        } else if p.is_blockquote {
            Some(720i32)
        } else {
            None
        },
        centered: false,
        items: p.elements.map_values(|i: ParaItemView| styled_item(i, p.heading_level, p.is_blockquote)),
    }
}

/// The state before the first event: an empty document, no style, nothing open.
pub open spec fn initial_state() -> MdStateView {
    MdStateView {
        doc: Seq::empty(),
        bold: false,
        italic: false,
        strikethrough: false,
        link: None,
        para: None,
        lists: Seq::empty(),
        table: None,
        in_code_block: false,
        quote_depth: 0,
    }
}

/// Adds an element to the open paragraph; without one, the element is dropped.
pub open spec fn push_item(s: MdStateView, i: ParaItemView) -> MdStateView {
    match s.para {
        Some(p) => MdStateView { para: Some(ParaStateView { elements: p.elements.push(i), ..p }), ..s },
        None => s,
    }
}

/// The placeholder text of an image.
pub open spec fn image_text(url: Seq<char>, title: Seq<char>) -> Seq<char> {
    if title.len() == 0 {
        "[Image: "@ + url + "]"@
    } else {
        "[Image: "@ + title + " - "@ + url + "]"@
    }
}

/// The marker that starts a list item, and the lists once the marker is taken:
/// numbered lists count up, other items get a bullet.
pub open spec fn item_marker(lists: Seq<ListState>) -> (Seq<char>, Seq<ListState>) {
    if lists.len() > 0 && lists.last().is_ordered {
        let l = lists.last();
        (
            decimal(l.counter as nat) + ".  "@,
            lists.update(lists.len() - 1, ListState { is_ordered: true, counter: l.counter.wrapping_add(1) }),
        )
    } else {
        ("\u{2022}  "@, lists)
    }
}

/// What the start of an element does.
pub open spec fn step_start(s: MdStateView, t: MdTagView) -> MdStateView {
    match t {
        MdTagView::Paragraph => match s.para {
            Some(p) if p.is_list_item => s,
            _ => MdStateView {
                para: Some(new_para(None, s.quote_depth > 0, false, s.lists.len() as usize)),
                ..s
            },
        },
        MdTagView::Heading(l) => MdStateView { para: Some(new_para(Some(l), false, false, 0)), ..s },
        MdTagView::BlockQuote => MdStateView {
            para: match s.para {
                Some(p) => Some(ParaStateView { is_blockquote: true, ..p }),
                None => Some(new_para(None, true, false, 0)),
            },
            quote_depth: if s.quote_depth < usize::MAX {
                (s.quote_depth + 1) as usize
            } else {
                s.quote_depth
            },
            ..s
        },
        MdTagView::List(start) => MdStateView {
            lists: s.lists.push(
                ListState {
                    is_ordered: start is Some,
                    counter: (match start {
                        Some(n) => n,
                        None => 1,
                    }) as u32,
                },
            ),
            ..s
        },
        MdTagView::Item => {
            let (marker, lists) = item_marker(s.lists);
            MdStateView {
                lists,
                para: Some(
                    ParaStateView {
                        elements: seq![ParaItemView::Run(plain_run(marker))],
                        ..new_para(None, false, true, s.lists.len() as usize)
                    },
                ),
                ..s
            }
        },
        MdTagView::Table => MdStateView {
            table: Some(TableView { rows: Seq::empty(), cells: Seq::empty() }),
            ..s
        },
        MdTagView::TableCell => MdStateView { para: Some(new_para(None, false, false, 0)), ..s },
        MdTagView::Strong => MdStateView { bold: true, ..s },
        MdTagView::Emphasis => MdStateView { italic: true, ..s },
        MdTagView::Strikethrough => MdStateView { strikethrough: true, ..s },
        MdTagView::Link(u) => MdStateView { link: Some(u), ..s },
        MdTagView::Image { dest_url, title } => push_item(
            s,
            ParaItemView::Run(
                RunView { italic: true, ..with_color(plain_run(image_text(dest_url, title)), RunColor::Placeholder) },
            ),
        ),
        MdTagView::CodeBlock => MdStateView {
            in_code_block: true,
            para: Some(new_para(None, false, false, 0)),
            ..s
        },
        _ => s,
    }
}

/// Closes the open paragraph: it becomes a cell of the current table row when
/// a table is open, and a block of the document otherwise.
pub open spec fn close_paragraph_in_place(s: MdStateView) -> MdStateView {
    match s.para {
        None => s,
        Some(p) => match s.table {
            Some(t) => MdStateView {
                para: None,
                table: Some(TableView { cells: t.cells.push(Some(build_paragraph_view(p))), ..t }),
                ..s
            },
            None => MdStateView {
                para: None,
                doc: s.doc.push(DocBlockView::Paragraph(build_paragraph_view(p))),
                ..s
            },
        },
    }
}

/// Closes the open paragraph as a block of the document.
pub open spec fn close_paragraph_to_doc(s: MdStateView) -> MdStateView {
    match s.para {
        None => s,
        Some(p) => MdStateView {
            para: None,
            doc: s.doc.push(DocBlockView::Paragraph(build_paragraph_view(p))),
            ..s
        },
    }
}

/// What the end of an element does.
pub open spec fn step_end(s: MdStateView, t: MdTagEnd) -> MdStateView {
    match t {
        MdTagEnd::Paragraph | MdTagEnd::Heading => close_paragraph_in_place(s),
        MdTagEnd::BlockQuote => MdStateView {
            quote_depth: if s.quote_depth > 0 {
                (s.quote_depth - 1) as usize
            } else {
                0
            },
            ..s
        },
        MdTagEnd::List => MdStateView {
            lists: if s.lists.len() > 0 {
                s.lists.drop_last()
            } else {
                s.lists
            },
            ..s
        },
        MdTagEnd::Item => close_paragraph_to_doc(s),
        MdTagEnd::Table => match s.table {
            Some(t) => MdStateView { table: None, doc: s.doc.push(DocBlockView::Table(t.rows)), ..s },
            None => s,
        },
        MdTagEnd::TableHead | MdTagEnd::TableRow => match s.table {
            Some(t) => MdStateView {
                table: Some(TableView { rows: t.rows.push(t.cells), cells: Seq::empty() }),
                ..s
            },
            None => s,
        },
        MdTagEnd::TableCell => match s.para {
            Some(p) => match s.table {
                Some(t) => MdStateView {
                    para: None,
                    table: Some(TableView { cells: t.cells.push(Some(build_paragraph_view(p))), ..t }),
                    ..s
                },
                None => MdStateView { para: None, ..s },
            },
            None => match s.table {
                Some(t) => MdStateView {
                    table: Some(TableView { cells: t.cells.push(None), ..t }),
                    ..s
                },
                None => s,
            },
        },
        MdTagEnd::Strong => MdStateView { bold: false, ..s },
        MdTagEnd::Emphasis => MdStateView { italic: false, ..s },
        MdTagEnd::Strikethrough => MdStateView { strikethrough: false, ..s },
        MdTagEnd::Link => MdStateView { link: None, ..s },
        MdTagEnd::CodeBlock => close_paragraph_to_doc(MdStateView { in_code_block: false, ..s }),
        _ => s,
    }
}

/// A run of text as the current style shows it: code-block text is dark grey
/// and otherwise unstyled; other text takes the open bold, italic and
/// strikethrough styles.
pub open spec fn text_run(s: MdStateView, t: Seq<char>) -> RunView {
    if s.in_code_block {
        with_color(plain_run(t), RunColor::CodeBlock)
    } else {
        RunView { bold: s.bold, italic: s.italic, strike: s.strikethrough, ..plain_run(t) }
    }
}

/// What one event does to the layout.
pub open spec fn step(s: MdStateView, e: MdEventView) -> MdStateView {
    match e {
        MdEventView::Start(t) => step_start(s, t),
        MdEventView::End(t) => step_end(s, t),
        MdEventView::Text(t) => push_item(
            s,
            match s.link {
                Some(u) => ParaItemView::Link(u, with_underline(with_color(text_run(s, t), RunColor::Link))),
                None => ParaItemView::Run(text_run(s, t)),
            },
        ),
        MdEventView::Code(c) => push_item(
            s,
            match s.link {
                Some(u) => ParaItemView::Link(u, with_underline(with_color(plain_run(c), RunColor::InlineCode))),
                None => ParaItemView::Run(with_color(plain_run(c), RunColor::InlineCode)),
            },
        ),
        MdEventView::SoftBreak | MdEventView::HardBreak => push_item(s, ParaItemView::Run(break_run())),
        MdEventView::InlineMath(m) => push_item(
            s,
            ParaItemView::Run(RunView { italic: true, ..with_color(plain_run(m), RunColor::Math) }),
        ),
        MdEventView::DisplayMath(m) => MdStateView {
            doc: s.doc.push(
                DocBlockView::Paragraph(
                    ParagraphView {
                        indent: None,
                        centered: true,
                        items: seq![
                            ParaItemView::Run(
                                RunView {
                                    italic: true,
                                    size: Some(24u8),
                                    ..with_color(plain_run(m), RunColor::Math)
                                },
                            ),
                        ],
                    },
                ),
            ),
            ..s
        },
        MdEventView::Other => s,
    }
}

pub open spec fn events_view(v: Seq<MdEvent>) -> Seq<MdEventView> {
    v.map_values(|e: MdEvent| e@)
}

/// The layout after a sequence of events.
pub open spec fn run_events(s: MdStateView, events: Seq<MdEventView>) -> MdStateView
    decreases events.len(),
{
    if events.len() == 0 {
        s
    } else {
        step(run_events(s, events.drop_last()), events.last())
    }
}

// ---------------------------------------------------------------------------
// The layout engine
// ---------------------------------------------------------------------------

fn copy_string(s: &String) -> (r: String)
    ensures
        r@ == s@,
{
    s.clone()
}

fn copy_run(r: &RunSpec) -> (c: RunSpec)
    ensures
        c@ == r@,
{
    RunSpec {
        text: match &r.text {
            Some(t) => Some(copy_string(t)),
            None => None,
        },
        bold: r.bold,
        italic: r.italic,
        strike: r.strike,
        underline: r.underline,
        color: r.color,
        size: r.size,
    }
}

fn text_run_spec(t: String) -> (r: RunSpec)
    ensures
        r@ == plain_run(t@),
{
    RunSpec { text: Some(t), bold: false, italic: false, strike: false, underline: false, color: None, size: None }
}

fn heading_size_exec(level: u8) -> (r: u8)
    ensures
        r == heading_size(level),
{
    if level == 1 {
        36
    } else if level == 2 {
        32
    } else if level == 3 {
        28
    } else if level == 4 {
        24
    } else if level == 5 {
        20
    } else {
        18
    }
}

fn styled_item_exec(i: &ParaItem, heading: Option<u8>, quote: bool) -> (r: ParaItem)
    ensures
        r@ == styled_item(i@, heading, quote),
{
    match i {
        ParaItem::Run(run) => {
            let mut r = copy_run(run);
            match heading {
                Some(l) => {
                    r.bold = true;
                    r.size = Some(heading_size_exec(l));
                },
                None => {},
            }
            if quote {
                r.italic = true;
                r.color = Some(RunColor::Quote);
            }
            ParaItem::Run(r)
        },
        ParaItem::Link(u, run) => ParaItem::Link(copy_string(u), copy_run(run)),
    }
}

/// Turns an assembled paragraph into a finished one.
pub fn build_paragraph(p: &ParaState) -> (r: ParagraphSpec)
    ensures
        r@ == build_paragraph_view(p@),
{
    let indent = if p.is_list_item {
        Some((p.list_indent as i32).wrapping_mul(360))
    } else if p.is_blockquote {
        Some(720i32)
    } else {
        None
    };
    let mut items: Vec<ParaItem> = Vec::new();
    let mut i: usize = 0;
    while i < p.elements.len()
        invariant
            i <= p.elements.len(),
            items_view(items@) == items_view(p.elements@).take(i as int).map_values(
                |it: ParaItemView| styled_item(it, p.heading_level, p.is_blockquote),
            ),
        decreases p.elements.len() - i,
    {
        let it = styled_item_exec(&p.elements[i], p.heading_level, p.is_blockquote);
        let ghost before = items_view(items@);
        items.push(it);
        proof {
            assert(items_view(items@) =~= before.push(it@));
            assert(items_view(p.elements@).take(i + 1) =~= items_view(p.elements@).take(i as int).push(
                p.elements@[i as int]@,
            ));
            assert(items_view(items@) =~= items_view(p.elements@).take(i + 1).map_values(
                |it: ParaItemView| styled_item(it, p.heading_level, p.is_blockquote),
            ));
        }
        i = i + 1;
    }
    proof {
        assert(items_view(p.elements@).take(p.elements@.len() as int) =~= items_view(p.elements@));
    }
    ParagraphSpec { indent, centered: false, items }
}

fn empty_para(heading: Option<u8>, quote: bool, item: bool, indent: usize) -> (r: ParaState)
    ensures
        r@ == new_para(heading, quote, item, indent),
{
    let r = ParaState {
        elements: Vec::new(),
        heading_level: heading,
        is_blockquote: quote,
        is_list_item: item,
        list_indent: indent,
    };
    assert(items_view(r.elements@) =~= Seq::<ParaItemView>::empty());
    r
}

impl MdState {
    /// The state before the first event.
    pub fn new() -> (r: MdState)
        ensures
            r@ == initial_state(),
    {
        let r = MdState {
            doc: Vec::new(),
            bold: false,
            italic: false,
            strikethrough: false,
            link: None,
            current_para: None,
            list_stack: Vec::new(),
            table: None,
            in_code_block: false,
            quote_depth: 0,
        };
        assert(doc_view(r.doc@) =~= Seq::<DocBlockView>::empty());
        assert(r.list_stack@ =~= Seq::<ListState>::empty());
        r
    }

    fn push_item(&mut self, item: ParaItem)
        ensures
            final(self)@ == push_item(old(self)@, item@),
    {
        match self.current_para.take() {
            Some(mut p) => {
                let ghost before = items_view(p.elements@);
                p.elements.push(item);
                proof {
                    assert(items_view(p.elements@) =~= before.push(item@));
                }
                self.current_para = Some(p);
            },
            None => {},
        }
    }

    fn push_block(&mut self, b: DocBlock)
        ensures
            final(self)@ == (MdStateView { doc: old(self)@.doc.push(b@), ..old(self)@ }),
    {
        let ghost before = doc_view(self.doc@);
        self.doc.push(b);
        proof {
            assert(doc_view(self.doc@) =~= before.push(b@));
        }
    }

    fn push_cell(&mut self, cell: TableCellSpec)
        requires
            old(self).table is Some,
        ensures
            final(self)@ == (MdStateView {
                table: Some(TableView { cells: old(self)@.table->Some_0.cells.push(cell@), ..old(self)@.table->Some_0 }),
                ..old(self)@
            }),
    {
        match self.table.take() {
            Some(mut t) => {
                let ghost before = cells_view(t.current_row_cells@);
                t.current_row_cells.push(cell);
                proof {
                    assert(cells_view(t.current_row_cells@) =~= before.push(cell@));
                }
                self.table = Some(t);
            },
            None => {},
        }
    }

    fn close_paragraph_in_place(&mut self)
        ensures
            final(self)@ == close_paragraph_in_place(old(self)@),
    {
        match self.current_para.take() {
            Some(p) => {
                let bp = build_paragraph(&p);
                if self.table.is_some() {
                    self.push_cell(TableCellSpec { paragraph: Some(bp) });
                } else {
                    self.push_block(DocBlock::Paragraph(bp));
                }
            },
            None => {},
        }
    }

    fn close_paragraph_to_doc(&mut self)
        ensures
            final(self)@ == close_paragraph_to_doc(old(self)@),
    {
        match self.current_para.take() {
            Some(p) => {
                let bp = build_paragraph(&p);
                self.push_block(DocBlock::Paragraph(bp));
            },
            None => {},
        }
    }

    fn start(&mut self, t: MdTag)
        ensures
            final(self)@ == step_start(old(self)@, t@),
    {
        match t {
            MdTag::Paragraph => {
                let in_item = match &self.current_para {
                    Some(p) => p.is_list_item,
                    None => false,
                };
                if !in_item {
                    let quote = self.quote_depth > 0;
                    self.current_para = Some(empty_para(None, quote, false, self.list_stack.len()));
                }
            },
            MdTag::Heading(l) => {
                self.current_para = Some(empty_para(Some(l), false, false, 0));
            },
            MdTag::BlockQuote => {
                if self.quote_depth < usize::MAX {
                    self.quote_depth = self.quote_depth + 1;
                }
                match self.current_para.take() {
                    Some(mut p) => {
                        p.is_blockquote = true;
                        self.current_para = Some(p);
                    },
                    None => {
                        self.current_para = Some(empty_para(None, true, false, 0));
                    },
                }
            },
            MdTag::List(start) => {
                let counter = match start {
                    Some(n) => n,
                    None => 1,
                } as u32;
                self.list_stack.push(ListState { is_ordered: start.is_some(), counter });
            },
            MdTag::Item => {
                let indent = self.list_stack.len();
                let ghost lists = self.list_stack@;
                let marker = if indent > 0 && self.list_stack[indent - 1].is_ordered {
                    let c = self.list_stack[indent - 1].counter;
                    let mut m = decimal_string(c as u64);
                    m.append(".  ");
                    self.list_stack.set(indent - 1, ListState { is_ordered: true, counter: c.wrapping_add(1) });
                    m
                } else {
                    owned("\u{2022}  ")
                };
                proof {
                    let (mk, ls) = item_marker(lists);
                    assert(marker@ == mk);
                    assert(self.list_stack@ =~= ls);
                }
                let mut p = empty_para(None, false, true, indent);
                let ghost before = items_view(p.elements@);
                p.elements.push(ParaItem::Run(text_run_spec(marker)));
                proof {
                    assert(items_view(p.elements@) =~= seq![ParaItemView::Run(plain_run(marker@))]);
                }
                self.current_para = Some(p);
            },
            MdTag::Table => {
                let t = TableState { rows: Vec::new(), current_row_cells: Vec::new() };
                assert(rows_view(t.rows@) =~= Seq::<Seq<Option<ParagraphView>>>::empty());
                assert(cells_view(t.current_row_cells@) =~= Seq::<Option<ParagraphView>>::empty());
                self.table = Some(t);
            },
            MdTag::TableHead | MdTag::TableRow => {},
            MdTag::TableCell => {
                self.current_para = Some(empty_para(None, false, false, 0));
            },
            MdTag::Strong => {
                self.bold = true;
            },
            MdTag::Emphasis => {
                self.italic = true;
            },
            MdTag::Strikethrough => {
                self.strikethrough = true;
            },
            MdTag::Link(u) => {
                self.link = Some(u);
            },
            MdTag::Image { dest_url, title } => {
                let mut text = owned("[Image: ");
                if title.as_str().is_empty() {
                    text.append(dest_url.as_str());
                    text.append("]");
                } else {
                    text.append(title.as_str());
                    text.append(" - ");
                    text.append(dest_url.as_str());
                    text.append("]");
                }
                let mut run = text_run_spec(text);
                run.italic = true;
                run.color = Some(RunColor::Placeholder);
                self.push_item(ParaItem::Run(run));
            },
            MdTag::CodeBlock => {
                self.in_code_block = true;
                self.current_para = Some(empty_para(None, false, false, 0));
            },
            MdTag::Other => {},
        }
    }

    fn end(&mut self, t: MdTagEnd)
        ensures
            final(self)@ == step_end(old(self)@, t),
    {
        match t {
            MdTagEnd::Paragraph | MdTagEnd::Heading => self.close_paragraph_in_place(),
            MdTagEnd::BlockQuote => {
                if self.quote_depth > 0 {
                    self.quote_depth = self.quote_depth - 1;
                }
            },
            MdTagEnd::List => {
                let _ = self.list_stack.pop();
            },
            MdTagEnd::Item => self.close_paragraph_to_doc(),
            MdTagEnd::Table => {
                match self.table.take() {
                    Some(t) => self.push_block(DocBlock::Table(t.rows)),
                    None => {},
                }
            },
            MdTagEnd::TableHead | MdTagEnd::TableRow => {
                match self.table.take() {
                    Some(mut t) => {
                        let mut cells: Vec<TableCellSpec> = Vec::new();
                        std::mem::swap(&mut cells, &mut t.current_row_cells);
                        let ghost before = rows_view(t.rows@);
                        t.rows.push(cells);
                        proof {
                            assert(rows_view(t.rows@) =~= before.push(cells_view(cells@)));
                            assert(cells_view(t.current_row_cells@) =~= Seq::<Option<ParagraphView>>::empty());
                        }
                        self.table = Some(t);
                    },
                    None => {},
                }
            },
            MdTagEnd::TableCell => {
                match self.current_para.take() {
                    Some(p) => {
                        if self.table.is_some() {
                            let bp = build_paragraph(&p);
                            self.push_cell(TableCellSpec { paragraph: Some(bp) });
                        }
                    },
                    None => {
                        if self.table.is_some() {
                            self.push_cell(TableCellSpec { paragraph: None });
                        }
                    },
                }
            },
            MdTagEnd::Strong => {
                self.bold = false;
            },
            MdTagEnd::Emphasis => {
                self.italic = false;
            },
            MdTagEnd::Strikethrough => {
                self.strikethrough = false;
            },
            MdTagEnd::Link => {
                self.link = None;
            },
            MdTagEnd::CodeBlock => {
                self.in_code_block = false;
                self.close_paragraph_to_doc();
            },
            MdTagEnd::Other => {},
        }
    }

    /// Applies one event of the Markdown parser.
    pub fn step(&mut self, e: MdEvent)
        ensures
            final(self)@ == step(old(self)@, e@),
    {
        match e {
            MdEvent::Start(t) => self.start(t),
            MdEvent::End(t) => self.end(t),
            MdEvent::Text(t) => {
                let mut run = text_run_spec(t);
                if self.in_code_block {
                    run.color = Some(RunColor::CodeBlock);
                } else {
                    run.bold = self.bold;
                    run.italic = self.italic;
                    run.strike = self.strikethrough;
                }
                let item = match &self.link {
                    Some(u) => {
                        run.color = Some(RunColor::Link);
                        run.underline = true;
                        ParaItem::Link(copy_string(u), run)
                    },
                    None => ParaItem::Run(run),
                };
                self.push_item(item);
            },
            MdEvent::Code(c) => {
                let mut run = text_run_spec(c);
                run.color = Some(RunColor::InlineCode);
                let item = match &self.link {
                    Some(u) => {
                        run.underline = true;
                        ParaItem::Link(copy_string(u), run)
                    },
                    None => ParaItem::Run(run),
                };
                self.push_item(item);
            },
            MdEvent::SoftBreak | MdEvent::HardBreak => {
                self.push_item(
                    ParaItem::Run(
                        RunSpec {
                            text: None,
                            bold: false,
                            italic: false,
                            strike: false,
                            underline: false,
                            color: None,
                            size: None,
                        },
                    ),
                );
            },
            MdEvent::InlineMath(m) => {
                let mut run = text_run_spec(m);
                run.italic = true;
                run.color = Some(RunColor::Math);
                self.push_item(ParaItem::Run(run));
            },
            MdEvent::DisplayMath(m) => {
                let mut run = text_run_spec(m);
                run.italic = true;
                run.color = Some(RunColor::Math);
                run.size = Some(24);
                let mut items: Vec<ParaItem> = Vec::new();
                items.push(ParaItem::Run(run));
                let para = ParagraphSpec { indent: None, centered: true, items };
                proof {
                    assert(items_view(para.items@) =~= seq![ParaItemView::Run(run@)]);
                }
                self.push_block(DocBlock::Paragraph(para));
            },
            MdEvent::Other => {},
        }
    }
}

fn copy_tag(t: &MdTag) -> (c: MdTag)
    ensures
        c@ == t@,
{
    match t {
        MdTag::Paragraph => MdTag::Paragraph,
        MdTag::Heading(l) => MdTag::Heading(*l),
        MdTag::BlockQuote => MdTag::BlockQuote,
        MdTag::List(s) => MdTag::List(*s),
        MdTag::Item => MdTag::Item,
        MdTag::Table => MdTag::Table,
        MdTag::TableHead => MdTag::TableHead,
        MdTag::TableRow => MdTag::TableRow,
        MdTag::TableCell => MdTag::TableCell,
        MdTag::Strong => MdTag::Strong,
        MdTag::Emphasis => MdTag::Emphasis,
        MdTag::Strikethrough => MdTag::Strikethrough,
        MdTag::Link(u) => MdTag::Link(copy_string(u)),
        MdTag::Image { dest_url, title } => MdTag::Image {
            dest_url: copy_string(dest_url),
            title: copy_string(title),
        },
        MdTag::CodeBlock => MdTag::CodeBlock,
        MdTag::Other => MdTag::Other,
    }
}

fn copy_event(e: &MdEvent) -> (c: MdEvent)
    ensures
        c@ == e@,
{
    match e {
        MdEvent::Start(t) => MdEvent::Start(copy_tag(t)),
        MdEvent::End(t) => MdEvent::End(*t),
        MdEvent::Text(s) => MdEvent::Text(copy_string(s)),
        MdEvent::Code(s) => MdEvent::Code(copy_string(s)),
        MdEvent::InlineMath(s) => MdEvent::InlineMath(copy_string(s)),
        MdEvent::DisplayMath(s) => MdEvent::DisplayMath(copy_string(s)),
        MdEvent::SoftBreak => MdEvent::SoftBreak,
        MdEvent::HardBreak => MdEvent::HardBreak,
        MdEvent::Other => MdEvent::Other,
    }
}

/// Lays out a Markdown document, given as the events of its parser, as the
/// blocks of a Word document. What is still open after the last event is
/// dropped.
pub fn layout_markdown(events: &Vec<MdEvent>) -> (doc: Vec<DocBlock>)
    ensures
        doc_view(doc@) == run_events(initial_state(), events_view(events@)).doc,
{
    let mut state = MdState::new();
    let mut i: usize = 0;
    while i < events.len()
        invariant
            i <= events.len(),
            state@ == run_events(initial_state(), events_view(events@).take(i as int)),
        decreases events.len() - i,
    {
        proof {
            assert(events_view(events@).take(i + 1).drop_last() =~= events_view(events@).take(i as int));
        }
        state.step(copy_event(&events[i]));
        i = i + 1;
    }
    proof {
        assert(events_view(events@).take(events.len() as int) =~= events_view(events@));
    }
    state.doc
}

} // verus!
