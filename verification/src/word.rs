//! Writing the laid-out document with `docx-rs`.

use vstd::prelude::*;
use docx_rs::{
    AlignmentType, BorderType, BreakType, Docx, Hyperlink, HyperlinkType, Paragraph, Run, Table,
    TableBorder, TableBorderPosition, TableBorders, TableCell, TableRow,
};
use crate::markdown::{
    cells_view, doc_view, items_view, rows_view, DocBlock, DocBlockView, ParaItem, ParaItemView,
    ParagraphSpec, ParagraphView, RunColor, RunSpec, RunView, TableCellSpec,
};
use crate::text::owned;

verus! {

#[verifier::external_type_specification]
#[verifier::external_body]
pub struct ExDocx(Docx);

#[verifier::external_type_specification]
#[verifier::external_body]
pub struct ExParagraph(Paragraph);

#[verifier::external_type_specification]
#[verifier::external_body]
pub struct ExRun(Run);

#[verifier::external_type_specification]
#[verifier::external_body]
pub struct ExHyperlink(Hyperlink);

#[verifier::external_type_specification]
#[verifier::external_body]
pub struct ExTableCell(TableCell);

#[verifier::external_type_specification]
#[verifier::external_body]
pub struct ExTableRow(TableRow);

#[verifier::external_type_specification]
#[verifier::external_body]
pub struct ExTable(Table);

#[verifier::external_type_specification]
#[verifier::external_body]
pub struct ExTableBorders(TableBorders);

#[verifier::external_type_specification]
#[verifier::external_body]
pub struct ExTableBorder(TableBorder);

/// A side of a table, or one of its inner grid lines.
#[derive(Debug, Clone, Copy, PartialEq, Eq, Structural)]
pub enum BorderSide {
    Top,
    Bottom,
    Left,
    Right,
    InsideH,
    InsideV,
}

/// An element of a docx-rs run: a text (as it was given, before docx-rs
/// escapes it for XML), or a line break.
pub enum RunPiece {
    Text(Seq<char>),
    LineBreak,
}

/// The character formatting of a docx-rs run, as far as this library sets it:
/// bold, italic, struck through, the underline's line type, the colour as a
/// hexadecimal RGB value, and the size in half-points.
pub struct RunStyle {
    pub bold: bool,
    pub italic: bool,
    pub strike: bool,
    pub underline: Option<Seq<char>>,
    pub color: Option<Seq<char>>,
    pub size: Option<nat>,
}

/// A docx-rs run: its formatting and its elements.
pub struct RunModel {
    pub style: RunStyle,
    pub pieces: Seq<RunPiece>,
}

/// An element of a docx-rs paragraph: a run, or a hyperlink with its target
/// URL (`None` for a link to an anchor inside the document) and its runs.
pub enum ParaPiece {
    Run(RunModel),
    Link(Option<Seq<char>>, Seq<RunModel>),
}

/// The layout of a docx-rs paragraph: its left indentation, in twentieths of
/// a point, and whether it is centred.
pub struct ParaLayout {
    pub indent: Option<i32>,
    pub centered: bool,
}

/// A docx-rs paragraph: its layout and its elements.
pub struct ParaModel {
    pub layout: ParaLayout,
    pub pieces: Seq<ParaPiece>,
}

/// An element of the body of a docx-rs document: a paragraph, or a table given
/// as its rows of cells of paragraphs.
pub enum BodyPiece {
    Paragraph(ParaModel),
    Table(Seq<Seq<Seq<ParaModel>>>),
}

/// The texts and line breaks among the `children` of a docx-rs `Run`, in
/// order (the library gives a run no other kind of child).
pub uninterp spec fn run_pieces(r: Run) -> Seq<RunPiece>;

/// The formatting of a docx-rs `Run` (its `run_property`).
pub uninterp spec fn run_style(r: Run) -> RunStyle;

/// The runs among the `children` of a docx-rs `Hyperlink`, in order.
pub uninterp spec fn hyperlink_runs(h: Hyperlink) -> Seq<RunModel>;

/// The URL of an external docx-rs `Hyperlink`, as it was given; `None` for a
/// link to an anchor.
pub uninterp spec fn hyperlink_url(h: Hyperlink) -> Option<Seq<char>>;

/// The runs and hyperlinks among the `children` of a docx-rs `Paragraph`, in
/// order (the library gives a paragraph no other kind of child).
pub uninterp spec fn paragraph_pieces(p: Paragraph) -> Seq<ParaPiece>;

/// The layout of a docx-rs `Paragraph` (the indentation and alignment of its
/// `property`).
pub uninterp spec fn paragraph_layout(p: Paragraph) -> ParaLayout;

/// The paragraphs among the `children` of a docx-rs `TableCell`, in order.
pub uninterp spec fn cell_paragraphs(c: TableCell) -> Seq<ParaModel>;

/// The cells of a docx-rs `TableRow`, in order, each as its paragraphs.
pub uninterp spec fn row_cells(r: TableRow) -> Seq<Seq<ParaModel>>;

/// The rows of a docx-rs `Table`, in order, each as its cells.
pub uninterp spec fn table_rows(t: Table) -> Seq<Seq<Seq<ParaModel>>>;

/// The paragraphs and tables among the `children` of the document of a
/// docx-rs `Docx`, in order.
pub uninterp spec fn docx_body(d: Docx) -> Seq<BodyPiece>;

pub open spec fn run_model(r: Run) -> RunModel {
    RunModel { style: run_style(r), pieces: run_pieces(r) }
}

pub open spec fn paragraph_model(p: Paragraph) -> ParaModel {
    ParaModel { layout: paragraph_layout(p), pieces: paragraph_pieces(p) }
}

/// `Docx::new`: a document with an empty body.
#[verifier::external_body]
fn docx_new() -> (d: Docx)
    ensures
        docx_body(d) == Seq::<BodyPiece>::empty(),
{
    Docx::new()
}

/// `Docx::add_paragraph`: the paragraph is appended to the body.
#[verifier::external_body]
fn docx_add_paragraph(d: Docx, p: Paragraph) -> (r: Docx)
    ensures
        docx_body(r) == docx_body(d).push(BodyPiece::Paragraph(paragraph_model(p))),
{
    d.add_paragraph(p)
}

/// `Docx::add_table`: the table is appended to the body.
#[verifier::external_body]
fn docx_add_table(d: Docx, t: Table) -> (r: Docx)
    ensures
        docx_body(r) == docx_body(d).push(BodyPiece::Table(table_rows(t))),
{
    d.add_table(t)
}

/// The start of a ZIP archive: the signature of a local file header.
pub open spec fn zip_start(b: Seq<u8>) -> bool {
    b.len() >= 4 && b.subrange(0, 4) == seq![0x50u8, 0x4Bu8, 0x03u8, 0x04u8]
}

/// Names the outcomes that `Docx::build` followed by `XMLDocx::pack` into
/// memory may have for a document: `Some` of the bytes of the DOCX package it
/// writes, or `None` where the ZIP writer refuses (a part of more than 4 GiB).
/// `build` walks a `HashMap` of the external links to list their
/// relationships, so a document with several links has more than one possible
/// package; each is an outcome.
pub uninterp spec fn docx_outcome(d: Docx, out: Option<Seq<u8>>) -> bool;

/// What a packing gave, as an outcome: the bytes, or `None` for an error.
pub open spec fn outcome_of<E>(r: Result<Vec<u8>, E>) -> Option<Seq<u8>> {
    match r {
        Ok(b) => Some(b@),
        Err(_) => None,
    }
}

/// `Docx::build`, then `XMLDocx::pack` into memory; an error is returned as
/// its message. What comes out is an outcome of packing the document, and a
/// package is a ZIP archive whose first entry (the `word/` directory) is
/// written first, beginning with a local file header.
#[verifier::external_body]
fn docx_pack(d: Docx) -> (r: Result<Vec<u8>, String>)
    ensures
        docx_outcome(d, outcome_of(r)),
        r matches Ok(b) ==> zip_start(b@),
{
    let mut buf = std::io::Cursor::new(Vec::new());
    match d.build().pack(&mut buf) {
        Ok(()) => Ok(buf.into_inner()),
        Err(e) => Err(e.to_string()),
    }
}

/// `Paragraph::new`: no elements, no indentation, not centred.
#[verifier::external_body]
fn paragraph_new() -> (p: Paragraph)
    ensures
        paragraph_pieces(p) == Seq::<ParaPiece>::empty(),
        paragraph_layout(p) == (ParaLayout { indent: None, centered: false }),
{
    Paragraph::new()
}

/// `Paragraph::indent` with a left indentation only.
#[verifier::external_body]
fn paragraph_indent(p: Paragraph, left: i32) -> (r: Paragraph)
    ensures
        paragraph_pieces(r) == paragraph_pieces(p),
        paragraph_layout(r) == (ParaLayout { indent: Some(left), centered: paragraph_layout(p).centered }),
{
    p.indent(Some(left), None, None, None)
}

/// `Paragraph::align` with `AlignmentType::Center`.
#[verifier::external_body]
fn paragraph_centered(p: Paragraph) -> (r: Paragraph)
    ensures
        paragraph_pieces(r) == paragraph_pieces(p),
        paragraph_layout(r) == (ParaLayout { indent: paragraph_layout(p).indent, centered: true }),
{
    p.align(AlignmentType::Center)
}

/// `Paragraph::add_run`: the run is appended.
#[verifier::external_body]
fn paragraph_add_run(p: Paragraph, r: Run) -> (q: Paragraph)
    ensures
        paragraph_pieces(q) == paragraph_pieces(p).push(ParaPiece::Run(run_model(r))),
        paragraph_layout(q) == paragraph_layout(p),
{
    p.add_run(r)
}

/// `Paragraph::add_hyperlink`: the link is appended.
#[verifier::external_body]
fn paragraph_add_hyperlink(p: Paragraph, h: Hyperlink) -> (q: Paragraph)
    ensures
        paragraph_pieces(q) == paragraph_pieces(p).push(ParaPiece::Link(hyperlink_url(h), hyperlink_runs(h))),
        paragraph_layout(q) == paragraph_layout(p),
{
    p.add_hyperlink(h)
}

/// The formatting of a new run: none.
pub open spec fn plain_style() -> RunStyle {
    RunStyle { bold: false, italic: false, strike: false, underline: None, color: None, size: None }
}

/// `Run::new`: no elements, no formatting.
#[verifier::external_body]
fn run_new() -> (r: Run)
    ensures
        run_pieces(r) == Seq::<RunPiece>::empty(),
        run_style(r) == plain_style(),
{
    Run::new()
}

/// The text docx-rs keeps of a text given to a run: without line feeds.
pub open spec fn without_line_feeds(t: Seq<char>) -> Seq<char> {
    t.filter(|c: char| c != '\n')
}

/// `Run::add_text`: the text, without its line feeds, is appended.
#[verifier::external_body]
fn run_add_text(r: Run, text: &str) -> (q: Run)
    ensures
        run_pieces(q) == run_pieces(r).push(RunPiece::Text(without_line_feeds(text@))),
        run_style(q) == run_style(r),
{
    r.add_text(text)
}

/// `Run::add_break` with `BreakType::TextWrapping`: a line break is appended.
#[verifier::external_body]
fn run_add_line_break(r: Run) -> (q: Run)
    ensures
        run_pieces(q) == run_pieces(r).push(RunPiece::LineBreak),
        run_style(q) == run_style(r),
{
    r.add_break(BreakType::TextWrapping)
}

/// `Run::bold`.
#[verifier::external_body]
fn run_bold(r: Run) -> (q: Run)
    ensures
        run_pieces(q) == run_pieces(r),
        run_style(q) == (RunStyle { bold: true, ..run_style(r) }),
{
    r.bold()
}

/// `Run::italic`.
#[verifier::external_body]
fn run_italic(r: Run) -> (q: Run)
    ensures
        run_pieces(q) == run_pieces(r),
        run_style(q) == (RunStyle { italic: true, ..run_style(r) }),
{
    r.italic()
}

/// `Run::strike`.
#[verifier::external_body]
fn run_strike(r: Run) -> (q: Run)
    ensures
        run_pieces(q) == run_pieces(r),
        run_style(q) == (RunStyle { strike: true, ..run_style(r) }),
{
    r.strike()
}

/// `Run::underline` with the given line type.
#[verifier::external_body]
fn run_underline(r: Run, line_type: &str) -> (q: Run)
    ensures
        run_pieces(q) == run_pieces(r),
        run_style(q) == (RunStyle { underline: Some(line_type@), ..run_style(r) }),
{
    r.underline(line_type)
}

/// `Run::color` with a hexadecimal RGB value.
#[verifier::external_body]
fn run_color(r: Run, hex: &str) -> (q: Run)
    ensures
        run_pieces(q) == run_pieces(r),
        run_style(q) == (RunStyle { color: Some(hex@), ..run_style(r) }),
{
    r.color(hex)
}

/// `Run::size`, in half-points.
#[verifier::external_body]
fn run_size(r: Run, half_points: usize) -> (q: Run)
    ensures
        run_pieces(q) == run_pieces(r),
        run_style(q) == (RunStyle { size: Some(half_points as nat), ..run_style(r) }),
{
    r.size(half_points)
}

/// `Hyperlink::new` with `HyperlinkType::External`: a link to `url`, without
/// runs.
#[verifier::external_body]
fn external_hyperlink(url: &str) -> (h: Hyperlink)
    ensures
        hyperlink_runs(h) == Seq::<RunModel>::empty(),
        hyperlink_url(h) == Some(url@),
{
    Hyperlink::new(url, HyperlinkType::External)
}

/// `Hyperlink::add_run`: the run is appended.
#[verifier::external_body]
fn hyperlink_add_run(h: Hyperlink, r: Run) -> (g: Hyperlink)
    ensures
        hyperlink_runs(g) == hyperlink_runs(h).push(run_model(r)),
        hyperlink_url(g) == hyperlink_url(h),
{
    h.add_run(r)
}

/// `TableCell::new`: no paragraphs.
#[verifier::external_body]
fn table_cell_new() -> (c: TableCell)
    ensures
        cell_paragraphs(c) == Seq::<ParaModel>::empty(),
{
    TableCell::new()
}

/// `TableCell::add_paragraph`: the paragraph is appended.
#[verifier::external_body]
fn table_cell_add_paragraph(c: TableCell, p: Paragraph) -> (d: TableCell)
    ensures
        cell_paragraphs(d) == cell_paragraphs(c).push(paragraph_model(p)),
{
    c.add_paragraph(p)
}

/// `TableRow::new`: a row of the given cells, in order.
#[verifier::external_body]
fn table_row_new(cells: Vec<TableCell>) -> (r: TableRow)
    ensures
        row_cells(r) == cells@.map_values(|c: TableCell| cell_paragraphs(c)),
{
    TableRow::new(cells)
}

/// `Table::new`: a table of the given rows, in order.
#[verifier::external_body]
fn table_new(rows: Vec<TableRow>) -> (t: Table)
    ensures
        table_rows(t) == rows@.map_values(|r: TableRow| row_cells(r)),
{
    Table::new(rows)
}

/// `Table::set_borders`: the rows are kept.
#[verifier::external_body]
fn table_set_borders(t: Table, b: TableBorders) -> (u: Table)
    ensures
        table_rows(u) == table_rows(t),
{
    t.set_borders(b)
}

/// `TableBorders::new`.
#[verifier::external_body]
fn table_borders_new() -> TableBorders {
    TableBorders::new()
}

/// `TableBorders::set`.
#[verifier::external_body]
fn table_borders_set(bs: TableBorders, b: TableBorder) -> TableBorders {
    bs.set(b)
}

/// `TableBorder::new` at the given position.
#[verifier::external_body]
fn table_border_new(side: BorderSide) -> TableBorder {
    TableBorder::new(
        match side {
            BorderSide::Top => TableBorderPosition::Top,
            BorderSide::Bottom => TableBorderPosition::Bottom,
            BorderSide::Left => TableBorderPosition::Left,
            BorderSide::Right => TableBorderPosition::Right,
            BorderSide::InsideH => TableBorderPosition::InsideH,
            BorderSide::InsideV => TableBorderPosition::InsideV,
        },
    )
}

/// `TableBorder::border_type` with `BorderType::Single`.
#[verifier::external_body]
fn table_border_single(b: TableBorder) -> TableBorder {
    b.border_type(BorderType::Single)
}

/// `TableBorder::size`, in eighths of a point.
#[verifier::external_body]
fn table_border_size(b: TableBorder, size: usize) -> TableBorder {
    b.size(size)
}

/// `TableBorder::color` with a hexadecimal RGB value.
#[verifier::external_body]
fn table_border_color(b: TableBorder, hex: &str) -> TableBorder {
    b.color(hex)
}

/// The hexadecimal RGB value of a colour of the layout.
pub open spec fn color_hex(c: RunColor) -> Seq<char> {
    match c {
        RunColor::Placeholder => "888888"@,
        RunColor::CodeBlock => "333333"@,
        RunColor::InlineCode => "A71D5D"@,
        RunColor::Link => "0000FF"@,
        RunColor::Quote => "555555"@,
        RunColor::Math => "4A154B"@,
    }
}

/// The docx-rs run written for a run of the layout: its formatting, and its
/// text or a line break.
pub open spec fn run_of(v: RunView) -> RunModel {
    RunModel {
        style: RunStyle {
            bold: v.bold,
            italic: v.italic,
            strike: v.strike,
            underline: if v.underline {
                Some("single"@)
            } else {
                None
            },
            color: match v.color {
                Some(c) => Some(color_hex(c)),
                None => None,
            },
            size: match v.size {
                Some(s) => Some(s as nat),
                None => None,
            },
        },
        pieces: match v.text {
            Some(t) => seq![RunPiece::Text(without_line_feeds(t))],
            None => seq![RunPiece::LineBreak],
        },
    }
}

/// The docx-rs element written for an element of a paragraph of the layout:
/// a run, or an external link holding one run.
pub open spec fn piece_of(v: ParaItemView) -> ParaPiece {
    match v {
        ParaItemView::Run(r) => ParaPiece::Run(run_of(r)),
        ParaItemView::Link(url, r) => ParaPiece::Link(Some(url), seq![run_of(r)]),
    }
}

/// The docx-rs paragraph written for a paragraph of the layout.
pub open spec fn paragraph_of(v: ParagraphView) -> ParaModel {
    ParaModel {
        layout: ParaLayout { indent: v.indent, centered: v.centered },
        pieces: v.items.map_values(|i: ParaItemView| piece_of(i)),
    }
}

/// The paragraphs of the docx-rs cell written for a cell of the layout.
pub open spec fn cell_of(v: Option<ParagraphView>) -> Seq<ParaModel> {
    match v {
        Some(p) => seq![paragraph_of(p)],
        None => Seq::empty(),
    }
}

pub open spec fn row_of(v: Seq<Option<ParagraphView>>) -> Seq<Seq<ParaModel>> {
    v.map_values(|c: Option<ParagraphView>| cell_of(c))
}

pub open spec fn table_of(v: Seq<Seq<Option<ParagraphView>>>) -> Seq<Seq<Seq<ParaModel>>> {
    v.map_values(|r: Seq<Option<ParagraphView>>| row_of(r))
}

pub open spec fn block_of(v: DocBlockView) -> BodyPiece {
    match v {
        DocBlockView::Paragraph(p) => BodyPiece::Paragraph(paragraph_of(p)),
        DocBlockView::Table(rows) => BodyPiece::Table(table_of(rows)),
    }
}

/// The body of the docx-rs document written for the blocks of a layout.
pub open spec fn body_of(v: Seq<DocBlockView>) -> Seq<BodyPiece> {
    v.map_values(|b: DocBlockView| block_of(b))
}

fn render_run(spec: &RunSpec) -> (r: Run)
    ensures
        run_model(r) == run_of(spec@),
{
    let mut r = run_new();
    match &spec.text {
        Some(t) => {
            r = run_add_text(r, t.as_str());
        },
        None => {
            r = run_add_line_break(r);
        },
    }
    if spec.bold {
        r = run_bold(r);
    }
    if spec.italic {
        r = run_italic(r);
    }
    if spec.strike {
        r = run_strike(r);
    }
    if spec.underline {
        proof {
            reveal_strlit("single");
        }
        r = run_underline(r, "single");
    }
    match spec.color {
        Some(c) => {
            r = run_color(r, c.hex());
        },
        None => {},
    }
    match spec.size {
        Some(s) => {
            r = run_size(r, s as usize);
        },
        None => {},
    }
    r
}

fn render_paragraph(spec: &ParagraphSpec) -> (p: Paragraph)
    ensures
        paragraph_model(p) == paragraph_of(spec@),
{
    let mut p = paragraph_new();
    match spec.indent {
        Some(left) => {
            p = paragraph_indent(p, left);
        },
        None => {},
    }
    if spec.centered {
        p = paragraph_centered(p);
    }
    let ghost items = items_view(spec.items@);
    let mut i: usize = 0;
    while i < spec.items.len()
        invariant
            i <= spec.items.len(),
            items == items_view(spec.items@),
            paragraph_layout(p) == (ParaLayout { indent: spec.indent, centered: spec.centered }),
            paragraph_pieces(p) == items.subrange(0, i as int).map_values(|v: ParaItemView| piece_of(v)),
        decreases spec.items.len() - i,
    {
        match &spec.items[i] {
            ParaItem::Run(r) => {
                p = paragraph_add_run(p, render_run(r));
            },
            ParaItem::Link(url, r) => {
                let h = hyperlink_add_run(external_hyperlink(url.as_str()), render_run(r));
                p = paragraph_add_hyperlink(p, h);
            },
        }
        proof {
            assert(items.subrange(0, i + 1).map_values(|v: ParaItemView| piece_of(v)) =~= items.subrange(
                0,
                i as int,
            ).map_values(|v: ParaItemView| piece_of(v)).push(piece_of(items[i as int])));
        }
        i = i + 1;
    }
    proof {
        assert(items.subrange(0, items.len() as int) =~= items);
    }
    p
}

fn render_cell(cell: &TableCellSpec) -> (c: TableCell)
    ensures
        cell_paragraphs(c) == cell_of(cell@),
{
    let c = table_cell_new();
    match &cell.paragraph {
        Some(p) => table_cell_add_paragraph(c, render_paragraph(p)),
        None => c,
    }
}

/// The border of a side of a table: a single light grey line of half a point.
fn grey_border(side: BorderSide) -> TableBorder {
    table_border_color(table_border_size(table_border_single(table_border_new(side)), 4), "CCCCCC")
}

fn render_row(row: &Vec<TableCellSpec>) -> (r: TableRow)
    ensures
        row_cells(r) == row_of(cells_view(row@)),
{
    let mut cells: Vec<TableCell> = Vec::new();
    let mut j: usize = 0;
    while j < row.len()
        invariant
            j <= row.len(),
            cells.len() == j,
            forall|k: int| 0 <= k < j ==> cell_paragraphs(#[trigger] cells@[k]) == cell_of(row@[k]@),
        decreases row.len() - j,
    {
        cells.push(render_cell(&row[j]));
        j = j + 1;
    }
    let r = table_row_new(cells);
    proof {
        assert(row_cells(r) =~= row_of(cells_view(row@)));
    }
    r
}

fn render_table(rows: &Vec<Vec<TableCellSpec>>) -> (t: Table)
    ensures
        table_rows(t) == table_of(rows_view(rows@)),
{
    let mut out_rows: Vec<TableRow> = Vec::new();
    let mut i: usize = 0;
    while i < rows.len()
        invariant
            i <= rows.len(),
            out_rows.len() == i,
            forall|k: int| 0 <= k < i ==> row_cells(#[trigger] out_rows@[k]) == row_of(cells_view(rows@[k]@)),
        decreases rows.len() - i,
    {
        out_rows.push(render_row(&rows[i]));
        i = i + 1;
    }
    let mut borders = table_borders_new();
    borders = table_borders_set(borders, grey_border(BorderSide::Top));
    borders = table_borders_set(borders, grey_border(BorderSide::Bottom));
    borders = table_borders_set(borders, grey_border(BorderSide::Left));
    borders = table_borders_set(borders, grey_border(BorderSide::Right));
    borders = table_borders_set(borders, grey_border(BorderSide::InsideH));
    borders = table_borders_set(borders, grey_border(BorderSide::InsideV));
    let t = table_new(out_rows);
    proof {
        assert(table_rows(t) =~= table_of(rows_view(rows@)));
    }
    table_set_borders(t, borders)
}

/// The docx-rs document of the blocks of a laid-out document: its body holds,
/// in order, a paragraph or a table for each block, with the layout, runs,
/// formatting and links of the block.
pub fn build_document(blocks: &Vec<DocBlock>) -> (d: Docx)
    ensures
        docx_body(d) == body_of(doc_view(blocks@)),
{
    let mut doc = docx_new();
    let mut i: usize = 0;
    while i < blocks.len()
        invariant
            i <= blocks.len(),
            docx_body(doc) == body_of(doc_view(blocks@.subrange(0, i as int))),
        decreases blocks.len() - i,
    {
        match &blocks[i] {
            DocBlock::Paragraph(p) => {
                doc = docx_add_paragraph(doc, render_paragraph(p));
            },
            DocBlock::Table(rows) => {
                doc = docx_add_table(doc, render_table(rows));
            },
        }
        proof {
            assert(body_of(doc_view(blocks@.subrange(0, i + 1))) =~= body_of(
                doc_view(blocks@.subrange(0, i as int)),
            ).push(block_of(blocks@[i as int]@)));
        }
        i = i + 1;
    }
    proof {
        assert(blocks@.subrange(0, blocks.len() as int) =~= blocks@);
    }
    doc
}

/// Packs a docx-rs document as a DOCX package, a ZIP archive, or returns the
/// message of the packing error: what comes out is an outcome of packing `d`.
pub fn pack_document(d: Docx) -> (r: Result<Vec<u8>, String>)
    ensures
        docx_outcome(d, outcome_of(r)),
        r matches Ok(b) ==> zip_start(b@),
{
    docx_pack(d)
}

/// Writes the blocks of a laid-out document as a DOCX package: an outcome of
/// packing a document whose body holds, in order, a paragraph or a table for
/// each block (the document `build_document` gives).
pub fn render_docx(blocks: &Vec<DocBlock>) -> (r: Result<Vec<u8>, String>)
    ensures
        exists|d: Docx|
            #![trigger docx_body(d)]
            docx_body(d) == body_of(doc_view(blocks@)) && docx_outcome(d, outcome_of(r)),
        r matches Ok(b) ==> zip_start(b@),
{
    let d = build_document(blocks);
    let ghost g = d;
    let r = pack_document(d);
    assert(docx_body(g) == body_of(doc_view(blocks@)) && docx_outcome(g, outcome_of(r)));
    r
}

} // verus!
