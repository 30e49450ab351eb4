use martini::markdown::{
    layout_markdown, DocBlock, MdEvent, MdState, MdTag, MdTagEnd, ParaItem, ParagraphSpec, RunColor,
    RunSpec,
};
use martini::markdown_parse::markdown_events;
use martini::md_conv::{markdown_conversion_result, markdown_document, MarkdownConverter};
use docx_rs::{DocumentChild, Paragraph, ParagraphChild, Run, RunChild};
use martini::error::MartiniError;
use martini::format::Format;
use martini::word::{build_document, render_docx};

fn text(s: &str) -> MdEvent {
    MdEvent::Text(s.to_string())
}

fn paragraph(b: &DocBlock) -> &ParagraphSpec {
    match b {
        DocBlock::Paragraph(p) => p,
        DocBlock::Table(_) => panic!("expected a paragraph"),
    }
}

fn run(i: &ParaItem) -> &RunSpec {
    match i {
        ParaItem::Run(r) => r,
        ParaItem::Link(_, r) => r,
    }
}

fn run_text(i: &ParaItem) -> Option<&str> {
    run(i).text.as_deref()
}

#[test]
fn headings_are_bold_and_sized() {
    let doc = layout_markdown(&vec![
        MdEvent::Start(MdTag::Heading(1)),
        text("Title"),
        MdEvent::End(MdTagEnd::Heading),
        MdEvent::Start(MdTag::Heading(3)),
        text("Sub"),
        MdEvent::End(MdTagEnd::Heading),
    ]);
    assert_eq!(doc.len(), 2);
    let r = run(&paragraph(&doc[0]).items[0]);
    assert_eq!(r.text.as_deref(), Some("Title"));
    assert!(r.bold);
    assert_eq!(r.size, Some(36));
    assert_eq!(run(&paragraph(&doc[1]).items[0]).size, Some(28));
}

#[test]
fn ordered_lists_count_from_their_start() {
    let doc = layout_markdown(&vec![
        MdEvent::Start(MdTag::List(Some(3))),
        MdEvent::Start(MdTag::Item),
        text("a"),
        MdEvent::End(MdTagEnd::Item),
        MdEvent::Start(MdTag::Item),
        text("b"),
        MdEvent::End(MdTagEnd::Item),
        MdEvent::End(MdTagEnd::List),
        MdEvent::Start(MdTag::List(None)),
        MdEvent::Start(MdTag::Item),
        text("c"),
        MdEvent::End(MdTagEnd::Item),
        MdEvent::End(MdTagEnd::List),
    ]);
    assert_eq!(doc.len(), 3);
    let p0 = paragraph(&doc[0]);
    assert_eq!(run_text(&p0.items[0]), Some("3.  "));
    assert_eq!(run_text(&p0.items[1]), Some("a"));
    assert_eq!(p0.indent, Some(360));
    assert_eq!(run_text(&paragraph(&doc[1]).items[0]), Some("4.  "));
    assert_eq!(run_text(&paragraph(&doc[2]).items[0]), Some("\u{2022}  "));
}

#[test]
fn styles_links_and_code() {
    let doc = layout_markdown(&vec![
        MdEvent::Start(MdTag::Paragraph),
        MdEvent::Start(MdTag::Strong),
        text("bold"),
        MdEvent::End(MdTagEnd::Strong),
        MdEvent::SoftBreak,
        MdEvent::Start(MdTag::Link("https://example.com".to_string())),
        text("site"),
        MdEvent::End(MdTagEnd::Link),
        MdEvent::Code("x = 1".to_string()),
        MdEvent::InlineMath("e^x".to_string()),
        MdEvent::Start(MdTag::Image { dest_url: "a.png".to_string(), title: "".to_string() }),
        MdEvent::End(MdTagEnd::Paragraph),
    ]);
    assert_eq!(doc.len(), 1);
    let items = &paragraph(&doc[0]).items;
    assert_eq!(items.len(), 6);
    assert!(run(&items[0]).bold);
    assert_eq!(run(&items[1]).text, None);
    match &items[2] {
        ParaItem::Link(url, r) => {
            assert_eq!(url, "https://example.com");
            assert_eq!(r.color, Some(RunColor::Link));
            assert!(r.underline);
            assert!(!r.bold);
        },
        ParaItem::Run(_) => panic!("expected a link"),
    }
    assert_eq!(run(&items[3]).color, Some(RunColor::InlineCode));
    assert_eq!(run(&items[4]).color, Some(RunColor::Math));
    assert!(run(&items[4]).italic);
    assert_eq!(run_text(&items[5]), Some("[Image: a.png]"));
    assert_eq!(run(&items[5]).color, Some(RunColor::Placeholder));
    assert_eq!(RunColor::Link.hex(), "0000FF");
}

#[test]
fn block_quotes_and_display_math() {
    let doc = layout_markdown(&vec![
        MdEvent::Start(MdTag::BlockQuote),
        MdEvent::Start(MdTag::Paragraph),
        text("quoted"),
        MdEvent::End(MdTagEnd::Paragraph),
        MdEvent::End(MdTagEnd::BlockQuote),
        MdEvent::DisplayMath("a+b".to_string()),
    ]);
    assert_eq!(doc.len(), 2);
    let math = paragraph(&doc[1]);
    assert!(math.centered);
    assert_eq!(run(&math.items[0]).size, Some(24));
}

#[test]
fn tables_collect_rows_of_cells() {
    let doc = layout_markdown(&vec![
        MdEvent::Start(MdTag::Table),
        MdEvent::Start(MdTag::TableHead),
        MdEvent::Start(MdTag::TableCell),
        text("h1"),
        MdEvent::End(MdTagEnd::TableCell),
        MdEvent::End(MdTagEnd::TableHead),
        MdEvent::Start(MdTag::TableRow),
        MdEvent::Start(MdTag::TableCell),
        text("v1"),
        MdEvent::End(MdTagEnd::TableCell),
        MdEvent::End(MdTagEnd::TableRow),
        MdEvent::End(MdTagEnd::Table),
    ]);
    assert_eq!(doc.len(), 1);
    match &doc[0] {
        DocBlock::Table(rows) => {
            assert_eq!(rows.len(), 2);
            assert_eq!(rows[0].len(), 1);
            let cell = rows[1][0].paragraph.as_ref().unwrap();
            assert_eq!(run_text(&cell.items[0]), Some("v1"));
        },
        DocBlock::Paragraph(_) => panic!("expected a table"),
    }
}

#[test]
fn states_step_one_event_at_a_time() {
    let mut s = MdState::new();
    s.step(MdEvent::Start(MdTag::Paragraph));
    s.step(text("x"));
    assert!(s.doc.is_empty());
    s.step(MdEvent::End(MdTagEnd::Paragraph));
    assert_eq!(s.doc.len(), 1);
    assert!(s.current_para.is_none());
}

#[test]
fn markdown_text_is_parsed_into_events() {
    let events = markdown_events("# Title\n\nSome **bold** and ~~old~~ text.\n\n- item\n");
    let doc = layout_markdown(&events);
    assert_eq!(doc.len(), 3);
    assert_eq!(run_text(&paragraph(&doc[0]).items[0]), Some("Title"));
    assert_eq!(run(&paragraph(&doc[0]).items[0]).size, Some(36));
    let body = &paragraph(&doc[1]).items;
    assert!(body.iter().any(|i| run(i).bold && run_text(i) == Some("bold")));
    assert!(body.iter().any(|i| run(i).strike && run_text(i) == Some("old")));
    assert_eq!(run_text(&paragraph(&doc[2]).items[0]), Some("\u{2022}  "));
    let table = markdown_events("| a | b |\n|---|---|\n| 1 | 2 |\n");
    assert!(table.iter().any(|e| matches!(e, MdEvent::Start(MdTag::Table))));
}

#[test]
fn test_convert_md_to_docx() {
    let sample = "# Sample\n\nA paragraph with a [link](https://example.com).\n\n1. one\n2. two\n\n| a | b |\n|---|---|\n| 1 | 2 |\n";
    let bytes = MarkdownConverter.convert_markdown(sample.as_bytes()).unwrap();
    assert!(bytes.len() > 0);
    assert_eq!(&bytes[..2], b"PK");
    let report = markdown_conversion_result("output.docx", bytes.len() as u64);
    assert_eq!(report.from, Format::Md);
    assert_eq!(report.to, Format::Docx);
    assert_eq!(report.output_files[0].description, "Converted from Markdown");
}

#[test]
fn invalid_utf8_is_invalid_input() {
    let err = MarkdownConverter.convert_markdown(&[0x66, 0xFF, 0x66]).unwrap_err();
    assert!(matches!(err, MartiniError::InvalidInputData { .. }));
    assert_eq!(
        err.to_string(),
        "Invalid input data: Input is not valid UTF-8: invalid utf-8 sequence of 1 bytes from index 1"
    );
    assert_eq!(err.exit_code(), 3);
}

#[test]
fn truncated_utf8_is_reported_as_incomplete() {
    let err = MarkdownConverter.convert_markdown(&[0x61, 0x62, 0xE2, 0x82]).unwrap_err();
    assert_eq!(
        err.to_string(),
        "Invalid input data: Input is not valid UTF-8: incomplete utf-8 byte sequence from index 2"
    );
}

#[test]
fn empty_documents_still_pack() {
    let bytes = render_docx(&vec![]).unwrap();
    assert_eq!(&bytes[..2], b"PK");
}

fn texts(p: &ParagraphSpec) -> Vec<&str> {
    p.items.iter().filter_map(run_text).collect()
}

#[test]
fn top_level_block_quotes_are_indented_italic_grey() {
    let doc = layout_markdown(&markdown_events("> This is a blockquote."));
    assert_eq!(doc.len(), 1);
    let p = paragraph(&doc[0]);
    assert_eq!(p.indent, Some(720));
    assert_eq!(texts(p), vec!["This is a blockquote."]);
    let r = run(&p.items[0]);
    assert!(r.italic);
    assert_eq!(r.color, Some(RunColor::Quote));
    assert_eq!(RunColor::Quote.hex(), "555555");
}

#[test]
fn ordered_lists_tight_and_loose_are_numbered_and_indented() {
    let doc = layout_markdown(&markdown_events("3. a\n4. b\n"));
    assert_eq!(doc.len(), 2);
    assert_eq!(texts(paragraph(&doc[0])), vec!["3.  ", "a"]);
    assert_eq!(texts(paragraph(&doc[1])), vec!["4.  ", "b"]);
    assert_eq!(paragraph(&doc[1]).indent, Some(360));
    let doc = layout_markdown(&markdown_events("1. x\n\n2. y\n"));
    assert_eq!(doc.len(), 2);
    assert_eq!(texts(paragraph(&doc[0])), vec!["1.  ", "x"]);
    assert_eq!(texts(paragraph(&doc[1])), vec!["2.  ", "y"]);
    assert_eq!(paragraph(&doc[0]).indent, Some(360));
    assert_eq!(paragraph(&doc[1]).indent, Some(360));
}

fn body_paragraph(c: &DocumentChild) -> &Paragraph {
    match c {
        DocumentChild::Paragraph(p) => p,
        _ => panic!("expected a paragraph"),
    }
}

fn paragraph_run(c: &ParagraphChild) -> &Run {
    match c {
        ParagraphChild::Run(r) => r,
        _ => panic!("expected a run"),
    }
}

fn run_text_child(r: &Run) -> String {
    match &r.children[0] {
        RunChild::Text(t) => t.text.clone(),
        _ => panic!("expected a text"),
    }
}

#[test]
fn a_top_level_quote_is_written_indented_italic_grey() {
    let d = markdown_document("> This is a blockquote.");
    assert_eq!(d.document.children.len(), 1);
    let p = body_paragraph(&d.document.children[0]);
    assert_eq!(p.property.indent.as_ref().and_then(|i| i.start), Some(720));
    assert_eq!(p.children.len(), 1);
    let r = paragraph_run(&p.children[0]);
    assert!(r.run_property.italic.is_some());
    assert!(r.run_property.bold.is_none());
    assert!(format!("{:?}", r.run_property.color).contains("555555"));
    assert_eq!(run_text_child(r), "This is a blockquote.");
}

#[test]
fn loose_ordered_list_items_are_written_numbered_and_indented() {
    let d = markdown_document("1. x\n\n2. y\n");
    assert_eq!(d.document.children.len(), 2);
    let first = body_paragraph(&d.document.children[0]);
    let second = body_paragraph(&d.document.children[1]);
    assert_eq!(first.property.indent.as_ref().and_then(|i| i.start), Some(360));
    assert_eq!(second.property.indent.as_ref().and_then(|i| i.start), Some(360));
    let texts: Vec<String> = first.children.iter().map(|c| run_text_child(paragraph_run(c))).collect();
    assert_eq!(texts, vec!["1.  ".to_string(), "x".to_string()]);
    let texts: Vec<String> = second.children.iter().map(|c| run_text_child(paragraph_run(c))).collect();
    assert_eq!(texts, vec!["2.  ".to_string(), "y".to_string()]);
}

#[test]
fn bold_and_links_are_written_as_laid_out() {
    let d = markdown_document("**b** [l](https://example.com)");
    let p = body_paragraph(&d.document.children[0]);
    let b = paragraph_run(&p.children[0]);
    assert!(b.run_property.bold.is_some());
    assert!(b.run_property.italic.is_none());
    assert_eq!(run_text_child(b), "b");
    let link = p.children.iter().find_map(|c| match c {
        ParagraphChild::Hyperlink(h) => Some(h),
        _ => None,
    });
    let link = link.expect("a hyperlink");
    assert!(format!("{:?}", link.link).contains("https://example.com"));
    let lr = paragraph_run(&link.children[0]);
    assert!(format!("{:?}", lr.run_property.color).contains("0000FF"));
    assert!(lr.run_property.underline.is_some());
    assert_eq!(run_text_child(lr), "l");
}

#[test]
fn tables_are_written_as_rows_of_cells() {
    let d = markdown_document("| a | b |\n|---|---|\n| 1 | 2 |\n");
    assert_eq!(d.document.children.len(), 1);
    match &d.document.children[0] {
        DocumentChild::Table(t) => assert_eq!(t.rows.len(), 2),
        _ => panic!("expected a table"),
    }
}

#[test]
fn an_empty_layout_is_an_empty_body() {
    let d = build_document(&vec![]);
    assert!(d.document.children.is_empty());
}

#[test]
fn converted_bytes_read_back_as_the_laid_out_document() {
    let bytes = MarkdownConverter.convert_markdown(b"> This is a blockquote.").unwrap();
    let d = docx_rs::read_docx(&bytes).unwrap();
    let paragraphs: Vec<&Paragraph> = d
        .document
        .children
        .iter()
        .filter_map(|c| match c {
            DocumentChild::Paragraph(p) => Some(&**p),
            _ => None,
        })
        .collect();
    assert_eq!(paragraphs.len(), 1);
    let p = paragraphs[0];
    assert_eq!(p.property.indent.as_ref().and_then(|i| i.start), Some(720));
    let r = paragraph_run(&p.children[0]);
    assert!(r.run_property.italic.is_some());
    assert_eq!(run_text_child(r), "This is a blockquote.");
}

#[test]
fn converted_lists_read_back_numbered() {
    let bytes = MarkdownConverter.convert_markdown(b"3. a\n4. b\n").unwrap();
    let d = docx_rs::read_docx(&bytes).unwrap();
    let texts: Vec<Vec<String>> = d
        .document
        .children
        .iter()
        .filter_map(|c| match c {
            DocumentChild::Paragraph(p) => Some(p.children.iter().map(|c| run_text_child(paragraph_run(c))).collect()),
            _ => None,
        })
        .collect();
    assert_eq!(texts, vec![vec!["3.  ".to_string(), "a".to_string()], vec!["4.  ".to_string(), "b".to_string()]]);
}
