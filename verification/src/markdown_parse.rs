//! Reading Markdown with `pulldown-cmark`: its events are translated into the
//! plain events that the layout engine reads.

use vstd::prelude::*;
use pulldown_cmark::{Event, Options, Parser, Tag, TagEnd};
use crate::markdown::{events_view, MdEvent, MdEventView, MdTag, MdTagEnd};

verus! {

#[verifier::external_type_specification]
#[verifier::external_body]
pub struct ExEvent<'a>(Event<'a>);

#[verifier::external_type_specification]
#[verifier::external_body]
pub struct ExTag<'a>(Tag<'a>);

#[verifier::external_type_specification]
#[verifier::external_body]
pub struct ExTagEnd(TagEnd);

/// Names the events that `pulldown-cmark` reads from a Markdown text with
/// tables, strikethrough, task lists and math enabled, each translated by
/// `translate_event`.
pub uninterp spec fn markdown_parse(text: Seq<char>) -> Seq<MdEventView>;

/// Runs `pulldown_cmark::Parser::new_ext` over `text` with tables,
/// strikethrough, task lists and math enabled, and translates its events in
/// order. The parser's result depends on the text alone.
#[verifier::external_body]
fn parse_events(text: &str) -> (events: Vec<MdEvent>)
    ensures
        events_view(events@) == markdown_parse(text@),
{
    let options = Options::ENABLE_TABLES | Options::ENABLE_STRIKETHROUGH | Options::ENABLE_TASKLISTS
        | Options::ENABLE_MATH;
    Parser::new_ext(text, options).map(|e| translate_event(&e)).collect()
}

/// Tells the variants of a `pulldown_cmark::Event` apart and copies the text
/// they carry; a start or end of an element is reported without its tag.
#[verifier::external_body]
fn event_shape(e: &Event<'_>) -> MdEvent {
    match e {
        Event::Start(_) => MdEvent::Start(MdTag::Other),
        Event::End(_) => MdEvent::End(MdTagEnd::Other),
        Event::Text(s) => MdEvent::Text(s.to_string()),
        Event::Code(s) => MdEvent::Code(s.to_string()),
        Event::InlineMath(s) => MdEvent::InlineMath(s.to_string()),
        Event::DisplayMath(s) => MdEvent::DisplayMath(s.to_string()),
        Event::SoftBreak => MdEvent::SoftBreak,
        Event::HardBreak => MdEvent::HardBreak,
        _ => MdEvent::Other,
    }
}

/// The tag of a `pulldown_cmark::Event::Start`, if `e` is one.
#[verifier::external_body]
fn start_tag<'a, 'b>(e: &'b Event<'a>) -> Option<&'b Tag<'a>> {
    match e {
        Event::Start(t) => Some(t),
        _ => None,
    }
}

/// The tag of a `pulldown_cmark::Event::End`, if `e` is one.
#[verifier::external_body]
fn end_tag(e: &Event<'_>) -> Option<TagEnd> {
    match e {
        Event::End(t) => Some(*t),
        _ => None,
    }
}

/// Translates the block-level variants of a `pulldown_cmark::Tag`; the others
/// become `Other`.
#[verifier::external_body]
fn block_tag(t: &Tag<'_>) -> MdTag {
    match t {
        Tag::Paragraph => MdTag::Paragraph,
        Tag::Heading { level, .. } => MdTag::Heading(*level as u8),
        Tag::BlockQuote(_) => MdTag::BlockQuote,
        Tag::CodeBlock(_) => MdTag::CodeBlock,
        Tag::List(start) => MdTag::List(*start),
        Tag::Item => MdTag::Item,
        Tag::Table(_) => MdTag::Table,
        Tag::TableHead => MdTag::TableHead,
        Tag::TableRow => MdTag::TableRow,
        Tag::TableCell => MdTag::TableCell,
        _ => MdTag::Other,
    }
}

/// Translates the inline variants of a `pulldown_cmark::Tag`; the others become
/// `Other`.
#[verifier::external_body]
fn inline_tag(t: &Tag<'_>) -> MdTag {
    match t {
        Tag::Emphasis => MdTag::Emphasis,
        Tag::Strong => MdTag::Strong,
        Tag::Strikethrough => MdTag::Strikethrough,
        Tag::Link { dest_url, .. } => MdTag::Link(dest_url.to_string()),
        Tag::Image { dest_url, title, .. } => MdTag::Image { dest_url: dest_url.to_string(), title: title.to_string() },
        _ => MdTag::Other,
    }
}

/// Translates the block-level variants of a `pulldown_cmark::TagEnd`; the
/// others become `Other`.
#[verifier::external_body]
fn block_tag_end(t: TagEnd) -> MdTagEnd {
    match t {
        TagEnd::Paragraph => MdTagEnd::Paragraph,
        TagEnd::Heading(_) => MdTagEnd::Heading,
        TagEnd::BlockQuote(_) => MdTagEnd::BlockQuote,
        TagEnd::CodeBlock => MdTagEnd::CodeBlock,
        TagEnd::List(_) => MdTagEnd::List,
        TagEnd::Item => MdTagEnd::Item,
        TagEnd::Table => MdTagEnd::Table,
        TagEnd::TableHead => MdTagEnd::TableHead,
        TagEnd::TableRow => MdTagEnd::TableRow,
        TagEnd::TableCell => MdTagEnd::TableCell,
        _ => MdTagEnd::Other,
    }
}

/// Translates the inline variants of a `pulldown_cmark::TagEnd`; the others
/// become `Other`.
#[verifier::external_body]
fn inline_tag_end(t: TagEnd) -> MdTagEnd {
    match t {
        TagEnd::Emphasis => MdTagEnd::Emphasis,
        TagEnd::Strong => MdTagEnd::Strong,
        TagEnd::Strikethrough => MdTagEnd::Strikethrough,
        TagEnd::Link => MdTagEnd::Link,
        _ => MdTagEnd::Other,
    }
}

/// The event that the layout engine reads for one parser event: the shape of
/// the event, with its tag translated block-level first, then inline.
fn translate_event(e: &Event<'_>) -> MdEvent {
    match start_tag(e) {
        Some(t) => {
            let b = block_tag(t);
            return MdEvent::Start(
                match b {
                    MdTag::Other => inline_tag(t),
                    _ => b,
                },
            );
        },
        None => {},
    }
    match end_tag(e) {
        Some(t) => {
            let b = block_tag_end(t);
            return MdEvent::End(
                if b == MdTagEnd::Other {
                    inline_tag_end(t)
                } else {
                    b
                },
            );
        },
        None => {},
    }
    event_shape(e)
}

/// The events of a Markdown text, as `pulldown-cmark` reads it with tables,
/// strikethrough, task lists and math enabled.
pub fn markdown_events(text: &str) -> (events: Vec<MdEvent>)
    ensures
        events_view(events@) == markdown_parse(text@),
{
    parse_events(text)
}

} // verus!
