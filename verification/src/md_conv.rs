//! Markdown to Word: the bytes of a Markdown file become the bytes of a DOCX
//! package.

use vstd::prelude::*;
use vstd::utf8::{decode_utf8, valid_utf8};
use crate::convert::{ConversionResult, OutputFileMetadata};
use crate::error::MartiniError;
use crate::format::Format;
use crate::markdown::{initial_state, layout_markdown, run_events};
use crate::markdown_parse::{markdown_events, markdown_parse};
use crate::text::{decimal, owned, push_decimal};
use crate::word::{body_of, build_document, docx_body, docx_outcome, pack_document, zip_start};
use docx_rs::Docx;

verus! {

/// Names what `std::str::Utf8Error::error_len` reports for bytes that are not
/// UTF-8: the length of the invalid sequence after the longest UTF-8 prefix, or
/// `None` where the bytes end inside a sequence.
pub uninterp spec fn utf8_error_len(bytes: Seq<u8>) -> Option<usize>;

/// The length of the longest prefix of `bytes` that is UTF-8.
pub open spec fn utf8_valid_up_to(bytes: Seq<u8>) -> nat {
    choose|v: nat| is_longest_utf8_prefix(bytes, v)
}

pub open spec fn is_longest_utf8_prefix(bytes: Seq<u8>, v: nat) -> bool {
    &&& v <= bytes.len()
    &&& valid_utf8(bytes.take(v as int))
    &&& forall|k: int| v < k <= bytes.len() ==> !valid_utf8(#[trigger] bytes.take(k))
}

/// The message of a `std::str::Utf8Error`, as its `Display` writes it.
pub open spec fn utf8_error_message(valid_up_to: nat, error_len: Option<usize>) -> Seq<char> {
    match error_len {
        Some(n) => "invalid utf-8 sequence of "@ + decimal(n as nat) + " bytes from index "@ + decimal(valid_up_to),
        None => "incomplete utf-8 byte sequence from index "@ + decimal(valid_up_to),
    }
}

/// The message given for bytes that are not UTF-8.
pub open spec fn utf8_error_text(bytes: Seq<u8>) -> Seq<char> {
    utf8_error_message(utf8_valid_up_to(bytes), utf8_error_len(bytes))
}

/// Calls `std::str::from_utf8`: the bytes as text when they are UTF-8;
/// otherwise what its `Utf8Error` reports: `valid_up_to`, the largest index
/// up to which the bytes are UTF-8, and `error_len`.
#[verifier::external_body]
fn utf8_text(bytes: &[u8]) -> (r: Result<&str, (usize, Option<usize>)>)
    ensures
        r matches Ok(s) ==> valid_utf8(bytes@) && s@ == decode_utf8(bytes@),
        r matches Err(e) ==> !valid_utf8(bytes@) && is_longest_utf8_prefix(bytes@, e.0 as nat) && e.1
            == utf8_error_len(bytes@),
{
    match std::str::from_utf8(bytes) {
        Ok(s) => Ok(s),
        Err(e) => Err((e.valid_up_to(), e.error_len())),
    }
}

proof fn lemma_longest_prefix_unique(bytes: Seq<u8>, v: nat)
    requires
        is_longest_utf8_prefix(bytes, v),
    ensures
        utf8_valid_up_to(bytes) == v,
{
    let w = utf8_valid_up_to(bytes);
    assert(is_longest_utf8_prefix(bytes, w));
    if w < v {
        assert(!valid_utf8(bytes.take(v as int)));
    } else if v < w {
        assert(!valid_utf8(bytes.take(w as int)));
    }
}

/// Appends the message of a `std::str::Utf8Error` with the given fields.
fn push_utf8_error(out: &mut String, valid_up_to: usize, error_len: Option<usize>)
    ensures
        final(out)@ == old(out)@ + utf8_error_message(valid_up_to as nat, error_len),
{
    proof {
        reveal_strlit("invalid utf-8 sequence of ");
        reveal_strlit(" bytes from index ");
        reveal_strlit("incomplete utf-8 byte sequence from index ");
    }
    match error_len {
        Some(n) => {
            out.append("invalid utf-8 sequence of ");
            push_decimal(out, n as u64);
            out.append(" bytes from index ");
            push_decimal(out, valid_up_to as u64);
        },
        None => {
            out.append("incomplete utf-8 byte sequence from index ");
            push_decimal(out, valid_up_to as u64);
        },
    }
}

/// The layout of a Markdown text: the blocks that its events leave, in order.
pub open spec fn markdown_layout(text: Seq<char>) -> Seq<crate::markdown::DocBlockView> {
    run_events(initial_state(), markdown_parse(text)).doc
}

/// The Word document of a Markdown text: the docx-rs document whose body holds
/// a paragraph or a table for each block of the text's layout.
pub fn markdown_document(text: &str) -> (d: Docx)
    ensures
        docx_body(d) == body_of(markdown_layout(text@)),
{
    let events = markdown_events(text);
    let blocks = layout_markdown(&events);
    build_document(&blocks)
}

/// The converter from Markdown to Word documents.
pub struct MarkdownConverter;

impl MarkdownConverter {
    /// Converts Markdown to the bytes of a DOCX package: the package of
    /// `markdown_document` of the text. Input that is not UTF-8 is invalid; a
    /// failure to pack the document is an output error.
    pub fn convert_markdown(&self, input_data: &[u8]) -> (r: Result<Vec<u8>, MartiniError>)
        ensures
            !valid_utf8(input_data@) ==> (r matches Err(MartiniError::InvalidInputData { reason })
                && reason@ == "Input is not valid UTF-8: "@ + utf8_error_text(input_data@)),
            valid_utf8(input_data@) ==> (r is Ok || r matches Err(MartiniError::OutputWrite { .. })),
            valid_utf8(input_data@) ==> exists|d: Docx|
                #![trigger docx_body(d)]
                docx_body(d) == body_of(markdown_layout(decode_utf8(input_data@))) && docx_outcome(
                    d,
                    match r {
                        Ok(b) => Some(b@),
                        Err(_) => None,
                    },
                ),
            r matches Ok(b) ==> zip_start(b@),
            r matches Err(MartiniError::OutputWrite { reason }) ==> "Failed to pack DOCX: "@.is_prefix_of(reason@),
    {
        let text = match utf8_text(input_data) {
            Ok(t) => t,
            Err((valid_up_to, error_len)) => {
                proof {
                    lemma_longest_prefix_unique(input_data@, valid_up_to as nat);
                }
                let mut reason = owned("Input is not valid UTF-8: ");
                push_utf8_error(&mut reason, valid_up_to, error_len);
                return Err(MartiniError::InvalidInputData { reason });
            },
        };
        let d = markdown_document(text);
        let ghost g = d;
        let packed = pack_document(d);
        let r = match packed {
            Ok(bytes) => Ok(bytes),
            Err(e) => {
                let mut reason = owned("Failed to pack DOCX: ");
                reason.append(e.as_str());
                Err(MartiniError::OutputWrite { reason })
            },
        };
        assert(docx_body(g) == body_of(markdown_layout(decode_utf8(input_data@))));
        r
    }
}

/// The report of a Markdown conversion written to `path`.
pub fn markdown_conversion_result(path: &str, size_bytes: u64) -> (r: ConversionResult)
    ensures
        r.from == Format::Md,
        r.to == Format::Docx,
        r.output_files@.len() == 1,
        r.output_files@[0].path@ == path@,
        r.output_files@[0].size_bytes == size_bytes,
        r.output_files@[0].description@ == "Converted from Markdown"@,
{
    let mut files: Vec<OutputFileMetadata> = Vec::new();
    files.push(OutputFileMetadata { path: owned(path), size_bytes, description: owned("Converted from Markdown") });
    ConversionResult { from: Format::Md, to: Format::Docx, output_files: files }
}

} // verus!
