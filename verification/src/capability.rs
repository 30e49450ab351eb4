//! The table of supported conversions, and its one-line listing.

use vstd::prelude::*;
use crate::text::{owned, same_text};

verus! {

/// One supported conversion: source and target format names, what it does, and
/// the options that apply to it, each with a short description.
#[derive(Debug, Clone)]
pub struct FormatCapability {
    pub from: String,
    pub to: String,
    pub description: String,
    pub parameters: Vec<(String, String)>,
}

/// A capability as plain character sequences.
pub type CapabilityView = (Seq<char>, Seq<char>, Seq<char>, Seq<(Seq<char>, Seq<char>)>);

pub open spec fn param_view(p: (String, String)) -> (Seq<char>, Seq<char>) {
    (p.0@, p.1@)
}

pub open spec fn capability_view(c: FormatCapability) -> CapabilityView {
    (c.from@, c.to@, c.description@, c.parameters@.map_values(|p: (String, String)| param_view(p)))
}

/// The supported conversions, in the order they are listed.
pub open spec fn capability_table() -> Seq<CapabilityView> {
    seq![        ("svg, png, jpg, jpeg, webp, avif"@, "favicon"@, "Convert an SVG or raster image to a Chrome favicon (.ico or full favicon package)"@, seq![("package"@, "boolean (generates a package of optimized PNGs, manifest, and HTML copy-paste snippets alongside the .ico file)"@)]),
        ("svg, png, jpg, jpeg, webp, avif"@, "png"@, "Convert images to PNG format"@, seq![("overwrite"@, "boolean (default false)"@), ("delete_original"@, "boolean (default false)"@), ("recursive"@, "boolean (default false)"@), ("workers"@, "integer (optional)"@)]),
        ("svg, png, jpg, jpeg, webp, avif"@, "jpg"@, "Convert images to JPEG format"@, seq![("quality"@, "integer (1-100, default 80)"@), ("overwrite"@, "boolean (default false)"@), ("delete_original"@, "boolean (default false)"@), ("recursive"@, "boolean (default false)"@), ("workers"@, "integer (optional)"@)]),
        ("svg, png, jpg, jpeg, webp, avif"@, "webp"@, "Convert images to WebP format"@, seq![("quality"@, "integer (1-100, default 80)"@), ("lossless"@, "boolean (default false)"@), ("overwrite"@, "boolean (default false)"@), ("delete_original"@, "boolean (default false)"@), ("recursive"@, "boolean (default false)"@), ("workers"@, "integer (optional)"@)]),
        ("svg, png, jpg, jpeg, webp, avif"@, "avif"@, "Convert images to AVIF format"@, seq![("quality"@, "integer (1-100, default 80)"@), ("lossless"@, "boolean (default false)"@), ("overwrite"@, "boolean (default false)"@), ("delete_original"@, "boolean (default false)"@), ("recursive"@, "boolean (default false)"@), ("workers"@, "integer (optional)"@)]),
        ("svg, png, jpg, jpeg, webp, avif"@, "both"@, "Convert images to both WebP and AVIF formats"@, seq![("quality"@, "integer (1-100, default 80)"@), ("lossless"@, "boolean (default false)"@), ("overwrite"@, "boolean (default false)"@), ("delete_original"@, "boolean (default false)"@), ("recursive"@, "boolean (default false)"@), ("workers"@, "integer (optional)"@)]),
        ("pdf"@, "png, jpg, jpeg, webp, avif"@, "Convert PDF pages to images"@, seq![("pages"@, "string (comma-separated page numbers or ranges, e.g. '1,3-5')"@), ("dpi"@, "integer (rendering DPI, default 150)"@), ("quality"@, "integer (1-100, default 80)"@), ("lossless"@, "boolean (default false)"@), ("overwrite"@, "boolean (default false)"@), ("delete_original"@, "boolean (default false)"@)]),
        ("md"@, "docx"@, "Convert Markdown documents to Microsoft Word (DOCX) files"@, seq![("overwrite"@, "boolean (default false)"@)])
    ]
}

fn param(name: &str, description: &str) -> (r: (String, String))
    ensures
        param_view(r) == (name@, description@),
{
    (owned(name), owned(description))
}

fn capability(from: &str, to: &str, description: &str, parameters: Vec<(String, String)>) -> (r: FormatCapability)
    ensures
        capability_view(r) == (from@, to@, description@, parameters@.map_values(|p: (String, String)| param_view(p))),
{
    FormatCapability { from: owned(from), to: owned(to), description: owned(description), parameters }
}

fn capability_0() -> (r: FormatCapability)
    ensures
        capability_view(r) == capability_table()[0],
{
    let mut ps: Vec<(String, String)> = Vec::new();
    ps.push(param("package", "boolean (generates a package of optimized PNGs, manifest, and HTML copy-paste snippets alongside the .ico file)"));
    let ghost pv = ps@.map_values(|p: (String, String)| param_view(p));
    assert(pv =~= seq![("package"@, "boolean (generates a package of optimized PNGs, manifest, and HTML copy-paste snippets alongside the .ico file)"@)]);
    capability("svg, png, jpg, jpeg, webp, avif", "favicon", "Convert an SVG or raster image to a Chrome favicon (.ico or full favicon package)", ps)
}

fn capability_1() -> (r: FormatCapability)
    ensures
        capability_view(r) == capability_table()[1],
{
    let mut ps: Vec<(String, String)> = Vec::new();
    ps.push(param("overwrite", "boolean (default false)"));
    ps.push(param("delete_original", "boolean (default false)"));
    ps.push(param("recursive", "boolean (default false)"));
    ps.push(param("workers", "integer (optional)"));
    let ghost pv = ps@.map_values(|p: (String, String)| param_view(p));
    assert(pv =~= seq![("overwrite"@, "boolean (default false)"@), ("delete_original"@, "boolean (default false)"@), ("recursive"@, "boolean (default false)"@), ("workers"@, "integer (optional)"@)]);
    capability("svg, png, jpg, jpeg, webp, avif", "png", "Convert images to PNG format", ps)
}

fn capability_2() -> (r: FormatCapability)
    ensures
        capability_view(r) == capability_table()[2],
{
    let mut ps: Vec<(String, String)> = Vec::new();
    ps.push(param("quality", "integer (1-100, default 80)"));
    ps.push(param("overwrite", "boolean (default false)"));
    ps.push(param("delete_original", "boolean (default false)"));
    ps.push(param("recursive", "boolean (default false)"));
    ps.push(param("workers", "integer (optional)"));
    let ghost pv = ps@.map_values(|p: (String, String)| param_view(p));
    assert(pv =~= seq![("quality"@, "integer (1-100, default 80)"@), ("overwrite"@, "boolean (default false)"@), ("delete_original"@, "boolean (default false)"@), ("recursive"@, "boolean (default false)"@), ("workers"@, "integer (optional)"@)]);
    capability("svg, png, jpg, jpeg, webp, avif", "jpg", "Convert images to JPEG format", ps)
}

fn capability_3() -> (r: FormatCapability)
    ensures
        capability_view(r) == capability_table()[3],
{
    let mut ps: Vec<(String, String)> = Vec::new();
    ps.push(param("quality", "integer (1-100, default 80)"));
    ps.push(param("lossless", "boolean (default false)"));
    ps.push(param("overwrite", "boolean (default false)"));
    ps.push(param("delete_original", "boolean (default false)"));
    ps.push(param("recursive", "boolean (default false)"));
    ps.push(param("workers", "integer (optional)"));
    let ghost pv = ps@.map_values(|p: (String, String)| param_view(p));
    assert(pv =~= seq![("quality"@, "integer (1-100, default 80)"@), ("lossless"@, "boolean (default false)"@), ("overwrite"@, "boolean (default false)"@), ("delete_original"@, "boolean (default false)"@), ("recursive"@, "boolean (default false)"@), ("workers"@, "integer (optional)"@)]);
    capability("svg, png, jpg, jpeg, webp, avif", "webp", "Convert images to WebP format", ps)
}

fn capability_4() -> (r: FormatCapability)
    ensures
        capability_view(r) == capability_table()[4],
{
    let mut ps: Vec<(String, String)> = Vec::new();
    ps.push(param("quality", "integer (1-100, default 80)"));
    ps.push(param("lossless", "boolean (default false)"));
    ps.push(param("overwrite", "boolean (default false)"));
    ps.push(param("delete_original", "boolean (default false)"));
    ps.push(param("recursive", "boolean (default false)"));
    ps.push(param("workers", "integer (optional)"));
    let ghost pv = ps@.map_values(|p: (String, String)| param_view(p));
    assert(pv =~= seq![("quality"@, "integer (1-100, default 80)"@), ("lossless"@, "boolean (default false)"@), ("overwrite"@, "boolean (default false)"@), ("delete_original"@, "boolean (default false)"@), ("recursive"@, "boolean (default false)"@), ("workers"@, "integer (optional)"@)]);
    capability("svg, png, jpg, jpeg, webp, avif", "avif", "Convert images to AVIF format", ps)
}

fn capability_5() -> (r: FormatCapability)
    ensures
        capability_view(r) == capability_table()[5],
{
    let mut ps: Vec<(String, String)> = Vec::new();
    ps.push(param("quality", "integer (1-100, default 80)"));
    ps.push(param("lossless", "boolean (default false)"));
    ps.push(param("overwrite", "boolean (default false)"));
    ps.push(param("delete_original", "boolean (default false)"));
    ps.push(param("recursive", "boolean (default false)"));
    ps.push(param("workers", "integer (optional)"));
    let ghost pv = ps@.map_values(|p: (String, String)| param_view(p));
    assert(pv =~= seq![("quality"@, "integer (1-100, default 80)"@), ("lossless"@, "boolean (default false)"@), ("overwrite"@, "boolean (default false)"@), ("delete_original"@, "boolean (default false)"@), ("recursive"@, "boolean (default false)"@), ("workers"@, "integer (optional)"@)]);
    capability("svg, png, jpg, jpeg, webp, avif", "both", "Convert images to both WebP and AVIF formats", ps)
}

fn capability_6() -> (r: FormatCapability)
    ensures
        capability_view(r) == capability_table()[6],
{
    let mut ps: Vec<(String, String)> = Vec::new();
    ps.push(param("pages", "string (comma-separated page numbers or ranges, e.g. '1,3-5')"));
    ps.push(param("dpi", "integer (rendering DPI, default 150)"));
    ps.push(param("quality", "integer (1-100, default 80)"));
    ps.push(param("lossless", "boolean (default false)"));
    ps.push(param("overwrite", "boolean (default false)"));
    ps.push(param("delete_original", "boolean (default false)"));
    let ghost pv = ps@.map_values(|p: (String, String)| param_view(p));
    assert(pv =~= seq![("pages"@, "string (comma-separated page numbers or ranges, e.g. '1,3-5')"@), ("dpi"@, "integer (rendering DPI, default 150)"@), ("quality"@, "integer (1-100, default 80)"@), ("lossless"@, "boolean (default false)"@), ("overwrite"@, "boolean (default false)"@), ("delete_original"@, "boolean (default false)"@)]);
    capability("pdf", "png, jpg, jpeg, webp, avif", "Convert PDF pages to images", ps)
}

fn capability_7() -> (r: FormatCapability)
    ensures
        capability_view(r) == capability_table()[7],
{
    let mut ps: Vec<(String, String)> = Vec::new();
    ps.push(param("overwrite", "boolean (default false)"));
    let ghost pv = ps@.map_values(|p: (String, String)| param_view(p));
    assert(pv =~= seq![("overwrite"@, "boolean (default false)"@)]);
    capability("md", "docx", "Convert Markdown documents to Microsoft Word (DOCX) files", ps)
}

/// The supported conversions with their options.
pub fn get_supported_formats() -> (list: Vec<FormatCapability>)
    ensures
        list@.map_values(|c: FormatCapability| capability_view(c)) == capability_table(),
{
    let mut list: Vec<FormatCapability> = Vec::new();
    list.push(capability_0());
    list.push(capability_1());
    list.push(capability_2());
    list.push(capability_3());
    list.push(capability_4());
    list.push(capability_5());
    list.push(capability_6());
    list.push(capability_7());
    assert(list@.map_values(|c: FormatCapability| capability_view(c)) =~= capability_table());
    list
}

/// How the sources of a capability are shown in the listing.
pub open spec fn listed_from(from: Seq<char>) -> Seq<char> {
    if from == "svg, png, jpg, jpeg, webp, avif"@ {
        "[any]"@
    } else {
        from
    }
}

/// How the targets of a capability are shown in the listing.
pub open spec fn listed_to(to: Seq<char>) -> Seq<char> {
    if to == "png, jpg, jpeg, webp, avif"@ {
        "[png/jpg/webp/avif]"@
    } else {
        to
    }
}

/// The command-line options named after a capability in the listing.
pub open spec fn listed_options(from: Seq<char>, to: Seq<char>) -> Seq<char> {
    if to == "favicon"@ {
        ". Options: --package"@
    } else if to == "png"@ {
        ""@
    } else if to == "jpg"@ {
        ". Options: --quality"@
    } else if to == "webp"@ || to == "avif"@ || to == "both"@ {
        ". Options: --quality, --lossless"@
    } else if to == "docx"@ {
        ". Options: --overwrite"@
    } else if from == "pdf"@ {
        ". Options: --pages, --dpi, --quality, --lossless"@
    } else {
        ""@
    }
}

/// The line that lists a capability, e.g. `- [any] -> favicon: ...`.
pub open spec fn listing_line(c: CapabilityView) -> Seq<char> {
    "- "@ + listed_from(c.0) + " -> "@ + listed_to(c.1) + ": "@ + c.2 + listed_options(c.0, c.1)
}

fn listed_options_str(from: &str, to: &str) -> (r: &'static str)
    ensures
        r@ == listed_options(from@, to@),
{
    if same_text(to, "favicon") {
        ". Options: --package"
    } else if same_text(to, "png") {
        ""
    } else if same_text(to, "jpg") {
        ". Options: --quality"
    } else if same_text(to, "webp") || same_text(to, "avif") || same_text(to, "both") {
        ". Options: --quality, --lossless"
    } else if same_text(to, "docx") {
        ". Options: --overwrite"
    } else if same_text(from, "pdf") {
        ". Options: --pages, --dpi, --quality, --lossless"
    } else {
        ""
    }
}

/// The line that lists a capability in the human-readable `list-formats` output.
pub fn format_listing_line(c: &FormatCapability) -> (r: String)
    ensures
        r@ == listing_line(capability_view(*c)),
{
    let mut out = owned("- ");
    if same_text(c.from.as_str(), "svg, png, jpg, jpeg, webp, avif") {
        out.append("[any]");
    } else {
        out.append(c.from.as_str());
    }
    out.append(" -> ");
    if same_text(c.to.as_str(), "png, jpg, jpeg, webp, avif") {
        out.append("[png/jpg/webp/avif]");
    } else {
        out.append(c.to.as_str());
    }
    out.append(": ");
    out.append(c.description.as_str());
    out.append(listed_options_str(c.from.as_str(), c.to.as_str()));
    out
}

} // verus!
