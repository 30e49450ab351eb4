//! What a conversion produces, and the decisions that steer it: which
//! converter runs, how decoded pixels are laid out, which encoder writes the
//! result, which files a favicon consists of, and which PDF pages are rendered.

use vstd::prelude::*;
use crate::error::MartiniError;
use crate::format::{format_name, Format};
use crate::pages::{parse_pages, spec_parse_pages, strictly_increasing, index_set};
use crate::text::{decimal, owned, push_decimal};

verus! {

/// The settings of one conversion. Paths are given as text.
#[derive(Debug, Clone)]
pub struct ConvertOptions {
    pub input_path: String,
    pub output_path: String,
    pub package: bool,
    pub quality: u8,
    pub lossless: bool,
    pub overwrite: bool,
    pub pages: Option<String>,
    pub dpi: u16,
    pub width: Option<u32>,
    pub height: Option<u32>,
    pub no_upscale: bool,
}

/// A file produced by a conversion, before it is written.
#[derive(Debug, Clone)]
pub struct EncodedFile {
    pub path: String,
    pub bytes: Vec<u8>,
    pub description: String,
}

/// A file written by a conversion, as it is reported.
#[derive(Debug, Clone)]
pub struct OutputFileMetadata {
    pub path: String,
    pub size_bytes: u64,
    pub description: String,
}

/// The outcome of a conversion: the formats involved and the files written.
#[derive(Debug, Clone)]
pub struct ConversionResult {
    pub from: Format,
    pub to: Format,
    pub output_files: Vec<OutputFileMetadata>,
}

/// The report of a file once it is written: its path, its size in bytes and
/// its description.
pub fn metadata_of(file: &EncodedFile) -> (m: OutputFileMetadata)
    ensures
        m.path@ == file.path@,
        m.size_bytes == file.bytes@.len(),
        m.description@ == file.description@,
{
    OutputFileMetadata {
        path: owned(file.path.as_str()),
        size_bytes: file.bytes.len() as u64,
        description: owned(file.description.as_str()),
    }
}

/// The converter that carries out a conversion.
#[derive(Debug, Clone, Copy, PartialEq, Eq, Structural)]
pub enum ConverterKind {
    /// Markdown to a Word document.
    Markdown,
    /// PDF pages to raster images.
    Pdf,
    /// SVG and raster images to raster images and favicons.
    Image,
}

/// The error for a conversion that no converter offers.
pub open spec fn is_unsupported(e: MartiniError, from: Seq<char>, to: Seq<char>) -> bool {
    e matches MartiniError::UnsupportedConversion { from: f, to: t } && f@ == from && t@ == to
}

/// Builds the error for a conversion that no converter offers.
pub fn unsupported(from: &str, to: &str) -> (e: MartiniError)
    ensures
        is_unsupported(e, from@, to@),
{
    MartiniError::UnsupportedConversion { from: owned(from), to: owned(to) }
}

/// Dispatches a conversion request to the converter that handles it: nothing
/// but a PDF converts to PDF; Markdown to DOCX goes to the Markdown converter,
/// any PDF source to the PDF converter, and everything else to the image
/// converter, which refuses the targets it cannot encode.
pub fn convert(from: Format, to: Format) -> (r: Result<ConverterKind, MartiniError>)
    ensures
        to == Format::Pdf && from != Format::Pdf ==> (r matches Err(e) && is_unsupported(
            e,
            format_name(from),
            format_name(to),
        )),
        !(to == Format::Pdf && from != Format::Pdf) ==> r == Ok::<ConverterKind, MartiniError>(
            if from == Format::Md && to == Format::Docx {
                ConverterKind::Markdown
            } else if from == Format::Pdf {
                ConverterKind::Pdf
            } else {
                ConverterKind::Image
            },
        ),
{
    if to == Format::Pdf && from != Format::Pdf {
        return Err(unsupported(from.name(), to.name()));
    }
    if from == Format::Md && to == Format::Docx {
        Ok(ConverterKind::Markdown)
    } else if from == Format::Pdf {
        Ok(ConverterKind::Pdf)
    } else {
        Ok(ConverterKind::Image)
    }
}

/// The colour types a decoded image may have.
#[derive(Debug, Clone, Copy, PartialEq, Eq, Structural)]
pub enum ColorKind {
    L8,
    La8,
    Rgb8,
    Rgba8,
    L16,
    La16,
    Rgb16,
    Rgba16,
    Rgb32F,
    Rgba32F,
    Other,
}

/// The 8-bit pixel layout that a raster output is encoded from.
#[derive(Debug, Clone, Copy, PartialEq, Eq, Structural)]
pub enum PixelLayout {
    Rgba8,
    Rgb8,
}

/// Images with an alpha channel of 8 or 16 bits keep it; every other image is
/// encoded as 8-bit RGB.
pub open spec fn spec_pixel_layout(c: ColorKind) -> PixelLayout {
    match c {
        ColorKind::La8 | ColorKind::La16 | ColorKind::Rgba8 | ColorKind::Rgba16 => PixelLayout::Rgba8,
        _ => PixelLayout::Rgb8,
    }
}

/// The layout into which a decoded image of colour type `c` is standardised
/// before it is encoded.
pub fn pixel_layout(c: ColorKind) -> (r: PixelLayout)
    ensures
        r == spec_pixel_layout(c),
{
    match c {
        ColorKind::La8 | ColorKind::La16 | ColorKind::Rgba8 | ColorKind::Rgba16 => PixelLayout::Rgba8,
        _ => PixelLayout::Rgb8,
    }
}

/// The encoder, with its settings, that writes a raster output.
#[derive(Debug, Clone, Copy, PartialEq, Eq, Structural)]
pub enum RasterEncoding {
    /// WebP, lossless or at a quality from 0 to 100.
    Webp { lossless: bool, quality: u8 },
    /// AVIF at a quality from 0 to 100.
    Avif { quality: u8 },
    Png,
    Jpg,
}

/// The encoder for a raster target, if `to` is one.
pub open spec fn spec_raster_encoding(to: Format, quality: u8, lossless: bool) -> Option<RasterEncoding> {
    match to {
        Format::Webp => Some(RasterEncoding::Webp { lossless, quality }),
        Format::Avif => Some(RasterEncoding::Avif { quality: if lossless { 100 } else { quality } }),
        Format::Png => Some(RasterEncoding::Png),
        Format::Jpg => Some(RasterEncoding::Jpg),
        _ => None,
    }
}

/// The encoder that writes an image converted from `from` to the raster format
/// `to`; lossless AVIF is written at quality 100. Other targets are refused.
pub fn raster_encoding(from_name: &str, to: Format, quality: u8, lossless: bool) -> (r: Result<
    RasterEncoding,
    MartiniError,
>)
    ensures
        spec_raster_encoding(to, quality, lossless) matches Some(enc) ==> r == Ok::<
            RasterEncoding,
            MartiniError,
        >(enc),
        spec_raster_encoding(to, quality, lossless) is None ==> (r matches Err(e) && is_unsupported(
            e,
            from_name@,
            format_name(to),
        )),
{
    match to {
        Format::Webp => Ok(RasterEncoding::Webp { lossless, quality }),
        Format::Avif => Ok(RasterEncoding::Avif { quality: if lossless { 100 } else { quality } }),
        Format::Png => Ok(RasterEncoding::Png),
        Format::Jpg => Ok(RasterEncoding::Jpg),
        _ => Err(unsupported(from_name, to.name())),
    }
}

pub open spec fn bool_text(b: bool) -> Seq<char> {
    if b {
        "true"@
    } else {
        "false"@
    }
}

/// The description of an image converted to a raster format.
pub open spec fn image_description_text(from: Format, to: Format, quality: u8, lossless: bool) -> Seq<char> {
    "Converted image from "@ + format_name(from) + " to "@ + format_name(to) + " (quality: "@
        + decimal(quality as nat) + ", lossless: "@ + bool_text(lossless) + ")"@
}

pub fn image_description(from: Format, to: Format, quality: u8, lossless: bool) -> (r: String)
    ensures
        r@ == image_description_text(from, to, quality, lossless),
{
    let mut out = owned("Converted image from ");
    out.append(from.name());
    out.append(" to ");
    out.append(to.name());
    out.append(" (quality: ");
    push_decimal(&mut out, quality as u64);
    out.append(", lossless: ");
    out.append(if lossless { "true" } else { "false" });
    out.append(")");
    out
}

/// One PNG of a favicon package.
#[derive(Debug, Clone)]
pub struct FaviconPng {
    pub size: u32,
    pub file_name: String,
    pub description: String,
}

pub open spec fn favicon_png_view(p: FaviconPng) -> (u32, Seq<char>, Seq<char>) {
    (p.size, p.file_name@, p.description@)
}

/// The PNGs of a favicon package: edge length, file name and description.
pub open spec fn favicon_package_table() -> Seq<(u32, Seq<char>, Seq<char>)> {
    seq![
        (16u32, "favicon-16x16.png"@, "Standard small favicon for browser tabs"@),
        (32u32, "favicon-32x32.png"@, "Standard medium favicon for desktop browsers"@),
        (180u32, "apple-touch-icon.png"@, "Apple Touch Icon for iOS home screen"@),
        (192u32, "android-chrome-192x192.png"@, "Android Chrome icon for web app manifest"@),
        (512u32, "android-chrome-512x512.png"@, "Android Chrome splash icon for web app manifest"@),
    ]
}

fn favicon_png(size: u32, file_name: &str, description: &str) -> (r: FaviconPng)
    ensures
        favicon_png_view(r) == (size, file_name@, description@),
{
    FaviconPng { size, file_name: owned(file_name), description: owned(description) }
}

/// The PNGs that a favicon package holds besides its ICO file.
pub fn favicon_package_pngs() -> (r: Vec<FaviconPng>)
    ensures
        r@.map_values(|p: FaviconPng| favicon_png_view(p)) == favicon_package_table(),
{
    let mut r: Vec<FaviconPng> = Vec::new();
    r.push(favicon_png(16, "favicon-16x16.png", "Standard small favicon for browser tabs"));
    r.push(favicon_png(32, "favicon-32x32.png", "Standard medium favicon for desktop browsers"));
    r.push(favicon_png(180, "apple-touch-icon.png", "Apple Touch Icon for iOS home screen"));
    r.push(favicon_png(192, "android-chrome-192x192.png", "Android Chrome icon for web app manifest"));
    r.push(
        favicon_png(512, "android-chrome-512x512.png", "Android Chrome splash icon for web app manifest"),
    );
    assert(r@.map_values(|p: FaviconPng| favicon_png_view(p)) =~= favicon_package_table());
    r
}

/// The edge lengths of the images inside a favicon's ICO file.
pub fn favicon_ico_sizes() -> (r: Vec<u32>)
    ensures
        r@ == seq![16u32, 32u32, 48u32],
{
    let mut r: Vec<u32> = Vec::new();
    r.push(16);
    r.push(32);
    r.push(48);
    assert(r@ =~= seq![16u32, 32u32, 48u32]);
    r
}

/// The description of a favicon's ICO file.
pub fn favicon_ico_description() -> (r: &'static str)
    ensures
        r@ == "Multi-resolution Windows favicon (16x16, 32x32, 48x48)"@,
{
    "Multi-resolution Windows favicon (16x16, 32x32, 48x48)"
}

/// A favicon package goes into the output path as a directory when it is an
/// existing directory or has no extension; otherwise the output path names
/// the package's ICO file and the other files go beside it.
pub fn package_into_output(output_is_dir: bool, output_has_extension: bool) -> (r: bool)
    ensures
        r == (output_is_dir || !output_has_extension),
{
    output_is_dir || !output_has_extension
}

/// The name of the ICO file of a favicon package: `favicon.ico` inside an
/// existing output directory, otherwise the file name the output path gives.
pub fn package_ico_name(output_is_dir: bool, output_file_name: Option<&str>) -> (r: String)
    ensures
        r@ == (if output_is_dir {
            "favicon.ico"@
        } else {
            match output_file_name {
                Some(n) => n@,
                None => "favicon.ico"@,
            }
        }),
{
    if output_is_dir {
        owned("favicon.ico")
    } else {
        match output_file_name {
            Some(n) => owned(n),
            None => owned("favicon.ico"),
        }
    }
}

/// The text of the web app manifest of a favicon package.
pub open spec fn manifest_text() -> Seq<char> {
    "{\n    \"name\": \"Lychee Martini Web App\",\n    \"short_name\": \"Lychee Martini\",\n    \"icons\": [\n        {\n            \"src\": \"/android-chrome-192x192.png\",\n            \"sizes\": \"192x192\",\n            \"type\": \"image/png\"\n        },\n        {\n            \"src\": \"/android-chrome-512x512.png\",\n            \"sizes\": \"512x512\",\n            \"type\": \"image/png\"\n        }\n    ],\n    \"theme_color\": \"#ffffff\",\n    \"background_color\": \"#ffffff\",\n    \"display\": \"standalone\"\n}\n"@
}

/// The text of the HTML head tags that reference a favicon package.
pub open spec fn html_tags_text() -> Seq<char> {
    "<link rel=\"apple-touch-icon\" sizes=\"180x180\" href=\"/apple-touch-icon.png\">\n<link rel=\"icon\" type=\"image/png\" sizes=\"32x32\" href=\"/favicon-32x32.png\">\n<link rel=\"icon\" type=\"image/png\" sizes=\"16x16\" href=\"/favicon-16x16.png\">\n<link rel=\"manifest\" href=\"/site.webmanifest\">\n"@
}

/// The web app manifest of a favicon package.
pub fn web_manifest() -> (r: &'static str)
    ensures
        r@ == manifest_text(),
{
    "{\n    \"name\": \"Lychee Martini Web App\",\n    \"short_name\": \"Lychee Martini\",\n    \"icons\": [\n        {\n            \"src\": \"/android-chrome-192x192.png\",\n            \"sizes\": \"192x192\",\n            \"type\": \"image/png\"\n        },\n        {\n            \"src\": \"/android-chrome-512x512.png\",\n            \"sizes\": \"512x512\",\n            \"type\": \"image/png\"\n        }\n    ],\n    \"theme_color\": \"#ffffff\",\n    \"background_color\": \"#ffffff\",\n    \"display\": \"standalone\"\n}\n"
}

/// The HTML head tags that reference a favicon package.
pub fn favicon_html_tags() -> (r: &'static str)
    ensures
        r@ == html_tags_text(),
{
    "<link rel=\"apple-touch-icon\" sizes=\"180x180\" href=\"/apple-touch-icon.png\">\n<link rel=\"icon\" type=\"image/png\" sizes=\"32x32\" href=\"/favicon-32x32.png\">\n<link rel=\"icon\" type=\"image/png\" sizes=\"16x16\" href=\"/favicon-16x16.png\">\n<link rel=\"manifest\" href=\"/site.webmanifest\">\n"
}

/// The pages of a PDF of `total` pages that a conversion renders: those the
/// page list selects, or all pages without a list. A document without pages,
/// a refused page list and an empty selection are invalid input.
pub open spec fn spec_select_pages(pages: Option<Seq<char>>, total: u16) -> Result<Set<int>, Seq<char>> {
    if total == 0 {
        Err("PDF document has no pages"@)
    } else {
        match pages {
            None => Ok(Set::new(|i: int| 0 <= i < total)),
            Some(s) => match spec_parse_pages(s, total as int) {
                Err(e) => Err("Invalid page selection: "@ + e),
                Ok(set) => if set.is_empty() {
                    Err("No pages selected for conversion"@)
                } else {
                    Ok(set)
                },
            },
        }
    }
}

pub fn select_pages(pages: Option<&str>, total: u16) -> (r: Result<Vec<u16>, MartiniError>)
    ensures
        match spec_select_pages(
            match pages {
                Some(s) => Some(s@),
                None => None,
            },
            total,
        ) {
            Ok(set) => r matches Ok(v) && strictly_increasing(v@) && index_set(v@) == set,
            Err(reason) => r matches Err(MartiniError::InvalidInputData { reason: m }) && m@ == reason,
        },
{
    if total == 0 {
        return Err(MartiniError::InvalidInputData { reason: owned("PDF document has no pages") });
    }
    match pages {
        None => {
            let mut v: Vec<u16> = Vec::new();
            let mut i: u16 = 0;
            while i < total
                invariant
                    i <= total,
                    v@.len() == i,
                    forall|q: int| 0 <= q < i ==> v@[q] == q,
                decreases total - i,
            {
                v.push(i);
                i = i + 1;
            }
            proof {
                assert forall|j: int| 0 <= j < total implies index_set(v@).contains(j) by {
                    assert(v@.map_values(|x: u16| x as int)[j] == j);
                }
                assert(index_set(v@) =~= Set::new(|i: int| 0 <= i < total));
            }
            Ok(v)
        },
        Some(s) => match parse_pages(s, total) {
            Err(e) => {
                let mut m = owned("Invalid page selection: ");
                m.append(e.as_str());
                Err(MartiniError::InvalidInputData { reason: m })
            },
            Ok(v) => {
                if v.len() == 0 {
                    proof {
                        assert(index_set(v@) =~= Set::<int>::empty());
                    }
                    Err(MartiniError::InvalidInputData { reason: owned("No pages selected for conversion") })
                } else {
                    proof {
                        assert(index_set(v@).contains(v@[0] as int)) by {
                            assert(v@.map_values(|x: u16| x as int)[0] == v@[0] as int);
                        }
                    }
                    Ok(v)
                }
            },
        },
    }
}

/// The resolution a PDF is rendered at: the requested DPI, at least 1.
pub fn render_dpi(dpi: u16) -> (r: u16)
    ensures
        r == if dpi < 1 { 1 } else { dpi },
{
    if dpi < 1 {
        1
    } else {
        dpi
    }
}

/// The file name of the image of page `page_index` (0-based):
/// `<stem>_page_<number>.<ext>`, with stem `output` and extension `png` when
/// the output path lacks them.
pub open spec fn page_file_name_text(stem: Option<Seq<char>>, ext: Option<Seq<char>>, page_index: u16) -> Seq<char> {
    (match stem {
        Some(s) => s,
        None => "output"@,
    }) + "_page_"@ + decimal(page_index as nat + 1) + "."@ + (match ext {
        Some(e) => e,
        None => "png"@,
    })
}

pub open spec fn opt_text(o: Option<&str>) -> Option<Seq<char>> {
    match o {
        Some(s) => Some(s@),
        None => None,
    }
}

pub fn page_file_name(stem: Option<&str>, ext: Option<&str>, page_index: u16) -> (r: String)
    requires
        page_index < u16::MAX,
    ensures
        r@ == page_file_name_text(opt_text(stem), opt_text(ext), page_index),
{
    let mut out = match stem {
        Some(s) => owned(s),
        None => owned("output"),
    };
    out.append("_page_");
    push_decimal(&mut out, (page_index + 1) as u64);
    out.append(".");
    match ext {
        Some(e) => out.append(e),
        None => out.append("png"),
    }
    out
}

/// The description of the image of a PDF page (`page_index` is 0-based).
pub fn page_description(page_index: u16) -> (r: String)
    requires
        page_index < u16::MAX,
    ensures
        r@ == "Page "@ + decimal(page_index as nat + 1) + " of PDF"@,
{
    let mut out = owned("Page ");
    push_decimal(&mut out, (page_index + 1) as u64);
    out.append(" of PDF");
    out
}

/// The report of a conversion that produced the given files, in order.
pub fn conversion_result(from: Format, to: Format, files: &Vec<EncodedFile>) -> (r: ConversionResult)
    ensures
        r.from == from,
        r.to == to,
        r.output_files@.len() == files@.len(),
        forall|i: int|
            0 <= i < files@.len() ==> (#[trigger] r.output_files@[i]).path@ == files@[i].path@
                && r.output_files@[i].size_bytes == files@[i].bytes@.len()
                && r.output_files@[i].description@ == files@[i].description@,
{
    let mut out: Vec<OutputFileMetadata> = Vec::new();
    let mut i: usize = 0;
    while i < files.len()
        invariant
            i <= files.len(),
            out@.len() == i,
            forall|j: int|
                0 <= j < i ==> (#[trigger] out@[j]).path@ == files@[j].path@ && out@[j].size_bytes
                    == files@[j].bytes@.len() && out@[j].description@ == files@[j].description@,
        decreases files.len() - i,
    {
        out.push(metadata_of(&files[i]));
        i = i + 1;
    }
    ConversionResult { from, to, output_files: out }
}

/// How the pixels of a source image are obtained.
#[derive(Debug, Clone, Copy, PartialEq, Eq, Structural)]
pub enum SourceKind {
    /// An SVG, parsed and rendered.
    Vector,
    /// A raster image, decoded.
    Raster,
}

/// What an image conversion writes.
#[derive(Debug, Clone, Copy, PartialEq, Eq, Structural)]
pub enum ImageTarget {
    /// A favicon: one ICO file, or a package of PNGs, an ICO file, a web app
    /// manifest and HTML tags.
    Favicon { package: bool },
    /// One raster image.
    Raster(RasterEncoding),
    /// Nothing: the target is not an image format; this is reported once the
    /// source has been read.
    Refused,
}

/// The steps of an image conversion.
#[derive(Debug, Clone, Copy, PartialEq, Eq, Structural)]
pub struct ImagePlan {
    pub source: SourceKind,
    /// Render an SVG at its own size (favicons render at their icon sizes).
    pub render_at_natural_size: bool,
    /// Resize to the requested width and/or height.
    pub resize: bool,
    /// Standardise the pixel layout before encoding.
    pub standardize: bool,
    pub target: ImageTarget,
}

pub open spec fn spec_image_plan(from: Format, to: Format, o: ConvertOptions) -> ImagePlan {
    ImagePlan {
        source: if from == Format::Svg {
            SourceKind::Vector
        } else {
            SourceKind::Raster
        },
        render_at_natural_size: from == Format::Svg && to != Format::Favicon,
        resize: to != Format::Favicon && (o.width is Some || o.height is Some),
        standardize: to != Format::Favicon,
        target: if to == Format::Favicon {
            ImageTarget::Favicon { package: o.package }
        } else {
            match spec_raster_encoding(to, o.quality, o.lossless) {
                Some(e) => ImageTarget::Raster(e),
                None => ImageTarget::Refused,
            }
        },
    }
}

/// The converter for SVG and raster images.
pub struct ImageConverter;

impl ImageConverter {
    /// How an image of format `from` is converted to `to`: SVGs are rendered,
    /// other images decoded; raster outputs are resized when asked to and
    /// standardised, then encoded; favicons are rendered at their icon sizes.
    pub fn plan(&self, from: Format, to: Format, options: &ConvertOptions) -> (r: ImagePlan)
        ensures
            r == spec_image_plan(from, to, *options),
    {
        let target = if to == Format::Favicon {
            ImageTarget::Favicon { package: options.package }
        } else {
            match raster_encoding(from.name(), to, options.quality, options.lossless) {
                Ok(e) => ImageTarget::Raster(e),
                Err(_) => ImageTarget::Refused,
            }
        };
        ImagePlan {
            source: if from == Format::Svg {
                SourceKind::Vector
            } else {
                SourceKind::Raster
            },
            render_at_natural_size: from == Format::Svg && to != Format::Favicon,
            resize: to != Format::Favicon && (options.width.is_some() || options.height.is_some()),
            standardize: to != Format::Favicon,
            target,
        }
    }

    /// The error of a refused target, reported once the source has been read.
    pub fn refusal(&self, from: Format, to: Format) -> (e: MartiniError)
        ensures
            is_unsupported(e, format_name(from), format_name(to)),
    {
        unsupported(from.name(), to.name())
    }

    /// The format a favicon is reported to be converted from: SVG for vector
    /// sources, PNG for every raster source.
    pub fn favicon_source_format(&self, source: SourceKind) -> (f: Format)
        ensures
            f == (if source == SourceKind::Vector {
                Format::Svg
            } else {
                Format::Png
            }),
    {
        if source == SourceKind::Vector {
            Format::Svg
        } else {
            Format::Png
        }
    }
}

/// The older converter from SVG to favicons, which writes a package into a
/// directory at the output path and names its ICO file `favicon.ico`.
pub struct SvgToFaviconConverter;

impl SvgToFaviconConverter {
    /// The name of the ICO file inside a package directory.
    pub fn package_ico_name(&self) -> (r: &'static str)
        ensures
            r@ == "favicon.ico"@,
    {
        "favicon.ico"
    }
}

/// The image of one page of a PDF: the page's 0-based index, the file name
/// of its image and the image's description.
#[derive(Debug, Clone)]
pub struct PageOutput {
    pub index: u16,
    pub file_name: String,
    pub description: String,
}

/// The converter from PDF pages to raster images.
pub struct PdfConverter;

impl PdfConverter {
    /// The encoder for the page images; targets that are no raster format are
    /// an unsupported conversion from `pdf`.
    pub fn encoding(&self, to: Format, options: &ConvertOptions) -> (r: Result<RasterEncoding, MartiniError>)
        ensures
            spec_raster_encoding(to, options.quality, options.lossless) matches Some(enc) ==> r == Ok::<
                RasterEncoding,
                MartiniError,
            >(enc),
            spec_raster_encoding(to, options.quality, options.lossless) is None ==> (r matches Err(e)
                && is_unsupported(e, "pdf"@, format_name(to))),
    {
        raster_encoding("pdf", to, options.quality, options.lossless)
    }

    /// The images that a conversion of the selected pages writes, in order:
    /// each named after the output path's stem and extension and its page
    /// number (see `page_file_name`).
    pub fn page_outputs(&self, stem: Option<&str>, ext: Option<&str>, pages: &Vec<u16>) -> (r: Vec<PageOutput>)
        requires
            forall|i: int| 0 <= i < pages@.len() ==> pages@[i] < u16::MAX,
        ensures
            r@.len() == pages@.len(),
            forall|i: int|
                0 <= i < pages@.len() ==> {
                    &&& (#[trigger] r@[i]).index == pages@[i]
                    &&& r@[i].file_name@ == page_file_name_text(opt_text(stem), opt_text(ext), pages@[i])
                    &&& r@[i].description@ == "Page "@ + decimal(pages@[i] as nat + 1) + " of PDF"@
                },
    {
        let mut r: Vec<PageOutput> = Vec::new();
        let mut i: usize = 0;
        while i < pages.len()
            invariant
                i <= pages.len(),
                r@.len() == i,
                forall|j: int| 0 <= j < pages@.len() ==> pages@[j] < u16::MAX,
                forall|j: int|
                    0 <= j < i ==> {
                        &&& (#[trigger] r@[j]).index == pages@[j]
                        &&& r@[j].file_name@ == page_file_name_text(opt_text(stem), opt_text(ext), pages@[j])
                        &&& r@[j].description@ == "Page "@ + decimal(pages@[j] as nat + 1) + " of PDF"@
                    },
            decreases pages.len() - i,
        {
            let index = pages[i];
            r.push(
                PageOutput {
                    index,
                    file_name: page_file_name(stem, ext, index),
                    description: page_description(index),
                },
            );
            i = i + 1;
        }
        r
    }
}

} // verus!
