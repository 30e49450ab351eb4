//! Raster images through the `image` and `ico` crates: decoding, the pixel
//! layout an output is encoded from, resizing, PNG and JPEG encoding, and ICO
//! files.

use vstd::prelude::*;
use image::{DynamicImage, GenericImageView, ImageError, ImageFormat};
use ico::{IconDir, IconDirEntry, IconImage, ResourceType};
use crate::convert::{pixel_layout, spec_pixel_layout, ColorKind, PixelLayout};
use crate::error::{IoErrorKind, MartiniError};
use crate::pixels::{calculate_dimensions, spec_dimensions};
use crate::text::owned;

verus! {

#[verifier::external_type_specification]
#[verifier::external_body]
pub struct ExDynamicImage(DynamicImage);

#[verifier::external_type_specification]
#[verifier::external_body]
pub struct ExImageError(ImageError);

#[verifier::external_type_specification]
#[verifier::external_body]
pub struct ExIoError(std::io::Error);

#[verifier::external_type_specification]
#[verifier::external_body]
pub struct ExIconDir(IconDir);

#[verifier::external_type_specification]
#[verifier::external_body]
pub struct ExIconImage(IconImage);

#[verifier::external_type_specification]
#[verifier::external_body]
pub struct ExIconDirEntry(IconDirEntry);

/// The container formats the `image` crate writes for the converter.
#[derive(Debug, Clone, Copy, PartialEq, Eq, Structural)]
pub enum RasterFile {
    Png,
    Jpeg,
}

/// The content of an image: its colour type, width and height in pixels, and
/// its samples, row by row and channel by channel, each as little-endian bytes
/// (one byte for 8-bit samples, two for 16-bit ones, four for 32-bit floats).
pub struct ImageModel {
    pub color: ColorKind,
    pub width: u32,
    pub height: u32,
    pub samples: Seq<u8>,
}

/// The samples of the pixel buffer of an `image::DynamicImage`, row by row,
/// each as little-endian bytes.
pub uninterp spec fn image_samples(img: DynamicImage) -> Seq<u8>;

/// A decoded or rendered image, with the size and colour type that the
/// conversion logic reads of it.
#[derive(Debug)]
pub struct Picture {
    image: DynamicImage,
    width: u32,
    height: u32,
    color: ColorKind,
}

impl Picture {
    /// Width and height in pixels.
    pub closed spec fn size(&self) -> (u32, u32) {
        (self.width, self.height)
    }

    pub closed spec fn color_kind(&self) -> ColorKind {
        self.color
    }

    /// The image the picture holds.
    pub closed spec fn pixels(&self) -> DynamicImage {
        self.image
    }

    /// What the picture holds: colour type, size and samples.
    pub closed spec fn model(&self) -> ImageModel {
        ImageModel { color: self.color, width: self.width, height: self.height, samples: image_samples(self.image) }
    }

    pub fn width(&self) -> (r: u32)
        ensures
            r == self.size().0,
    {
        self.width
    }

    pub fn height(&self) -> (r: u32)
        ensures
            r == self.size().1,
    {
        self.height
    }

    pub fn color(&self) -> (r: ColorKind)
        ensures
            r == self.color_kind(),
    {
        self.color
    }

    /// A picture of an image the `image` crate produced, with the size and
    /// colour type read off it.
    pub fn new(image: DynamicImage) -> (r: Picture)
        ensures
            r.pixels() == image,
    {
        let (width, height) = image_dimensions(&image);
        let color = image_color(&image);
        Picture { image, width, height, color }
    }

    /// The image itself, for encoders that work on it directly.
    pub fn image(&self) -> (r: &DynamicImage)
        ensures
            *r == self.pixels(),
    {
        &self.image
    }
}

/// Names what `image::load_from_memory` decodes of the given bytes: the
/// image, when they start like a format it reads and hold a well-formed image
/// of it within its default limits; `None` otherwise.
pub uninterp spec fn decoded_image(bytes: Seq<u8>) -> Option<ImageModel>;

/// `image::load_from_memory`: decodes an image, guessing its format from its
/// bytes; what it gives depends on the bytes alone.
#[verifier::external_body]
fn decode_image(bytes: &[u8]) -> (r: Result<Picture, ImageError>)
    ensures
        r is Ok <==> decoded_image(bytes@) is Some,
        r matches Ok(p) ==> decoded_image(bytes@) == Some(p.model()),
{
    image::load_from_memory(bytes).map(|image| Picture::new(image))
}

/// The message of an `image::ImageError`, as its `Display` writes it.
#[verifier::external_body]
fn image_error_text(e: &ImageError) -> String {
    e.to_string()
}

/// The message of a `std::io::Error`, as its `Display` writes it.
#[verifier::external_body]
fn io_error_text(e: &std::io::Error) -> String {
    e.to_string()
}

/// `std::io::Error::kind`, as far as the exit code tells kinds apart.
#[verifier::external_body]
fn io_error_kind(e: &std::io::Error) -> IoErrorKind {
    match e.kind() {
        std::io::ErrorKind::NotFound => IoErrorKind::NotFound,
        std::io::ErrorKind::PermissionDenied => IoErrorKind::PermissionDenied,
        _ => IoErrorKind::Other,
    }
}

/// `DynamicImage::color`.
#[verifier::external_body]
fn image_color(img: &DynamicImage) -> ColorKind {
    match img.color() {
        image::ColorType::L8 => ColorKind::L8,
        image::ColorType::La8 => ColorKind::La8,
        image::ColorType::Rgb8 => ColorKind::Rgb8,
        image::ColorType::Rgba8 => ColorKind::Rgba8,
        image::ColorType::L16 => ColorKind::L16,
        image::ColorType::La16 => ColorKind::La16,
        image::ColorType::Rgb16 => ColorKind::Rgb16,
        image::ColorType::Rgba16 => ColorKind::Rgba16,
        image::ColorType::Rgb32F => ColorKind::Rgb32F,
        image::ColorType::Rgba32F => ColorKind::Rgba32F,
        _ => ColorKind::Other,
    }
}

/// `GenericImageView::dimensions`: width and height in pixels.
#[verifier::external_body]
fn image_dimensions(img: &DynamicImage) -> (u32, u32) {
    img.dimensions()
}


/// Names the samples that `DynamicImage::to_rgba8` gives for an image.
pub uninterp spec fn rgba8_samples(m: ImageModel) -> Seq<u8>;

/// Names the samples that `DynamicImage::to_rgb8` gives for an image.
pub uninterp spec fn rgb8_samples(m: ImageModel) -> Seq<u8>;

/// Names the samples that `DynamicImage::resize_exact` with the Lanczos3
/// filter gives for an image and a new width and height.
pub uninterp spec fn resized_samples(m: ImageModel, width: u32, height: u32) -> Seq<u8>;

/// An image resized with the Lanczos3 filter: the same colour type, the new
/// size, and the samples the `image` crate computes.
pub open spec fn resized(m: ImageModel, width: u32, height: u32) -> ImageModel {
    ImageModel { color: m.color, width, height, samples: resized_samples(m, width, height) }
}

/// `DynamicImage::to_rgba8`: the same pixels as 8-bit RGBA, of the same size;
/// an image that is 8-bit RGBA already keeps its samples.
#[verifier::external_body]
fn image_to_rgba8(p: &Picture) -> (r: Picture)
    ensures
        r.size() == p.size(),
        r.color_kind() == ColorKind::Rgba8,
        r.model().samples == rgba8_samples(p.model()),
        p.color_kind() == ColorKind::Rgba8 ==> r.model().samples == p.model().samples,
{
    let image = DynamicImage::ImageRgba8(p.image.to_rgba8());
    let (width, height) = image.dimensions();
    Picture { image, width, height, color: ColorKind::Rgba8 }
}

/// `DynamicImage::to_rgb8`: the same pixels as 8-bit RGB, of the same size;
/// an image that is 8-bit RGB already keeps its samples.
#[verifier::external_body]
fn image_to_rgb8(p: &Picture) -> (r: Picture)
    ensures
        r.size() == p.size(),
        r.color_kind() == ColorKind::Rgb8,
        r.model().samples == rgb8_samples(p.model()),
        p.color_kind() == ColorKind::Rgb8 ==> r.model().samples == p.model().samples,
{
    let image = DynamicImage::ImageRgb8(p.image.to_rgb8());
    let (width, height) = image.dimensions();
    Picture { image, width, height, color: ColorKind::Rgb8 }
}

/// `DynamicImage::resize_exact` with the Lanczos3 filter: an image of exactly
/// the given size, of the same colour type.
#[verifier::external_body]
fn image_resize_exact(p: &Picture, width: u32, height: u32) -> (r: Picture)
    ensures
        r.size() == (width, height),
        r.color_kind() == p.color_kind(),
        image_samples(r.pixels()) == resized_samples(p.model(), width, height),
{
    let image = p.image.resize_exact(width, height, image::imageops::FilterType::Lanczos3);
    let (width, height) = image.dimensions();
    Picture { image, width, height, color: p.color }
}

/// `ImageBuffer::from_raw` for 8-bit RGBA pixels: `None` exactly when the
/// buffer holds fewer than `4 * width * height` bytes. A longer buffer would
/// make the PNG encoder panic later, so it is left out.
#[verifier::external_body]
fn image_from_rgba(width: u32, height: u32, rgba: Vec<u8>) -> (r: Option<Picture>)
    requires
        rgba@.len() <= 4 * (width as int) * (height as int),
    ensures
        r is Some <==> 4 * (width as int) * (height as int) <= rgba@.len(),
        r matches Some(p) ==> p.model() == (ImageModel { color: ColorKind::Rgba8, width, height, samples: rgba@ }),
{
    image::RgbaImage::from_raw(width, height, rgba)
        .map(|b| Picture { image: DynamicImage::ImageRgba8(b), width, height, color: ColorKind::Rgba8 })
}

/// The four bytes of a number, most significant first.
pub open spec fn be_bytes(v: u32) -> Seq<u8> {
    seq![(v / 0x100_0000) as u8, (v / 0x1_0000 % 256) as u8, (v / 0x100 % 256) as u8, (v % 256) as u8]
}

/// The start of a PNG file of the given width and height: the PNG signature,
/// then the IHDR chunk (13 bytes long) that records the size.
pub open spec fn png_header(b: Seq<u8>, size: (u32, u32)) -> bool {
    &&& b.len() >= 24
    &&& b.subrange(0, 8) == seq![137u8, 80u8, 78u8, 71u8, 13u8, 10u8, 26u8, 10u8]
    &&& b.subrange(8, 16) == seq![0u8, 0u8, 0u8, 13u8, 73u8, 72u8, 68u8, 82u8]
    &&& b.subrange(16, 20) == be_bytes(size.0)
    &&& b.subrange(20, 24) == be_bytes(size.1)
}

/// The number that four bytes give, most significant first.
pub open spec fn be_value(b: Seq<u8>) -> u32 {
    ((b[0] as int) * 0x100_0000 + (b[1] as int) * 0x1_0000 + (b[2] as int) * 0x100 + b[3] as int) as u32
}

/// The width and height that the IHDR chunk of a PNG records.
pub open spec fn png_size(b: Seq<u8>) -> (u32, u32) {
    (be_value(b.subrange(16, 20)), be_value(b.subrange(20, 24)))
}

proof fn lemma_be_round_trip(v: u32)
    ensures
        be_value(be_bytes(v)) == v,
{
    let b = be_bytes(v);
    let (a0, a1, a2, a3) = (v as int / 0x100_0000, v as int / 0x1_0000 % 256, v as int / 0x100 % 256, v as int % 256);
    assert(0 <= a0 < 256 && 0 <= a1 < 256 && 0 <= a2 < 256 && 0 <= a3 < 256) by (nonlinear_arith)
        requires
            a0 == v as int / 0x100_0000,
            a1 == v as int / 0x1_0000 % 256,
            a2 == v as int / 0x100 % 256,
            a3 == v as int % 256,
            0 <= v <= 0xFFFF_FFFF,
    ;
    assert(b[0] as int == a0 && b[1] as int == a1 && b[2] as int == a2 && b[3] as int == a3);
    assert(a0 * 0x100_0000 + a1 * 0x1_0000 + a2 * 0x100 + a3 == v as int) by (nonlinear_arith)
        requires
            a0 == v as int / 0x100_0000,
            a1 == v as int / 0x1_0000 % 256,
            a2 == v as int / 0x100 % 256,
            a3 == v as int % 256,
            0 <= v <= 0xFFFF_FFFF,
    ;
}

/// A PNG header for a size records that size.
pub proof fn lemma_png_header_size(b: Seq<u8>, size: (u32, u32))
    requires
        png_header(b, size),
    ensures
        png_size(b) == size,
{
    lemma_be_round_trip(size.0);
    lemma_be_round_trip(size.1);
}

/// The colour types the PNG encoder writes.
pub open spec fn png_color(c: ColorKind) -> bool {
    c is L8 || c is La8 || c is Rgb8 || c is Rgba8 || c is L16 || c is La16 || c is Rgb16 || c is Rgba16
}

/// Does encoding a picture of this size and colour type in this format
/// succeed? PNG needs a non-empty image of a colour type it writes; JPEG,
/// which converts every colour type, needs sides of 1 to 65535 pixels. A
/// colour type outside those known is left open.
pub open spec fn encodes(format: RasterFile, size: (u32, u32), c: ColorKind) -> Option<bool> {
    match format {
        RasterFile::Png => if size.0 == 0 || size.1 == 0 {
            Some(false)
        } else if png_color(c) {
            Some(true)
        } else if c is Other {
            None
        } else {
            Some(false)
        },
        RasterFile::Jpeg => if size.0 == 0 || size.1 == 0 || size.0 > 65535 || size.1 > 65535 {
            Some(false)
        } else if c is Other {
            None
        } else {
            Some(true)
        },
    }
}

/// The start of a file in the given format for an image of the given size:
/// a PNG header, or the JPEG start-of-image marker.
pub open spec fn encoded_start(b: Seq<u8>, format: RasterFile, size: (u32, u32)) -> bool {
    match format {
        RasterFile::Png => png_header(b, size),
        RasterFile::Jpeg => b.len() >= 2 && b[0] == 0xFFu8 && b[1] == 0xD8u8,
    }
}

/// Names the file that `DynamicImage::write_to` writes for an image in the
/// given format, with the encoder's default settings.
pub uninterp spec fn image_encoding(format: RasterFile, m: ImageModel) -> Seq<u8>;

/// `DynamicImage::write_to` an in-memory buffer in the given format. The
/// encoder first writes the PNG signature and the IHDR chunk with the image's
/// size, or the JPEG start-of-image marker.
#[verifier::external_body]
fn image_write(p: &Picture, format: RasterFile) -> (r: Result<Vec<u8>, ImageError>)
    ensures
        r matches Ok(b) ==> encoded_start(b@, format, p.size()) && b@ == image_encoding(format, p.model()),
        encodes(format, p.size(), p.color_kind()) matches Some(ok) ==> (r is Ok <==> ok),
{
    let img = &p.image;
    let mut cursor = std::io::Cursor::new(Vec::new());
    let f = match format {
        RasterFile::Png => ImageFormat::Png,
        RasterFile::Jpeg => ImageFormat::Jpeg,
    };
    img.write_to(&mut cursor, f).map(|()| cursor.into_inner())
}

/// An image read for an ICO file, and whether it carries a cursor hotspot.
struct IcoImage {
    image: IconImage,
    width: u32,
    height: u32,
    has_hotspot: bool,
}

/// An entry encoded for an ICO file, with the size it records and whether it
/// is an icon rather than a cursor.
struct IcoEntry {
    entry: IconDirEntry,
    width: u32,
    height: u32,
    is_icon: bool,
}

/// Names the sizes that the entries of an ICO directory record, in order.
pub uninterp spec fn ico_entry_sizes(dir: IconDir) -> Seq<(u32, u32)>;

/// Names whether an ICO directory holds icons rather than cursors.
pub uninterp spec fn ico_dir_is_icon(dir: IconDir) -> bool;

/// `IconDir::new` for an icon (not a cursor): a directory without entries.
#[verifier::external_body]
fn ico_dir_new() -> (d: IconDir)
    ensures
        ico_entry_sizes(d) == Seq::<(u32, u32)>::empty(),
        ico_dir_is_icon(d),
{
    IconDir::new(ResourceType::Icon)
}

/// Names whether `IconImage::read_png` reads the given bytes: a well-formed
/// PNG of 8-bit samples that is not palette-based.
pub uninterp spec fn ico_reads_png(png: Seq<u8>) -> bool;

/// `IconImage::read_png`. It succeeds as the name says; the image has the
/// size its IHDR chunk (the first chunk, after the signature) records, and
/// no cursor hotspot.
#[verifier::external_body]
fn ico_image_from_png(png: &[u8]) -> (r: Result<IcoImage, std::io::Error>)
    ensures
        r is Ok <==> ico_reads_png(png@),
        r matches Ok(i) ==> png@.len() >= 24 && (i.width, i.height) == png_size(png@) && !i.has_hotspot,
{
    match IconImage::read_png(std::io::Cursor::new(png)) {
        Ok(image) => Ok(IcoImage {
            width: image.width(),
            height: image.height(),
            has_hotspot: image.cursor_hotspot().is_some(),
            image,
        }),
        Err(e) => Err(e),
    }
}

/// `IconDirEntry::encode`: it encodes an image read from a PNG as PNG or BMP
/// data in memory, which does not fail; the entry records the image's size
/// and is an icon exactly when the image has no cursor hotspot.
#[verifier::external_body]
fn ico_entry_encode(img: &IcoImage) -> (r: Result<IcoEntry, std::io::Error>)
    ensures
        r matches Ok(e) ==> e.is_icon == !img.has_hotspot && (e.width, e.height) == (img.width, img.height),
        r is Ok,
{
    match IconDirEntry::encode(&img.image) {
        Ok(entry) => Ok(IcoEntry {
            width: entry.width(),
            height: entry.height(),
            is_icon: entry.resource_type() == ResourceType::Icon,
            entry,
        }),
        Err(e) => Err(e),
    }
}

/// `IconDir::add_entry`: appends the entry. It panics when the entry's kind
/// differs from the directory's, which `requires` rules out.
#[verifier::external_body]
fn ico_add_entry(dir: &mut IconDir, entry: IcoEntry)
    requires
        ico_dir_is_icon(*old(dir)),
        entry.is_icon,
    ensures
        ico_entry_sizes(*final(dir)) == ico_entry_sizes(*old(dir)).push((entry.width, entry.height)),
        ico_dir_is_icon(*final(dir)),
{
    dir.add_entry(entry.entry)
}

/// The byte an ICO directory records for a width or height: the size itself,
/// or 0 for 256 pixels and more.
pub open spec fn ico_size_byte(v: u32) -> u8 {
    if v > 255 {
        0
    } else {
        v as u8
    }
}

/// The start of an ICO file: the reserved word, the resource type (1 for
/// icons, 2 for cursors), the number of entries, then 16 bytes per entry
/// beginning with its width and height.
pub open spec fn ico_directory(b: Seq<u8>, sizes: Seq<(u32, u32)>, is_icon: bool) -> bool {
    let n = sizes.len();
    &&& b.len() >= 6 + 16 * n
    &&& b[0] == 0u8 && b[1] == 0u8 && b[3] == 0u8
    &&& b[2] == (if is_icon {
        1u8
    } else {
        2u8
    })
    &&& b[4] == (n % 256) as u8
    &&& b[5] == (n / 256) as u8
    &&& forall|i: int|
        0 <= i < n ==> b[6 + 16 * i] == ico_size_byte(#[trigger] sizes[i].0) && b[7 + 16 * i]
            == ico_size_byte(sizes[i].1)
}

/// `IconDir::write` to an in-memory buffer: the directory, then the entries'
/// data. More than `u16::MAX` entries are refused; writing into memory does
/// not fail otherwise.
#[verifier::external_body]
fn ico_write(dir: &IconDir) -> (r: Result<Vec<u8>, std::io::Error>)
    ensures
        r is Ok <==> ico_entry_sizes(*dir).len() <= u16::MAX,
        r matches Ok(b) ==> ico_directory(b@, ico_entry_sizes(*dir), ico_dir_is_icon(*dir)),
{
    let mut bytes = Vec::new();
    dir.write(&mut bytes).map(|()| bytes)
}

/// The sizes that the IHDR chunks of some PNGs record.
pub open spec fn png_sizes(pngs: Seq<Vec<u8>>) -> Seq<(u32, u32)> {
    pngs.map_values(|b: Vec<u8>| png_size(b@))
}

/// The error for a failure of the `image` crate.
pub fn image_error(e: &ImageError) -> (r: MartiniError)
    ensures
        r is Image,
{
    MartiniError::Image(image_error_text(e))
}

/// The error for a failed I/O operation, with its kind.
pub fn io_error(e: &std::io::Error) -> (r: MartiniError)
    ensures
        r is Io,
{
    MartiniError::Io { kind: io_error_kind(e), message: io_error_text(e) }
}

/// Decodes a raster image of any format the `image` crate reads; a failure
/// to decode is an image error.
pub fn load_image(bytes: &[u8]) -> (r: Result<Picture, MartiniError>)
    ensures
        r is Ok <==> decoded_image(bytes@) is Some,
        r matches Ok(p) ==> decoded_image(bytes@) == Some(p.model()),
        r matches Err(e) ==> e is Image,
{
    match decode_image(bytes) {
        Ok(p) => Ok(p),
        Err(e) => Err(image_error(&e)),
    }
}

/// An image of straight RGBA pixels rendered from an SVG; a buffer too short
/// for the size is a rendering error.
pub fn image_from_pixels(rgba: Vec<u8>, width: u32, height: u32) -> (r: Result<Picture, MartiniError>)
    requires
        rgba@.len() <= 4 * (width as int) * (height as int),
    ensures
        r is Ok <==> 4 * (width as int) * (height as int) <= rgba@.len(),
        r matches Ok(p) ==> p.model() == (ImageModel { color: ColorKind::Rgba8, width, height, samples: rgba@ }),
        r matches Err(e) ==> (e matches MartiniError::Rendering(m) && m@
            == "Failed to create ImageBuffer from SVG"@),
{
    match image_from_rgba(width, height, rgba) {
        Some(p) => Ok(p),
        None => Err(MartiniError::Rendering(owned("Failed to create ImageBuffer from SVG"))),
    }
}

/// The colour type an image of colour type `c` has once standardised.
pub open spec fn standard_color(c: ColorKind) -> ColorKind {
    match spec_pixel_layout(c) {
        PixelLayout::Rgba8 => ColorKind::Rgba8,
        PixelLayout::Rgb8 => ColorKind::Rgb8,
    }
}

/// An image standardised for a raster output: converted to 8-bit RGBA or RGB
/// as `image` converts it, of the same size.
pub open spec fn standardized(m: ImageModel) -> ImageModel {
    match spec_pixel_layout(m.color) {
        PixelLayout::Rgba8 => ImageModel { color: ColorKind::Rgba8, width: m.width, height: m.height, samples: rgba8_samples(m) },
        PixelLayout::Rgb8 => ImageModel { color: ColorKind::Rgb8, width: m.width, height: m.height, samples: rgb8_samples(m) },
    }
}

/// Standardises an image for a raster output: images with an 8- or 16-bit
/// alpha channel become 8-bit RGBA, all others 8-bit RGB; the size stays.
pub fn standardize(p: &Picture) -> (r: Picture)
    ensures
        r.size() == p.size(),
        r.color_kind() == standard_color(p.color_kind()),
        r.model() == standardized(p.model()),
        p.color_kind() == ColorKind::Rgba8 ==> r.model() == p.model(),
        p.color_kind() == ColorKind::Rgb8 ==> r.model() == p.model(),
{
    match pixel_layout(p.color) {
        PixelLayout::Rgba8 => image_to_rgba8(p),
        PixelLayout::Rgb8 => image_to_rgb8(p),
    }
}

/// An image resized to the requested width and/or height, or kept as it is
/// when that leaves its size unchanged.
pub open spec fn requested(m: ImageModel, width: Option<u32>, height: Option<u32>, no_upscale: bool) -> ImageModel {
    let (w, h) = spec_dimensions(m.width, m.height, width, height, no_upscale);
    if w == m.width && h == m.height {
        m
    } else {
        resized(m, w, h)
    }
}

/// Resizes an image to the requested width and/or height (see
/// `spec_dimensions`); an image that keeps its size is returned unchanged.
pub fn resize_to_request(p: Picture, width: Option<u32>, height: Option<u32>, no_upscale: bool) -> (r: Picture)
    ensures
        r.size() == spec_dimensions(p.size().0, p.size().1, width, height, no_upscale),
        r.color_kind() == p.color_kind(),
        r.model() == requested(p.model(), width, height, no_upscale),
{
    let (w, h) = calculate_dimensions(p.width, p.height, width, height, no_upscale);
    if w == p.width && h == p.height {
        p
    } else {
        image_resize_exact(&p, w, h)
    }
}

/// Prepares a decoded or rendered image for a raster output: resized to the
/// requested width and/or height, then standardised.
pub fn prepare_raster(p: Picture, width: Option<u32>, height: Option<u32>, no_upscale: bool) -> (r: Picture)
    ensures
        r.size() == spec_dimensions(p.size().0, p.size().1, width, height, no_upscale),
        r.color_kind() == standard_color(p.color_kind()),
        r.model() == standardized(requested(p.model(), width, height, no_upscale)),
{
    let resized = resize_to_request(p, width, height, no_upscale);
    standardize(&resized)
}

/// Encodes an image as PNG or JPEG.
pub fn encode_file(p: &Picture, format: RasterFile) -> (r: Result<Vec<u8>, MartiniError>)
    ensures
        r matches Ok(b) ==> encoded_start(b@, format, p.size()) && b@ == image_encoding(format, p.model()),
        encodes(format, p.size(), p.color_kind()) matches Some(ok) ==> (r is Ok <==> ok),
        r matches Err(e) ==> e is Image,
{
    match image_write(p, format) {
        Ok(bytes) => Ok(bytes),
        Err(e) => Err(image_error(&e)),
    }
}

/// The PNG of an image resized to a square of `size` pixels.
pub fn square_png(p: &Picture, size: u32) -> (r: Result<Vec<u8>, MartiniError>)
    ensures
        r matches Ok(b) ==> png_header(b@, (size, size)) && b@ == image_encoding(
            RasterFile::Png,
            resized(p.model(), size, size),
        ),
        encodes(RasterFile::Png, (size, size), p.color_kind()) matches Some(ok) ==> (r is Ok <==> ok),
        r matches Err(e) ==> e is Image,
{
    let resized = image_resize_exact(p, size, size);
    encode_file(&resized, RasterFile::Png)
}

/// The PNG of straight RGBA pixels of the given size; a buffer too short for
/// the size is a rendering error.
pub fn rgba_to_png(rgba: Vec<u8>, width: u32, height: u32) -> (r: Result<Vec<u8>, MartiniError>)
    requires
        rgba@.len() <= 4 * (width as int) * (height as int),
    ensures
        4 * (width as int) * (height as int) > rgba@.len() ==> (r matches Err(
            MartiniError::Rendering(m),
        ) && m@ == "Failed to create ImageBuffer from raw pixels"@),
        r matches Ok(b) ==> png_header(b@, (width, height)) && b@ == image_encoding(
            RasterFile::Png,
            ImageModel { color: ColorKind::Rgba8, width, height, samples: rgba@ },
        ),
        r is Ok <==> (4 * (width as int) * (height as int) <= rgba@.len() && width > 0 && height > 0),
        r matches Err(e) ==> (e is Rendering || e is Image),
{
    match image_from_rgba(width, height, rgba) {
        Some(p) => encode_file(&p, RasterFile::Png),
        None => Err(MartiniError::Rendering(owned("Failed to create ImageBuffer from raw pixels"))),
    }
}

/// An ICO file holding the given PNGs, in order: its directory records one
/// icon per PNG, of the size that PNG's IHDR chunk records. It is written
/// whenever the `ico` crate reads every PNG and there are at most
/// `u16::MAX` of them.
pub fn build_ico(pngs: &Vec<Vec<u8>>) -> (r: Result<Vec<u8>, MartiniError>)
    ensures
        r matches Ok(b) ==> ico_directory(b@, png_sizes(pngs@), true),
        r is Ok <==> (pngs@.len() <= u16::MAX && forall|i: int|
            0 <= i < pngs@.len() ==> ico_reads_png(#[trigger] pngs@[i]@)),
        r matches Err(e) ==> e is Io,
{
    let mut dir = ico_dir_new();
    let mut i: usize = 0;
    while i < pngs.len()
        invariant
            i <= pngs.len(),
            ico_entry_sizes(dir) == png_sizes(pngs@.take(i as int)),
            ico_dir_is_icon(dir),
            forall|j: int| 0 <= j < i ==> ico_reads_png(#[trigger] pngs@[j]@),
        decreases pngs.len() - i,
    {
        let image = match ico_image_from_png(pngs[i].as_slice()) {
            Ok(img) => img,
            Err(e) => return Err(io_error(&e)),
        };
        let entry = match ico_entry_encode(&image) {
            Ok(en) => en,
            Err(e) => return Err(io_error(&e)),
        };
        ico_add_entry(&mut dir, entry);
        proof {
            assert(png_sizes(pngs@.take(i + 1)) =~= png_sizes(pngs@.take(i as int)).push(png_size(pngs@[i as int]@)));
        }
        i = i + 1;
    }
    proof {
        assert(pngs@.take(i as int) =~= pngs@);
    }
    match ico_write(&dir) {
        Ok(bytes) => Ok(bytes),
        Err(e) => Err(io_error(&e)),
    }
}

} // verus!
