use martini::convert::{
    conversion_result, convert, favicon_html_tags, favicon_ico_sizes, favicon_package_pngs,
    image_description, page_description, page_file_name, raster_encoding, render_dpi, select_pages,
    web_manifest, ColorKind, ConvertOptions, ConverterKind, EncodedFile, ImageConverter, ImageTarget,
    PdfConverter, RasterEncoding, SourceKind, SvgToFaviconConverter,
};
use martini::error::{IoErrorKind, MartiniError};
use martini::favicon::{favicon_files, favicon_render_sizes, ico_sources, raster_favicon_pngs};
use martini::format::Format;
use martini::pages::parse_pages;
use martini::pixels::demultiply_alpha;
use martini::raster::{
    build_ico, encode_file, image_from_pixels, load_image, prepare_raster, rgba_to_png, square_png, standardize, Picture,
    RasterFile,
};
use martini::svg::parse_svg;

fn options() -> ConvertOptions {
    ConvertOptions {
        input_path: "in.png".to_string(),
        output_path: "out.webp".to_string(),
        package: false,
        quality: 80,
        lossless: false,
        overwrite: false,
        pages: None,
        dpi: 150,
        width: None,
        height: None,
        no_upscale: false,
    }
}

fn png_of(w: u32, h: u32) -> Vec<u8> {
    rgba_to_png(vec![200u8; (4 * w * h) as usize], w, h).unwrap()
}

#[test]
fn conversions_are_routed() {
    assert_eq!(convert(Format::Md, Format::Docx).unwrap(), ConverterKind::Markdown);
    assert_eq!(convert(Format::Pdf, Format::Png).unwrap(), ConverterKind::Pdf);
    assert_eq!(convert(Format::Pdf, Format::Pdf).unwrap(), ConverterKind::Pdf);
    assert_eq!(convert(Format::Svg, Format::Favicon).unwrap(), ConverterKind::Image);
    assert_eq!(convert(Format::Md, Format::Png).unwrap(), ConverterKind::Image);
    let err = convert(Format::Svg, Format::Pdf).unwrap_err();
    assert_eq!(err.to_string(), "Unsupported conversion from 'svg' to 'pdf'");
}

#[test]
fn raster_encodings() {
    assert_eq!(raster_encoding("png", Format::Webp, 85, false).unwrap(), RasterEncoding::Webp { lossless: false, quality: 85 });
    assert_eq!(raster_encoding("png", Format::Avif, 85, true).unwrap(), RasterEncoding::Avif { quality: 100 });
    assert_eq!(raster_encoding("png", Format::Avif, 85, false).unwrap(), RasterEncoding::Avif { quality: 85 });
    assert_eq!(raster_encoding("png", Format::Jpg, 85, false).unwrap(), RasterEncoding::Jpg);
    let err = raster_encoding("png", Format::Docx, 85, false).unwrap_err();
    assert_eq!(err.exit_code(), 6);
    let err = PdfConverter.encoding(Format::Svg, &options()).unwrap_err();
    assert_eq!(err.to_string(), "Unsupported conversion from 'pdf' to 'svg'");
}

#[test]
fn image_plans() {
    let mut o = options();
    let plan = ImageConverter.plan(Format::Png, Format::Webp, &o);
    assert_eq!(plan.source, SourceKind::Raster);
    assert!(plan.standardize && !plan.resize && !plan.render_at_natural_size);
    assert_eq!(plan.target, ImageTarget::Raster(RasterEncoding::Webp { lossless: false, quality: 80 }));
    o.width = Some(50);
    o.package = true;
    let plan = ImageConverter.plan(Format::Svg, Format::Png, &o);
    assert_eq!(plan.source, SourceKind::Vector);
    assert!(plan.resize && plan.render_at_natural_size);
    let plan = ImageConverter.plan(Format::Svg, Format::Favicon, &o);
    assert_eq!(plan.target, ImageTarget::Favicon { package: true });
    assert!(!plan.resize && !plan.standardize && !plan.render_at_natural_size);
    let plan = ImageConverter.plan(Format::Png, Format::Docx, &o);
    assert_eq!(plan.target, ImageTarget::Refused);
    assert_eq!(ImageConverter.refusal(Format::Png, Format::Docx).to_string(), "Unsupported conversion from 'png' to 'docx'");
    assert_eq!(ImageConverter.favicon_source_format(SourceKind::Vector), Format::Svg);
    assert_eq!(ImageConverter.favicon_source_format(SourceKind::Raster), Format::Png);
    assert_eq!(SvgToFaviconConverter.package_ico_name(), "favicon.ico");
}

#[test]
fn image_descriptions() {
    assert_eq!(
        image_description(Format::Png, Format::Webp, 85, false),
        "Converted image from png to webp (quality: 85, lossless: false)"
    );
    assert_eq!(
        image_description(Format::Svg, Format::Avif, 0, true),
        "Converted image from svg to avif (quality: 0, lossless: true)"
    );
}

#[test]
fn page_lists_are_parsed() {
    assert_eq!(parse_pages("1,3-5", 10), Ok(vec![0, 2, 3, 4]));
    assert_eq!(parse_pages(" 5 , 1-2 ,, 2", 10), Ok(vec![0, 1, 4]));
    assert_eq!(parse_pages("8-12", 9), Ok(vec![7, 8]));
    assert_eq!(parse_pages("20", 9), Ok(vec![]));
    assert_eq!(parse_pages("", 9), Ok(vec![]));
    assert_eq!(parse_pages("0", 9), Err("Page numbers must be 1-indexed and greater than 0".to_string()));
    assert_eq!(parse_pages("0-2", 9), Err("Page numbers must be 1-indexed and greater than 0".to_string()));
    assert_eq!(parse_pages("5-2", 9), Err("Start page 5 is greater than end page 2".to_string()));
    assert_eq!(parse_pages("1-2-3", 9), Err("Invalid page range: 1-2-3".to_string()));
    assert_eq!(parse_pages("x", 9), Err("Invalid page number: x".to_string()));
    assert_eq!(parse_pages("2- b", 9), Err("Invalid page number:  b".to_string()));
    assert_eq!(parse_pages("70000", 9), Err("Invalid page number: 70000".to_string()));
}

#[test]
fn pages_are_selected() {
    assert_eq!(select_pages(None, 3).unwrap(), vec![0, 1, 2]);
    assert_eq!(select_pages(Some("2"), 3).unwrap(), vec![1]);
    let err = select_pages(Some("9"), 3).unwrap_err();
    assert_eq!(err.to_string(), "Invalid input data: No pages selected for conversion");
    let err = select_pages(Some("a"), 3).unwrap_err();
    assert_eq!(err.to_string(), "Invalid input data: Invalid page selection: Invalid page number: a");
    let err = select_pages(None, 0).unwrap_err();
    assert_eq!(err.exit_code(), 3);
    assert_eq!(render_dpi(0), 1);
    assert_eq!(render_dpi(100), 100);
}

#[test]
fn test_convert_pdf_to_images() {
    // Two pages, all rendered: output_page_1.png and output_page_2.png.
    let pages = select_pages(None, 2).unwrap();
    let names: Vec<String> = pages.iter().map(|&p| page_file_name(Some("output"), Some("png"), p)).collect();
    assert_eq!(names, vec!["output_page_1.png".to_string(), "output_page_2.png".to_string()]);
    // Page 2 only, to JPEG.
    let pages = select_pages(Some("2"), 2).unwrap();
    assert_eq!(page_file_name(Some("output_single"), Some("jpg"), pages[0]), "output_single_page_2.jpg");
    assert_eq!(page_file_name(None, None, 0), "output_page_1.png");
    assert_eq!(page_description(1), "Page 2 of PDF");
    let outputs = PdfConverter.page_outputs(Some("report"), Some("jpg"), &vec![0, 2, 4]);
    let names: Vec<&str> = outputs.iter().map(|p| p.file_name.as_str()).collect();
    assert_eq!(names, vec!["report_page_1.jpg", "report_page_3.jpg", "report_page_5.jpg"]);
    assert_eq!(outputs[1].index, 2);
    assert_eq!(outputs[2].description, "Page 5 of PDF");
}

#[test]
fn conversion_results_report_sizes() {
    let files = vec![
        EncodedFile { path: "a.png".to_string(), bytes: vec![1, 2, 3], description: "first".to_string() },
        EncodedFile { path: "b.png".to_string(), bytes: vec![], description: "second".to_string() },
    ];
    let r = conversion_result(Format::Pdf, Format::Png, &files);
    assert_eq!(r.from, Format::Pdf);
    assert_eq!(r.output_files.len(), 2);
    assert_eq!(r.output_files[0].size_bytes, 3);
    assert_eq!(r.output_files[1].path, "b.png");
    assert_eq!(r.output_files[1].description, "second");
}

#[test]
fn premultiplied_alpha_is_undone() {
    let data = [100u8, 50, 0, 200, 9, 9, 9, 0, 255, 255, 255, 255, 200, 10, 10, 100, 7];
    let out = demultiply_alpha(&data);
    assert_eq!(out, vec![127, 63, 0, 200, 0, 0, 0, 0, 255, 255, 255, 255, 255, 25, 25, 100]);
}

#[test]
fn raster_images_are_decoded_and_encoded() {
    let png = png_of(3, 2);
    assert_eq!(&png[..8], &[0x89, b'P', b'N', b'G', 0x0D, 0x0A, 0x1A, 0x0A]);
    let img = load_image(&png).unwrap();
    assert_eq!((img.width(), img.height()), (3, 2));
    let jpg = encode_file(&img, RasterFile::Jpeg);
    // The RGBA image is refused by the JPEG encoder, or encoded as JPEG.
    match jpg {
        Ok(bytes) => assert_eq!(&bytes[..2], &[0xFF, 0xD8]),
        Err(e) => assert_eq!(e.exit_code(), 4),
    }
    let rgb = prepare_raster(img, None, None, false);
    let jpg = encode_file(&rgb, RasterFile::Jpeg).unwrap();
    assert_eq!(&jpg[..2], &[0xFF, 0xD8]);
}

#[test]
fn undecodable_images_are_image_errors() {
    let err = load_image(b"not an image").unwrap_err();
    assert!(matches!(err, MartiniError::Image(_)));
    assert_eq!(err.exit_code(), 4);
    assert!(err.to_string().starts_with("Image processing error: "));
}

#[test]
fn short_pixel_buffers_are_refused() {
    let err = rgba_to_png(vec![0u8; 15], 2, 2).unwrap_err();
    assert_eq!(err.to_string(), "Rendering error: Failed to create ImageBuffer from raw pixels");
    let err = image_from_pixels(vec![0u8; 15], 2, 2).unwrap_err();
    assert_eq!(err.to_string(), "Rendering error: Failed to create ImageBuffer from SVG");
    let img = image_from_pixels(vec![0u8; 16], 2, 2).unwrap();
    assert_eq!(img.width(), 2);
}

#[test]
fn ico_files_hold_their_images() {
    let ico = build_ico(&vec![png_of(16, 16), png_of(32, 32), png_of(48, 48)]).unwrap();
    // Reserved word, type 1 (icon), three images.
    assert_eq!(&ico[..6], &[0, 0, 1, 0, 3, 0]);
    let err = build_ico(&vec![b"no png".to_vec()]).unwrap_err();
    assert!(matches!(err, MartiniError::Io { .. }));
}

#[test]
fn favicon_sizes_and_sources() {
    assert_eq!(favicon_render_sizes(true), vec![16, 32, 180, 192, 512, 48]);
    assert_eq!(favicon_render_sizes(false), vec![16, 32, 48]);
    assert_eq!(favicon_ico_sizes(), vec![16, 32, 48]);
    let pngs: Vec<Vec<u8>> = (0u8..6).map(|i| vec![i]).collect();
    assert_eq!(ico_sources(&pngs, true), vec![vec![0u8], vec![1u8], vec![5u8]]);
    let pngs: Vec<Vec<u8>> = (0u8..3).map(|i| vec![i]).collect();
    assert_eq!(ico_sources(&pngs, false), pngs);
    let table = favicon_package_pngs();
    assert_eq!(table.len(), 5);
    assert_eq!(table[2].size, 180);
    assert_eq!(table[2].file_name, "apple-touch-icon.png");
}

#[test]
fn test_convert_svg_to_ico() {
    let img = Picture::new(image::DynamicImage::ImageRgba8(image::RgbaImage::new(20, 20)));
    let pngs = raster_favicon_pngs(&img, false).unwrap();
    assert_eq!(pngs.len(), 3);
    let files = favicon_files(pngs, false, "favicon.ico").unwrap();
    assert_eq!(files.len(), 1);
    assert_eq!(files[0].path, "favicon.ico");
    assert!(!files[0].bytes.is_empty());
    assert_eq!(&files[0].bytes[..6], &[0, 0, 1, 0, 3, 0]);
    assert_eq!(files[0].description, "Multi-resolution Windows favicon (16x16, 32x32, 48x48)");
}

#[test]
fn favicon_packages_hold_all_files() {
    let img = Picture::new(image::DynamicImage::ImageRgba8(image::RgbaImage::new(20, 20)));
    let pngs = raster_favicon_pngs(&img, true).unwrap();
    let expected_pngs = pngs.clone();
    let files = favicon_files(pngs, true, "favicon.ico").unwrap();
    let names: Vec<&str> = files.iter().map(|f| f.path.as_str()).collect();
    assert_eq!(
        names,
        vec![
            "favicon-16x16.png",
            "favicon-32x32.png",
            "apple-touch-icon.png",
            "android-chrome-192x192.png",
            "android-chrome-512x512.png",
            "favicon.ico",
            "site.webmanifest",
            "favicon-tags.html",
        ]
    );
    for i in 0..5 {
        assert_eq!(files[i].bytes, expected_pngs[i]);
    }
    let decoded = load_image(&files[4].bytes).unwrap();
    assert_eq!((decoded.width(), decoded.height()), (512, 512));
    assert_eq!(files[6].bytes, web_manifest().as_bytes());
    assert_eq!(files[7].bytes, favicon_html_tags().as_bytes());
    assert!(web_manifest().contains("\"src\": \"/android-chrome-512x512.png\""));
    assert_eq!(files[6].description, "Web App Manifest containing icons definitions");
    assert_eq!(files[7].description, "HTML header tags to copy-paste into index.html");
    assert_eq!(files[0].description, "Standard small favicon for browser tabs");
}

#[test]
fn io_error_kinds_choose_exit_codes() {
    let e = MartiniError::Io { kind: IoErrorKind::NotFound, message: "gone".to_string() };
    assert_eq!(e.exit_code(), 2);
    let e = MartiniError::Io { kind: IoErrorKind::PermissionDenied, message: "no".to_string() };
    assert_eq!(e.exit_code(), 5);
    assert_eq!(e.to_string(), "IO error: no");
    let e = MartiniError::Io { kind: IoErrorKind::Other, message: "x".to_string() };
    assert_eq!(e.exit_code(), 4);
    assert_eq!(MartiniError::SvgParse("bad".to_string()).exit_code(), 3);
    assert_eq!(MartiniError::OutputWrite { reason: "r".to_string() }.exit_code(), 5);
    assert_eq!(MartiniError::PdfRender("p".to_string()).exit_code(), 4);
    assert_eq!(MartiniError::Rendering("p".to_string()).exit_code(), 4);
    assert_eq!(
        MartiniError::UnsupportedConversion { from: "a".to_string(), to: "b".to_string() }.to_string(),
        "Unsupported conversion from 'a' to 'b'"
    );
    assert_eq!(MartiniError::OutputWrite { reason: "r".to_string() }.to_string(), "Output writing error: r");
}

#[test]
fn pictures_are_standardised_by_colour_type() {
    let gray = Picture::new(image::DynamicImage::ImageLuma8(image::GrayImage::new(4, 3)));
    assert_eq!(gray.color(), ColorKind::L8);
    let s = standardize(&gray);
    assert_eq!(s.color(), ColorKind::Rgb8);
    assert_eq!((s.width(), s.height()), (4, 3));
    let la = Picture::new(image::DynamicImage::ImageLumaA16(image::ImageBuffer::new(2, 2)));
    assert_eq!(la.color(), ColorKind::La16);
    assert_eq!(standardize(&la).color(), ColorKind::Rgba8);
    let r = prepare_raster(gray, Some(8), None, false);
    assert_eq!((r.width(), r.height(), r.color()), (8, 6, ColorKind::Rgb8));
    assert_eq!((r.image().width(), r.image().height()), (8, 6));
}

#[test]
fn png_headers_record_the_size() {
    let png = png_of(3, 2);
    assert_eq!(&png[8..24], &[0, 0, 0, 13, b'I', b'H', b'D', b'R', 0, 0, 0, 3, 0, 0, 0, 2]);
    let pic = load_image(&png).unwrap();
    let square = martini::raster::square_png(&pic, 300).unwrap();
    assert_eq!(&square[16..24], &[0, 0, 1, 44, 0, 0, 1, 44]);
    let ico = build_ico(&vec![png_of(16, 16)]).unwrap();
    assert_eq!(&ico[..8], &[0, 0, 1, 0, 1, 0, 16, 16]);
    assert!(build_ico(&vec![]).unwrap().starts_with(&[0, 0, 1, 0, 0, 0]));
}

#[test]
fn png_pixels_read_back_as_written() {
    let rgba: Vec<u8> = vec![255, 0, 0, 255, 0, 255, 0, 128, 0, 0, 255, 0, 10, 20, 30, 40];
    let png = rgba_to_png(rgba.clone(), 2, 2).unwrap();
    let img = load_image(&png).unwrap();
    assert_eq!((img.width(), img.height(), img.color()), (2, 2, ColorKind::Rgba8));
    assert_eq!(img.image().to_rgba8().into_raw(), rgba);
}

#[test]
fn square_pngs_keep_the_colour_of_a_flat_image() {
    let red = image::RgbaImage::from_pixel(20, 20, image::Rgba([200, 10, 10, 255]));
    let img = Picture::new(image::DynamicImage::ImageRgba8(red));
    let png = square_png(&img, 4).unwrap();
    let back = load_image(&png).unwrap();
    assert_eq!((back.width(), back.height()), (4, 4));
    let px = back.image().to_rgba8().into_raw();
    assert_eq!(px.len(), 64);
    for c in px.chunks(4) {
        assert_eq!(c, &[200, 10, 10, 255]);
    }
}

#[test]
fn standardising_grey_repeats_the_level() {
    let grey = image::GrayImage::from_pixel(2, 1, image::Luma([7]));
    let img = Picture::new(image::DynamicImage::ImageLuma8(grey));
    let s = standardize(&img);
    assert_eq!(s.image().to_rgb8().into_raw(), vec![7, 7, 7, 7, 7, 7]);
}

#[test]
fn svg_documents_are_parsed_or_refused() {
    let svg = br#"<svg xmlns="http://www.w3.org/2000/svg" width="10" height="20"><rect width="10" height="20"/></svg>"#;
    assert!(parse_svg(svg).is_ok());
    let err = parse_svg(b"<not svg").unwrap_err();
    assert!(matches!(err, MartiniError::SvgParse(_)));
    assert_eq!(err.exit_code(), 3);
    assert!(err.to_string().starts_with("SVG parsing error: "));
}
