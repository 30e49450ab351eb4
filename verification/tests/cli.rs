use martini::cli::{
    get_glob_base, glob_base_from, glob_literal_prefix, is_glob_pattern, log_level, LogLevel, multi_output_error, multi_output_refused, output_placement, parse_targets,
    resolve_source_format, resolve_target, should_delete_input, skipped_output, OutputInfo,
    OutputPlacement,
};
use martini::convert::{convert, package_ico_name, package_into_output, ConverterKind, OutputFileMetadata};
use martini::error::MartiniError;
use martini::favicon::{favicon_files, raster_favicon_pngs};
use martini::format::Format;
use martini::pixels::calculate_dimensions;
use martini::raster::{prepare_raster, Picture};

fn output(is_dir: bool, ext: Option<&str>) -> OutputInfo {
    OutputInfo { is_dir, extension: ext.map(|e| e.to_string()) }
}

fn blank_image(w: u32, h: u32) -> Picture {
    Picture::new(image::DynamicImage::ImageRgba8(image::RgbaImage::from_pixel(
        w,
        h,
        image::Rgba([0u8, 0u8, 0u8, 255u8]),
    )))
}

#[test]
fn test_convert_missing_input() {
    let err = MartiniError::InputFileNotFound { path: "tests/fixtures/does_not_exist.svg".to_string() };
    assert_eq!(err.exit_code(), 2);
    assert!(err.to_string().contains("Input file not found"));
}

#[test]
fn test_convert_unsupported_formats() {
    let from = resolve_source_format("png", Some("svg"), "pdf").unwrap();
    assert_eq!(from, Format::Png);
    let targets = parse_targets("pdf", "png").unwrap();
    assert_eq!(targets, vec![Format::Pdf]);
    let err = convert(from, targets[0]).unwrap_err();
    assert_eq!(err.exit_code(), 6);
    assert!(err.to_string().contains("Unsupported conversion"));
    assert_eq!(err.to_string(), "Unsupported conversion from 'png' to 'pdf'");
}

#[test]
fn test_auto_detect_target_format() {
    // The output's extension names the target.
    let out = output(false, Some("webp"));
    assert_eq!(resolve_target(None, Some(&out), Some("png")), "webp");
    assert_eq!(output_placement(true, false, 1), OutputPlacement::AsGiven);
    // Without an output, a PNG becomes a WebP beside the input.
    assert_eq!(resolve_target(None, None, Some("png")), "webp");
    assert_eq!(output_placement(false, false, 1), OutputPlacement::BesideInput);
}

#[test]
fn test_convert_svg_to_package() {
    // `icons` does not exist yet and has no extension: the package goes into it.
    assert!(package_into_output(false, false));
    assert_eq!(package_ico_name(true, Some("icons")), "favicon.ico");
    let pngs = raster_favicon_pngs(&blank_image(64, 64), true).unwrap();
    let files = favicon_files(pngs, true, "favicon.ico").unwrap();
    let names: Vec<&str> = files.iter().map(|f| f.path.as_str()).collect();
    assert!(names.contains(&"favicon.ico"));
    assert!(names.contains(&"favicon-16x16.png"));
    assert!(names.contains(&"favicon-32x32.png"));
    assert!(names.contains(&"apple-touch-icon.png"));
    assert!(names.contains(&"site.webmanifest"));
    assert!(names.contains(&"favicon-tags.html"));
}

#[test]
fn test_favicon_package_smart_path() {
    // `sub_folder/my_icon.ico` names the ICO file; the rest goes beside it.
    assert!(!package_into_output(false, true));
    let ico_name = package_ico_name(false, Some("my_icon.ico"));
    assert_eq!(ico_name, "my_icon.ico");
    let pngs = raster_favicon_pngs(&blank_image(64, 64), true).unwrap();
    let files = favicon_files(pngs, true, &ico_name).unwrap();
    assert_eq!(files[5].path, "my_icon.ico");
    assert!(files.iter().any(|f| f.path == "favicon-16x16.png"));
    assert!(files.iter().any(|f| f.path == "site.webmanifest"));
}

#[test]
fn test_convert_glob_pattern_invalid_output() {
    assert!(is_glob_pattern("/tmp/dir/*.png"));
    // `single_output.avif` does not exist and has an extension.
    assert!(multi_output_refused(false, false, true));
    let err = multi_output_error();
    assert_eq!(err.exit_code(), 3);
    assert!(err.to_string().contains("Output path must be a directory"));
}

#[test]
fn test_cli_parsing_resizing_flags() {
    // A 10x10 image asked for 200x150 without upscaling keeps its size.
    assert_eq!(calculate_dimensions(10, 10, Some(200), Some(150), true), (10, 10));
    assert_eq!(calculate_dimensions(10, 10, Some(200), Some(150), false), (200, 150));
}

#[test]
fn test_image_resize_width_only() {
    assert_eq!(calculate_dimensions(100, 50, Some(50), None, false), (50, 25));
    let resized = prepare_raster(blank_image(100, 50), Some(50), None, false);
    assert_eq!(resized.width(), 50);
    assert_eq!(resized.height(), 25);
}

#[test]
fn test_svg_resize() {
    assert_eq!(calculate_dimensions(100, 100, Some(400), None, false).0, 400);
    assert_eq!(calculate_dimensions(200, 100, Some(400), None, false), (400, 200));
}

#[test]
fn test_image_conversions_delete_original() {
    let outputs = vec![OutputFileMetadata {
        path: "output.webp".to_string(),
        size_bytes: 44,
        description: "Converted image from jpg to webp (quality: 80, lossless: false)".to_string(),
    }];
    assert!(should_delete_input(true, &outputs));
    assert!(!should_delete_input(false, &outputs));
    let skipped = vec![skipped_output("output.webp", 44)];
    assert!(should_delete_input(true, &skipped));
    let failed = vec![OutputFileMetadata {
        path: "output.webp".to_string(),
        size_bytes: 0,
        description: "conversion failed".to_string(),
    }];
    assert!(!should_delete_input(true, &failed));
}

#[test]
fn test_convert_md_to_docx_auto_detect() {
    assert_eq!(resolve_target(None, Some(&output(false, Some("docx"))), Some("md")), "docx");
    assert_eq!(resolve_source_format("auto", Some("md"), "docx").unwrap(), Format::Md);
    assert_eq!(convert(Format::Md, Format::Docx).unwrap(), ConverterKind::Markdown);
}

#[test]
fn target_defaults_follow_the_input() {
    assert_eq!(resolve_target(None, None, Some("SVG")), "favicon");
    assert_eq!(resolve_target(None, None, Some("pdf")), "png");
    assert_eq!(resolve_target(None, None, Some("Markdown")), "docx");
    assert_eq!(resolve_target(None, None, None), "webp");
    assert_eq!(resolve_target(None, Some(&output(true, None)), Some("md")), "docx");
    assert_eq!(resolve_target(None, Some(&output(false, Some("ICO"))), Some("png")), "favicon");
    assert_eq!(resolve_target(None, Some(&output(false, Some("html"))), Some("svg")), "favicon");
    assert_eq!(resolve_target(None, Some(&output(false, Some("JPG"))), Some("png")), "jpg");
    assert_eq!(resolve_target(Some("both"), Some(&output(false, Some("jpg"))), Some("png")), "both");
}

#[test]
fn targets_expand_both() {
    assert_eq!(parse_targets("BOTH", "auto").unwrap(), vec![Format::Webp, Format::Avif]);
    assert_eq!(parse_targets("jpeg", "auto").unwrap(), vec![Format::Jpg]);
    let err = parse_targets("gif", "png").unwrap_err();
    assert!(matches!(err, MartiniError::UnsupportedConversion { ref from, ref to } if from == "png" && to == "gif"));
}

#[test]
fn source_format_auto_reads_the_extension() {
    assert_eq!(resolve_source_format("auto", Some("JPEG"), "webp").unwrap(), Format::Jpg);
    let err = resolve_source_format("auto", Some("TXT"), "webp").unwrap_err();
    assert_eq!(err.to_string(), "Unsupported conversion from 'txt' to 'webp'");
    let err = resolve_source_format("auto", None, "webp").unwrap_err();
    assert_eq!(err.to_string(), "Unsupported conversion from '' to 'webp'");
    let err = resolve_source_format("bmp", Some("png"), "webp").unwrap_err();
    assert_eq!(err.to_string(), "Unsupported conversion from 'bmp' to 'webp'");
}

#[test]
fn glob_patterns_are_recognised() {
    assert!(is_glob_pattern("a?.png"));
    assert!(is_glob_pattern("img[0-9].png"));
    assert!(!is_glob_pattern("img[0.png"));
    assert!(!is_glob_pattern("plain/path.png"));
    assert_eq!(glob_literal_prefix("/tmp/dir/*.png"), "/tmp/dir/");
    assert_eq!(glob_literal_prefix("no_wildcards"), "no_wildcards");
}

#[test]
fn output_placement_for_several_targets() {
    assert_eq!(output_placement(true, true, 2), OutputPlacement::InDirectory);
    assert_eq!(output_placement(true, false, 2), OutputPlacement::SwapExtension);
    assert!(!multi_output_refused(false, true, false));
    assert!(multi_output_refused(true, true, true));
}

#[test]
fn log_levels() {
    assert_eq!(log_level(true, true), None);
    assert_eq!(log_level(false, true), Some(LogLevel::Debug));
    assert_eq!(log_level(false, false), Some(LogLevel::Info));
}

#[test]
fn glob_bases() {
    assert_eq!(glob_base_from("imgs/", true, Some("")), "imgs/");
    assert_eq!(glob_base_from("imgs/", false, Some("")), ".");
    assert_eq!(glob_base_from("", false, None), ".");
    assert_eq!(glob_base_from("a/b/c", false, Some("a/b")), "a/b");
    assert_eq!(get_glob_base("/tmp/dir/*.png", true), "/tmp/dir/");
    assert_eq!(get_glob_base("/tmp/dir/*.png", false), "/tmp");
    assert_eq!(get_glob_base("imgs/*.png", false), ".");
    assert_eq!(get_glob_base("*.png", false), ".");
    assert_eq!(get_glob_base("a/b/c*.png", false), "a/b");
}
