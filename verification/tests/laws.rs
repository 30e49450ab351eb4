use martini::cli::{parse_targets, resolve_target};
use martini::error::MartiniError;
use martini::format::Format;
use martini::markdown::{MdEvent, MdState, MdTag, MdTagEnd};
use martini::pages::parse_pages;
use martini::pixels::{calculate_dimensions, demultiply_alpha};

#[test]
fn format_names_round_trip_in_any_case() {
    for f in [
        Format::Svg,
        Format::Favicon,
        Format::Png,
        Format::Jpg,
        Format::Webp,
        Format::Avif,
        Format::Pdf,
        Format::Md,
        Format::Docx,
    ] {
        assert_eq!(Format::from_str(f.name()), Ok(f));
        assert_eq!(Format::from_str(&f.name().to_uppercase()), Ok(f));
    }
}

#[test]
fn opaque_pixels_are_unchanged_and_transparent_ones_cleared() {
    let data = [12u8, 34, 56, 255, 90, 80, 70, 0];
    let out = demultiply_alpha(&data);
    assert_eq!(&out[..4], &[12, 34, 56, 255]);
    assert_eq!(&out[4..], &[0, 0, 0, 0]);
}

#[test]
fn no_upscale_never_enlarges() {
    for (w, h) in [(Some(500), None), (None, Some(500)), (Some(500), Some(5)), (Some(5), Some(500))] {
        let (rw, rh) = calculate_dimensions(100, 50, w, h, true);
        assert!(rw <= 100 && rh <= 50, "{:?} {:?}", w, h);
    }
    assert_eq!(calculate_dimensions(100, 50, Some(40), None, true), (40, 20));
}

#[test]
fn one_side_keeps_the_aspect_ratio() {
    // 3 x 7 scaled to width 2: 7 * 2 / 3 = 4.67, rounded to 5.
    assert_eq!(calculate_dimensions(3, 7, Some(2), None, false), (2, 5));
    // 7 x 3 scaled to height 2: 4.67 -> 5.
    assert_eq!(calculate_dimensions(7, 3, None, Some(2), false), (5, 2));
    // Half a pixel rounds up.
    assert_eq!(calculate_dimensions(4, 1, Some(2), None, false), (2, 1));
    assert_eq!(calculate_dimensions(4, 3, Some(2), None, false), (2, 2));
    // Tiny results are clamped to one pixel.
    assert_eq!(calculate_dimensions(1000, 1, Some(1), None, false), (1, 1));
}

#[test]
fn page_lists_concatenate() {
    let a = parse_pages("1-2", 10).unwrap();
    let b = parse_pages("5,2", 10).unwrap();
    let both = parse_pages("1-2,5,2", 10).unwrap();
    let mut union: Vec<u16> = a.iter().chain(b.iter()).copied().collect();
    union.sort();
    union.dedup();
    assert_eq!(both, union);
    // The first refusal is reported.
    assert_eq!(parse_pages("x,0", 10), Err("Invalid page number: x".to_string()));
    assert_eq!(parse_pages("0,x", 10), Err("Page numbers must be 1-indexed and greater than 0".to_string()));
}

#[test]
fn default_targets_are_formats() {
    for ext in [Some("svg"), Some("PDF"), Some("md"), Some("markdown"), Some("png"), Some("txt"), None] {
        let target = resolve_target(None, None, ext);
        assert!(parse_targets(&target, "auto").is_ok(), "{:?}", ext);
    }
}

#[test]
fn errors_exit_with_failure_codes() {
    let errors = vec![
        MartiniError::SvgParse("x".to_string()),
        MartiniError::InputFileNotFound { path: "p".to_string() },
        MartiniError::OutputWrite { reason: "r".to_string() },
        MartiniError::UnsupportedConversion { from: "a".to_string(), to: "b".to_string() },
    ];
    for e in errors {
        assert!((2..=6).contains(&e.exit_code()));
    }
}

#[test]
fn layout_only_appends() {
    let mut s = MdState::new();
    s.step(MdEvent::Start(MdTag::Paragraph));
    s.step(MdEvent::Text("first".to_string()));
    s.step(MdEvent::End(MdTagEnd::Paragraph));
    let before = format!("{:?}", s.doc);
    for e in [
        MdEvent::Start(MdTag::Table),
        MdEvent::Start(MdTag::TableCell),
        MdEvent::Text("cell".to_string()),
        MdEvent::End(MdTagEnd::TableCell),
        MdEvent::End(MdTagEnd::TableRow),
        MdEvent::End(MdTagEnd::Table),
        MdEvent::DisplayMath("x".to_string()),
    ] {
        s.step(e);
        assert_eq!(format!("{:?}", &s.doc[..1]), before);
    }
    assert_eq!(s.doc.len(), 3);
}
