use martini::capability::{format_listing_line, get_supported_formats};
use martini::format::Format;

#[test]
fn test_get_supported_formats() {
    let formats = get_supported_formats();
    assert!(!formats.is_empty());
    assert!(formats.iter().any(|f| f.to == "favicon"));
}

#[test]
fn test_list_formats() {
    let lines: Vec<String> = get_supported_formats().iter().map(format_listing_line).collect();
    assert!(lines.iter().any(|l| l.contains("[any] -> favicon")));
}

#[test]
fn test_list_formats_json() {
    let formats = get_supported_formats();
    let list: Vec<serde_json::Value> = formats
        .iter()
        .map(|f| {
            let mut params = serde_json::Map::new();
            for (k, v) in &f.parameters {
                params.insert(k.clone(), serde_json::Value::String(v.clone()));
            }
            let mut obj = serde_json::Map::new();
            obj.insert("from".to_string(), serde_json::Value::String(f.from.clone()));
            obj.insert("to".to_string(), serde_json::Value::String(f.to.clone()));
            obj.insert("description".to_string(), serde_json::Value::String(f.description.clone()));
            obj.insert("parameters".to_string(), serde_json::Value::Object(params));
            serde_json::Value::Object(obj)
        })
        .collect();
    let json = serde_json::to_string_pretty(&list).unwrap();
    assert!(json.contains("\"to\": \"favicon\""));
}

#[test]
fn listing_lines_name_options() {
    let formats = get_supported_formats();
    assert_eq!(formats.len(), 8);
    assert_eq!(
        format_listing_line(&formats[0]),
        "- [any] -> favicon: Convert an SVG or raster image to a Chrome favicon (.ico or full favicon package). Options: --package"
    );
    assert_eq!(format_listing_line(&formats[1]), "- [any] -> png: Convert images to PNG format");
    assert_eq!(
        format_listing_line(&formats[6]),
        "- pdf -> [png/jpg/webp/avif]: Convert PDF pages to images. Options: --pages, --dpi, --quality, --lossless"
    );
    assert_eq!(
        format_listing_line(&formats[7]),
        "- md -> docx: Convert Markdown documents to Microsoft Word (DOCX) files. Options: --overwrite"
    );
}

#[test]
fn format_names_parse_back() {
    for f in [
        Format::Svg,
        Format::Favicon,
        Format::Png,
        Format::Jpg,
        Format::Webp,
        Format::Avif,
        Format::Pdf,
        Format::Md,
        Format::Docx,
    ] {
        assert_eq!(Format::from_str(f.name()), Ok(f));
        assert_eq!(f.to_string(), f.name());
    }
}

#[test]
fn format_names_ignore_case_and_accept_aliases() {
    assert_eq!(Format::from_str("JPEG"), Ok(Format::Jpg));
    assert_eq!(Format::from_str("Markdown"), Ok(Format::Md));
    assert_eq!(Format::from_str("WebP"), Ok(Format::Webp));
    assert_eq!(Format::from_str("MAR\u{212A}DOWN"), Ok(Format::Md));
    assert_eq!(Format::from_str("tiff"), Err("Unsupported format: 'tiff'".to_string()));
    assert_eq!(Format::from_str(""), Err("Unsupported format: ''".to_string()));
}

#[test]
fn every_listed_name_but_both_parses_as_a_format() {
    let formats = get_supported_formats();
    for (i, c) in formats.iter().enumerate() {
        for name in c.from.split(", ") {
            assert!(Format::from_str(name).is_ok(), "{}", name);
        }
        for name in c.to.split(", ") {
            if name == "both" {
                assert_eq!(i, 5);
                assert_eq!(c.to, "both");
            } else {
                assert!(Format::from_str(name).is_ok(), "{}", name);
            }
        }
    }
    assert!(Format::from_str("both").is_err());
}
