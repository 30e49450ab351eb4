//! The formats the converter reads and writes, with their names.

use vstd::prelude::*;
use crate::text::{chars_of, folds_to, folds_to_name};

verus! {

/// A file format known to the converter.
#[derive(Debug, Clone, Copy, PartialEq, Eq, Structural)]
pub enum Format {
    Svg,
    Favicon,
    Png,
    Jpg,
    Webp,
    Avif,
    Pdf,
    Md,
    Docx,
}

/// The canonical lowercase name of a format, as printed.
pub open spec fn format_name(f: Format) -> Seq<char> {
    match f {
        Format::Svg => seq!['s', 'v', 'g'],
        Format::Favicon => seq!['f', 'a', 'v', 'i', 'c', 'o', 'n'],
        Format::Png => seq!['p', 'n', 'g'],
        Format::Jpg => seq!['j', 'p', 'g'],
        Format::Webp => seq!['w', 'e', 'b', 'p'],
        Format::Avif => seq!['a', 'v', 'i', 'f'],
        Format::Pdf => seq!['p', 'd', 'f'],
        Format::Md => seq!['m', 'd'],
        Format::Docx => seq!['d', 'o', 'c', 'x'],
    }
}

/// The name accepted for a format, besides its canonical name.
pub open spec fn jpeg_alias() -> Seq<char> {
    seq!['j', 'p', 'e', 'g']
}

pub open spec fn markdown_alias() -> Seq<char> {
    seq!['m', 'a', 'r', 'k', 'd', 'o', 'w', 'n']
}

/// The format named by `s`, compared without regard to letter case.
pub open spec fn spec_parse_format(s: Seq<char>) -> Option<Format> {
    if folds_to(s, format_name(Format::Svg)) {
        Some(Format::Svg)
    } else if folds_to(s, format_name(Format::Favicon)) {
        Some(Format::Favicon)
    } else if folds_to(s, format_name(Format::Png)) {
        Some(Format::Png)
    } else if folds_to(s, format_name(Format::Jpg)) || folds_to(s, jpeg_alias()) {
        Some(Format::Jpg)
    } else if folds_to(s, format_name(Format::Webp)) {
        Some(Format::Webp)
    } else if folds_to(s, format_name(Format::Avif)) {
        Some(Format::Avif)
    } else if folds_to(s, format_name(Format::Pdf)) {
        Some(Format::Pdf)
    } else if folds_to(s, format_name(Format::Md)) || folds_to(s, markdown_alias()) {
        Some(Format::Md)
    } else if folds_to(s, format_name(Format::Docx)) {
        Some(Format::Docx)
    } else {
        None
    }
}

/// The message given for a name that is no format.
pub open spec fn unsupported_format_message(s: Seq<char>) -> Seq<char> {
    "Unsupported format: '"@ + s + "'"@
}

impl Format {
    /// The canonical name of the format (`jpg` for JPEG, `md` for Markdown).
    pub fn name(&self) -> (r: &'static str)
        ensures
            r@ == format_name(*self),
    {
        match self {
            Format::Svg => {
                proof { reveal_strlit("svg"); }
                "svg"
            },
            Format::Favicon => {
                proof { reveal_strlit("favicon"); }
                "favicon"
            },
            Format::Png => {
                proof { reveal_strlit("png"); }
                "png"
            },
            Format::Jpg => {
                proof { reveal_strlit("jpg"); }
                "jpg"
            },
            Format::Webp => {
                proof { reveal_strlit("webp"); }
                "webp"
            },
            Format::Avif => {
                proof { reveal_strlit("avif"); }
                "avif"
            },
            Format::Pdf => {
                proof { reveal_strlit("pdf"); }
                "pdf"
            },
            Format::Md => {
                proof { reveal_strlit("md"); }
                "md"
            },
            Format::Docx => {
                proof { reveal_strlit("docx"); }
                "docx"
            },
        }
    }

    /// The name as an owned string, as `Display` prints it.
    pub fn to_string(&self) -> (r: String)
        ensures
            r@ == format_name(*self),
    {
        String::from_str(self.name())
    }

    /// Parses a format name without regard to letter case; `jpeg` names JPEG
    /// and `markdown` names Markdown.
    pub fn from_str(s: &str) -> (r: Result<Format, String>)
        ensures
            spec_parse_format(s@) matches Some(f) ==> r == Ok::<Format, String>(f),
            spec_parse_format(s@) is None ==> (r matches Err(e) && e@ == unsupported_format_message(s@)),
    {
        proof {
            reveal_strlit("svg");
            reveal_strlit("favicon");
            reveal_strlit("png");
            reveal_strlit("jpg");
            reveal_strlit("jpeg");
            reveal_strlit("webp");
            reveal_strlit("avif");
            reveal_strlit("pdf");
            reveal_strlit("md");
            reveal_strlit("markdown");
            reveal_strlit("docx");
        }
        let cs = chars_of(s);
        if folds_to_name(&cs, "svg") {
            Ok(Format::Svg)
        } else if folds_to_name(&cs, "favicon") {
            Ok(Format::Favicon)
        } else if folds_to_name(&cs, "png") {
            Ok(Format::Png)
        } else if folds_to_name(&cs, "jpg") || folds_to_name(&cs, "jpeg") {
            Ok(Format::Jpg)
        } else if folds_to_name(&cs, "webp") {
            Ok(Format::Webp)
        } else if folds_to_name(&cs, "avif") {
            Ok(Format::Avif)
        } else if folds_to_name(&cs, "pdf") {
            Ok(Format::Pdf)
        } else if folds_to_name(&cs, "md") || folds_to_name(&cs, "markdown") {
            Ok(Format::Md)
        } else if folds_to_name(&cs, "docx") {
            Ok(Format::Docx)
        } else {
            let mut msg = String::from_str("Unsupported format: '");
            msg.append(s);
            msg.append("'");
            Err(msg)
        }
    }
}

} // verus!
