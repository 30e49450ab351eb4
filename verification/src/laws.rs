//! Properties of the library that relate several values or calls.

use vstd::prelude::*;
use crate::batch::{TaskResult, TaskStatus};
use crate::cli::default_target;
use crate::favicon::{ico_images, render_sizes};
use crate::raster::{lemma_png_header_size, png_header, png_size};
use crate::error::{spec_exit_code, MartiniError};
use crate::capability::{capability_table, listed_options, listing_line};
use crate::text::contains_text;
use crate::format::{format_name, jpeg_alias, spec_parse_format, Format};
use crate::markdown::{
    build_paragraph_view, run_events, step, step_start, MdEventView, MdStateView, MdTagView, ParaItemView,
};
use crate::word::run_of;
use crate::convert::{spec_pixel_layout, ColorKind, PixelLayout};
use crate::raster::standard_color;
use crate::cli::spec_resolve_target;
use crate::text::lowercase;
use crate::batch::source_extensions;
use crate::ui::count_status;
use crate::pages::{pages_of_parts, spec_parse_pages};
use crate::pixels::{spec_dimensions, straight_channel, unpremultiply};
use crate::text::{fold_char, folds_to, lemma_split_on_nonempty, split_on};

verus! {

/// Every format's printed name parses back to that same format.
pub proof fn law_format_name_round_trip(f: Format)
    ensures
        spec_parse_format(format_name(f)) == Some(f),
{
    let n = format_name(f);
    assert(fold_char(n[0]) == n[0]);
    assert(fold_char(n[1]) == n[1]);
    if n.len() > 2 {
        assert(fold_char(n[2]) == n[2]);
    }
    if n.len() > 3 {
        assert(fold_char(n[3]) == n[3]);
    }
    if n.len() > 4 {
        assert(fold_char(n[4]) == n[4]);
        assert(fold_char(n[5]) == n[5]);
        assert(fold_char(n[6]) == n[6]);
    }
}

proof fn lemma_folds_to_same_fold(s: Seq<char>, t: Seq<char>, name: Seq<char>)
    requires
        s.len() == t.len(),
        forall|i: int| 0 <= i < s.len() ==> fold_char(#[trigger] s[i]) == fold_char(t[i]),
    ensures
        folds_to(s, name) == folds_to(t, name),
{
    if folds_to(s, name) {
        assert forall|i: int| 0 <= i < t.len() implies fold_char(#[trigger] t[i]) == name[i] by {
            assert(fold_char(s[i]) == name[i]);
        }
    }
    if folds_to(t, name) {
        assert forall|i: int| 0 <= i < s.len() implies fold_char(#[trigger] s[i]) == name[i] by {
            assert(fold_char(t[i]) == name[i]);
        }
    }
}

/// Format names are read without regard to letter case: two names that
/// lowercase alike name the same format, or both name none.
pub proof fn law_format_parse_ignores_case(s: Seq<char>, t: Seq<char>)
    requires
        s.len() == t.len(),
        forall|i: int| 0 <= i < s.len() ==> fold_char(#[trigger] s[i]) == fold_char(t[i]),
    ensures
        spec_parse_format(s) == spec_parse_format(t),
{
    lemma_folds_to_same_fold(s, t, format_name(Format::Svg));
    lemma_folds_to_same_fold(s, t, format_name(Format::Favicon));
    lemma_folds_to_same_fold(s, t, format_name(Format::Png));
    lemma_folds_to_same_fold(s, t, format_name(Format::Jpg));
    lemma_folds_to_same_fold(s, t, crate::format::jpeg_alias());
    lemma_folds_to_same_fold(s, t, format_name(Format::Webp));
    lemma_folds_to_same_fold(s, t, format_name(Format::Avif));
    lemma_folds_to_same_fold(s, t, format_name(Format::Pdf));
    lemma_folds_to_same_fold(s, t, format_name(Format::Md));
    lemma_folds_to_same_fold(s, t, crate::format::markdown_alias());
    lemma_folds_to_same_fold(s, t, format_name(Format::Docx));
}

/// Undoing the alpha premultiplication leaves fully opaque pixels as they are.
pub proof fn law_opaque_pixels_unchanged(data: Seq<u8>, p: int, k: int)
    requires
        0 <= p < data.len() / 4,
        0 <= k < 4,
        data[4 * p + 3] == 255,
    ensures
        straight_channel(data, p, k) == data[4 * p + k],
{
    if k != 3 {
        let c = data[4 * p + k];
        assert((c as int) * 255 / 255 == c as int) by (nonlinear_arith);
        assert(unpremultiply(c, 255) == c);
    }
}

/// Undoing the alpha premultiplication turns fully transparent pixels into zeros.
pub proof fn law_transparent_pixels_cleared(data: Seq<u8>, p: int, k: int)
    requires
        0 <= p < data.len() / 4,
        0 <= k < 4,
        data[4 * p + 3] == 0,
    ensures
        straight_channel(data, p, k) == 0,
{
}

/// With `no_upscale`, an image with a positive size is never made larger in
/// either dimension.
pub proof fn law_no_upscale_never_enlarges(
    orig_w: u32,
    orig_h: u32,
    width: Option<u32>,
    height: Option<u32>,
)
    requires
        orig_w > 0,
        orig_h > 0,
    ensures
        spec_dimensions(orig_w, orig_h, width, height, true).0 <= orig_w,
        spec_dimensions(orig_w, orig_h, width, height, true).1 <= orig_h,
{
    let (w0, h0) = (orig_w as int, orig_h as int);
    match (width, height) {
        (Some(w), None) => {
            if w <= orig_w {
                let v = ((h0 * w as int) * 2 + w0) / (w0 * 2);
                assert(v <= h0) by (nonlinear_arith)
                    requires
                        v == ((h0 * w as int) * 2 + w0) / (w0 * 2),
                        0 <= w <= w0,
                        w0 > 0,
                        h0 > 0,
                ;
            }
        },
        (None, Some(h)) => {
            if h <= orig_h {
                let v = ((w0 * h as int) * 2 + h0) / (h0 * 2);
                assert(v <= w0) by (nonlinear_arith)
                    requires
                        v == ((w0 * h as int) * 2 + h0) / (h0 * 2),
                        0 <= h <= h0,
                        h0 > 0,
                        w0 > 0,
                ;
            }
        },
        _ => {},
    }
}

/// Resizing to a requested width keeps the aspect ratio: the height is the
/// original height scaled by the same factor, rounded to the nearest pixel
/// (within half a pixel). Heights that round below one pixel or beyond
/// `u32::MAX` are clamped and left out.
pub proof fn law_width_keeps_aspect_ratio(orig_w: u32, orig_h: u32, w: u32, no_upscale: bool)
    requires
        orig_w > 0,
        !(no_upscale && w > orig_w),
        1 <= ((orig_h as int) * (w as int) * 2 + orig_w as int) / ((orig_w as int) * 2) <= u32::MAX,
    ensures
        spec_dimensions(orig_w, orig_h, Some(w), None, no_upscale).0 == w,
        ({
            let h = spec_dimensions(orig_w, orig_h, Some(w), None, no_upscale).1 as int;
            let d = h * (orig_w as int) - (orig_h as int) * (w as int);
            -(orig_w as int) <= 2 * d <= orig_w as int
        }),
{
    let (w0, h0, w1) = (orig_w as int, orig_h as int, w as int);
    let v = (h0 * w1 * 2 + w0) / (w0 * 2);
    assert(spec_dimensions(orig_w, orig_h, Some(w), None, no_upscale).1 as int == v);
    assert(-w0 <= 2 * (v * w0 - h0 * w1) <= w0) by (nonlinear_arith)
        requires
            v == (h0 * w1 * 2 + w0) / (w0 * 2),
            w0 > 0,
    ;
}

/// Resizing to a requested height keeps the aspect ratio: the width is the
/// original width scaled by the same factor, rounded to the nearest pixel
/// (within half a pixel). Widths that round below one pixel or beyond
/// `u32::MAX` are clamped and left out.
pub proof fn law_height_keeps_aspect_ratio(orig_w: u32, orig_h: u32, h: u32, no_upscale: bool)
    requires
        orig_h > 0,
        !(no_upscale && h > orig_h),
        1 <= ((orig_w as int) * (h as int) * 2 + orig_h as int) / ((orig_h as int) * 2) <= u32::MAX,
    ensures
        spec_dimensions(orig_w, orig_h, None, Some(h), no_upscale).1 == h,
        ({
            let w = spec_dimensions(orig_w, orig_h, None, Some(h), no_upscale).0 as int;
            let d = w * (orig_h as int) - (orig_w as int) * (h as int);
            -(orig_h as int) <= 2 * d <= orig_h as int
        }),
{
    let (w0, h0, h1) = (orig_w as int, orig_h as int, h as int);
    let v = (w0 * h1 * 2 + h0) / (h0 * 2);
    assert(spec_dimensions(orig_w, orig_h, None, Some(h), no_upscale).0 as int == v);
    assert(-h0 <= 2 * (v * h0 - w0 * h1) <= h0) by (nonlinear_arith)
        requires
            v == (w0 * h1 * 2 + h0) / (h0 * 2),
            h0 > 0,
    ;
}

/// The target chosen when neither `--to` nor the output path names one is
/// always a format that the target list accepts.
pub proof fn law_default_targets_are_formats(input_ext: Option<Seq<char>>)
    ensures
        spec_parse_format(default_target(input_ext)) is Some,
{
    law_format_name_round_trip(Format::Favicon);
    law_format_name_round_trip(Format::Png);
    law_format_name_round_trip(Format::Docx);
    law_format_name_round_trip(Format::Webp);
    reveal_strlit("favicon");
    reveal_strlit("png");
    reveal_strlit("docx");
    reveal_strlit("webp");
    assert(format_name(Format::Favicon) =~= "favicon"@);
    assert(format_name(Format::Png) =~= "png"@);
    assert(format_name(Format::Docx) =~= "docx"@);
    assert(format_name(Format::Webp) =~= "webp"@);
}

/// Names joined by a comma and a space, as the format lists of the supported
/// conversions are written.
pub open spec fn name_list(names: Seq<Seq<char>>) -> Seq<char>
    decreases names.len(),
{
    if names.len() == 0 {
        Seq::empty()
    } else if names.len() == 1 {
        names[0]
    } else {
        names[0] + seq![',', ' '] + name_list(names.drop_first())
    }
}

/// `s` is a list of one or more names joined by a comma and a space, each of
/// which names a format. (A format name holds neither comma nor space, so the
/// names are the pieces between the separators.)
pub open spec fn lists_formats(s: Seq<char>) -> bool {
    exists|names: Seq<Seq<char>>|
        #![trigger name_list(names)]
        name_list(names) == s && names.len() > 0 && forall|j: int|
            0 <= j < names.len() ==> spec_parse_format(#[trigger] names[j]) is Some
}

proof fn lemma_single_name_lists(f: Format)
    ensures
        lists_formats(format_name(f)),
{
    law_format_name_round_trip(f);
    let w = seq![format_name(f)];
    assert(name_list(w) == format_name(f));
}

proof fn lemma_jpeg_alias_parses()
    ensures
        spec_parse_format(jpeg_alias()) is Some,
{
    let n = jpeg_alias();
    assert(fold_char(n[0]) == n[0]);
    assert(fold_char(n[1]) == n[1]);
    assert(fold_char(n[2]) == n[2]);
    assert(fold_char(n[3]) == n[3]);
    assert(folds_to(n, jpeg_alias()));
}

proof fn lemma_image_sources_list()
    ensures
        lists_formats("svg, png, jpg, jpeg, webp, avif"@),
{
    let w = seq![
        format_name(Format::Svg),
        format_name(Format::Png),
        format_name(Format::Jpg),
        jpeg_alias(),
        format_name(Format::Webp),
        format_name(Format::Avif),
    ];
    reveal_with_fuel(name_list, 7);
    reveal_strlit("svg, png, jpg, jpeg, webp, avif");
    assert(name_list(w) =~= "svg, png, jpg, jpeg, webp, avif"@);
    law_format_name_round_trip(Format::Svg);
    law_format_name_round_trip(Format::Png);
    law_format_name_round_trip(Format::Jpg);
    law_format_name_round_trip(Format::Webp);
    law_format_name_round_trip(Format::Avif);
    lemma_jpeg_alias_parses();
    assert(forall|j: int| 0 <= j < w.len() ==> spec_parse_format(#[trigger] w[j]) is Some);
}

proof fn lemma_pdf_targets_list()
    ensures
        lists_formats("png, jpg, jpeg, webp, avif"@),
{
    let w = seq![
        format_name(Format::Png),
        format_name(Format::Jpg),
        jpeg_alias(),
        format_name(Format::Webp),
        format_name(Format::Avif),
    ];
    reveal_with_fuel(name_list, 6);
    reveal_strlit("png, jpg, jpeg, webp, avif");
    assert(name_list(w) =~= "png, jpg, jpeg, webp, avif"@);
    law_format_name_round_trip(Format::Png);
    law_format_name_round_trip(Format::Jpg);
    law_format_name_round_trip(Format::Webp);
    law_format_name_round_trip(Format::Avif);
    lemma_jpeg_alias_parses();
    assert(forall|j: int| 0 <= j < w.len() ==> spec_parse_format(#[trigger] w[j]) is Some);
}

proof fn lemma_source_list(i: int)
    requires
        0 <= i < 8,
    ensures
        lists_formats(capability_table()[i].0),
{
    let t = capability_table();
    if i < 6 {
        lemma_image_sources_list();
        assert(t[i].0 == "svg, png, jpg, jpeg, webp, avif"@);
    } else if i == 6 {
        lemma_single_name_lists(Format::Pdf);
        reveal_strlit("pdf");
        assert(format_name(Format::Pdf) =~= "pdf"@);
        assert(t[i].0 == "pdf"@);
    } else {
        lemma_single_name_lists(Format::Md);
        reveal_strlit("md");
        assert(format_name(Format::Md) =~= "md"@);
        assert(t[i].0 == "md"@);
    }
}

proof fn lemma_single_target(i: int, f: Format)
    requires
        0 <= i < 8,
        capability_table()[i].1 == format_name(f),
    ensures
        lists_formats(capability_table()[i].1),
{
    lemma_single_name_lists(f);
}

proof fn lemma_target_list(i: int)
    requires
        0 <= i < 8,
        i != 5,
    ensures
        lists_formats(capability_table()[i].1),
        capability_table()[i].1 != "both"@,
{
    let t = capability_table();
    reveal_strlit("both");
    if i == 0 {
        reveal_strlit("favicon");
        assert(t[i].1 =~= format_name(Format::Favicon));
        lemma_single_target(i, Format::Favicon);
    } else if i == 1 {
        reveal_strlit("png");
        assert(t[i].1 =~= format_name(Format::Png));
        lemma_single_target(i, Format::Png);
    } else if i == 2 {
        reveal_strlit("jpg");
        assert(t[i].1 =~= format_name(Format::Jpg));
        lemma_single_target(i, Format::Jpg);
    } else if i == 3 {
        reveal_strlit("webp");
        assert(t[i].1 =~= format_name(Format::Webp));
        lemma_single_target(i, Format::Webp);
        assert(t[i].1[0] != "both"@[0]);
    } else if i == 4 {
        reveal_strlit("avif");
        assert(t[i].1 =~= format_name(Format::Avif));
        lemma_single_target(i, Format::Avif);
        assert(t[i].1[0] != "both"@[0]);
    } else if i == 6 {
        lemma_pdf_targets_list();
        reveal_strlit("png, jpg, jpeg, webp, avif");
        assert(t[i].1 == "png, jpg, jpeg, webp, avif"@);
    } else {
        reveal_strlit("docx");
        assert(t[i].1 =~= format_name(Format::Docx));
        lemma_single_target(i, Format::Docx);
        assert(t[i].1[0] != "both"@[0]);
    }
}

proof fn lemma_both_is_no_format()
    ensures
        spec_parse_format("both"@) is None,
{
    reveal_strlit("both");
    let b = "both"@;
    assert(fold_char(b[0]) == 'b');
    assert(fold_char(b[1]) == 'o');
    assert(fold_char(b[2]) == 't');
    assert(fold_char(b[3]) == 'h');
    assert(!folds_to(b, format_name(Format::Docx)));
    assert(!folds_to(b, format_name(Format::Webp)));
    assert(!folds_to(b, format_name(Format::Avif)));
    assert(!folds_to(b, jpeg_alias()));
}

/// In the table of supported conversions, every name in a source list names
/// a format, and so does every name in a target list, but for `both`: that
/// target stands alone, names no format, and is only the target of the
/// conversion to WebP and AVIF together.
pub proof fn law_listed_names_are_formats()
    ensures
        forall|i: int| 0 <= i < capability_table().len() ==> lists_formats(#[trigger] capability_table()[i].0),
        forall|i: int|
            0 <= i < capability_table().len() && capability_table()[i].1 != "both"@ ==> lists_formats(
                #[trigger] capability_table()[i].1,
            ),
        forall|i: int|
            0 <= i < capability_table().len() && #[trigger] capability_table()[i].1 == "both"@ ==> i == 5,
        capability_table()[5].1 == "both"@,
        capability_table()[5].2 == "Convert images to both WebP and AVIF formats"@,
        spec_parse_format("both"@) is None,
{
    assert(capability_table().len() == 8);
    assert forall|i: int| 0 <= i < capability_table().len() implies lists_formats(
        #[trigger] capability_table()[i].0,
    ) by {
        lemma_source_list(i);
    }
    assert forall|i: int| 0 <= i < capability_table().len() && i != 5 implies lists_formats(
        #[trigger] capability_table()[i].1,
    ) && capability_table()[i].1 != "both"@ by {
        lemma_target_list(i);
    }
    lemma_both_is_no_format();
}

/// The ICO file of a favicon holds images of 16, 32 and 48 pixels, whether
/// alone or in a package, when the PNGs are rendered at their sizes (as
/// `raster_favicon_pngs` renders them); `favicon_files` records those sizes
/// in the ICO directory.
pub proof fn law_favicon_ico_sizes(pngs: Seq<Seq<u8>>, package: bool)
    requires
        pngs.len() == render_sizes(package).len(),
        forall|i: int|
            0 <= i < pngs.len() ==> png_header(
                #[trigger] pngs[i],
                (render_sizes(package)[i], render_sizes(package)[i]),
            ),
    ensures
        ico_images(pngs, package).map_values(|b: Seq<u8>| png_size(b)) == seq![
            (16u32, 16u32),
            (32u32, 32u32),
            (48u32, 48u32),
        ],
{
    let rs = render_sizes(package);
    assert forall|i: int| 0 <= i < pngs.len() implies png_size(#[trigger] pngs[i]) == (rs[i], rs[i]) by {
        lemma_png_header_size(pngs[i], (rs[i], rs[i]));
    }
    if package {
        assert(png_size(pngs[0]) == (rs[0], rs[0]));
        assert(png_size(pngs[1]) == (rs[1], rs[1]));
        assert(png_size(pngs[5]) == (rs[5], rs[5]));
    } else {
        assert(png_size(pngs[0]) == (rs[0], rs[0]));
        assert(png_size(pngs[1]) == (rs[1], rs[1]));
        assert(png_size(pngs[2]) == (rs[2], rs[2]));
    }
    assert(ico_images(pngs, package).map_values(|b: Seq<u8>| png_size(b)) =~= seq![
        (16u32, 16u32),
        (32u32, 32u32),
        (48u32, 48u32),
    ]);
}

/// Every error exits with one of the documented failure codes, 2 to 6; 0 and
/// 1 are left to success and to batches with failed tasks.
pub proof fn law_error_exit_codes(e: MartiniError)
    ensures
        2 <= spec_exit_code(e) <= 6,
{
}

/// Every task of a batch report is counted exactly once: as successful,
/// skipped or failed.
pub proof fn law_statuses_partition_tasks(tasks: Seq<TaskResult>)
    ensures
        count_status(tasks, TaskStatus::Success) + count_status(tasks, TaskStatus::Skipped)
            + count_status(tasks, TaskStatus::Failed) == tasks.len(),
    decreases tasks.len(),
{
    if tasks.len() > 0 {
        law_statuses_partition_tasks(tasks.drop_last());
    }
}

proof fn lemma_step_appends(s: MdStateView, e: MdEventView)
    ensures
        s.doc.len() <= step(s, e).doc.len(),
        step(s, e).doc.subrange(0, s.doc.len() as int) =~= s.doc,
{
}

/// The Markdown layout only ever appends to the document: once a block is
/// finished, later events neither change nor remove it.
pub proof fn law_layout_only_appends(s: MdStateView, events: Seq<MdEventView>)
    ensures
        s.doc.len() <= run_events(s, events).doc.len(),
        run_events(s, events).doc.subrange(0, s.doc.len() as int) == s.doc,
    decreases events.len(),
{
    if events.len() > 0 {
        let before = run_events(s, events.drop_last());
        law_layout_only_appends(s, events.drop_last());
        lemma_step_appends(before, events.last());
        let after = run_events(s, events).doc;
        assert(after.subrange(0, s.doc.len() as int) =~= after.subrange(0, before.doc.len() as int).subrange(
            0,
            s.doc.len() as int,
        ));
    }
}

/// The pages of one list followed by the pages of another.
pub open spec fn combined_selection(
    first: Result<Set<int>, Seq<char>>,
    second: Result<Set<int>, Seq<char>>,
) -> Result<Set<int>, Seq<char>> {
    match first {
        Err(e) => Err(e),
        Ok(s) => match second {
            Err(e) => Err(e),
            Ok(t) => Ok(s.union(t)),
        },
    }
}

proof fn lemma_split_on_concat(a: Seq<char>, b: Seq<char>, sep: char)
    ensures
        split_on(a + seq![sep] + b, sep) == split_on(a, sep) + split_on(b, sep),
    decreases b.len(),
{
    let x = a + seq![sep] + b;
    if b.len() == 0 {
        assert(x.drop_last() =~= a);
        assert(x.last() == sep);
        assert(split_on(x, sep) =~= split_on(a, sep) + split_on(b, sep));
    } else {
        assert(x.drop_last() =~= a + seq![sep] + b.drop_last());
        lemma_split_on_concat(a, b.drop_last(), sep);
        lemma_split_on_nonempty(b.drop_last(), sep);
        lemma_split_on_nonempty(a, sep);
        let r1 = split_on(a, sep);
        let r2 = split_on(b.drop_last(), sep);
        assert(x.last() == b.last());
        if b.last() == sep {
            assert(split_on(x, sep) =~= r1 + r2.push(Seq::empty()));
        } else {
            let r = r1 + r2;
            assert(r.last() == r2.last());
            assert(r.update(r.len() - 1, r.last().push(b.last())) =~= r1 + r2.update(
                r2.len() - 1,
                r2.last().push(b.last()),
            ));
        }
    }
}

proof fn lemma_pages_of_parts_concat(p1: Seq<Seq<char>>, p2: Seq<Seq<char>>, total: int)
    ensures
        pages_of_parts(p1 + p2, total) == combined_selection(
            pages_of_parts(p1, total),
            pages_of_parts(p2, total),
        ),
    decreases p2.len(),
{
    if p2.len() == 0 {
        assert(p1 + p2 =~= p1);
        match pages_of_parts(p1, total) {
            Ok(s) => {
                assert(s.union(Set::empty()) =~= s);
            },
            Err(_) => {},
        }
    } else {
        assert((p1 + p2).drop_last() =~= p1 + p2.drop_last());
        assert((p1 + p2).last() == p2.last());
        lemma_pages_of_parts_concat(p1, p2.drop_last(), total);
        match pages_of_parts(p1, total) {
            Ok(s) => match pages_of_parts(p2.drop_last(), total) {
                Ok(t) => match crate::pages::part_pages(p2.last(), total) {
                    Ok(u) => {
                        assert(s.union(t).union(u) =~= s.union(t.union(u)));
                    },
                    Err(_) => {},
                },
                Err(_) => {},
            },
            Err(_) => {},
        }
    }
}

/// Joining two page lists with a comma selects the pages of both; when either
/// is refused, the first refusal is reported.
pub proof fn law_page_lists_concatenate(a: Seq<char>, b: Seq<char>, total: int)
    ensures
        spec_parse_pages(a + seq![','] + b, total) == combined_selection(
            spec_parse_pages(a, total),
            spec_parse_pages(b, total),
        ),
{
    lemma_split_on_concat(a, b, ',');
    lemma_pages_of_parts_concat(split_on(a, ','), split_on(b, ','), total);
}

/// Text read inside an emphasis element is italic: in a state with an open
/// paragraph, outside a code block and a link, the text that follows the start
/// of an emphasis adds a run of that text that is italic, that stays italic in
/// the finished paragraph, and whose DOCX run is italic.
pub proof fn law_emphasis_is_italic(s: MdStateView, t: Seq<char>)
    requires
        s.para is Some,
        !s.in_code_block,
        s.link is None,
    ensures
        ({
            let after = step(step_start(s, MdTagView::Emphasis), MdEventView::Text(t));
            &&& after.para matches Some(p)
            &&& p.elements.len() == s.para.unwrap().elements.len() + 1
            &&& p.elements.last() matches ParaItemView::Run(r)
            &&& r.text == Some(t)
            &&& r.italic
            &&& run_of(r).style.italic
            &&& build_paragraph_view(p).items.last() matches ParaItemView::Run(fr)
            &&& fr.italic
        }),
{
    let after = step(step_start(s, MdTagView::Emphasis), MdEventView::Text(t));
    let p = after.para.unwrap();
    assert(build_paragraph_view(p).items.last() == crate::markdown::styled_item(
        p.elements.last(),
        p.heading_level,
        p.is_blockquote,
    ));
}

/// Standardising keeps the alpha channel of every colour type that has one
/// (gray or colour, 8 or 16 bits): such images become 8-bit RGBA. Images
/// without alpha become 8-bit RGB.
pub proof fn law_standardising_keeps_alpha(c: ColorKind)
    ensures
        (c is La8 || c is La16 || c is Rgba8 || c is Rgba16) ==> spec_pixel_layout(c) == PixelLayout::Rgba8
            && standard_color(c) == ColorKind::Rgba8,
        (c is L8 || c is L16 || c is Rgb8 || c is Rgb16 || c is Rgb32F) ==> spec_pixel_layout(c)
            == PixelLayout::Rgb8 && standard_color(c) == ColorKind::Rgb8,
        standard_color(c) is Rgba8 || standard_color(c) is Rgb8,
{
}

/// Without `--to`, an output path without an extension, or a directory, tells
/// nothing of the target: the target is the one chosen with no output path at
/// all, the default for the input (favicon for SVG, png for PDF, docx for
/// Markdown, webp otherwise).
pub proof fn law_output_without_extension_keeps_default(
    is_dir: bool,
    out_ext: Option<Seq<char>>,
    input_ext: Option<Seq<char>>,
)
    ensures
        spec_resolve_target(None, Some((is_dir, None)), input_ext) == spec_resolve_target(None, None, input_ext),
        spec_resolve_target(None, Some((true, out_ext)), input_ext) == spec_resolve_target(None, None, input_ext),
        spec_resolve_target(None, Some((is_dir, None)), input_ext) == default_target(input_ext),
        input_ext matches Some(e) && lowercase(e) == "svg"@ ==> spec_resolve_target(None, Some((is_dir, None)), input_ext)
            == "favicon"@,
        input_ext matches Some(e) && lowercase(e) == "pdf"@ ==> spec_resolve_target(None, Some((is_dir, None)), input_ext)
            == "png"@,
        input_ext matches Some(e) && (lowercase(e) == "md"@ || lowercase(e) == "markdown"@) ==> spec_resolve_target(
            None,
            Some((is_dir, None)),
            input_ext,
        ) == "docx"@,
{
    reveal_strlit("svg");
    reveal_strlit("pdf");
    reveal_strlit("md");
    reveal_strlit("markdown");
    assert("pdf"@ != "svg"@) by {
        assert("pdf"@[0] != "svg"@[0]);
    }
    assert("md"@ != "svg"@ && "md"@ != "pdf"@) by {
        assert("md"@.len() != "svg"@.len());
    }
    assert("markdown"@ != "svg"@ && "markdown"@ != "pdf"@) by {
        assert("markdown"@.len() != "svg"@.len());
    }
}

/// The image and PDF formats are read from exactly their names: `png`; `jpg`
/// or `jpeg`; `webp`; `avif`; `svg`; `pdf` (compared without regard to case).
proof fn lemma_image_names(x: Seq<char>)
    ensures
        spec_parse_format(x) == Some(Format::Png) <==> folds_to(x, "png"@),
        spec_parse_format(x) == Some(Format::Jpg) <==> (folds_to(x, "jpg"@) || folds_to(x, "jpeg"@)),
        spec_parse_format(x) == Some(Format::Webp) <==> folds_to(x, "webp"@),
        spec_parse_format(x) == Some(Format::Avif) <==> folds_to(x, "avif"@),
        spec_parse_format(x) == Some(Format::Svg) <==> folds_to(x, "svg"@),
        spec_parse_format(x) == Some(Format::Pdf) <==> folds_to(x, "pdf"@),
{
    reveal_strlit("png");
    reveal_strlit("jpg");
    reveal_strlit("jpeg");
    reveal_strlit("webp");
    reveal_strlit("avif");
    reveal_strlit("svg");
    reveal_strlit("pdf");
    assert(format_name(Format::Png) =~= "png"@);
    assert(format_name(Format::Jpg) =~= "jpg"@);
    assert(jpeg_alias() =~= "jpeg"@);
    assert(format_name(Format::Webp) =~= "webp"@);
    assert(format_name(Format::Avif) =~= "avif"@);
    assert(format_name(Format::Svg) =~= "svg"@);
    assert(format_name(Format::Pdf) =~= "pdf"@);
    if x.len() > 0 {
        let c0 = fold_char(x[0]);
    }
    if x.len() > 1 {
        let c1 = fold_char(x[1]);
    }
    if x.len() > 2 {
        let c2 = fold_char(x[2]);
    }
    if x.len() > 3 {
        let c3 = fold_char(x[3]);
    }
}

/// A source-format filter that names an image or PDF format selects exactly
/// the files whose extension names that same format; any other filter (such
/// as `auto`) selects the PNG and JPEG files.
pub proof fn law_filter_selects_its_format(ext: Seq<char>, filter: Seq<char>)
    ensures
        ({
            let selected = exists|i: int|
                0 <= i < source_extensions(filter).len() && folds_to(ext, #[trigger] source_extensions(filter)[i]);
            let f = spec_parse_format(filter);
            &&& (f matches Some(g) && (g is Png || g is Jpg || g is Webp || g is Avif || g is Svg || g is Pdf)) ==> (
            selected <==> spec_parse_format(ext) == f)
            &&& !(f matches Some(g) && (g is Png || g is Jpg || g is Webp || g is Avif || g is Svg || g is Pdf)) ==> (
            selected <==> (spec_parse_format(ext) == Some(Format::Png) || spec_parse_format(ext) == Some(
                Format::Jpg,
            )))
        }),
{
    lemma_image_names(ext);
    lemma_image_names(filter);
    let exts = source_extensions(filter);
    if exts.len() > 0 {
        let a = folds_to(ext, exts[0]);
    }
    if exts.len() > 1 {
        let b = folds_to(ext, exts[1]);
    }
    if exts.len() > 2 {
        let c = folds_to(ext, exts[2]);
    }
}

/// The options that the listing names as command-line flags when a
/// capability has them.
pub open spec fn listed_flag(name: Seq<char>) -> bool {
    name == "quality"@ || name == "lossless"@ || name == "package"@ || name == "pages"@ || name == "dpi"@
}

proof fn lemma_contains_at(s: Seq<char>, n: Seq<char>, k: int)
    requires
        0 <= k,
        k + n.len() <= s.len(),
        s.subrange(k, k + n.len()) =~= n,
    ensures
        contains_text(s, n),
{
}

proof fn lemma_contains_in_tail(a: Seq<char>, b: Seq<char>, n: Seq<char>)
    requires
        contains_text(b, n),
    ensures
        contains_text(a + b, n),
{
    let k = choose|k: int| 0 <= k && k + n.len() <= b.len() && #[trigger] b.subrange(k, k + n.len()) == n;
    assert((a + b).subrange(a.len() + k, a.len() + k + n.len()) =~= b.subrange(k, k + n.len()));
    lemma_contains_at(a + b, n, a.len() + k);
}

proof fn lemma_not_flags()
    ensures
        !listed_flag("overwrite"@),
        !listed_flag("delete_original"@),
        !listed_flag("recursive"@),
        !listed_flag("workers"@),
{
    reveal_strlit("overwrite");
    reveal_strlit("delete_original");
    reveal_strlit("recursive");
    reveal_strlit("workers");
    reveal_strlit("quality");
    reveal_strlit("lossless");
    reveal_strlit("package");
    reveal_strlit("pages");
    reveal_strlit("dpi");
    assert("workers"@[0] != "quality"@[0] && "workers"@[0] != "package"@[0]);
    assert("overwrite"@.len() == 9 && "delete_original"@.len() == 15);
    assert("quality"@.len() == 7 && "lossless"@.len() == 8 && "package"@.len() == 7 && "pages"@.len() == 5
        && "dpi"@.len() == 3);
}

/// The flags each options text of the listing names.
proof fn lemma_options_texts()
    ensures
        contains_text(". Options: --package"@, "--"@ + "package"@),
        contains_text(". Options: --quality"@, "--"@ + "quality"@),
        contains_text(". Options: --quality, --lossless"@, "--"@ + "quality"@),
        contains_text(". Options: --quality, --lossless"@, "--"@ + "lossless"@),
        contains_text(". Options: --pages, --dpi, --quality, --lossless"@, "--"@ + "pages"@),
        contains_text(". Options: --pages, --dpi, --quality, --lossless"@, "--"@ + "dpi"@),
        contains_text(". Options: --pages, --dpi, --quality, --lossless"@, "--"@ + "quality"@),
        contains_text(". Options: --pages, --dpi, --quality, --lossless"@, "--"@ + "lossless"@),
{
    reveal_strlit(". Options: --package");
    reveal_strlit(". Options: --quality");
    reveal_strlit(". Options: --quality, --lossless");
    reveal_strlit(". Options: --pages, --dpi, --quality, --lossless");
    reveal_strlit("--");
    reveal_strlit("package");
    reveal_strlit("quality");
    reveal_strlit("lossless");
    reveal_strlit("pages");
    reveal_strlit("dpi");
    lemma_contains_at(". Options: --package"@, "--"@ + "package"@, 11);
    lemma_contains_at(". Options: --quality"@, "--"@ + "quality"@, 11);
    lemma_contains_at(". Options: --quality, --lossless"@, "--"@ + "quality"@, 11);
    lemma_contains_at(". Options: --quality, --lossless"@, "--"@ + "lossless"@, 22);
    lemma_contains_at(". Options: --pages, --dpi, --quality, --lossless"@, "--"@ + "pages"@, 11);
    lemma_contains_at(". Options: --pages, --dpi, --quality, --lossless"@, "--"@ + "dpi"@, 20);
    lemma_contains_at(". Options: --pages, --dpi, --quality, --lossless"@, "--"@ + "quality"@, 27);
    lemma_contains_at(". Options: --pages, --dpi, --quality, --lossless"@, "--"@ + "lossless"@, 38);
}

proof fn lemma_table_options(i: int)
    requires
        0 <= i < 8,
    ensures
        listed_options(capability_table()[i].0, capability_table()[i].1) == (if i == 0 {
            ". Options: --package"@
        } else if i == 1 {
            ""@
        } else if i == 2 {
            ". Options: --quality"@
        } else if i <= 5 {
            ". Options: --quality, --lossless"@
        } else if i == 6 {
            ". Options: --pages, --dpi, --quality, --lossless"@
        } else {
            ". Options: --overwrite"@
        }),
{
    let t = capability_table();
    reveal_strlit("favicon");
    reveal_strlit("png");
    reveal_strlit("jpg");
    reveal_strlit("webp");
    reveal_strlit("avif");
    reveal_strlit("both");
    reveal_strlit("docx");
    reveal_strlit("png, jpg, jpeg, webp, avif");
    if i == 3 {
        assert(t[i].1 == "webp"@);
        assert("webp"@ != "favicon"@ && "webp"@ != "png"@ && "webp"@ != "jpg"@) by {
            assert("webp"@.len() == 4 && "favicon"@.len() == 7 && "png"@.len() == 3 && "jpg"@.len() == 3);
        }
    } else if i == 4 {
        assert(t[i].1 == "avif"@);
        assert("avif"@ != "favicon"@ && "avif"@ != "png"@ && "avif"@ != "jpg"@ && "avif"@ != "webp"@) by {
            assert("avif"@.len() == 4 && "favicon"@.len() == 7 && "png"@.len() == 3 && "jpg"@.len() == 3);
            assert("avif"@[0] != "webp"@[0]);
        }
    } else if i == 5 {
        assert(t[i].1 == "both"@);
        assert("both"@ != "favicon"@ && "both"@ != "png"@ && "both"@ != "jpg"@ && "both"@ != "webp"@ && "both"@
            != "avif"@) by {
            assert("both"@.len() == 4 && "favicon"@.len() == 7 && "png"@.len() == 3 && "jpg"@.len() == 3);
            assert("both"@[0] != "webp"@[0] && "both"@[0] != "avif"@[0]);
        }
    } else if i == 2 {
        assert(t[i].1 == "jpg"@);
        assert("jpg"@ != "favicon"@ && "jpg"@ != "png"@) by {
            assert("jpg"@.len() == 3 && "favicon"@.len() == 7);
            assert("jpg"@[0] != "png"@[0]);
        }
    } else if i == 1 {
        assert(t[i].1 == "png"@);
        assert("png"@ != "favicon"@) by {
            assert("png"@.len() == 3 && "favicon"@.len() == 7);
        }
    } else if i == 6 {
        assert(t[i].1 == "png, jpg, jpeg, webp, avif"@);
        assert(t[i].0 == "pdf"@);
        let l = "png, jpg, jpeg, webp, avif"@;
        assert(l != "favicon"@ && l != "png"@ && l != "jpg"@ && l != "webp"@ && l != "avif"@ && l != "both"@ && l
            != "docx"@) by {
            assert(l.len() == 26 && "favicon"@.len() == 7 && "png"@.len() == 3 && "jpg"@.len() == 3 && "webp"@.len()
                == 4 && "avif"@.len() == 4 && "both"@.len() == 4 && "docx"@.len() == 4);
        }
    } else if i == 7 {
        assert(t[i].1 == "docx"@);
        assert("docx"@ != "favicon"@ && "docx"@ != "png"@ && "docx"@ != "jpg"@ && "docx"@ != "webp"@ && "docx"@
            != "avif"@ && "docx"@ != "both"@) by {
            assert("docx"@.len() == 4 && "favicon"@.len() == 7 && "png"@.len() == 3 && "jpg"@.len() == 3);
            assert("docx"@[0] != "webp"@[0] && "docx"@[0] != "avif"@[0] && "docx"@[0] != "both"@[0]);
        }
    } else {
        assert(t[i].1 == "favicon"@);
    }
}

proof fn lemma_line_flags(i: int)
    requires
        0 <= i < 8,
    ensures
        forall|j: int|
            0 <= j < capability_table()[i].3.len() && listed_flag(#[trigger] capability_table()[i].3[j].0)
                ==> contains_text(listing_line(capability_table()[i]), "--"@ + capability_table()[i].3[j].0),
{
    let t = capability_table();
    let c = t[i];
    let x = "- "@ + crate::capability::listed_from(c.0) + " -> "@ + crate::capability::listed_to(c.1) + ": "@ + c.2;
    let opts = listed_options(c.0, c.1);
    assert(listing_line(c) == x + opts);
    lemma_table_options(i);
    lemma_options_texts();
    lemma_not_flags();
    reveal_strlit("quality");
    reveal_strlit("lossless");
    reveal_strlit("package");
    reveal_strlit("pages");
    reveal_strlit("dpi");
    assert forall|j: int|
        0 <= j < c.3.len() && listed_flag(#[trigger] c.3[j].0) implies contains_text(
        listing_line(c),
        "--"@ + c.3[j].0,
    ) by {
        let n = c.3[j].0;
        if n == "quality"@ || n == "lossless"@ || n == "package"@ || n == "pages"@ || n == "dpi"@ {
            assert(contains_text(opts, "--"@ + n));
            lemma_contains_in_tail(x, opts, "--"@ + n);
        }
    }
}

/// A line of the conversion listing names, as a command-line flag, every
/// option of its conversion among quality, lossless, package, pages and dpi:
/// the line holds `--` followed by the option's name.
pub proof fn law_listing_names_flag_options()
    ensures
        forall|i: int, j: int|
            0 <= i < capability_table().len() && 0 <= j < capability_table()[i].3.len() && listed_flag(
                #[trigger] capability_table()[i].3[j].0,
            ) ==> contains_text(listing_line(capability_table()[i]), "--"@ + capability_table()[i].3[j].0),
{
    assert(capability_table().len() == 8);
    assert forall|i: int, j: int|
        0 <= i < capability_table().len() && 0 <= j < capability_table()[i].3.len() && listed_flag(
            #[trigger] capability_table()[i].3[j].0,
        ) implies contains_text(listing_line(capability_table()[i]), "--"@ + capability_table()[i].3[j].0) by {
        lemma_line_flags(i);
    }
}

/// Strong and struck-through text are laid out bold and struck through, a
/// closed emphasis no longer makes text italic, and text inside a link is a
/// link to its target, blue and underlined: in a state with an open paragraph,
/// outside a code block and a link, with no open style.
pub proof fn law_inline_styles(s: MdStateView, t: Seq<char>, url: Seq<char>)
    requires
        s.para is Some,
        !s.in_code_block,
        s.link is None,
        !s.bold && !s.italic && !s.strikethrough,
    ensures
        step(step_start(s, MdTagView::Strong), MdEventView::Text(t)).para matches Some(p) && p.elements.last()
            matches ParaItemView::Run(r) && r.bold && !r.italic && !r.strike && r.text == Some(t),
        step(step_start(s, MdTagView::Strikethrough), MdEventView::Text(t)).para matches Some(p)
            && p.elements.last() matches ParaItemView::Run(r) && r.strike && !r.bold && !r.italic,
        step(
            crate::markdown::step_end(step_start(s, MdTagView::Emphasis), crate::markdown::MdTagEnd::Emphasis),
            MdEventView::Text(t),
        ).para matches Some(p) && p.elements.last() matches ParaItemView::Run(r) && !r.italic,
        step(step_start(s, MdTagView::Link(url)), MdEventView::Text(t)).para matches Some(p) && p.elements.last()
            matches ParaItemView::Link(u, r) && u == url && r.underline && r.color == Some(
            crate::markdown::RunColor::Link,
        ) && r.text == Some(t),
{
}

/// `--to` decides the target whatever the paths say; without it, an output
/// file named `.ico` or `.html` asks for a favicon, and an output file with
/// another extension asks for the format that extension names.
pub proof fn law_target_sources(
    to: Seq<char>,
    output: Option<(bool, Option<Seq<char>>)>,
    out_ext: Seq<char>,
    input_ext: Option<Seq<char>>,
)
    ensures
        spec_resolve_target(Some(to), output, input_ext) == to,
        lowercase(out_ext) == "ico"@ || lowercase(out_ext) == "html"@ ==> spec_resolve_target(
            None,
            Some((false, Some(out_ext))),
            input_ext,
        ) == "favicon"@,
        lowercase(out_ext) != "ico"@ && lowercase(out_ext) != "html"@ ==> spec_resolve_target(
            None,
            Some((false, Some(out_ext))),
            input_ext,
        ) == lowercase(out_ext),
{
}

} // verus!
