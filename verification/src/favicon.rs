//! Favicons: the PNGs they are made of, the ICO file, and the files of a
//! favicon package.

use vstd::prelude::*;
use vstd::slice::slice_to_vec;
use vstd::utf8::encode_utf8;
use crate::raster::Picture;
use crate::convert::{
    favicon_html_tags, favicon_ico_description, favicon_package_pngs, favicon_package_table,
    favicon_png_view, html_tags_text, manifest_text, web_manifest, EncodedFile,
};
use crate::error::MartiniError;
use crate::raster::{
    build_ico, ico_directory, ico_reads_png, image_encoding, png_color, png_header, png_size, png_sizes, resized,
    square_png, RasterFile,
};
use crate::text::owned;

verus! {

/// The edge lengths a favicon is rendered at, in order: the five PNGs of a
/// package and then the 48-pixel image of its ICO file; or, for a single ICO
/// file, its three images.
pub open spec fn render_sizes(package: bool) -> Seq<u32> {
    if package {
        seq![16u32, 32u32, 180u32, 192u32, 512u32, 48u32]
    } else {
        seq![16u32, 32u32, 48u32]
    }
}

pub fn favicon_render_sizes(package: bool) -> (r: Vec<u32>)
    ensures
        r@ == render_sizes(package),
{
    let mut r: Vec<u32> = Vec::new();
    r.push(16);
    r.push(32);
    if package {
        r.push(180);
        r.push(192);
        r.push(512);
    }
    r.push(48);
    proof {
        if package {
            assert(r@ =~= seq![16u32, 32u32, 180u32, 192u32, 512u32, 48u32]);
        } else {
            assert(r@ =~= seq![16u32, 32u32, 48u32]);
        }
    }
    r
}

pub open spec fn bytes_view(v: Seq<Vec<u8>>) -> Seq<Seq<u8>> {
    v.map_values(|b: Vec<u8>| b@)
}

/// The images of the ICO file, taken from the PNGs rendered at
/// `render_sizes(package)`: those of 16, 32 and 48 pixels.
pub open spec fn ico_images(pngs: Seq<Seq<u8>>, package: bool) -> Seq<Seq<u8>> {
    if package {
        seq![pngs[0], pngs[1], pngs[5]]
    } else {
        pngs
    }
}

fn copy_bytes(b: &Vec<u8>) -> (r: Vec<u8>)
    ensures
        r@ == b@,
{
    slice_to_vec(b.as_slice())
}

/// The PNGs that go into the ICO file of a favicon.
pub fn ico_sources(pngs: &Vec<Vec<u8>>, package: bool) -> (r: Vec<Vec<u8>>)
    requires
        pngs@.len() == render_sizes(package).len(),
    ensures
        bytes_view(r@) == ico_images(bytes_view(pngs@), package),
{
    let mut r: Vec<Vec<u8>> = Vec::new();
    if package {
        r.push(copy_bytes(&pngs[0]));
        r.push(copy_bytes(&pngs[1]));
        r.push(copy_bytes(&pngs[5]));
        proof {
            assert(bytes_view(r@) =~= ico_images(bytes_view(pngs@), package));
        }
    } else {
        let mut i: usize = 0;
        while i < pngs.len()
            invariant
                i <= pngs.len(),
                r@.len() == i,
                bytes_view(r@) =~= bytes_view(pngs@).take(i as int),
            decreases pngs.len() - i,
        {
            let ghost before = r@;
            r.push(copy_bytes(&pngs[i]));
            proof {
                assert(r@ =~= before.push(r@[i as int]));
                assert(bytes_view(r@) =~= bytes_view(before).push(pngs@[i as int]@));
                assert(bytes_view(pngs@).take(i + 1) =~= bytes_view(pngs@).take(i as int).push(
                    pngs@[i as int]@,
                ));
            }
            i = i + 1;
        }
        proof {
            assert(bytes_view(pngs@).take(pngs@.len() as int) =~= bytes_view(pngs@));
        }
    }
    r
}

/// The description of a package's web app manifest.
pub open spec fn manifest_description() -> Seq<char> {
    "Web App Manifest containing icons definitions"@
}

/// The description of a package's HTML tags.
pub open spec fn html_tags_description() -> Seq<char> {
    "HTML header tags to copy-paste into index.html"@
}

/// Where the ICO file stands among the files of a favicon.
pub open spec fn ico_index(package: bool) -> int {
    if package {
        5
    } else {
        0
    }
}

pub open spec fn file_view(f: EncodedFile) -> (Seq<char>, Seq<u8>, Seq<char>) {
    (f.path@, f.bytes@, f.description@)
}

/// The files of a favicon, each named relative to the directory it goes to,
/// given the PNGs rendered at `render_sizes(package)` and the ICO file: the
/// ICO file alone, under `ico_name`; or, for a package, the five PNGs, the ICO
/// file, the web app manifest `site.webmanifest` and the HTML tags
/// `favicon-tags.html`, in that order.
pub open spec fn favicon_files_view(
    pngs: Seq<Seq<u8>>,
    package: bool,
    ico_name: Seq<char>,
    ico: Seq<u8>,
) -> Seq<(Seq<char>, Seq<u8>, Seq<char>)> {
    let ico_file = (ico_name, ico, "Multi-resolution Windows favicon (16x16, 32x32, 48x48)"@);
    if package {
        Seq::new(5, |i: int| (favicon_package_table()[i].1, pngs[i], favicon_package_table()[i].2))
            + seq![
            ico_file,
            ("site.webmanifest"@, encode_utf8(manifest_text()), manifest_description()),
            ("favicon-tags.html"@, encode_utf8(html_tags_text()), html_tags_description()),
        ]
    } else {
        seq![ico_file]
    }
}

fn encoded_file(path: String, bytes: Vec<u8>, description: &str) -> (f: EncodedFile)
    ensures
        file_view(f) == (path@, bytes@, description@),
{
    EncodedFile { path, bytes, description: owned(description) }
}

/// The files of a favicon from the PNGs rendered at `render_sizes(package)`:
/// an ICO file of the 16-, 32- and 48-pixel PNGs under `ico_name`, and for a
/// package also the PNGs, the manifest and the HTML tags. Only the ICO file's
/// bytes come from the `ico` crate; a failure there is an I/O error.
pub fn favicon_files(pngs: Vec<Vec<u8>>, package: bool, ico_name: &str) -> (r: Result<
    Vec<EncodedFile>,
    MartiniError,
>)
    requires
        pngs@.len() == render_sizes(package).len(),
    ensures
        r matches Ok(files) ==> files@.map_values(|f: EncodedFile| file_view(f)) == favicon_files_view(
            bytes_view(pngs@),
            package,
            ico_name@,
            files@[ico_index(package)].bytes@,
        ) && ico_directory(
            files@[ico_index(package)].bytes@,
            ico_images(bytes_view(pngs@), package).map_values(|b: Seq<u8>| png_size(b)),
            true,
        ),
        r is Ok <==> forall|i: int|
            0 <= i < ico_images(bytes_view(pngs@), package).len() ==> ico_reads_png(
                #[trigger] ico_images(bytes_view(pngs@), package)[i],
            ),
        r matches Err(e) ==> e is Io,
{
    let sources = ico_sources(&pngs, package);
    proof {
        let imgs = ico_images(bytes_view(pngs@), package);
        assert(imgs.len() <= 3);
        assert forall|i: int| 0 <= i < sources@.len() implies sources@[i]@ == imgs[i] by {
            assert(bytes_view(sources@)[i] == sources@[i]@);
        }
        assert(png_sizes(sources@) =~= imgs.map_values(|b: Seq<u8>| png_size(b)));
    }
    let ico = match build_ico(&sources) {
        Ok(bytes) => bytes,
        Err(e) => {
            proof {
                let imgs = ico_images(bytes_view(pngs@), package);
                if forall|i: int| 0 <= i < imgs.len() ==> ico_reads_png(#[trigger] imgs[i]) {
                    assert forall|i: int| 0 <= i < sources@.len() implies ico_reads_png(
                        #[trigger] sources@[i]@,
                    ) by {
                        assert(sources@[i]@ == imgs[i]);
                    }
                }
            }
            return Err(e);
        },
    };
    let ghost ico_view = ico@;
    let ghost want = favicon_files_view(bytes_view(pngs@), package, ico_name@, ico_view);
    let mut files: Vec<EncodedFile> = Vec::new();
    if package {
        let table = favicon_package_pngs();
        proof {
            assert(table@.map_values(|p: crate::convert::FaviconPng| favicon_png_view(p)).len() == 5);
        }
        let mut i: usize = 0;
        while i < 5
            invariant
                i <= 5,
                pngs@.len() == 6,
                package,
                want == favicon_files_view(bytes_view(pngs@), package, ico_name@, ico_view),
                table@.map_values(|p: crate::convert::FaviconPng| favicon_png_view(p))
                    == favicon_package_table(),
                table@.len() == 5,
                files@.len() == i,
                forall|j: int| 0 <= j < i ==> file_view(#[trigger] files@[j]) == want[j],
            decreases 5 - i,
        {
            proof {
                assert(table@.map_values(|p: crate::convert::FaviconPng| favicon_png_view(p))[i as int]
                    == favicon_png_view(table@[i as int]));
                assert(bytes_view(pngs@)[i as int] == pngs@[i as int]@);
            }
            let f = encoded_file(owned(table[i].file_name.as_str()), copy_bytes(&pngs[i]), table[i].description.as_str());
            files.push(f);
            i = i + 1;
        }
        files.push(encoded_file(owned(ico_name), ico, favicon_ico_description()));
        let manifest = web_manifest();
        files.push(encoded_file(owned("site.webmanifest"), manifest.as_bytes_vec(), "Web App Manifest containing icons definitions"));
        let html = favicon_html_tags();
        files.push(encoded_file(owned("favicon-tags.html"), html.as_bytes_vec(), "HTML header tags to copy-paste into index.html"));
    } else {
        files.push(encoded_file(owned(ico_name), ico, favicon_ico_description()));
    }
    proof {
        assert(files@[ico_index(package)].bytes@ == ico_view);
        assert(files@.map_values(|f: EncodedFile| file_view(f)) =~= want);
    }
    Ok(files)
}

/// The PNGs of a favicon made from a raster image: the image resized to a
/// square of each edge length of `render_sizes(package)`, in order.
pub fn raster_favicon_pngs(img: &Picture, package: bool) -> (r: Result<Vec<Vec<u8>>, MartiniError>)
    ensures
        r matches Ok(pngs) ==> pngs@.len() == render_sizes(package).len() && forall|i: int|
            0 <= i < pngs@.len() ==> png_header(
                #[trigger] pngs@[i]@,
                (render_sizes(package)[i], render_sizes(package)[i]),
            ) && pngs@[i]@ == image_encoding(
                RasterFile::Png,
                resized(img.model(), render_sizes(package)[i], render_sizes(package)[i]),
            ),
        png_color(img.color_kind()) ==> r is Ok,
        r matches Err(e) ==> e is Image,
{
    let sizes = favicon_render_sizes(package);
    let mut pngs: Vec<Vec<u8>> = Vec::new();
    let mut i: usize = 0;
    while i < sizes.len()
        invariant
            i <= sizes.len(),
            sizes@ == render_sizes(package),
            pngs@.len() == i,
            forall|j: int| 0 <= j < i ==> png_header(#[trigger] pngs@[j]@, (sizes@[j], sizes@[j])) && pngs@[j]@
                == image_encoding(RasterFile::Png, resized(img.model(), sizes@[j], sizes@[j])),
            png_color(img.color_kind()) ==> forall|j: int| 0 <= j < sizes@.len() ==> sizes@[j] > 0,
        decreases sizes.len() - i,
    {
        match square_png(img, sizes[i]) {
            Ok(png) => pngs.push(png),
            Err(e) => return Err(e),
        }
        i = i + 1;
    }
    Ok(pngs)
}

} // verus!
