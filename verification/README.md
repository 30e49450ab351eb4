# martini

A command-line format converter (SVG, PNG, JPEG, WebP, AVIF, favicons, PDF
pages, Markdown to DOCX) whose decisions and data handling are verified with
Verus.

## Layout

- `src/` — the verified library.
  - `format.rs`, `error.rs`: format names and parsing; errors, their messages
    and exit codes.
  - `cli.rs`: the command line's decisions — target and source formats, glob
    patterns, where outputs go, when an input is deleted.
  - `convert.rs`, `favicon.rs`, `pixels.rs`, `pages.rs`: conversion routing,
    image plans, favicon files, pixel arithmetic and resizing, PDF page lists.
  - `raster.rs`: images through the `image` and `ico` crates.
  - `svg.rs`: SVG documents read with `usvg`.
  - `markdown.rs`, `markdown_parse.rs`, `word.rs`, `md_conv.rs`: Markdown
    read with `pulldown-cmark`, laid out by a verified state machine and
    written with `docx-rs`.
  - `batch.rs`, `ui.rs`, `capability.rs`: batch bookkeeping, report figures
    and sizes, the list of supported conversions.
  - `laws.rs`: properties that relate several values or calls.
  - `text.rs`: text helpers (case folding, Unicode trimming, splitting,
    decimal numbers).
- `app/` — the binary: argument parsing, logging, the file system, rayon,
  progress bars, and the floating-point work (SVG rendering with resvg, WebP
  and AVIF encoding, PDF rendering with PDFium).
- `tests/` — tests of the library.
