//! Verified core of the martini format converter: format names, conversion
//! planning, page selection, pixel and size arithmetic, markdown layout and
//! batch bookkeeping.

pub mod text;
pub mod format;
pub mod error;
pub mod ui;
pub mod capability;
pub mod pages;
pub mod pixels;
pub mod convert;
pub mod cli;
pub mod batch;
pub mod markdown;
pub mod markdown_parse;
pub mod word;
pub mod raster;
pub mod svg;
pub mod favicon;
pub mod md_conv;
pub mod laws;
