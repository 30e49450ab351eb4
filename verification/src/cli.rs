//! The command line: its arguments, and the decisions that turn them into
//! conversions.

use vstd::prelude::*;
use crate::convert::{is_unsupported, OutputFileMetadata};
use crate::error::MartiniError;
use crate::format::{spec_parse_format, Format};
use crate::text::{
    chars_of, contains_str, contains_text, folds_to, folds_to_name, lowercase, owned, same_text,
    to_lowercase,
};

verus! {

/// The parsed command line.
#[derive(Debug, Clone)]
pub struct CliArgs {
    /// Log at debug level.
    pub verbose: bool,
    /// Log nothing but the results.
    pub quiet: bool,
    /// Print results and errors as JSON.
    pub json: bool,
    pub command: Commands,
}

/// The subcommands.
#[derive(Debug, Clone)]
pub enum Commands {
    /// Convert a file, a directory or the files a glob pattern matches.
    Convert {
        from: String,
        to: Option<String>,
        input: String,
        output: Option<String>,
        package: bool,
        quality: u8,
        lossless: bool,
        recursive: bool,
        delete_original: bool,
        overwrite: bool,
        workers: Option<usize>,
        pages: Option<String>,
        dpi: u16,
        width: Option<u32>,
        height: Option<u32>,
        no_upscale: bool,
    },
    /// List the supported conversions.
    ListFormats,
}

/// How much is logged.
#[derive(Debug, Clone, Copy, PartialEq, Eq, Structural)]
pub enum LogLevel {
    Debug,
    Info,
}

/// No logging when quiet, debug logging when verbose, info logging otherwise.
pub fn log_level(quiet: bool, verbose: bool) -> (r: Option<LogLevel>)
    ensures
        r == (if quiet {
            None
        } else if verbose {
            Some(LogLevel::Debug)
        } else {
            Some(LogLevel::Info)
        }),
{
    if quiet {
        None
    } else if verbose {
        Some(LogLevel::Debug)
    } else {
        Some(LogLevel::Info)
    }
}

/// Does the input name several files through the wildcards `*`, `?` or a
/// bracketed class?
pub open spec fn spec_is_glob_pattern(s: Seq<char>) -> bool {
    s.contains('*') || s.contains('?') || (s.contains('[') && s.contains(']'))
}

fn contains_char(cs: &Vec<char>, c: char) -> (r: bool)
    ensures
        r == cs@.contains(c),
{
    let mut i: usize = 0;
    while i < cs.len()
        invariant
            i <= cs.len(),
            forall|j: int| 0 <= j < i ==> cs@[j] != c,
        decreases cs.len() - i,
    {
        if cs[i] == c {
            return true;
        }
        i = i + 1;
    }
    false
}

pub fn is_glob_pattern(s: &str) -> (r: bool)
    ensures
        r == spec_is_glob_pattern(s@),
{
    let cs = chars_of(s);
    contains_char(&cs, '*') || contains_char(&cs, '?') || (contains_char(&cs, '[') && contains_char(
        &cs,
        ']',
    ))
}

/// The length of the part of a glob pattern before its first wildcard.
pub open spec fn literal_prefix_len(s: Seq<char>) -> int
    decreases s.len(),
{
    if s.len() == 0 || s[0] == '*' || s[0] == '?' || s[0] == '[' {
        0
    } else {
        1 + literal_prefix_len(s.drop_first())
    }
}

proof fn lemma_literal_prefix_len(s: Seq<char>, i: int)
    requires
        0 <= i <= s.len(),
        forall|j: int| 0 <= j < i ==> s[j] != '*' && s[j] != '?' && s[j] != '[',
        i == s.len() || s[i] == '*' || s[i] == '?' || s[i] == '[',
    ensures
        literal_prefix_len(s) == i,
    decreases i,
{
    if i > 0 {
        assert forall|j: int| 0 <= j < i - 1 implies s.drop_first()[j] != '*' && s.drop_first()[j]
            != '?' && s.drop_first()[j] != '[' by {
            assert(s.drop_first()[j] == s[j + 1]);
        }
        lemma_literal_prefix_len(s.drop_first(), i - 1);
    }
}

/// The text of a glob pattern before its first wildcard (`*`, `?` or `[`): the
/// directory part of it is where the matched files are taken to be relative to.
pub fn glob_literal_prefix(pattern: &str) -> (r: String)
    ensures
        r@ == pattern@.take(literal_prefix_len(pattern@)),
{
    let cs = chars_of(pattern);
    let mut i: usize = 0;
    while i < cs.len() && cs[i] != '*' && cs[i] != '?' && cs[i] != '['
        invariant
            i <= cs.len(),
            forall|j: int| 0 <= j < i ==> cs@[j] != '*' && cs@[j] != '?' && cs@[j] != '[',
        decreases cs.len() - i,
    {
        i = i + 1;
    }
    proof {
        lemma_literal_prefix_len(pattern@, i as int);
    }
    owned(pattern.substring_char(0, i))
}

/// A non-empty path made of one plain component: no `/`, backslash or `:`, so on
/// every platform a relative path of one component without a prefix.
pub open spec fn one_component(path: Seq<char>) -> bool {
    path.len() > 0 && forall|i: int|
        0 <= i < path.len() ==> #[trigger] path[i] != '/' && path[i] != '\\' && path[i] != ':'
}

/// Calls `std::path::Path::parent` on a path given as text. Which characters
/// separate components, and which prefixes a path may have, depend on the
/// platform, so what it gives is not stated as a function of the text. On
/// every platform: the parent is the path without its last component, a
/// shorter leading part of the text; an empty path has none; and a path of one
/// plain component has the empty path as its parent.
#[verifier::external_body]
fn path_parent(path: &str) -> (r: Option<String>)
    ensures
        r matches Some(s) ==> s@.len() < path@.len() && s@ == path@.take(s@.len() as int),
        path@.len() == 0 ==> r is None,
        one_component(path@) ==> r is Some && r.unwrap()@.len() == 0,
{
    std::path::Path::new(path).parent().map(|p| p.to_string_lossy().into_owned())
}

/// The directory that the files a glob pattern matches are taken relative to,
/// from the pattern's literal prefix: the prefix when it is an existing
/// directory, otherwise its parent, or `.` when that is missing or empty.
pub open spec fn spec_glob_base(prefix: Seq<char>, prefix_is_dir: bool, parent: Option<Seq<char>>) -> Seq<char> {
    if prefix_is_dir {
        prefix
    } else {
        match parent {
            Some(p) => if p.len() == 0 {
                "."@
            } else {
                p
            },
            None => "."@,
        }
    }
}

pub fn glob_base_from(prefix: &str, prefix_is_dir: bool, parent: Option<&str>) -> (r: String)
    ensures
        r@ == spec_glob_base(prefix@, prefix_is_dir, opt_view(parent)),
{
    if prefix_is_dir {
        owned(prefix)
    } else {
        match parent {
            Some(p) => if p.unicode_len() == 0 {
                owned(".")
            } else {
                owned(p)
            },
            None => owned("."),
        }
    }
}

/// The directory that the files a glob pattern matches are taken relative
/// to; `prefix_is_dir` tells whether the pattern's literal prefix (see
/// `glob_literal_prefix`) is an existing directory.
pub fn get_glob_base(pattern: &str, prefix_is_dir: bool) -> (r: String)
    ensures
        ({
            let prefix = pattern@.take(literal_prefix_len(pattern@));
            exists|parent: Option<Seq<char>>|
                #![trigger spec_glob_base(prefix, prefix_is_dir, parent)]
                r@ == spec_glob_base(prefix, prefix_is_dir, parent) && (parent matches Some(q) ==> q.len()
                    < prefix.len() && q == prefix.take(q.len() as int))
        }),
        ({
            let prefix = pattern@.take(literal_prefix_len(pattern@));
            !prefix_is_dir && (prefix.len() == 0 || one_component(prefix)) ==> r@ == "."@
        }),
{
    let prefix = glob_literal_prefix(pattern);
    let parent = path_parent(prefix.as_str());
    match parent {
        Some(p) => glob_base_from(prefix.as_str(), prefix_is_dir, Some(p.as_str())),
        None => glob_base_from(prefix.as_str(), prefix_is_dir, None),
    }
}

/// Several matched files need an output directory: a path that is an existing
/// file, or that does not exist and has an extension, is refused.
pub fn multi_output_refused(output_is_file: bool, output_exists: bool, output_has_extension: bool) -> (r: bool)
    ensures
        r == (output_is_file || (!output_exists && output_has_extension)),
{
    output_is_file || (!output_exists && output_has_extension)
}

/// The error for several matched files and an output path that is no directory.
pub fn multi_output_error() -> (e: MartiniError)
    ensures
        e matches MartiniError::InvalidInputData { reason } && reason@
            == "Output path must be a directory when converting multiple files"@,
{
    MartiniError::InvalidInputData {
        reason: owned("Output path must be a directory when converting multiple files"),
    }
}

/// What is known of the output path when the target format is chosen.
pub struct OutputInfo {
    pub is_dir: bool,
    pub extension: Option<String>,
}

/// The target chosen when neither `--to` nor the output path names one: a
/// favicon for SVG, PNG for PDF, DOCX for Markdown and WebP for anything else.
pub open spec fn default_target(input_ext: Option<Seq<char>>) -> Seq<char> {
    match input_ext {
        Some(e) => if lowercase(e) == "svg"@ {
            "favicon"@
        } else if lowercase(e) == "pdf"@ {
            "png"@
        } else if lowercase(e) == "md"@ || lowercase(e) == "markdown"@ {
            "docx"@
        } else {
            "webp"@
        },
        None => "webp"@,
    }
}

/// The target format name: `--to` when given; otherwise the lowercased
/// extension of the output path (`ico` and `html` standing for a favicon),
/// unless the output is a directory or has no extension; otherwise the default
/// for the input.
pub open spec fn spec_resolve_target(
    to: Option<Seq<char>>,
    output: Option<(bool, Option<Seq<char>>)>,
    input_ext: Option<Seq<char>>,
) -> Seq<char> {
    match to {
        Some(t) => t,
        None => match output {
            Some((is_dir, ext)) => if is_dir {
                default_target(input_ext)
            } else {
                match ext {
                    Some(e) => if lowercase(e) == "ico"@ || lowercase(e) == "html"@ {
                        "favicon"@
                    } else {
                        lowercase(e)
                    },
                    None => default_target(input_ext),
                }
            },
            None => default_target(input_ext),
        },
    }
}

pub open spec fn opt_view(o: Option<&str>) -> Option<Seq<char>> {
    match o {
        Some(s) => Some(s@),
        None => None,
    }
}

pub open spec fn output_view(o: Option<&OutputInfo>) -> Option<(bool, Option<Seq<char>>)> {
    match o {
        Some(info) => Some(
            (
                info.is_dir,
                match info.extension {
                    Some(e) => Some(e@),
                    None => None,
                },
            ),
        ),
        None => None,
    }
}

fn default_target_str(input_ext: Option<&str>) -> (r: String)
    ensures
        r@ == default_target(opt_view(input_ext)),
{
    match input_ext {
        Some(e) => {
            let l = to_lowercase(e);
            if same_text(l.as_str(), "svg") {
                owned("favicon")
            } else if same_text(l.as_str(), "pdf") {
                owned("png")
            } else if same_text(l.as_str(), "md") || same_text(l.as_str(), "markdown") {
                owned("docx")
            } else {
                owned("webp")
            }
        },
        None => owned("webp"),
    }
}

pub fn resolve_target(to: Option<&str>, output: Option<&OutputInfo>, input_ext: Option<&str>) -> (r: String)
    ensures
        r@ == spec_resolve_target(opt_view(to), output_view(output), opt_view(input_ext)),
{
    match to {
        Some(t) => owned(t),
        None => match output {
            Some(info) => if info.is_dir {
                default_target_str(input_ext)
            } else {
                match &info.extension {
                    Some(e) => {
                        let l = to_lowercase(e.as_str());
                        if same_text(l.as_str(), "ico") || same_text(l.as_str(), "html") {
                            owned("favicon")
                        } else {
                            l
                        }
                    },
                    None => default_target_str(input_ext),
                }
            },
            None => default_target_str(input_ext),
        },
    }
}

/// The target formats a target name stands for: WebP and AVIF for `both`
/// (in any letter case), else the one format it names; a name that is no
/// format is an unsupported conversion from `from`.
pub fn parse_targets(to: &str, from: &str) -> (r: Result<Vec<Format>, MartiniError>)
    ensures
        folds_to(to@, "both"@) ==> (r matches Ok(v) && v@ == seq![Format::Webp, Format::Avif]),
        !folds_to(to@, "both"@) ==> match spec_parse_format(to@) {
            Some(f) => r matches Ok(v) && v@ == seq![f],
            None => r matches Err(e) && is_unsupported(e, from@, to@),
        },
{
    let cs = chars_of(to);
    if folds_to_name(&cs, "both") {
        let mut v: Vec<Format> = Vec::new();
        v.push(Format::Webp);
        v.push(Format::Avif);
        assert(v@ =~= seq![Format::Webp, Format::Avif]);
        return Ok(v);
    }
    match Format::from_str(to) {
        Ok(f) => {
            let mut v: Vec<Format> = Vec::new();
            v.push(f);
            assert(v@ =~= seq![f]);
            Ok(v)
        },
        Err(_) => Err(MartiniError::UnsupportedConversion { from: owned(from), to: owned(to) }),
    }
}

/// The source format of a single-file conversion: with `--from auto`, the one
/// the lowercased input extension names; otherwise the one `--from` names. A
/// name that is no format is an unsupported conversion to `to`.
pub fn resolve_source_format(from: &str, input_ext: Option<&str>, to: &str) -> (r: Result<
    Format,
    MartiniError,
>)
    ensures
        from@ == "auto"@ ==> {
            let ext = lowercase(
                match input_ext {
                    Some(e) => e@,
                    None => ""@,
                },
            );
            match spec_parse_format(ext) {
                Some(f) => r == Ok::<Format, MartiniError>(f),
                None => r matches Err(e) && is_unsupported(e, ext, to@),
            }
        },
        from@ != "auto"@ ==> match spec_parse_format(from@) {
            Some(f) => r == Ok::<Format, MartiniError>(f),
            None => r matches Err(e) && is_unsupported(e, from@, to@),
        },
{
    if same_text(from, "auto") {
        let ext = match input_ext {
            Some(e) => to_lowercase(e),
            None => to_lowercase(""),
        };
        match Format::from_str(ext.as_str()) {
            Ok(f) => Ok(f),
            Err(_) => Err(MartiniError::UnsupportedConversion { from: ext, to: owned(to) }),
        }
    } else {
        match Format::from_str(from) {
            Ok(f) => Ok(f),
            Err(_) => Err(MartiniError::UnsupportedConversion { from: owned(from), to: owned(to) }),
        }
    }
}

/// Where the output of one target of a single-file conversion goes.
#[derive(Debug, Clone, Copy, PartialEq, Eq, Structural)]
pub enum OutputPlacement {
    /// Next to the input, with the target's extension.
    BesideInput,
    /// Inside the output directory, under the input's name with the target's extension.
    InDirectory,
    /// At the output path with its extension replaced by the target's.
    SwapExtension,
    /// At the output path as given.
    AsGiven,
}

pub fn output_placement(has_output: bool, output_is_dir: bool, target_count: usize) -> (r: OutputPlacement)
    ensures
        r == (if !has_output {
            OutputPlacement::BesideInput
        } else if output_is_dir {
            OutputPlacement::InDirectory
        } else if target_count > 1 {
            OutputPlacement::SwapExtension
        } else {
            OutputPlacement::AsGiven
        }),
{
    if !has_output {
        OutputPlacement::BesideInput
    } else if output_is_dir {
        OutputPlacement::InDirectory
    } else if target_count > 1 {
        OutputPlacement::SwapExtension
    } else {
        OutputPlacement::AsGiven
    }
}

/// The report of an output that already exists and is not overwritten.
pub fn skipped_output(path: &str, size_bytes: u64) -> (m: OutputFileMetadata)
    ensures
        m.path@ == path@,
        m.size_bytes == size_bytes,
        m.description@ == "Skipped (already exists)"@,
{
    OutputFileMetadata { path: owned(path), size_bytes, description: owned("Skipped (already exists)") }
}

/// A single-file conversion deletes its input, when asked to, unless an output
/// reports a failure.
pub fn should_delete_input(delete_original: bool, outputs: &Vec<OutputFileMetadata>) -> (r: bool)
    ensures
        r == (delete_original && forall|i: int|
            0 <= i < outputs@.len() ==> !contains_text((#[trigger] outputs@[i]).description@, "failed"@)),
{
    if !delete_original {
        return false;
    }
    let mut i: usize = 0;
    while i < outputs.len()
        invariant
            i <= outputs.len(),
            forall|j: int| 0 <= j < i ==> !contains_text((#[trigger] outputs@[j]).description@, "failed"@),
        decreases outputs.len() - i,
    {
        if contains_str(outputs[i].description.as_str(), "failed") {
            return false;
        }
        i = i + 1;
    }
    true
}

} // verus!
