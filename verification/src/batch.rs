//! Batch conversion of many files: which files take part, the record of each
//! task, and which originals may be deleted afterwards.

use vstd::prelude::*;
use crate::convert::OutputFileMetadata;
use crate::error::{error_message, MartiniError};
use crate::format::{spec_parse_format, unsupported_format_message, Format};
use crate::text::{chars_of, folds_to, folds_to_name, lowercase, owned, to_lowercase};

verus! {

/// How one task of a batch ended.
#[derive(Debug, Clone, Copy, PartialEq, Eq, Structural)]
pub enum TaskStatus {
    Success,
    Skipped,
    Failed,
}

impl TaskStatus {
    /// The status as it is reported: `success`, `skipped` or `failed`.
    pub fn as_str(&self) -> (r: &'static str)
        ensures
            r@ == match *self {
                TaskStatus::Success => "success"@,
                TaskStatus::Skipped => "skipped"@,
                TaskStatus::Failed => "failed"@,
            },
    {
        match self {
            TaskStatus::Success => "success",
            TaskStatus::Skipped => "skipped",
            TaskStatus::Failed => "failed",
        }
    }
}

/// The record of converting one file to one target format.
#[derive(Debug, Clone)]
pub struct TaskResult {
    pub input_path: String,
    pub output_path: Option<String>,
    pub status: TaskStatus,
    pub original_size: u64,
    pub converted_size: u64,
    pub error_message: Option<String>,
}

/// The settings of a batch conversion. Paths are given as text.
#[derive(Debug, Clone)]
pub struct BatchConvertOptions {
    pub input_dir: String,
    pub output_dir: Option<String>,
    pub from_filter: String,
    pub targets: Vec<Format>,
    pub quality: u8,
    pub lossless: bool,
    pub recursive: bool,
    pub overwrite: bool,
    pub delete_original: bool,
    pub workers: Option<usize>,
    pub pages: Option<String>,
    pub dpi: u16,
    pub width: Option<u32>,
    pub height: Option<u32>,
    pub no_upscale: bool,
    pub files: Option<Vec<String>>,
}

/// The outcome of a batch: every task, and the deletions of originals.
#[derive(Debug, Clone)]
pub struct BatchResult {
    pub tasks: Vec<TaskResult>,
    pub deleted_count: usize,
    pub deletion_errors: Vec<(String, String)>,
}

/// The file extensions a batch picks up for a source-format filter (compared
/// without regard to case); `auto` and unknown filters pick PNG and JPEG.
pub open spec fn source_extensions(filter: Seq<char>) -> Seq<Seq<char>> {
    if folds_to(filter, "png"@) {
        seq!["png"@]
    } else if folds_to(filter, "jpg"@) || folds_to(filter, "jpeg"@) {
        seq!["jpg"@, "jpeg"@]
    } else if folds_to(filter, "webp"@) {
        seq!["webp"@]
    } else if folds_to(filter, "avif"@) {
        seq!["avif"@]
    } else if folds_to(filter, "svg"@) {
        seq!["svg"@]
    } else if folds_to(filter, "pdf"@) {
        seq!["pdf"@]
    } else {
        seq!["png"@, "jpg"@, "jpeg"@]
    }
}

fn source_extensions_exec(filter: &Vec<char>) -> (r: Vec<&'static str>)
    ensures
        r@.map_values(|s: &str| s@) == source_extensions(filter@),
{
    let mut r: Vec<&'static str> = Vec::new();
    if folds_to_name(filter, "png") {
        r.push("png");
    } else if folds_to_name(filter, "jpg") || folds_to_name(filter, "jpeg") {
        r.push("jpg");
        r.push("jpeg");
    } else if folds_to_name(filter, "webp") {
        r.push("webp");
    } else if folds_to_name(filter, "avif") {
        r.push("avif");
    } else if folds_to_name(filter, "svg") {
        r.push("svg");
    } else if folds_to_name(filter, "pdf") {
        r.push("pdf");
    } else {
        r.push("png");
        r.push("jpg");
        r.push("jpeg");
    }
    assert(r@.map_values(|s: &str| s@) =~= source_extensions(filter@));
    r
}

/// Does a file with extension `ext` take part in a batch with this filter? The
/// extension is compared without regard to case.
pub fn is_selected_extension(ext: &str, from_filter: &str) -> (r: bool)
    ensures
        r == exists|i: int|
            0 <= i < source_extensions(from_filter@).len() && folds_to(
                ext@,
                #[trigger] source_extensions(from_filter@)[i],
            ),
{
    let f = chars_of(from_filter);
    let e = chars_of(ext);
    let exts = source_extensions_exec(&f);
    let ghost names = source_extensions(from_filter@);
    let mut i: usize = 0;
    while i < exts.len()
        invariant
            i <= exts.len(),
            e@ == ext@,
            exts@.map_values(|s: &str| s@) == names,
            names == source_extensions(from_filter@),
            forall|j: int| 0 <= j < i ==> !folds_to(ext@, #[trigger] names[j]),
        decreases exts.len() - i,
    {
        assert(exts@.map_values(|s: &str| s@)[i as int] == exts@[i as int]@);
        if folds_to_name(&e, exts[i]) {
            assert(folds_to(ext@, names[i as int]));
            return true;
        }
        i = i + 1;
    }
    false
}

/// Hidden entries (names starting with a dot, other than `.` itself) are
/// skipped when a directory is scanned.
pub fn is_hidden_entry(name: &str) -> (r: bool)
    ensures
        r == (name@.len() > 0 && name@[0] == '.' && name@ != "."@),
{
    let cs = chars_of(name);
    proof {
        reveal_strlit(".");
    }
    if cs.len() == 0 || cs[0] != '.' {
        return false;
    }
    if cs.len() == 1 {
        assert(name@ =~= "."@);
        return false;
    }
    true
}

/// The source format of a file in a batch, from its lowercased extension, or
/// the message of a file whose extension names no format.
pub fn batch_source_format(ext: Option<&str>) -> (r: Result<Format, String>)
    ensures
        ({
            let lower = lowercase(
                match ext {
                    Some(e) => e@,
                    None => ""@,
                },
            );
            match spec_parse_format(lower) {
                Some(f) => r == Ok::<Format, String>(f),
                None => r matches Err(m) && m@ == "Unsupported source format: '"@ + lower + "'"@,
            }
        }),
{
    let lower = match ext {
        Some(e) => to_lowercase(e),
        None => to_lowercase(""),
    };
    match Format::from_str(lower.as_str()) {
        Ok(f) => Ok(f),
        Err(_) => {
            let mut m = owned("Unsupported source format: '");
            m.append(lower.as_str());
            m.append("'");
            Err(m)
        },
    }
}

/// A failed task.
pub fn failed_task(input: &str, output: Option<&str>, original_size: u64, message: String) -> (t: TaskResult)
    ensures
        t.input_path@ == input@,
        t.output_path matches Some(p) ==> (output matches Some(o) && p@ == o@),
        t.output_path is None <==> output is None,
        t.status == TaskStatus::Failed,
        t.original_size == original_size,
        t.converted_size == 0,
        t.error_message == Some(message),
{
    TaskResult {
        input_path: owned(input),
        output_path: match output {
            Some(o) => Some(owned(o)),
            None => None,
        },
        status: TaskStatus::Failed,
        original_size,
        converted_size: 0,
        error_message: Some(message),
    }
}

/// A task whose output already existed and was kept.
pub fn skipped_task(input: &str, output: &str, original_size: u64, existing_size: u64) -> (t: TaskResult)
    ensures
        t.input_path@ == input@,
        t.output_path matches Some(p) && p@ == output@,
        t.status == TaskStatus::Skipped,
        t.original_size == original_size,
        t.converted_size == existing_size,
        t.error_message is None,
{
    TaskResult {
        input_path: owned(input),
        output_path: Some(owned(output)),
        status: TaskStatus::Skipped,
        original_size,
        converted_size: existing_size,
        error_message: None,
    }
}

/// A task that converted its file.
pub fn success_task(input: &str, output: &str, original_size: u64, converted_size: u64) -> (t: TaskResult)
    ensures
        t.input_path@ == input@,
        t.output_path matches Some(p) && p@ == output@,
        t.status == TaskStatus::Success,
        t.original_size == original_size,
        t.converted_size == converted_size,
        t.error_message is None,
{
    TaskResult {
        input_path: owned(input),
        output_path: Some(owned(output)),
        status: TaskStatus::Success,
        original_size,
        converted_size,
        error_message: None,
    }
}

/// What became of one target of one file in a batch.
#[derive(Debug, Clone)]
pub enum TargetOutcome {
    /// No output path could be worked out; the message says why.
    NoOutputPath(String),
    /// The output exists, holds this many bytes, and is not overwritten.
    Exists { output: String, size: u64 },
    /// The conversion wrote these files.
    Converted { output: String, files: Vec<OutputFileMetadata> },
    /// The conversion failed.
    Failed { output: String, error: MartiniError },
}

/// The record of one target of a file of `original_size` bytes: a failure
/// without output path, a skip with the size of the existing output, a success
/// with the total size of the files written, or a failure with the message of
/// the error.
pub open spec fn target_task_matches(t: TaskResult, input: Seq<char>, original_size: u64, outcome: TargetOutcome) -> bool {
    &&& t.input_path@ == input
    &&& t.original_size == original_size
    &&& match outcome {
        TargetOutcome::NoOutputPath(m) => t.status == TaskStatus::Failed && t.output_path is None
            && t.converted_size == 0 && t.error_message == Some(m),
        TargetOutcome::Exists { output, size } => t.status == TaskStatus::Skipped && (t.output_path matches Some(
            p,
        ) && p@ == output@) && t.converted_size == size && t.error_message is None,
        TargetOutcome::Converted { output, files } => t.status == TaskStatus::Success && (t.output_path matches Some(
            p,
        ) && p@ == output@) && t.converted_size == sum_sizes(files@) && t.error_message is None,
        TargetOutcome::Failed { output, error } => t.status == TaskStatus::Failed && (t.output_path matches Some(
            p,
        ) && p@ == output@) && t.converted_size == 0 && (t.error_message matches Some(m) && m@
            == error_message(error)),
    }
}

/// The record of one target of a file in a batch.
pub fn target_task(input: &str, original_size: u64, outcome: TargetOutcome) -> (t: TaskResult)
    requires
        outcome matches TargetOutcome::Converted { files, .. } ==> sum_sizes(files@) <= u64::MAX,
    ensures
        target_task_matches(t, input@, original_size, outcome),
{
    match outcome {
        TargetOutcome::NoOutputPath(m) => failed_task(input, None, original_size, m),
        TargetOutcome::Exists { output, size } => skipped_task(input, output.as_str(), original_size, size),
        TargetOutcome::Converted { output, files } => {
            let size = match total_output_size(&files) {
                Some(n) => n,
                None => 0,
            };
            success_task(input, output.as_str(), original_size, size)
        },
        TargetOutcome::Failed { output, error } => failed_task(
            input,
            Some(output.as_str()),
            original_size,
            error.to_string(),
        ),
    }
}

/// One failed task per target format, all with the same message: a file that
/// cannot be read or whose format is unknown fails for every target.
pub fn failed_for_every_target(input: &str, target_count: usize, original_size: u64, message: &str) -> (r: Vec<TaskResult>)
    ensures
        r@.len() == target_count,
        forall|i: int|
            0 <= i < target_count ==> (#[trigger] r@[i]).input_path@ == input@ && r@[i].output_path is None
                && r@[i].status == TaskStatus::Failed && r@[i].original_size == original_size
                && r@[i].converted_size == 0 && (r@[i].error_message matches Some(m) && m@ == message@),
{
    let mut r: Vec<TaskResult> = Vec::new();
    let mut i: usize = 0;
    while i < target_count
        invariant
            i <= target_count,
            r@.len() == i,
            forall|j: int|
                0 <= j < i ==> (#[trigger] r@[j]).input_path@ == input@ && r@[j].output_path is None
                    && r@[j].status == TaskStatus::Failed && r@[j].original_size == original_size
                    && r@[j].converted_size == 0 && (r@[j].error_message matches Some(m) && m@ == message@),
        decreases target_count - i,
    {
        r.push(failed_task(input, None, original_size, owned(message)));
        i = i + 1;
    }
    r
}

/// The sum of the sizes of the files a conversion wrote.
pub open spec fn sum_sizes(files: Seq<OutputFileMetadata>) -> nat
    decreases files.len(),
{
    if files.len() == 0 {
        0
    } else {
        sum_sizes(files.drop_last()) + files.last().size_bytes as nat
    }
}

/// The total size of the files a conversion wrote, if it fits in 64 bits.
pub fn total_output_size(files: &Vec<OutputFileMetadata>) -> (r: Option<u64>)
    ensures
        sum_sizes(files@) <= u64::MAX ==> r == Some(sum_sizes(files@) as u64),
        sum_sizes(files@) > u64::MAX ==> r is None,
{
    let mut total: u64 = 0;
    let mut i: usize = 0;
    while i < files.len()
        invariant
            i <= files.len(),
            total == sum_sizes(files@.take(i as int)),
            forall|k: int| 0 <= k <= i ==> sum_sizes(#[trigger] files@.take(k)) <= u64::MAX,
        decreases files.len() - i,
    {
        assert(files@.take(i + 1).drop_last() =~= files@.take(i as int));
        if total > u64::MAX - files[i].size_bytes {
            proof {
                lemma_sum_sizes_prefix(files@, i + 1);
            }
            return None;
        }
        total = total + files[i].size_bytes;
        i = i + 1;
    }
    assert(files@.take(files.len() as int) =~= files@);
    Some(total)
}

proof fn lemma_sum_sizes_prefix(files: Seq<OutputFileMetadata>, k: int)
    requires
        0 <= k <= files.len(),
    ensures
        sum_sizes(files.take(k)) <= sum_sizes(files),
    decreases files.len() - k,
{
    if k < files.len() {
        lemma_sum_sizes_prefix(files, k + 1);
        assert(files.take(k + 1).drop_last() =~= files.take(k));
    } else {
        assert(files.take(k) =~= files);
    }
}

/// The output path a task reports, or the empty text when it has none.
pub open spec fn reported_output(t: TaskResult) -> Seq<char> {
    match t.output_path {
        Some(p) => p@,
        None => ""@,
    }
}

/// The outputs that the tasks of `input` produced or found in place.
pub open spec fn settled_outputs(tasks: Seq<TaskResult>, input: Seq<char>) -> Set<Seq<char>> {
    Set::new(
        |o: Seq<char>|
            exists|i: int|
                0 <= i < tasks.len() && (#[trigger] tasks[i]).input_path@ == input && tasks[i].status
                    != TaskStatus::Failed && reported_output(tasks[i]) == o,
    )
}

/// Did some task of `input` fail?
pub open spec fn has_failed_task(tasks: Seq<TaskResult>, input: Seq<char>) -> bool {
    exists|i: int|
        0 <= i < tasks.len() && (#[trigger] tasks[i]).input_path@ == input && tasks[i].status
            == TaskStatus::Failed
}

/// An original may be deleted only when its tasks settled as many distinct
/// outputs as there are target formats and none of them failed.
pub open spec fn may_delete_original(tasks: Seq<TaskResult>, input: Seq<char>, target_count: nat) -> bool {
    settled_outputs(tasks, input).len() == target_count && !has_failed_task(tasks, input)
}

fn contains_text_in(seen: &Vec<String>, s: &String) -> (r: bool)
    ensures
        r == seen@.map_values(|x: String| x@).contains(s@),
{
    let mut i: usize = 0;
    while i < seen.len()
        invariant
            i <= seen.len(),
            forall|j: int| 0 <= j < i ==> seen@[j]@ != s@,
        decreases seen.len() - i,
    {
        if seen[i] == *s {
            assert(seen@.map_values(|x: String| x@)[i as int] == s@);
            return true;
        }
        i = i + 1;
    }
    false
}

/// Decides whether the original of `input` may be deleted after a batch.
pub fn should_delete_original(tasks: &Vec<TaskResult>, input: &String, target_count: usize) -> (r: bool)
    ensures
        r == may_delete_original(tasks@, input@, target_count as nat),
{
    let mut seen: Vec<String> = Vec::new();
    let mut failed = false;
    let mut i: usize = 0;
    while i < tasks.len()
        invariant
            i <= tasks.len(),
            seen@.map_values(|x: String| x@).no_duplicates(),
            seen@.map_values(|x: String| x@).to_set() == settled_outputs(tasks@.take(i as int), input@),
            failed == has_failed_task(tasks@.take(i as int), input@),
        decreases tasks.len() - i,
    {
        let ghost prev = tasks@.take(i as int);
        let ghost next = tasks@.take(i + 1);
        let ghost old_seen = seen@.map_values(|x: String| x@);
        let t = &tasks[i];
        proof {
            assert(next[i as int] == tasks@[i as int]);
            assert forall|k: int| 0 <= k < i implies next[k] == prev[k] by {}
        }
        if t.input_path == *input {
            if t.status == TaskStatus::Failed {
                failed = true;
                proof {
                    assert(settled_outputs(next, input@) =~= settled_outputs(prev, input@)) by {
                        assert forall|o: Seq<char>| settled_outputs(next, input@).contains(o) implies settled_outputs(prev, input@).contains(o) by {
                            let k = choose|k: int| 0 <= k < next.len() && (#[trigger] next[k]).input_path@ == input@ && next[k].status != TaskStatus::Failed && reported_output(next[k]) == o;
                            assert(k < i);
                            assert(prev[k] == next[k]);
                        }
                        assert forall|o: Seq<char>| settled_outputs(prev, input@).contains(o) implies settled_outputs(next, input@).contains(o) by {
                            let k = choose|k: int| 0 <= k < prev.len() && (#[trigger] prev[k]).input_path@ == input@ && prev[k].status != TaskStatus::Failed && reported_output(prev[k]) == o;
                            assert(next[k] == prev[k]);
                        }
                    }
                    assert(has_failed_task(next, input@)) by {
                        assert(next[i as int].input_path@ == input@);
                    }
                }
            } else {
                let out = match &t.output_path {
                    Some(p) => p.clone(),
                    None => String::new(),
                };
                let ghost o = reported_output(tasks@[i as int]);
                proof {
                    reveal_strlit("");
                }
                assert(out@ == o);
                if !contains_text_in(&seen, &out) {
                    seen.push(out);
                    proof {
                        assert(seen@.map_values(|x: String| x@) =~= old_seen.push(o));
                    }
                }
                proof {
                    let new_seen = seen@.map_values(|x: String| x@);
                    assert(settled_outputs(next, input@) =~= settled_outputs(prev, input@).insert(o)) by {
                        assert forall|p: Seq<char>| settled_outputs(next, input@).contains(p) implies settled_outputs(prev, input@).insert(o).contains(p) by {
                            let k = choose|k: int| 0 <= k < next.len() && (#[trigger] next[k]).input_path@ == input@ && next[k].status != TaskStatus::Failed && reported_output(next[k]) == p;
                            if k < i {
                                assert(prev[k] == next[k]);
                            }
                        }
                        assert forall|p: Seq<char>| settled_outputs(prev, input@).insert(o).contains(p) implies settled_outputs(next, input@).contains(p) by {
                            if p == o {
                                assert(next[i as int] == tasks@[i as int]);
                            } else {
                                let k = choose|k: int| 0 <= k < prev.len() && (#[trigger] prev[k]).input_path@ == input@ && prev[k].status != TaskStatus::Failed && reported_output(prev[k]) == p;
                                assert(next[k] == prev[k]);
                            }
                        }
                    }
                    assert(new_seen.to_set() =~= old_seen.to_set().insert(o)) by {
                        assert forall|p: Seq<char>| new_seen.to_set().contains(p) implies old_seen.to_set().insert(o).contains(p) by {
                            let k = choose|k: int| 0 <= k < new_seen.len() && new_seen[k] == p;
                            if k < old_seen.len() {
                                assert(old_seen[k] == p);
                            }
                        }
                        assert forall|p: Seq<char>| old_seen.to_set().insert(o).contains(p) implies new_seen.to_set().contains(p) by {
                            if p == o {
                                if !old_seen.contains(o) {
                                    assert(new_seen[old_seen.len() as int] == o);
                                } else {
                                    let k = choose|k: int| 0 <= k < old_seen.len() && old_seen[k] == o;
                                    assert(new_seen[k] == o);
                                }
                            } else {
                                let k = choose|k: int| 0 <= k < old_seen.len() && old_seen[k] == p;
                                assert(new_seen[k] == p);
                            }
                        }
                    }
                    assert(has_failed_task(next, input@) == has_failed_task(prev, input@)) by {
                        if has_failed_task(next, input@) {
                            let k = choose|k: int| 0 <= k < next.len() && (#[trigger] next[k]).input_path@ == input@ && next[k].status == TaskStatus::Failed;
                            assert(k < i);
                            assert(prev[k] == next[k]);
                        }
                        if has_failed_task(prev, input@) {
                            let k = choose|k: int| 0 <= k < prev.len() && (#[trigger] prev[k]).input_path@ == input@ && prev[k].status == TaskStatus::Failed;
                            assert(next[k] == prev[k]);
                        }
                    }
                }
            }
        } else {
            proof {
                assert(settled_outputs(next, input@) =~= settled_outputs(prev, input@)) by {
                    assert forall|o: Seq<char>| settled_outputs(next, input@).contains(o) implies settled_outputs(prev, input@).contains(o) by {
                        let k = choose|k: int| 0 <= k < next.len() && (#[trigger] next[k]).input_path@ == input@ && next[k].status != TaskStatus::Failed && reported_output(next[k]) == o;
                        assert(k < i);
                        assert(prev[k] == next[k]);
                    }
                    assert forall|o: Seq<char>| settled_outputs(prev, input@).contains(o) implies settled_outputs(next, input@).contains(o) by {
                        let k = choose|k: int| 0 <= k < prev.len() && (#[trigger] prev[k]).input_path@ == input@ && prev[k].status != TaskStatus::Failed && reported_output(prev[k]) == o;
                        assert(next[k] == prev[k]);
                    }
                }
                assert(has_failed_task(next, input@) == has_failed_task(prev, input@)) by {
                    if has_failed_task(next, input@) {
                        let k = choose|k: int| 0 <= k < next.len() && (#[trigger] next[k]).input_path@ == input@ && next[k].status == TaskStatus::Failed;
                        assert(k < i);
                        assert(prev[k] == next[k]);
                    }
                    if has_failed_task(prev, input@) {
                        let k = choose|k: int| 0 <= k < prev.len() && (#[trigger] prev[k]).input_path@ == input@ && prev[k].status == TaskStatus::Failed;
                        assert(next[k] == prev[k]);
                    }
                }
            }
        }
        i = i + 1;
    }
    assert(tasks@.take(tasks.len() as int) =~= tasks@);
    proof {
        seen@.map_values(|x: String| x@).unique_seq_to_set();
    }
    seen.len() == target_count && !failed
}

/// A batch exits with 1 when a task failed or an original could not be
/// deleted, and with 0 otherwise.
pub fn batch_exit_code(tasks: &Vec<TaskResult>, deletion_error_count: usize) -> (code: i32)
    ensures
        code == (if (exists|i: int| 0 <= i < tasks@.len() && (#[trigger] tasks@[i]).status
            == TaskStatus::Failed) || deletion_error_count > 0 {
            1i32
        } else {
            0i32
        }),
{
    let mut i: usize = 0;
    while i < tasks.len()
        invariant
            i <= tasks.len(),
            forall|j: int| 0 <= j < i ==> (#[trigger] tasks@[j]).status != TaskStatus::Failed,
        decreases tasks.len() - i,
    {
        if tasks[i].status == TaskStatus::Failed {
            return 1;
        }
        i = i + 1;
    }
    if deletion_error_count > 0 {
        1
    } else {
        0
    }
}

} // verus!
