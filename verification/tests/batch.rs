use martini::batch::{
    batch_exit_code, batch_source_format, failed_for_every_target, failed_task, is_hidden_entry,
    is_selected_extension, should_delete_original, skipped_task, success_task, target_task,
    total_output_size, TargetOutcome, TaskResult, TaskStatus,
};
use martini::error::MartiniError;
use martini::convert::OutputFileMetadata;
use martini::format::Format;
use martini::ui::{savings, summarize, ReportSummary, Savings};

fn out(size: u64) -> OutputFileMetadata {
    OutputFileMetadata { path: "p".to_string(), size_bytes: size, description: "d".to_string() }
}

#[test]
fn extensions_follow_the_filter() {
    assert!(is_selected_extension("PNG", "auto"));
    assert!(is_selected_extension("jpeg", "auto"));
    assert!(!is_selected_extension("webp", "auto"));
    assert!(is_selected_extension("webp", "WebP"));
    assert!(is_selected_extension("JPG", "jpeg"));
    assert!(!is_selected_extension("png", "jpg"));
    assert!(is_selected_extension("pdf", "pdf"));
    assert!(is_selected_extension("svg", "svg"));
    assert!(is_selected_extension("png", "gif"));
    assert!(!is_selected_extension("txt", "auto"));
}

#[test]
fn hidden_entries_are_skipped() {
    assert!(is_hidden_entry(".git"));
    assert!(!is_hidden_entry("."));
    assert!(!is_hidden_entry("img.png"));
    assert!(!is_hidden_entry(""));
}

#[test]
fn batch_sources_are_read_from_extensions() {
    assert_eq!(batch_source_format(Some("PNG")), Ok(Format::Png));
    assert_eq!(batch_source_format(Some("Jpeg")), Ok(Format::Jpg));
    assert_eq!(batch_source_format(Some("TXT")), Err("Unsupported source format: 'txt'".to_string()));
    assert_eq!(batch_source_format(None), Err("Unsupported source format: ''".to_string()));
}

#[test]
fn task_records() {
    let t = failed_task("a.png", Some("a.webp"), 10, "boom".to_string());
    assert_eq!(t.status, TaskStatus::Failed);
    assert_eq!(t.output_path.as_deref(), Some("a.webp"));
    assert_eq!(t.error_message.as_deref(), Some("boom"));
    assert_eq!(t.converted_size, 0);
    let t = skipped_task("a.png", "a.webp", 10, 7);
    assert_eq!((t.status, t.original_size, t.converted_size), (TaskStatus::Skipped, 10, 7));
    let t = success_task("a.png", "a.webp", 10, 4);
    assert_eq!((t.status, t.converted_size), (TaskStatus::Success, 4));
    assert!(t.error_message.is_none());
    let all = failed_for_every_target("a.png", 2, 10, "Unsupported source format: 'txt'");
    assert_eq!(all.len(), 2);
    assert!(all.iter().all(|t| t.status == TaskStatus::Failed && t.output_path.is_none()));
    assert_eq!(TaskStatus::Success.as_str(), "success");
    assert_eq!(TaskStatus::Skipped.as_str(), "skipped");
    assert_eq!(TaskStatus::Failed.as_str(), "failed");
}

#[test]
fn output_sizes_add_up() {
    assert_eq!(total_output_size(&vec![out(3), out(4)]), Some(7));
    assert_eq!(total_output_size(&vec![]), Some(0));
    assert_eq!(total_output_size(&vec![out(u64::MAX), out(1)]), None);
}

fn tasks_for_deletion() -> Vec<TaskResult> {
    vec![
        success_task("a.png", "a.webp", 10, 4),
        skipped_task("a.png", "a.avif", 10, 5),
        success_task("b.png", "b.webp", 10, 4),
        failed_task("b.png", Some("b.avif"), 10, "boom".to_string()),
        success_task("c.png", "c.webp", 10, 4),
        success_task("c.png", "c.webp", 10, 4),
    ]
}

#[test]
fn originals_are_deleted_only_when_every_target_settled() {
    let tasks = tasks_for_deletion();
    assert!(should_delete_original(&tasks, &"a.png".to_string(), 2));
    assert!(!should_delete_original(&tasks, &"b.png".to_string(), 2));
    // Two tasks with the same output count once.
    assert!(!should_delete_original(&tasks, &"c.png".to_string(), 2));
    assert!(should_delete_original(&tasks, &"c.png".to_string(), 1));
    assert!(!should_delete_original(&tasks, &"d.png".to_string(), 1));
    assert!(should_delete_original(&tasks, &"d.png".to_string(), 0));
}

#[test]
fn batch_exit_codes() {
    let tasks = tasks_for_deletion();
    assert_eq!(batch_exit_code(&tasks, 0), 1);
    let ok = vec![success_task("a.png", "a.webp", 10, 4)];
    assert_eq!(batch_exit_code(&ok, 0), 0);
    assert_eq!(batch_exit_code(&ok, 1), 1);
    assert_eq!(batch_exit_code(&vec![], 0), 0);
}

#[test]
fn reports_summarise_tasks() {
    let s = summarize(&tasks_for_deletion()).unwrap();
    assert_eq!(
        s,
        ReportSummary { total: 6, successful: 4, skipped: 1, failed: 1, original_size: 50, new_size: 21 }
    );
    assert_eq!(savings(s.original_size, s.new_size), Savings::Saved(29));
    assert_eq!(savings(0, 5), Savings::Nothing);
    assert_eq!(savings(5, 8), Savings::Increased(3));
    assert_eq!(savings(5, 5), Savings::Saved(0));
    let huge = vec![success_task("a", "b", u64::MAX, 0), success_task("c", "d", 1, 0)];
    assert_eq!(summarize(&huge), None);
}

#[test]
fn target_outcomes_become_tasks() {
    let t = target_task("a.png", 10, TargetOutcome::NoOutputPath("Invalid file path prefix: x".to_string()));
    assert_eq!(t.status, TaskStatus::Failed);
    assert!(t.output_path.is_none());
    assert_eq!(t.error_message.as_deref(), Some("Invalid file path prefix: x"));
    let t = target_task("a.png", 10, TargetOutcome::Exists { output: "a.webp".to_string(), size: 7 });
    assert_eq!((t.status, t.converted_size), (TaskStatus::Skipped, 7));
    let t = target_task(
        "a.png",
        10,
        TargetOutcome::Converted { output: "a.webp".to_string(), files: vec![out(3), out(4)] },
    );
    assert_eq!((t.status, t.converted_size, t.original_size), (TaskStatus::Success, 7, 10));
    assert_eq!(t.output_path.as_deref(), Some("a.webp"));
    let t = target_task(
        "a.png",
        10,
        TargetOutcome::Failed {
            output: "a.avif".to_string(),
            error: MartiniError::Rendering("AVIF encoding failed".to_string()),
        },
    );
    assert_eq!(t.status, TaskStatus::Failed);
    assert_eq!(t.output_path.as_deref(), Some("a.avif"));
    assert_eq!(t.error_message.as_deref(), Some("Rendering error: AVIF encoding failed"));
}
