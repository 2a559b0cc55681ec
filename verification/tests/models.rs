use renamed::{ExtractOptions, JobStatus, PdfSplitOptions, RenameOptions, SplitMode};
use std::collections::HashMap;

#[test]
fn test_job_status_is_in_progress() {
    assert!(JobStatus::Pending.is_in_progress());
    assert!(JobStatus::Processing.is_in_progress());
    assert!(!JobStatus::Completed.is_in_progress());
    assert!(!JobStatus::Failed.is_in_progress());
}

#[test]
fn test_split_mode_display() {
    assert_eq!(SplitMode::Auto.to_string(), "auto");
    assert_eq!(SplitMode::Pages.to_string(), "pages");
    assert_eq!(SplitMode::Blank.to_string(), "blank");
}

#[test]
fn job_status_is_finished() {
    assert!(!JobStatus::Pending.is_finished());
    assert!(!JobStatus::Processing.is_finished());
    assert!(JobStatus::Completed.is_finished());
    assert!(JobStatus::Failed.is_finished());
}

#[test]
fn job_status_names_are_lower_case() {
    assert_eq!(JobStatus::Pending.to_string(), "pending");
    assert_eq!(JobStatus::Processing.to_string(), "processing");
    assert_eq!(JobStatus::Completed.to_string(), "completed");
    assert_eq!(JobStatus::Failed.to_string(), "failed");
}

#[test]
fn split_mode_default_is_auto() {
    assert_eq!(SplitMode::default(), SplitMode::Auto);
    assert_eq!(SplitMode::Pages.as_str(), "pages");
}

#[test]
fn rename_options_fields() {
    assert!(RenameOptions::new().template.is_none());
    assert!(RenameOptions::default().template.is_none());
    assert!(RenameOptions::new().form_fields().is_empty());
    let options = RenameOptions::new().with_template("{date}_{type}_{vendor}");
    assert_eq!(options.template, Some("{date}_{type}_{vendor}".to_string()));
    assert_eq!(
        options.form_fields(),
        vec![("template".to_string(), "{date}_{type}_{vendor}".to_string())]
    );
}

#[test]
fn pdf_split_options_fields() {
    let none = PdfSplitOptions::new();
    assert!(none.mode.is_none());
    assert!(none.pages_per_split.is_none());
    assert!(none.form_fields().is_empty());

    let options = PdfSplitOptions::new()
        .with_mode(SplitMode::Pages)
        .with_pages_per_split(5);
    assert_eq!(options.mode, Some(SplitMode::Pages));
    assert_eq!(options.pages_per_split, Some(5));
    assert_eq!(
        options.form_fields(),
        vec![
            ("mode".to_string(), "pages".to_string()),
            ("pagesPerSplit".to_string(), "5".to_string()),
        ]
    );

    let pages_only = PdfSplitOptions::default().with_pages_per_split(120);
    assert_eq!(
        pages_only.form_fields(),
        vec![("pagesPerSplit".to_string(), "120".to_string())]
    );
    let mode_only = PdfSplitOptions::new().with_mode(SplitMode::Blank);
    assert_eq!(
        mode_only.form_fields(),
        vec![("mode".to_string(), "blank".to_string())]
    );
}

#[test]
fn extract_options_fields() {
    assert!(ExtractOptions::new().form_fields().unwrap().is_empty());
    assert!(ExtractOptions::default().prompt.is_none());

    let prompt = ExtractOptions::new().with_prompt("Extract the total");
    assert_eq!(
        prompt.form_fields().unwrap(),
        vec![("prompt".to_string(), "Extract the total".to_string())]
    );

    let mut schema = HashMap::new();
    schema.insert("total".to_string(), serde_json::Value::from(1));
    let both = ExtractOptions::new()
        .with_prompt("p")
        .with_schema(schema.clone());
    assert_eq!(both.schema, Some(schema));
    assert_eq!(
        both.form_fields().unwrap(),
        vec![
            ("prompt".to_string(), "p".to_string()),
            ("schema".to_string(), "{\"total\":1}".to_string()),
        ]
    );
}

#[test]
fn extract_fields_from_a_failed_encoding() {
    let err = serde_json::from_str::<serde_json::Value>("{").unwrap_err();
    let text = err.to_string();
    let out = ExtractOptions::fields_from(Some("p".to_string()), Some(Err(err)));
    match out {
        Err(renamed::RenamedError::Serialization { message, source }) => {
            assert_eq!(message, text);
            assert!(source.is_some());
        }
        other => panic!("expected a serialization error, got {:?}", other),
    }
    let ok = ExtractOptions::fields_from(None, Some(Ok("{}".to_string()))).unwrap();
    assert_eq!(ok, vec![("schema".to_string(), "{}".to_string())]);
}
