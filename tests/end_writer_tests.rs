use notebooklm_runner::io::end_writer::{render_end_report, EndReport, ImportFailure};

#[test]
fn render_end_report_contains_all_sections() {
    let report = EndReport {
        status: "ok".to_string(),
        notebook_title: Some("Auto Notebook".to_string()),
        notebook_url: Some("https://notebooklm.google.com/notebook/123".to_string()),
        prompt: "Summarize".to_string(),
        answer: Some("Here is a concise summary.".to_string()),
        imported: 2,
        failed: vec![ImportFailure {
            url: "https://bad.example".to_string(),
            reason: "timeout".to_string(),
        }],
        errors: vec!["minor warning".to_string()],
        duration_ms: 3100,
    };

    let rendered = render_end_report(&report);
    assert!(rendered.contains("Status"));
    assert!(rendered.contains("Notebook"));
    assert!(rendered.contains("Imported"));
    assert!(rendered.contains("Answer"));
    assert!(rendered.contains("Errors"));
    assert!(rendered.contains("Timing"));
    assert!(rendered.contains("Auto Notebook"));
    assert!(rendered.contains("Here is a concise summary."));
    assert!(rendered.contains("https://bad.example"));
}

#[test]
fn render_end_report_handles_empty_optional_fields() {
    let report = EndReport {
        status: "failed".to_string(),
        notebook_title: None,
        notebook_url: None,
        prompt: "Prompt".to_string(),
        answer: None,
        imported: 0,
        failed: vec![],
        errors: vec!["fatal: login timeout".to_string()],
        duration_ms: 7000,
    };

    let rendered = render_end_report(&report);
    assert!(rendered.contains("failed"));
    assert!(rendered.contains("login timeout"));
    assert!(rendered.contains("No answer received"));
}

#[test]
fn render_end_report_exact_text() {
    let report = EndReport {
        status: "ok".to_string(),
        notebook_title: Some("T".to_string()),
        notebook_url: None,
        prompt: "P".to_string(),
        answer: Some("  the answer \n".to_string()),
        imported: 12,
        failed: vec![ImportFailure { url: "u".to_string(), reason: "r".to_string() }],
        errors: vec![],
        duration_ms: 340282366920938463463374607431768211455,
    };
    let expected = "Status\n------\nok\n\nNotebook\n--------\nTitle: T\nURL: N/A\n\n\
Prompt\n------\nP\n\nImported\n--------\nSucceeded: 12\nFailed: 1\n- u :: r\n\n\
Answer\n------\nthe answer\n\nErrors\n------\nNone\n\n\
Timing\n------\nDurationMs: 340282366920938463463374607431768211455\n";
    assert_eq!(render_end_report(&report), expected);
}

#[test]
fn render_end_report_blank_answer_counts_as_none() {
    let report = EndReport {
        status: "failed".to_string(),
        notebook_title: None,
        notebook_url: None,
        prompt: String::new(),
        answer: Some(" \t ".to_string()),
        imported: 0,
        failed: vec![],
        errors: vec!["a".to_string(), "b".to_string()],
        duration_ms: 0,
    };
    let rendered = render_end_report(&report);
    assert!(rendered.contains("Answer\n------\nNo answer received\n\n"));
    assert!(rendered.contains("Errors\n------\n- a\n- b\n\n"));
    assert!(rendered.ends_with("DurationMs: 0\n"));
}
