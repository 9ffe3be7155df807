use std::path::PathBuf;

use notebooklm_runner::app::{
    import_failures_from, parse_import_failures, RunPipeline, RunStage, RunnerConfig,
};
use notebooklm_runner::io::end_writer::ImportFailure;

#[test]
fn successful_run_is_ok() {
    let mut run = RunPipeline::new("Mock Notebook");
    run.input_parsed("Summarize this");
    assert_eq!(run.command_name(), "connect");
    run.connected();
    assert_eq!(run.command_name(), "create_notebook");
    run.notebook_created(None, Some("https://nb".to_string()));
    assert_eq!(run.report.notebook_title.as_deref(), Some("Mock Notebook"));
    run.urls_imported(Some(2), vec![]);
    run.answered(Some("mock answer for: Summarize this".to_string()));
    assert_eq!(run.stage, RunStage::Done);
    run.finish(42);
    assert!(run.succeeded());
    assert_eq!(run.report.status, "ok");
    assert_eq!(run.report.imported, 2);
    assert_eq!(run.report.duration_ms, 42);
}

#[test]
fn failed_command_stops_the_run() {
    let mut run = RunPipeline::new("T");
    run.connected();
    run.command_failed("boom");
    assert_eq!(run.stage, RunStage::Done);
    assert_eq!(run.report.errors, vec!["create_notebook failed: boom".to_string()]);
    run.finish(1);
    assert!(!run.succeeded());
    assert_eq!(run.report.status, "failed");
}

#[test]
fn blank_answer_fails_the_run() {
    let mut run = RunPipeline::new("T");
    run.connected();
    run.notebook_created(Some("Given".to_string()), None);
    assert_eq!(run.report.notebook_title.as_deref(), Some("Given"));
    run.urls_imported(None, vec![]);
    assert_eq!(run.report.imported, 0);
    run.answered(Some("   ".to_string()));
    run.close_failed("late");
    run.finish(0);
    assert_eq!(
        run.report.errors,
        vec![
            "ask succeeded but returned empty answer".to_string(),
            "bridge close failed: late".to_string()
        ]
    );
    assert_eq!(run.report.status, "failed");
}

#[test]
fn import_failures_default_to_unknown() {
    let data: serde_json::Value =
        serde_json::from_str(r#"{"failed":[{"url":"https://x","reason":"timeout"},{"url":7}]}"#).unwrap();
    assert_eq!(
        parse_import_failures(&data),
        vec![
            ImportFailure { url: "https://x".to_string(), reason: "timeout".to_string() },
            ImportFailure { url: "unknown".to_string(), reason: "unknown".to_string() },
        ]
    );
    let none: serde_json::Value = serde_json::from_str(r#"{"imported":1}"#).unwrap();
    assert!(parse_import_failures(&none).is_empty());
    assert_eq!(
        import_failures_from(vec![(None, Some("r".to_string()))]),
        vec![ImportFailure { url: "unknown".to_string(), reason: "r".to_string() }]
    );
}

#[test]
fn reply_data_fills_the_report() {
    let mut run = RunPipeline::new("Default");
    let empty: serde_json::Value = serde_json::from_str("{}").unwrap();
    run.command_succeeded(&empty);
    assert_eq!(run.stage, RunStage::CreateNotebook);
    let created: serde_json::Value =
        serde_json::from_str(r#"{"title":"Made","url":"https://nb/1"}"#).unwrap();
    run.command_succeeded(&created);
    assert_eq!(run.report.notebook_title.as_deref(), Some("Made"));
    assert_eq!(run.report.notebook_url.as_deref(), Some("https://nb/1"));
    let imported: serde_json::Value =
        serde_json::from_str(r#"{"imported":3,"failed":[{"url":"u","reason":"r"}]}"#).unwrap();
    run.command_succeeded(&imported);
    assert_eq!(run.report.imported, 3);
    assert_eq!(run.report.failed.len(), 1);
    let answer: serde_json::Value = serde_json::from_str(r#"{"answer":"  yes "}"#).unwrap();
    run.command_succeeded(&answer);
    assert_eq!(run.report.answer.as_deref(), Some("  yes "));
    run.finish(5);
    assert_eq!(run.report.status, "ok");
}

#[test]
fn runner_config_title_override_keeps_paths() {
    let config = RunnerConfig {
        input: PathBuf::from("in.txt"),
        output: PathBuf::from("out.txt"),
        title: "Default".to_string(),
        sidecar_script: PathBuf::from("sidecar.js"),
        node_path: PathBuf::from("node"),
        profile_dir: Some(PathBuf::from("profile")),
        browser_path: None,
        timeout_sec: 0,
    };
    let titled = config.with_title(Some("From link".to_string()));
    assert_eq!(titled.title, "From link");
    assert_eq!(titled.input, PathBuf::from("in.txt"));
    assert_eq!(titled.output, PathBuf::from("out.txt"));
    assert_eq!(titled.profile_dir, Some(PathBuf::from("profile")));
    assert_eq!(config.with_title(None).title, "Default");
    let bridge = config.bridge_config();
    assert_eq!(bridge.sidecar_script, PathBuf::from("sidecar.js"));
    assert_eq!(bridge.node_path, PathBuf::from("node"));
    assert_eq!(bridge.timeout_sec, 0);
    assert_eq!(
        notebooklm_runner::bridge::process::BridgeClient::from_config(&bridge).timeout_ms(),
        1000
    );
}

#[test]
fn stage_payloads() {
    let urls = vec!["https://a".to_string(), "https://b".to_string()];
    let mut run = RunPipeline::new("Nb");
    run.input_parsed("Ask this");
    assert_eq!(run.command_payload(&urls), serde_json::Value::Object(serde_json::Map::new()));
    run.connected();
    assert_eq!(run.command_payload(&urls).to_string(), r#"{"title":"Nb"}"#);
    run.notebook_created(None, None);
    assert_eq!(run.command_payload(&urls).to_string(), r#"{"urls":["https://a","https://b"]}"#);
    run.urls_imported(None, vec![]);
    assert_eq!(run.command_payload(&urls).to_string(), r#"{"prompt":"Ask this"}"#);
}

#[test]
fn finish_recomputes_status() {
    let mut run = RunPipeline::new("T");
    run.input_failed("no file");
    run.finish(3);
    assert_eq!(run.report.status, "failed");
    assert_eq!(run.report.errors, vec!["Failed to parse start.txt: no file".to_string()]);
    assert_eq!(run.report.prompt, "");
}
