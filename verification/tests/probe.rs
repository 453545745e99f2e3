use fonos_app::dialog::{dialog_notebook, dialog_seed, dialog_title, dialog_turn_text, RecordedRun};
use fonos_app::probe::{
    diarize_status, download_end, download_step, engine_detection, follows_system_prompt, http_error_message,
    parse_model_ids, preserves_language, provider_models, scan_result, DownloadEvent, DownloadLine, ModelEntry,
    ModelsBody, ModelsReply,
};
use fonos_app::storage::{container_type, parse_source_type, saved_entry_id, ContainerType, SourceType};

fn e(id: Option<&str>, name: Option<&str>) -> ModelEntry {
    ModelEntry { id: id.map(String::from), name: name.map(String::from), owned_by: None }
}

fn owned(id: Option<&str>, name: Option<&str>, owner: &str) -> ModelEntry {
    ModelEntry { id: id.map(String::from), name: name.map(String::from), owned_by: Some(owner.to_string()) }
}

#[test]
fn model_ids_from_data_array_or_flat_array() {
    let data = ModelsBody { data: Some(vec![e(Some("gpt-4o"), None), e(None, Some("whisper")), e(Some(""), Some("x"))]), items: None };
    assert_eq!(parse_model_ids(&data), vec!["gpt-4o".to_string(), "whisper".to_string()]);
    let flat = ModelsBody { data: None, items: Some(vec![e(Some("llama3"), None), e(None, None)]) };
    assert_eq!(parse_model_ids(&flat), vec!["llama3".to_string()]);
    let neither = ModelsBody { data: None, items: None };
    assert!(parse_model_ids(&neither).is_empty());
    let both = ModelsBody { data: Some(vec![e(Some("a"), None)]), items: Some(vec![e(Some("b"), None)]) };
    assert_eq!(parse_model_ids(&both), vec!["a".to_string()]);
}

#[test]
fn scan_results_for_each_reply() {
    let r = scan_result(ModelsReply::Unreachable);
    assert!(!r.reachable && r.latency_ms == 0 && r.models.is_empty());
    let body = ModelsBody { data: Some(vec![e(Some("m1"), None)]), items: None };
    let ok = scan_result(ModelsReply::Answered { latency_ms: 12, success: true, body: body.clone() });
    assert!(ok.reachable);
    assert_eq!(ok.latency_ms, 12);
    assert_eq!(ok.models, vec!["m1".to_string()]);
    let denied = scan_result(ModelsReply::Answered { latency_ms: 5, success: false, body });
    assert!(denied.reachable);
    assert!(denied.models.is_empty());
}

#[test]
fn engine_detection_layers() {
    let d = engine_detection("ollama", "http://localhost:11434", false, false, true, false);
    assert_eq!(d.engine, "ollama");
    assert_eq!(d.url, "http://localhost:11434");
    assert!(!d.running && d.installed);
    assert!(engine_detection("vllm", "u", true, false, false, false).installed);
    assert!(!engine_detection("vllm", "u", false, false, false, false).installed);
}

#[test]
fn diarize_status_treats_a_missing_helper_as_unavailable() {
    let s = diarize_status(Ok((true, false)));
    assert!(s.available && !s.models_present);
    let missing = diarize_status(Err("helper not found".into()));
    assert!(!missing.available && !missing.models_present);
}

#[test]
fn download_lines_drive_the_download() {
    let p = download_step(false, DownloadLine::Progress(Some(40)));
    assert_eq!(p.event, Some(DownloadEvent::Progress(40)));
    assert!(!p.finished_ok && p.failure.is_none());
    let p0 = download_step(false, DownloadLine::Progress(None));
    assert_eq!(p0.event, Some(DownloadEvent::Progress(0)));
    let done = download_step(false, DownloadLine::Done);
    assert_eq!(done.event, Some(DownloadEvent::Done));
    assert!(done.finished_ok);
    let err = download_step(true, DownloadLine::Error(None));
    assert_eq!(err.event, Some(DownloadEvent::Error("download failed".into())));
    assert_eq!(err.failure, Some("download failed".to_string()));
    let msg = download_step(false, DownloadLine::Error(Some("disk full".into())));
    assert_eq!(msg.failure, Some("disk full".to_string()));
    let other = download_step(true, DownloadLine::Other);
    assert!(other.event.is_none() && other.finished_ok);
    assert_eq!(download_end(true), (None, Ok(())));
    assert_eq!(
        download_end(false),
        (
            Some(DownloadEvent::Error("download ended without done".into())),
            Err("download ended without done".to_string())
        )
    );
}

#[test]
fn source_and_container_names() {
    assert_eq!(parse_source_type("dictation"), Some(SourceType::Dictation));
    assert_eq!(parse_source_type("workflow"), Some(SourceType::Workflow));
    assert_eq!(parse_source_type("Dictation"), None);
    assert_eq!(container_type(Some("meeting_session")), ContainerType::MeetingSession);
    assert_eq!(container_type(Some("nope")), ContainerType::Notebook);
    assert_eq!(container_type(None), ContainerType::Notebook);
}

#[test]
fn dialog_seed_and_title() {
    let run = RecordedRun {
        raw_text: "selected words".into(),
        workflow_id: Some("wf.explain".into()),
        workflow_name: Some("Explain selection".into()),
    };
    let seed = dialog_seed(7, Some(run.clone()), "final");
    assert_eq!(seed.user_text, "selected words");
    assert_eq!(seed.workflow_id.as_deref(), Some("wf.explain"));
    assert_eq!(seed.stored_name, "Explain selection");
    let unnamed = RecordedRun { workflow_name: None, ..run.clone() };
    assert_eq!(dialog_seed(7, Some(unnamed), "final").stored_name, "Dialog");
    let no_entry = dialog_seed(0, Some(run), "final");
    assert_eq!(no_entry.user_text, "final");
    assert_eq!(no_entry.workflow_id, None);
    assert_eq!(no_entry.stored_name, "Dialog");
    assert_eq!(dialog_seed(3, None, "final").user_text, "final");
    assert_eq!(dialog_title("Dialog", "2024-03-05T14:07:59Z"), "Dialog · 2024-03-05T14:07:59Z");
}

#[test]
fn provider_model_listing() {
    let data = ModelsBody {
        data: Some(vec![owned(Some("gpt-4o"), None, "openai"), e(None, Some("named-only")), e(Some("local"), None)]),
        items: None,
    };
    assert_eq!(
        provider_models(&data),
        vec![("gpt-4o".to_string(), "openai".to_string()), ("local".to_string(), String::new())]
    );
    let flat = ModelsBody { data: None, items: Some(vec![e(None, Some("llama3")), e(Some(""), Some("x"))]) };
    assert_eq!(provider_models(&flat), vec![("llama3".to_string(), String::new())]);
    assert!(provider_models(&ModelsBody { data: None, items: None }).is_empty());
}

#[test]
fn http_errors_keep_two_hundred_characters() {
    assert_eq!(http_error_message("401 Unauthorized", "bad key"), "HTTP 401 Unauthorized: bad key");
    let long = "x".repeat(250);
    let msg = http_error_message("500 Internal Server Error", &long);
    assert_eq!(msg, format!("HTTP 500 Internal Server Error: {}", "x".repeat(200)));
}

#[test]
fn model_probe_verdicts() {
    assert!(follows_system_prompt("  blue "));
    assert!(follows_system_prompt("Blue."));
    assert!(!follows_system_prompt("Red"));
    assert!(preserves_language("这个测试可以吗？"));
    assert!(!preserves_language("Is this test ok?"));
}

#[test]
fn dialog_and_history_guards() {
    assert_eq!(dialog_turn_text("  next question "), Some("next question".to_string()));
    assert_eq!(dialog_turn_text("   "), None);
    assert_eq!(dialog_notebook(12), Ok(12));
    assert_eq!(dialog_notebook(0), Err("dialog was not persisted (no container id)".to_string()));
    assert_eq!(saved_entry_id(3), Ok(3));
    assert_eq!(saved_entry_id(-1), Err("entry was not saved to history".to_string()));
}
