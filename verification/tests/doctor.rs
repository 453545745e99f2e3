use fonos_app::doctor::{
    check_permissions, conversation_tts_profile, conversation_voice, endpoint_finding, group_services, host_of,
    kokoro_switch_model, omlx_stale_process_decision, settings_pane_url, v1_url, FixAction, ServiceConfig, Severity,
};

fn svc(base_url: &str, provider: &str) -> ServiceConfig {
    ServiceConfig {
        base_url: base_url.to_string(),
        api_key: String::new(),
        model: "m".to_string(),
        provider: provider.to_string(),
        stt_api: String::new(),
    }
}

#[test]
fn both_signals_true_is_stale() {
    assert!(omlx_stale_process_decision(true, true));
}

#[test]
fn refused_without_matching_process_is_not_stale() {
    assert!(!omlx_stale_process_decision(true, false));
}

#[test]
fn matching_process_without_refusal_is_not_stale() {
    assert!(!omlx_stale_process_decision(false, true));
}

#[test]
fn neither_signal_is_not_stale() {
    assert!(!omlx_stale_process_decision(false, false));
}

#[test]
fn host_of_strips_scheme_and_trailing_slashes() {
    assert_eq!(host_of("http://localhost:8000/"), "localhost:8000");
    assert_eq!(host_of("https://api.openai.com/v1"), "api.openai.com/v1");
    assert_eq!(host_of("localhost:1234"), "localhost:1234");
}

#[test]
fn v1_url_inserts_v1_once() {
    assert_eq!(v1_url("http://localhost:8000", "models"), "http://localhost:8000/v1/models");
    assert_eq!(v1_url("http://localhost:8000/v1/", "models"), "http://localhost:8000/v1/models");
    assert_eq!(v1_url("https://h/v1", "chat/completions"), "https://h/v1/chat/completions");
}

#[test]
fn services_sharing_a_host_share_one_group() {
    let groups = group_services(
        svc("http://localhost:8000", "openai"),
        svc("http://localhost:8000", "openai"),
        svc("http://localhost:9000", "openai"),
    );
    assert_eq!(groups.len(), 2);
    assert_eq!(groups[0].0, "STT · LLM");
    assert_eq!(groups[0].1.base_url, "http://localhost:8000");
    assert_eq!(groups[1].0, "TTS");
}

#[test]
fn services_without_endpoint_are_skipped() {
    let groups = group_services(svc("", "apple"), svc("  ", "openai"), svc("http://h", "apple"));
    assert!(groups.is_empty());
}

#[test]
fn permissions_all_granted_is_one_pass_row() {
    let out = check_permissions(true, true);
    assert_eq!(out.len(), 1);
    assert_eq!(out[0].id, "permissions_ok");
    assert_eq!(out[0].severity, Severity::Pass);
    assert!(out[0].fix.is_none());
}

#[test]
fn missing_permissions_each_warn_with_a_pane_fix() {
    let out = check_permissions(false, false);
    assert_eq!(out.len(), 2);
    assert_eq!(out[0].id, "permission_mic");
    assert_eq!(out[1].id, "permission_accessibility");
    assert!(matches!(&out[0].fix, Some(FixAction::OpenSettingsPane { pane }) if pane == "microphone"));
    assert!(matches!(&out[1].fix, Some(FixAction::OpenSettingsPane { pane }) if pane == "accessibility"));
    let only_ax = check_permissions(true, false);
    assert_eq!(only_ax.len(), 1);
    assert_eq!(only_ax[0].severity, Severity::Warn);
}

#[test]
fn endpoint_findings_for_answer_refusal_and_stale_server() {
    let ok = endpoint_finding("STT".into(), "localhost:8000".into(), Ok(42), false);
    assert_eq!(ok.id, "endpoint_ok:localhost:8000");
    assert_eq!(ok.severity, Severity::Pass);
    assert_eq!(ok.message_params, vec!["STT".to_string(), "localhost:8000 · 42ms".to_string()]);
    let bad = endpoint_finding("LLM".into(), "h".into(), Err("refused".into()), false);
    assert_eq!(bad.id, "endpoint_bad:h");
    assert_eq!(bad.message_key, "doctor.endpoint_unreachable");
    let stale = endpoint_finding("LLM".into(), "h".into(), Err("refused".into()), true);
    assert_eq!(stale.message_key, "doctor.omlx_stale_process");
}

#[test]
fn conversation_profile_and_voice_fallbacks() {
    assert_eq!(conversation_tts_profile("  call-tts ", "global"), "call-tts");
    assert_eq!(conversation_tts_profile("   ", " global "), "global");
    assert_eq!(conversation_voice(" am_echo "), "am_echo");
    assert_eq!(conversation_voice(""), "default");
}

#[test]
fn kokoro_switch_skips_the_current_model() {
    let models = vec!["whisper-1".to_string(), "Kokoro-82M".to_string(), "kokoro-v2".to_string()];
    assert_eq!(kokoro_switch_model(&models, "kokoro-82m"), Some("kokoro-v2".to_string()));
    assert_eq!(kokoro_switch_model(&models, "tts-1"), Some("Kokoro-82M".to_string()));
    assert_eq!(kokoro_switch_model(&models[..1], "tts-1"), None);
}

#[test]
fn settings_panes_are_allowlisted() {
    assert_eq!(
        settings_pane_url("microphone").unwrap(),
        "x-apple.systempreferences:com.apple.preference.security?Privacy_Microphone"
    );
    assert!(settings_pane_url("screen_recording").unwrap().ends_with("Privacy_ScreenCapture"));
    assert_eq!(settings_pane_url("camera").unwrap_err(), "Unknown settings pane: camera");
}
