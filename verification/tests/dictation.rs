use fonos_app::dictation::{
    apple_speech_service, dictation_mode_llm_props, dictation_source, injects_raw_transcript, interactive_mode,
    is_local_endpoint, language_code, monitor_index_containing, pill_after_transcript, stats_model, stt_choice,
    stt_failure_message, stt_model_name, MonitorRect, PillUpdate, RecordingFlag, SttChoice,
};
use fonos_app::storage::SourceType;
use fonos_app::widget_refs::{RefProps, WidgetDef};

fn builtin() -> MonitorRect {
    MonitorRect { x: 0, y: 0, w: 3024, h: 1964 }
}

fn external() -> MonitorRect {
    MonitorRect { x: 3024, y: 0, w: 3840, h: 2160 }
}

#[test]
fn center_on_external_selects_external() {
    let rects = [builtin(), external()];
    assert_eq!(monitor_index_containing(&rects, 3024 + 1920, 1080), Some(1));
}

#[test]
fn center_on_builtin_selects_builtin() {
    let rects = [builtin(), external()];
    assert_eq!(monitor_index_containing(&rects, 1500, 980), Some(0));
}

#[test]
fn stranded_center_on_dead_display_selects_none() {
    let rects = [builtin()];
    assert_eq!(monitor_index_containing(&rects, 3024 + 1920, 1080), None);
}

#[test]
fn edges_are_left_inclusive_right_exclusive() {
    let rects = [builtin()];
    assert_eq!(monitor_index_containing(&rects, 0, 0), Some(0));
    assert_eq!(monitor_index_containing(&rects, 3024, 0), None);
    assert_eq!(monitor_index_containing(&rects, 0, 1964), None);
}

#[test]
fn dictation_empty_monitor_set_selects_none() {
    assert_eq!(monitor_index_containing(&[], 100, 100), None);
}

#[test]
fn negative_origin_display_is_found() {
    let left = MonitorRect { x: -1920, y: -200, w: 1920, h: 1080 };
    let rects = [builtin(), left];
    assert_eq!(monitor_index_containing(&rects, -10, 0), Some(1));
    assert_eq!(monitor_index_containing(&rects, -1921, 0), None);
}

#[test]
fn local_endpoints_are_loopback_hosts() {
    assert!(is_local_endpoint("http://localhost:8000/v1"));
    assert!(is_local_endpoint("http://127.0.0.1:1234"));
    assert!(!is_local_endpoint("https://api.openai.com/v1"));
}

#[test]
fn recording_flag_take_and_reset() {
    let mut f = RecordingFlag::new();
    assert!(!f.is_recording());
    f.set_recording();
    assert!(f.is_recording());
    assert!(f.take_recording());
    assert!(!f.is_recording());
    assert!(!f.take_recording());
    f.set_recording();
    assert!(f.force_reset_recording());
    assert!(!f.force_reset_recording());
    f.set_recording();
    f.clear_recording_flag();
    assert!(!f.is_recording());
}

fn llm_widget(id: &str, system: Option<&str>, user_template: Option<&str>) -> WidgetDef {
    WidgetDef {
        id: id.to_string(),
        type_tag: "llm".to_string(),
        props: Ok(RefProps {
            model_profile: String::new(),
            system: system.map(|s| s.to_string()),
            user_template: user_template.map(|s| s.to_string()),
        }),
        stt_widget: String::new(),
        llm_widget: String::new(),
    }
}

#[test]
fn dictation_modes_with_llm_content() {
    let widgets = vec![
        llm_widget("llm.polish", Some("Polish."), None),
        llm_widget("llm.empty", None, None),
        llm_widget("llm.raw", Some("never used"), None),
    ];
    let p = dictation_mode_llm_props(&widgets, "polish").expect("polish has a prompt");
    assert_eq!(p.system.as_deref(), Some("Polish."));
    assert!(dictation_mode_llm_props(&widgets, "empty").is_none());
    assert!(dictation_mode_llm_props(&widgets, "raw").is_none());
    assert!(dictation_mode_llm_props(&widgets, "").is_none());
    assert!(dictation_mode_llm_props(&widgets, "missing").is_none());
}

#[test]
fn stt_choice_override_then_widget_then_global() {
    assert_eq!(stt_choice(Some("apple-speech"), "p"), SttChoice::AppleSpeech);
    assert_eq!(stt_choice(Some("ov"), "p"), SttChoice::Profile("ov".to_string()));
    assert_eq!(stt_choice(None, "apple-speech"), SttChoice::AppleSpeech);
    assert_eq!(stt_choice(None, "p"), SttChoice::Profile("p".to_string()));
    assert_eq!(stt_choice(None, ""), SttChoice::Global);
}

#[test]
fn apple_speech_service_has_no_endpoint() {
    let svc = apple_speech_service();
    assert_eq!(svc.base_url, "");
    assert_eq!(svc.model, "apple-speech");
    assert_eq!(svc.provider, "apple");
    assert_eq!(svc.stt_api, "whisper");
}

#[test]
fn language_codes_for_known_and_unknown_names() {
    assert_eq!(language_code(""), "");
    assert_eq!(language_code("  auto "), "");
    assert_eq!(language_code("Chinese"), "zh");
    assert_eq!(language_code(" english "), "en");
    assert_eq!(language_code("Cantonese"), "yue");
    assert_eq!(language_code("Klingon"), "klingon");
}

#[test]
fn stt_model_labels() {
    assert_eq!(stt_model_name(""), "fast");
    assert_eq!(stt_model_name("whisper-1"), "whisper-1");
    assert_eq!(stats_model("apple", "", ""), "Apple Speech (server)");
    assert_eq!(stats_model("apple", "", "on-device"), "Apple Speech (on-device)");
    assert_eq!(stats_model("openai", "", "x"), "fast");
    assert_eq!(stats_model("openai", "whisper-1", ""), "whisper-1");
    assert_eq!(stt_failure_message("openai", "http://h", "boom"), "STT failed via openai at http://h: boom");
}

#[test]
fn transcript_delivery_decisions() {
    assert!(interactive_mode("raw"));
    assert!(!interactive_mode("agent"));
    assert!(!interactive_mode("sts-page"));
    assert!(injects_raw_transcript("raw", "hi"));
    assert!(!injects_raw_transcript("raw", ""));
    assert!(!injects_raw_transcript("polish", "hi"));
    assert_eq!(pill_after_transcript("agent", false, "hi", true), None);
    assert_eq!(pill_after_transcript("raw", false, "hi", false), None);
    assert_eq!(pill_after_transcript("polish", true, "hi", true), Some(PillUpdate::Processing));
    assert_eq!(pill_after_transcript("polish", true, "", true), Some(PillUpdate::Stop));
    assert_eq!(pill_after_transcript("raw", false, "hi", true), Some(PillUpdate::Stop));
    assert_eq!(dictation_source("agent"), SourceType::Agent);
    assert_eq!(dictation_source("sts-page"), SourceType::Agent);
    assert_eq!(dictation_source("note"), SourceType::Note);
    assert_eq!(dictation_source("raw"), SourceType::Dictation);
}
