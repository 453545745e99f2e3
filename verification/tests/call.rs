use fonos_app::call::{
    after_listen, after_transcript, default_barge_in, default_max_turns, default_vad_silence_ms, default_voice,
    first_turn_text, logs_to_prune, resolve_call_llm_tier, resolve_call_llm_widget_ref, resolve_call_stt_tier,
    resolve_call_stt_widget_ref, silence_hang_ms, AfterListen, AfterTranscript, CallFlag, ListenOutcome,
    DEFAULT_CALL_PERSONA,
};
use fonos_app::widget_refs::{RefProps, WidgetDef};
use fonos_app::call::{CallEvent, CallNext};

fn widget(id: &str, type_tag: &str, model_profile: &str, system: Option<&str>) -> WidgetDef {
    WidgetDef {
        id: id.to_string(),
        type_tag: type_tag.to_string(),
        props: Ok(RefProps {
            model_profile: model_profile.to_string(),
            system: system.map(|s| s.to_string()),
            user_template: None,
        }),
        stt_widget: String::new(),
        llm_widget: String::new(),
    }
}

fn llm_widget_def(id: &str, model_profile: &str, system: Option<&str>) -> WidgetDef {
    widget(id, "llm", model_profile, system)
}

fn stt_widget_def(id: &str, model_profile: &str) -> WidgetDef {
    widget(id, "stt", model_profile, None)
}

#[test]
fn resolve_call_llm_widget_ref_empty_returns_none() {
    assert_eq!(resolve_call_llm_widget_ref("", &[]).unwrap(), None);
}

#[test]
fn resolve_call_llm_widget_ref_resolves_profile_and_system() {
    let widgets = vec![llm_widget_def("llm.tuned", "tuned-profile", Some("You are Rex."))];
    assert_eq!(
        resolve_call_llm_widget_ref("llm.tuned", &widgets).unwrap(),
        Some(("tuned-profile".to_string(), Some("You are Rex.".to_string())))
    );
}

#[test]
fn resolve_call_llm_widget_ref_dangling_ref_errors() {
    let err = resolve_call_llm_widget_ref("llm.missing", &[]).unwrap_err();
    assert!(err.contains("llm.missing"), "error should name the missing id, got: {err}");
}

#[test]
fn resolve_call_llm_widget_ref_type_mismatch_errors() {
    let err = resolve_call_llm_widget_ref("stt.x", &[stt_widget_def("stt.x", "p")]).unwrap_err();
    assert!(err.contains("expected 'llm'"), "error should mention type mismatch, got: {err}");
}

#[test]
fn resolve_call_stt_widget_ref_empty_returns_none() {
    assert_eq!(resolve_call_stt_widget_ref("", &[]).unwrap(), None);
}

#[test]
fn resolve_call_stt_widget_ref_resolves_model_profile() {
    let widgets = vec![stt_widget_def("stt.tuned", "tuned-stt-profile")];
    assert_eq!(
        resolve_call_stt_widget_ref("stt.tuned", &widgets).unwrap(),
        Some("tuned-stt-profile".to_string())
    );
}

#[test]
fn resolve_call_stt_widget_ref_dangling_ref_errors() {
    let err = resolve_call_stt_widget_ref("stt.missing", &[]).unwrap_err();
    assert!(err.contains("stt.missing"), "error should name the missing id, got: {err}");
}

#[test]
fn resolve_call_stt_widget_ref_type_mismatch_errors() {
    let err = resolve_call_stt_widget_ref("llm.x", &[llm_widget_def("llm.x", "p", None)]).unwrap_err();
    assert!(err.contains("expected 'stt'"), "error should mention type mismatch, got: {err}");
}

#[test]
fn resolve_call_stt_tier_empty_ref_profile_falls_to_global() {
    assert_eq!(resolve_call_stt_tier(Some("")), None);
    assert_eq!(resolve_call_stt_tier(None), None);
}

#[test]
fn resolve_call_stt_tier_usable_ref_wins_including_apple_speech() {
    assert_eq!(resolve_call_stt_tier(Some("tuned")), Some("tuned".to_string()));
    assert_eq!(resolve_call_stt_tier(Some("apple-speech")), Some("apple-speech".to_string()));
}

#[test]
fn resolve_call_llm_tier_ref_profile_and_system_win() {
    let (tier, persona) =
        resolve_call_llm_tier(Some(("tuned-profile".into(), Some("You are Rex.".into()))), "legacy-profile");
    assert_eq!(tier, Some("tuned-profile".to_string()));
    assert_eq!(persona, "You are Rex.");
}

#[test]
fn resolve_call_llm_tier_empty_ref_profile_falls_to_legacy_then_global() {
    let (tier, persona) =
        resolve_call_llm_tier(Some((String::new(), Some("You are Rex.".into()))), "legacy-profile");
    assert_eq!(tier, Some("legacy-profile".to_string()));
    assert_eq!(persona, "You are Rex.");

    let (tier, _) = resolve_call_llm_tier(Some((String::new(), None)), "");
    assert_eq!(tier, None, "empty ref profile + empty legacy field ⇒ global");
}

#[test]
fn resolve_call_llm_tier_ref_without_system_means_no_persona() {
    let (_, persona) = resolve_call_llm_tier(Some(("p".into(), None)), "");
    assert_eq!(persona, "");
}

#[test]
fn resolve_call_llm_tier_no_ref_uses_legacy_field_and_default_persona() {
    let (tier, persona) = resolve_call_llm_tier(None, "legacy-profile");
    assert_eq!(tier, Some("legacy-profile".to_string()));
    assert_eq!(persona, DEFAULT_CALL_PERSONA);

    let (tier, persona) = resolve_call_llm_tier(None, "");
    assert_eq!(tier, None);
    assert_eq!(persona, DEFAULT_CALL_PERSONA);
}

#[test]
fn call_tier_empty_ref_profile_matches_no_ref_model() {
    for legacy in ["", "legacy-profile"] {
        let (with_ref, _) = resolve_call_llm_tier(Some((String::new(), Some("x".into()))), legacy);
        let (without_ref, _) = resolve_call_llm_tier(None, legacy);
        assert_eq!(with_ref, without_ref);
    }
}

#[test]
fn call_flag_refuses_while_recording_and_toggles() {
    let mut flag = CallFlag::new();
    assert!(!flag.is_call_active());
    let err = flag.start_call(true).unwrap_err();
    assert_eq!(err, "Busy — finish the current turn first.");
    assert!(!flag.is_call_active());
    assert_eq!(flag.start_call(false), Ok(true));
    assert!(flag.is_call_active());
    assert_eq!(flag.start_call(false), Ok(false));
    flag.call_stop();
    assert!(!flag.is_call_active());
}

#[test]
fn call_defaults_match_the_widget_defaults() {
    assert_eq!(default_voice(), "default");
    assert_eq!(default_max_turns(), 8);
    assert_eq!(default_vad_silence_ms(), 800);
    assert!(default_barge_in());
}

#[test]
fn call_session_decisions() {
    assert_eq!(silence_hang_ms(100), 500);
    assert_eq!(silence_hang_ms(800), 800);
    assert_eq!(silence_hang_ms(5000), 2000);
    assert_eq!(first_turn_text(Some("  ".into())), None);
    assert_eq!(first_turn_text(Some(" hi ".into())), Some(" hi ".to_string()));
    assert_eq!(first_turn_text(None), None);
    assert_eq!(after_listen(ListenOutcome::Cancelled), AfterListen::End("hangup"));
    assert_eq!(after_listen(ListenOutcome::Timeout), AfterListen::End("timeout"));
    assert_eq!(after_listen(ListenOutcome::Utterance), AfterListen::Transcribe);
    assert_eq!(after_transcript(Ok("  what time is it? ".into())), AfterTranscript::Reply("what time is it?".into()));
    assert_eq!(after_transcript(Ok(" ".into())), AfterTranscript::Relisten(None));
    assert_eq!(after_transcript(Err("stt down".into())), AfterTranscript::Relisten(Some("stt down".into())));
}

#[test]
fn oldest_call_logs_are_pruned() {
    let entries: Vec<(String, u64)> = vec![
        ("call-6.log".into(), 60),
        ("notes.txt".into(), 1),
        ("call-1.log".into(), 10),
        ("call-3.log".into(), 30),
        ("call-2b.log".into(), 20),
        ("call-2a.log".into(), 20),
        ("call-5.log".into(), 50),
    ];
    assert_eq!(logs_to_prune(&entries), vec!["call-1.log".to_string(), "call-2b.log".to_string()]);
    assert!(logs_to_prune(&entries[..4]).is_empty());
    assert!(logs_to_prune(&[]).is_empty());
}

fn active_flag() -> CallFlag {
    let mut f = CallFlag::new();
    assert_eq!(f.start_call(false), Ok(true));
    f
}

#[test]
fn call_begins_with_the_first_text_or_listens() {
    assert_eq!(active_flag().begin_loop(Some("hello".to_string())), CallNext::Reply("hello".to_string()));
    assert_eq!(active_flag().begin_loop(Some("  ".to_string())), CallNext::Listen);
    assert_eq!(active_flag().begin_loop(None), CallNext::Listen);
    let mut idle = CallFlag::new();
    assert_eq!(idle.begin_loop(Some("hello".to_string())), CallNext::End("hangup"));
    assert!(!idle.is_call_active());
}

#[test]
fn call_loop_order_listen_transcribe_reply() {
    let mut f = active_flag();
    let s = f.step(CallEvent::Listened(ListenOutcome::Utterance));
    assert_eq!(s.next, CallNext::Transcribe);
    assert_eq!(s.error, None);
    let s = f.step(CallEvent::Transcribed(Ok("  what time is it ".to_string())));
    assert_eq!(s.next, CallNext::Reply("what time is it".to_string()));
    let s = f.step(CallEvent::TurnDone);
    assert_eq!(s.next, CallNext::Listen);
    assert!(f.is_call_active());
    f.call_stop();
    let s = f.step(CallEvent::TurnDone);
    assert_eq!(s.next, CallNext::End("hangup"));
    assert!(!f.is_call_active());
}

#[test]
fn call_failures_keep_an_active_call_alive() {
    let mut f = active_flag();
    let s = f.step(CallEvent::Transcribed(Err("HTTP 502".to_string())));
    assert_eq!(s.error, Some("HTTP 502".to_string()));
    assert_eq!(s.next, CallNext::Listen);
    let s = f.step(CallEvent::Transcribed(Ok("   ".to_string())));
    assert_eq!(s.error, None);
    assert_eq!(s.next, CallNext::Listen);
    assert!(f.is_call_active());
    let s = f.step(CallEvent::Listened(ListenOutcome::Timeout));
    assert_eq!(s.next, CallNext::End("timeout"));
    assert!(!f.is_call_active());
    let mut f = active_flag();
    let s = f.step(CallEvent::Listened(ListenOutcome::Cancelled));
    assert_eq!(s.next, CallNext::End("hangup"));
    assert!(!f.is_call_active());
    let mut f = active_flag();
    let s = f.step(CallEvent::ArmFailed("no mic".to_string()));
    assert_eq!(s.error, Some("no mic".to_string()));
    assert_eq!(s.next, CallNext::End("hangup"));
    assert!(!f.is_call_active());
}

#[test]
fn barge_in_carries_the_interrupting_words_into_the_next_listen() {
    let mut f = active_flag();
    let s = f.step(CallEvent::Barged(vec![1, -2, 3]));
    assert_eq!(s.seed, Some(vec![1, -2, 3]));
    assert_eq!(s.next, CallNext::Listen);
    let s = f.step(CallEvent::Listened(ListenOutcome::Utterance));
    assert_eq!(s.seed, None);
    f.call_stop();
    let s = f.step(CallEvent::Barged(vec![4]));
    assert_eq!(s.next, CallNext::End("hangup"));
}
