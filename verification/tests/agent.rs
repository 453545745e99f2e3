use fonos_app::agent::{
    agent_any_anthropic, agent_profile_id, agent_prompt, default_max_turns, default_timeout_secs, default_voice,
    resolve_agent_llm_service, resolve_agent_llm_widget_ref, sanitize_skill_name, skill_info, skill_infos,
    spoken_excerpt, AgentProps, RegisteredSkill, SkillParamInfo, NO_AGENT_PROFILE_MESSAGE,
};
use fonos_app::agent::{agent_llm_provider, skill_file_name};
use fonos_app::meeting::ModelProfile;
use fonos_app::widget_refs::{RefProps, WidgetDef};
use fonos_app::workflow::SelectionContext;

fn base_props() -> AgentProps {
    AgentProps::default()
}

fn props_ok(model_profile: &str) -> Result<RefProps, String> {
    Ok(RefProps { model_profile: model_profile.to_string(), system: None, user_template: None })
}

fn llm_widget_def(id: &str, model_profile: &str) -> WidgetDef {
    WidgetDef {
        id: id.to_string(),
        type_tag: "llm".to_string(),
        props: props_ok(model_profile),
        stt_widget: String::new(),
        llm_widget: String::new(),
    }
}

fn llm_widget(id: &str, model_profile: &str) -> WidgetDef {
    llm_widget_def(id, model_profile)
}

fn agent_widget(id: &str, llm_widget_ref: &str) -> WidgetDef {
    WidgetDef {
        id: id.to_string(),
        type_tag: "agent".to_string(),
        props: props_ok(""),
        stt_widget: String::new(),
        llm_widget: llm_widget_ref.to_string(),
    }
}

fn profile(id: &str, provider: &str) -> ModelProfile {
    ModelProfile {
        id: id.to_string(),
        provider: provider.to_string(),
        base_url: "http://x.example".to_string(),
        model: "m".to_string(),
        api_key: String::new(),
    }
}

/// The built-in `agent.default` widget (no reference), as every config has.
fn builtin_widgets() -> Vec<WidgetDef> {
    vec![agent_widget("agent.default", "")]
}

/// Overlay `w` onto `widgets` by id (a config widget with a built-in id
/// replaces the built-in; any other id is appended).
fn overlay(widgets: &mut Vec<WidgetDef>, w: WidgetDef) {
    match widgets.iter().position(|x| x.id == w.id) {
        Some(i) => widgets[i] = w,
        None => widgets.push(w),
    }
}

#[test]
fn default_config_is_not_anthropic() {
    assert!(!agent_any_anthropic(&builtin_widgets(), &[], "", ""));
}

#[test]
fn legacy_chain_anthropic_fires_even_when_widget_ref_points_elsewhere() {
    let profiles = vec![profile("anthropic-llm", "anthropic"), profile("local-llm", "openai")];
    let mut widgets = builtin_widgets();
    overlay(&mut widgets, agent_widget("agent.default", "llm.local"));
    overlay(&mut widgets, llm_widget("llm.local", "local-llm"));
    assert!(agent_any_anthropic(&widgets, &profiles, "", "anthropic-llm"));
}

#[test]
fn custom_agent_widget_ref_anthropic_fires() {
    let profiles = vec![profile("anthropic-llm", "anthropic"), profile("local-llm", "openai")];
    let mut widgets = builtin_widgets();
    overlay(&mut widgets, agent_widget("agent.default", "llm.local"));
    overlay(&mut widgets, llm_widget("llm.local", "local-llm"));
    overlay(&mut widgets, agent_widget("agent.custom", "llm.remote"));
    overlay(&mut widgets, llm_widget("llm.remote", "anthropic-llm"));
    assert!(agent_any_anthropic(&widgets, &profiles, "local-llm", "local-llm"));
}

#[test]
fn agent_default_ref_anthropic_fires() {
    let profiles = vec![profile("anthropic-llm", "anthropic")];
    let mut widgets = builtin_widgets();
    overlay(&mut widgets, agent_widget("agent.default", "llm.remote"));
    overlay(&mut widgets, llm_widget("llm.remote", "anthropic-llm"));
    assert!(agent_any_anthropic(&widgets, &profiles, "", "local-llm"));
}

#[test]
fn dangling_widget_ref_is_skipped_not_treated_as_fallthrough() {
    let profiles = vec![profile("anthropic-llm", "anthropic"), profile("local-llm", "openai")];
    let mut widgets = builtin_widgets();
    overlay(&mut widgets, agent_widget("agent.default", "llm.missing"));
    assert!(!agent_any_anthropic(&widgets, &profiles, "local-llm", "local-llm"));
}

#[test]
fn dangling_widget_ref_does_not_hide_anthropic_legacy_chain() {
    let profiles = vec![profile("anthropic-llm", "anthropic")];
    let mut widgets = builtin_widgets();
    overlay(&mut widgets, agent_widget("agent.default", "llm.missing"));
    assert!(agent_any_anthropic(&widgets, &profiles, "anthropic-llm", "anthropic-llm"));
}

#[test]
fn unresolvable_profile_counts_as_not_anthropic() {
    let mut widgets = builtin_widgets();
    overlay(&mut widgets, agent_widget("agent.default", "llm.ghost"));
    overlay(&mut widgets, llm_widget("llm.ghost", "also-ghost"));
    assert!(!agent_any_anthropic(&widgets, &[], "", "ghost-profile"));
}

#[test]
fn empty_ref_profile_falls_to_the_configured_chain_for_the_notice() {
    let profiles = vec![profile("anthropic-llm", "anthropic")];
    let mut widgets = builtin_widgets();
    overlay(&mut widgets, agent_widget("agent.custom", "llm.blank"));
    overlay(&mut widgets, llm_widget("llm.blank", ""));
    assert!(agent_any_anthropic(&widgets, &profiles, "anthropic-llm", ""));
}

#[test]
fn agent_props_defaults_from_empty_json_mirror_config_defaults() {
    let props = AgentProps::default();
    assert_eq!(props.llm_widget, "");
    assert!(!props.tts_enabled);
    assert_eq!(props.voice_profile, "");
    assert_eq!(props.voice, "default");
    assert_eq!(props.timeout_secs, 30);
    assert_eq!(props.max_turns, 20);
    assert_eq!(default_voice(), "default");
    assert_eq!(default_timeout_secs(), 30);
    assert_eq!(default_max_turns(), 20);
}

#[test]
fn resolve_agent_llm_widget_ref_empty_returns_none() {
    let props = base_props();
    assert_eq!(resolve_agent_llm_widget_ref(&props, &[]).unwrap(), None);
}

#[test]
fn resolve_agent_llm_widget_ref_resolves_model_profile() {
    let mut props = base_props();
    props.llm_widget = "llm.tuned".into();
    let widgets = vec![llm_widget_def("llm.tuned", "tuned-profile")];
    assert_eq!(resolve_agent_llm_widget_ref(&props, &widgets).unwrap(), Some("tuned-profile".to_string()));
}

#[test]
fn resolve_agent_llm_widget_ref_dangling_ref_errors() {
    let mut props = base_props();
    props.llm_widget = "llm.missing".into();
    let err = resolve_agent_llm_widget_ref(&props, &[]).unwrap_err();
    assert!(err.contains("llm.missing"), "error should name the missing id, got: {err}");
}

#[test]
fn resolve_agent_llm_widget_ref_type_mismatch_errors() {
    let mut props = base_props();
    props.llm_widget = "speak.x".into();
    let wrong_type_widget = WidgetDef {
        id: "speak.x".to_string(),
        type_tag: "speak".to_string(),
        props: props_ok(""),
        stt_widget: String::new(),
        llm_widget: String::new(),
    };
    let err = resolve_agent_llm_widget_ref(&props, &[wrong_type_widget]).unwrap_err();
    assert!(err.contains("expected 'llm'"), "error should mention type mismatch, got: {err}");
}

#[test]
fn agent_profile_chain() {
    assert_eq!(agent_profile_id(Some("ref".into()), "agent", "llm"), "ref");
    assert_eq!(agent_profile_id(None, "agent", "llm"), "agent");
    assert_eq!(agent_profile_id(None, "", "llm"), "llm");
}

#[test]
fn agent_service_errors_name_the_problem() {
    assert_eq!(resolve_agent_llm_service(&[], "").unwrap_err(), NO_AGENT_PROFILE_MESSAGE);
    assert_eq!(resolve_agent_llm_service(&[], "p9").unwrap_err(), "Agent LLM profile 'p9' not found");
    let p = resolve_agent_llm_service(&[profile("a", "openai"), profile("p9", "anthropic")], "p9").unwrap();
    assert_eq!(p.provider, "anthropic");
}

#[test]
fn skill_file_names_are_sanitized() {
    assert_eq!(sanitize_skill_name("my skill/v2.json"), "my_skill_v2_json");
    assert_eq!(sanitize_skill_name("ok-name_1"), "ok-name_1");
    assert_eq!(sanitize_skill_name("天气"), "天气");
    let once = sanitize_skill_name("a b?c");
    assert_eq!(sanitize_skill_name(&once), once);
}

#[test]
fn skill_summaries_mark_builtin_skills() {
    let param = SkillParamInfo {
        name: "city".to_string(),
        description: "Which city".to_string(),
        required: true,
        default_value: None,
    };
    let skills = vec![
        RegisteredSkill { name: "weather".into(), description: "Weather".into(), enabled: true, parameters: vec![param.clone()] },
        RegisteredSkill { name: "mine".into(), description: "Custom".into(), enabled: false, parameters: vec![] },
    ];
    let builtin = vec!["weather".to_string()];
    let infos = skill_infos(skills.clone(), &builtin);
    assert_eq!(infos.len(), 2);
    assert_eq!(infos[0].id, "weather");
    assert_eq!(infos[0].skill_type, "native");
    assert!(infos[0].builtin);
    assert_eq!(infos[0].parameters, vec![param]);
    assert_eq!(infos[1].skill_type, "custom");
    assert!(!infos[1].builtin);
    assert!(!infos[1].enabled);
    assert_eq!(skill_info(skills[1].clone(), &[]).name, "mine");
}

#[test]
fn agent_prompt_frames_a_selection() {
    let sel = SelectionContext { text: "the text".into(), app_name: "Notes".into(), editable: true };
    assert_eq!(
        agent_prompt(Some(&sel), "summarize"),
        "[Selected text from Notes]:\n\"\"\"\nthe text\n\"\"\"\n\nUser instruction: summarize"
    );
    let empty = SelectionContext { text: String::new(), app_name: "Notes".into(), editable: true };
    assert_eq!(agent_prompt(Some(&empty), "hi"), "hi");
    assert_eq!(agent_prompt(None, "hi"), "hi");
}

#[test]
fn spoken_excerpt_keeps_three_sentences() {
    assert_eq!(spoken_excerpt("One. Two! Three? Four."), "One. Two! Three?");
    assert_eq!(spoken_excerpt("一。二！三？四。"), "一。二！三？");
    assert_eq!(spoken_excerpt("No end"), "No end");
    assert_eq!(spoken_excerpt("A. B."), "A. B.");
}

#[test]
fn chat_only_notice_provider_label() {
    let profiles = vec![profile("anthropic-llm", "anthropic")];
    assert_eq!(agent_llm_provider(&builtin_widgets(), &profiles, "anthropic-llm", ""), "anthropic");
    assert_eq!(agent_llm_provider(&builtin_widgets(), &profiles, "", ""), "");
}

#[test]
fn skill_files_are_named_after_the_sanitized_skill() {
    assert_eq!(skill_file_name("My Skill!"), "My_Skill_.json");
}
