use fonos_app::workflow::{
    e2e_latency_ms, e2e_latency_now, expect_text, AudioBuf, ClipboardOutput, Data, DataKind, InFlight, ReplaceOutput,
    SelectionContext, SelectionSource, UppercaseProcessor,
};
use fonos_app::widget_refs::{RefProps, WidgetDef};
use fonos_app::workflow::{
    insert_press_enter, microphone_capture, notebook_container_id, panel_markdown, registry_role, speak_voice,
    ComponentRole,
};
use fonos_app::workflow::{fold_legacy_hotkey, HotkeyTrigger, WorkflowHotkeys};

fn output_widget(id: &str, type_tag: &str) -> WidgetDef {
    WidgetDef {
        id: id.to_string(),
        type_tag: type_tag.to_string(),
        props: Ok(RefProps { model_profile: String::new(), system: None, user_template: None }),
        stt_widget: String::new(),
        llm_widget: String::new(),
    }
}

#[test]
fn try_acquire_is_mutually_exclusive_and_releases_on_drop() {
    let mut flight = InFlight::new();

    let first = flight.try_acquire();
    assert!(first.is_some(), "first acquire should succeed while nothing is in flight");

    let second = flight.try_acquire();
    assert!(second.is_none(), "second acquire must fail while the first guard is held");

    flight.release(first.unwrap());
    let third = flight.try_acquire();
    assert!(third.is_some(), "acquire should succeed again once the prior guard is released");
}

#[test]
fn uppercase_processor_uppercases_text() {
    let p = UppercaseProcessor;
    assert_eq!(p.input_kind(), DataKind::Text);
    assert_eq!(p.output_kind(), DataKind::Text);
    match p.process(Data::Text("hello, world".to_string())) {
        Ok(Data::Text(t)) => assert_eq!(t, "HELLO, WORLD"),
        _ => panic!("text in, text out"),
    }
    let audio = Data::Audio(AudioBuf { samples: vec![0, 1], sample_rate: 16000 });
    match p.process(audio) {
        Err(e) => assert_eq!(e, "expected text, got audio"),
        Ok(_) => panic!("audio is refused"),
    }
}

#[test]
fn selection_source_yields_the_selected_text() {
    let src = SelectionSource;
    assert_eq!(src.output_kind(), DataKind::Text);
    let sel = SelectionContext { text: "picked".to_string(), app_name: "Notes".to_string(), editable: true };
    match src.acquired(sel) {
        Data::Text(t) => assert_eq!(t, "picked"),
        _ => panic!("selection is text"),
    }
    assert_eq!(ReplaceOutput.accepts(), DataKind::Text);
    assert_eq!(ClipboardOutput.accepts(), DataKind::Text);
}

#[test]
fn outputs_refuse_audio() {
    assert_eq!(expect_text(&Data::Text("x".into())), Ok("x"));
    let audio = Data::Audio(AudioBuf { samples: vec![], sample_rate: 16000 });
    assert_eq!(expect_text(&audio), Err("workflow output expected text, got audio".to_string()));
}

#[test]
fn e2e_latency_only_for_raw_insert_runs() {
    let widgets = vec![output_widget("out.insert", "insert"), output_widget("out.panel", "panel")];
    let insert = vec!["out.insert".to_string()];
    let panel = vec!["out.panel".to_string()];
    assert_eq!(e2e_latency_ms("hi", false, &insert, &widgets, Some(1_000), 1_250), Some(250));
    assert_eq!(e2e_latency_ms("", false, &insert, &widgets, Some(1_000), 1_250), None);
    assert_eq!(e2e_latency_ms("hi", true, &insert, &widgets, Some(1_000), 1_250), None);
    assert_eq!(e2e_latency_ms("hi", false, &panel, &widgets, Some(1_000), 1_250), None);
    assert_eq!(e2e_latency_ms("hi", false, &insert, &widgets, None, 1_250), None);
    assert_eq!(e2e_latency_ms("hi", false, &insert, &widgets, Some(2_000), 1_250), None);
}

#[test]
fn e2e_latency_now_reads_the_clock() {
    let widgets = vec![output_widget("out.insert", "insert")];
    let insert = vec!["out.insert".to_string()];
    let ms = e2e_latency_now("hi", false, &insert, &widgets, Some(0)).expect("clock is past the epoch");
    assert!(ms > 1_600_000_000_000);
    assert_eq!(e2e_latency_now("hi", true, &insert, &widgets, Some(0)), None);
}

fn wf(hotkey: &str, triggers: Vec<HotkeyTrigger>) -> WorkflowHotkeys {
    WorkflowHotkeys { hotkey: hotkey.to_string(), triggers }
}

#[test]
fn fold_legacy_hotkey_becomes_hotkey_chip_and_clears_field() {
    let mut w = wf("cmd+shift+z", vec![]);
    fold_legacy_hotkey(&mut w);

    assert!(w.hotkey.is_empty(), "legacy hotkey field cleared");
    assert_eq!(w.triggers.len(), 1, "exactly one hotkey chip");
    assert_eq!(w.triggers[0].combo, "cmd+shift+z");
    assert_eq!(w.triggers[0].capture, None, "capture is None (no source widget context here)");
}

#[test]
fn fold_legacy_hotkey_does_not_duplicate_existing_combo() {
    let mut w = wf("cmd+shift+z", vec![HotkeyTrigger { combo: "cmd+shift+z".into(), capture: None }]);
    fold_legacy_hotkey(&mut w);

    assert!(w.hotkey.is_empty(), "legacy hotkey field cleared");
    let matching: Vec<_> = w.triggers.iter().filter(|t| t.combo == "cmd+shift+z").collect();
    assert_eq!(matching.len(), 1, "no duplicate hotkey chip for the same combo");
}

#[test]
fn folding_twice_changes_nothing_more() {
    let mut w = wf("alt+space", vec![HotkeyTrigger { combo: "f5".into(), capture: Some("hold".into()) }]);
    fold_legacy_hotkey(&mut w);
    let once = w.clone();
    fold_legacy_hotkey(&mut w);
    assert_eq!(w, once);
    assert_eq!(w.triggers.len(), 2);
}

#[test]
fn registry_roles_of_the_desktop_components() {
    assert_eq!(registry_role("selection"), Some(ComponentRole::Source));
    assert_eq!(registry_role("microphone"), Some(ComponentRole::Source));
    assert_eq!(registry_role("stt"), Some(ComponentRole::Processor));
    assert_eq!(registry_role("llm"), Some(ComponentRole::Processor));
    for tag in ["insert", "replace", "clipboard", "notebook", "speak", "panel"] {
        assert_eq!(registry_role(tag), Some(ComponentRole::Output), "{tag}");
    }
    assert_eq!(registry_role("uppercase"), None);
    assert_eq!(registry_role("Selection"), None);
    assert_eq!(registry_role(""), None);
}

#[test]
fn absent_component_props_take_their_defaults() {
    assert_eq!(microphone_capture(None), "hold");
    assert_eq!(microphone_capture(Some("toggle")), "toggle");
    assert!(!insert_press_enter(None));
    assert!(insert_press_enter(Some(true)));
    assert_eq!(notebook_container_id(None), 0);
    assert_eq!(notebook_container_id(Some(12)), 12);
    assert_eq!(speak_voice(None, None), (String::new(), "default".to_string()));
    assert_eq!(speak_voice(Some("kokoro"), Some("af_bella")), ("kokoro".to_string(), "af_bella".to_string()));
    assert!(!panel_markdown(None));
    assert!(panel_markdown(Some(true)));
}
