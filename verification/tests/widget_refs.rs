use fonos_app::widget_refs::{expected_ref_type, resolve_widget_ref, validate_composite_refs, RefProps, WidgetDef};

fn widget(id: &str, type_tag: &str, stt_widget: &str, llm_widget: &str) -> WidgetDef {
    WidgetDef {
        id: id.into(),
        type_tag: type_tag.into(),
        props: Ok(RefProps { model_profile: String::new(), system: None, user_template: None }),
        stt_widget: stt_widget.into(),
        llm_widget: llm_widget.into(),
    }
}

#[test]
fn non_composite_widget_always_passes() {
    let w = widget("stt.custom", "stt", "anything", "");
    assert!(validate_composite_refs(&w, &[]).is_ok());
}

#[test]
fn composite_with_empty_ref_props_passes() {
    let w = widget("call.custom", "call", "", "");
    assert!(validate_composite_refs(&w, &[]).is_ok());
}

#[test]
fn composite_referencing_matching_capability_passes() {
    let stt = widget("stt.custom", "stt", "", "");
    let llm = widget("llm.custom", "llm", "", "");
    let w = widget("call.custom", "call", "stt.custom", "llm.custom");
    assert!(validate_composite_refs(&w, &[stt, llm]).is_ok());
}

#[test]
fn composite_referencing_unknown_widget_is_rejected() {
    let w = widget("call.custom", "call", "stt.nope", "");
    let e = validate_composite_refs(&w, &[]).unwrap_err();
    assert!(e.contains("stt.nope"), "error should name the missing id, got: {e}");
}

#[test]
fn composite_referencing_wrong_capability_type_is_rejected() {
    let llm = widget("llm.custom", "llm", "", "");
    let w = widget("call.custom", "call", "llm.custom", "");
    let e = validate_composite_refs(&w, &[llm]).unwrap_err();
    assert!(e.contains("stt_widget"), "error should name the offending prop, got: {e}");
}

#[test]
fn composite_referencing_another_composite_is_rejected() {
    let inner_call = widget("call.inner", "call", "", "");
    let w = widget("agent.custom", "agent", "", "call.inner");
    let e = validate_composite_refs(&w, &[inner_call]).unwrap_err();
    assert!(e.contains("call.inner"), "error should name the composite target, got: {e}");
}

#[test]
fn composite_ref_error_messages() {
    let llm = widget("llm.custom", "llm", "", "");
    let call = widget("call.x", "call", "", "");
    assert_eq!(
        validate_composite_refs(&widget("m", "meeting", "nope", ""), &[]).unwrap_err(),
        "widget 'm': stt_widget references unknown widget 'nope'"
    );
    assert_eq!(
        validate_composite_refs(&widget("m", "meeting", "llm.custom", ""), &[llm]).unwrap_err(),
        "widget 'm': stt_widget must reference a 'stt' widget, but 'llm.custom' is 'llm'"
    );
    assert_eq!(
        validate_composite_refs(&widget("d", "dialog", "", "call.x"), &[call]).unwrap_err(),
        "widget 'd': llm_widget can't reference 'call.x' — composite widgets can't reference each other"
    );
}

#[test]
fn dialog_and_agent_ignore_stt_widget() {
    assert!(validate_composite_refs(&widget("a", "agent", "dangling", ""), &[]).is_ok());
    assert!(validate_composite_refs(&widget("d", "dialog", "dangling", ""), &[]).is_ok());
}

#[test]
fn validated_references_resolve() {
    let stt = widget("stt.custom", "stt", "", "");
    let llm = widget("llm.custom", "llm", "", "");
    let widgets = vec![stt, llm];
    let call = widget("call.custom", "call", "stt.custom", "llm.custom");
    assert!(validate_composite_refs(&call, &widgets).is_ok());
    assert!(resolve_widget_ref("call", "stt_widget", &call.stt_widget, "stt", &widgets).is_ok());
    assert!(resolve_widget_ref("call", "llm_widget", &call.llm_widget, "llm", &widgets).is_ok());
}

#[test]
fn expected_ref_types() {
    assert_eq!(expected_ref_type("stt_widget"), Some("stt"));
    assert_eq!(expected_ref_type("llm_widget"), Some("llm"));
    assert_eq!(expected_ref_type("voice_profile"), None);
}

#[test]
fn unreadable_referenced_props_are_reported() {
    let broken = WidgetDef {
        id: "llm.broken".into(),
        type_tag: "llm".into(),
        props: Err("invalid type: string, expected a struct".into()),
        stt_widget: String::new(),
        llm_widget: String::new(),
    };
    let err = resolve_widget_ref("call", "llm_widget", "llm.broken", "llm", &[broken]).unwrap_err();
    assert_eq!(err, "call: llm_widget 'llm.broken' props: invalid type: string, expected a struct");
}
