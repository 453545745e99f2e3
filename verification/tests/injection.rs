use fonos_app::injection::{
    alternate, injection_result, method_for, resolve_strategy_for_app, typing_plan, AppOverride, InjectionConfig,
    InjectionMethod, InjectionStrategy, TypeEvent, TYPE_CHUNK_UNITS,
};
use fonos_app::injection::{injection_step, InjectionStep, preflight_result, NO_ACCESSIBILITY_MESSAGE, SECURE_INPUT_MESSAGE};

fn config(default: &str, overrides: &[(&str, &str)]) -> InjectionConfig {
    InjectionConfig {
        injection_strategy: default.to_string(),
        injection_app_overrides: overrides
            .iter()
            .map(|(app, strategy)| AppOverride { app: app.to_string(), strategy: strategy.to_string() })
            .collect(),
    }
}

#[test]
fn parse_strategy_names() {
    assert_eq!(InjectionStrategy::parse("type"), InjectionStrategy::Type);
    assert_eq!(InjectionStrategy::parse("  Typing "), InjectionStrategy::Type);
    assert_eq!(InjectionStrategy::parse("KEYSTROKES"), InjectionStrategy::Type);
    assert_eq!(InjectionStrategy::parse("paste"), InjectionStrategy::Paste);
    assert_eq!(InjectionStrategy::parse("whatever"), InjectionStrategy::Paste);
    assert_eq!(InjectionStrategy::parse(""), InjectionStrategy::Paste);
}

#[test]
fn per_app_overrides_match_case_insensitive_substrings() {
    let cfg = config("paste", &[("  ", "type"), ("Terminal", "type"), ("term", "paste")]);
    assert_eq!(resolve_strategy_for_app(&cfg, Some("iTerm2 Terminal")), InjectionStrategy::Type);
    assert_eq!(resolve_strategy_for_app(&cfg, Some("xterm")), InjectionStrategy::Paste);
    assert_eq!(resolve_strategy_for_app(&cfg, Some("Notes")), InjectionStrategy::Paste);
    assert_eq!(resolve_strategy_for_app(&cfg, None), InjectionStrategy::Paste);
    let typing = config("type", &[]);
    assert_eq!(resolve_strategy_for_app(&typing, Some("Notes")), InjectionStrategy::Type);
}

#[test]
fn fallback_tries_the_other_strategy() {
    assert_eq!(alternate(InjectionStrategy::Paste), InjectionStrategy::Type);
    assert_eq!(method_for(InjectionStrategy::Type), InjectionMethod::SimulatedTyping);
    assert_eq!(injection_result(InjectionStrategy::Paste, Ok(()), None), Ok(InjectionMethod::ClipboardPaste));
    assert_eq!(
        injection_result(InjectionStrategy::Paste, Err("no clipboard".into()), Some(Ok(()))),
        Ok(InjectionMethod::SimulatedTyping)
    );
    assert_eq!(
        injection_result(InjectionStrategy::Type, Err("e1".into()), Some(Err("e2".into()))),
        Err("e1 (fallback Paste also failed: e2)".to_string())
    );
}

fn units(s: &str) -> Vec<u16> {
    s.encode_utf16().collect()
}

#[test]
fn typing_plan_returns_between_lines() {
    let plan = typing_plan("ab\ncd");
    assert_eq!(plan, vec![TypeEvent::Units(units("ab")), TypeEvent::Return, TypeEvent::Units(units("cd"))]);
    assert_eq!(typing_plan(""), vec![]);
    assert_eq!(typing_plan("\n"), vec![TypeEvent::Return]);
}

#[test]
fn typing_plan_chunks_at_most_twenty_units() {
    let text = "abcdefghijklmnopqrstuvwxyz";
    let plan = typing_plan(text);
    assert_eq!(plan, vec![TypeEvent::Units(units(&text[..20])), TypeEvent::Units(units(&text[20..]))]);
    assert_eq!(TYPE_CHUNK_UNITS, 20);
}

#[test]
fn typing_plan_never_splits_a_surrogate_pair() {
    let text = format!("{}😀", "a".repeat(19));
    let plan = typing_plan(&text);
    assert_eq!(plan, vec![TypeEvent::Units(units(&"a".repeat(19))), TypeEvent::Units(units("😀"))]);
    let mut joined: Vec<u16> = Vec::new();
    for e in typing_plan("héllo 😀 wörld, a fairly long line of text 🎉🎉") {
        match e {
            TypeEvent::Units(u) => {
                assert!(!u.is_empty() && u.len() <= 20);
                joined.extend(u);
            }
            TypeEvent::Return => panic!("single line"),
        }
    }
    assert_eq!(joined, units("héllo 😀 wörld, a fairly long line of text 🎉🎉"));
}

#[test]
fn preflight_blocks_without_permission_or_in_secure_fields() {
    assert_eq!(preflight_result(false, true), Err(NO_ACCESSIBILITY_MESSAGE.to_string()));
    assert_eq!(preflight_result(true, true), Err(SECURE_INPUT_MESSAGE.to_string()));
    assert_eq!(preflight_result(true, false), Ok(()));
}

#[test]
fn failed_preflight_ends_injection_before_any_attempt() {
    let pre = preflight_result(false, false);
    match injection_step(InjectionStrategy::Paste, &pre, &[]) {
        InjectionStep::Done(Err(e)) => assert_eq!(e, NO_ACCESSIBILITY_MESSAGE),
        other => panic!("unexpected step {other:?}"),
    }
    let pre = preflight_result(true, true);
    match injection_step(InjectionStrategy::Type, &pre, &[]) {
        InjectionStep::Done(Err(e)) => assert_eq!(e, SECURE_INPUT_MESSAGE),
        other => panic!("unexpected step {other:?}"),
    }
}

#[test]
fn injection_steps_try_the_chosen_then_the_other_strategy() {
    let ok = preflight_result(true, false);
    assert!(matches!(
        injection_step(InjectionStrategy::Paste, &ok, &[]),
        InjectionStep::Attempt(InjectionStrategy::Paste)
    ));
    assert!(matches!(
        injection_step(InjectionStrategy::Paste, &ok, &[Ok(())]),
        InjectionStep::Done(Ok(InjectionMethod::ClipboardPaste))
    ));
    let first_failed = [Err("no clipboard".to_string())];
    assert!(matches!(
        injection_step(InjectionStrategy::Paste, &ok, &first_failed),
        InjectionStep::Attempt(InjectionStrategy::Type)
    ));
    assert!(matches!(
        injection_step(InjectionStrategy::Paste, &ok, &[Err("no clipboard".to_string()), Ok(())]),
        InjectionStep::Done(Ok(InjectionMethod::SimulatedTyping))
    ));
    match injection_step(InjectionStrategy::Type, &ok, &[Err("a".to_string()), Err("b".to_string())]) {
        InjectionStep::Done(Err(e)) => assert_eq!(e, "a (fallback Paste also failed: b)"),
        other => panic!("unexpected step {other:?}"),
    }
}
