use fonos_app::dialog::{dialog_input, dialog_opening, dialog_seed, RecordedRun};
use fonos_app::workflow::{AudioBuf, Data};

#[test]
fn dialog_refuses_audio_with_its_own_message() {
    let audio = Data::Audio(AudioBuf { samples: vec![1, 2], sample_rate: 16000 });
    assert_eq!(dialog_input(&audio).unwrap_err(), "dialog output expected text, got audio");
    assert_eq!(dialog_input(&Data::Text("answer".to_string())), Ok("answer"));
}

#[test]
fn dialog_opens_with_both_turns_and_the_follow_up_profile() {
    let run = RecordedRun {
        raw_text: "translate this".to_string(),
        workflow_id: Some("translate".to_string()),
        workflow_name: Some("Translate".to_string()),
    };
    let seed = dialog_seed(9, Some(run.clone()), "traduis ceci");
    let o = dialog_opening(seed, Some("翻译".to_string()), "2024-03-05T14:07:59", "traduis ceci", "gpt".to_string(), true);
    assert_eq!(o.title, "翻译 · 2024-03-05T14:07:59");
    assert_eq!(o.user_text, "translate this");
    assert_eq!(o.assistant_text, "traduis ceci");
    assert_eq!(o.model_profile, "gpt");
    assert!(o.markdown);
    // Not a built-in workflow: the stored name stands.
    let seed = dialog_seed(9, Some(run), "x");
    let o = dialog_opening(seed, None, "now", "x", String::new(), false);
    assert_eq!(o.title, "Translate · now");
    // No recorded run: the delivered text opens both turns' user side.
    let seed = dialog_seed(0, None, "final");
    let o = dialog_opening(seed, Some("ignored".to_string()), "now", "final", String::new(), false);
    assert_eq!(o.title, "Dialog · now");
    assert_eq!(o.user_text, "final");
}
