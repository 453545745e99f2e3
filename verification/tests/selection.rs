use fonos_app::float_anchor::FloatAnchors;
use fonos_app::selection::{activate_app_script, js_escape, restore_plan, ClipboardRestore, ClipboardSnapshot};

#[test]
fn js_escape_handles_quotes_backslashes_and_newlines() {
    assert_eq!(js_escape("it's"), "it\\'s");
    assert_eq!(js_escape("a\\b"), "a\\\\b");
    assert_eq!(js_escape("line1\r\nline2"), "line1\\nline2");
    assert_eq!(js_escape("plain"), "plain");
    assert_eq!(js_escape(""), "");
}

#[test]
fn js_escaped_text_is_one_line() {
    let escaped = js_escape("error:\nsomething\r\nwent 'wrong'\n");
    assert!(!escaped.contains('\n') && !escaped.contains('\r'));
    assert_eq!(escaped, "error:\\nsomething\\nwent \\'wrong\\'\\n");
}

#[test]
fn activate_script_quotes_the_app_name() {
    assert_eq!(activate_app_script("Notes"), "tell application \"Notes\" to activate");
    assert_eq!(activate_app_script("My \"App\""), "tell application \"My \\\"App\\\"\" to activate");
}

fn snap(
    text: Option<&str>,
    html: Option<&str>,
    image: Option<u8>,
    files: Option<Vec<&'static str>>,
) -> ClipboardSnapshot<u8, Vec<&'static str>> {
    ClipboardSnapshot { text: text.map(String::from), html: html.map(String::from), image, files }
}

#[test]
fn clipboard_restore_writes_the_richest_flavor() {
    match restore_plan(snap(Some("t"), Some("<b>t</b>"), Some(7), Some(vec!["/a"]))) {
        ClipboardRestore::Image(7) => {}
        _ => panic!("image wins"),
    }
    match restore_plan(snap(Some("t"), Some("<b>t</b>"), None, Some(vec!["/a"]))) {
        ClipboardRestore::Html(h, t) => {
            assert_eq!(h, "<b>t</b>");
            assert_eq!(t.as_deref(), Some("t"));
        }
        _ => panic!("html with its text"),
    }
    match restore_plan(snap(Some("t"), None, None, Some(vec!["/a"]))) {
        ClipboardRestore::Files(f) => assert_eq!(f, vec!["/a"]),
        _ => panic!("files before text"),
    }
    match restore_plan(snap(Some("t"), None, None, None)) {
        ClipboardRestore::Text(t) => assert_eq!(t, "t"),
        _ => panic!("text"),
    }
    assert!(matches!(restore_plan(snap(None, None, None, None)), ClipboardRestore::Nothing));
}

#[test]
fn float_home_moves_the_indicator_and_follow_keeps_home() {
    let mut a: FloatAnchors<(i64, i64)> = FloatAnchors::new();
    assert_eq!(a.float_anchor(), None);
    assert_eq!(a.float_home(), None);
    a.set_float_home((100, 40));
    assert_eq!(a.float_anchor(), Some((100, 40)));
    assert_eq!(a.float_home(), Some((100, 40)));
    a.set_float_anchor((300, 90));
    assert_eq!(a.float_anchor(), Some((300, 90)));
    assert_eq!(a.float_home(), Some((100, 40)));
}
