//! Resolution of a composite widget's reference to a capability widget
//! (`stt_widget` / `llm_widget` props): an empty reference means "no
//! override"; otherwise the referenced widget must exist and be of the
//! expected capability type, and its model profile (and, for `llm` widgets,
//! its system prompt) comes back.
use vstd::prelude::*;

use crate::text::str_eq;

verus! {

/// The fields of a capability widget's props that reference resolution reads.
#[derive(Debug)]
pub struct RefProps {
    /// Model profile id the widget runs on (empty means "use the global one").
    pub model_profile: String,
    /// System prompt of an `llm` widget, if it has one.
    pub system: Option<String>,
    /// User-message template of an `llm` widget, if it has one.
    pub user_template: Option<String>,
}

impl RefProps {
    /// A field-by-field copy.
    pub fn duplicate(&self) -> (copy: Self)
        ensures
            copy == *self,
    {
        RefProps {
            model_profile: self.model_profile.clone(),
            system: match &self.system {
                Some(s) => Some(s.clone()),
                None => None,
            },
            user_template: match &self.user_template {
                Some(s) => Some(s.clone()),
                None => None,
            },
        }
    }
}

/// A widget definition as reference resolution sees it. `props` is `Err`
/// (with the parser's message) when the widget's props could not be read as
/// the props of its type. `stt_widget` and `llm_widget` are the widget's props
/// of those names read as plain strings (empty when absent or not a string):
/// the references a composite widget holds.
#[derive(Debug)]
pub struct WidgetDef {
    pub id: String,
    pub type_tag: String,
    pub props: Result<RefProps, String>,
    pub stt_widget: String,
    pub llm_widget: String,
}

/// The text of an optional string.
pub open spec fn opt_text(o: Option<String>) -> Option<Seq<char>> {
    match o {
        Some(s) => Some(s@),
        None => None,
    }
}

/// Index of the first widget at or after `i` whose id is `id`.
pub open spec fn find_widget(ws: Seq<WidgetDef>, id: Seq<char>, i: int) -> Option<int>
    decreases ws.len() - i,
{
    if i < 0 || i >= ws.len() {
        None
    } else if ws[i].id@ == id {
        Some(i)
    } else {
        find_widget(ws, id, i + 1)
    }
}

/// The outcome of resolving reference `id`, held in prop `prop` of an
/// `owner` composite, against `ws`, expecting a widget of type `expected`:
/// `Ok(None)` for an empty reference, `Ok(Some((model_profile, system)))` on
/// success, and the error text for a dangling reference, a type mismatch or
/// unreadable props.
pub open spec fn widget_ref_resolution(
    owner: Seq<char>,
    prop: Seq<char>,
    id: Seq<char>,
    expected: Seq<char>,
    ws: Seq<WidgetDef>,
) -> Result<Option<(Seq<char>, Option<Seq<char>>)>, Seq<char>> {
    if id.len() == 0 {
        Ok(None)
    } else {
        match find_widget(ws, id, 0) {
            None => Err(owner + ": "@ + prop + " '"@ + id + "' not found"@),
            Some(i) => if ws[i].type_tag@ != expected {
                Err(owner + " "@ + prop + " '"@ + id + "' is a '"@ + ws[i].type_tag@ + "' widget, expected '"@
                    + expected + "'"@)
            } else {
                match ws[i].props {
                    Err(e) => Err(owner + ": "@ + prop + " '"@ + id + "' props: "@ + e@),
                    Ok(p) => Ok(Some((p.model_profile@, opt_text(p.system)))),
                }
            },
        }
    }
}

proof fn lemma_find_widget_found(ws: Seq<WidgetDef>, id: Seq<char>, i: int)
    requires
        0 <= i,
        find_widget(ws, id, i) is Some,
    ensures
        i <= find_widget(ws, id, i)->0 < ws.len(),
        ws[find_widget(ws, id, i)->0].id@ == id,
    decreases ws.len() - i,
{
    if i < ws.len() && ws[i].id@ != id {
        lemma_find_widget_found(ws, id, i + 1);
    }
}

/// Resolve reference `id` held in prop `prop` of an `owner` composite.
pub fn resolve_widget_ref(owner: &str, prop: &str, id: &str, expected: &str, widgets: &[WidgetDef])
    -> (res: Result<Option<(String, Option<String>)>, String>)
    ensures
        match res {
            Ok(None) => widget_ref_resolution(owner@, prop@, id@, expected@, widgets@)
                == Ok::<Option<(Seq<char>, Option<Seq<char>>)>, Seq<char>>(None),
            Ok(Some(r)) => widget_ref_resolution(owner@, prop@, id@, expected@, widgets@)
                == Ok::<Option<(Seq<char>, Option<Seq<char>>)>, Seq<char>>(Some((r.0@, opt_text(r.1)))),
            Err(e) => widget_ref_resolution(owner@, prop@, id@, expected@, widgets@)
                == Err::<Option<(Seq<char>, Option<Seq<char>>)>, Seq<char>>(e@),
        },
{
    if id.is_empty() {
        return Ok(None);
    }
    let mut i: usize = 0;
    while i < widgets.len()
        invariant
            i <= widgets@.len(),
            id@.len() > 0,
            find_widget(widgets@, id@, 0) == find_widget(widgets@, id@, i as int),
        decreases widgets@.len() - i,
    {
        if str_eq(widgets[i].id.as_str(), id) {
            let w = &widgets[i];
            if !str_eq(w.type_tag.as_str(), expected) {
                let mut msg = String::from_str(owner);
                msg.append(" ");
                msg.append(prop);
                msg.append(" '");
                msg.append(id);
                msg.append("' is a '");
                msg.append(w.type_tag.as_str());
                msg.append("' widget, expected '");
                msg.append(expected);
                msg.append("'");
                return Err(msg);
            }
            return match &w.props {
                Err(e) => {
                    let mut msg = String::from_str(owner);
                    msg.append(": ");
                    msg.append(prop);
                    msg.append(" '");
                    msg.append(id);
                    msg.append("' props: ");
                    msg.append(e.as_str());
                    Err(msg)
                }
                Ok(p) => Ok(Some((p.model_profile.clone(), p.system.clone()))),
            };
        }
        i = i + 1;
    }
    let mut msg = String::from_str(owner);
    msg.append(": ");
    msg.append(prop);
    msg.append(" '");
    msg.append(id);
    msg.append("' not found");
    Err(msg)
}

/// The composite widget types, which hold references to capability widgets.
pub open spec fn is_composite_tag(type_tag: Seq<char>) -> bool {
    type_tag == "dialog"@ || type_tag == "call"@ || type_tag == "agent"@ || type_tag == "meeting"@
}

/// The reference props of a composite widget type, in the order they are
/// checked.
pub open spec fn ref_props(type_tag: Seq<char>) -> Seq<Seq<char>> {
    if type_tag == "call"@ || type_tag == "meeting"@ {
        seq!["stt_widget"@, "llm_widget"@]
    } else if type_tag == "dialog"@ || type_tag == "agent"@ {
        seq!["llm_widget"@]
    } else {
        Seq::empty()
    }
}

/// The capability type a reference prop must point at.
pub open spec fn expected_ref_tag(prop: Seq<char>) -> Option<Seq<char>> {
    if prop == "stt_widget"@ {
        Some("stt"@)
    } else if prop == "llm_widget"@ {
        Some("llm"@)
    } else {
        None
    }
}

/// The capability `type_tag` a composite's reference prop must point at
/// (`stt_widget` → `"stt"`, `llm_widget` → `"llm"`); `None` for any other
/// prop, which then carries no type constraint.
pub fn expected_ref_type(prop: &str) -> (t: Option<&'static str>)
    ensures
        match t {
            Some(e) => expected_ref_tag(prop@) == Some(e@),
            None => expected_ref_tag(prop@) is None,
        },
{
    proof {
        reveal_strlit("stt");
        reveal_strlit("llm");
    }
    if str_eq(prop, "stt_widget") {
        Some("stt")
    } else if str_eq(prop, "llm_widget") {
        Some("llm")
    } else {
        None
    }
}

/// The value of reference prop `prop` on `w`.
pub open spec fn ref_value(w: WidgetDef, prop: Seq<char>) -> Seq<char> {
    if prop == "stt_widget"@ { w.stt_widget@ } else { w.llm_widget@ }
}

/// What is wrong with composite `w`'s reference prop `prop` against `ws`, if
/// anything: an empty reference is fine; otherwise it must name an existing,
/// non-composite widget of the prop's expected capability type.
pub open spec fn ref_prop_error(w: WidgetDef, prop: Seq<char>, ws: Seq<WidgetDef>) -> Option<Seq<char>> {
    let value = ref_value(w, prop);
    if value.len() == 0 {
        None
    } else {
        match find_widget(ws, value, 0) {
            None => Some("widget '"@ + w.id@ + "': "@ + prop + " references unknown widget '"@ + value + "'"@),
            Some(i) => if is_composite_tag(ws[i].type_tag@) {
                Some("widget '"@ + w.id@ + "': "@ + prop + " can't reference '"@ + value
                    + "' — composite widgets can't reference each other"@)
            } else {
                match expected_ref_tag(prop) {
                    Some(e) => if ws[i].type_tag@ != e {
                        Some("widget '"@ + w.id@ + "': "@ + prop + " must reference a '"@ + e + "' widget, but '"@
                            + value + "' is '"@ + ws[i].type_tag@ + "'"@)
                    } else {
                        None
                    },
                    None => None,
                }
            },
        }
    }
}

/// The first error among `props[i..]` of `w`.
pub open spec fn first_ref_error(w: WidgetDef, props: Seq<Seq<char>>, ws: Seq<WidgetDef>, i: int) -> Option<Seq<char>>
    decreases props.len() - i,
{
    if i < 0 || i >= props.len() {
        None
    } else {
        match ref_prop_error(w, props[i], ws) {
            Some(e) => Some(e),
            None => first_ref_error(w, props, ws, i + 1),
        }
    }
}

/// The outcome of validating `w`'s reference props against `ws`: a
/// non-composite widget always passes; a composite fails with the first of
/// its reference props (in [`ref_props`] order) that is wrong.
pub open spec fn composite_refs_check(w: WidgetDef, ws: Seq<WidgetDef>) -> Result<(), Seq<char>> {
    if !is_composite_tag(w.type_tag@) {
        Ok(())
    } else {
        match first_ref_error(w, ref_props(w.type_tag@), ws, 0) {
            Some(e) => Err(e),
            None => Ok(()),
        }
    }
}

fn is_composite(type_tag: &str) -> (c: bool)
    ensures
        c == is_composite_tag(type_tag@),
{
    str_eq(type_tag, "dialog") || str_eq(type_tag, "call") || str_eq(type_tag, "agent") || str_eq(type_tag, "meeting")
}

fn check_ref_prop(w: &WidgetDef, prop: &str, widgets: &[WidgetDef]) -> (err: Option<String>)
    requires
        prop@ == "stt_widget"@ || prop@ == "llm_widget"@,
    ensures
        match err {
            Some(e) => ref_prop_error(*w, prop@, widgets@) == Some(e@),
            None => ref_prop_error(*w, prop@, widgets@) is None,
        },
{
    let value: &str = if str_eq(prop, "stt_widget") { w.stt_widget.as_str() } else { w.llm_widget.as_str() };
    if value.is_empty() {
        return None;
    }
    let mut i: usize = 0;
    while i < widgets.len()
        invariant
            i <= widgets@.len(),
            value@.len() > 0,
            value@ == ref_value(*w, prop@),
            find_widget(widgets@, value@, 0) == find_widget(widgets@, value@, i as int),
        decreases widgets@.len() - i,
    {
        if str_eq(widgets[i].id.as_str(), value) {
            let target = &widgets[i];
            if is_composite(target.type_tag.as_str()) {
                let mut msg = String::from_str("widget '");
                msg.append(w.id.as_str());
                msg.append("': ");
                msg.append(prop);
                msg.append(" can't reference '");
                msg.append(value);
                msg.append("' — composite widgets can't reference each other");
                return Some(msg);
            }
            if let Some(expected) = expected_ref_type(prop) {
                if !str_eq(target.type_tag.as_str(), expected) {
                    let mut msg = String::from_str("widget '");
                    msg.append(w.id.as_str());
                    msg.append("': ");
                    msg.append(prop);
                    msg.append(" must reference a '");
                    msg.append(expected);
                    msg.append("' widget, but '");
                    msg.append(value);
                    msg.append("' is '");
                    msg.append(target.type_tag.as_str());
                    msg.append("'");
                    return Some(msg);
                }
            }
            return None;
        }
        i = i + 1;
    }
    let mut msg = String::from_str("widget '");
    msg.append(w.id.as_str());
    msg.append("': ");
    msg.append(prop);
    msg.append(" references unknown widget '");
    msg.append(value);
    msg.append("'");
    Some(msg)
}

/// Validate a composite widget's reference props before it is saved: each
/// must be empty or name an existing, non-composite widget of the prop's
/// capability type (composites never reference each other). Non-composite
/// widgets always pass.
pub fn validate_composite_refs(widget: &WidgetDef, widgets: &[WidgetDef]) -> (res: Result<(), String>)
    ensures
        match res {
            Ok(()) => composite_refs_check(*widget, widgets@) == Ok::<(), Seq<char>>(()),
            Err(e) => composite_refs_check(*widget, widgets@) == Err::<(), Seq<char>>(e@),
        },
{
    let tag = widget.type_tag.as_str();
    if !is_composite(tag) {
        return Ok(());
    }
    let two = str_eq(tag, "call") || str_eq(tag, "meeting");
    proof {
        let props = ref_props(widget.type_tag@);
        if two {
            assert(props == seq!["stt_widget"@, "llm_widget"@]);
            assert(first_ref_error(*widget, props, widgets@, 2) is None);
        } else {
            assert(props == seq!["llm_widget"@]);
            assert(first_ref_error(*widget, props, widgets@, 1) is None);
        }
    }
    if two {
        if let Some(e) = check_ref_prop(widget, "stt_widget", widgets) {
            return Err(e);
        }
    }
    match check_ref_prop(widget, "llm_widget", widgets) {
        Some(e) => Err(e),
        None => Ok(()),
    }
}

proof fn lemma_first_ref_error_none(w: WidgetDef, props: Seq<Seq<char>>, ws: Seq<WidgetDef>, i: int, j: int)
    requires
        0 <= i <= j < props.len(),
        first_ref_error(w, props, ws, i) is None,
    ensures
        ref_prop_error(w, props[j], ws) is None,
    decreases j - i,
{
    if i < j {
        lemma_first_ref_error_none(w, props, ws, i + 1, j);
    }
}

/// A composite widget that passed [`validate_composite_refs`] resolves each
/// of its references at run time: resolving one (as composite `owner`) does
/// not fail with a dangling reference or a type mismatch, given that the
/// widgets' props are readable.
pub proof fn lemma_validated_refs_resolve(w: WidgetDef, ws: Seq<WidgetDef>, owner: Seq<char>, k: int)
    requires
        composite_refs_check(w, ws) is Ok,
        0 <= k < ref_props(w.type_tag@).len(),
        forall|i: int| 0 <= i < ws.len() ==> (#[trigger] ws[i]).props is Ok,
    ensures
        ({
            let prop = ref_props(w.type_tag@)[k];
            widget_ref_resolution(owner, prop, ref_value(w, prop), expected_ref_tag(prop)->0, ws) is Ok
        }),
{
    let props = ref_props(w.type_tag@);
    let prop = props[k];
    lemma_first_ref_error_none(w, props, ws, 0, k);
    assert(prop == "stt_widget"@ || prop == "llm_widget"@);
    let value = ref_value(w, prop);
    if value.len() > 0 {
        let found = find_widget(ws, value, 0);
        lemma_find_widget_found(ws, value, 0);
        assert(found is Some);
        let i = found->0;
        assert(ws[i].props is Ok);
    }
}

} // verus!
