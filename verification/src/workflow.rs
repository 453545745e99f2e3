//! Workflow runs: the single-run guard, the data passed between components,
//! the uppercase processor, the kinds of the built-in sources and outputs,
//! the registry's roles and prop defaults, and the end-to-end latency rule.
use vstd::prelude::*;

use crate::text::{str_eq, to_uppercase, unicode_uppercase};
use crate::widget_refs::WidgetDef;

verus! {

/// The part a component type plays in a workflow.
#[derive(Debug, Clone, Copy, PartialEq, Eq)]
pub enum ComponentRole {
    /// Produces the workflow's input.
    Source,
    /// Turns one piece of data into another.
    Processor,
    /// Delivers the workflow's result.
    Output,
}

/// The role under which the desktop registry registers the component type
/// `tag`: the sources `selection` and `microphone`, the processors `stt` and
/// `llm`, and the six outputs `insert`, `replace`, `clipboard`, `notebook`,
/// `speak` and `panel`; any other tag is not registered there.
pub open spec fn registered_role(tag: Seq<char>) -> Option<ComponentRole> {
    if tag == "selection"@ || tag == "microphone"@ {
        Some(ComponentRole::Source)
    } else if tag == "stt"@ || tag == "llm"@ {
        Some(ComponentRole::Processor)
    } else if tag == "insert"@ || tag == "replace"@ || tag == "clipboard"@ || tag == "notebook"@
        || tag == "speak"@ || tag == "panel"@ {
        Some(ComponentRole::Output)
    } else {
        None
    }
}

/// The role the desktop registry gives the component type `tag`, if it
/// registers it.
pub fn registry_role(tag: &str) -> (role: Option<ComponentRole>)
    ensures
        role == registered_role(tag@),
{
    if str_eq(tag, "selection") || str_eq(tag, "microphone") {
        Some(ComponentRole::Source)
    } else if str_eq(tag, "stt") || str_eq(tag, "llm") {
        Some(ComponentRole::Processor)
    } else if str_eq(tag, "insert") || str_eq(tag, "replace") || str_eq(tag, "clipboard")
        || str_eq(tag, "notebook") || str_eq(tag, "speak") || str_eq(tag, "panel") {
        Some(ComponentRole::Output)
    } else {
        None
    }
}

/// How the microphone source captures, from its `capture` prop: `hold`
/// when the prop is absent.
pub fn microphone_capture(capture: Option<&str>) -> (c: String)
    ensures
        c@ == match capture {
            Some(v) => v@,
            None => "hold"@,
        },
{
    match capture {
        Some(v) => String::from_str(v),
        None => String::from_str("hold"),
    }
}

/// Whether the insert output presses Enter after inserting, from its
/// `press_enter` prop: no when the prop is absent.
pub fn insert_press_enter(press_enter: Option<bool>) -> (enter: bool)
    ensures
        enter == match press_enter {
            Some(b) => b,
            None => false,
        },
{
    match press_enter {
        Some(b) => b,
        None => false,
    }
}

/// The notebook the notebook output appends to, from its `container_id`
/// prop: 0 (a new notebook) when the prop is absent.
pub fn notebook_container_id(container_id: Option<i64>) -> (id: i64)
    ensures
        id == match container_id {
            Some(v) => v,
            None => 0,
        },
{
    match container_id {
        Some(v) => v,
        None => 0,
    }
}

/// The voice profile and voice the speak output uses, from its
/// `voice_profile` and `voice` props: no profile (empty) and the `default`
/// voice when absent.
pub fn speak_voice(voice_profile: Option<&str>, voice: Option<&str>) -> (v: (String, String))
    ensures
        v.0@ == match voice_profile {
            Some(p) => p@,
            None => Seq::<char>::empty(),
        },
        v.1@ == match voice {
            Some(p) => p@,
            None => "default"@,
        },
{
    let profile = match voice_profile {
        Some(p) => String::from_str(p),
        None => String::new(),
    };
    let name = match voice {
        Some(p) => String::from_str(p),
        None => String::from_str("default"),
    };
    (profile, name)
}

/// Whether the panel output renders Markdown, from its `markdown` prop: no
/// when the prop is absent.
pub fn panel_markdown(markdown: Option<bool>) -> (md: bool)
    ensures
        md == match markdown {
            Some(b) => b,
            None => false,
        },
{
    match markdown {
        Some(b) => b,
        None => false,
    }
}

/// Whether a workflow run is in flight. At most one run is in flight at a
/// time; a re-entrant trigger is dropped.
pub struct InFlight {
    busy: bool,
}

/// Proof that the caller holds the in-flight slot; hand it back with
/// [`InFlight::release`] when the run ends.
pub struct InFlightGuard {
    _private: (),
}

/// What an acquire does to the slot: `(granted, busy afterwards)`. It is
/// granted exactly when the slot was free, and the slot is busy afterwards
/// either way.
pub open spec fn acquire_outcome(busy: bool) -> (bool, bool) {
    (!busy, true)
}

impl InFlight {
    /// Whether a run holds the slot.
    pub closed spec fn is_busy(&self) -> bool {
        self.busy
    }

    /// Nothing in flight.
    pub fn new() -> (f: Self)
        ensures
            !f.is_busy(),
    {
        InFlight { busy: false }
    }

    /// Take the slot when it is free; `None` while another run holds it.
    pub fn try_acquire(&mut self) -> (guard: Option<InFlightGuard>)
        ensures
            (guard is Some, final(self).is_busy()) == acquire_outcome(old(self).is_busy()),
    {
        if self.busy {
            None
        } else {
            self.busy = true;
            Some(InFlightGuard { _private: () })
        }
    }

    /// End the run that holds `guard`, freeing the slot.
    pub fn release(&mut self, guard: InFlightGuard)
        ensures
            !final(self).is_busy(),
    {
        self.busy = false;
    }
}

/// At most one run is in flight: of two acquires with no release between
/// them the second is refused, and once the slot is released (not busy) an
/// acquire is granted again.
pub proof fn lemma_in_flight_exclusive(busy: bool)
    ensures
        !acquire_outcome(acquire_outcome(busy).1).0,
        acquire_outcome(false).0,
{
}

/// The kind of data a workflow component produces or consumes.
#[derive(Debug, Clone, Copy, PartialEq, Eq, Structural)]
pub enum DataKind {
    Text,
    Audio,
}

/// Captured audio: 16-bit samples and their rate.
#[derive(Debug, Clone)]
pub struct AudioBuf {
    pub samples: Vec<i16>,
    pub sample_rate: u32,
}

/// Data passed between workflow components.
#[derive(Debug)]
pub enum Data {
    Text(String),
    Audio(AudioBuf),
}

/// The text a terminal output delivers; audio is refused (outputs accept
/// text only).
pub fn expect_text(data: &Data) -> (text: Result<&str, String>)
    ensures
        match data {
            Data::Text(t) => text matches Ok(s) && s@ == t@,
            Data::Audio(_) => text matches Err(e) && e@ == "workflow output expected text, got audio"@,
        },
{
    match data {
        Data::Text(t) => Ok(t.as_str()),
        Data::Audio(_) => Err(String::from_str("workflow output expected text, got audio")),
    }
}

/// A processor that uppercases its text input.
pub struct UppercaseProcessor;

impl UppercaseProcessor {
    /// Consumes text.
    pub fn input_kind(&self) -> (k: DataKind)
        ensures
            k == DataKind::Text,
    {
        DataKind::Text
    }

    /// Produces text.
    pub fn output_kind(&self) -> (k: DataKind)
        ensures
            k == DataKind::Text,
    {
        DataKind::Text
    }

    /// Uppercase the text input; audio input is an error.
    pub fn process(&self, input: Data) -> (out: Result<Data, String>)
        ensures
            match input {
                Data::Text(t) => out matches Ok(Data::Text(u)) && u@ == unicode_uppercase(t@),
                Data::Audio(_) => out matches Err(e) && e@ == "expected text, got audio"@,
            },
    {
        match input {
            Data::Text(t) => Ok(Data::Text(to_uppercase(t.as_str()))),
            Data::Audio(_) => Err(String::from_str("expected text, got audio")),
        }
    }
}

/// The current selection grabbed from the frontmost app.
#[derive(Debug, Clone)]
pub struct SelectionContext {
    pub text: String,
    pub app_name: String,
    pub editable: bool,
}

/// The selection source: produces the selected text.
pub struct SelectionSource;

impl SelectionSource {
    /// Produces text.
    pub fn output_kind(&self) -> (k: DataKind)
        ensures
            k == DataKind::Text,
    {
        DataKind::Text
    }

    /// The data handed downstream for a grabbed selection: its text (an empty
    /// selection is passed on as empty text).
    pub fn acquired(&self, selection: SelectionContext) -> (d: Data)
        ensures
            d matches Data::Text(t) && t == selection.text,
    {
        Data::Text(selection.text)
    }
}

/// The replace-selection output: consumes text.
pub struct ReplaceOutput;

impl ReplaceOutput {
    /// Accepts text.
    pub fn accepts(&self) -> (k: DataKind)
        ensures
            k == DataKind::Text,
    {
        DataKind::Text
    }
}

/// The copy-to-clipboard output: consumes text.
pub struct ClipboardOutput;

impl ClipboardOutput {
    /// Accepts text.
    pub fn accepts(&self) -> (k: DataKind)
        ensures
            k == DataKind::Text,
    {
        DataKind::Text
    }
}

/// Some widget at or after `i` has id `id` and type tag `insert`.
pub open spec fn is_insert_output(ws: Seq<WidgetDef>, id: Seq<char>) -> bool {
    exists|j: int| 0 <= j < ws.len() && #[trigger] ws[j].id@ == id && ws[j].type_tag@ == "insert"@
}

fn find_insert(widgets: &[WidgetDef], id: &str) -> (found: bool)
    ensures
        found == is_insert_output(widgets@, id@),
{
    let mut j: usize = 0;
    while j < widgets.len()
        invariant
            j <= widgets@.len(),
            forall|k: int| 0 <= k < j ==> !(#[trigger] widgets@[k].id@ == id@ && widgets@[k].type_tag@ == "insert"@),
        decreases widgets@.len() - j,
    {
        if str_eq(widgets[j].id.as_str(), id) && str_eq(widgets[j].type_tag.as_str(), "insert") {
            assert(widgets@[j as int].id@ == id@ && widgets@[j as int].type_tag@ == "insert"@);
            return true;
        }
        j = j + 1;
    }
    false
}

/// The end-to-end dictation latency to record for a finished run, if any:
/// only for a run that produced text, had no LLM step, delivered only to
/// insert outputs, and knows when capture ended — and only when the clock
/// moved forward since then.
pub open spec fn e2e_latency(
    final_text: Seq<char>,
    has_llm: bool,
    outputs: Seq<String>,
    ws: Seq<WidgetDef>,
    capture_end_ms: Option<i64>,
    now_ms: i64,
) -> Option<int> {
    if final_text.len() == 0 || has_llm {
        None
    } else if !(forall|k: int| 0 <= k < outputs.len() ==> is_insert_output(ws, #[trigger] outputs[k]@)) {
        None
    } else {
        match capture_end_ms {
            Some(end) => if now_ms - end > 0 { Some(now_ms - end) } else { None },
            None => None,
        }
    }
}

/// The latency to record for a run (see [`e2e_latency`]).
pub fn e2e_latency_ms(
    final_text: &str,
    has_llm: bool,
    outputs: &[String],
    widgets: &[WidgetDef],
    capture_end_ms: Option<i64>,
    now_ms: i64,
) -> (ms: Option<i64>)
    requires
        capture_end_ms matches Some(end) ==> i64::MIN <= now_ms - end <= i64::MAX,
    ensures
        match ms {
            Some(v) => e2e_latency(final_text@, has_llm, outputs@, widgets@, capture_end_ms, now_ms) == Some(v as int),
            None => e2e_latency(final_text@, has_llm, outputs@, widgets@, capture_end_ms, now_ms) is None,
        },
{
    if final_text.is_empty() || has_llm {
        return None;
    }
    let mut k: usize = 0;
    while k < outputs.len()
        invariant
            k <= outputs@.len(),
            forall|t: int| 0 <= t < k ==> is_insert_output(widgets@, #[trigger] outputs@[t]@),
        decreases outputs@.len() - k,
    {
        if !find_insert(widgets, outputs[k].as_str()) {
            return None;
        }
        k = k + 1;
    }
    match capture_end_ms {
        Some(end) => {
            let elapsed = now_ms - end;
            if elapsed <= 0 { None } else { Some(elapsed) }
        }
        None => None,
    }
}

/// Reads the system clock (`SystemTime::now`, milliseconds since the Unix
/// epoch, zero if the clock reads before it); nothing is claimed of the value.
#[verifier::external_body]
pub(crate) fn epoch_ms() -> i64 {
    std::time::SystemTime::now().duration_since(std::time::UNIX_EPOCH).map(|d| d.as_millis() as i64).unwrap_or(0)
}

/// The latency to record for a run that finishes now, on the system clock
/// (see [`e2e_latency`]): a latency is only ever one [`e2e_latency`] gives
/// for some reading of the clock, and there is none for a run that
/// [`e2e_latency`] refuses whatever the clock reads.
pub fn e2e_latency_now(
    final_text: &str,
    has_llm: bool,
    outputs: &[String],
    widgets: &[WidgetDef],
    capture_end_ms: Option<i64>,
) -> (ms: Option<i64>)
    ensures
        ms matches Some(v) ==> exists|now: i64| e2e_latency(final_text@, has_llm, outputs@, widgets@, capture_end_ms, now) == Some(v as int),
        (forall|now: i64| #[trigger] e2e_latency(final_text@, has_llm, outputs@, widgets@, capture_end_ms, now) is None) ==> ms is None,
{
    let now = epoch_ms();
    let fits = match capture_end_ms {
        Some(end) => {
            let d: i128 = now as i128 - end as i128;
            i64::MIN as i128 <= d && d <= i64::MAX as i128
        },
        None => true,
    };
    if fits {
        e2e_latency_ms(final_text, has_llm, outputs, widgets, capture_end_ms, now)
    } else {
        None
    }
}

/// A hotkey trigger chip of a workflow: its key combination and, when set,
/// how it captures audio (`hold` or `toggle`).
#[derive(Debug, Clone, PartialEq, Eq)]
pub struct HotkeyTrigger {
    pub combo: String,
    pub capture: Option<String>,
}

/// A workflow's hotkey bindings: the legacy single `hotkey` field and its
/// hotkey trigger chips.
#[derive(Debug, Clone, PartialEq, Eq)]
pub struct WorkflowHotkeys {
    pub hotkey: String,
    pub triggers: Vec<HotkeyTrigger>,
}

/// Some chip of `ts` has combination `combo`.
pub open spec fn has_combo(ts: Seq<HotkeyTrigger>, combo: Seq<char>) -> bool {
    exists|i: int| 0 <= i < ts.len() && #[trigger] ts[i].combo@ == combo
}

/// Fold the legacy `hotkey` field into the trigger chips: the field is
/// cleared, and a non-empty one becomes a chip with no capture mode unless a
/// chip with the same combination already exists. Folding again changes
/// nothing.
pub fn fold_legacy_hotkey(workflow: &mut WorkflowHotkeys)
    ensures
        old(workflow).hotkey@.len() == 0 ==> *final(workflow) == *old(workflow),
        old(workflow).hotkey@.len() > 0 ==> final(workflow).hotkey@.len() == 0,
        old(workflow).hotkey@.len() > 0 && has_combo(old(workflow).triggers@, old(workflow).hotkey@)
            ==> final(workflow).triggers@ == old(workflow).triggers@,
        old(workflow).hotkey@.len() > 0 && !has_combo(old(workflow).triggers@, old(workflow).hotkey@)
            ==> final(workflow).triggers@.len() == old(workflow).triggers@.len() + 1
            && final(workflow).triggers@.drop_last() == old(workflow).triggers@
            && final(workflow).triggers@.last().combo@ == old(workflow).hotkey@
            && final(workflow).triggers@.last().capture is None,
{
    if workflow.hotkey.as_str().is_empty() {
        return;
    }
    let mut combo = String::new();
    std::mem::swap(&mut combo, &mut workflow.hotkey);
    let mut dup = false;
    let mut i: usize = 0;
    while i < workflow.triggers.len()
        invariant
            i <= workflow.triggers@.len(),
            workflow.triggers@ == old(workflow).triggers@,
            combo@ == old(workflow).hotkey@,
            workflow.hotkey@.len() == 0,
            dup <==> exists|k: int| 0 <= k < i && #[trigger] workflow.triggers@[k].combo@ == combo@,
        decreases workflow.triggers@.len() - i,
    {
        if str_eq(workflow.triggers[i].combo.as_str(), combo.as_str()) {
            dup = true;
        }
        i = i + 1;
    }
    if !dup {
        workflow.triggers.push(HotkeyTrigger { combo, capture: None });
        proof {
            assert(workflow.triggers@.drop_last() =~= old(workflow).triggers@);
        }
    }
}

} // verus!
