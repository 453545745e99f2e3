//! Dictation decisions: which monitor the indicator sits on, which
//! endpoints are local, the recording flag, which dictation modes carry an
//! LLM step, which speech-to-text service transcribes, the language code sent
//! with the audio, and what happens to a finished transcript.
use vstd::prelude::*;

use crate::doctor::ServiceConfig;
use crate::storage::SourceType;
use crate::text::{contains_str, seq_contains, str_eq, to_lowercase, trim, trim_seq, unicode_lowercase};
use crate::widget_refs::{find_widget, RefProps, WidgetDef};

verus! {

/// A monitor's physical bounds.
#[derive(Debug, Clone, Copy, PartialEq, Eq, Structural)]
pub struct MonitorRect {
    pub x: i32,
    pub y: i32,
    pub w: i32,
    pub h: i32,
}

/// `(cx, cy)` lies in `r`: left/top edges inclusive, right/bottom exclusive.
pub open spec fn rect_contains(r: MonitorRect, cx: int, cy: int) -> bool {
    r.x <= cx < r.x + r.w && r.y <= cy < r.y + r.h
}

/// Index of the first rect at or after `i` containing `(cx, cy)`.
pub open spec fn first_containing(rects: Seq<MonitorRect>, cx: int, cy: int, i: int) -> Option<int>
    decreases rects.len() - i,
{
    if i < 0 || i >= rects.len() {
        None
    } else if rect_contains(rects[i], cx, cy) {
        Some(i)
    } else {
        first_containing(rects, cx, cy, i + 1)
    }
}

/// Index of the first rect whose bounds contain the point `(cx, cy)`, else
/// `None`. Left edge inclusive, right/bottom exclusive.
pub fn monitor_index_containing(rects: &[MonitorRect], cx: i32, cy: i32) -> (idx: Option<usize>)
    ensures
        match idx {
            Some(i) => first_containing(rects@, cx as int, cy as int, 0) == Some(i as int),
            None => first_containing(rects@, cx as int, cy as int, 0) is None,
        },
{
    let mut i: usize = 0;
    while i < rects.len()
        invariant
            i <= rects@.len(),
            first_containing(rects@, cx as int, cy as int, 0) == first_containing(rects@, cx as int, cy as int, i as int),
        decreases rects@.len() - i,
    {
        let r = rects[i];
        let (x, y, w, h) = (r.x as i64, r.y as i64, r.w as i64, r.h as i64);
        if cx as i64 >= x && (cx as i64) < x + w && cy as i64 >= y && (cy as i64) < y + h {
            return Some(i);
        }
        i = i + 1;
    }
    None
}

/// The URL points at this machine (`localhost`, `127.0.0.1` or `0.0.0.0`).
pub open spec fn is_local_url(base_url: Seq<char>) -> bool {
    seq_contains(base_url, "localhost"@) || seq_contains(base_url, "127.0.0.1"@) || seq_contains(base_url, "0.0.0.0"@)
}

/// Whether `base_url` names a local endpoint (only those are warmed up: cloud
/// APIs don't cold-start and probes would cost money).
pub fn is_local_endpoint(base_url: &str) -> (local: bool)
    ensures
        local == is_local_url(base_url@),
{
    contains_str(base_url, "localhost") || contains_str(base_url, "127.0.0.1") || contains_str(base_url, "0.0.0.0")
}

/// Whether a dictation is recording; guards against duplicate start/stop
/// calls from rapid hotkey events.
pub struct RecordingFlag {
    recording: bool,
}

impl RecordingFlag {
    /// The flag's value.
    pub closed spec fn value(&self) -> bool {
        self.recording
    }

    /// Not recording.
    pub fn new() -> (f: Self)
        ensures
            !f.value(),
    {
        RecordingFlag { recording: false }
    }

    /// Check if currently recording.
    pub fn is_recording(&self) -> (r: bool)
        ensures
            r == self.value(),
    {
        self.recording
    }

    /// Mark recording as started.
    pub fn set_recording(&mut self)
        ensures
            final(self).value(),
    {
        self.recording = true;
    }

    /// Force-reset the flag (a stale `true` must not block future sessions);
    /// returns whether it was set, so the caller can report a stuck flag.
    pub fn force_reset_recording(&mut self) -> (was_recording: bool)
        ensures
            was_recording == old(self).value(),
            !final(self).value(),
    {
        let was = self.recording;
        self.recording = false;
        was
    }

    /// Silently clear the flag.
    pub fn clear_recording_flag(&mut self)
        ensures
            !final(self).value(),
    {
        self.recording = false;
    }

    /// Stop: clear the flag and report whether a recording was in progress
    /// (when not, there is nothing to stop or drain).
    pub fn take_recording(&mut self) -> (was_recording: bool)
        ensures
            was_recording == old(self).value(),
            !final(self).value(),
    {
        self.force_reset_recording()
    }
}

/// The LLM props of the `llm.{mode_id}` widget behind a dictation mode, when
/// it carries LLM content: none for the empty mode and `raw`, none when the
/// widget is missing or its props are unreadable, and none when it has
/// neither a system prompt nor a user template.
pub open spec fn mode_llm_props(ws: Seq<WidgetDef>, mode_id: Seq<char>) -> Option<RefProps> {
    if mode_id.len() == 0 || mode_id == "raw"@ {
        None
    } else {
        match find_widget(ws, "llm."@ + mode_id, 0) {
            Some(i) => match ws[i].props {
                Ok(p) => if p.system is Some || p.user_template is Some { Some(p) } else { None },
                Err(_) => None,
            },
            None => None,
        }
    }
}

/// Resolve the [`RefProps`] of the `llm.{mode_id}` widget backing a
/// dictation mode, if it has LLM content (see [`mode_llm_props`]).
pub fn dictation_mode_llm_props(widgets: &[WidgetDef], mode_id: &str) -> (props: Option<RefProps>)
    ensures
        props == mode_llm_props(widgets@, mode_id@),
{
    if mode_id.is_empty() || str_eq(mode_id, "raw") {
        return None;
    }
    let mut widget_id = String::from_str("llm.");
    widget_id.append(mode_id);
    let mut i: usize = 0;
    while i < widgets.len()
        invariant
            i <= widgets@.len(),
            mode_id@.len() > 0,
            mode_id@ != "raw"@,
            widget_id@ == "llm."@ + mode_id@,
            find_widget(widgets@, widget_id@, 0) == find_widget(widgets@, widget_id@, i as int),
        decreases widgets@.len() - i,
    {
        if str_eq(widgets[i].id.as_str(), widget_id.as_str()) {
            return match &widgets[i].props {
                Ok(p) => if p.system.is_some() || p.user_template.is_some() { Some(p.duplicate()) } else { None },
                Err(_) => None,
            };
        }
        i = i + 1;
    }
    None
}

/// The on-device Apple Speech sentinel profile.
pub const APPLE_SPEECH: &'static str = "apple-speech";

/// Which speech-to-text service transcribes a dictation.
#[derive(Debug, PartialEq, Eq)]
pub enum SttChoice {
    /// On-device Apple Speech.
    AppleSpeech,
    /// The model profile with this id.
    Profile(String),
    /// The global `"stt"` profile.
    Global,
}

/// The service choice: an explicit override profile wins outright (the
/// Apple Speech sentinel meaning on-device recognition); else the `stt`
/// widget's own profile, the sentinel again meaning on-device; else, when
/// that is empty, the global profile.
pub open spec fn stt_choice_is(c: SttChoice, override_profile: Option<Seq<char>>, widget_profile: Seq<char>) -> bool {
    match override_profile {
        Some(p) => if p == APPLE_SPEECH@ { c is AppleSpeech } else { c matches SttChoice::Profile(q) && q@ == p },
        None => if widget_profile == APPLE_SPEECH@ {
            c is AppleSpeech
        } else if widget_profile.len() > 0 {
            c matches SttChoice::Profile(q) && q@ == widget_profile
        } else {
            c is Global
        },
    }
}

/// Choose the speech-to-text service (see [`stt_choice_is`]).
pub fn stt_choice(override_profile: Option<&str>, widget_profile: &str) -> (c: SttChoice)
    ensures
        stt_choice_is(
            c,
            match override_profile {
                Some(p) => Some(p@),
                None => None,
            },
            widget_profile@,
        ),
{
    match override_profile {
        Some(p) => if str_eq(p, APPLE_SPEECH) { SttChoice::AppleSpeech } else { SttChoice::Profile(String::from_str(p)) },
        None => if str_eq(widget_profile, APPLE_SPEECH) {
            SttChoice::AppleSpeech
        } else if widget_profile.is_empty() {
            SttChoice::Global
        } else {
            SttChoice::Profile(String::from_str(widget_profile))
        },
    }
}

/// The service record of on-device Apple Speech: no endpoint, model
/// `apple-speech`, provider `apple`, Whisper-style API.
pub fn apple_speech_service() -> (svc: ServiceConfig)
    ensures
        svc.base_url@.len() == 0,
        svc.api_key@.len() == 0,
        svc.model@ == APPLE_SPEECH@,
        svc.provider@ == "apple"@,
        svc.stt_api@ == "whisper"@,
{
    ServiceConfig {
        base_url: String::new(),
        api_key: String::new(),
        model: String::from_str(APPLE_SPEECH),
        provider: String::from_str("apple"),
        stt_api: String::from_str("whisper"),
    }
}

/// The ISO 639-1 / BCP-47 code of a lower-case language name the
/// transcription settings offer.
pub open spec fn known_language_code(l: Seq<char>) -> Option<Seq<char>> {
    if l == "chinese"@ { Some("zh"@) }
    else if l == "english"@ { Some("en"@) }
    else if l == "japanese"@ { Some("ja"@) }
    else if l == "korean"@ { Some("ko"@) }
    else if l == "cantonese"@ { Some("yue"@) }
    else if l == "french"@ { Some("fr"@) }
    else if l == "german"@ { Some("de"@) }
    else if l == "spanish"@ { Some("es"@) }
    else if l == "portuguese"@ { Some("pt"@) }
    else if l == "italian"@ { Some("it"@) }
    else if l == "russian"@ { Some("ru"@) }
    else if l == "arabic"@ { Some("ar"@) }
    else if l == "hindi"@ { Some("hi"@) }
    else if l == "thai"@ { Some("th"@) }
    else if l == "vietnamese"@ { Some("vi"@) }
    else if l == "dutch"@ { Some("nl"@) }
    else if l == "polish"@ { Some("pl"@) }
    else if l == "turkish"@ { Some("tr"@) }
    else if l == "indonesian"@ { Some("id"@) }
    else { None }
}

/// The first two letters and the length of each language name and code,
/// which tell them apart.
proof fn lemma_language_literals()
    ensures
        "zh"@.len() == 2 && "zh"@[0] == 'z' && "zh"@[1] == 'h',
        "en"@.len() == 2 && "en"@[0] == 'e' && "en"@[1] == 'n',
        "ja"@.len() == 2 && "ja"@[0] == 'j' && "ja"@[1] == 'a',
        "ko"@.len() == 2 && "ko"@[0] == 'k' && "ko"@[1] == 'o',
        "yue"@.len() == 3 && "yue"@[0] == 'y' && "yue"@[1] == 'u',
        "fr"@.len() == 2 && "fr"@[0] == 'f' && "fr"@[1] == 'r',
        "de"@.len() == 2 && "de"@[0] == 'd' && "de"@[1] == 'e',
        "es"@.len() == 2 && "es"@[0] == 'e' && "es"@[1] == 's',
        "pt"@.len() == 2 && "pt"@[0] == 'p' && "pt"@[1] == 't',
        "it"@.len() == 2 && "it"@[0] == 'i' && "it"@[1] == 't',
        "ru"@.len() == 2 && "ru"@[0] == 'r' && "ru"@[1] == 'u',
        "ar"@.len() == 2 && "ar"@[0] == 'a' && "ar"@[1] == 'r',
        "hi"@.len() == 2 && "hi"@[0] == 'h' && "hi"@[1] == 'i',
        "th"@.len() == 2 && "th"@[0] == 't' && "th"@[1] == 'h',
        "vi"@.len() == 2 && "vi"@[0] == 'v' && "vi"@[1] == 'i',
        "nl"@.len() == 2 && "nl"@[0] == 'n' && "nl"@[1] == 'l',
        "pl"@.len() == 2 && "pl"@[0] == 'p' && "pl"@[1] == 'l',
        "tr"@.len() == 2 && "tr"@[0] == 't' && "tr"@[1] == 'r',
        "id"@.len() == 2 && "id"@[0] == 'i' && "id"@[1] == 'd',
        "chinese"@.len() == 7 && "chinese"@[0] == 'c' && "chinese"@[1] == 'h',
        "english"@.len() == 7 && "english"@[0] == 'e' && "english"@[1] == 'n',
        "japanese"@.len() == 8 && "japanese"@[0] == 'j' && "japanese"@[1] == 'a',
        "korean"@.len() == 6 && "korean"@[0] == 'k' && "korean"@[1] == 'o',
        "cantonese"@.len() == 9 && "cantonese"@[0] == 'c' && "cantonese"@[1] == 'a',
        "french"@.len() == 6 && "french"@[0] == 'f' && "french"@[1] == 'r',
        "german"@.len() == 6 && "german"@[0] == 'g' && "german"@[1] == 'e',
        "spanish"@.len() == 7 && "spanish"@[0] == 's' && "spanish"@[1] == 'p',
        "portuguese"@.len() == 10 && "portuguese"@[0] == 'p' && "portuguese"@[1] == 'o',
        "italian"@.len() == 7 && "italian"@[0] == 'i' && "italian"@[1] == 't',
        "russian"@.len() == 7 && "russian"@[0] == 'r' && "russian"@[1] == 'u',
        "arabic"@.len() == 6 && "arabic"@[0] == 'a' && "arabic"@[1] == 'r',
        "hindi"@.len() == 5 && "hindi"@[0] == 'h' && "hindi"@[1] == 'i',
        "thai"@.len() == 4 && "thai"@[0] == 't' && "thai"@[1] == 'h',
        "vietnamese"@.len() == 10 && "vietnamese"@[0] == 'v' && "vietnamese"@[1] == 'i',
        "dutch"@.len() == 5 && "dutch"@[0] == 'd' && "dutch"@[1] == 'u',
        "polish"@.len() == 6 && "polish"@[0] == 'p' && "polish"@[1] == 'o',
        "turkish"@.len() == 7 && "turkish"@[0] == 't' && "turkish"@[1] == 'u',
        "indonesian"@.len() == 10 && "indonesian"@[0] == 'i' && "indonesian"@[1] == 'n',
{
    reveal_strlit("zh");
    reveal_strlit("en");
    reveal_strlit("ja");
    reveal_strlit("ko");
    reveal_strlit("yue");
    reveal_strlit("fr");
    reveal_strlit("de");
    reveal_strlit("es");
    reveal_strlit("pt");
    reveal_strlit("it");
    reveal_strlit("ru");
    reveal_strlit("ar");
    reveal_strlit("hi");
    reveal_strlit("th");
    reveal_strlit("vi");
    reveal_strlit("nl");
    reveal_strlit("pl");
    reveal_strlit("tr");
    reveal_strlit("id");
    reveal_strlit("chinese");
    reveal_strlit("english");
    reveal_strlit("japanese");
    reveal_strlit("korean");
    reveal_strlit("cantonese");
    reveal_strlit("french");
    reveal_strlit("german");
    reveal_strlit("spanish");
    reveal_strlit("portuguese");
    reveal_strlit("italian");
    reveal_strlit("russian");
    reveal_strlit("arabic");
    reveal_strlit("hindi");
    reveal_strlit("thai");
    reveal_strlit("vietnamese");
    reveal_strlit("dutch");
    reveal_strlit("polish");
    reveal_strlit("turkish");
    reveal_strlit("indonesian");
}

/// The (lower-case English) language an ISO 639 code stands for, for the
/// codes of the languages transcription offers: the ISO 639-1 two-letter
/// codes, and the ISO 639-3 code `yue` for Cantonese, which has none.
pub open spec fn iso639_language(code: Seq<char>) -> Option<Seq<char>> {
    if code == "ar"@ { Some("arabic"@) }
    else if code == "de"@ { Some("german"@) }
    else if code == "en"@ { Some("english"@) }
    else if code == "es"@ { Some("spanish"@) }
    else if code == "fr"@ { Some("french"@) }
    else if code == "hi"@ { Some("hindi"@) }
    else if code == "id"@ { Some("indonesian"@) }
    else if code == "it"@ { Some("italian"@) }
    else if code == "ja"@ { Some("japanese"@) }
    else if code == "ko"@ { Some("korean"@) }
    else if code == "nl"@ { Some("dutch"@) }
    else if code == "pl"@ { Some("polish"@) }
    else if code == "pt"@ { Some("portuguese"@) }
    else if code == "ru"@ { Some("russian"@) }
    else if code == "th"@ { Some("thai"@) }
    else if code == "tr"@ { Some("turkish"@) }
    else if code == "vi"@ { Some("vietnamese"@) }
    else if code == "yue"@ { Some("cantonese"@) }
    else if code == "zh"@ { Some("chinese"@) }
    else { None }
}

/// The code sent for each offered language is the ISO 639 code of that very
/// language, and every code of the table is sent for its language: the
/// lookup and the code registry agree in both directions.
pub proof fn lemma_language_codes_are_iso(l: Seq<char>, code: Seq<char>)
    ensures
        known_language_code(l) == Some(code) ==> iso639_language(code) == Some(l),
        iso639_language(code) == Some(l) ==> known_language_code(l) == Some(code),
{
    lemma_language_literals();
}

/// The language code sent with the audio: none for an empty or `auto`
/// setting (surrounding whitespace ignored); else the code of the
/// lower-cased name, or the lower-cased name itself when it is not a known
/// one.
pub open spec fn language_code_of(language: Seq<char>) -> Seq<char> {
    let t = trim_seq(language);
    if t.len() == 0 || t == "auto"@ {
        Seq::empty()
    } else {
        let l = unicode_lowercase(t);
        match known_language_code(l) {
            Some(code) => code,
            None => l,
        }
    }
}

fn known_code(l: &str) -> (code: Option<&'static str>)
    ensures
        match code {
            Some(c) => known_language_code(l@) == Some(c@) && iso639_language(c@) == Some(l@),
            None => known_language_code(l@) is None,
        },
{
    proof {
        lemma_language_literals();
        reveal_strlit("zh"); reveal_strlit("en"); reveal_strlit("ja"); reveal_strlit("ko");
        reveal_strlit("yue"); reveal_strlit("fr"); reveal_strlit("de"); reveal_strlit("es");
        reveal_strlit("pt"); reveal_strlit("it"); reveal_strlit("ru"); reveal_strlit("ar");
        reveal_strlit("hi"); reveal_strlit("th"); reveal_strlit("vi"); reveal_strlit("nl");
        reveal_strlit("pl"); reveal_strlit("tr"); reveal_strlit("id");
    }
    if str_eq(l, "chinese") { Some("zh") }
    else if str_eq(l, "english") { Some("en") }
    else if str_eq(l, "japanese") { Some("ja") }
    else if str_eq(l, "korean") { Some("ko") }
    else if str_eq(l, "cantonese") { Some("yue") }
    else if str_eq(l, "french") { Some("fr") }
    else if str_eq(l, "german") { Some("de") }
    else if str_eq(l, "spanish") { Some("es") }
    else if str_eq(l, "portuguese") { Some("pt") }
    else if str_eq(l, "italian") { Some("it") }
    else if str_eq(l, "russian") { Some("ru") }
    else if str_eq(l, "arabic") { Some("ar") }
    else if str_eq(l, "hindi") { Some("hi") }
    else if str_eq(l, "thai") { Some("th") }
    else if str_eq(l, "vietnamese") { Some("vi") }
    else if str_eq(l, "dutch") { Some("nl") }
    else if str_eq(l, "polish") { Some("pl") }
    else if str_eq(l, "turkish") { Some("tr") }
    else if str_eq(l, "indonesian") { Some("id") }
    else { None }
}

/// The language code sent with the audio (see [`language_code_of`]).
pub fn language_code(language: &str) -> (code: String)
    ensures
        code@ == language_code_of(language@),
{
    let t = trim(language);
    if t.as_str().is_empty() || str_eq(t.as_str(), "auto") {
        return String::new();
    }
    let l = to_lowercase(t.as_str());
    match known_code(l.as_str()) {
        Some(c) => String::from_str(c),
        None => l,
    }
}

/// The model name sent to a transcription endpoint: the service's model, or
/// `fast` when none is set.
pub fn stt_model_name(model: &str) -> (name: String)
    ensures
        name@ == if model@.len() == 0 { "fast"@ } else { model@ },
{
    if model.is_empty() { String::from_str("fast") } else { String::from_str(model) }
}

/// The model label recorded in the usage statistics: `Apple Speech
/// ({engine})` for the Apple provider (`server` when the engine is not
/// reported), else the model name (`fast` when none is set).
pub fn stats_model(provider: &str, model: &str, stt_engine: &str) -> (label: String)
    ensures
        label@ == if provider@ == "apple"@ {
            "Apple Speech ("@ + (if stt_engine@.len() == 0 { "server"@ } else { stt_engine@ }) + ")"@
        } else if model@.len() == 0 {
            "fast"@
        } else {
            model@
        },
{
    if str_eq(provider, "apple") {
        let mut label = String::from_str("Apple Speech (");
        label.append(if stt_engine.is_empty() { "server" } else { stt_engine });
        label.append(")");
        label
    } else {
        stt_model_name(model)
    }
}

/// The message of a failed transcription.
pub fn stt_failure_message(provider: &str, base_url: &str, error: &str) -> (msg: String)
    ensures
        msg@ == "STT failed via "@ + provider@ + " at "@ + base_url@ + ": "@ + error@,
{
    let mut msg = String::from_str("STT failed via ");
    msg.append(provider);
    msg.append(" at ");
    msg.append(base_url);
    msg.append(": ");
    msg.append(error);
    msg
}

/// Whether a dictation mode drives the floating indicator: every mode but
/// the agent and the in-app conversation page.
pub open spec fn is_interactive_mode(mode: Seq<char>) -> bool {
    mode != "agent"@ && mode != "sts-page"@
}

/// Whether dictation mode `mode` drives the floating indicator (see
/// [`is_interactive_mode`]).
pub fn interactive_mode(mode: &str) -> (interactive: bool)
    ensures
        interactive == is_interactive_mode(mode@),
{
    !(str_eq(mode, "agent") || str_eq(mode, "sts-page"))
}

/// Whether a transcript is typed at the cursor right away: only a non-empty
/// one, only in raw mode.
pub fn injects_raw_transcript(mode: &str, transcript: &str) -> (inject: bool)
    ensures
        inject == (mode@ == "raw"@ && transcript@.len() > 0),
{
    str_eq(mode, "raw") && !transcript.is_empty()
}

/// What the floating indicator is told once a transcript is in.
#[derive(Debug, Clone, Copy, PartialEq, Eq, Structural)]
pub enum PillUpdate {
    /// Keep showing "processing": an LLM step still follows.
    Processing,
    /// Done: show the transcript.
    Stop,
}

/// The indicator update after a transcript is in: none outside interactive
/// modes or when delivery failed (the failure is shown instead); else
/// "processing" while an LLM step still follows a non-empty transcript, and
/// "done" otherwise.
pub fn pill_after_transcript(mode: &str, mode_has_llm: bool, transcript: &str, delivered: bool)
    -> (update: Option<PillUpdate>)
    ensures
        update == if !is_interactive_mode(mode@) || !delivered {
            None
        } else if mode_has_llm && transcript@.len() > 0 {
            Some(PillUpdate::Processing)
        } else {
            Some(PillUpdate::Stop)
        },
{
    if !interactive_mode(mode) || !delivered {
        None
    } else if mode_has_llm && !transcript.is_empty() {
        Some(PillUpdate::Processing)
    } else {
        Some(PillUpdate::Stop)
    }
}

/// The history source of a dictation: the agent for the agent and
/// conversation modes, a note for note mode, a dictation otherwise.
pub fn dictation_source(mode: &str) -> (t: SourceType)
    ensures
        t == if mode@ == "agent"@ || mode@ == "sts-page"@ {
            SourceType::Agent
        } else if mode@ == "note"@ {
            SourceType::Note
        } else {
            SourceType::Dictation
        },
{
    if str_eq(mode, "agent") || str_eq(mode, "sts-page") {
        SourceType::Agent
    } else if str_eq(mode, "note") {
        SourceType::Note
    } else {
        SourceType::Dictation
    }
}

} // verus!
