//! What the setup screens report about local services: the models a server
//! advertises on `/v1/models`, whether a local engine is running or
//! installed, and the state of the speaker-diarization models and their
//! download.
use vstd::prelude::*;

use crate::text::{chars_of, seq_contains, string_from_range, to_uppercase, trim, trim_seq, contains_str, unicode_uppercase};

verus! {

/// One entry of a `/v1/models` listing: its `id`, `name` and `owned_by`
/// fields when they are strings.
#[derive(Debug, Clone)]
pub struct ModelEntry {
    pub id: Option<String>,
    pub name: Option<String>,
    pub owned_by: Option<String>,
}

/// A `/v1/models` response body as the model scan reads it: the array under
/// `data` (OpenAI style), and the body itself when it is a flat array.
#[derive(Debug, Clone)]
pub struct ModelsBody {
    pub data: Option<Vec<ModelEntry>>,
    pub items: Option<Vec<ModelEntry>>,
}

/// The model id an entry advertises: its `id`, or when it has none its
/// `name`; `None` when that is missing or empty.
pub open spec fn entry_model_id(e: ModelEntry) -> Option<Seq<char>> {
    let chosen = match e.id {
        Some(id) => Some(id@),
        None => match e.name {
            Some(name) => Some(name@),
            None => None,
        },
    };
    match chosen {
        Some(c) => if c.len() > 0 { Some(c) } else { None },
        None => None,
    }
}

/// The model ids a list of entries advertises, in order.
pub open spec fn model_ids(es: Seq<ModelEntry>) -> Seq<Seq<char>>
    decreases es.len(),
{
    if es.len() == 0 {
        Seq::empty()
    } else {
        model_ids(es.drop_last()) + match entry_model_id(es.last()) {
            Some(id) => seq![id],
            None => Seq::empty(),
        }
    }
}

/// The model ids a response body advertises: those of the `data` array,
/// else those of the body as a flat array, else none.
pub open spec fn body_model_ids(body: ModelsBody) -> Seq<Seq<char>> {
    match body.data {
        Some(es) => model_ids(es@),
        None => match body.items {
            Some(es) => model_ids(es@),
            None => Seq::empty(),
        },
    }
}

/// The texts of a list of strings.
pub open spec fn texts_of(v: Seq<String>) -> Seq<Seq<char>> {
    v.map_values(|s: String| s@)
}

fn entries_model_ids(es: &Vec<ModelEntry>) -> (ids: Vec<String>)
    ensures
        texts_of(ids@) == model_ids(es@),
{
    let mut ids: Vec<String> = Vec::new();
    let mut i: usize = 0;
    while i < es.len()
        invariant
            i <= es@.len(),
            texts_of(ids@) == model_ids(es@.subrange(0, i as int)),
        decreases es@.len() - i,
    {
        let e = &es[i];
        let chosen: Option<&String> = match &e.id {
            Some(id) => Some(id),
            None => match &e.name {
                Some(name) => Some(name),
                None => None,
            },
        };
        let ghost before = ids@;
        if let Some(c) = chosen {
            if !c.as_str().is_empty() {
                ids.push(c.clone());
            }
        }
        proof {
            let pre = es@.subrange(0, i + 1);
            assert(pre.drop_last() =~= es@.subrange(0, i as int));
            assert(pre.last() == es@[i as int]);
            assert(texts_of(ids@) =~= model_ids(pre));
        }
        i = i + 1;
    }
    proof {
        assert(es@.subrange(0, es@.len() as int) =~= es@);
    }
    ids
}

/// The model ids advertised by a `/v1/models` response body (see
/// [`body_model_ids`]).
pub fn parse_model_ids(body: &ModelsBody) -> (ids: Vec<String>)
    ensures
        texts_of(ids@) == body_model_ids(*body),
{
    match &body.data {
        Some(es) => entries_model_ids(es),
        None => match &body.items {
            Some(es) => entries_model_ids(es),
            None => Vec::new(),
        },
    }
}

/// The text of an optional string, empty when absent.
pub open spec fn text_or_empty(o: Option<String>) -> Seq<char> {
    match o {
        Some(s) => s@,
        None => Seq::empty(),
    }
}

/// A model as the model picker lists it, `(id, owned_by)`: from the `data`
/// array only the `id` counts; from a flat array the `id` or else the
/// `name`; entries without one are dropped, and a missing owner reads empty.
pub open spec fn listed_model(e: ModelEntry, flat: bool) -> Option<(Seq<char>, Seq<char>)> {
    let id = match e.id {
        Some(id) => id@,
        None => if flat { text_or_empty(e.name) } else { Seq::empty() },
    };
    if id.len() > 0 { Some((id, text_or_empty(e.owned_by))) } else { None }
}

/// The models a list of entries offers the picker, in order.
pub open spec fn listed_models(es: Seq<ModelEntry>, flat: bool) -> Seq<(Seq<char>, Seq<char>)>
    decreases es.len(),
{
    if es.len() == 0 {
        Seq::empty()
    } else {
        listed_models(es.drop_last(), flat) + match listed_model(es.last(), flat) {
            Some(m) => seq![m],
            None => Seq::empty(),
        }
    }
}

/// The models a response body offers the picker: those of the `data`
/// array, else those of the body as a flat array, else none.
pub open spec fn body_listed_models(body: ModelsBody) -> Seq<(Seq<char>, Seq<char>)> {
    match body.data {
        Some(es) => listed_models(es@, false),
        None => match body.items {
            Some(es) => listed_models(es@, true),
            None => Seq::empty(),
        },
    }
}

/// The texts of a list of string pairs.
pub open spec fn pair_texts(v: Seq<(String, String)>) -> Seq<(Seq<char>, Seq<char>)> {
    v.map_values(|p: (String, String)| (p.0@, p.1@))
}

fn opt_clone(o: &Option<String>) -> (s: String)
    ensures
        s@ == text_or_empty(*o),
{
    match o {
        Some(v) => v.clone(),
        None => String::new(),
    }
}

fn entries_listed(es: &Vec<ModelEntry>, flat: bool) -> (out: Vec<(String, String)>)
    ensures
        pair_texts(out@) == listed_models(es@, flat),
{
    let mut out: Vec<(String, String)> = Vec::new();
    let mut i: usize = 0;
    while i < es.len()
        invariant
            i <= es@.len(),
            pair_texts(out@) == listed_models(es@.subrange(0, i as int), flat),
        decreases es@.len() - i,
    {
        let e = &es[i];
        let id = match &e.id {
            Some(id) => id.clone(),
            None => if flat { opt_clone(&e.name) } else { String::new() },
        };
        if !id.as_str().is_empty() {
            out.push((id, opt_clone(&e.owned_by)));
        }
        proof {
            let pre = es@.subrange(0, i + 1);
            assert(pre.drop_last() =~= es@.subrange(0, i as int));
            assert(pre.last() == es@[i as int]);
            assert(pair_texts(out@) =~= listed_models(pre, flat));
        }
        i = i + 1;
    }
    proof {
        assert(es@.subrange(0, es@.len() as int) =~= es@);
    }
    out
}

/// The `(id, owned_by)` models a `/v1/models` response body offers the model
/// picker (see [`body_listed_models`]).
pub fn provider_models(body: &ModelsBody) -> (models: Vec<(String, String)>)
    ensures
        pair_texts(models@) == body_listed_models(*body),
{
    match &body.data {
        Some(es) => entries_listed(es, false),
        None => match &body.items {
            Some(es) => entries_listed(es, true),
            None => Vec::new(),
        },
    }
}

/// The error for a model listing refused with HTTP status `status`: the
/// status and the first 200 characters of the response body.
pub fn http_error_message(status: &str, body: &str) -> (msg: String)
    ensures
        msg@ == "HTTP "@ + status@ + ": "@ + body@.take(if body@.len() < 200 { body@.len() as int } else { 200 }),
{
    let cs = chars_of(body);
    let n: usize = if cs.len() < 200 { cs.len() } else { 200 };
    let mut msg = String::from_str("HTTP ");
    msg.append(status);
    msg.append(": ");
    let head = string_from_range(&cs, 0, n);
    msg.append(head.as_str());
    proof {
        assert(head@ =~= body@.take(n as int));
    }
    msg
}

/// The reply to the instruction "reply with exactly one word: BLUE" shows
/// the model follows its system prompt: it contains `BLUE` once trimmed and
/// uppercased.
pub open spec fn follows_system(reply: Seq<char>) -> bool {
    seq_contains(unicode_uppercase(trim_seq(reply)), "BLUE"@)
}

/// Judge the system-prompt test of a model probe (see [`follows_system`]).
pub fn follows_system_prompt(reply: &str) -> (ok: bool)
    ensures
        ok == follows_system(reply@),
{
    let t = trim(reply);
    let upper = to_uppercase(t.as_str());
    contains_str(upper.as_str(), "BLUE")
}

/// `c` is a CJK unified ideograph (`U+4E00`–`U+9FFF`).
pub open spec fn is_cjk(c: char) -> bool {
    '\u{4e00}' <= c && c <= '\u{9fff}'
}

/// Judge the language test of a model probe: the cleaned Chinese text came
/// back with some Chinese character in it.
pub fn preserves_language(reply: &str) -> (ok: bool)
    ensures
        ok == exists|i: int| 0 <= i < reply@.len() && is_cjk(#[trigger] reply@[i]),
{
    let cs = chars_of(reply);
    let mut i: usize = 0;
    while i < cs.len()
        invariant
            i <= cs@.len(),
            cs@ == reply@,
            forall|k: int| 0 <= k < i ==> !is_cjk(#[trigger] reply@[k]),
        decreases cs@.len() - i,
    {
        let c = cs[i];
        if '\u{4e00}' <= c && c <= '\u{9fff}' {
            assert(is_cjk(reply@[i as int]));
            return true;
        }
        i = i + 1;
    }
    false
}

/// How a `/v1/models` request ended: no answer at all, or an answer after
/// `latency_ms` with a success or error status and the body read from it
/// (an unreadable body reads as holding no array).
pub enum ModelsReply {
    Unreachable,
    Answered { latency_ms: u64, success: bool, body: ModelsBody },
}

/// Result of probing a server's `/v1/models` endpoint.
#[derive(Debug)]
pub struct ScanResult {
    /// Whether the server answered at all (any status counts).
    pub reachable: bool,
    /// Round-trip latency in milliseconds (0 when unreachable).
    pub latency_ms: u64,
    /// Model ids advertised by the server.
    pub models: Vec<String>,
}

/// What a scan reports for a reply: unreachable with no latency and no
/// models; reachable with the latency, and the advertised models only for a
/// success status.
pub open spec fn scan_of(reply: ModelsReply, r: ScanResult) -> bool {
    match reply {
        ModelsReply::Unreachable => !r.reachable && r.latency_ms == 0 && r.models@.len() == 0,
        ModelsReply::Answered { latency_ms, success, body } => {
            &&& r.reachable
            &&& r.latency_ms == latency_ms
            &&& texts_of(r.models@) == if success { body_model_ids(body) } else { Seq::empty() }
        },
    }
}

/// The scan result for a `/v1/models` reply (see [`scan_of`]).
pub fn scan_result(reply: ModelsReply) -> (r: ScanResult)
    ensures
        scan_of(reply, r),
{
    match reply {
        ModelsReply::Unreachable => ScanResult { reachable: false, latency_ms: 0, models: Vec::new() },
        ModelsReply::Answered { latency_ms, success, body } => {
            let models = if success { parse_model_ids(&body) } else { Vec::new() };
            proof {
                if !success {
                    assert(texts_of(models@) =~= Seq::<Seq<char>>::empty());
                }
            }
            ScanResult { reachable: true, latency_ms, models }
        },
    }
}

/// Detection result for one local inference engine.
#[derive(Debug)]
pub struct EngineDetection {
    /// Engine key (`omlx`, `lmstudio`, `ollama`, `vllm`).
    pub engine: String,
    /// A live HTTP listener answered `/v1/models`.
    pub running: bool,
    /// Installed on this machine, even if not listening.
    pub installed: bool,
    /// The engine's default base URL.
    pub url: String,
}

/// The detection result for engine `key` at `url`, from the layered checks:
/// a running engine counts as installed, as does one with a binary on the
/// search path, an app bundle, or a live process.
pub fn engine_detection(
    key: &str,
    url: &str,
    running: bool,
    binary_on_path: bool,
    app_bundle: bool,
    process_running: bool,
) -> (d: EngineDetection)
    ensures
        d.engine@ == key@,
        d.url@ == url@,
        d.running == running,
        d.installed == (running || binary_on_path || app_bundle || process_running),
{
    EngineDetection {
        engine: String::from_str(key),
        running,
        installed: running || binary_on_path || app_bundle || process_running,
        url: String::from_str(url),
    }
}

/// Whether speaker diarization can run, and whether its models are on disk.
#[derive(Debug)]
pub struct DiarizeStatusDto {
    pub available: bool,
    pub models_present: bool,
}

/// The diarization status from the helper's check, `(available,
/// models_present)`: a failed check (a missing helper) means unavailable,
/// which is not an error.
pub fn diarize_status(check: Result<(bool, bool), String>) -> (s: DiarizeStatusDto)
    ensures
        match check {
            Ok((available, models_present)) => s.available == available && s.models_present == models_present,
            Err(_) => !s.available && !s.models_present,
        },
{
    match check {
        Ok((available, models_present)) => DiarizeStatusDto { available, models_present },
        Err(_) => DiarizeStatusDto { available: false, models_present: false },
    }
}

/// One line of the model download helper's output: a progress report (with
/// its percentage when given), completion, an error (with its message when
/// given), or anything else (including lines that are not JSON).
pub enum DownloadLine {
    Progress(Option<u64>),
    Done,
    Error(Option<String>),
    Other,
}

/// An event forwarded to the settings window during a download.
#[derive(Debug, PartialEq, Eq)]
pub enum DownloadEvent {
    Progress(u64),
    Done,
    Error(String),
}

/// What one line of output does to a download: the event to forward, whether
/// completion has been seen, and the failure that ends the download now.
pub struct DownloadStep {
    pub event: Option<DownloadEvent>,
    pub finished_ok: bool,
    pub failure: Option<String>,
}

/// The message of an error line: its own, or `download failed`.
pub open spec fn error_message(msg: Option<String>) -> Seq<char> {
    match msg {
        Some(m) => m@,
        None => "download failed"@,
    }
}

/// Handle one line of the download helper's output. A progress line
/// forwards its percentage (0 when missing); a done line forwards completion
/// and marks it seen; an error line forwards its message and ends the
/// download with it; any other line is skipped.
pub fn download_step(finished_ok: bool, line: DownloadLine) -> (step: DownloadStep)
    ensures
        match line {
            DownloadLine::Progress(pct) => step.event == Some(DownloadEvent::Progress(
                match pct {
                    Some(p) => p,
                    None => 0,
                },
            )) && step.finished_ok == finished_ok && step.failure is None,
            DownloadLine::Done => step.event == Some(DownloadEvent::Done) && step.finished_ok && step.failure is None,
            DownloadLine::Error(msg) => {
                &&& step.event matches Some(DownloadEvent::Error(m)) && m@ == error_message(msg)
                &&& step.finished_ok == finished_ok
                &&& step.failure matches Some(f) && f@ == error_message(msg)
            },
            DownloadLine::Other => step.event is None && step.finished_ok == finished_ok && step.failure is None,
        },
{
    match line {
        DownloadLine::Progress(pct) => {
            let p: u64 = match pct {
                Some(p) => p,
                None => 0,
            };
            DownloadStep { event: Some(DownloadEvent::Progress(p)), finished_ok, failure: None }
        },
        DownloadLine::Done => DownloadStep { event: Some(DownloadEvent::Done), finished_ok: true, failure: None },
        DownloadLine::Error(msg) => {
            let m = match msg {
                Some(m) => m,
                None => String::from_str("download failed"),
            };
            DownloadStep { event: Some(DownloadEvent::Error(m.clone())), finished_ok, failure: Some(m) }
        },
        DownloadLine::Other => DownloadStep { event: None, finished_ok, failure: None },
    }
}

/// How a download ends once the helper's output is exhausted: success when
/// completion was seen; otherwise an error event and the failure
/// `download ended without done`.
pub fn download_end(finished_ok: bool) -> (end: (Option<DownloadEvent>, Result<(), String>))
    ensures
        finished_ok ==> end.0 is None && end.1 is Ok,
        !finished_ok ==> (end.0 matches Some(DownloadEvent::Error(m)) && m@ == "download ended without done"@),
        !finished_ok ==> (end.1 matches Err(e) && e@ == "download ended without done"@),
{
    if finished_ok {
        (None, Ok(()))
    } else {
        (
            Some(DownloadEvent::Error(String::from_str("download ended without done"))),
            Err(String::from_str("download ended without done")),
        )
    }
}

} // verus!
