//! Configuration choices of the hands-free voice call, the call's
//! active/idle flag, and the order in which its loop listens, transcribes
//! and replies.
use vstd::prelude::*;

use crate::text::{ends_with_str, is_blank, is_blank_str, seq_ends_with, seq_starts_with, starts_with_str, trim, trim_seq};
use crate::widget_refs::{opt_text, resolve_widget_ref, widget_ref_resolution, WidgetDef};

verus! {

/// The built-in persona of the call when no `llm_widget` reference supplies one.
pub const DEFAULT_CALL_PERSONA: &'static str = "You are a friendly voice assistant. Your replies are spoken aloud, so answer in 1-3 short conversational sentences in the user's language. Plain text only: no emoji, no markdown, no lists, no decorative symbols.";

/// The text of an optional `&str`.
pub open spec fn opt_str_text(o: Option<&str>) -> Option<Seq<char>> {
    match o {
        Some(s) => Some(s@),
        None => None,
    }
}

/// Resolve the call's `llm_widget` reference: `(model_profile, system)` of
/// the referenced `llm` widget, `None` for an empty reference.
pub fn resolve_call_llm_widget_ref(llm_widget: &str, widgets: &[WidgetDef])
    -> (res: Result<Option<(String, Option<String>)>, String>)
    ensures
        match res {
            Ok(None) => widget_ref_resolution("call"@, "llm_widget"@, llm_widget@, "llm"@, widgets@)
                == Ok::<Option<(Seq<char>, Option<Seq<char>>)>, Seq<char>>(None),
            Ok(Some(r)) => widget_ref_resolution("call"@, "llm_widget"@, llm_widget@, "llm"@, widgets@)
                == Ok::<Option<(Seq<char>, Option<Seq<char>>)>, Seq<char>>(Some((r.0@, opt_text(r.1)))),
            Err(e) => widget_ref_resolution("call"@, "llm_widget"@, llm_widget@, "llm"@, widgets@)
                == Err::<Option<(Seq<char>, Option<Seq<char>>)>, Seq<char>>(e@),
        },
{
    resolve_widget_ref("call", "llm_widget", llm_widget, "llm", widgets)
}

/// Resolve the call's `stt_widget` reference: the referenced `stt` widget's
/// model profile, `None` for an empty reference.
pub fn resolve_call_stt_widget_ref(stt_widget: &str, widgets: &[WidgetDef]) -> (res: Result<Option<String>, String>)
    ensures
        match res {
            Ok(None) => widget_ref_resolution("call"@, "stt_widget"@, stt_widget@, "stt"@, widgets@)
                == Ok::<Option<(Seq<char>, Option<Seq<char>>)>, Seq<char>>(None),
            Ok(Some(p)) => widget_ref_resolution("call"@, "stt_widget"@, stt_widget@, "stt"@, widgets@) matches Ok(Some(r))
                && r.0 == p@,
            Err(e) => widget_ref_resolution("call"@, "stt_widget"@, stt_widget@, "stt"@, widgets@)
                == Err::<Option<(Seq<char>, Option<Seq<char>>)>, Seq<char>>(e@),
        },
{
    match resolve_widget_ref("call", "stt_widget", stt_widget, "stt", widgets) {
        Ok(Some((profile, _system))) => Ok(Some(profile)),
        Ok(None) => Ok(None),
        Err(e) => Err(e),
    }
}

/// The effective STT profile tier: a referenced profile that is non-empty
/// wins (the on-device `"apple-speech"` sentinel included); an empty or
/// absent one means the global `"stt"` profile (`None`).
pub fn resolve_call_stt_tier(ref_profile: Option<&str>) -> (tier: Option<String>)
    ensures
        opt_text(tier) == match ref_profile {
            Some(p) => if p@.len() > 0 { Some(p@) } else { None },
            None => None,
        },
{
    match ref_profile {
        Some(p) => if p.is_empty() { None } else { Some(String::from_str(p)) },
        None => None,
    }
}

/// The legacy `sts_llm_profile` tier: the field when non-empty, else the
/// global `"llm"` service (`None`).
pub open spec fn legacy_llm_tier(sts_llm_profile: Seq<char>) -> Option<Seq<char>> {
    if sts_llm_profile.len() == 0 { None } else { Some(sts_llm_profile) }
}

/// The call's LLM profile tier and persona, from the resolved `llm_widget`
/// reference `(model_profile, system)` and the legacy `sts_llm_profile`.
pub open spec fn call_llm_tier(
    ref_payload: Option<(Seq<char>, Option<Seq<char>>)>,
    sts_llm_profile: Seq<char>,
) -> (Option<Seq<char>>, Seq<char>) {
    match ref_payload {
        Some(r) => (
            if r.0.len() > 0 { Some(r.0) } else { legacy_llm_tier(sts_llm_profile) },
            match r.1 {
                Some(sys) => sys,
                None => Seq::<char>::empty(),
            },
        ),
        None => (legacy_llm_tier(sts_llm_profile), DEFAULT_CALL_PERSONA@),
    }
}

/// A reference whose model profile is empty chooses the same model tier as
/// no reference at all; only the persona differs (the reference's own system
/// prompt replaces the built-in persona).
pub proof fn lemma_empty_ref_profile_falls_through(system: Option<Seq<char>>, sts_llm_profile: Seq<char>)
    ensures
        call_llm_tier(Some((Seq::<char>::empty(), system)), sts_llm_profile).0
            == call_llm_tier(None, sts_llm_profile).0,
        call_llm_tier(Some((Seq::<char>::empty(), system)), sts_llm_profile).1
            == match system {
                Some(sys) => sys,
                None => Seq::<char>::empty(),
            },
{
}

/// The effective LLM profile tier and persona of the call, from the resolved
/// `llm_widget` reference. `None` as the tier means the global `"llm"` service.
///
/// With a reference, its non-empty model profile wins and an empty one falls
/// through to `sts_llm_profile`, then the global service; the reference's
/// system prompt is the persona verbatim (none at all when it has none).
/// Without a reference the tier is `sts_llm_profile` or the global service
/// and the persona is [`DEFAULT_CALL_PERSONA`].
pub fn resolve_call_llm_tier(ref_payload: Option<(String, Option<String>)>, sts_llm_profile: &str)
    -> (res: (Option<String>, String))
    ensures
        (opt_text(res.0), res.1@) == call_llm_tier(
            match ref_payload {
                Some(r) => Some((r.0@, opt_text(r.1))),
                None => None,
            },
            sts_llm_profile@,
        ),
{
    let legacy = if sts_llm_profile.is_empty() { None } else { Some(String::from_str(sts_llm_profile)) };
    match ref_payload {
        Some((model_profile, system)) => {
            let tier = if model_profile.as_str().is_empty() { legacy } else { Some(model_profile) };
            let persona = match system {
                Some(sys) => sys,
                None => String::new(),
            };
            (tier, persona)
        }
        None => (legacy, String::from_str(DEFAULT_CALL_PERSONA)),
    }
}

/// Whether a hands-free call is running.
pub struct CallFlag {
    active: bool,
}

impl CallFlag {
    /// The flag's value.
    pub closed spec fn active(&self) -> bool {
        self.active
    }

    /// No call running.
    pub fn new() -> (f: Self)
        ensures
            !f.active(),
    {
        CallFlag { active: false }
    }

    /// Whether a hands-free call is currently running.
    pub fn is_call_active(&self) -> (active: bool)
        ensures
            active == self.active(),
    {
        self.active
    }

    /// Begin a call. Refused while a dictation is recording; a no-op
    /// (`Ok(false)`) while a call is already running; otherwise marks the call
    /// active and returns `Ok(true)`, telling the caller to start the loop.
    pub fn start_call(&mut self, recording: bool) -> (res: Result<bool, String>)
        ensures
            recording ==> (res matches Err(e) && e@ == "Busy — finish the current turn first."@)
                && final(self).active() == old(self).active(),
            !recording ==> res == Ok::<bool, String>(!old(self).active()) && final(self).active(),
    {
        if recording {
            return Err(String::from_str("Busy — finish the current turn first."));
        }
        if self.active {
            return Ok(false);
        }
        self.active = true;
        Ok(true)
    }

    /// Hang up: the call loop sees the cleared flag and tears down.
    pub fn call_stop(&mut self)
        ensures
            !final(self).active(),
    {
        self.active = false;
    }
}

/// The voice a call speaks with unless configured: `"default"`.
pub fn default_voice() -> (v: String)
    ensures
        v@ == "default"@,
{
    String::from_str("default")
}

/// The conversation memory of a call unless configured: 8 turn pairs.
pub fn default_max_turns() -> (n: usize)
    ensures
        n == 8,
{
    8
}

/// The trailing silence that ends an utterance unless configured: 800 ms.
pub fn default_vad_silence_ms() -> (ms: u32)
    ensures
        ms == 800,
{
    800
}

/// Whether talking over the reply interrupts it, unless configured: yes.
pub fn default_barge_in() -> (on: bool)
    ensures
        on,
{
    true
}

/// The trailing silence that ends an utterance in a call: the configured
/// value held between 500 and 2000 ms.
pub fn silence_hang_ms(vad_silence_ms: u32) -> (ms: u32)
    ensures
        ms == if vad_silence_ms < 500 { 500 } else if vad_silence_ms > 2000 { 2000 } else { vad_silence_ms },
{
    if vad_silence_ms < 500 {
        500
    } else if vad_silence_ms > 2000 {
        2000
    } else {
        vad_silence_ms
    }
}

/// The text a call speaks as its first turn before listening: the delivered
/// text, unless it is absent or blank.
pub fn first_turn_text(first_transcript: Option<String>) -> (turn: Option<String>)
    ensures
        match first_transcript {
            Some(t) => if is_blank(t@) { turn is None } else { turn == Some(t) },
            None => turn is None,
        },
{
    match first_transcript {
        Some(t) => if is_blank_str(t.as_str()) { None } else { Some(t) },
        None => None,
    }
}

/// How the listening phase of a call ended.
#[derive(Debug, Clone, Copy, PartialEq, Eq, Structural)]
pub enum ListenOutcome {
    /// The user hung up (or capture failed).
    Cancelled,
    /// No speech for the voice-activity timeout.
    Timeout,
    /// An utterance was captured.
    Utterance,
}

/// What the call does after listening: end with a reason, or transcribe the
/// utterance.
#[derive(Debug, Clone, Copy, PartialEq, Eq)]
pub enum AfterListen {
    End(&'static str),
    Transcribe,
}

/// The step after listening: a hang-up ends the call as `hangup`, a timeout
/// as `timeout`; an utterance is transcribed.
pub fn after_listen(outcome: ListenOutcome) -> (step: AfterListen)
    ensures
        match outcome {
            ListenOutcome::Cancelled => step matches AfterListen::End(r) && r@ == "hangup"@,
            ListenOutcome::Timeout => step matches AfterListen::End(r) && r@ == "timeout"@,
            ListenOutcome::Utterance => step == AfterListen::Transcribe,
        },
{
    proof {
        reveal_strlit("hangup");
        reveal_strlit("timeout");
    }
    match outcome {
        ListenOutcome::Cancelled => AfterListen::End("hangup"),
        ListenOutcome::Timeout => AfterListen::End("timeout"),
        ListenOutcome::Utterance => AfterListen::Transcribe,
    }
}

/// What the call does with a transcription: answer the trimmed transcript,
/// or listen again (reporting the error when transcription failed; silently
/// for an empty transcript).
#[derive(Debug, PartialEq, Eq)]
pub enum AfterTranscript {
    Reply(String),
    Relisten(Option<String>),
}

/// The step after transcribing an utterance (see [`AfterTranscript`]); a
/// failure never ends the call.
pub fn after_transcript(stt: Result<String, String>) -> (step: AfterTranscript)
    ensures
        match stt {
            Ok(t) => if trim_seq(t@).len() == 0 {
                step == AfterTranscript::Relisten(None)
            } else {
                step matches AfterTranscript::Reply(r) && r@ == trim_seq(t@)
            },
            Err(e) => step == AfterTranscript::Relisten(Some(e)),
        },
{
    match stt {
        Ok(t) => {
            let trimmed = trim(t.as_str());
            if trimmed.as_str().is_empty() { AfterTranscript::Relisten(None) } else { AfterTranscript::Reply(trimmed) }
        },
        Err(e) => AfterTranscript::Relisten(Some(e)),
    }
}

/// Where the call loop goes next.
#[derive(Debug, PartialEq, Eq)]
pub enum CallNext {
    /// Arm the microphone and listen for an utterance.
    Listen,
    /// Transcribe the captured utterance.
    Transcribe,
    /// Speak a reply turn to this text, then carry on.
    Reply(String),
    /// End the call, reporting this reason.
    End(&'static str),
}

/// What the call loop learned from the outside work it asked for.
#[derive(Debug)]
pub enum CallEvent {
    /// The microphone could not be armed for listening.
    ArmFailed(String),
    /// The listening phase ended.
    Listened(ListenOutcome),
    /// The utterance's transcription, or why it failed.
    Transcribed(Result<String, String>),
    /// The reply turn finished (its own errors are surfaced by the turn), or
    /// the interruption monitor stopped without hearing the user.
    TurnDone,
    /// The user talked over the reply: it was cut off, and these samples
    /// (the interrupting words) were captured.
    Barged(Vec<i16>),
}

/// One step of the call loop: an error to surface in the call panel, if
/// any, samples to seed the next listen with, and where the loop goes next.
#[derive(Debug)]
pub struct CallStep {
    pub error: Option<String>,
    pub seed: Option<Vec<i16>>,
    pub next: CallNext,
}

/// Going back to the top of the loop: listen again while the call is
/// active, otherwise end it as a hang-up.
pub open spec fn loops_back(active: bool, next: CallNext) -> bool {
    if active {
        next == CallNext::Listen
    } else {
        next matches CallNext::End(r) && r@ == "hangup"@
    }
}

/// Back to the top of the loop, where a cleared active flag ends the call.
fn loop_back(active: bool) -> (next: CallNext)
    ensures
        loops_back(active, next),
{
    proof {
        reveal_strlit("hangup");
    }
    if active { CallNext::Listen } else { CallNext::End("hangup") }
}

impl CallFlag {
    /// Where the call loop starts: with a reply turn to the delivered first
    /// text when the call is active and that text is not blank, otherwise at
    /// the top of the loop. A call that ends here is marked inactive.
    pub fn begin_loop(&mut self, first_transcript: Option<String>) -> (next: CallNext)
        ensures
            match first_transcript {
                Some(t) => if old(self).active() && !is_blank(t@) {
                    next == CallNext::Reply(t)
                } else {
                    loops_back(old(self).active(), next)
                },
                None => loops_back(old(self).active(), next),
            },
            final(self).active() == (old(self).active() && !(next is End)),
    {
        if !self.active {
            return loop_back(false);
        }
        match first_turn_text(first_transcript) {
            Some(t) => CallNext::Reply(t),
            None => loop_back(true),
        }
    }

    /// The call loop's decision after `event`.
    ///
    /// The microphone failing to arm surfaces its error and ends the call as
    /// a hang-up; a listening phase ends the call or leads to transcription
    /// as [`after_listen`] says; a transcript leads to a reply to its trimmed
    /// text, while an empty one, a failed transcription (whose error is
    /// surfaced), a finished turn and an interruption go back to the top of
    /// the loop: none of them ends an active call. An interruption's samples
    /// seed the next listen, so the interrupting words are not lost. Whenever
    /// the call ends, it is marked inactive; otherwise the flag is unchanged.
    pub fn step(&mut self, event: CallEvent) -> (step: CallStep)
        ensures
            match event {
                CallEvent::ArmFailed(e) => step.error == Some(e) && step.seed is None
                    && (step.next matches CallNext::End(r) && r@ == "hangup"@),
                CallEvent::Listened(o) => step.error is None && step.seed is None && match o {
                    ListenOutcome::Cancelled => step.next matches CallNext::End(r) && r@ == "hangup"@,
                    ListenOutcome::Timeout => step.next matches CallNext::End(r) && r@ == "timeout"@,
                    ListenOutcome::Utterance => step.next == CallNext::Transcribe,
                },
                CallEvent::Transcribed(Ok(t)) => step.error is None && step.seed is None
                    && if trim_seq(t@).len() == 0 {
                        loops_back(old(self).active(), step.next)
                    } else {
                        step.next matches CallNext::Reply(r) && r@ == trim_seq(t@)
                    },
                CallEvent::Transcribed(Err(e)) => step.error == Some(e) && step.seed is None
                    && loops_back(old(self).active(), step.next),
                CallEvent::TurnDone => step.error is None && step.seed is None
                    && loops_back(old(self).active(), step.next),
                CallEvent::Barged(carry) => step.error is None && step.seed == Some(carry)
                    && loops_back(old(self).active(), step.next),
            },
            final(self).active() == (old(self).active() && !(step.next is End)),
    {
        let active = self.active;
        let step = match event {
            CallEvent::ArmFailed(e) => {
                proof {
                    reveal_strlit("hangup");
                }
                CallStep { error: Some(e), seed: None, next: CallNext::End("hangup") }
            },
            CallEvent::Listened(o) => match after_listen(o) {
                AfterListen::End(r) => CallStep { error: None, seed: None, next: CallNext::End(r) },
                AfterListen::Transcribe => CallStep { error: None, seed: None, next: CallNext::Transcribe },
            },
            CallEvent::Transcribed(stt) => match after_transcript(stt) {
                AfterTranscript::Reply(r) => CallStep { error: None, seed: None, next: CallNext::Reply(r) },
                AfterTranscript::Relisten(e) => CallStep { error: e, seed: None, next: loop_back(active) },
            },
            CallEvent::TurnDone => CallStep { error: None, seed: None, next: loop_back(active) },
            CallEvent::Barged(carry) => CallStep { error: None, seed: Some(carry), next: loop_back(active) },
        };
        if let CallNext::End(_) = step.next {
            self.active = false;
        }
        step
    }
}

/// How many per-call diagnostic logs are kept, the new one included.
pub const CALL_LOG_KEEP: usize = 5;

/// A file name of a per-call diagnostic log (`call-*.log`).
pub open spec fn is_call_log_name(name: Seq<char>) -> bool {
    seq_starts_with(name, "call-"@) && seq_ends_with(name, ".log"@)
}

/// The call logs among directory entries `(name, modified)`, in directory
/// order.
pub open spec fn call_logs(es: Seq<(String, u64)>) -> Seq<(Seq<char>, u64)>
    decreases es.len(),
{
    if es.len() == 0 {
        Seq::empty()
    } else {
        let e = es.last();
        call_logs(es.drop_last()) + if is_call_log_name(e.0@) { seq![(e.0@, e.1)] } else { Seq::empty() }
    }
}

/// Log `j` sorts before log `i` oldest first: it was modified earlier, or at
/// the same time and comes first in directory order.
pub open spec fn sorts_before(ls: Seq<(Seq<char>, u64)>, j: int, i: int) -> bool {
    ls[j].1 < ls[i].1 || (ls[j].1 == ls[i].1 && j < i)
}

/// How many of the first `n` logs sort before log `i`: its position when
/// the logs are sorted oldest first.
pub open spec fn age_rank(ls: Seq<(Seq<char>, u64)>, i: int, n: int) -> int
    decreases n,
{
    if n <= 0 {
        0
    } else {
        age_rank(ls, i, n - 1) + if sorts_before(ls, n - 1, i) { 1int } else { 0int }
    }
}

/// How many of `n` existing logs are deleted so that, with the new one,
/// at most [`CALL_LOG_KEEP`] remain.
pub open spec fn prune_count(n: int) -> int {
    if n > CALL_LOG_KEEP - 1 { n - (CALL_LOG_KEEP - 1) } else { 0 }
}

/// The names, in directory order, of the first `k` logs that are among the
/// `remove` oldest.
pub open spec fn oldest_names(ls: Seq<(Seq<char>, u64)>, k: int, remove: int) -> Seq<Seq<char>>
    decreases k,
{
    if k <= 0 {
        Seq::empty()
    } else {
        oldest_names(ls, k - 1, remove) + if age_rank(ls, k - 1, ls.len() as int) < remove {
            seq![ls[k - 1].0]
        } else {
            Seq::empty()
        }
    }
}

/// The call logs to delete before a new call's log is opened: of the
/// directory entries `(name, modified)` named `call-*.log`, the oldest ones
/// (ties in directory order) beyond the [`CALL_LOG_KEEP`] − 1 newest. The
/// names come back in directory order.
pub fn logs_to_prune(entries: &[(String, u64)]) -> (names: Vec<String>)
    ensures
        names@.map_values(|n: String| n@) == ({
            let ls = call_logs(entries@);
            oldest_names(ls, ls.len() as int, prune_count(ls.len() as int))
        }),
{
    let mut logs: Vec<(String, u64)> = Vec::new();
    let mut i: usize = 0;
    while i < entries.len()
        invariant
            i <= entries@.len(),
            logs@.map_values(|l: (String, u64)| (l.0@, l.1)) == call_logs(entries@.subrange(0, i as int)),
        decreases entries@.len() - i,
    {
        let e = &entries[i];
        let ghost before = logs@;
        if starts_with_str(e.0.as_str(), "call-") && ends_with_str(e.0.as_str(), ".log") {
            logs.push((e.0.clone(), e.1));
        }
        proof {
            let pre = entries@.subrange(0, i + 1);
            assert(pre.drop_last() =~= entries@.subrange(0, i as int));
            assert(pre.last() == entries@[i as int]);
            assert(logs@.map_values(|l: (String, u64)| (l.0@, l.1)) =~= call_logs(pre));
        }
        i = i + 1;
    }
    proof {
        assert(entries@.subrange(0, entries@.len() as int) =~= entries@);
    }
    let ghost ls = call_logs(entries@);
    let n = logs.len();
    let remove: usize = if n > CALL_LOG_KEEP - 1 { n - (CALL_LOG_KEEP - 1) } else { 0 };
    let mut names: Vec<String> = Vec::new();
    let mut k: usize = 0;
    while k < n
        invariant
            n == logs@.len(),
            logs@.map_values(|l: (String, u64)| (l.0@, l.1)) == ls,
            ls.len() == n,
            remove as int == prune_count(n as int),
            k <= n,
            names@.map_values(|x: String| x@) == oldest_names(ls, k as int, remove as int),
        decreases n - k,
    {
        let mut rank: usize = 0;
        let mut j: usize = 0;
        while j < n
            invariant
                n == logs@.len(),
                logs@.map_values(|l: (String, u64)| (l.0@, l.1)) == ls,
                ls.len() == n,
                k < n,
                j <= n,
                rank <= j,
                rank as int == age_rank(ls, k as int, j as int),
            decreases n - j,
        {
            proof {
                assert(ls[j as int] == (logs@[j as int].0@, logs@[j as int].1));
                assert(ls[k as int] == (logs@[k as int].0@, logs@[k as int].1));
            }
            if logs[j].1 < logs[k].1 || (logs[j].1 == logs[k].1 && j < k) {
                rank = rank + 1;
            }
            j = j + 1;
        }
        let ghost before = names@;
        if rank < remove {
            names.push(logs[k].0.clone());
        }
        proof {
            assert(ls[k as int].0 == logs@[k as int].0@);
            assert(names@.map_values(|x: String| x@) =~= oldest_names(ls, k + 1, remove as int));
        }
        k = k + 1;
    }
    names
}

proof fn lemma_rank_bound(ls: Seq<(Seq<char>, u64)>, i: int, m: int)
    requires
        0 <= m <= ls.len(),
        0 <= i < ls.len(),
    ensures
        0 <= age_rank(ls, i, m) <= m - (if m > i { 1int } else { 0int }),
    decreases m,
{
    if m > 0 {
        lemma_rank_bound(ls, i, m - 1);
    }
}

proof fn lemma_rank_order(ls: Seq<(Seq<char>, u64)>, i: int, j: int, m: int)
    requires
        0 <= i < ls.len(),
        0 <= j < ls.len(),
        sorts_before(ls, j, i),
        0 <= m <= ls.len(),
    ensures
        age_rank(ls, j, m) + (if m > j { 1int } else { 0int }) <= age_rank(ls, i, m),
    decreases m,
{
    if m > 0 {
        lemma_rank_order(ls, i, j, m - 1);
    }
}

proof fn lemma_ranks_distinct(ls: Seq<(Seq<char>, u64)>, i: int, j: int)
    requires
        0 <= i < ls.len(),
        0 <= j < ls.len(),
        i != j,
    ensures
        age_rank(ls, i, ls.len() as int) != age_rank(ls, j, ls.len() as int),
        sorts_before(ls, i, j) ==> age_rank(ls, i, ls.len() as int) < age_rank(ls, j, ls.len() as int),
{
    if sorts_before(ls, i, j) {
        lemma_rank_order(ls, j, i, ls.len() as int);
    } else {
        lemma_rank_order(ls, i, j, ls.len() as int);
    }
}

/// A log's position when the logs are sorted oldest first.
spec fn rank_fn(ls: Seq<(Seq<char>, u64)>) -> spec_fn(int) -> int {
    |i: int| age_rank(ls, i, ls.len() as int)
}

proof fn lemma_ranks_onto(ls: Seq<(Seq<char>, u64)>)
    ensures
        vstd::set_lib::set_int_range(0, ls.len() as int).map(rank_fn(ls))
            == vstd::set_lib::set_int_range(0, ls.len() as int),
{
    let n = ls.len() as int;
    let r = vstd::set_lib::set_int_range(0, n);
    let f = rank_fn(ls);
    assert forall|x1: int, x2: int| r.contains(x1) && r.contains(x2) && #[trigger] f(x1) == #[trigger] f(x2)
        implies x1 == x2 by {
        if x1 != x2 {
            lemma_ranks_distinct(ls, x1, x2);
        }
    }
    vstd::set_lib::lemma_int_range(0, n);
    vstd::set_lib::lemma_map_size(r, r.map(f), f);
    assert forall|v: int| r.map(f).contains(v) implies r.contains(v) by {
        let i = choose|i: int| r.contains(i) && v == f(i);
        lemma_rank_bound(ls, i, n);
    }
    vstd::set_lib::lemma_subset_equality(r.map(f), r);
}

/// The logs among the first `k` that are among the `remove` oldest.
spec fn removed_set(ls: Seq<(Seq<char>, u64)>, k: int, remove: int) -> Set<int> {
    Set::new(|i: int| 0 <= i < k && age_rank(ls, i, ls.len() as int) < remove)
}

proof fn lemma_oldest_names_len(ls: Seq<(Seq<char>, u64)>, k: int, remove: int)
    requires
        0 <= k <= ls.len(),
    ensures
        removed_set(ls, k, remove).finite(),
        oldest_names(ls, k, remove).len() == removed_set(ls, k, remove).len(),
    decreases k,
{
    vstd::set_lib::lemma_int_range(0, k);
    vstd::set_lib::lemma_len_subset(removed_set(ls, k, remove), vstd::set_lib::set_int_range(0, k));
    if k == 0 {
        assert(removed_set(ls, k, remove) =~= Set::<int>::empty());
    } else {
        lemma_oldest_names_len(ls, k - 1, remove);
        let prev = removed_set(ls, k - 1, remove);
        if age_rank(ls, k - 1, ls.len() as int) < remove {
            assert(removed_set(ls, k, remove) =~= prev.insert(k - 1));
            assert(!prev.contains(k - 1));
        } else {
            assert(removed_set(ls, k, remove) =~= prev);
        }
    }
}

proof fn lemma_removed_count(ls: Seq<(Seq<char>, u64)>, remove: int)
    requires
        0 <= remove <= ls.len(),
    ensures
        removed_set(ls, ls.len() as int, remove).len() == remove,
{
    let n = ls.len() as int;
    let d = removed_set(ls, n, remove);
    let f = rank_fn(ls);
    let target = vstd::set_lib::set_int_range(0, remove);
    lemma_oldest_names_len(ls, n, remove);
    lemma_ranks_onto(ls);
    assert forall|v: int| d.map(f).contains(v) implies target.contains(v) by {
        let i = choose|i: int| d.contains(i) && v == f(i);
        lemma_rank_bound(ls, i, n);
    }
    assert forall|v: int| target.contains(v) implies d.map(f).contains(v) by {
        assert(vstd::set_lib::set_int_range(0, n).contains(v));
        assert(vstd::set_lib::set_int_range(0, n).map(f).contains(v));
        let i = choose|i: int| vstd::set_lib::set_int_range(0, n).contains(i) && v == f(i);
        assert(d.contains(i));
    }
    assert(d.map(f) =~= target);
    assert forall|x1: int, x2: int| d.contains(x1) && d.contains(x2) && #[trigger] f(x1) == #[trigger] f(x2)
        implies x1 == x2 by {
        if x1 != x2 {
            lemma_ranks_distinct(ls, x1, x2);
        }
    }
    vstd::set_lib::lemma_map_size(d, target, f);
    vstd::set_lib::lemma_int_range(0, remove);
}

/// Pruning keeps the newest logs: exactly [`prune_count`] logs are deleted,
/// so with the new call's log at most [`CALL_LOG_KEEP`] remain, and every
/// deleted log sorts before (is older than) every kept one.
pub proof fn lemma_prune_keeps_newest(ls: Seq<(Seq<char>, u64)>)
    ensures
        oldest_names(ls, ls.len() as int, prune_count(ls.len() as int)).len() == prune_count(ls.len() as int),
        ls.len() - prune_count(ls.len() as int) <= CALL_LOG_KEEP - 1,
        forall|i: int, j: int|
            0 <= i < ls.len() && 0 <= j < ls.len() && #[trigger] age_rank(ls, i, ls.len() as int) < prune_count(ls.len() as int)
                && prune_count(ls.len() as int) <= #[trigger] age_rank(ls, j, ls.len() as int) ==> sorts_before(ls, i, j),
{
    let n = ls.len() as int;
    lemma_oldest_names_len(ls, n, prune_count(n));
    lemma_removed_count(ls, prune_count(n));
    assert forall|i: int, j: int|
        0 <= i < n && 0 <= j < n && #[trigger] age_rank(ls, i, n) < prune_count(n)
            && prune_count(n) <= #[trigger] age_rank(ls, j, n) implies sorts_before(ls, i, j) by {
        lemma_ranks_distinct(ls, i, j);
        lemma_ranks_distinct(ls, j, i);
    }
}

} // verus!
