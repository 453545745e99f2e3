//! Meeting capture: its session state and props, the choice of the
//! transcription and summary model profiles, speaker labels, the summary
//! prompt and the default title.
use vstd::prelude::*;

use crate::datetime::{iso8601_of_unix_secs, now_iso8601};
use crate::text::{
    chars_of, is_blank, is_blank_str, padded_decimal, push_padded_decimal, str_eq, string_from_range, to_lowercase,
    unicode_lowercase,
};
use crate::widget_refs::{resolve_widget_ref, widget_ref_resolution, WidgetDef};

verus! {

/// `std::time::Instant`, carried opaquely as the meeting's start time.
#[verifier::external_type_specification]
#[verifier::external_body]
pub struct ExInstant(std::time::Instant);

/// Mutable state for an active (or just-ended) meeting session.
pub struct MeetingState {
    /// Whether a meeting is currently being recorded.
    pub recording: bool,
    /// The container ID of the current meeting session.
    pub container_id: Option<i64>,
    /// Running count of transcribed chunks.
    pub chunk_counter: i32,
    /// Wall-clock time when the meeting started.
    pub start_time: Option<std::time::Instant>,
}

impl MeetingState {
    /// A session that is not recording and has no container, chunks or start time.
    pub fn new() -> (s: Self)
        ensures
            !s.recording,
            s.container_id is None,
            s.chunk_counter == 0,
            s.start_time is None,
    {
        MeetingState { recording: false, container_id: None, chunk_counter: 0, start_time: None }
    }

    /// Refuses to start a second meeting while one is being recorded.
    pub fn start_guard(&self) -> (res: Result<(), String>)
        ensures
            res is Err <==> self.recording,
            res matches Err(e) ==> e@ == MEETING_IN_PROGRESS@,
    {
        if self.recording {
            Err(String::from_str(MEETING_IN_PROGRESS))
        } else {
            Ok(())
        }
    }

    /// Marks a meeting as started: recording into `container_id` since
    /// `start`, with its chunk count reset.
    pub fn begin(&mut self, container_id: i64, start: std::time::Instant)
        ensures
            final(self).recording,
            final(self).container_id == Some(container_id),
            final(self).chunk_counter == 0,
            final(self).start_time == Some(start),
    {
        self.recording = true;
        self.container_id = Some(container_id);
        self.chunk_counter = 0;
        self.start_time = Some(start);
    }

    /// Ends the meeting being recorded, handing back its container and start
    /// time and clearing both; refuses, changing nothing, when none is.
    pub fn end(&mut self) -> (res: Result<(Option<i64>, Option<std::time::Instant>), String>)
        ensures
            !old(self).recording ==> (res matches Err(e) && e@ == NO_MEETING_IN_PROGRESS@
                && *final(self) == *old(self)),
            old(self).recording ==> (res == Ok::<(Option<i64>, Option<std::time::Instant>), String>(
                (old(self).container_id, old(self).start_time))
                && !final(self).recording && final(self).container_id is None
                && final(self).start_time is None
                && final(self).chunk_counter == old(self).chunk_counter),
    {
        if !self.recording {
            return Err(String::from_str(NO_MEETING_IN_PROGRESS));
        }
        self.recording = false;
        let container_id = self.container_id.take();
        let start_time = self.start_time.take();
        Ok((container_id, start_time))
    }

    /// Counts one more transcribed chunk of the session.
    pub fn count_chunk(&mut self)
        requires
            old(self).chunk_counter < i32::MAX,
        ensures
            final(self).chunk_counter == old(self).chunk_counter + 1,
            final(self).recording == old(self).recording,
            final(self).container_id == old(self).container_id,
            final(self).start_time == old(self).start_time,
    {
        self.chunk_counter = self.chunk_counter + 1;
    }
}

/// The container a new meeting session is stored in, with its initial
/// metadata: recorded from the microphone only, in mono, with no summary yet
/// and no duration.
#[derive(Debug, Clone, PartialEq, Eq)]
pub struct MeetingSessionContainer {
    pub title: String,
    pub created_at: String,
    pub updated_at: String,
    pub audio_source: String,
    pub channel_mode: String,
    pub summary_generated: bool,
    pub duration_total_ms: u64,
}

/// The container of a meeting titled `title` starting at `now` (an ISO 8601
/// timestamp): created and updated at `now`, audio source `mic_only`, channel
/// mode `mono`, no summary generated and a total duration of zero.
pub fn new_meeting_container(title: String, now: &str) -> (c: MeetingSessionContainer)
    ensures
        c.title == title,
        c.created_at@ == now@,
        c.updated_at@ == now@,
        c.audio_source@ == "mic_only"@,
        c.channel_mode@ == "mono"@,
        !c.summary_generated,
        c.duration_total_ms == 0,
{
    MeetingSessionContainer {
        title,
        created_at: String::from_str(now),
        updated_at: String::from_str(now),
        audio_source: String::from_str("mic_only"),
        channel_mode: String::from_str("mono"),
        summary_generated: false,
        duration_total_ms: 0,
    }
}

/// The audio source and channel mode recorded on a meeting container once
/// capture has started: `dual` for both when it captures two channels;
/// `None` (the initial `mic_only`/`mono` stands) otherwise.
pub fn capture_channel_metadata(dual_channel: bool) -> (m: Option<(String, String)>)
    ensures
        dual_channel ==> (m matches Some(p) && p.0@ == "dual"@ && p.1@ == "dual"@),
        !dual_channel ==> m is None,
{
    if dual_channel {
        Some((String::from_str("dual"), String::from_str("dual")))
    } else {
        None
    }
}

/// A settled meeting summary, and whether it is stored as the session's
/// system entry (exactly when it is not empty).
#[derive(Debug, Clone, PartialEq, Eq)]
pub struct MeetingSummary {
    pub text: String,
    pub store: bool,
}

/// What stopping a meeting does next about its summary.
#[derive(Debug)]
pub enum MeetingStopNext {
    /// Ask the model for the summary with this profile and prompt.
    Summarize { profile: ModelProfile, prompt: String },
    /// The summary is settled.
    Done(MeetingSummary),
}

/// The summary step of stopping a meeting, from its transcript `entries`, the
/// custom summary instructions and the profile id the summary is asked with.
///
/// A meeting without transcript gets an empty summary, and no profile is
/// looked up; otherwise an unusable profile gives the bracketed failure note
/// (never an error), and a usable one is asked with the summary prompt.
pub fn meeting_stop_plan(
    entries: &[TranscriptEntry],
    custom_instructions: &str,
    profiles: &[ModelProfile],
    profile_id: &str,
) -> (next: MeetingStopNext)
    ensures
        entries@.len() == 0 ==> (next matches MeetingStopNext::Done(s) && s.text@.len() == 0 && !s.store),
        entries@.len() > 0 ==> match llm_profile_service(profiles@, profile_id@) {
            Ok(p) => next matches MeetingStopNext::Summarize { profile, prompt } && profile == p
                && prompt@ == summary_prompt(entries@, custom_instructions@),
            Err(e) => next matches MeetingStopNext::Done(s) && s.store
                && s.text@ == "[Summary generation failed: "@ + e + "]"@,
        },
{
    if entries.len() == 0 {
        return MeetingStopNext::Done(MeetingSummary { text: String::new(), store: false });
    }
    let prompt = build_summary_prompt(entries, custom_instructions);
    match resolve_llm_profile_service(profiles, profile_id) {
        Ok(profile) => MeetingStopNext::Summarize { profile, prompt },
        Err(e) => {
            let text = summary_text(Err(e));
            proof {
                reveal_strlit("[Summary generation failed: ");
            }
            MeetingStopNext::Done(MeetingSummary { text, store: true })
        },
    }
}

/// The settled summary once the model answered (see [`summary_text`]); it is
/// stored exactly when it is not empty.
pub fn meeting_summary(llm: Result<String, String>) -> (s: MeetingSummary)
    ensures
        match llm {
            Ok(t) => s.text@ == t@,
            Err(e) => s.text@ == "[Summary generation failed: "@ + e@ + "]"@,
        },
        s.store == (s.text@.len() > 0),
{
    let text = summary_text(llm);
    let store = !text.as_str().is_empty();
    MeetingSummary { text, store }
}

/// The transcript entry stored for one ten-second segment of a meeting.
#[derive(Debug, Clone, PartialEq, Eq)]
pub struct MeetingChunkEntry {
    /// What was said.
    pub raw_text: String,
    /// The segment's number among the session's stored segments.
    pub chunk_index: i32,
    /// The speaker shown in the panel.
    pub speaker: String,
    /// The speaker as stored: lowercased.
    pub speaker_hint: String,
    /// `HH:MM:SS` into the session.
    pub timestamp_in_session: String,
    /// The channel it came from (`mic` or `system`).
    pub channel: String,
    /// The length of a segment.
    pub duration_ms: u64,
}

/// The length of a meeting transcription segment, in milliseconds.
pub const SEGMENT_MS: u64 = 10000;

/// The entry to store for one transcribed segment, if any: a failed or empty
/// transcription is skipped (and does not take a chunk number). The speaker
/// is the diarizer's dominant speaker over the segment when it named one
/// (`dominant`; only a system-audio segment with a live diarization session
/// can have one), else the channel's own label (`Me` or `Audio`).
pub fn meeting_chunk_entry(
    chunk_index: i32,
    channel_speaker: &str,
    dominant: Option<String>,
    channel: &str,
    transcript: Result<String, String>,
    elapsed_secs: u64,
) -> (entry: Option<MeetingChunkEntry>)
    ensures
        match transcript {
            Err(_) => entry is None,
            Ok(t) => if t@.len() == 0 {
                entry is None
            } else {
                let speaker = match dominant {
                    Some(d) => d@,
                    None => channel_speaker@,
                };
                entry matches Some(e) && e.raw_text@ == t@ && e.chunk_index == chunk_index
                    && e.speaker@ == speaker && e.speaker_hint@ == unicode_lowercase(speaker)
                    && e.timestamp_in_session@ == session_time_text(elapsed_secs as nat)
                    && e.channel@ == channel@ && e.duration_ms == SEGMENT_MS
            },
        },
{
    let text = match transcript {
        Ok(t) => t,
        Err(_) => {
            return None;
        },
    };
    if text.as_str().is_empty() {
        return None;
    }
    let speaker = match dominant {
        Some(d) => d,
        None => String::from_str(channel_speaker),
    };
    let speaker_hint = to_lowercase(speaker.as_str());
    Some(MeetingChunkEntry {
        raw_text: text,
        chunk_index,
        speaker,
        speaker_hint,
        timestamp_in_session: session_timestamp(elapsed_secs),
        channel: String::from_str(channel),
        duration_ms: SEGMENT_MS,
    })
}

/// The refusal of a second concurrent meeting.
pub const MEETING_IN_PROGRESS: &'static str = "Meeting already in progress";

/// The refusal to stop when no meeting is being recorded.
pub const NO_MEETING_IN_PROGRESS: &'static str = "No meeting in progress";

/// The meeting summary to store: the model's text, or a bracketed note of why
/// it could not be generated.
pub fn summary_text(llm: Result<String, String>) -> (s: String)
    ensures
        match llm {
            Ok(t) => s@ == t@,
            Err(e) => s@ == "[Summary generation failed: "@ + e@ + "]"@,
        },
{
    match llm {
        Ok(t) => t,
        Err(e) => {
            let mut s = String::from_str("[Summary generation failed: ");
            s.append(e.as_str());
            s.append("]");
            s
        }
    }
}

/// Configuration of a `meeting` composite widget.
#[derive(Debug, Clone, PartialEq, Eq)]
pub struct MeetingProps {
    /// Id of an `stt` widget to take the transcription profile from; empty for
    /// the `meeting_stt_profile` → global `"stt"` chain.
    pub stt_widget: String,
    /// Id of an `llm` widget to take the summary profile from; empty for the
    /// `meeting_llm_profile` → `llm_profile` chain.
    pub llm_widget: String,
    /// Summary instructions replacing the built-in ones when non-empty.
    pub summary_prompt: String,
    /// Opt-in speaker diarization of the system-audio channel.
    pub diarize: bool,
}

impl Default for MeetingProps {
    fn default() -> (p: Self)
        ensures
            p.stt_widget@.len() == 0,
            p.llm_widget@.len() == 0,
            p.summary_prompt@.len() == 0,
            !p.diarize,
    {
        MeetingProps { stt_widget: String::new(), llm_widget: String::new(), summary_prompt: String::new(), diarize: false }
    }
}

/// Resolve the meeting's `stt_widget` reference to the referenced `stt`
/// widget's model profile (which may itself be empty or the on-device
/// sentinel); `None` for an empty reference.
pub fn resolve_meeting_stt_widget_ref(props: &MeetingProps, widgets: &[WidgetDef]) -> (res: Result<Option<String>, String>)
    ensures
        match res {
            Ok(None) => widget_ref_resolution("meeting"@, "stt_widget"@, props.stt_widget@, "stt"@, widgets@)
                == Ok::<Option<(Seq<char>, Option<Seq<char>>)>, Seq<char>>(None),
            Ok(Some(p)) => widget_ref_resolution("meeting"@, "stt_widget"@, props.stt_widget@, "stt"@, widgets@)
                matches Ok(Some(r)) && r.0 == p@,
            Err(e) => widget_ref_resolution("meeting"@, "stt_widget"@, props.stt_widget@, "stt"@, widgets@)
                == Err::<Option<(Seq<char>, Option<Seq<char>>)>, Seq<char>>(e@),
        },
{
    match resolve_widget_ref("meeting", "stt_widget", props.stt_widget.as_str(), "stt", widgets) {
        Ok(Some((profile, _system))) => Ok(Some(profile)),
        Ok(None) => Ok(None),
        Err(e) => Err(e),
    }
}

/// Resolve the meeting's `llm_widget` reference to the referenced `llm`
/// widget's model profile; `None` for an empty reference.
pub fn resolve_meeting_llm_widget_ref(props: &MeetingProps, widgets: &[WidgetDef]) -> (res: Result<Option<String>, String>)
    ensures
        match res {
            Ok(None) => widget_ref_resolution("meeting"@, "llm_widget"@, props.llm_widget@, "llm"@, widgets@)
                == Ok::<Option<(Seq<char>, Option<Seq<char>>)>, Seq<char>>(None),
            Ok(Some(p)) => widget_ref_resolution("meeting"@, "llm_widget"@, props.llm_widget@, "llm"@, widgets@)
                matches Ok(Some(r)) && r.0 == p@,
            Err(e) => widget_ref_resolution("meeting"@, "llm_widget"@, props.llm_widget@, "llm"@, widgets@)
                == Err::<Option<(Seq<char>, Option<Seq<char>>)>, Seq<char>>(e@),
        },
{
    match resolve_widget_ref("meeting", "llm_widget", props.llm_widget.as_str(), "llm", widgets) {
        Ok(Some((profile, _system))) => Ok(Some(profile)),
        Ok(None) => Ok(None),
        Err(e) => Err(e),
    }
}

/// The on-device Apple Speech sentinel profile id, which the meeting capture
/// loop (HTTP transcription only) cannot drive.
pub const MEETING_APPLE_SPEECH_SENTINEL: &'static str = "apple-speech";

/// A configured model profile, resolved into the connection it stands for:
/// its id, its provider, the endpoint (per-provider defaults applied), the
/// model name and the API key.
#[derive(Debug, Clone)]
pub struct ModelProfile {
    pub id: String,
    pub provider: String,
    pub base_url: String,
    pub model: String,
    pub api_key: String,
}

impl ModelProfile {
    /// A field-by-field copy.
    pub fn duplicate(&self) -> (copy: Self)
        ensures
            copy == *self,
    {
        ModelProfile {
            id: self.id.clone(),
            provider: self.provider.clone(),
            base_url: self.base_url.clone(),
            model: self.model.clone(),
            api_key: self.api_key.clone(),
        }
    }
}

/// Index of the first profile with id `id`.
pub(crate) fn profile_index(profiles: &[ModelProfile], id: &str) -> (idx: Option<usize>)
    ensures
        match idx {
            Some(i) => find_profile(profiles@, id@, 0) == Some(i as int) && i < profiles@.len(),
            None => find_profile(profiles@, id@, 0) is None,
        },
{
    let mut i: usize = 0;
    while i < profiles.len()
        invariant
            i <= profiles@.len(),
            find_profile(profiles@, id@, 0) == find_profile(profiles@, id@, i as int),
        decreases profiles@.len() - i,
    {
        if str_eq(profiles[i].id.as_str(), id) {
            return Some(i);
        }
        i = i + 1;
    }
    None
}

/// The message when the meeting summary has no profile.
pub const NO_LLM_PROFILE_MESSAGE: &'static str = "No LLM profile configured. Please add one in Settings > Model Registry.";

/// The outcome of resolving `id` into the summary's model profile: an error
/// for an empty id and for an id no profile has; the first profile with that
/// id otherwise.
pub open spec fn llm_profile_service(ps: Seq<ModelProfile>, id: Seq<char>) -> Result<ModelProfile, Seq<char>> {
    if id.len() == 0 {
        Err(NO_LLM_PROFILE_MESSAGE@)
    } else {
        match find_profile(ps, id, 0) {
            Some(i) => Ok(ps[i]),
            None => Err("LLM profile '"@ + id + "' not found"@),
        }
    }
}

/// Resolve `profile_id` into the meeting summary's model profile (see
/// [`llm_profile_service`]).
pub fn resolve_llm_profile_service(profiles: &[ModelProfile], profile_id: &str) -> (res: Result<ModelProfile, String>)
    ensures
        match res {
            Ok(p) => llm_profile_service(profiles@, profile_id@) == Ok::<ModelProfile, Seq<char>>(p),
            Err(e) => llm_profile_service(profiles@, profile_id@) == Err::<ModelProfile, Seq<char>>(e@),
        },
{
    if profile_id.is_empty() {
        return Err(String::from_str(NO_LLM_PROFILE_MESSAGE));
    }
    match profile_index(profiles, profile_id) {
        Some(i) => Ok(profiles[i].duplicate()),
        None => {
            let mut msg = String::from_str("LLM profile '");
            msg.append(profile_id);
            msg.append("' not found");
            Err(msg)
        }
    }
}

/// Index of the first profile at or after `i` with id `id`.
pub open spec fn find_profile(ps: Seq<ModelProfile>, id: Seq<char>, i: int) -> Option<int>
    decreases ps.len() - i,
{
    if i < 0 || i >= ps.len() {
        None
    } else if ps[i].id@ == id {
        Some(i)
    } else {
        find_profile(ps, id, i + 1)
    }
}

/// `profile` can serve the meeting's transcription: not empty, not the
/// on-device sentinel, an existing profile, not of the `"apple"` provider,
/// and with a non-blank endpoint.
pub open spec fn stt_profile_usable(ps: Seq<ModelProfile>, profile: Seq<char>) -> bool {
    &&& profile.len() > 0
    &&& profile != MEETING_APPLE_SPEECH_SENTINEL@
    &&& find_profile(ps, profile, 0) matches Some(i)
    &&& ps[i].provider@ != "apple"@
    &&& !is_blank(ps[i].base_url@)
}

/// Whether `profile` names a model profile the meeting capture loop can use
/// for transcription (see [`stt_profile_usable`]).
pub fn meeting_stt_profile_usable(profiles: &[ModelProfile], profile: &str) -> (usable: bool)
    ensures
        usable == stt_profile_usable(profiles@, profile@),
{
    if profile.is_empty() || str_eq(profile, MEETING_APPLE_SPEECH_SENTINEL) {
        return false;
    }
    let mut i: usize = 0;
    while i < profiles.len()
        invariant
            i <= profiles@.len(),
            profile@.len() > 0,
            profile@ != MEETING_APPLE_SPEECH_SENTINEL@,
            find_profile(profiles@, profile@, 0) == find_profile(profiles@, profile@, i as int),
        decreases profiles@.len() - i,
    {
        if str_eq(profiles[i].id.as_str(), profile) {
            let p = &profiles[i];
            return !str_eq(p.provider.as_str(), "apple") && !is_blank_str(p.base_url.as_str());
        }
        i = i + 1;
    }
    false
}

/// The meeting's transcription profile tier: the referenced profile when
/// usable, else the legacy `meeting_stt_profile` when usable, else `None`
/// (the global `"stt"` service).
pub open spec fn meeting_stt_tier(ps: Seq<ModelProfile>, ref_profile: Option<Seq<char>>, legacy: Seq<char>) -> Option<Seq<char>> {
    if ref_profile matches Some(p) && stt_profile_usable(ps, p) {
        ref_profile
    } else if stt_profile_usable(ps, legacy) {
        Some(legacy)
    } else {
        None
    }
}

/// Decide the effective transcription profile id for the meeting (see
/// [`meeting_stt_tier`]).
pub fn resolve_meeting_stt_tier(profiles: &[ModelProfile], ref_profile: Option<&str>, legacy_profile: &str) -> (tier: Option<String>)
    ensures
        crate::widget_refs::opt_text(tier) == meeting_stt_tier(profiles@, crate::call::opt_str_text(ref_profile), legacy_profile@),
{
    if let Some(p) = ref_profile {
        if meeting_stt_profile_usable(profiles, p) {
            return Some(String::from_str(p));
        }
    }
    if meeting_stt_profile_usable(profiles, legacy_profile) {
        return Some(String::from_str(legacy_profile));
    }
    None
}

/// The transcription tier chosen for a meeting is always one the capture loop
/// can drive, or the global service; and a reference whose profile is
/// unusable (empty, the on-device sentinel, dangling, Apple, endpointless)
/// chooses exactly what no reference chooses.
pub proof fn lemma_meeting_stt_tier_usable(ps: Seq<ModelProfile>, ref_profile: Option<Seq<char>>, legacy: Seq<char>)
    ensures
        meeting_stt_tier(ps, ref_profile, legacy) matches Some(p) ==> stt_profile_usable(ps, p),
        (ref_profile matches Some(p) && !stt_profile_usable(ps, p))
            ==> meeting_stt_tier(ps, ref_profile, legacy) == meeting_stt_tier(ps, None, legacy),
{
}

/// The legacy summary-profile chain: `meeting_llm_profile` when non-empty,
/// else `llm_profile`.
pub open spec fn llm_fallback(meeting_llm_profile: Seq<char>, llm_profile: Seq<char>) -> Seq<char> {
    if meeting_llm_profile.len() > 0 { meeting_llm_profile } else { llm_profile }
}

/// The legacy `meeting_llm_profile` → `llm_profile` fallback chain.
pub fn meeting_llm_fallback_profile(meeting_llm_profile: &str, llm_profile: &str) -> (p: String)
    ensures
        p@ == llm_fallback(meeting_llm_profile@, llm_profile@),
{
    if !meeting_llm_profile.is_empty() {
        String::from_str(meeting_llm_profile)
    } else {
        String::from_str(llm_profile)
    }
}

/// Whether `profile_id` is a usable summary profile tier: any non-empty id.
pub fn meeting_llm_profile_usable(profile_id: &str) -> (usable: bool)
    ensures
        usable == (profile_id@.len() > 0),
{
    !profile_id.is_empty()
}

/// The summary profile id to stop the meeting with, and the reference error to
/// surface, from the raw `llm_widget` resolution result. A usable referenced
/// profile wins; an empty or absent one falls back to the legacy chain; a
/// failed resolution falls back too and hands its error back, so stopping
/// never fails on a bad reference.
pub fn resolve_meeting_stop_llm_profile(
    ref_result: Result<Option<String>, String>,
    meeting_llm_profile: &str,
    llm_profile: &str,
) -> (res: (String, Option<String>))
    ensures
        match ref_result {
            Ok(Some(p)) => if p@.len() > 0 {
                res.0@ == p@ && res.1 is None
            } else {
                res.0@ == llm_fallback(meeting_llm_profile@, llm_profile@) && res.1 is None
            },
            Ok(None) => res.0@ == llm_fallback(meeting_llm_profile@, llm_profile@) && res.1 is None,
            Err(e) => res.0@ == llm_fallback(meeting_llm_profile@, llm_profile@) && res.1 == Some(e),
        },
{
    match ref_result {
        Ok(Some(profile_id)) => {
            if meeting_llm_profile_usable(profile_id.as_str()) {
                (profile_id, None)
            } else {
                (meeting_llm_fallback_profile(meeting_llm_profile, llm_profile), None)
            }
        }
        Ok(None) => (meeting_llm_fallback_profile(meeting_llm_profile, llm_profile), None),
        Err(e) => (meeting_llm_fallback_profile(meeting_llm_profile, llm_profile), Some(e)),
    }
}

/// `c` is an ASCII decimal digit.
pub open spec fn is_ascii_digit(c: char) -> bool {
    '0' <= c && c <= '9'
}

/// The display label of a stored speaker hint: `"me"` → `"Me"`; a
/// diarization tag (`s` followed by one or more ASCII digits) unchanged;
/// anything else → `"Audio"`.
pub open spec fn speaker_label(hint: Seq<char>) -> Seq<char> {
    if hint == "me"@ {
        "Me"@
    } else if hint.len() >= 2 && hint[0] == 's' && (forall|i: int| 1 <= i < hint.len() ==> is_ascii_digit(#[trigger] hint[i])) {
        hint
    } else {
        "Audio"@
    }
}

/// Map a stored `speaker_hint` to its display label (see [`speaker_label`]).
pub fn speaker_display_hint(hint: &str) -> (label: String)
    ensures
        label@ == speaker_label(hint@),
{
    if str_eq(hint, "me") {
        return String::from_str("Me");
    }
    let v = chars_of(hint);
    if v.len() >= 2 && v[0] == 's' {
        let mut i: usize = 1;
        while i < v.len()
            invariant
                1 <= i <= v@.len(),
                v@ == hint@,
                hint@ != "me"@,
                v@.len() >= 2,
                v@[0] == 's',
                forall|k: int| 1 <= k < i ==> is_ascii_digit(#[trigger] v@[k]),
            decreases v@.len() - i,
        {
            if !('0' <= v[i] && v[i] <= '9') {
                proof { assert(!is_ascii_digit(hint@[i as int])); }
                return String::from_str("Audio");
            }
            i = i + 1;
        }
        return String::from_str(hint);
    }
    String::from_str("Audio")
}

/// A transcript entry as the summary prompt reads it: its text and the
/// `speaker_hint` / `timestamp_in_session` strings of its metadata, when
/// present.
#[derive(Debug, Clone)]
pub struct TranscriptEntry {
    pub raw_text: String,
    pub speaker_hint: Option<String>,
    pub timestamp_in_session: Option<String>,
}

/// The built-in meeting-summary instructions.
pub const BUILTIN_SUMMARY_INSTRUCTIONS: &'static str = "You are a meeting assistant. Given the following transcript, generate:\n1. A concise meeting summary (3-5 sentences)\n2. Key discussion points (bullet list grouped by topic)\n3. Action items (who does what, by when)\n4. Decisions made during the meeting\n\nOutput in clean Markdown. Do not wrap in a code block.";

/// One transcript line: `[timestamp] speaker: text`, where a missing
/// timestamp reads `--:--` and a missing speaker hint reads `Me`.
pub open spec fn transcript_line(e: TranscriptEntry) -> Seq<char> {
    let ts = match e.timestamp_in_session {
        Some(t) => t@,
        None => "--:--"@,
    };
    let speaker = match e.speaker_hint {
        Some(h) => speaker_label(h@),
        None => "Me"@,
    };
    "["@ + ts + "] "@ + speaker + ": "@ + e.raw_text@
}

/// The transcript lines of `entries` joined by newlines.
pub open spec fn transcript_text(entries: Seq<TranscriptEntry>) -> Seq<char>
    decreases entries.len(),
{
    if entries.len() == 0 {
        Seq::empty()
    } else if entries.len() == 1 {
        transcript_line(entries[0])
    } else {
        transcript_text(entries.drop_last()) + "\n"@ + transcript_line(entries.last())
    }
}

/// The summary prompt: empty for an empty transcript; otherwise the
/// instructions (the custom ones when non-empty, else the built-in ones),
/// a blank line, `TRANSCRIPT:` and the transcript.
pub open spec fn summary_prompt(entries: Seq<TranscriptEntry>, custom: Seq<char>) -> Seq<char> {
    if entries.len() == 0 {
        Seq::empty()
    } else {
        let instructions = if custom.len() == 0 { BUILTIN_SUMMARY_INSTRUCTIONS@ } else { custom };
        instructions + "\n\nTRANSCRIPT:\n"@ + transcript_text(entries)
    }
}

fn push_transcript_line(out: &mut String, e: &TranscriptEntry)
    ensures
        final(out)@ == old(out)@ + transcript_line(*e),
{
    let speaker = match &e.speaker_hint {
        Some(h) => speaker_display_hint(h.as_str()),
        None => String::from_str("Me"),
    };
    out.append("[");
    match &e.timestamp_in_session {
        Some(t) => out.append(t.as_str()),
        None => out.append("--:--"),
    }
    out.append("] ");
    out.append(speaker.as_str());
    out.append(": ");
    out.append(e.raw_text.as_str());
    proof {
        assert(out@ =~= old(out)@ + transcript_line(*e));
    }
}

/// Build the AI summary prompt from the transcript entries (see [`summary_prompt`]).
pub fn build_summary_prompt(entries: &[TranscriptEntry], custom_instructions: &str) -> (prompt: String)
    ensures
        prompt@ == summary_prompt(entries@, custom_instructions@),
{
    if entries.len() == 0 {
        return String::new();
    }
    let mut transcript = String::new();
    push_transcript_line(&mut transcript, &entries[0]);
    let mut i: usize = 1;
    proof {
        assert(entries@.subrange(0, 1).len() == 1);
        assert(transcript_text(entries@.subrange(0, 1)) == transcript_line(entries@[0]));
    }
    while i < entries.len()
        invariant
            1 <= i <= entries@.len(),
            transcript@ == transcript_text(entries@.subrange(0, i as int)),
        decreases entries@.len() - i,
    {
        transcript.append("\n");
        push_transcript_line(&mut transcript, &entries[i]);
        proof {
            let pre = entries@.subrange(0, i as int);
            let post = entries@.subrange(0, i as int + 1);
            assert(post.drop_last() =~= pre);
            assert(post.last() == entries@[i as int]);
        }
        i = i + 1;
    }
    proof {
        assert(entries@.subrange(0, entries@.len() as int) =~= entries@);
    }
    let mut prompt = if custom_instructions.is_empty() {
        String::from_str(BUILTIN_SUMMARY_INSTRUCTIONS)
    } else {
        String::from_str(custom_instructions)
    };
    prompt.append("\n\nTRANSCRIPT:\n");
    prompt.append(transcript.as_str());
    prompt
}

/// The user-interface languages of built-in display names.
#[derive(Debug, Clone, Copy, PartialEq, Eq)]
pub enum Lang {
    En,
    Zh,
}

/// The display name of the built-in meeting widget in `lang`.
pub open spec fn meeting_label(lang: Lang) -> Seq<char> {
    match lang {
        Lang::En => "Meeting"@,
        Lang::Zh => "会议"@,
    }
}

/// The first 16 characters of an ISO 8601 timestamp (`YYYY-MM-DDTHH:MM`)
/// with `T` replaced by a space.
pub open spec fn title_time(ts: Seq<char>) -> Seq<char> {
    Seq::new(16, |i: int| if ts[i] == 'T' { ' ' } else { ts[i] })
}

/// `"{label} {yyyy-MM-dd HH:mm}"` from a label and an ISO 8601 timestamp.
pub fn meeting_title(label: &str, timestamp: &str) -> (title: String)
    requires
        timestamp@.len() >= 16,
    ensures
        title@ == label@ + " "@ + title_time(timestamp@),
{
    let v = chars_of(timestamp);
    let mut title = String::from_str(label);
    title.append(" ");
    let ghost start = title@;
    let mut i: usize = 0;
    while i < 16
        invariant
            i <= 16,
            v@ == timestamp@,
            v@.len() >= 16,
            title@ == start + Seq::new(i as nat, |k: int| if v@[k] == 'T' { ' ' } else { v@[k] }),
        decreases 16 - i,
    {
        let c = v[i];
        title.push(if c == 'T' { ' ' } else { c });
        i = i + 1;
        proof {
            assert(title@ =~= start + Seq::new(i as nat, |k: int| if v@[k] == 'T' { ' ' } else { v@[k] }));
        }
    }
    proof {
        assert(title@ =~= label@ + " "@ + title_time(timestamp@));
    }
    title
}

proof fn lemma_padded_len(n: nat, width: nat)
    ensures
        crate::text::padded_decimal(n, width).len() >= width,
{
}

/// The default meeting title: the meeting label of `lang`, a space, and the
/// current UTC date and time to the minute (`yyyy-MM-dd HH:mm`).
pub fn default_meeting_title(lang: Lang) -> (title: String)
    ensures
        exists|secs: u64| title@ == meeting_label(lang) + " "@ + title_time(iso8601_of_unix_secs(secs as nat)),
{
    let now = now_iso8601();
    proof {
        let secs = choose|secs: u64| now@ == iso8601_of_unix_secs(secs as nat);
        let ymd = crate::datetime::civil_date((secs / 86400) as int);
        let t = (secs as nat) % 86400;
        lemma_padded_len(ymd.0 as nat, 4);
        lemma_padded_len(ymd.1 as nat, 2);
        lemma_padded_len(ymd.2 as nat, 2);
        lemma_padded_len(t / 3600, 2);
        lemma_padded_len((t % 3600) / 60, 2);
        lemma_padded_len(t % 60, 2);
    }
    let label = match lang {
        Lang::En => "Meeting",
        Lang::Zh => "会议",
    };
    meeting_title(label, now.as_str())
}

/// The samples one meeting transcription segment holds: ten seconds at
/// 16 kHz.
pub const SEGMENT_SAMPLES: usize = 160000;

/// Which accumulated channels are ready to transcribe: the microphone
/// channel, and the system-audio channel with the `[start_ms, end_ms)` span
/// it covers on the system-audio clock.
#[derive(Debug, Clone, Copy, PartialEq, Eq)]
pub struct ReadyChannels {
    pub mic: bool,
    pub system: Option<(u64, u64)>,
}

/// The channels ready after polling, from the samples accumulated on each
/// (`mic_len`, `sys_len`) and the system-audio samples received so far
/// (`sys_total`): a channel is ready once it holds a full segment; a ready
/// system segment spans from `sys_len / 16` milliseconds before the end
/// (clamped at zero) to `sys_total / 16`.
pub fn ready_channels(mic_len: usize, sys_len: usize, sys_total: u64) -> (r: ReadyChannels)
    ensures
        r.mic == (mic_len >= SEGMENT_SAMPLES),
        sys_len < SEGMENT_SAMPLES ==> r.system is None,
        sys_len >= SEGMENT_SAMPLES ==> r.system == Some((
            (if sys_total / 16 >= sys_len as int / 16 { (sys_total / 16 - sys_len as int / 16) as u64 } else { 0u64 }),
            sys_total / 16,
        )),
{
    let system = if sys_len >= SEGMENT_SAMPLES {
        let end_ms = sys_total / 16;
        let span = (sys_len / 16) as u64;
        let start_ms = if end_ms >= span { end_ms - span } else { 0 };
        Some((start_ms, end_ms))
    } else {
        None
    };
    ReadyChannels { mic: mic_len >= SEGMENT_SAMPLES, system }
}

/// `HH:MM:SS` of a session-relative time in seconds (hours as many digits as
/// needed, at least two).
pub open spec fn session_time_text(secs: nat) -> Seq<char> {
    padded_decimal(secs / 3600, 2) + ":"@ + padded_decimal((secs % 3600) / 60, 2) + ":"@ + padded_decimal(secs % 60, 2)
}

/// The timestamp of a transcript segment, `elapsed_secs` into the session
/// (see [`session_time_text`]).
pub fn session_timestamp(elapsed_secs: u64) -> (ts: String)
    ensures
        ts@ == session_time_text(elapsed_secs as nat),
{
    let mut ts = String::new();
    push_padded_decimal(&mut ts, elapsed_secs / 3600, 2);
    ts.append(":");
    push_padded_decimal(&mut ts, (elapsed_secs % 3600) / 60, 2);
    ts.append(":");
    push_padded_decimal(&mut ts, elapsed_secs % 60, 2);
    proof {
        assert(ts@ =~= session_time_text(elapsed_secs as nat));
    }
    ts
}

} // verus!
