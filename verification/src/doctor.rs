//! Setup-doctor decisions: endpoint grouping and probe URLs, the findings
//! reported for endpoints and permissions, and the stale-server diagnosis.
use vstd::prelude::*;

use crate::text::{
    chars_of, contains_str, ends_with_str, is_blank, is_blank_str, push_decimal, decimal_digits, seq_contains,
    seq_ends_with, seq_starts_with, str_eq, string_from_range, to_lowercase, trim, trim_seq, unicode_lowercase,
};

verus! {

/// Connection info of one configured service.
#[derive(Debug)]
pub struct ServiceConfig {
    pub base_url: String,
    pub api_key: String,
    pub model: String,
    pub provider: String,
    pub stt_api: String,
}

impl ServiceConfig {
    /// A field-by-field copy.
    pub fn duplicate(&self) -> (copy: Self)
        ensures
            copy == *self,
    {
        ServiceConfig {
            base_url: self.base_url.clone(),
            api_key: self.api_key.clone(),
            model: self.model.clone(),
            provider: self.provider.clone(),
            stt_api: self.stt_api.clone(),
        }
    }
}

/// The texts of a list of strings.
pub open spec fn texts(v: Seq<String>) -> Seq<Seq<char>> {
    v.map_values(|l: String| l@)
}

/// How serious a finding is.
#[derive(Debug, Clone, Copy, PartialEq, Eq, Structural)]
pub enum Severity {
    Pass,
    Warn,
    Advise,
}

/// A fix the user can apply from a finding.
#[derive(Debug, Clone)]
pub enum FixAction {
    /// Deep-link to a System Settings pane.
    OpenSettingsPane { pane: String },
    /// Point a TTS profile at a faster model.
    SwitchTtsModel { profile_id: String, model: String },
}

/// One row of the setup doctor's report.
#[derive(Debug, Clone)]
pub struct Finding {
    pub id: String,
    pub severity: Severity,
    pub message_key: String,
    pub message_params: Vec<String>,
    pub fix: Option<FixAction>,
}

/// Whether the endpoint failure is the "stale server process" state: the
/// port refuses connections *and* a matching process is still running.
pub fn omlx_stale_process_decision(tcp_refused: bool, process_exists: bool) -> (stale: bool)
    ensures
        stale == (tcp_refused && process_exists),
{
    tcp_refused && process_exists
}

/// `s` with every leading repetition of `p` removed (`str::trim_start_matches`).
pub open spec fn strip_leading(s: Seq<char>, p: Seq<char>) -> Seq<char>
    decreases s.len(),
{
    if p.len() > 0 && seq_starts_with(s, p) {
        strip_leading(s.subrange(p.len() as int, s.len() as int), p)
    } else {
        s
    }
}

/// `s` with every trailing `c` removed (`str::trim_end_matches` with a char).
pub open spec fn strip_trailing(s: Seq<char>, c: char) -> Seq<char>
    decreases s.len(),
{
    if s.len() > 0 && s.last() == c {
        strip_trailing(s.drop_last(), c)
    } else {
        s
    }
}

fn trim_start_matches(s: &str, p: &str) -> (t: String)
    ensures
        t@ == strip_leading(s@, p@),
{
    let v = chars_of(s);
    let pv = chars_of(p);
    let n = v.len();
    let m = pv.len();
    let mut i: usize = 0;
    if m == 0 {
        proof { assert(v@.subrange(0, n as int) =~= v@); }
        return string_from_range(&v, 0, n);
    }
    proof { assert(v@.subrange(0, n as int) =~= v@); }
    while m <= n - i && prefix_at(&v, &pv, i)
        invariant
            i <= n,
            n == v@.len(),
            m == pv@.len(),
            m > 0,
            v@ == s@,
            pv@ == p@,
            strip_leading(s@, p@) == strip_leading(v@.subrange(i as int, n as int), p@),
        decreases n - i,
    {
        proof {
            let rest = v@.subrange(i as int, n as int);
            assert(rest.subrange(0, m as int) =~= v@.subrange(i as int, i + m));
            assert(rest.subrange(m as int, rest.len() as int) =~= v@.subrange(i + m, n as int));
        }
        i = i + m;
    }
    proof {
        let rest = v@.subrange(i as int, n as int);
        if m <= n - i {
            assert(rest.subrange(0, m as int) =~= v@.subrange(i as int, i + m));
        }
    }
    string_from_range(&v, i, n)
}

fn prefix_at(v: &Vec<char>, p: &Vec<char>, i: usize) -> (m: bool)
    requires
        i + p@.len() <= v@.len(),
    ensures
        m == (v@.subrange(i as int, i + p@.len()) == p@),
{
    let mut k: usize = 0;
    while k < p.len()
        invariant
            k <= p@.len(),
            i + p@.len() <= v@.len(),
            forall|t: int| 0 <= t < k ==> v@[i + t] == p@[t],
        decreases p@.len() - k,
    {
        assert(i + k < v.len());
        if v[i + k] != p[k] {
            proof { assert(v@.subrange(i as int, i + p@.len())[k as int] != p@[k as int]); }
            return false;
        }
        k = k + 1;
    }
    proof { assert(v@.subrange(i as int, i + p@.len()) =~= p@); }
    true
}

fn trim_end_matches_char(s: &str, c: char) -> (t: String)
    ensures
        t@ == strip_trailing(s@, c),
{
    let v = chars_of(s);
    let mut j: usize = v.len();
    proof { assert(v@.subrange(0, j as int) =~= v@); }
    while j > 0 && v[j - 1] == c
        invariant
            j <= v@.len(),
            v@ == s@,
            strip_trailing(s@, c) == strip_trailing(v@.subrange(0, j as int), c),
        decreases j,
    {
        proof { assert(v@.subrange(0, j as int).drop_last() =~= v@.subrange(0, j - 1)); }
        j = j - 1;
    }
    proof {
        if j > 0 {
            assert(v@.subrange(0, j as int).last() == v@[j - 1]);
        }
    }
    string_from_range(&v, 0, j)
}

/// A base URL without its scheme and trailing slashes (`localhost:8000`).
pub open spec fn host_text(base_url: Seq<char>) -> Seq<char> {
    strip_trailing(strip_leading(strip_leading(base_url, "https://"@), "http://"@), '/')
}

/// Strip the scheme from a base URL for compact display (`localhost:8000`).
pub fn host_of(base_url: &str) -> (host: String)
    ensures
        host@ == host_text(base_url@),
{
    let a = trim_start_matches(base_url, "https://");
    let b = trim_start_matches(a.as_str(), "http://");
    trim_end_matches_char(b.as_str(), '/')
}

/// The URL of `path` under an OpenAI-style API rooted at `base_url`: trailing
/// slashes dropped, and `/v1` inserted unless the base already ends with it.
pub open spec fn v1_url_text(base_url: Seq<char>, path: Seq<char>) -> Seq<char> {
    let base = strip_trailing(base_url, '/');
    if seq_ends_with(base, "/v1"@) { base + "/"@ + path } else { base + "/v1/"@ + path }
}

/// The URL of `path` (e.g. `models`, `chat/completions`) under an
/// OpenAI-style API rooted at `base_url` (see [`v1_url_text`]).
pub fn v1_url(base_url: &str, path: &str) -> (url: String)
    ensures
        url@ == v1_url_text(base_url@, path@),
{
    let mut base = trim_end_matches_char(base_url, '/');
    if ends_with_str(base.as_str(), "/v1") {
        base.append("/");
    } else {
        base.append("/v1/");
    }
    base.append(path);
    base
}

/// A service that has a network endpoint to probe: a non-blank base URL and
/// not the on-device Apple provider.
pub open spec fn has_endpoint(svc: ServiceConfig) -> bool {
    !is_blank(svc.base_url@) && svc.provider@ != "apple"@
}

/// Index of the first group whose service has base URL `url`.
pub open spec fn group_with_url(groups: Seq<(Seq<Seq<char>>, ServiceConfig)>, url: Seq<char>, i: int) -> Option<int>
    decreases groups.len() - i,
{
    if i < 0 || i >= groups.len() {
        None
    } else if groups[i].1.base_url@ == url {
        Some(i)
    } else {
        group_with_url(groups, url, i + 1)
    }
}

/// The endpoint groups of `roles` (label, service), in first-seen order:
/// roles without an endpoint are skipped, and roles sharing a base URL share
/// one group (the first such role's service), collecting their labels.
pub open spec fn endpoint_groups(roles: Seq<(Seq<char>, ServiceConfig)>) -> Seq<(Seq<Seq<char>>, ServiceConfig)>
    decreases roles.len(),
{
    if roles.len() == 0 {
        Seq::empty()
    } else {
        let groups = endpoint_groups(roles.drop_last());
        let (label, svc) = roles.last();
        if !has_endpoint(svc) {
            groups
        } else {
            match group_with_url(groups, svc.base_url@, 0) {
                Some(g) => groups.update(g, (groups[g].0.push(label), groups[g].1)),
                None => groups.push((seq![label], svc)),
            }
        }
    }
}

/// `labels` joined by `sep`.
pub open spec fn join_text(labels: Seq<Seq<char>>, sep: Seq<char>) -> Seq<char>
    decreases labels.len(),
{
    if labels.len() == 0 {
        Seq::empty()
    } else if labels.len() == 1 {
        labels[0]
    } else {
        join_text(labels.drop_last(), sep) + sep + labels.last()
    }
}

proof fn lemma_group_with_url_found(groups: Seq<(Seq<Seq<char>>, ServiceConfig)>, url: Seq<char>, i: int)
    requires
        0 <= i,
        group_with_url(groups, url, i) is Some,
    ensures
        i <= group_with_url(groups, url, i)->0 < groups.len(),
    decreases groups.len() - i,
{
    if i < groups.len() && groups[i].1.base_url@ != url {
        lemma_group_with_url_found(groups, url, i + 1);
    }
}

fn join_labels(labels: &Vec<String>) -> (s: String)
    ensures
        s@ == join_text(texts(labels@), " · "@),
{
    let ghost lv = texts(labels@);
    let mut s = String::new();
    let mut k: usize = 0;
    while k < labels.len()
        invariant
            k <= labels@.len(),
            lv == texts(labels@),
            s@ == join_text(lv.subrange(0, k as int), " · "@),
        decreases labels@.len() - k,
    {
        if k > 0 {
            s.append(" · ");
        }
        s.append(labels[k].as_str());
        proof {
            let post = lv.subrange(0, k as int + 1);
            assert(post.drop_last() =~= lv.subrange(0, k as int));
            assert(post.last() == labels@[k as int]@);
            if k == 0 {
                assert(join_text(lv.subrange(0, 0), " · "@) =~= Seq::<char>::empty());
            }
        }
        k = k + 1;
    }
    proof { assert(lv.subrange(0, labels@.len() as int) =~= lv); }
    s
}

/// The labels and service of each group under construction.
pub open spec fn group_model(gs: Seq<(Vec<String>, ServiceConfig)>) -> Seq<(Seq<Seq<char>>, ServiceConfig)> {
    gs.map_values(|g: (Vec<String>, ServiceConfig)| (texts(g.0@), g.1))
}

fn find_group(groups: &Vec<(Vec<String>, ServiceConfig)>, url: &str) -> (r: Option<usize>)
    ensures
        match r {
            Some(g) => g < groups@.len() && group_with_url(group_model(groups@), url@, 0) == Some(g as int),
            None => group_with_url(group_model(groups@), url@, 0) is None,
        },
{
    let mut g: usize = 0;
    while g < groups.len()
        invariant
            g <= groups@.len(),
            group_with_url(group_model(groups@), url@, 0) == group_with_url(group_model(groups@), url@, g as int),
        decreases groups@.len() - g,
    {
        if str_eq(groups[g].1.base_url.as_str(), url) {
            return Some(g);
        }
        g = g + 1;
    }
    None
}

/// Group the services of `roles` by base URL (see [`endpoint_groups`]),
/// returning each group's labels joined with `" · "` and its service.
pub fn group_roles(roles: Vec<(String, ServiceConfig)>) -> (out: Vec<(String, ServiceConfig)>)
    ensures
        ({
            let gs = endpoint_groups(roles@.map_values(|r: (String, ServiceConfig)| (r.0@, r.1)));
            &&& out@.len() == gs.len()
            &&& forall|i: int| #![trigger out@[i]] 0 <= i < out@.len() ==> out@[i].0@ == join_text(gs[i].0, " · "@)
                && out@[i].1 == gs[i].1
        }),
{
    let ghost rv = roles@.map_values(|r: (String, ServiceConfig)| (r.0@, r.1));
    let mut groups: Vec<(Vec<String>, ServiceConfig)> = Vec::new();
    let mut k: usize = 0;
    proof { assert(group_model(groups@) =~= endpoint_groups(rv.subrange(0, 0))); }
    while k < roles.len()
        invariant
            k <= roles@.len(),
            rv == roles@.map_values(|r: (String, ServiceConfig)| (r.0@, r.1)),
            group_model(groups@) == endpoint_groups(rv.subrange(0, k as int)),
        decreases roles@.len() - k,
    {
        let ghost pre = rv.subrange(0, k as int);
        let ghost old_groups = groups@;
        proof {
            assert(rv.subrange(0, k as int + 1).drop_last() =~= pre);
            assert(rv.subrange(0, k as int + 1).last() == rv[k as int]);
        }
        let label = roles[k].0.clone();
        let svc = roles[k].1.duplicate();
        if !is_blank_str(svc.base_url.as_str()) && !str_eq(svc.provider.as_str(), "apple") {
            match find_group(&groups, svc.base_url.as_str()) {
                Some(g) => {
                    let mut entry = groups.remove(g);
                    entry.0.push(label);
                    groups.insert(g, entry);
                    proof {
                        let m = endpoint_groups(pre);
                        assert(group_model(groups@) =~= m.update(g as int, (m[g as int].0.push(label@), m[g as int].1))) by {
                            assert forall|i: int| 0 <= i < groups@.len() implies #[trigger] group_model(groups@)[i]
                                == m.update(g as int, (m[g as int].0.push(label@), m[g as int].1))[i] by {
                                if i == g {
                                    assert(texts(groups@[i].0@) =~= texts(old_groups[i].0@).push(label@));
                                } else {
                                    assert(groups@[i] == old_groups[i]);
                                }
                            }
                        }
                    }
                }
                None => {
                    let mut labels: Vec<String> = Vec::new();
                    labels.push(label);
                    groups.push((labels, svc));
                    proof {
                        let m = endpoint_groups(pre);
                        assert(texts(groups@[groups@.len() - 1].0@) =~= seq![label@]);
                        assert(group_model(groups@) =~= m.push((seq![label@], svc)));
                    }
                }
            }
        }
        k = k + 1;
    }
    proof { assert(rv.subrange(0, roles@.len() as int) =~= rv); }
    let mut out: Vec<(String, ServiceConfig)> = Vec::new();
    let mut j: usize = 0;
    let ghost gs = endpoint_groups(rv);
    while j < groups.len()
        invariant
            j <= groups@.len(),
            gs == endpoint_groups(rv),
            group_model(groups@) == gs,
            out@.len() == j,
            forall|i: int| #![trigger out@[i]] 0 <= i < j ==> out@[i].0@ == join_text(gs[i].0, " · "@) && out@[i].1 == gs[i].1,
        decreases groups@.len() - j,
    {
        let joined = join_labels(&groups[j].0);
        let svc = groups[j].1.duplicate();
        proof { assert(group_model(groups@)[j as int] == (texts(groups@[j as int].0@), groups@[j as int].1)); }
        out.push((joined, svc));
        j = j + 1;
    }
    out
}

/// Group the STT / LLM / TTS services by base URL so services sharing a host
/// collapse into one probe and one row (see [`group_roles`]).
pub fn group_services(stt: ServiceConfig, llm: ServiceConfig, tts: ServiceConfig) -> (out: Vec<(String, ServiceConfig)>)
    ensures
        ({
            let gs = endpoint_groups(seq![("STT"@, stt), ("LLM"@, llm), ("TTS"@, tts)]);
            &&& out@.len() == gs.len()
            &&& forall|i: int| #![trigger out@[i]] 0 <= i < out@.len() ==> out@[i].0@ == join_text(gs[i].0, " · "@)
                && out@[i].1 == gs[i].1
        }),
{
    let ghost (s0, l0, t0) = (stt, llm, tts);
    let mut roles: Vec<(String, ServiceConfig)> = Vec::new();
    roles.push((String::from_str("STT"), stt));
    roles.push((String::from_str("LLM"), llm));
    roles.push((String::from_str("TTS"), tts));
    proof {
        assert(roles@.map_values(|r: (String, ServiceConfig)| (r.0@, r.1)) =~= seq![("STT"@, s0), ("LLM"@, l0), ("TTS"@, t0)]);
    }
    group_roles(roles)
}

/// A fix-free finding with the given id, severity, message key and no parameters.
pub open spec fn plain_finding(f: Finding, id: Seq<char>, severity: Severity, key: Seq<char>) -> bool {
    f.id@ == id && f.severity == severity && f.message_key@ == key && f.message_params@.len() == 0
}

/// The fix opens the System Settings pane `pane`.
pub open spec fn opens_pane(fix: Option<FixAction>, pane: Seq<char>) -> bool {
    fix matches Some(FixAction::OpenSettingsPane { pane: p }) && p@ == pane
}

/// The permission findings: one passing row when both the microphone and
/// accessibility permissions are granted; otherwise a warning, with an
/// "open System Settings" fix, for each missing one (microphone first).
pub fn check_permissions(mic_ok: bool, ax_ok: bool) -> (out: Vec<Finding>)
    ensures
        mic_ok && ax_ok ==> out@.len() == 1 && plain_finding(out@[0], "permissions_ok"@, Severity::Pass, "doctor.permissions_ok"@)
            && out@[0].fix is None,
        !(mic_ok && ax_ok) ==> out@.len() == (if mic_ok { 0int } else { 1int }) + (if ax_ok { 0int } else { 1int }),
        !mic_ok ==> plain_finding(out@[0], "permission_mic"@, Severity::Warn, "doctor.permission_mic"@)
            && opens_pane(out@[0].fix, "microphone"@),
        !ax_ok ==> ({
            let f = out@[out@.len() - 1];
            plain_finding(f, "permission_accessibility"@, Severity::Warn, "doctor.permission_accessibility"@)
                && opens_pane(f.fix, "accessibility"@)
        }),
{
    let mut out: Vec<Finding> = Vec::new();
    if mic_ok && ax_ok {
        out.push(Finding {
            id: String::from_str("permissions_ok"),
            severity: Severity::Pass,
            message_key: String::from_str("doctor.permissions_ok"),
            message_params: Vec::new(),
            fix: None,
        });
        return out;
    }
    if !mic_ok {
        out.push(Finding {
            id: String::from_str("permission_mic"),
            severity: Severity::Warn,
            message_key: String::from_str("doctor.permission_mic"),
            message_params: Vec::new(),
            fix: Some(FixAction::OpenSettingsPane { pane: String::from_str("microphone") }),
        });
    }
    if !ax_ok {
        out.push(Finding {
            id: String::from_str("permission_accessibility"),
            severity: Severity::Warn,
            message_key: String::from_str("doctor.permission_accessibility"),
            message_params: Vec::new(),
            fix: Some(FixAction::OpenSettingsPane { pane: String::from_str("accessibility") }),
        });
    }
    out
}

/// The finding for one probed endpoint group `label` at `host`: a pass row
/// carrying the latency when the probe answered (`Ok(ms)`), else a warning,
/// keyed as the stale-server state when `stale` holds.
pub fn endpoint_finding(label: String, host: String, probe: Result<u64, String>, stale: bool) -> (f: Finding)
    ensures
        match probe {
            Ok(ms) => {
                &&& f.id@ == "endpoint_ok:"@ + host@
                &&& f.severity == Severity::Pass
                &&& f.message_key@ == "doctor.endpoint_ok"@
                &&& f.message_params@.len() == 2
                &&& f.message_params@[0]@ == label@
                &&& f.message_params@[1]@ == host@ + " · "@ + decimal_digits(ms as nat) + "ms"@
            },
            Err(_) => {
                &&& f.id@ == "endpoint_bad:"@ + host@
                &&& f.severity == Severity::Warn
                &&& f.message_key@ == if stale { "doctor.omlx_stale_process"@ } else { "doctor.endpoint_unreachable"@ }
                &&& f.message_params@.len() == 2
                &&& f.message_params@[0]@ == label@
                &&& f.message_params@[1]@ == host@
            },
        },
        f.fix is None,
{
    match probe {
        Ok(ms) => {
            let mut id = String::from_str("endpoint_ok:");
            id.append(host.as_str());
            let mut detail = host;
            detail.append(" · ");
            push_decimal(&mut detail, ms);
            detail.append("ms");
            let mut params: Vec<String> = Vec::new();
            params.push(label);
            params.push(detail);
            Finding {
                id,
                severity: Severity::Pass,
                message_key: String::from_str("doctor.endpoint_ok"),
                message_params: params,
                fix: None,
            }
        }
        Err(_) => {
            let mut id = String::from_str("endpoint_bad:");
            id.append(host.as_str());
            let key = if stale { "doctor.omlx_stale_process" } else { "doctor.endpoint_unreachable" };
            let mut params: Vec<String> = Vec::new();
            params.push(label);
            params.push(host);
            Finding {
                id,
                severity: Severity::Warn,
                message_key: String::from_str(key),
                message_params: params,
                fix: None,
            }
        }
    }
}

/// The TTS profile the conversation-speed check probes: the call's own voice
/// profile when set, else the global TTS profile (both trimmed).
pub fn conversation_tts_profile(voice_profile: &str, tts_profile: &str) -> (p: String)
    ensures
        p@ == if trim_seq(voice_profile@).len() > 0 { trim_seq(voice_profile@) } else { trim_seq(tts_profile@) },
{
    let v = trim(voice_profile);
    if !v.as_str().is_empty() { v } else { trim(tts_profile) }
}

/// The voice the conversation-speed check synthesizes with: the call's voice
/// trimmed, or `"default"` when that is empty.
pub fn conversation_voice(voice: &str) -> (v: String)
    ensures
        v@ == if trim_seq(voice@).len() > 0 { trim_seq(voice@) } else { "default"@ },
{
    let t = trim(voice);
    if t.as_str().is_empty() { String::from_str("default") } else { t }
}

/// The model a slow conversation voice could switch to: the first of
/// `models` whose lowercased id contains `kokoro` and differs from the
/// lowercased current model.
pub open spec fn kokoro_candidate(models: Seq<String>, current: Seq<char>, i: int) -> Option<int>
    decreases models.len() - i,
{
    if i < 0 || i >= models.len() {
        None
    } else if seq_contains(unicode_lowercase(models[i]@), "kokoro"@)
        && unicode_lowercase(models[i]@) != unicode_lowercase(current) {
        Some(i)
    } else {
        kokoro_candidate(models, current, i + 1)
    }
}

/// Find a faster kokoro model among the server's `models` that is not the
/// current one (see [`kokoro_candidate`]).
pub fn kokoro_switch_model(models: &[String], current_model: &str) -> (found: Option<String>)
    ensures
        match kokoro_candidate(models@, current_model@, 0) {
            Some(i) => found matches Some(m) && m@ == models@[i]@,
            None => found is None,
        },
{
    let current = to_lowercase(current_model);
    let mut i: usize = 0;
    while i < models.len()
        invariant
            i <= models@.len(),
            current@ == unicode_lowercase(current_model@),
            kokoro_candidate(models@, current_model@, 0) == kokoro_candidate(models@, current_model@, i as int),
        decreases models@.len() - i,
    {
        let lower = to_lowercase(models[i].as_str());
        if contains_str(lower.as_str(), "kokoro") && !str_eq(lower.as_str(), current.as_str()) {
            return Some(models[i].clone());
        }
        i = i + 1;
    }
    None
}

/// The System Settings deep link of a permission pane, for the panes that
/// may be opened.
pub open spec fn settings_pane_link(pane: Seq<char>) -> Option<Seq<char>> {
    if pane == "microphone"@ {
        Some("x-apple.systempreferences:com.apple.preference.security?Privacy_Microphone"@)
    } else if pane == "accessibility"@ {
        Some("x-apple.systempreferences:com.apple.preference.security?Privacy_Accessibility"@)
    } else if pane == "speech_recognition"@ {
        Some("x-apple.systempreferences:com.apple.preference.security?Privacy_SpeechRecognition"@)
    } else if pane == "screen_recording"@ {
        Some("x-apple.systempreferences:com.apple.preference.security?Privacy_ScreenCapture"@)
    } else {
        None
    }
}

/// The Security & Privacy settings address that every permission pane's deep
/// link starts with, up to its `Privacy_` anchor.
pub const PRIVACY_PANE_PREFIX: &'static str = "x-apple.systempreferences:com.apple.preference.security?Privacy_";

/// The `Privacy_` anchor macOS names each openable permission pane by:
/// `Microphone`, `Accessibility`, `SpeechRecognition`, and `ScreenCapture`
/// for screen recording.
pub open spec fn privacy_anchor(pane: Seq<char>) -> Option<Seq<char>> {
    if pane == "microphone"@ {
        Some("Microphone"@)
    } else if pane == "accessibility"@ {
        Some("Accessibility"@)
    } else if pane == "speech_recognition"@ {
        Some("SpeechRecognition"@)
    } else if pane == "screen_recording"@ {
        Some("ScreenCapture"@)
    } else {
        None
    }
}

proof fn lemma_pane_links_spelled_out()
    ensures
        "x-apple.systempreferences:com.apple.preference.security?Privacy_Microphone"@
            == PRIVACY_PANE_PREFIX@ + "Microphone"@,
        "x-apple.systempreferences:com.apple.preference.security?Privacy_Accessibility"@
            == PRIVACY_PANE_PREFIX@ + "Accessibility"@,
        "x-apple.systempreferences:com.apple.preference.security?Privacy_SpeechRecognition"@
            == PRIVACY_PANE_PREFIX@ + "SpeechRecognition"@,
        "x-apple.systempreferences:com.apple.preference.security?Privacy_ScreenCapture"@
            == PRIVACY_PANE_PREFIX@ + "ScreenCapture"@,
{
    reveal_strlit("x-apple.systempreferences:com.apple.preference.security?Privacy_");
    reveal_strlit("x-apple.systempreferences:com.apple.preference.security?Privacy_Microphone");
    reveal_strlit("x-apple.systempreferences:com.apple.preference.security?Privacy_Accessibility");
    reveal_strlit("x-apple.systempreferences:com.apple.preference.security?Privacy_SpeechRecognition");
    reveal_strlit("x-apple.systempreferences:com.apple.preference.security?Privacy_ScreenCapture");
    reveal_strlit("Microphone");
    reveal_strlit("Accessibility");
    reveal_strlit("SpeechRecognition");
    reveal_strlit("ScreenCapture");
    assert("x-apple.systempreferences:com.apple.preference.security?Privacy_Microphone"@
        =~= PRIVACY_PANE_PREFIX@ + "Microphone"@);
    assert("x-apple.systempreferences:com.apple.preference.security?Privacy_Accessibility"@
        =~= PRIVACY_PANE_PREFIX@ + "Accessibility"@);
    assert("x-apple.systempreferences:com.apple.preference.security?Privacy_SpeechRecognition"@
        =~= PRIVACY_PANE_PREFIX@ + "SpeechRecognition"@);
    assert("x-apple.systempreferences:com.apple.preference.security?Privacy_ScreenCapture"@
        =~= PRIVACY_PANE_PREFIX@ + "ScreenCapture"@);
}

/// Each pane's deep link is the Security & Privacy address followed by that
/// same pane's own `Privacy_` anchor, and exactly the panes with an anchor
/// can be opened.
pub proof fn lemma_pane_link_opens_its_own_pane(pane: Seq<char>)
    ensures
        settings_pane_link(pane) is Some <==> privacy_anchor(pane) is Some,
        privacy_anchor(pane) matches Some(a) ==> settings_pane_link(pane) == Some(PRIVACY_PANE_PREFIX@ + a),
{
    lemma_pane_links_spelled_out();
}

/// The deep link that opens permission pane `pane`; only the allowlisted
/// panes have one, any other is refused with `Unknown settings pane: {pane}`.
pub fn settings_pane_url(pane: &str) -> (url: Result<String, String>)
    ensures
        match url {
            Ok(u) => settings_pane_link(pane@) == Some(u@)
                && privacy_anchor(pane@) == Some(u@.subrange(PRIVACY_PANE_PREFIX@.len() as int, u@.len() as int))
                && u@.subrange(0, PRIVACY_PANE_PREFIX@.len() as int) == PRIVACY_PANE_PREFIX@,
            Err(e) => settings_pane_link(pane@) is None && e@ == "Unknown settings pane: "@ + pane@,
        },
{
    proof {
        lemma_pane_links_spelled_out();
        let p = PRIVACY_PANE_PREFIX@;
        assert((p + "Microphone"@).subrange(0, p.len() as int) =~= p);
        assert((p + "Microphone"@).subrange(p.len() as int, (p + "Microphone"@).len() as int) =~= "Microphone"@);
        assert((p + "Accessibility"@).subrange(0, p.len() as int) =~= p);
        assert((p + "Accessibility"@).subrange(p.len() as int, (p + "Accessibility"@).len() as int) =~= "Accessibility"@);
        assert((p + "SpeechRecognition"@).subrange(0, p.len() as int) =~= p);
        assert((p + "SpeechRecognition"@).subrange(p.len() as int, (p + "SpeechRecognition"@).len() as int)
            =~= "SpeechRecognition"@);
        assert((p + "ScreenCapture"@).subrange(0, p.len() as int) =~= p);
        assert((p + "ScreenCapture"@).subrange(p.len() as int, (p + "ScreenCapture"@).len() as int) =~= "ScreenCapture"@);
    }
    if str_eq(pane, "microphone") {
        Ok(String::from_str("x-apple.systempreferences:com.apple.preference.security?Privacy_Microphone"))
    } else if str_eq(pane, "accessibility") {
        Ok(String::from_str("x-apple.systempreferences:com.apple.preference.security?Privacy_Accessibility"))
    } else if str_eq(pane, "speech_recognition") {
        Ok(String::from_str("x-apple.systempreferences:com.apple.preference.security?Privacy_SpeechRecognition"))
    } else if str_eq(pane, "screen_recording") {
        Ok(String::from_str("x-apple.systempreferences:com.apple.preference.security?Privacy_ScreenCapture"))
    } else {
        let mut e = String::from_str("Unknown settings pane: ");
        e.append(pane);
        Err(e)
    }
}

} // verus!
