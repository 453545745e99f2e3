//! The skill-wielding agent: its composite-widget props, the skill summaries
//! shown in settings, skill file names, the choice of its model profile, and
//! the text of one exchange (the prompt with the user's selection, and the
//! part of the reply that is spoken).
use vstd::prelude::*;

use crate::meeting::{find_profile, profile_index, ModelProfile};
use crate::text::{chars_of, str_eq, string_from_range};
use crate::widget_refs::{resolve_widget_ref, widget_ref_resolution, WidgetDef};
use crate::workflow::SelectionContext;

verus! {

/// A parameter of a skill, as shown in settings.
#[derive(Debug, Clone, PartialEq, Eq)]
pub struct SkillParamInfo {
    pub name: String,
    pub description: String,
    pub required: bool,
    pub default_value: Option<String>,
}

/// Summary of one registered skill, as shown in settings.
#[derive(Debug, Clone, PartialEq, Eq)]
pub struct SkillInfo {
    /// Machine-readable identifier (the skill's name).
    pub id: String,
    /// Display name (the skill's name).
    pub name: String,
    pub description: String,
    /// `"native"` for a built-in skill, `"custom"` otherwise.
    pub skill_type: String,
    pub enabled: bool,
    /// Whether the skill is one of the built-in desktop skills.
    pub builtin: bool,
    pub parameters: Vec<SkillParamInfo>,
}

/// A skill as the skill registry lists it.
#[derive(Debug, Clone)]
pub struct RegisteredSkill {
    pub name: String,
    pub description: String,
    pub enabled: bool,
    pub parameters: Vec<SkillParamInfo>,
}

/// `names` holds `name`.
pub open spec fn names_contain(names: Seq<String>, name: Seq<char>) -> bool {
    exists|i: int| 0 <= i < names.len() && #[trigger] names[i]@ == name
}

/// The settings summary of `skill`, given the names of the built-in skills.
pub open spec fn skill_summary(skill: RegisteredSkill, builtin_names: Seq<String>, info: SkillInfo) -> bool {
    let builtin = names_contain(builtin_names, skill.name@);
    &&& info.id@ == skill.name@
    &&& info.name@ == skill.name@
    &&& info.description@ == skill.description@
    &&& info.skill_type@ == (if builtin { "native"@ } else { "custom"@ })
    &&& info.enabled == skill.enabled
    &&& info.builtin == builtin
    &&& info.parameters@ == skill.parameters@
}

fn contains_name(names: &[String], name: &str) -> (found: bool)
    ensures
        found == names_contain(names@, name@),
{
    let mut i: usize = 0;
    while i < names.len()
        invariant
            i <= names@.len(),
            forall|k: int| 0 <= k < i ==> #[trigger] names@[k]@ != name@,
        decreases names@.len() - i,
    {
        if str_eq(names[i].as_str(), name) {
            return true;
        }
        i = i + 1;
    }
    false
}

/// The settings summary of one registered skill.
pub fn skill_info(skill: RegisteredSkill, builtin_names: &[String]) -> (info: SkillInfo)
    ensures
        skill_summary(skill, builtin_names@, info),
{
    let builtin = contains_name(builtin_names, skill.name.as_str());
    let skill_type = if builtin { String::from_str("native") } else { String::from_str("custom") };
    SkillInfo {
        id: skill.name.clone(),
        name: skill.name,
        description: skill.description,
        skill_type,
        enabled: skill.enabled,
        builtin,
        parameters: skill.parameters,
    }
}

/// The settings summaries of the registered skills, in registry order.
pub fn skill_infos(skills: Vec<RegisteredSkill>, builtin_names: &[String]) -> (infos: Vec<SkillInfo>)
    ensures
        infos@.len() == skills@.len(),
        forall|i: int| 0 <= i < skills@.len() ==> skill_summary(#[trigger] skills@[i], builtin_names@, infos@[i]),
{
    let mut infos: Vec<SkillInfo> = Vec::new();
    let mut rest = skills;
    let ghost all = rest@;
    let n = rest.len();
    let mut taken: usize = 0;
    while rest.len() > 0
        invariant
            all.len() == n,
            taken + rest@.len() == all.len(),
            infos@.len() == taken,
            rest@ =~= all.subrange(taken as int, all.len() as int),
            forall|i: int| 0 <= i < taken ==> skill_summary(#[trigger] all[i], builtin_names@, infos@[i]),
        decreases rest@.len(),
    {
        let s = rest.remove(0);
        let info = skill_info(s, builtin_names);
        infos.push(info);
        taken = taken + 1;
    }
    infos
}

/// What `char::is_alphanumeric` returns for `c`: whether `c` is Unicode
/// alphabetic or numeric.
pub uninterp spec fn unicode_alphanumeric(c: char) -> bool;

/// Calls `char::is_alphanumeric`; trusted to return [`unicode_alphanumeric`]
/// of `c` (nothing more is claimed of which characters qualify).
#[verifier::external_body]
fn is_alphanumeric(c: char) -> (r: bool)
    ensures
        r == unicode_alphanumeric(c),
{
    c.is_alphanumeric()
}

/// `c` kept in a skill file name, or its replacement `_`.
pub open spec fn file_name_char(c: char) -> char {
    if unicode_alphanumeric(c) || c == '-' || c == '_' { c } else { '_' }
}

/// A skill name made safe as a file name: every character that is not
/// alphanumeric, `-` or `_` becomes `_`.
pub fn sanitize_skill_name(name: &str) -> (safe: String)
    ensures
        safe@ == name@.map_values(|c: char| file_name_char(c)),
{
    let cs = chars_of(name);
    let mut out = String::new();
    let mut i: usize = 0;
    while i < cs.len()
        invariant
            i <= cs@.len(),
            cs@ == name@,
            out@ == cs@.subrange(0, i as int).map_values(|c: char| file_name_char(c)),
        decreases cs@.len() - i,
    {
        let c = cs[i];
        let keep = is_alphanumeric(c) || c == '-' || c == '_';
        if keep {
            out.push(c);
        } else {
            out.push('_');
        }
        i = i + 1;
        proof {
            assert(cs@.subrange(0, i as int) =~= cs@.subrange(0, i - 1).push(c));
            assert(out@ =~= cs@.subrange(0, i as int).map_values(|c: char| file_name_char(c)));
        }
    }
    proof {
        assert(cs@.subrange(0, cs@.len() as int) =~= cs@);
    }
    out
}

/// Sanitizing is idempotent: a sanitized name is already safe, so
/// sanitizing it again changes nothing, and its length is that of the name.
pub proof fn lemma_sanitize_idempotent(name: Seq<char>)
    ensures
        ({
            let once = name.map_values(|c: char| file_name_char(c));
            &&& once.len() == name.len()
            &&& once.map_values(|c: char| file_name_char(c)) == once
        }),
{
    let once = name.map_values(|c: char| file_name_char(c));
    assert(once.map_values(|c: char| file_name_char(c)) =~= once);
}

/// The file a custom skill is stored in: its sanitized name with `.json`.
pub fn skill_file_name(name: &str) -> (file: String)
    ensures
        file@ == name@.map_values(|c: char| file_name_char(c)) + ".json"@,
{
    let mut f = sanitize_skill_name(name);
    f.append(".json");
    f
}

/// The voice an agent speaks with unless configured: `"default"`.
pub fn default_voice() -> (v: String)
    ensures
        v@ == "default"@,
{
    String::from_str("default")
}

/// The skill-execution timeout unless configured: 30 seconds.
pub fn default_timeout_secs() -> (t: u64)
    ensures
        t == 30,
{
    30
}

/// The conversation memory depth unless configured: 20 turns.
pub fn default_max_turns() -> (n: usize)
    ensures
        n == 20,
{
    20
}

/// Configuration of an `agent` composite widget.
#[derive(Debug, Clone, PartialEq, Eq)]
pub struct AgentProps {
    /// Id of an `llm` widget to take the model profile from; empty for the
    /// `agent_llm_profile` → `llm_profile` chain.
    pub llm_widget: String,
    /// Speak the response after delivering it.
    pub tts_enabled: bool,
    /// TTS profile id; empty for the global `"tts"` profile.
    pub voice_profile: String,
    /// Voice identifier passed to the TTS backend.
    pub voice: String,
    /// Skill-execution timeout in seconds for this agent's calls.
    pub timeout_secs: u64,
    /// Conversation memory depth in turns.
    pub max_turns: usize,
}

impl Default for AgentProps {
    fn default() -> (p: Self)
        ensures
            p.llm_widget@.len() == 0,
            !p.tts_enabled,
            p.voice_profile@.len() == 0,
            p.voice@ == "default"@,
            p.timeout_secs == 30,
            p.max_turns == 20,
    {
        AgentProps {
            llm_widget: String::new(),
            tts_enabled: false,
            voice_profile: String::new(),
            voice: default_voice(),
            timeout_secs: default_timeout_secs(),
            max_turns: default_max_turns(),
        }
    }
}

/// The referenced profile of a resolved reference, if any.
pub open spec fn ref_profile(res: Result<Option<(Seq<char>, Option<Seq<char>>)>, Seq<char>>) -> Option<Seq<char>> {
    match res {
        Ok(Some(r)) => Some(r.0),
        _ => None,
    }
}

/// Resolve the agent's `llm_widget` reference to the referenced `llm`
/// widget's model profile; `None` for an empty reference.
pub fn resolve_agent_llm_widget_ref(props: &AgentProps, widgets: &[WidgetDef]) -> (res: Result<Option<String>, String>)
    ensures
        match res {
            Ok(None) => widget_ref_resolution("agent"@, "llm_widget"@, props.llm_widget@, "llm"@, widgets@)
                == Ok::<Option<(Seq<char>, Option<Seq<char>>)>, Seq<char>>(None),
            Ok(Some(p)) => widget_ref_resolution("agent"@, "llm_widget"@, props.llm_widget@, "llm"@, widgets@)
                matches Ok(Some(r)) && r.0 == p@,
            Err(e) => widget_ref_resolution("agent"@, "llm_widget"@, props.llm_widget@, "llm"@, widgets@)
                == Err::<Option<(Seq<char>, Option<Seq<char>>)>, Seq<char>>(e@),
        },
{
    match resolve_widget_ref("agent", "llm_widget", props.llm_widget.as_str(), "llm", widgets) {
        Ok(Some((profile, _system))) => Ok(Some(profile)),
        Ok(None) => Ok(None),
        Err(e) => Err(e),
    }
}

/// The agent's configured profile chain: `agent_llm_profile` when set, else
/// the global `llm_profile`.
pub open spec fn agent_legacy_profile(agent_llm_profile: Seq<char>, llm_profile: Seq<char>) -> Seq<char> {
    if agent_llm_profile.len() > 0 { agent_llm_profile } else { llm_profile }
}

/// The profile an exchange runs on: the referenced widget's profile when
/// there is a reference, else the configured chain.
pub fn agent_profile_id(ref_profile: Option<String>, agent_llm_profile: &str, llm_profile: &str) -> (id: String)
    ensures
        id@ == match ref_profile {
            Some(p) => p@,
            None => agent_legacy_profile(agent_llm_profile@, llm_profile@),
        },
{
    match ref_profile {
        Some(p) => p,
        None => if agent_llm_profile.is_empty() { String::from_str(llm_profile) } else { String::from_str(agent_llm_profile) },
    }
}

/// The message when the agent has no profile at all.
pub const NO_AGENT_PROFILE_MESSAGE: &'static str = "No LLM profile configured for the agent. Configure the Agent widget's LLM / 在智能体组件中配置 LLM.";

/// The outcome of resolving `id` into the agent's model profile: an error for
/// an empty id and for an id no profile has; the first profile with that id
/// otherwise.
pub open spec fn agent_service(ps: Seq<ModelProfile>, id: Seq<char>) -> Result<ModelProfile, Seq<char>> {
    if id.len() == 0 {
        Err(NO_AGENT_PROFILE_MESSAGE@)
    } else {
        match find_profile(ps, id, 0) {
            Some(i) => Ok(ps[i]),
            None => Err("Agent LLM profile '"@ + id + "' not found"@),
        }
    }
}

/// Resolve `profile_id` into the agent's model profile (see [`agent_service`]).
pub fn resolve_agent_llm_service(profiles: &[ModelProfile], profile_id: &str) -> (res: Result<ModelProfile, String>)
    ensures
        match res {
            Ok(p) => agent_service(profiles@, profile_id@) == Ok::<ModelProfile, Seq<char>>(p),
            Err(e) => agent_service(profiles@, profile_id@) == Err::<ModelProfile, Seq<char>>(e@),
        },
{
    if profile_id.is_empty() {
        return Err(String::from_str(NO_AGENT_PROFILE_MESSAGE));
    }
    match profile_index(profiles, profile_id) {
        Some(i) => Ok(profiles[i].duplicate()),
        None => {
            let mut msg = String::from_str("Agent LLM profile '");
            msg.append(profile_id);
            msg.append("' not found");
            Err(msg)
        }
    }
}

/// Profile `id` resolves to a profile of the Anthropic provider.
pub open spec fn lands_on_anthropic(ps: Seq<ModelProfile>, id: Seq<char>) -> bool {
    agent_service(ps, id) matches Ok(p) && p.provider@ == "anthropic"@
}

/// The profile a workflow-wired agent widget runs on for the chat-only
/// notice: a referenced non-empty profile, else the configured chain.
pub open spec fn agent_widget_profile(ref_profile: Option<Seq<char>>, agent_llm_profile: Seq<char>, llm_profile: Seq<char>) -> Seq<char> {
    match ref_profile {
        Some(p) => if p.len() > 0 { p } else { agent_legacy_profile(agent_llm_profile, llm_profile) },
        None => agent_legacy_profile(agent_llm_profile, llm_profile),
    }
}

/// Agent widget `w` silently reaches Anthropic: its props are readable, its
/// `llm_widget` reference resolves (a dangling or mistyped one fails loudly
/// instead), and the profile it then runs on is an Anthropic one.
pub open spec fn widget_reaches_anthropic(
    w: WidgetDef,
    ws: Seq<WidgetDef>,
    ps: Seq<ModelProfile>,
    agent_llm_profile: Seq<char>,
    llm_profile: Seq<char>,
) -> bool {
    let res = widget_ref_resolution("agent"@, "llm_widget"@, w.llm_widget@, "llm"@, ws);
    &&& w.type_tag@ == "agent"@
    &&& w.props is Ok
    &&& res is Ok
    &&& lands_on_anthropic(ps, agent_widget_profile(ref_profile(res), agent_llm_profile, llm_profile))
}

/// Some way an agent exchange can run lands on the Anthropic provider: one
/// of the agent widgets, or the configured chain the panel's own typed and
/// spoken requests use.
pub open spec fn any_anthropic(ws: Seq<WidgetDef>, ps: Seq<ModelProfile>, agent_llm_profile: Seq<char>, llm_profile: Seq<char>) -> bool {
    ||| exists|i: int| 0 <= i < ws.len() && widget_reaches_anthropic(#[trigger] ws[i], ws, ps, agent_llm_profile, llm_profile)
    ||| lands_on_anthropic(ps, agent_legacy_profile(agent_llm_profile, llm_profile))
}

fn is_anthropic(profiles: &[ModelProfile], id: &str) -> (hit: bool)
    ensures
        hit == lands_on_anthropic(profiles@, id@),
{
    match resolve_agent_llm_service(profiles, id) {
        Ok(p) => str_eq(p.provider.as_str(), "anthropic"),
        Err(_) => false,
    }
}

/// Whether the agent panel should warn that the agent runs chat-only
/// (see [`any_anthropic`]). Never fails: a profile that does not resolve
/// counts as not Anthropic.
pub fn agent_any_anthropic(widgets: &[WidgetDef], profiles: &[ModelProfile], agent_llm_profile: &str, llm_profile: &str)
    -> (hit: bool)
    ensures
        hit == any_anthropic(widgets@, profiles@, agent_llm_profile@, llm_profile@),
{
    let mut i: usize = 0;
    while i < widgets.len()
        invariant
            i <= widgets@.len(),
            forall|k: int| 0 <= k < i ==> !widget_reaches_anthropic(
                #[trigger] widgets@[k], widgets@, profiles@, agent_llm_profile@, llm_profile@),
        decreases widgets@.len() - i,
    {
        let w = &widgets[i];
        if str_eq(w.type_tag.as_str(), "agent") && w.props.is_ok() {
            let res = resolve_widget_ref("agent", "llm_widget", w.llm_widget.as_str(), "llm", widgets);
            if let Ok(r) = res {
                let profile = match r {
                    Some((p, _system)) => if p.as_str().is_empty() {
                        agent_profile_id(None, agent_llm_profile, llm_profile)
                    } else {
                        p
                    },
                    None => agent_profile_id(None, agent_llm_profile, llm_profile),
                };
                if is_anthropic(profiles, profile.as_str()) {
                    return true;
                }
            }
        }
        i = i + 1;
    }
    let legacy = agent_profile_id(None, agent_llm_profile, llm_profile);
    is_anthropic(profiles, legacy.as_str())
}

/// The provider the agent panel reports for its chat-only notice:
/// `anthropic` when some way an exchange can run lands on Anthropic (see
/// [`any_anthropic`]), empty otherwise.
pub fn agent_llm_provider(widgets: &[WidgetDef], profiles: &[ModelProfile], agent_llm_profile: &str, llm_profile: &str)
    -> (provider: String)
    ensures
        provider@ == if any_anthropic(widgets@, profiles@, agent_llm_profile@, llm_profile@) { "anthropic"@ } else { Seq::<char>::empty() },
{
    if agent_any_anthropic(widgets, profiles, agent_llm_profile, llm_profile) {
        String::from_str("anthropic")
    } else {
        String::new()
    }
}

/// The prompt an exchange sends: with a non-empty selection, the selection
/// (and the app it came from) framed before the user's instruction; else the
/// instruction alone.
pub open spec fn prompt_with_selection(selection: Option<SelectionContext>, text: Seq<char>) -> Seq<char> {
    match selection {
        Some(s) => if s.text@.len() > 0 {
            "[Selected text from "@ + s.app_name@ + "]:\n\"\"\"\n"@ + s.text@ + "\n\"\"\"\n\nUser instruction: "@ + text
        } else {
            text
        },
        None => text,
    }
}

/// Build the prompt of an exchange (see [`prompt_with_selection`]).
pub fn agent_prompt(selection: Option<&SelectionContext>, text: &str) -> (prompt: String)
    ensures
        prompt@ == prompt_with_selection(
            match selection {
                Some(s) => Some(*s),
                None => None,
            },
            text@,
        ),
{
    match selection {
        Some(s) => if s.text.as_str().is_empty() {
            String::from_str(text)
        } else {
            let mut p = String::from_str("[Selected text from ");
            p.append(s.app_name.as_str());
            p.append("]:\n\"\"\"\n");
            p.append(s.text.as_str());
            p.append("\n\"\"\"\n\nUser instruction: ");
            p.append(text);
            p
        },
        None => String::from_str(text),
    }
}

/// `c` ends a sentence (ASCII or full-width `.`, `!`, `?`).
pub open spec fn is_sentence_end(c: char) -> bool {
    c == '.' || c == '!' || c == '?' || c == '\u{3002}' || c == '\u{ff01}' || c == '\u{ff1f}'
}

/// Where the spoken excerpt of `s` ends, scanning from `i` with `seen`
/// sentence ends already passed: just after the third sentence end, or at
/// the end of `s`.
pub open spec fn excerpt_end(s: Seq<char>, i: int, seen: int) -> int
    decreases s.len() - i,
{
    if i < 0 || i >= s.len() {
        s.len() as int
    } else if is_sentence_end(s[i]) && seen + 1 >= 3 {
        i + 1
    } else {
        excerpt_end(s, i + 1, if is_sentence_end(s[i]) { seen + 1 } else { seen })
    }
}

/// The part of a response that is spoken: its first three sentences (up to
/// and including the third sentence end), or all of it.
pub fn spoken_excerpt(response: &str) -> (excerpt: String)
    ensures
        excerpt@ == response@.subrange(0, excerpt_end(response@, 0, 0)),
{
    let cs = chars_of(response);
    let mut seen: usize = 0;
    let mut i: usize = 0;
    while i < cs.len()
        invariant
            i <= cs@.len(),
            cs@ == response@,
            seen < 3,
            excerpt_end(cs@, 0, 0) == excerpt_end(cs@, i as int, seen as int),
        decreases cs@.len() - i,
    {
        let c = cs[i];
        let end = c == '.' || c == '!' || c == '?' || c == '\u{3002}' || c == '\u{ff01}' || c == '\u{ff1f}';
        if end {
            if seen + 1 >= 3 {
                return string_from_range(&cs, 0, i + 1);
            }
            seen = seen + 1;
        }
        i = i + 1;
    }
    string_from_range(&cs, 0, cs.len())
}

} // verus!
