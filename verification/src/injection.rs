//! Choosing how text is delivered at the cursor: paste through the clipboard
//! or type it as keystrokes, globally or per frontmost application, and
//! falling back to the other strategy when the chosen one fails.
use vstd::prelude::*;

use crate::text::{
    ascii_lowercase, chars_of, contains_str, seq_contains, split_chars, split_on, str_eq, to_ascii_lowercase,
    to_lowercase, trim, trim_seq, unicode_lowercase,
};

verus! {

/// Which injection method was used.
#[derive(Debug, Clone, Copy, PartialEq, Eq, Structural)]
pub enum InjectionMethod {
    /// A simulated paste sequence (Cmd+V on macOS, Ctrl+Shift+V on Linux).
    ClipboardPaste,
    /// Simulated typing (unicode keyboard events / `xdotool type`).
    SimulatedTyping,
}

/// How text should be delivered to the target app.
#[derive(Debug, Clone, Copy, PartialEq, Eq, Structural)]
pub enum InjectionStrategy {
    Paste,
    Type,
}

/// The strategy a configuration string names: `type`, `typing` or
/// `keystrokes` (ASCII case-insensitive, surrounding whitespace ignored) mean
/// typing; anything else means paste.
pub open spec fn strategy_named(s: Seq<char>) -> InjectionStrategy {
    let t = ascii_lowercase(trim_seq(s));
    if t == "type"@ || t == "typing"@ || t == "keystrokes"@ {
        InjectionStrategy::Type
    } else {
        InjectionStrategy::Paste
    }
}

impl InjectionStrategy {
    /// Parse a config string. Unknown values fall back to Paste (the default).
    pub fn parse(s: &str) -> (strategy: Self)
        ensures
            strategy == strategy_named(s@),
    {
        let t = trim(s);
        let lower = to_ascii_lowercase(t.as_str());
        let l = lower.as_str();
        if str_eq(l, "type") || str_eq(l, "typing") || str_eq(l, "keystrokes") {
            InjectionStrategy::Type
        } else {
            InjectionStrategy::Paste
        }
    }
}

/// A per-application override: frontmost apps whose name contains `app`
/// (case-insensitively) use `strategy`.
#[derive(Debug, Clone)]
pub struct AppOverride {
    pub app: String,
    pub strategy: String,
}

/// The injection settings of the configuration.
#[derive(Debug, Clone)]
pub struct InjectionConfig {
    /// The global strategy name.
    pub injection_strategy: String,
    /// Per-app overrides, first match wins.
    pub injection_app_overrides: Vec<AppOverride>,
}

/// Override `o` applies to the lowercased app name `name_lower`: its trimmed,
/// lowercased pattern is non-empty and occurs in the name.
pub open spec fn override_applies(o: AppOverride, name_lower: Seq<char>) -> bool {
    let pat = unicode_lowercase(trim_seq(o.app@));
    pat.len() > 0 && seq_contains(name_lower, pat)
}

/// Index of the first override at or after `i` that applies to `name_lower`.
pub open spec fn first_override(os: Seq<AppOverride>, name_lower: Seq<char>, i: int) -> Option<int>
    decreases os.len() - i,
{
    if i < 0 || i >= os.len() {
        None
    } else if override_applies(os[i], name_lower) {
        Some(i)
    } else {
        first_override(os, name_lower, i + 1)
    }
}

/// The strategy for the frontmost app `app_name`: the first applying
/// override's, else the global one.
pub open spec fn strategy_for_app(config: InjectionConfig, app_name: Option<Seq<char>>) -> InjectionStrategy {
    match app_name {
        Some(name) => match first_override(config.injection_app_overrides@, unicode_lowercase(name), 0) {
            Some(i) => strategy_named(config.injection_app_overrides@[i].strategy@),
            None => strategy_named(config.injection_strategy@),
        },
        None => strategy_named(config.injection_strategy@),
    }
}

/// Resolve the injection strategy for the given frontmost app name.
///
/// Per-app overrides are matched as case-insensitive substrings of the app
/// name; the first match in the list wins. Falls back to the global default.
pub fn resolve_strategy_for_app(config: &InjectionConfig, app_name: Option<&str>) -> (strategy: InjectionStrategy)
    ensures
        strategy == strategy_for_app(*config, crate::call::opt_str_text(app_name)),
{
    if let Some(name) = app_name {
        let name_lower = to_lowercase(name);
        let os = &config.injection_app_overrides;
        let mut i: usize = 0;
        while i < os.len()
            invariant
                i <= os@.len(),
                os@ == config.injection_app_overrides@,
                app_name == Some(name),
                name_lower@ == unicode_lowercase(name@),
                first_override(os@, name_lower@, 0) == first_override(os@, name_lower@, i as int),
            decreases os@.len() - i,
        {
            let o = &os[i];
            let pat = to_lowercase(trim(o.app.as_str()).as_str());
            if !pat.as_str().is_empty() && contains_str(name_lower.as_str(), pat.as_str()) {
                return InjectionStrategy::parse(o.strategy.as_str());
            }
            i = i + 1;
        }
    }
    InjectionStrategy::parse(config.injection_strategy.as_str())
}

/// The other strategy, tried once when the chosen one fails.
pub fn alternate(strategy: InjectionStrategy) -> (other: InjectionStrategy)
    ensures
        other != strategy,
{
    match strategy {
        InjectionStrategy::Paste => InjectionStrategy::Type,
        InjectionStrategy::Type => InjectionStrategy::Paste,
    }
}

/// The method a strategy delivers text with.
pub open spec fn method_of(strategy: InjectionStrategy) -> InjectionMethod {
    match strategy {
        InjectionStrategy::Type => InjectionMethod::SimulatedTyping,
        InjectionStrategy::Paste => InjectionMethod::ClipboardPaste,
    }
}

/// The method a strategy delivers text with.
pub fn method_for(strategy: InjectionStrategy) -> (method: InjectionMethod)
    ensures
        method == method_of(strategy),
{
    match strategy {
        InjectionStrategy::Type => InjectionMethod::SimulatedTyping,
        InjectionStrategy::Paste => InjectionMethod::ClipboardPaste,
    }
}

/// The strategy's name as `{:?}` prints it.
pub open spec fn strategy_name(strategy: InjectionStrategy) -> Seq<char> {
    match strategy {
        InjectionStrategy::Paste => "Paste"@,
        InjectionStrategy::Type => "Type"@,
    }
}

/// The result of an injection from the outcome of the chosen strategy and,
/// when that failed, of the alternate one: the method of the strategy that
/// succeeded, or both errors (`"{primary} (fallback {Alt} also failed: {alt})"`).
pub fn injection_result(
    strategy: InjectionStrategy,
    primary: Result<(), String>,
    fallback: Option<Result<(), String>>,
) -> (res: Result<InjectionMethod, String>)
    requires
        primary is Err ==> fallback is Some,
    ensures
        match primary {
            Ok(_) => res == Ok::<InjectionMethod, String>(method_of(strategy)),
            Err(e1) => match fallback {
                Some(Ok(_)) => res == Ok::<InjectionMethod, String>(method_of(alternate_of(strategy))),
                Some(Err(e2)) => res matches Err(msg) && msg@ == e1@ + " (fallback "@
                    + strategy_name(alternate_of(strategy)) + " also failed: "@ + e2@ + ")"@,
                None => false,
            },
        },
{
    match primary {
        Ok(_) => Ok(method_for(strategy)),
        Err(e1) => {
            let alt = alternate(strategy);
            match fallback {
                Some(Ok(_)) => Ok(method_for(alt)),
                Some(Err(e2)) => {
                    let mut msg = e1;
                    msg.append(" (fallback ");
                    msg.append(match alt {
                        InjectionStrategy::Paste => "Paste",
                        InjectionStrategy::Type => "Type",
                    });
                    msg.append(" also failed: ");
                    msg.append(e2.as_str());
                    msg.append(")");
                    Err(msg)
                }
                None => Err(e1),
            }
        }
    }
}

/// What to do next while injecting text.
#[derive(Debug)]
pub enum InjectionStep {
    /// Try delivering the text with this strategy and report its outcome.
    Attempt(InjectionStrategy),
    /// The injection is over, with this result.
    Done(Result<InjectionMethod, String>),
}

/// The next step of injecting text with `strategy`, from the preflight
/// check's outcome and the outcomes of the attempts made so far, in order.
///
/// A failed preflight ends the injection with its error before any strategy
/// runs. Otherwise `strategy` is tried first; if it fails, the alternate
/// strategy is tried once, and the result is as [`injection_result`] states.
pub fn injection_step(
    strategy: InjectionStrategy,
    preflight: &Result<(), String>,
    attempts: &[Result<(), String>],
) -> (step: InjectionStep)
    ensures
        match preflight {
            Err(e) => step matches InjectionStep::Done(Err(msg)) && msg@ == e@,
            Ok(_) => if attempts@.len() == 0 {
                step == InjectionStep::Attempt(strategy)
            } else {
                match attempts@[0] {
                    Ok(_) => step == InjectionStep::Done(Ok(method_of(strategy))),
                    Err(e1) => if attempts@.len() == 1 {
                        step == InjectionStep::Attempt(alternate_of(strategy))
                    } else {
                        match attempts@[1] {
                            Ok(_) => step == InjectionStep::Done(Ok(method_of(alternate_of(strategy)))),
                            Err(e2) => step matches InjectionStep::Done(Err(msg)) && msg@ == e1@
                                + " (fallback "@ + strategy_name(alternate_of(strategy)) + " also failed: "@
                                + e2@ + ")"@,
                        }
                    },
                }
            },
        },
{
    match preflight {
        Err(e) => {
            return InjectionStep::Done(Err(e.clone()));
        }
        Ok(_) => {}
    }
    if attempts.len() == 0 {
        return InjectionStep::Attempt(strategy);
    }
    let e1 = match &attempts[0] {
        Ok(_) => {
            return InjectionStep::Done(Ok(method_for(strategy)));
        }
        Err(e1) => e1.clone(),
    };
    if attempts.len() == 1 {
        return InjectionStep::Attempt(alternate(strategy));
    }
    let fallback = match &attempts[1] {
        Ok(_) => Ok(()),
        Err(e2) => Err(e2.clone()),
    };
    InjectionStep::Done(injection_result(strategy, Err(e1), Some(fallback)))
}

/// The other strategy.
pub open spec fn alternate_of(strategy: InjectionStrategy) -> InjectionStrategy {
    match strategy {
        InjectionStrategy::Paste => InjectionStrategy::Type,
        InjectionStrategy::Type => InjectionStrategy::Paste,
    }
}

/// The message when simulated input cannot be delivered for lack of the
/// Accessibility permission.
pub const NO_ACCESSIBILITY_MESSAGE: &'static str = "Accessibility permission not granted — Fonos can't deliver keystrokes. Enable Fonos in System Settings > Privacy & Security > Accessibility.";

/// The message when a secure input field blocks simulated input.
pub const SECURE_INPUT_MESSAGE: &'static str = "A secure input field is active (likely a password field) — macOS blocks simulated input here.";

/// The check made before simulating input: it fails without the
/// Accessibility permission, then while a secure input field is active
/// (both would make simulated input vanish silently).
pub fn preflight_result(accessibility_trusted: bool, secure_input: bool) -> (res: Result<(), String>)
    ensures
        !accessibility_trusted ==> (res matches Err(e) && e@ == NO_ACCESSIBILITY_MESSAGE@),
        accessibility_trusted && secure_input ==> (res matches Err(e) && e@ == SECURE_INPUT_MESSAGE@),
        accessibility_trusted && !secure_input ==> res is Ok,
{
    if !accessibility_trusted {
        Err(String::from_str(NO_ACCESSIBILITY_MESSAGE))
    } else if secure_input {
        Err(String::from_str(SECURE_INPUT_MESSAGE))
    } else {
        Ok(())
    }
}

/// The most UTF-16 units one typed keyboard event carries.
pub const TYPE_CHUNK_UNITS: usize = 20;

/// The UTF-16 encoding of `c` (`char::encode_utf16`): one unit below
/// `U+10000`, else a surrogate pair.
pub open spec fn utf16_of(c: char) -> Seq<u16> {
    let v = c as int;
    if v < 0x10000 {
        seq![v as u16]
    } else {
        seq![(0xD800 + (v - 0x10000) / 0x400) as u16, (0xDC00 + (v - 0x10000) % 0x400) as u16]
    }
}

/// The chunks `cs` is typed in, continuing a chunk that already holds `buf`:
/// each character's units join the current chunk unless that would take it
/// past [`TYPE_CHUNK_UNITS`], in which case the chunk is sent first. A
/// character's units are never split across chunks.
pub open spec fn pack(cs: Seq<char>, buf: Seq<u16>) -> Seq<Seq<u16>>
    decreases cs.len(),
{
    if cs.len() == 0 {
        if buf.len() > 0 { seq![buf] } else { Seq::empty() }
    } else {
        let u = utf16_of(cs[0]);
        if buf.len() + u.len() > TYPE_CHUNK_UNITS {
            seq![buf] + pack(cs.drop_first(), u)
        } else {
            pack(cs.drop_first(), buf + u)
        }
    }
}

/// The UTF-16 encoding of a text.
pub open spec fn utf16_text(cs: Seq<char>) -> Seq<u16> {
    cs.map_values(|c: char| utf16_of(c)).flatten()
}

proof fn lemma_pack(cs: Seq<char>, buf: Seq<u16>)
    requires
        buf.len() <= TYPE_CHUNK_UNITS,
    ensures
        pack(cs, buf).flatten() == buf + utf16_text(cs),
        forall|i: int| 0 <= i < pack(cs, buf).len() ==> 0 < (#[trigger] pack(cs, buf)[i]).len() <= TYPE_CHUNK_UNITS,
    decreases cs.len(),
{
    let chunks = pack(cs, buf);
    if cs.len() == 0 {
        assert(cs.map_values(|c: char| utf16_of(c)) =~= Seq::<Seq<u16>>::empty());
        if buf.len() > 0 {
            assert(chunks.drop_first() =~= Seq::<Seq<u16>>::empty());
            assert(chunks.flatten() =~= buf + utf16_text(cs));
        } else {
            assert(chunks.flatten() =~= buf + utf16_text(cs));
        }
    } else {
        let u = utf16_of(cs[0]);
        let rest = cs.drop_first();
        let m = cs.map_values(|c: char| utf16_of(c));
        assert(m.drop_first() =~= rest.map_values(|c: char| utf16_of(c)));
        assert(m.first() == u);
        assert(utf16_text(cs) == u + utf16_text(rest));
        if buf.len() + u.len() > TYPE_CHUNK_UNITS {
            lemma_pack(rest, u);
            let tail = pack(rest, u);
            assert(chunks == seq![buf] + tail);
            assert(chunks.first() == buf);
            assert(chunks.drop_first() =~= tail);
            assert(chunks.flatten() =~= buf + utf16_text(cs));
            assert forall|i: int| 0 <= i < chunks.len() implies 0 < (#[trigger] chunks[i]).len() <= TYPE_CHUNK_UNITS by {
                if i > 0 {
                    assert(chunks[i] == tail[i - 1]);
                }
            }
        } else {
            lemma_pack(rest, buf + u);
            assert(chunks.flatten() =~= buf + utf16_text(cs));
        }
    }
}

/// Typing a line neither loses nor splits anything: its chunks, in order,
/// concatenate to the line's UTF-16 encoding, and each chunk is non-empty
/// and holds at most [`TYPE_CHUNK_UNITS`] units.
pub proof fn lemma_line_chunks(line: Seq<char>)
    ensures
        pack(line, Seq::empty()).flatten() == utf16_text(line),
        forall|i: int| 0 <= i < pack(line, Seq::empty()).len()
            ==> 0 < (#[trigger] pack(line, Seq::empty())[i]).len() <= TYPE_CHUNK_UNITS,
{
    lemma_pack(line, Seq::empty());
    assert(Seq::<u16>::empty() + utf16_text(line) =~= utf16_text(line));
}

/// One keyboard event of the typing strategy: Return, or a chunk of text as
/// UTF-16 units.
#[derive(Debug, PartialEq, Eq)]
pub enum TypeEvent {
    Return,
    Units(Vec<u16>),
}

/// An event as a value: `None` for Return, the units of a chunk otherwise.
pub open spec fn event_units(e: TypeEvent) -> Option<Seq<u16>> {
    match e {
        TypeEvent::Return => None,
        TypeEvent::Units(v) => Some(v@),
    }
}

/// The events of a sequence of events, as values.
pub open spec fn events_view(es: Seq<TypeEvent>) -> Seq<Option<Seq<u16>>> {
    es.map_values(|e: TypeEvent| event_units(e))
}

/// Chunks as event values.
pub open spec fn as_events(chunks: Seq<Seq<u16>>) -> Seq<Option<Seq<u16>>> {
    chunks.map_values(|c: Seq<u16>| Some(c))
}

/// The chunks of a line, as event values.
pub open spec fn chunk_events(line: Seq<char>) -> Seq<Option<Seq<u16>>> {
    as_events(pack(line, Seq::empty()))
}

/// The events that type `lines`: the chunks of each line, with Return
/// between consecutive lines.
pub open spec fn typing_events(lines: Seq<Seq<char>>) -> Seq<Option<Seq<u16>>>
    decreases lines.len(),
{
    if lines.len() == 0 {
        Seq::empty()
    } else {
        let sep: Seq<Option<Seq<u16>>> = if lines.len() > 1 { seq![None] } else { Seq::empty() };
        typing_events(lines.drop_last()) + sep + chunk_events(lines.last())
    }
}

fn push_units(buf: &mut Vec<u16>, c: char)
    ensures
        final(buf)@ == old(buf)@ + utf16_of(c),
{
    let v = c as u32;
    if v < 0x10000 {
        buf.push(v as u16);
    } else {
        let w = v - 0x10000;
        buf.push((0xD800 + w / 0x400) as u16);
        buf.push((0xDC00 + w % 0x400) as u16);
    }
    proof {
        assert(buf@ =~= old(buf)@ + utf16_of(c));
    }
}

fn units_len(c: char) -> (n: usize)
    ensures
        n == utf16_of(c).len(),
        n <= 2,
{
    if (c as u32) < 0x10000 { 1 } else { 2 }
}

fn push_line_events(events: &mut Vec<TypeEvent>, line: &str)
    ensures
        events_view(final(events)@) == events_view(old(events)@) + chunk_events(line@),
{
    let cs = chars_of(line);
    let n = cs.len();
    let mut buf: Vec<u16> = Vec::new();
    let ghost start = events_view(events@);
    let ghost mut done: Seq<Seq<u16>> = Seq::empty();
    let mut i: usize = 0;
    proof {
        assert(cs@.subrange(0, n as int) =~= cs@);
        assert(events_view(events@) =~= start + as_events(done));
    }
    while i < n
        invariant
            n == cs@.len(),
            cs@ == line@,
            i <= n,
            buf@.len() <= TYPE_CHUNK_UNITS,
            done + pack(cs@.subrange(i as int, n as int), buf@) == pack(line@, Seq::empty()),
            events_view(events@) == start + as_events(done),
        decreases n - i,
    {
        let c = cs[i];
        let ghost rest = cs@.subrange(i as int, n as int);
        proof {
            assert(rest[0] == c);
            assert(rest.drop_first() =~= cs@.subrange(i + 1, n as int));
        }
        if buf.len() + units_len(c) > TYPE_CHUNK_UNITS {
            let ghost sent = buf@;
            let mut full: Vec<u16> = Vec::new();
            std::mem::swap(&mut full, &mut buf);
            let ghost ev_before = events@;
            events.push(TypeEvent::Units(full));
            proof {
                assert(events@ == ev_before.push(TypeEvent::Units(full)));
                assert(events_view(events@) =~= events_view(ev_before).push(Some(sent)));
                assert(as_events(done.push(sent)) =~= as_events(done).push(Some(sent)));
                assert(done.push(sent) + pack(cs@.subrange(i + 1, n as int), utf16_of(c))
                    =~= done + (seq![sent] + pack(cs@.subrange(i + 1, n as int), utf16_of(c))));
                done = done.push(sent);
                assert(events_view(events@) =~= start + as_events(done));
            }
        }
        push_units(&mut buf, c);
        i = i + 1;
    }
    if buf.len() > 0 {
        let ghost last = buf@;
        let ghost ev_before = events@;
        events.push(TypeEvent::Units(buf));
        proof {
            assert(events_view(events@) =~= events_view(ev_before).push(Some(last)));
            assert(as_events(done.push(last)) =~= as_events(done).push(Some(last)));
            assert(done + seq![last] == pack(line@, Seq::empty()));
            done = done.push(last);
            assert(events_view(events@) =~= start + as_events(done));
        }
    }
    proof {
        assert(done =~= pack(line@, Seq::empty()));
    }
}

/// The keyboard events that type `text` without touching the clipboard: its
/// lines (split at `\n`) as chunks of at most [`TYPE_CHUNK_UNITS`] UTF-16
/// units, never splitting a character, with Return between lines.
pub fn typing_plan(text: &str) -> (events: Vec<TypeEvent>)
    ensures
        events_view(events@) == typing_events(split_chars(text@, '\n')),
{
    let lines = split_on(text, '\n');
    let ghost ls = split_chars(text@, '\n');
    let mut events: Vec<TypeEvent> = Vec::new();
    let mut k: usize = 0;
    proof {
        assert(ls.subrange(0, 0) =~= Seq::<Seq<char>>::empty());
        assert(events_view(events@) =~= Seq::<Option<Seq<u16>>>::empty());
    }
    while k < lines.len()
        invariant
            k <= lines@.len(),
            lines@.len() == ls.len(),
            forall|j: int| 0 <= j < lines@.len() ==> #[trigger] lines@[j]@ == ls[j],
            events_view(events@) == typing_events(ls.subrange(0, k as int)),
        decreases lines@.len() - k,
    {
        let ghost before = events_view(events@);
        if k > 0 {
            events.push(TypeEvent::Return);
            proof {
                assert(events_view(events@) =~= before.push(None));
            }
        }
        let ghost mid = events_view(events@);
        push_line_events(&mut events, lines[k].as_str());
        proof {
            let pre = ls.subrange(0, k + 1);
            assert(pre.drop_last() =~= ls.subrange(0, k as int));
            assert(pre.last() == ls[k as int]);
            let sep: Seq<Option<Seq<u16>>> = if pre.len() > 1 { seq![None] } else { Seq::empty() };
            assert(mid =~= before + sep);
            assert(events_view(events@) =~= typing_events(pre));
        }
        k = k + 1;
    }
    proof {
        assert(ls.subrange(0, ls.len() as int) =~= ls);
    }
    events
}

} // verus!
