//! The names the history and notebook screens use for entry sources and
//! container kinds.
use vstd::prelude::*;

use crate::text::str_eq;

verus! {

/// Where a history entry came from.
#[derive(Debug, Clone, Copy, PartialEq, Eq, Structural)]
pub enum SourceType {
    Dictation,
    Agent,
    Note,
    Meeting,
    Listen,
    Transform,
    Workflow,
}

/// The source type a filter string names exactly, if any.
pub open spec fn source_type_named(s: Seq<char>) -> Option<SourceType> {
    if s == "dictation"@ {
        Some(SourceType::Dictation)
    } else if s == "agent"@ {
        Some(SourceType::Agent)
    } else if s == "note"@ {
        Some(SourceType::Note)
    } else if s == "meeting"@ {
        Some(SourceType::Meeting)
    } else if s == "listen"@ {
        Some(SourceType::Listen)
    } else if s == "transform"@ {
        Some(SourceType::Transform)
    } else if s == "workflow"@ {
        Some(SourceType::Workflow)
    } else {
        None
    }
}

/// The name a source type is stored and filtered under.
pub open spec fn source_type_name(t: SourceType) -> Seq<char> {
    match t {
        SourceType::Dictation => "dictation"@,
        SourceType::Agent => "agent"@,
        SourceType::Note => "note"@,
        SourceType::Meeting => "meeting"@,
        SourceType::Listen => "listen"@,
        SourceType::Transform => "transform"@,
        SourceType::Workflow => "workflow"@,
    }
}

/// Parsing a filter undoes naming a source type: each type's name parses
/// back to that type, and a filter that parses to a type is that type's
/// name, so distinct names give distinct types and no name is lost.
pub proof fn lemma_source_type_round_trip(t: SourceType, s: Seq<char>)
    ensures
        source_type_named(source_type_name(t)) == Some(t),
        source_type_named(s) == Some(t) ==> s == source_type_name(t),
{
    reveal_strlit("dictation");
    reveal_strlit("agent");
    reveal_strlit("note");
    reveal_strlit("meeting");
    reveal_strlit("listen");
    reveal_strlit("transform");
    reveal_strlit("workflow");
    assert("dictation"@[0] == 'd' && "agent"@[0] == 'a' && "note"@[0] == 'n' && "meeting"@[0] == 'm');
    assert("listen"@[0] == 'l' && "transform"@[0] == 't' && "workflow"@[0] == 'w');
}

/// Parse a source-type filter; an unknown name filters nothing (`None`).
pub fn parse_source_type(s: &str) -> (t: Option<SourceType>)
    ensures
        t == source_type_named(s@),
        t matches Some(k) ==> s@ == source_type_name(k),
{
    if str_eq(s, "dictation") {
        Some(SourceType::Dictation)
    } else if str_eq(s, "agent") {
        Some(SourceType::Agent)
    } else if str_eq(s, "note") {
        Some(SourceType::Note)
    } else if str_eq(s, "meeting") {
        Some(SourceType::Meeting)
    } else if str_eq(s, "listen") {
        Some(SourceType::Listen)
    } else if str_eq(s, "transform") {
        Some(SourceType::Transform)
    } else if str_eq(s, "workflow") {
        Some(SourceType::Workflow)
    } else {
        None
    }
}

/// The kind of a container of entries.
#[derive(Debug, Clone, Copy, PartialEq, Eq, Structural)]
pub enum ContainerType {
    Notebook,
    Conversation,
    Section,
    MeetingSession,
    Journal,
    Research,
}

/// The container kind a requested name means: the named kind, and a
/// notebook for a missing or unknown name.
pub open spec fn container_type_named(name: Option<Seq<char>>) -> ContainerType {
    match name {
        Some(n) => if n == "conversation"@ {
            ContainerType::Conversation
        } else if n == "section"@ {
            ContainerType::Section
        } else if n == "meeting_session"@ {
            ContainerType::MeetingSession
        } else if n == "journal"@ {
            ContainerType::Journal
        } else if n == "research"@ {
            ContainerType::Research
        } else {
            ContainerType::Notebook
        },
        None => ContainerType::Notebook,
    }
}

/// The name a container kind is requested and stored under.
pub open spec fn container_type_name(k: ContainerType) -> Seq<char> {
    match k {
        ContainerType::Notebook => "notebook"@,
        ContainerType::Conversation => "conversation"@,
        ContainerType::Section => "section"@,
        ContainerType::MeetingSession => "meeting_session"@,
        ContainerType::Journal => "journal"@,
        ContainerType::Research => "research"@,
    }
}

/// Requesting a kind by its name creates that kind; any kind but a notebook
/// comes only from its own name (a notebook is also what a missing or
/// unknown name gives).
pub proof fn lemma_container_type_round_trip(k: ContainerType, name: Option<Seq<char>>)
    ensures
        container_type_named(Some(container_type_name(k))) == k,
        container_type_named(name) == k && k != ContainerType::Notebook
            ==> name == Some(container_type_name(k)),
{
    reveal_strlit("notebook");
    reveal_strlit("conversation");
    reveal_strlit("section");
    reveal_strlit("meeting_session");
    reveal_strlit("journal");
    reveal_strlit("research");
    assert("notebook"@[0] == 'n' && "conversation"@[0] == 'c' && "section"@[0] == 's');
    assert("meeting_session"@[0] == 'm' && "journal"@[0] == 'j' && "research"@[0] == 'r');
}

/// The kind of a new container (see [`container_type_named`]).
pub fn container_type(name: Option<&str>) -> (t: ContainerType)
    ensures
        t == container_type_named(
            match name {
                Some(n) => Some(n@),
                None => None,
            },
        ),
        t != ContainerType::Notebook ==> (name matches Some(n) && n@ == container_type_name(t)),
{
    match name {
        Some(n) => if str_eq(n, "conversation") {
            ContainerType::Conversation
        } else if str_eq(n, "section") {
            ContainerType::Section
        } else if str_eq(n, "meeting_session") {
            ContainerType::MeetingSession
        } else if str_eq(n, "journal") {
            ContainerType::Journal
        } else if str_eq(n, "research") {
            ContainerType::Research
        } else {
            ContainerType::Notebook
        },
        None => ContainerType::Notebook,
    }
}

/// The history entry a result panel saves to a notebook: only one that was
/// recorded (a positive id) can be.
pub fn saved_entry_id(entry_id: i64) -> (res: Result<i64, String>)
    ensures
        entry_id > 0 ==> res == Ok::<i64, String>(entry_id),
        entry_id <= 0 ==> (res matches Err(e) && e@ == "entry was not saved to history"@),
{
    if entry_id <= 0 {
        Err(String::from_str("entry was not saved to history"))
    } else {
        Ok(entry_id)
    }
}

} // verus!
