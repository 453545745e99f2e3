//! The opening of a dialog panel: the text it accepts, which text seeds its
//! first user turn, the name it is shown under, its title, and the follow-up
//! session it arms.
use vstd::prelude::*;

use crate::text::{trim, trim_seq};
use crate::workflow::Data;

verus! {

/// What the history recorder stored about a finished run: the run's
/// source text and, in its metadata, the workflow's id and name when present.
#[derive(Debug, Clone)]
pub struct RecordedRun {
    pub raw_text: String,
    pub workflow_id: Option<String>,
    pub workflow_name: Option<String>,
}

/// How a dialog opens: the text of its first user turn, the id of the
/// workflow that ran (to localize its name), and the name to show otherwise.
#[derive(Debug, Clone, PartialEq, Eq)]
pub struct DialogSeed {
    pub user_text: String,
    pub workflow_id: Option<String>,
    pub stored_name: String,
}

/// The name a dialog is shown under when nothing better is known.
pub const DEFAULT_DIALOG_NAME: &'static str = "Dialog";

/// The seed of a dialog opened on a run whose history entry id is `entry_id`
/// (0 when the recorder stored none), with `recorded` what looking that entry
/// up found: with a valid id and a found entry, its source text, workflow id
/// and workflow name (`Dialog` when it has none); otherwise the delivered
/// text itself, no id, and `Dialog`.
pub fn dialog_seed(entry_id: i64, recorded: Option<RecordedRun>, final_text: &str) -> (seed: DialogSeed)
    ensures
        match recorded {
            Some(r) => if entry_id > 0 {
                &&& seed.user_text@ == r.raw_text@
                &&& seed.workflow_id == r.workflow_id
                &&& seed.stored_name@ == match r.workflow_name {
                    Some(n) => n@,
                    None => DEFAULT_DIALOG_NAME@,
                }
            } else {
                seed.user_text@ == final_text@ && seed.workflow_id is None && seed.stored_name@ == DEFAULT_DIALOG_NAME@
            },
            None => seed.user_text@ == final_text@ && seed.workflow_id is None && seed.stored_name@ == DEFAULT_DIALOG_NAME@,
        },
{
    match recorded {
        Some(r) => if entry_id > 0 {
            let stored_name = match r.workflow_name {
                Some(n) => n,
                None => String::from_str(DEFAULT_DIALOG_NAME),
            };
            DialogSeed { user_text: r.raw_text, workflow_id: r.workflow_id, stored_name }
        } else {
            DialogSeed {
                user_text: String::from_str(final_text),
                workflow_id: None,
                stored_name: String::from_str(DEFAULT_DIALOG_NAME),
            }
        },
        None => DialogSeed {
            user_text: String::from_str(final_text),
            workflow_id: None,
            stored_name: String::from_str(DEFAULT_DIALOG_NAME),
        },
    }
}

/// The title of a dialog's conversation: the workflow's name and the time
/// it opened, `{name} · {time}`.
pub fn dialog_title(workflow_name: &str, now: &str) -> (title: String)
    ensures
        title@ == workflow_name@ + " · "@ + now@,
{
    let mut t = String::from_str(workflow_name);
    t.append(" · ");
    t.append(now);
    t
}

/// The text a dialog opens on: the run's result, which must be text.
pub fn dialog_input(result: &Data) -> (text: Result<&str, String>)
    ensures
        match result {
            Data::Text(t) => text matches Ok(s) && s@ == t@,
            Data::Audio(_) => text matches Err(e) && e@ == "dialog output expected text, got audio"@,
        },
{
    match result {
        Data::Text(t) => Ok(t.as_str()),
        Data::Audio(_) => Err(String::from_str("dialog output expected text, got audio")),
    }
}

/// The name a dialog is shown under: the localized display name of its
/// workflow when the workflow is known and has one (`builtin_name`), else the
/// name stored with the run.
pub open spec fn dialog_name(seed: DialogSeed, builtin_name: Option<String>) -> Seq<char> {
    match seed.workflow_id {
        Some(_) => match builtin_name {
            Some(n) => n@,
            None => seed.stored_name@,
        },
        None => seed.stored_name@,
    }
}

/// A newly opened dialog: the title of its conversation, its two opening
/// turns (the user's, then the assistant's) and the live follow-up session
/// they seed, which asks `model_profile` and renders Markdown when `markdown`.
#[derive(Debug, Clone, PartialEq, Eq)]
pub struct DialogOpening {
    pub title: String,
    pub user_text: String,
    pub assistant_text: String,
    pub model_profile: String,
    pub markdown: bool,
}

/// The dialog opened at `now` on a run that delivered `final_text`, seeded
/// by `seed` (see [`dialog_seed`]): titled `{name} · {now}` (see
/// [`dialog_name`]), opening with the seed's user text and the delivered
/// text, and continued with `model_profile`.
pub fn dialog_opening(
    seed: DialogSeed,
    builtin_name: Option<String>,
    now: &str,
    final_text: &str,
    model_profile: String,
    markdown: bool,
) -> (o: DialogOpening)
    ensures
        o.title@ == dialog_name(seed, builtin_name) + " · "@ + now@,
        o.user_text == seed.user_text,
        o.assistant_text@ == final_text@,
        o.model_profile == model_profile,
        o.markdown == markdown,
{
    let name = match seed.workflow_id {
        Some(_) => match builtin_name {
            Some(n) => n,
            None => seed.stored_name,
        },
        None => seed.stored_name,
    };
    DialogOpening {
        title: dialog_title(name.as_str(), now),
        user_text: seed.user_text,
        assistant_text: String::from_str(final_text),
        model_profile,
        markdown,
    }
}

/// The text of a follow-up turn typed into the dialog: trimmed, and `None`
/// (nothing is sent) when only whitespace was typed.
pub fn dialog_turn_text(text: &str) -> (turn: Option<String>)
    ensures
        match turn {
            Some(t) => t@ == trim_seq(text@) && t@.len() > 0,
            None => trim_seq(text@).len() == 0,
        },
{
    let t = trim(text);
    if t.as_str().is_empty() { None } else { Some(t) }
}

/// The conversation a dialog is saved under: only a persisted one (a
/// positive container id) can be.
pub fn dialog_notebook(container_id: i64) -> (res: Result<i64, String>)
    ensures
        container_id > 0 ==> res == Ok::<i64, String>(container_id),
        container_id <= 0 ==> (res matches Err(e) && e@ == "dialog was not persisted (no container id)"@),
{
    if container_id <= 0 {
        Err(String::from_str("dialog was not persisted (no container id)"))
    } else {
        Ok(container_id)
    }
}

} // verus!
