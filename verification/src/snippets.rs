//! Saved command snippets: validation, the row a create or an update writes,
//! and the decoding of a stored row. A snippet is scoped to at most one of a
//! host or a host group.
use vstd::prelude::*;
use crate::hosts::{text_or, updated_opt, updated_text, column_text};
use crate::json::{json_text_of_strings, parsed_tags, parse_tags_text, tags_to_json};
use crate::text::{clone_opt, concat2, is_blank, str_is_blank};

verus! {

/// Why a snippet command failed.
pub enum SnippetError {
    Database(String),
    Validation(String),
    NotFound(String),
}

impl SnippetError {
    /// The text the error displays as.
    pub open spec fn text(&self) -> Seq<char> {
        match self {
            SnippetError::Database(m) => "database error: "@ + m@,
            SnippetError::Validation(m) => "validation error: "@ + m@,
            SnippetError::NotFound(id) => "snippet not found: "@ + id@,
        }
    }

    /// The text the error displays as.
    pub fn message(&self) -> (r: String)
        ensures
            r@ == self.text(),
    {
        match self {
            SnippetError::Database(m) => concat2("database error: ", m.as_str()),
            SnippetError::Validation(m) => concat2("validation error: ", m.as_str()),
            SnippetError::NotFound(id) => concat2("snippet not found: ", id.as_str()),
        }
    }
}

/// A snippet as entered by the user.
pub struct SnippetInput {
    pub name: String,
    pub command: String,
    pub description: Option<String>,
    pub group: Option<String>,
    pub tags: Vec<String>,
    /// Host scope: the snippet belongs to one host.
    pub host_id: Option<String>,
    /// Host-group scope: the snippet applies to every host in the group.
    pub host_group: Option<String>,
}

/// The first rule a snippet input breaks, as its validation message.
pub open spec fn snippet_problem(input: SnippetInput) -> Option<Seq<char>> {
    if is_blank(input.name@) {
        Some("name must not be empty"@)
    } else if is_blank(input.command@) {
        Some("command must not be empty"@)
    } else if input.host_id is Some && input.host_group is Some {
        Some("a snippet can be scoped to either a host or a host group, not both"@)
    } else {
        None
    }
}

impl SnippetInput {
    /// Checks the input: name and command not blank, at most one scope.
    pub fn validate(&self) -> (r: Result<(), SnippetError>)
        ensures
            match snippet_problem(*self) {
                None => r is Ok,
                Some(m) => r matches Err(SnippetError::Validation(msg)) && msg@ == m,
            },
    {
        if str_is_blank(self.name.as_str()) {
            return Err(SnippetError::Validation(String::from_str("name must not be empty")));
        }
        if str_is_blank(self.command.as_str()) {
            return Err(SnippetError::Validation(String::from_str("command must not be empty")));
        }
        if self.host_id.is_some() && self.host_group.is_some() {
            return Err(
                SnippetError::Validation(
                    String::from_str(
                        "a snippet can be scoped to either a host or a host group, not both",
                    ),
                ),
            );
        }
        Ok(())
    }
}

/// A snippet as returned to the frontend.
pub struct Snippet {
    pub id: String,
    pub name: String,
    pub command: String,
    pub description: Option<String>,
    pub group: Option<String>,
    pub tags: Vec<String>,
    pub host_id: Option<String>,
    pub host_group: Option<String>,
    pub created_at: String,
    pub updated_at: String,
}

/// Changes to a snippet. `None` keeps a field; for the optional fields
/// `Some(None)` clears it.
pub struct SnippetUpdate {
    pub name: Option<String>,
    pub command: Option<String>,
    pub description: Option<Option<String>>,
    pub group: Option<Option<String>>,
    pub tags: Option<Vec<String>>,
    pub host_id: Option<Option<String>>,
    pub host_group: Option<Option<String>>,
}

/// The columns of a stored `snippet` row as far as they could be read.
pub struct SnippetColumns {
    pub id: Option<String>,
    pub name: Option<String>,
    pub command: Option<String>,
    pub description: Option<String>,
    pub group: Option<String>,
    pub tags: Option<String>,
    pub host_id: Option<String>,
    pub host_group: Option<String>,
    pub created_at: Option<String>,
    pub updated_at: Option<String>,
}

/// The values a create or an update writes into a `snippet` row.
pub struct SnippetRecord {
    pub name: String,
    pub command: String,
    pub description: Option<String>,
    pub group: Option<String>,
    pub tags_json: String,
    pub host_id: Option<String>,
    pub host_group: Option<String>,
}

/// Decodes a stored snippet row: unreadable text columns become empty and
/// unreadable tags the empty list.
pub fn snippet_from_columns(c: &SnippetColumns) -> (s: Snippet)
    ensures
        s.id@ == text_or(c.id, ""@),
        s.name@ == text_or(c.name, ""@),
        s.command@ == text_or(c.command, ""@),
        s.description == c.description,
        s.group == c.group,
        s.tags.deep_view() == parsed_tags(text_or(c.tags, "[]"@)),
        s.host_id == c.host_id,
        s.host_group == c.host_group,
        s.created_at@ == text_or(c.created_at, ""@),
        s.updated_at@ == text_or(c.updated_at, ""@),
{
    let tags_text = column_text(&c.tags, "[]");
    Snippet {
        id: column_text(&c.id, ""),
        name: column_text(&c.name, ""),
        command: column_text(&c.command, ""),
        description: clone_opt(&c.description),
        group: clone_opt(&c.group),
        tags: parse_tags_text(tags_text.as_str()),
        host_id: clone_opt(&c.host_id),
        host_group: clone_opt(&c.host_group),
        created_at: column_text(&c.created_at, ""),
        updated_at: column_text(&c.updated_at, ""),
    }
}

/// The row a create writes for a valid input, or the validation error.
pub fn snippet_record_for_insert(input: &SnippetInput) -> (r: Result<SnippetRecord, SnippetError>)
    ensures
        match snippet_problem(*input) {
            Some(m) => r matches Err(SnippetError::Validation(msg)) && msg@ == m,
            None => r matches Ok(rec) && {
                &&& rec.name == input.name
                &&& rec.command == input.command
                &&& rec.description == input.description
                &&& rec.group == input.group
                &&& rec.tags_json@ == json_text_of_strings(input.tags.deep_view())
                &&& parsed_tags(rec.tags_json@) == input.tags.deep_view()
                &&& rec.host_id == input.host_id
                &&& rec.host_group == input.host_group
            },
        },
{
    match input.validate() {
        Err(e) => Err(e),
        Ok(()) => Ok(
            SnippetRecord {
                name: input.name.clone(),
                command: input.command.clone(),
                description: clone_opt(&input.description),
                group: clone_opt(&input.group),
                tags_json: tags_to_json(&input.tags),
                host_id: clone_opt(&input.host_id),
                host_group: clone_opt(&input.host_group),
            },
        ),
    }
}

/// An update names a new value (not a clear) for an optional field.
pub open spec fn sets_value(u: Option<Option<String>>) -> bool {
    u matches Some(Some(_))
}

fn pick_text(u: Option<String>, current: String) -> (r: String)
    ensures
        r@ == updated_text(u, current@),
{
    match u {
        Some(s) => s,
        None => current,
    }
}

fn pick_opt(u: Option<Option<String>>, current: Option<String>) -> (r: Option<String>)
    ensures
        r == updated_opt(u, current),
{
    match u {
        Some(v) => v,
        None => current,
    }
}

/// Applies an update to a stored snippet. Fields the update leaves out keep
/// their stored values; name and command must stay non-blank. Naming a host
/// clears the host group, and naming a host group (without a host) clears
/// the host, so a snippet never gains a second scope.
pub fn merge_snippet_update(current: &SnippetColumns, update: SnippetUpdate) -> (r: Result<
    SnippetRecord,
    SnippetError,
>)
    ensures
        ({
            let name = updated_text(update.name, text_or(current.name, ""@));
            let command = updated_text(update.command, text_or(current.command, ""@));
            let host_id = updated_opt(update.host_id, current.host_id);
            let host_group = updated_opt(update.host_group, current.host_group);
            if is_blank(name) {
                r matches Err(SnippetError::Validation(msg)) && msg@ == "name must not be empty"@
            } else if is_blank(command) {
                r matches Err(SnippetError::Validation(msg)) && msg@
                    == "command must not be empty"@
            } else {
                r matches Ok(rec) && {
                    &&& rec.name@ == name
                    &&& rec.command@ == command
                    &&& rec.description == updated_opt(update.description, current.description)
                    &&& rec.group == updated_opt(update.group, current.group)
                    &&& rec.tags_json@ == (match update.tags {
                        Some(t) => json_text_of_strings(t.deep_view()),
                        None => text_or(current.tags, "[]"@),
                    })
                    &&& update.tags matches Some(t) ==> parsed_tags(rec.tags_json@) == t.deep_view()
                    &&& rec.host_id == (if !sets_value(update.host_id) && sets_value(
                        update.host_group,
                    ) {
                        None
                    } else {
                        host_id
                    })
                    &&& rec.host_group == (if sets_value(update.host_id) {
                        None
                    } else {
                        host_group
                    })
                }
            }
        }),
        r matches Ok(rec) ==> {
            &&& sets_value(update.host_id) ==> rec.host_group is None
            &&& sets_value(update.host_group) && !sets_value(update.host_id) ==> rec.host_id is None
            &&& !(current.host_id is Some && current.host_group is Some) ==> !(rec.host_id is Some
                && rec.host_group is Some)
        },
{
    let new_name = pick_text(update.name, column_text(&current.name, ""));
    let new_command = pick_text(update.command, column_text(&current.command, ""));
    let new_description = pick_opt(update.description, clone_opt(&current.description));
    let new_group = pick_opt(update.group, clone_opt(&current.group));
    let new_tags_json = match update.tags {
        Some(t) => tags_to_json(&t),
        None => column_text(&current.tags, "[]"),
    };
    let host_id_set = matches!(update.host_id, Some(Some(_)));
    let host_group_set = matches!(update.host_group, Some(Some(_)));
    let mut new_host_id = pick_opt(update.host_id, clone_opt(&current.host_id));
    let mut new_host_group = pick_opt(update.host_group, clone_opt(&current.host_group));
    if str_is_blank(new_name.as_str()) {
        return Err(SnippetError::Validation(String::from_str("name must not be empty")));
    }
    if str_is_blank(new_command.as_str()) {
        return Err(SnippetError::Validation(String::from_str("command must not be empty")));
    }
    if host_id_set {
        new_host_group = None;
    } else if host_group_set {
        new_host_id = None;
    }
    Ok(
        SnippetRecord {
            name: new_name,
            command: new_command,
            description: new_description,
            group: new_group,
            tags_json: new_tags_json,
            host_id: new_host_id,
            host_group: new_host_group,
        },
    )
}

} // verus!
