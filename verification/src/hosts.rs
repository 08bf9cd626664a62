//! Saved hosts: input validation, the row that a create or an update writes,
//! the decoding of a stored row, and the bookkeeping of an import.
use vstd::prelude::*;
use crate::json::{json_text_of_strings, parsed_tags, parse_tags_text, tags_to_json};
use crate::text::{clone_opt, clone_strings, concat2, concat3, is_blank, str_eq, str_is_blank};

verus! {

/// Why a host command failed.
pub enum HostError {
    Database(String),
    Validation(String),
    NotFound(String),
}

impl HostError {
    /// The text the error displays as.
    pub open spec fn text(&self) -> Seq<char> {
        match self {
            HostError::Database(m) => "database error: "@ + m@,
            HostError::Validation(m) => "validation error: "@ + m@,
            HostError::NotFound(id) => "host not found: "@ + id@,
        }
    }

    /// The text the error displays as.
    pub fn message(&self) -> (r: String)
        ensures
            r@ == self.text(),
    {
        match self {
            HostError::Database(m) => concat2("database error: ", m.as_str()),
            HostError::Validation(m) => concat2("validation error: ", m.as_str()),
            HostError::NotFound(id) => concat2("host not found: ", id.as_str()),
        }
    }
}

/// Port used when none is given.
pub fn default_port() -> (r: u16)
    ensures
        r == 22,
{
    22
}

/// Protocol used when none is given.
pub fn default_protocol() -> (r: String)
    ensures
        r@ == "ssh"@,
{
    String::from_str("ssh")
}

/// Authentication method used when none is given.
pub fn default_auth_method() -> (r: String)
    ensures
        r@ == "password"@,
{
    String::from_str("password")
}

/// A host as entered by the user.
pub struct HostInput {
    pub name: String,
    pub host: String,
    pub port: u16,
    pub username: String,
    pub protocol: String,
    pub group: Option<String>,
    pub auth_method: String,
    /// Credential id of the SSH key, required when `auth_method` is `key`.
    pub key_id: Option<String>,
    /// Credential id of the password.
    pub password_id: Option<String>,
    pub tags: Vec<String>,
}

/// A credential reference that is absent or empty.
pub open spec fn ref_missing(r: Option<String>) -> bool {
    match r {
        None => true,
        Some(s) => s@.len() == 0,
    }
}

/// An authentication method the hosts table accepts.
pub open spec fn known_auth_method(a: Seq<char>) -> bool {
    a == "none"@ || a == "password"@ || a == "key"@
}

/// The first rule a host input breaks, as its validation message.
pub open spec fn input_problem(input: HostInput) -> Option<Seq<char>> {
    if is_blank(input.name@) {
        Some("name must not be empty"@)
    } else if is_blank(input.host@) {
        Some("host must not be empty"@)
    } else if is_blank(input.username@) {
        Some("username must not be empty"@)
    } else if input.protocol@ != "ssh"@ {
        Some("unsupported protocol: "@ + input.protocol@ + " (only ssh is supported in Phase 1)"@)
    } else if !known_auth_method(input.auth_method@) {
        Some(
            "invalid auth method: "@ + input.auth_method@
                + " (expected 'none', 'password' or 'key')"@,
        )
    } else if input.auth_method@ == "key"@ && ref_missing(input.key_id) {
        Some("key_id is required when auth_method is 'key'"@)
    } else {
        None
    }
}

/// `o` carries a validation error with message `m`.
pub open spec fn is_validation(o: Result<(), HostError>, m: Seq<char>) -> bool {
    o matches Err(HostError::Validation(msg)) && msg@ == m
}

impl HostInput {
    /// Checks the input: name, host and username not blank, protocol `ssh`,
    /// a known authentication method, and a key reference for key
    /// authentication.
    pub fn validate(&self) -> (r: Result<(), HostError>)
        ensures
            match input_problem(*self) {
                None => r is Ok,
                Some(m) => is_validation(r, m),
            },
    {
        if str_is_blank(self.name.as_str()) {
            return Err(HostError::Validation(String::from_str("name must not be empty")));
        }
        if str_is_blank(self.host.as_str()) {
            return Err(HostError::Validation(String::from_str("host must not be empty")));
        }
        if str_is_blank(self.username.as_str()) {
            return Err(HostError::Validation(String::from_str("username must not be empty")));
        }
        if !str_eq(self.protocol.as_str(), "ssh") {
            return Err(
                HostError::Validation(
                    concat3(
                        "unsupported protocol: ",
                        self.protocol.as_str(),
                        " (only ssh is supported in Phase 1)",
                    ),
                ),
            );
        }
        let a = self.auth_method.as_str();
        if !(str_eq(a, "none") || str_eq(a, "password") || str_eq(a, "key")) {
            return Err(
                HostError::Validation(
                    concat3("invalid auth method: ", a, " (expected 'none', 'password' or 'key')"),
                ),
            );
        }
        if str_eq(a, "key") && key_ref_missing(&self.key_id) {
            return Err(
                HostError::Validation(
                    String::from_str("key_id is required when auth_method is 'key'"),
                ),
            );
        }
        Ok(())
    }
}

/// The reference is absent or empty.
pub fn key_ref_missing(r: &Option<String>) -> (b: bool)
    ensures
        b == ref_missing(*r),
{
    match r {
        None => true,
        Some(s) => s.as_str().is_empty(),
    }
}

/// A host as returned to the frontend.
pub struct Host {
    pub id: String,
    pub name: String,
    pub host: String,
    pub port: u16,
    pub username: String,
    pub protocol: String,
    pub group: Option<String>,
    pub auth_method: String,
    pub key_id: Option<String>,
    pub password_id: Option<String>,
    pub tags: Vec<String>,
    pub has_password: bool,
    pub created_at: String,
    pub updated_at: String,
}

/// Changes to a host. `None` keeps a field; for the optional fields
/// `Some(None)` clears it.
pub struct HostUpdate {
    pub name: Option<String>,
    pub host: Option<String>,
    pub port: Option<u16>,
    pub username: Option<String>,
    pub protocol: Option<String>,
    pub group: Option<Option<String>>,
    pub auth_method: Option<String>,
    pub key_id: Option<Option<String>>,
    pub password_id: Option<Option<String>>,
    pub tags: Option<Vec<String>>,
}

/// The columns of a stored `host` row as far as they could be read (`None`
/// for a column that is missing, NULL or of another type).
pub struct HostColumns {
    pub id: Option<String>,
    pub name: Option<String>,
    pub host: Option<String>,
    pub port: Option<i64>,
    pub username: Option<String>,
    pub protocol: Option<String>,
    pub group: Option<String>,
    pub auth_method: Option<String>,
    pub key_id: Option<String>,
    pub password_id: Option<String>,
    pub tags: Option<String>,
    pub created_at: Option<String>,
    pub updated_at: Option<String>,
}

/// The values that a create or an update writes into a `host` row.
pub struct HostRecord {
    pub name: String,
    pub host: String,
    pub port: u16,
    pub username: String,
    pub protocol: String,
    pub group: Option<String>,
    pub auth_method: String,
    pub key_id: Option<String>,
    pub password_id: Option<String>,
    pub tags_json: String,
}

/// A text column, or `default` when it could not be read.
pub open spec fn text_or(c: Option<String>, default: Seq<char>) -> Seq<char> {
    match c {
        Some(s) => s@,
        None => default,
    }
}

/// The stored port as a `u16`: 22 when missing or out of range.
pub open spec fn stored_port(p: Option<i64>) -> u16 {
    let v = match p {
        Some(v) => v,
        None => 22,
    };
    if 0 <= v <= 65535 {
        v as u16
    } else {
        22
    }
}

/// Reads a text column, defaulting to `default`.
pub fn column_text(c: &Option<String>, default: &str) -> (r: String)
    ensures
        r@ == text_or(*c, default@),
{
    match c {
        Some(s) => s.clone(),
        None => String::from_str(default),
    }
}

/// The stored port as a `u16`.
pub fn column_port(p: Option<i64>) -> (r: u16)
    ensures
        r == stored_port(p),
{
    let v = match p {
        Some(v) => v,
        None => 22,
    };
    if 0 <= v && v <= 65535 {
        v as u16
    } else {
        22
    }
}

/// Decodes a stored host row: unreadable text columns become empty (protocol
/// `ssh`, auth method `password`), an unreadable or out-of-range port 22,
/// unreadable tags the empty list; `has_password` tells whether a password
/// credential is referenced.
pub fn host_from_columns(c: &HostColumns) -> (h: Host)
    ensures
        h.id@ == text_or(c.id, ""@),
        h.name@ == text_or(c.name, ""@),
        h.host@ == text_or(c.host, ""@),
        h.port == stored_port(c.port),
        h.username@ == text_or(c.username, ""@),
        h.protocol@ == text_or(c.protocol, "ssh"@),
        h.group == c.group,
        h.auth_method@ == text_or(c.auth_method, "password"@),
        h.key_id == c.key_id,
        h.password_id == c.password_id,
        h.tags.deep_view() == parsed_tags(text_or(c.tags, "[]"@)),
        h.has_password == c.password_id is Some,
        h.created_at@ == text_or(c.created_at, ""@),
        h.updated_at@ == text_or(c.updated_at, ""@),
{
    let tags_text = column_text(&c.tags, "[]");
    Host {
        id: column_text(&c.id, ""),
        name: column_text(&c.name, ""),
        host: column_text(&c.host, ""),
        port: column_port(c.port),
        username: column_text(&c.username, ""),
        protocol: column_text(&c.protocol, "ssh"),
        group: clone_opt(&c.group),
        auth_method: column_text(&c.auth_method, "password"),
        key_id: clone_opt(&c.key_id),
        password_id: clone_opt(&c.password_id),
        tags: parse_tags_text(tags_text.as_str()),
        has_password: c.password_id.is_some(),
        created_at: column_text(&c.created_at, ""),
        updated_at: column_text(&c.updated_at, ""),
    }
}

/// The row a create writes for a valid input, or the validation error.
pub fn host_record_for_insert(input: &HostInput) -> (r: Result<HostRecord, HostError>)
    ensures
        match input_problem(*input) {
            Some(m) => r matches Err(HostError::Validation(msg)) && msg@ == m,
            None => r matches Ok(rec) && {
                &&& rec.name == input.name
                &&& rec.host == input.host
                &&& rec.port == input.port
                &&& rec.username == input.username
                &&& rec.protocol == input.protocol
                &&& rec.group == input.group
                &&& rec.auth_method == input.auth_method
                &&& rec.key_id == input.key_id
                &&& rec.password_id == input.password_id
                &&& rec.tags_json@ == json_text_of_strings(input.tags.deep_view())
                &&& parsed_tags(rec.tags_json@) == input.tags.deep_view()
            },
        },
{
    match input.validate() {
        Err(e) => Err(e),
        Ok(()) => Ok(
            HostRecord {
                name: input.name.clone(),
                host: input.host.clone(),
                port: input.port,
                username: input.username.clone(),
                protocol: input.protocol.clone(),
                group: clone_opt(&input.group),
                auth_method: input.auth_method.clone(),
                key_id: clone_opt(&input.key_id),
                password_id: clone_opt(&input.password_id),
                tags_json: tags_to_json(&input.tags),
            },
        ),
    }
}

/// The new value of a kept-or-replaced text field.
pub open spec fn updated_text(u: Option<String>, current: Seq<char>) -> Seq<char> {
    match u {
        Some(s) => s@,
        None => current,
    }
}

/// The new value of a kept, replaced or cleared optional field.
pub open spec fn updated_opt(u: Option<Option<String>>, current: Option<String>) -> Option<String> {
    match u {
        Some(v) => v,
        None => current,
    }
}

/// The first rule the merged host breaks, as its validation message.
pub open spec fn update_problem(
    name: Seq<char>,
    host: Seq<char>,
    username: Seq<char>,
    auth: Seq<char>,
    key: Option<String>,
) -> Option<Seq<char>> {
    if is_blank(name) {
        Some("name must not be empty"@)
    } else if is_blank(host) {
        Some("host must not be empty"@)
    } else if is_blank(username) {
        Some("username must not be empty"@)
    } else if auth == "key"@ && ref_missing(key) {
        Some("key_id is required when auth_method is 'key'"@)
    } else {
        None
    }
}

fn pick_text(u: Option<String>, current: String) -> (r: String)
    ensures
        r@ == updated_text(u, current@),
{
    match u {
        Some(s) => s,
        None => current,
    }
}

fn pick_opt(u: Option<Option<String>>, current: Option<String>) -> (r: Option<String>)
    ensures
        r == updated_opt(u, current),
{
    match u {
        Some(v) => v,
        None => current,
    }
}

/// Applies an update to a stored host: every field the update leaves out
/// keeps its stored value (read with the defaults of `host_from_columns`),
/// new tags are stored as JSON. The merged host must keep a name, a host and
/// a username that are not blank, and a key reference for key
/// authentication; protocol and authentication method are not checked.
pub fn merge_host_update(current: &HostColumns, update: HostUpdate) -> (r: Result<
    HostRecord,
    HostError,
>)
    ensures
        ({
            let name = updated_text(update.name, text_or(current.name, ""@));
            let host = updated_text(update.host, text_or(current.host, ""@));
            let username = updated_text(update.username, text_or(current.username, ""@));
            let auth = updated_text(update.auth_method, text_or(current.auth_method, "password"@));
            let key = updated_opt(update.key_id, current.key_id);
            match update_problem(name, host, username, auth, key) {
                Some(m) => r matches Err(HostError::Validation(msg)) && msg@ == m,
                None => r matches Ok(rec) && {
                    &&& rec.name@ == name
                    &&& rec.host@ == host
                    &&& rec.port == (match update.port {
                        Some(p) => p,
                        None => stored_port(current.port),
                    })
                    &&& rec.username@ == username
                    &&& rec.protocol@ == updated_text(
                        update.protocol,
                        text_or(current.protocol, "ssh"@),
                    )
                    &&& rec.group == updated_opt(update.group, current.group)
                    &&& rec.auth_method@ == auth
                    &&& rec.key_id == key
                    &&& rec.password_id == updated_opt(update.password_id, current.password_id)
                    &&& rec.tags_json@ == (match update.tags {
                        Some(t) => json_text_of_strings(t.deep_view()),
                        None => text_or(current.tags, "[]"@),
                    })
                    &&& update.tags matches Some(t) ==> parsed_tags(rec.tags_json@) == t.deep_view()
                },
            }
        }),
{
    let new_name = pick_text(update.name, column_text(&current.name, ""));
    let new_host = pick_text(update.host, column_text(&current.host, ""));
    let new_port = match update.port {
        Some(p) => p,
        None => column_port(current.port),
    };
    let new_username = pick_text(update.username, column_text(&current.username, ""));
    let new_protocol = pick_text(update.protocol, column_text(&current.protocol, "ssh"));
    let new_group = pick_opt(update.group, clone_opt(&current.group));
    let new_auth = pick_text(update.auth_method, column_text(&current.auth_method, "password"));
    let new_key = pick_opt(update.key_id, clone_opt(&current.key_id));
    let new_password = pick_opt(update.password_id, clone_opt(&current.password_id));
    let new_tags_json = match update.tags {
        Some(t) => tags_to_json(&t),
        None => column_text(&current.tags, "[]"),
    };
    if str_is_blank(new_name.as_str()) {
        return Err(HostError::Validation(String::from_str("name must not be empty")));
    }
    if str_is_blank(new_host.as_str()) {
        return Err(HostError::Validation(String::from_str("host must not be empty")));
    }
    if str_is_blank(new_username.as_str()) {
        return Err(HostError::Validation(String::from_str("username must not be empty")));
    }
    if str_eq(new_auth.as_str(), "key") && key_ref_missing(&new_key) {
        return Err(
            HostError::Validation(String::from_str("key_id is required when auth_method is 'key'")),
        );
    }
    Ok(
        HostRecord {
            name: new_name,
            host: new_host,
            port: new_port,
            username: new_username,
            protocol: new_protocol,
            group: new_group,
            auth_method: new_auth,
            key_id: new_key,
            password_id: new_password,
            tags_json: new_tags_json,
        },
    )
}

// ── Import ──────────────────────────────────────────────────────────────────

/// A host as read from an import file: new exports carry credential ids,
/// legacy exports a key name.
pub struct ImportedHost {
    pub name: String,
    pub host: String,
    pub port: u16,
    pub username: String,
    pub protocol: String,
    pub group: Option<String>,
    pub auth_method: String,
    pub key_id: Option<String>,
    pub password_id: Option<String>,
    pub key_name: Option<String>,
    pub tags: Vec<String>,
}

/// How the key credential of an imported host is looked up.
pub enum KeyLookup {
    /// Legacy export: the key credential with this name.
    ByName(String),
    /// New export: this credential id, if it exists.
    ById(Option<String>),
}

/// Shape detection: a key name marks a legacy export.
pub fn key_lookup_for(h: &ImportedHost) -> (r: KeyLookup)
    ensures
        match h.key_name {
            Some(n) => r matches KeyLookup::ByName(m) && m == n,
            None => r matches KeyLookup::ById(i) && i == h.key_id,
        },
{
    match &h.key_name {
        Some(n) => KeyLookup::ByName(n.clone()),
        None => KeyLookup::ById(clone_opt(&h.key_id)),
    }
}

/// The host to create for an imported host, with its credential references
/// replaced by the ids that resolved in this database.
pub fn import_input(h: &ImportedHost, key_id: Option<String>, password_id: Option<String>) -> (r:
    HostInput)
    ensures
        r.name == h.name,
        r.host == h.host,
        r.port == h.port,
        r.username == h.username,
        r.protocol == h.protocol,
        r.group == h.group,
        r.auth_method == h.auth_method,
        r.key_id == key_id,
        r.password_id == password_id,
        r.tags@ == h.tags@,
{
    HostInput {
        name: h.name.clone(),
        host: h.host.clone(),
        port: h.port,
        username: h.username.clone(),
        protocol: h.protocol.clone(),
        group: clone_opt(&h.group),
        auth_method: h.auth_method.clone(),
        key_id,
        password_id,
        tags: clone_strings(&h.tags),
    }
}

/// Counts of an import.
pub struct ImportResult {
    pub imported: usize,
    pub skipped: usize,
    pub failed: Vec<String>,
}

/// What became of one imported host.
pub enum ImportOutcome {
    Imported,
    /// A host with the same address, port and username already exists.
    Skipped,
    /// The host could not be stored; the message says why.
    Failed(String),
}

impl ImportResult {
    /// Nothing imported yet.
    pub fn new() -> (r: ImportResult)
        ensures
            r.imported == 0,
            r.skipped == 0,
            r.failed@.len() == 0,
    {
        ImportResult { imported: 0, skipped: 0, failed: Vec::new() }
    }

    /// Hosts accounted for so far.
    pub open spec fn total(&self) -> int {
        self.imported + self.skipped + self.failed@.len()
    }

    /// Records one host's outcome: a failure is listed as
    /// `"<host name>: <message>"`. Every host is counted exactly once.
    pub fn record(&mut self, host_name: &str, outcome: ImportOutcome)
        requires
            old(self).total() < usize::MAX,
        ensures
            final(self).total() == old(self).total() + 1,
            match outcome {
                ImportOutcome::Imported => final(self).imported == old(self).imported + 1
                    && final(self).skipped == old(self).skipped && final(self).failed@
                    == old(self).failed@,
                ImportOutcome::Skipped => final(self).skipped == old(self).skipped + 1
                    && final(self).imported == old(self).imported && final(self).failed@
                    == old(self).failed@,
                ImportOutcome::Failed(m) => final(self).imported == old(self).imported
                    && final(self).skipped == old(self).skipped && final(self).failed@.len()
                    == old(self).failed@.len() + 1 && final(self).failed@.take(
                    old(self).failed@.len() as int,
                ) == old(self).failed@ && final(self).failed@.last()@ == host_name@ + ": "@
                    + m@,
            },
    {
        match outcome {
            ImportOutcome::Imported => {
                self.imported = self.imported + 1;
            },
            ImportOutcome::Skipped => {
                self.skipped = self.skipped + 1;
            },
            ImportOutcome::Failed(m) => {
                let line = concat3(host_name, ": ", m.as_str());
                self.failed.push(line);
                proof {
                    assert(self.failed@.take(old(self).failed@.len() as int) =~= old(
                        self,
                    ).failed@);
                }
            },
        }
    }
}

/// What the duplicate check decides for an imported host: an existing host
/// with the same address, port and username skips it, a failed check fails
/// it with the check's error text, and otherwise the import goes on (`None`).
pub fn duplicate_check_outcome(count: Result<i64, String>) -> (r: Option<ImportOutcome>)
    ensures
        match count {
            Ok(n) => if n > 0 {
                r matches Some(ImportOutcome::Skipped)
            } else {
                r is None
            },
            Err(m) => r matches Some(ImportOutcome::Failed(t)) && t == m,
        },
{
    match count {
        Ok(n) => if n > 0 {
            Some(ImportOutcome::Skipped)
        } else {
            None
        },
        Err(m) => Some(ImportOutcome::Failed(m)),
    }
}

/// Which hosts are accepted: exactly those with a name, a host and a user
/// name that are not blank, the `ssh` protocol, and one of the three
/// authentication methods `none`, `password` or `key`, a key-authenticated
/// host also naming its key credential.
pub proof fn law_accepted_hosts(input: HostInput)
    ensures
        input_problem(input) is None <==> {
            &&& !is_blank(input.name@)
            &&& !is_blank(input.host@)
            &&& !is_blank(input.username@)
            &&& input.protocol@ == "ssh"@
            &&& (input.auth_method@ == "none"@ || input.auth_method@ == "password"@
                || input.auth_method@ == "key"@)
            &&& input.auth_method@ == "key"@ ==> (input.key_id matches Some(k) && k@.len() > 0)
        },
{
}

} // verus!
