//! Stored credentials (SSH keys and passwords): kinds, the sealing of new
//! and updated values, the decoding of stored rows, and the checks and
//! listing info of the credential commands.
use vstd::prelude::*;
use vstd::utf8::encode_utf8;
use crate::crypto::{
    aes256gcm_open, open_text, open_text_outcome, seal_text, MASTER_KEY_SIZE, PLAINTEXT_MAX,
};
use crate::json::{json_text_of_strings, parsed_tags, parse_tags_text, tags_to_json};
use crate::hosts::{column_text, text_or};
use crate::ssh::{
    facts_view, key_check_outcome, key_error_matches, key_error_text, lemma_key_error_text,
    openssh_key_read, parse_private_key, try_parse_key_info,
};
use crate::text::{clone_opt, clone_strings, is_blank, str_is_blank};

verus! {

/// The two kinds of credential.
#[derive(PartialEq, Eq, Structural, Clone, Copy, Debug)]
pub enum CredentialKind {
    Key,
    Password,
}

impl CredentialKind {
    /// The `kind` column value.
    pub open spec fn text(self) -> Seq<char> {
        match self {
            CredentialKind::Key => "key"@,
            CredentialKind::Password => "password"@,
        }
    }

    /// The `kind` column value for this variant.
    pub fn as_str(self) -> (r: &'static str)
        ensures
            r@ == self.text(),
    {
        match self {
            CredentialKind::Key => "key",
            CredentialKind::Password => "password",
        }
    }
}

/// The kind a `kind` column value stands for: `key`, anything else a
/// password.
pub open spec fn kind_of_text(t: Seq<char>) -> CredentialKind {
    if t == "key"@ {
        CredentialKind::Key
    } else {
        CredentialKind::Password
    }
}

/// Reads a `kind` column value.
pub fn parse_kind(value: &str) -> (r: CredentialKind)
    ensures
        r == kind_of_text(value@),
{
    if crate::text::str_eq(value, "key") {
        CredentialKind::Key
    } else {
        CredentialKind::Password
    }
}

/// Reading back the column value of a kind gives that kind.
pub proof fn law_parse_kind_inverts_as_str(k: CredentialKind)
    ensures
        kind_of_text(k.text()) == k,
{
    reveal_strlit("key");
    reveal_strlit("password");
    if k == CredentialKind::Password {
        assert("password"@.len() != "key"@.len());
    }
}

/// A stored credential row; value and nonce stay encrypted.
pub struct CredentialRow {
    pub id: String,
    pub name: String,
    pub kind: CredentialKind,
    pub encrypted_value: Vec<u8>,
    pub nonce: Vec<u8>,
    pub group: Option<String>,
    pub tags: Vec<String>,
    pub created_at: String,
    pub updated_at: String,
}

/// The columns of a `credential` row as far as they could be read.
pub struct CredentialColumns {
    pub id: Option<String>,
    pub name: Option<String>,
    pub kind: Option<String>,
    pub encrypted_value: Option<Vec<u8>>,
    pub nonce: Option<Vec<u8>>,
    pub group: Option<String>,
    pub tags: Option<String>,
    pub created_at: Option<String>,
    pub updated_at: Option<String>,
}

/// A byte column, empty when it could not be read.
pub open spec fn bytes_or_empty(c: Option<Vec<u8>>) -> Seq<u8> {
    match c {
        Some(v) => v@,
        None => seq![],
    }
}

fn column_bytes(c: &Option<Vec<u8>>) -> (r: Vec<u8>)
    ensures
        r@ == bytes_or_empty(*c),
{
    match c {
        Some(v) => v.clone(),
        None => Vec::new(),
    }
}

/// Decodes a stored credential row: unreadable texts and bytes become empty,
/// the kind is read with `parse_kind`, unreadable tags are the empty list.
pub fn credential_row_from_columns(c: &CredentialColumns) -> (r: CredentialRow)
    ensures
        r.id@ == text_or(c.id, ""@),
        r.name@ == text_or(c.name, ""@),
        r.kind == kind_of_text(text_or(c.kind, ""@)),
        r.encrypted_value@ == bytes_or_empty(c.encrypted_value),
        r.nonce@ == bytes_or_empty(c.nonce),
        r.group == c.group,
        r.tags.deep_view() == (match c.tags {
            Some(t) => parsed_tags(t@),
            None => seq![],
        }),
        r.created_at@ == text_or(c.created_at, ""@),
        r.updated_at@ == text_or(c.updated_at, ""@),
{
    let kind = column_text(&c.kind, "");
    let tags = match &c.tags {
        Some(t) => parse_tags_text(t.as_str()),
        None => {
            let v: Vec<String> = Vec::new();
            assert(v.deep_view() =~= seq![]);
            v
        },
    };
    CredentialRow {
        id: column_text(&c.id, ""),
        name: column_text(&c.name, ""),
        kind: parse_kind(kind.as_str()),
        encrypted_value: column_bytes(&c.encrypted_value),
        nonce: column_bytes(&c.nonce),
        group: clone_opt(&c.group),
        tags,
        created_at: column_text(&c.created_at, ""),
        updated_at: column_text(&c.updated_at, ""),
    }
}

/// Encrypted values to write for a credential.
pub struct SealedCredential {
    pub encrypted_value: Vec<u8>,
    pub nonce: Vec<u8>,
    pub passphrase_encrypted_value: Option<Vec<u8>>,
    pub passphrase_nonce: Option<Vec<u8>>,
    pub tags_json: String,
}

/// The sealed pair opens, under `key`, to the UTF-8 bytes of `text`.
pub open spec fn seals(key: Seq<u8>, ct: Seq<u8>, nonce: Seq<u8>, text: Seq<char>) -> bool {
    nonce.len() == 12 && aes256gcm_open(key, nonce, ct) == Some(encode_utf8(text))
}

/// A text small enough to seal.
pub open spec fn sealable(t: Seq<char>) -> bool {
    encode_utf8(t).len() <= PLAINTEXT_MAX
}

/// An optional passphrase that is present and not empty.
pub open spec fn given_passphrase(p: Option<&str>) -> Option<Seq<char>> {
    match p {
        Some(s) => if s@.len() > 0 {
            Some(s@)
        } else {
            None
        },
        None => None,
    }
}

fn seal_pair(master_key: &[u8; 32], text: &str) -> (r: (Vec<u8>, Vec<u8>))
    requires
        sealable(text@),
    ensures
        seals(master_key@, r.0@, r.1@, text@),
{
    let (ct, nonce) = seal_text(master_key, text);
    let mut n: Vec<u8> = Vec::new();
    let mut i: usize = 0;
    while i < 12
        invariant
            i <= 12,
            n@ == nonce@.take(i as int),
        decreases 12 - i,
    {
        n.push(nonce[i]);
        proof {
            assert(nonce@.take(i + 1) =~= nonce@.take(i as int).push(nonce@[i as int]));
        }
        i += 1;
    }
    assert(nonce@.take(12) =~= nonce@);
    (ct, n)
}

/// Seals a new credential: the value always, the key passphrase only when it
/// is given and not empty; tags are stored as JSON.
pub fn seal_new_credential(
    master_key: &[u8; 32],
    value: &str,
    key_passphrase_value: Option<&str>,
    tags: &Vec<String>,
) -> (r: SealedCredential)
    requires
        sealable(value@),
        key_passphrase_value matches Some(p) ==> sealable(p@),
    ensures
        seals(master_key@, r.encrypted_value@, r.nonce@, value@),
        match given_passphrase(key_passphrase_value) {
            Some(p) => (r.passphrase_encrypted_value matches Some(ct) && (
            r.passphrase_nonce matches Some(n) && seals(master_key@, ct@, n@, p))),
            None => r.passphrase_encrypted_value is None && r.passphrase_nonce is None,
        },
        r.tags_json@ == json_text_of_strings(tags.deep_view()),
        parsed_tags(r.tags_json@) == tags.deep_view(),
{
    let (ct, nonce) = seal_pair(master_key, value);
    let (pct, pn) = match key_passphrase_value {
        Some(p) => if !p.is_empty() {
            let (a, b) = seal_pair(master_key, p);
            (Some(a), Some(b))
        } else {
            (None, None)
        },
        None => (None, None),
    };
    SealedCredential {
        encrypted_value: ct,
        nonce,
        passphrase_encrypted_value: pct,
        passphrase_nonce: pn,
        tags_json: tags_to_json(tags),
    }
}

/// The stored values of a credential that an update starts from.
pub struct StoredCredential {
    pub name: String,
    pub encrypted_value: Vec<u8>,
    pub nonce: Vec<u8>,
    pub passphrase_encrypted_value: Option<Vec<u8>>,
    pub passphrase_nonce: Option<Vec<u8>>,
    pub group: Option<String>,
    /// The tags column, `None` when it could not be read.
    pub tags_json: Option<String>,
}

/// The values an update writes.
pub struct UpdatedCredential {
    pub name: String,
    pub encrypted_value: Vec<u8>,
    pub nonce: Vec<u8>,
    pub passphrase_encrypted_value: Option<Vec<u8>>,
    pub passphrase_nonce: Option<Vec<u8>>,
    pub group: Option<String>,
    pub tags_json: String,
}

/// Optional bytes as a value.
pub open spec fn opt_bytes(o: Option<Vec<u8>>) -> Option<Seq<u8>> {
    match o {
        Some(v) => Some(v@),
        None => None,
    }
}

fn clone_opt_bytes(o: &Option<Vec<u8>>) -> (r: Option<Vec<u8>>)
    ensures
        opt_bytes(r) == opt_bytes(*o),
{
    match o {
        Some(v) => Some(v.clone()),
        None => None,
    }
}

/// Applies an update to a stored credential. A given name, value or group
/// replaces the stored one (the value re-sealed); given tags are stored as
/// JSON. The key passphrase: a non-empty one is sealed; an empty one clears
/// it; when none is given it is cleared if the value is replaced (the new key
/// has no passphrase) and kept otherwise.
pub fn seal_credential_update(
    master_key: &[u8; 32],
    current: &StoredCredential,
    name: Option<&str>,
    value: Option<&str>,
    key_passphrase_value: Option<&str>,
    group: Option<Option<String>>,
    tags: Option<Vec<String>>,
) -> (r: UpdatedCredential)
    requires
        value matches Some(v) ==> sealable(v@),
        key_passphrase_value matches Some(p) ==> sealable(p@),
    ensures
        r.name@ == (match name {
            Some(n) => n@,
            None => current.name@,
        }),
        match value {
            Some(v) => seals(master_key@, r.encrypted_value@, r.nonce@, v@),
            None => r.encrypted_value@ == current.encrypted_value@ && r.nonce@ == current.nonce@,
        },
        match key_passphrase_value {
            Some(p) => if p@.len() > 0 {
                r.passphrase_encrypted_value matches Some(ct) && (r.passphrase_nonce matches Some(
                    n) && seals(master_key@, ct@, n@, p@))
            } else {
                r.passphrase_encrypted_value is None && r.passphrase_nonce is None
            },
            None => if value is Some {
                r.passphrase_encrypted_value is None && r.passphrase_nonce is None
            } else {
                opt_bytes(r.passphrase_encrypted_value) == opt_bytes(
                    current.passphrase_encrypted_value,
                ) && opt_bytes(r.passphrase_nonce) == opt_bytes(current.passphrase_nonce)
            },
        },
        r.group == (match group {
            Some(g) => g,
            None => current.group,
        }),
        r.tags_json@ == (match tags {
            Some(t) => json_text_of_strings(t.deep_view()),
            None => text_or(current.tags_json, "[]"@),
        }),
        tags matches Some(t) ==> parsed_tags(r.tags_json@) == t.deep_view(),
{
    let new_name = match name {
        Some(n) => String::from_str(n),
        None => current.name.clone(),
    };
    let (ct, nonce) = match value {
        Some(v) => seal_pair(master_key, v),
        None => (current.encrypted_value.clone(), current.nonce.clone()),
    };
    let (pct, pn) = match key_passphrase_value {
        Some(p) => if !p.is_empty() {
            let (a, b) = seal_pair(master_key, p);
            (Some(a), Some(b))
        } else {
            (None, None)
        },
        None => if value.is_some() {
            (None, None)
        } else {
            (
                clone_opt_bytes(&current.passphrase_encrypted_value),
                clone_opt_bytes(&current.passphrase_nonce),
            )
        },
    };
    let new_group = match group {
        Some(g) => g,
        None => clone_opt(&current.group),
    };
    let tags_json = match tags {
        Some(t) => tags_to_json(&t),
        None => column_text(&current.tags_json, "[]"),
    };
    UpdatedCredential {
        name: new_name,
        encrypted_value: ct,
        nonce,
        passphrase_encrypted_value: pct,
        passphrase_nonce: pn,
        group: new_group,
        tags_json,
    }
}

/// What `open_passphrase` returns for the stored passphrase columns.
pub open spec fn open_passphrase_outcome(
    key: Seq<u8>,
    ct: Option<Vec<u8>>,
    nonce: Option<Vec<u8>>,
) -> Result<Option<Seq<char>>, Seq<char>> {
    match (ct, nonce) {
        (Some(c), Some(n)) => match open_text_outcome(key, c@, n@) {
            Ok(t) => Ok(Some(t)),
            Err(m) => Err(m),
        },
        _ => Ok(None),
    }
}

/// Opens a stored key passphrase; no passphrase when either column is empty.
pub fn open_passphrase(master_key: &[u8; 32], ct: &Option<Vec<u8>>, nonce: &Option<Vec<u8>>) -> (r:
    Result<Option<String>, String>)
    ensures
        match open_passphrase_outcome(master_key@, *ct, *nonce) {
            Ok(None) => r matches Ok(None),
            Ok(Some(t)) => r matches Ok(Some(s)) && s@ == t,
            Err(m) => r matches Err(e) && e@ == m,
        },
{
    match (ct, nonce) {
        (Some(c), Some(n)) => match open_text(master_key, c.as_slice(), n.as_slice()) {
            Ok(s) => Ok(Some(s)),
            Err(e) => Err(e),
        },
        _ => Ok(None),
    }
}

// ── Commands ────────────────────────────────────────────────────────────────

/// A new credential as entered by the user.
pub struct CredentialInput {
    pub name: String,
    pub kind: CredentialKind,
    /// Key data or password.
    pub value: String,
    /// Key passphrase (keys only).
    pub key_passphrase_value: Option<String>,
    pub group: Option<String>,
    pub tags: Vec<String>,
}

/// Changes to a credential. `None` keeps a field; `group: Some(None)` clears
/// the group.
pub struct CredentialUpdate {
    pub name: Option<String>,
    pub value: Option<String>,
    pub key_passphrase_value: Option<String>,
    pub group: Option<Option<String>>,
    pub tags: Option<Vec<String>>,
}

/// A credential as listed to the frontend (never its secret).
pub struct CredentialInfo {
    pub id: String,
    pub name: String,
    pub kind: CredentialKind,
    /// Key algorithm (e.g. `ssh-ed25519`); `None` for passwords.
    pub key_type: Option<String>,
    /// Key fingerprint; `None` for passwords.
    pub key_fingerprint: Option<String>,
    pub group: Option<String>,
    pub tags: Vec<String>,
    pub created_at: String,
    pub updated_at: String,
}

/// Decrypts the value of a stored row.
pub fn decrypt_row_value(row: &CredentialRow, master_key: &[u8; 32]) -> (r: Result<String, String>)
    ensures
        match open_text_outcome(master_key@, row.encrypted_value@, row.nonce@) {
            Ok(t) => r matches Ok(s) && s@ == t,
            Err(m) => r matches Err(e) && e@ == m,
        },
{
    open_text(master_key, row.encrypted_value.as_slice(), row.nonce.as_slice())
}

/// The algorithm and fingerprint shown for a stored key: from the key's
/// decrypted value, `None` when it does not decrypt or does not parse.
pub open spec fn listed_key_info(key: Seq<u8>, row: CredentialRow) -> Option<(Seq<char>, Seq<char>)> {
    match open_text_outcome(key, row.encrypted_value@, row.nonce@) {
        Err(_) => None,
        Ok(t) => match openssh_key_read(t) {
            Err(_) => None,
            Ok(f) => Some(
                (
                    f.1,
                    if f.0 {
                        "encrypted"@
                    } else {
                        f.2
                    },
                ),
            ),
        },
    }
}

/// The listing info of a stored row: passwords show no key type or
/// fingerprint; keys show those of their decrypted value when it parses.
pub fn row_to_info(row: &CredentialRow, master_key: &[u8; 32]) -> (r: CredentialInfo)
    ensures
        r.id == row.id,
        r.name == row.name,
        r.kind == row.kind,
        r.group == row.group,
        r.tags@ == row.tags@,
        r.created_at == row.created_at,
        r.updated_at == row.updated_at,
        row.kind == CredentialKind::Password ==> r.key_type is None && r.key_fingerprint is None,
        row.kind == CredentialKind::Key ==> match listed_key_info(master_key@, *row) {
            None => r.key_type is None && r.key_fingerprint is None,
            Some(info) => (r.key_type matches Some(t) && t@ == info.0) && (
            r.key_fingerprint matches Some(f) && f@ == info.1),
        },
{
    let (key_type, key_fingerprint) = if row.kind == CredentialKind::Key {
        match decrypt_row_value(row, master_key) {
            Ok(data) => match try_parse_key_info(data.as_str()) {
                Some((t, f)) => (Some(t), Some(f)),
                None => (None, None),
            },
            Err(_) => (None, None),
        }
    } else {
        (None, None)
    };
    CredentialInfo {
        id: row.id.clone(),
        name: row.name.clone(),
        kind: row.kind,
        key_type,
        key_fingerprint,
        group: clone_opt(&row.group),
        tags: clone_strings(&row.tags),
        created_at: row.created_at.clone(),
        updated_at: row.updated_at.clone(),
    }
}

/// Opt view of an optional text.
pub open spec fn opt_view(o: Option<String>) -> Option<Seq<char>> {
    match o {
        Some(s) => Some(s@),
        None => None,
    }
}

/// Checks a new credential before it is stored: a name that is not blank;
/// for a key, a usable private key (see `parse_private_key`), whose
/// algorithm and fingerprint are returned; for a password, a non-empty
/// value.
pub fn check_new_credential(input: &CredentialInput) -> (r: Result<Option<(String, String)>, String>)
    ensures
        is_blank(input.name@) ==> (r matches Err(m) && m@ == "name must not be empty"@),
        !is_blank(input.name@) && input.kind == CredentialKind::Password ==> (if input.value@.len()
            == 0 {
            r matches Err(m) && m@ == "password must not be empty"@
        } else {
            r matches Ok(None)
        }),
        !is_blank(input.name@) && input.kind == CredentialKind::Key ==> match key_check_outcome(
            input.value@,
            opt_view(input.key_passphrase_value),
        ) {
            Ok(g) => r matches Ok(Some(info)) && info.0@ == g.1 && info.1@ == g.2,
            Err(err) => r matches Err(m) && m@ == key_error_text(err),
        },
{
    if str_is_blank(input.name.as_str()) {
        return Err(String::from_str("name must not be empty"));
    }
    match input.kind {
        CredentialKind::Key => {
            let pass: Option<&str> = match &input.key_passphrase_value {
                Some(p) => Some(p.as_str()),
                None => None,
            };
            match parse_private_key(input.value.as_str(), pass) {
                Ok(f) => Ok(Some((f.algorithm, f.fingerprint))),
                Err(e) => {
                    proof {
                        let err = key_check_outcome(
                            input.value@,
                            opt_view(input.key_passphrase_value),
                        )->Err_0;
                        lemma_key_error_text(e, err);
                    }
                    Err(e.message())
                },
            }
        },
        CredentialKind::Password => {
            if input.value.as_str().is_empty() {
                Err(String::from_str("password must not be empty"))
            } else {
                Ok(None)
            }
        },
    }
}

/// A renamed credential needs a name that is not blank.
pub fn check_update_name(update: &CredentialUpdate) -> (r: Result<(), String>)
    ensures
        match update.name {
            Some(n) => if is_blank(n@) {
                r matches Err(m) && m@ == "name must not be empty"@
            } else {
                r is Ok
            },
            None => r is Ok,
        },
{
    match &update.name {
        Some(n) => if str_is_blank(n.as_str()) {
            Err(String::from_str("name must not be empty"))
        } else {
            Ok(())
        },
        None => Ok(()),
    }
}

/// A key update that changes the key material or its passphrase must be
/// checked again.
pub fn update_needs_key_check(kind: CredentialKind, update: &CredentialUpdate) -> (r: bool)
    ensures
        r == (kind == CredentialKind::Key && (update.value is Some
            || update.key_passphrase_value is Some)),
{
    kind == CredentialKind::Key && (update.value.is_some() || update.key_passphrase_value.is_some())
}

/// The passphrase a key update is checked with: a non-empty given one; none
/// when an empty one is given, or when new key material comes without one;
/// otherwise the stored one.
pub open spec fn effective_passphrase(
    given: Option<String>,
    value_given: bool,
    current: Option<String>,
) -> Option<Seq<char>> {
    match given {
        Some(p) => if p@.len() > 0 {
            Some(p@)
        } else {
            None
        },
        None => if value_given {
            None
        } else {
            opt_view(current)
        },
    }
}

/// Checks the key an update leaves: the given value or else the stored one,
/// with the effective passphrase. Returns the key's algorithm and
/// fingerprint.
pub fn check_key_update(
    update: &CredentialUpdate,
    current_value: String,
    current_passphrase: Option<String>,
) -> (r: Result<(String, String), String>)
    ensures
        ({
            let value = match update.value {
                Some(v) => v@,
                None => current_value@,
            };
            match key_check_outcome(
                value,
                effective_passphrase(
                    update.key_passphrase_value,
                    update.value is Some,
                    current_passphrase,
                ),
            ) {
                Ok(g) => r matches Ok(info) && info.0@ == g.1 && info.1@ == g.2,
                Err(err) => r matches Err(m) && m@ == key_error_text(err),
            }
        }),
{
    let value = match &update.value {
        Some(v) => v.clone(),
        None => current_value,
    };
    let pass: Option<String> = match &update.key_passphrase_value {
        Some(p) => if !p.as_str().is_empty() {
            Some(p.clone())
        } else {
            None
        },
        None => if update.value.is_some() {
            None
        } else {
            current_passphrase
        },
    };
    let pass_ref: Option<&str> = match &pass {
        Some(p) => Some(p.as_str()),
        None => None,
    };
    match parse_private_key(value.as_str(), pass_ref) {
        Ok(f) => Ok((f.algorithm, f.fingerprint)),
        Err(e) => {
            proof {
                let pv = match pass_ref {
                    Some(p) => Some(p@),
                    None => None,
                };
                let err = key_check_outcome(value@, pv)->Err_0;
                lemma_key_error_text(e, err);
            }
            Err(e.message())
        },
    }
}

/// The info with the key type and fingerprint found when the key was
/// checked, when it was.
pub fn with_key_info(info: CredentialInfo, key_info: Option<(String, String)>) -> (r: CredentialInfo)
    ensures
        r.id == info.id && r.name == info.name && r.kind == info.kind && r.group == info.group
            && r.tags == info.tags && r.created_at == info.created_at && r.updated_at
            == info.updated_at,
        match key_info {
            Some(k) => r.key_type == Some(k.0) && r.key_fingerprint == Some(k.1),
            None => r.key_type == info.key_type && r.key_fingerprint == info.key_fingerprint,
        },
{
    match key_info {
        Some((t, f)) => CredentialInfo { key_type: Some(t), key_fingerprint: Some(f), ..info },
        None => info,
    }
}

} // verus!
