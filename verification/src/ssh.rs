//! SSH-side decisions: private-key checks (through `russh::keys`), the
//! trust-on-first-use verdict on a server key, error texts, and the
//! authentication request.
use vstd::prelude::*;
use crate::text::{concat2, str_eq};
use russh::keys::{Algorithm, HashAlg, PrivateKey};

verus! {

/// How a session authenticates: a password, or the id of a stored key
/// credential.
pub enum SshAuth {
    Password(String),
    Key(String),
}

/// Why an SSH command failed.
pub enum SshError {
    Ssh(String),
    Key(String),
    Encryption(String),
    Database(String),
    SessionNotFound(String),
    ChannelNotFound(String),
    UnsupportedKeyType(String),
    AuthFailed,
}

impl SshError {
    /// The text the error displays as.
    pub open spec fn text(&self) -> Seq<char> {
        match self {
            SshError::Ssh(m) => "SSH error: "@ + m@,
            SshError::Key(m) => "Key error: "@ + m@,
            SshError::Encryption(m) => "Encryption error: "@ + m@,
            SshError::Database(m) => "Database error: "@ + m@,
            SshError::SessionNotFound(m) => "Session not found: "@ + m@,
            SshError::ChannelNotFound(m) => "Channel not found: "@ + m@,
            SshError::UnsupportedKeyType(m) => "Unsupported key algorithm: "@ + m@,
            SshError::AuthFailed => "Authentication failed"@,
        }
    }

    /// The text the error displays as.
    pub fn message(&self) -> (r: String)
        ensures
            r@ == self.text(),
    {
        match self {
            SshError::Ssh(m) => concat2("SSH error: ", m.as_str()),
            SshError::Key(m) => concat2("Key error: ", m.as_str()),
            SshError::Encryption(m) => concat2("Encryption error: ", m.as_str()),
            SshError::Database(m) => concat2("Database error: ", m.as_str()),
            SshError::SessionNotFound(m) => concat2("Session not found: ", m.as_str()),
            SshError::ChannelNotFound(m) => concat2("Channel not found: ", m.as_str()),
            SshError::UnsupportedKeyType(m) => concat2("Unsupported key algorithm: ", m.as_str()),
            SshError::AuthFailed => String::from_str("Authentication failed"),
        }
    }
}

/// What to do with the key a server presents.
pub enum HostKeyVerdict {
    /// The stored fingerprint matches: accept.
    Trusted,
    /// A different fingerprint is stored: reject the connection.
    Mismatch,
    /// No fingerprint is stored: record this one and accept.
    TrustNew,
}

/// Trust on first use: the presented fingerprint is accepted when it equals
/// the stored one or when none is stored yet (and is then recorded), and
/// rejected when another one is stored.
pub fn host_key_verdict(stored: &Option<String>, presented: &str) -> (r: HostKeyVerdict)
    ensures
        match *stored {
            None => r is TrustNew,
            Some(s) => if s@ == presented@ {
                r is Trusted
            } else {
                r is Mismatch
            },
        },
{
    match stored {
        None => HostKeyVerdict::TrustNew,
        Some(s) => if str_eq(s.as_str(), presented) {
            HostKeyVerdict::Trusted
        } else {
            HostKeyVerdict::Mismatch
        },
    }
}

/// Whether the connection goes on: yes unless the stored key differs.
pub fn verdict_accepts(v: &HostKeyVerdict) -> (r: bool)
    ensures
        r == !(*v is Mismatch),
{
    match v {
        HostKeyVerdict::Mismatch => false,
        _ => true,
    }
}

/// What `russh::keys` reports of an OpenSSH private key.
pub struct KeyFacts {
    /// The key material is still encrypted with a passphrase.
    pub encrypted: bool,
    /// Algorithm name, e.g. `ssh-ed25519`.
    pub algorithm: String,
    /// SHA-256 fingerprint, e.g. `SHA256:...`.
    pub fingerprint: String,
    /// The family of the algorithm.
    pub kind: KeyAlgorithm,
}

/// The family of a key's algorithm, as far as the client tells them apart.
pub enum KeyAlgorithm {
    Ed25519,
    Rsa,
    /// Any other algorithm (ECDSA, DSA, security keys, ...).
    Other,
}

/// The client signs with Ed25519 and RSA keys only.
pub open spec fn signs_with(a: KeyAlgorithm) -> bool {
    a is Ed25519 || a is Rsa
}

/// The facts as plain values.
pub open spec fn facts_view(f: KeyFacts) -> (bool, Seq<char>, Seq<char>, KeyAlgorithm) {
    (f.encrypted, f.algorithm@, f.fingerprint@, f.kind)
}

/// What `PrivateKey::from_openssh` reads from a text: the key's facts, or
/// the error's text.
pub uninterp spec fn openssh_key_read(data: Seq<char>) -> Result<
    (bool, Seq<char>, Seq<char>, KeyAlgorithm),
    Seq<char>,
>;

/// What `PrivateKey::decrypt` gives for the key read from a text and a
/// passphrase: the decrypted key's facts, or the error's text.
pub uninterp spec fn openssh_key_decrypted(data: Seq<char>, passphrase: Seq<char>) -> Result<
    (bool, Seq<char>, Seq<char>, KeyAlgorithm),
    Seq<char>,
>;

/// Calls `PrivateKey::from_openssh` and reports the key's facts
/// (`is_encrypted`, `algorithm` as text, the SHA-256 `fingerprint` as text,
/// and the `Algorithm` variant, Ed25519 and RSA told apart from the rest),
/// or the error's text.
#[verifier::external_body]
fn read_openssh_key(data: &str) -> (r: Result<KeyFacts, String>)
    ensures
        match r {
            Ok(f) => openssh_key_read(data@) == Ok::<_, Seq<char>>(facts_view(f)),
            Err(m) => openssh_key_read(data@) == Err::<(bool, Seq<char>, Seq<char>, KeyAlgorithm), _>(
                m@,
            ),
        },
{
    match PrivateKey::from_openssh(data) {
        Ok(k) => Ok(KeyFacts {
            encrypted: k.is_encrypted(), algorithm: k.algorithm().to_string(),
            fingerprint: k.fingerprint(HashAlg::Sha256).to_string(),
            kind: match k.algorithm() {
                Algorithm::Ed25519 => KeyAlgorithm::Ed25519,
                Algorithm::Rsa { .. } => KeyAlgorithm::Rsa,
                _ => KeyAlgorithm::Other,
            },
        }),
        Err(e) => Err(e.to_string()),
    }
}

/// Calls `PrivateKey::from_openssh` and then `PrivateKey::decrypt` with the
/// passphrase, and reports the decrypted key's facts as `read_openssh_key`
/// does, or the error's text.
#[verifier::external_body]
fn decrypt_openssh_key(data: &str, passphrase: &str) -> (r: Result<KeyFacts, String>)
    ensures
        match r {
            Ok(f) => openssh_key_decrypted(data@, passphrase@) == Ok::<_, Seq<char>>(
                facts_view(f),
            ),
            Err(m) => openssh_key_decrypted(data@, passphrase@) == Err::<
                (bool, Seq<char>, Seq<char>, KeyAlgorithm),
                _,
            >(m@),
        },
{
    let k = match PrivateKey::from_openssh(data) { Ok(k) => k, Err(e) => return Err(e.to_string()) };
    match k.decrypt(passphrase) {
        Ok(k) => Ok(KeyFacts {
            encrypted: k.is_encrypted(), algorithm: k.algorithm().to_string(),
            fingerprint: k.fingerprint(HashAlg::Sha256).to_string(),
            kind: match k.algorithm() {
                Algorithm::Ed25519 => KeyAlgorithm::Ed25519,
                Algorithm::Rsa { .. } => KeyAlgorithm::Rsa, _ => KeyAlgorithm::Other,
            },
        }),
        Err(e) => Err(e.to_string()),
    }
}

/// The outcome of checking a private key for use: the usable key's facts,
/// or the error.
pub open spec fn key_check_outcome(data: Seq<char>, passphrase: Option<Seq<char>>) -> Result<
    (bool, Seq<char>, Seq<char>, KeyAlgorithm),
    (bool, Seq<char>),
> {
    // The error pairs `true` with a `Key` message and `false` with an
    // unsupported algorithm's name.
    match openssh_key_read(data) {
        Err(m) => Err((true, m)),
        Ok(f) => {
            let usable = if f.0 {
                match passphrase {
                    None => Err((true, "key is encrypted but no passphrase provided"@)),
                    Some(p) => match openssh_key_decrypted(data, p) {
                        Err(m) => Err((true, "failed to decrypt key: "@ + m)),
                        Ok(g) => Ok(g),
                    },
                }
            } else {
                Ok(f)
            };
            match usable {
                Err(e) => Err(e),
                Ok(g) => if signs_with(g.3) {
                    Ok(g)
                } else {
                    Err((false, g.1))
                },
            }
        },
    }
}

/// The error `parse_private_key` returns for an outcome's error.
pub open spec fn key_error_matches(e: SshError, err: (bool, Seq<char>)) -> bool {
    if err.0 {
        e matches SshError::Key(m) && m@ == err.1
    } else {
        e matches SshError::UnsupportedKeyType(m) && m@ == err.1
    }
}

/// The text of the error `parse_private_key` returns for an outcome's
/// error.
pub open spec fn key_error_text(err: (bool, Seq<char>)) -> Seq<char> {
    if err.0 {
        "Key error: "@ + err.1
    } else {
        "Unsupported key algorithm: "@ + err.1
    }
}

/// The error matching an outcome's error displays as its text.
pub proof fn lemma_key_error_text(e: SshError, err: (bool, Seq<char>))
    requires
        key_error_matches(e, err),
    ensures
        e.text() == key_error_text(err),
{
}

/// Checks an OpenSSH private key for use: it must parse; an encrypted key
/// needs a passphrase that decrypts it; the algorithm must be Ed25519 or
/// RSA. Returns the facts of the usable (decrypted) key.
pub fn parse_private_key(data: &str, passphrase: Option<&str>) -> (r: Result<KeyFacts, SshError>)
    ensures
        match key_check_outcome(
            data@,
            match passphrase {
                Some(p) => Some(p@),
                None => None,
            },
        ) {
            Ok(g) => r matches Ok(f) && facts_view(f) == g,
            Err(err) => r matches Err(e) && key_error_matches(e, err),
        },
        r matches Ok(f) ==> signs_with(f.kind),
{
    let facts = match read_openssh_key(data) {
        Ok(f) => f,
        Err(m) => {
            return Err(SshError::Key(m));
        },
    };
    let key = if facts.encrypted {
        match passphrase {
            None => {
                return Err(
                    SshError::Key(String::from_str("key is encrypted but no passphrase provided")),
                );
            },
            Some(p) => match decrypt_openssh_key(data, p) {
                Ok(g) => g,
                Err(m) => {
                    return Err(SshError::Key(concat2("failed to decrypt key: ", m.as_str())));
                },
            },
        }
    } else {
        facts
    };
    match key.kind {
        KeyAlgorithm::Other => Err(SshError::UnsupportedKeyType(key.algorithm)),
        _ => Ok(key),
    }
}

/// Algorithm and fingerprint for listing a stored key; an encrypted key
/// shows its algorithm and `encrypted` in place of the fingerprint. `None`
/// when the text is not an OpenSSH private key.
pub fn try_parse_key_info(data: &str) -> (r: Option<(String, String)>)
    ensures
        match openssh_key_read(data@) {
            Err(_) => r is None,
            Ok(f) => r matches Some(info) && info.0@ == f.1 && info.1@ == (if f.0 {
                "encrypted"@
            } else {
                f.2
            }),
        },
{
    match read_openssh_key(data) {
        Err(_) => None,
        Ok(f) => {
            if f.encrypted {
                Some((f.algorithm, String::from_str("encrypted")))
            } else {
                Some((f.algorithm, f.fingerprint))
            }
        },
    }
}

/// A keep-alive interval or a connect timeout in seconds applies only when
/// it is given and not zero.
pub fn effective_seconds(v: Option<u64>) -> (r: Option<u64>)
    ensures
        r == (match v {
            Some(s) => if s > 0 {
                Some(s)
            } else {
                None::<u64>
            },
            None => None::<u64>,
        }),
{
    match v {
        Some(s) => if s > 0 {
            Some(s)
        } else {
            None
        },
        None => None,
    }
}

/// The client signs with Ed25519 and RSA keys, and with no other kind.
pub proof fn law_signing_algorithms()
    ensures
        signs_with(KeyAlgorithm::Ed25519),
        signs_with(KeyAlgorithm::Rsa),
        !signs_with(KeyAlgorithm::Other),
{
}

/// An unencrypted key is usable exactly when it is an Ed25519 or an RSA
/// key, whatever passphrase comes with it: it is then returned with its
/// facts, and any other key is refused as an unsupported algorithm, by name.
pub proof fn law_plain_keys_by_algorithm(data: Seq<char>, passphrase: Option<Seq<char>>)
    requires
        openssh_key_read(data) is Ok,
        !openssh_key_read(data)->Ok_0.0,
    ensures
        ({
            let f = openssh_key_read(data)->Ok_0;
            &&& (f.3 is Ed25519 || f.3 is Rsa) ==> key_check_outcome(data, passphrase) == Ok::<
                (bool, Seq<char>, Seq<char>, KeyAlgorithm),
                (bool, Seq<char>),
            >(f)
            &&& f.3 is Other ==> key_check_outcome(data, passphrase) == Err::<
                (bool, Seq<char>, Seq<char>, KeyAlgorithm),
                (bool, Seq<char>),
            >((false, f.1))
        }),
{
}

} // verus!
