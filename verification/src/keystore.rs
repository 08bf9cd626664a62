//! Checks made before the operating-system keychain is asked to store, read
//! or delete a secret, and the reading of its answer to a lookup.
use vstd::prelude::*;
use crate::text::{concat2, is_blank, str_is_blank};

verus! {

/// Why a keychain command failed.
pub enum KeystoreError {
    /// The keychain refused; the text it gave.
    Keyring(String),
    /// The request was refused before the keychain was asked.
    Validation(String),
}

impl KeystoreError {
    /// The text the error displays as.
    pub open spec fn text(&self) -> Seq<char> {
        match self {
            KeystoreError::Keyring(m) => "keyring error: "@ + m@,
            KeystoreError::Validation(m) => "validation error: "@ + m@,
        }
    }

    /// The text the error displays as.
    pub fn message(&self) -> (r: String)
        ensures
            r@ == self.text(),
    {
        match self {
            KeystoreError::Keyring(m) => concat2("keyring error: ", m.as_str()),
            KeystoreError::Validation(m) => concat2("validation error: ", m.as_str()),
        }
    }
}

/// A secret to store in the keychain under a service and a user name.
pub struct Credential {
    pub service: String,
    pub username: String,
    pub password: String,
}

/// What is wrong with a service and user name: the service is checked
/// first; each must hold more than white space.
pub open spec fn service_username_problem(service: Seq<char>, username: Seq<char>) -> Option<
    Seq<char>,
> {
    if is_blank(service) {
        Some("service must not be empty"@)
    } else if is_blank(username) {
        Some("username must not be empty"@)
    } else {
        None
    }
}

/// What is wrong with a credential: the service and user name as above,
/// then the password, which must not be empty (white space is a password).
pub open spec fn credential_problem(c: Credential) -> Option<Seq<char>> {
    match service_username_problem(c.service@, c.username@) {
        Some(m) => Some(m),
        None => if c.password@.len() == 0 {
            Some("password must not be empty"@)
        } else {
            None
        },
    }
}

/// The result of a check: `Ok` when there is no problem, else a validation
/// error with the problem's text.
pub open spec fn check_result(problem: Option<Seq<char>>, r: Result<(), KeystoreError>) -> bool {
    match problem {
        None => r is Ok,
        Some(m) => r matches Err(KeystoreError::Validation(t)) && t@ == m,
    }
}

impl Credential {
    /// Checks a credential before it is stored.
    pub fn validate(&self) -> (r: Result<(), KeystoreError>)
        ensures
            check_result(credential_problem(*self), r),
    {
        match validate_service_username(self.service.as_str(), self.username.as_str()) {
            Err(e) => Err(e),
            Ok(()) => {
                if self.password.as_str().is_empty() {
                    Err(KeystoreError::Validation(String::from_str("password must not be empty")))
                } else {
                    Ok(())
                }
            },
        }
    }
}

/// Checks the service and user name of a read, a delete or a lookup.
pub fn validate_service_username(service: &str, username: &str) -> (r: Result<(), KeystoreError>)
    ensures
        check_result(service_username_problem(service@, username@), r),
{
    if str_is_blank(service) {
        return Err(KeystoreError::Validation(String::from_str("service must not be empty")));
    }
    if str_is_blank(username) {
        return Err(KeystoreError::Validation(String::from_str("username must not be empty")));
    }
    Ok(())
}

/// What the keychain answered when asked for a password.
pub enum PasswordLookup {
    /// It holds a password.
    Found,
    /// It holds no entry for the service and user name.
    NoEntry,
    /// It failed; the text of its error.
    Failed(String),
}

/// Whether a credential exists, from the keychain's answer: a password
/// means yes, no entry means no, and any other answer is an error.
pub fn exists_from_lookup(answer: PasswordLookup) -> (r: Result<bool, KeystoreError>)
    ensures
        match answer {
            PasswordLookup::Found => r == Ok::<bool, KeystoreError>(true),
            PasswordLookup::NoEntry => r == Ok::<bool, KeystoreError>(false),
            PasswordLookup::Failed(m) => r matches Err(KeystoreError::Keyring(t)) && t == m,
        },
{
    match answer {
        PasswordLookup::Found => Ok(true),
        PasswordLookup::NoEntry => Ok(false),
        PasswordLookup::Failed(m) => Err(KeystoreError::Keyring(m)),
    }
}

} // verus!
