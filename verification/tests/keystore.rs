use sheil::keystore::{
    exists_from_lookup, validate_service_username, Credential, KeystoreError, PasswordLookup,
};

fn test_service() -> String {
    "dev.hrdtr.sheil.test".into()
}

fn test_username() -> String {
    "test-user@localhost".into()
}

fn test_password() -> String {
    "test-secret-123".into()
}

fn message(r: Result<(), KeystoreError>) -> String {
    match r {
        Err(e) => e.message(),
        Ok(()) => panic!("expected an error"),
    }
}

#[test]
fn store_empty_service_fails() {
    let cred = Credential { service: String::new(), username: test_username(), password: test_password() };
    let result = cred.validate();
    assert!(result.is_err());
    assert!(message(result).contains("service must not be empty"));
}

#[test]
fn store_whitespace_only_service_fails() {
    let cred = Credential { service: "   ".into(), username: test_username(), password: test_password() };
    let result = cred.validate();
    assert!(result.is_err());
    assert!(message(result).contains("service must not be empty"));
}

#[test]
fn store_empty_username_fails() {
    let cred = Credential { service: test_service(), username: String::new(), password: test_password() };
    let result = cred.validate();
    assert!(result.is_err());
    assert!(message(result).contains("username must not be empty"));
}

#[test]
fn store_empty_password_fails() {
    let cred = Credential { service: test_service(), username: test_username(), password: String::new() };
    let result = cred.validate();
    assert!(result.is_err());
    assert!(message(result).contains("password must not be empty"));
}

#[test]
fn retrieve_empty_service_fails() {
    let result = validate_service_username(&String::new(), &test_username());
    assert!(result.is_err());
}

#[test]
fn retrieve_empty_username_fails() {
    let result = validate_service_username(&test_service(), &String::new());
    assert!(result.is_err());
}

#[test]
fn delete_empty_service_fails() {
    let result = validate_service_username(&String::new(), &test_username());
    assert!(result.is_err());
}

#[test]
fn credential_exists_empty_service_fails() {
    let result = validate_service_username(&String::new(), &test_username());
    assert!(result.is_err());
}

#[test]
fn valid_credentials_pass_and_messages_are_exact() {
    let cred = Credential { service: test_service(), username: test_username(), password: " ".into() };
    assert!(cred.validate().is_ok());
    assert!(validate_service_username("svc", "user").is_ok());
    assert_eq!(
        message(validate_service_username(" ", "")),
        "validation error: service must not be empty"
    );
    assert_eq!(KeystoreError::Keyring("denied".into()).message(), "keyring error: denied");
}

#[test]
fn lookup_answers() {
    assert_eq!(exists_from_lookup(PasswordLookup::Found).ok(), Some(true));
    assert_eq!(exists_from_lookup(PasswordLookup::NoEntry).ok(), Some(false));
    match exists_from_lookup(PasswordLookup::Failed("locked".into())) {
        Err(e) => assert_eq!(e.message(), "keyring error: locked"),
        Ok(_) => panic!("expected an error"),
    }
}
