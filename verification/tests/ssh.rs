use russh::keys::ssh_key::private::Ed25519Keypair;
use russh::keys::ssh_key::LineEnding;
use russh::keys::{HashAlg, PrivateKey};
use sheil::ssh::{
    host_key_verdict, parse_private_key, KeyAlgorithm, try_parse_key_info, verdict_accepts, HostKeyVerdict,
    SshError,
};

/// An Ed25519 key in OpenSSH form, made here from a fixed seed, with its
/// SHA-256 fingerprint; `passphrase` encrypts it.
fn test_key(passphrase: Option<&str>) -> (String, String) {
    let key = PrivateKey::from(Ed25519Keypair::from_seed(&[7u8; 32]));
    let fingerprint = key.fingerprint(HashAlg::Sha256).to_string();
    let key = match passphrase {
        Some(p) => key.encrypt(&mut rand::rng(), p).unwrap(),
        None => key,
    };
    (key.to_openssh(LineEnding::LF).unwrap().to_string(), fingerprint)
}

#[test]
fn parse_ed25519_openssh_key() {
    let (text, _) = test_key(None);
    let key = parse_private_key(&text, None).ok().unwrap();
    assert_eq!(key.algorithm, "ssh-ed25519");
    assert!(!key.encrypted);
    assert!(matches!(key.kind, KeyAlgorithm::Ed25519));
}

#[test]
fn parse_invalid_key_data() {
    assert!(parse_private_key("not a key", None).is_err());
}

#[test]
fn fingerprint_format() {
    let (text, fingerprint) = test_key(None);
    let key = parse_private_key(&text, None).ok().unwrap();
    assert!(key.fingerprint.starts_with("SHA256:"));
    assert_eq!(key.fingerprint, fingerprint);
}

#[test]
fn fingerprint_is_consistent() {
    let (text, _) = test_key(None);
    let a = parse_private_key(&text, None).ok().unwrap();
    let b = parse_private_key(&text, None).ok().unwrap();
    assert_eq!(a.fingerprint, b.fingerprint);
}

#[test]
fn encrypted_keys_need_their_passphrase() {
    let (text, fingerprint) = test_key(Some("s3cret"));
    match parse_private_key(&text, None) {
        Err(e) => assert_eq!(e.message(), "Key error: key is encrypted but no passphrase provided"),
        Ok(_) => panic!("expected an error"),
    }
    match parse_private_key(&text, Some("wrong")) {
        Err(e) => assert!(e.message().starts_with("Key error: failed to decrypt key: ")),
        Ok(_) => panic!("expected an error"),
    }
    let key = parse_private_key(&text, Some("s3cret")).ok().unwrap();
    assert_eq!(key.fingerprint, fingerprint);
    assert!(!key.encrypted);
}

#[test]
fn key_info_for_listing() {
    let (text, fingerprint) = test_key(None);
    assert_eq!(try_parse_key_info(&text), Some(("ssh-ed25519".to_string(), fingerprint)));
    let (encrypted, _) = test_key(Some("s3cret"));
    assert_eq!(
        try_parse_key_info(&encrypted),
        Some(("ssh-ed25519".to_string(), "encrypted".to_string()))
    );
    assert_eq!(try_parse_key_info("garbage"), None);
}

#[test]
fn ssh_error_display() {
    assert_eq!(SshError::AuthFailed.message(), "Authentication failed");
    assert_eq!(SshError::SessionNotFound("s1".into()).message(), "Session not found: s1");
    assert_eq!(SshError::Encryption("bad key".into()).message(), "Encryption error: bad key");
}

#[test]
fn ssh_error_into_string() {
    let e: String = SshError::ChannelNotFound("c1".into()).message();
    assert_eq!(e, "Channel not found: c1");
}

#[test]
fn ssh_error_ssh_variant() {
    assert!(SshError::Ssh("IO error: refused".into()).message().contains("refused"));
}

#[test]
fn ssh_error_key_variant() {
    assert_eq!(SshError::Key("parse failure".into()).message(), "Key error: parse failure");
}

#[test]
fn ssh_error_unsupported_key_type() {
    assert_eq!(
        SshError::UnsupportedKeyType("dsa".into()).message(),
        "Unsupported key algorithm: dsa"
    );
}

#[test]
fn ssh_error_session_not_found_roundtrip() {
    let s: String = SshError::SessionNotFound("abc".into()).message();
    assert_eq!(s, "Session not found: abc");
}

#[test]
fn ssh_error_channel_not_found_roundtrip() {
    let s: String = SshError::ChannelNotFound("xyz".into()).message();
    assert_eq!(s, "Channel not found: xyz");
}

#[test]
fn trust_on_first_use() {
    let v = host_key_verdict(&None, "SHA256:aaa");
    assert!(matches!(v, HostKeyVerdict::TrustNew));
    assert!(verdict_accepts(&v));
    let v = host_key_verdict(&Some("SHA256:aaa".to_string()), "SHA256:aaa");
    assert!(matches!(v, HostKeyVerdict::Trusted));
    assert!(verdict_accepts(&v));
    let v = host_key_verdict(&Some("SHA256:aaa".to_string()), "SHA256:bbb");
    assert!(matches!(v, HostKeyVerdict::Mismatch));
    assert!(!verdict_accepts(&v));
}

#[test]
fn zero_seconds_mean_none() {
    assert_eq!(sheil::ssh::effective_seconds(Some(0)), None);
    assert_eq!(sheil::ssh::effective_seconds(Some(30)), Some(30));
    assert_eq!(sheil::ssh::effective_seconds(None), None);
}

#[test]
fn other_key_algorithms_are_refused() {
    let algorithm = russh::keys::Algorithm::Ecdsa { curve: russh::keys::EcdsaCurve::NistP256 };
    let key = PrivateKey::random(&mut rand::rng(), algorithm).unwrap();
    let text = key.to_openssh(LineEnding::LF).unwrap().to_string();
    match parse_private_key(&text, None) {
        Err(e) => assert_eq!(e.message(), "Unsupported key algorithm: ecdsa-sha2-nistp256"),
        Ok(_) => panic!("expected an error"),
    }
    let (listed_type, _) = try_parse_key_info(&text).unwrap();
    assert_eq!(listed_type, "ecdsa-sha2-nistp256");
}
