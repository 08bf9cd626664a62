use sheil::port_forward::{
    build_reply, dynamic_forward_info, find_remote_target, has_dynamic_forward_on,
    has_local_forward_on, ids_for_session, infos_for_session, local_forward_info,
    remote_forward_info, remote_listen_port, socks5_reply, socks5_start, socks5_step,
    ForwardError, ForwardInfo, ForwardKind, Socks5Action, Socks5Phase,
    REPLY_ADDRESS_TYPE_NOT_SUPPORTED, REPLY_COMMAND_NOT_SUPPORTED, REPLY_CONNECTION_REFUSED,
    REPLY_SUCCEEDED,
};

#[test]
fn test_build_reply_format() {
    let reply = build_reply(0x00);
    assert_eq!(reply.len(), 10);
    assert_eq!(reply[0], 0x05); // SOCKS version
    assert_eq!(reply[1], 0x00); // reply code
    assert_eq!(reply[2], 0x00); // reserved
    assert_eq!(reply[3], 0x01); // IPv4 address type
    assert_eq!(&reply[4..8], &[0, 0, 0, 0]);
    assert_eq!(&reply[8..10], &[0, 0]);
}

#[test]
fn test_build_reply_with_reply_code() {
    let reply = build_reply(0x05); // CONNECTION_REFUSED
    assert_eq!(reply[1], 0x05);
}

#[test]
fn test_socks5_reply_format() {
    let reply = socks5_reply(REPLY_SUCCEEDED);
    assert_eq!(reply.len(), 10);
    assert_eq!(reply[0], 0x05);
    assert_eq!(reply[1], 0x00);
    assert_eq!(reply[2], 0x00);
    assert_eq!(reply[3], 0x01);
}

#[test]
fn test_socks5_reply_with_error_code() {
    let reply = socks5_reply(REPLY_CONNECTION_REFUSED);
    assert_eq!(reply[1], 0x05);
}

#[test]
fn test_forward_error_conversion() {
    let err = ForwardError::SessionNotFound("test-session".to_string());
    let s: String = err.message();
    assert!(s.contains("session not found"));
    assert!(s.contains("test-session"));
}

#[test]
fn test_forward_error_duplicate() {
    let err = ForwardError::DuplicateForward("127.0.0.1".to_string(), 8080);
    let s: String = err.message();
    assert!(s.contains("127.0.0.1"));
    assert!(s.contains("8080"));
}

#[test]
fn test_forward_error_forwarding_disabled() {
    let err = ForwardError::ForwardingDisabled;
    let s: String = err.message();
    assert!(s.contains("AllowTcpForwarding"));
}

#[test]
fn test_forward_error_socks5_protocol() {
    let err = ForwardError::Socks5Protocol("unsupported version: 4".to_string());
    let s: String = err.message();
    assert!(s.contains("unsupported version: 4"));
}

#[test]
fn test_forward_error_ssh() {
    let err = ForwardError::Ssh("connection lost".to_string());
    let s: String = err.message();
    assert!(s.contains("connection lost"));
}

#[test]
fn test_forward_error_io() {
    let err = ForwardError::Io("No such file or directory (os error 2)".to_string());
    let s: String = err.message();
    assert!(!s.is_empty());
}

#[test]
fn test_forward_error_forward_not_found() {
    let err = ForwardError::ForwardNotFound("fw-123".to_string());
    let s: String = err.message();
    assert!(s.contains("fw-123"));
}

#[test]
fn forward_error_texts_exactly() {
    assert_eq!(
        ForwardError::DuplicateForward("0.0.0.0".into(), 22).message(),
        "a forward already exists for 0.0.0.0:22"
    );
    assert_eq!(ForwardError::Io("x".into()).message(), "I/O error: x");
}

#[test]
fn labels() {
    let l = local_forward_info("a".into(), "s".into(), "127.0.0.1".into(), 8080, "db".into(), 5432);
    assert_eq!(l.label, "127.0.0.1:8080 \u{2192} db:5432");
    let r = remote_forward_info("b".into(), "s".into(), "0.0.0.0".into(), 9000, "localhost".into(), 3000);
    assert_eq!(r.label, "0.0.0.0:9000 \u{2190} localhost:3000");
    let d = dynamic_forward_info("c".into(), "t".into(), "127.0.0.1".into(), 1080);
    assert_eq!(d.label, "127.0.0.1:1080 (SOCKS5)");
    assert!(matches!(d.kind, ForwardKind::Dynamic { local_port: 1080, .. }));
}

#[test]
fn remote_port_choice() {
    assert_eq!(remote_listen_port(0, 9000), 9000);
    assert_eq!(remote_listen_port(40123, 0), 40123);
    assert_eq!(remote_listen_port(70000, 1), 65535);
}

fn sample() -> Vec<ForwardInfo> {
    vec![
        local_forward_info("l1".into(), "s1".into(), "127.0.0.1".into(), 8080, "db".into(), 5432),
        remote_forward_info("r1".into(), "s1".into(), "0.0.0.0".into(), 9000, "web".into(), 80),
        dynamic_forward_info("d1".into(), "s2".into(), "127.0.0.1".into(), 1080),
        remote_forward_info("r2".into(), "s2".into(), "0.0.0.0".into(), 9000, "api".into(), 81),
    ]
}

#[test]
fn lookups_over_active_tunnels() {
    let infos = sample();
    assert!(has_local_forward_on(&infos, 8080));
    assert!(!has_local_forward_on(&infos, 1080));
    assert!(has_dynamic_forward_on(&infos, 1080));
    assert_eq!(ids_for_session(&infos, "s1"), vec!["l1".to_string(), "r1".to_string()]);
    assert_eq!(infos_for_session(&infos, Some("s2")).len(), 2);
    assert_eq!(infos_for_session(&infos, None).len(), 4);
    assert_eq!(find_remote_target(&infos, "s2", 9000), Some(("api".to_string(), 81)));
    assert_eq!(find_remote_target(&infos, "s1", 9001), None);
}

fn read_of(a: Socks5Action) -> (usize, Socks5Phase) {
    match a {
        Socks5Action::Read { len, phase } => (len, phase),
        _ => panic!("expected a read"),
    }
}

#[test]
fn socks5_handshake_for_a_domain() {
    let (len, phase) = read_of(socks5_start());
    assert_eq!(len, 2);
    let (len, phase) = read_of(socks5_step(phase, &[5, 1]));
    assert_eq!(len, 1);
    let (len, phase) = match socks5_step(phase, &[0]) {
        Socks5Action::WriteThenRead { reply, len, phase } => {
            assert_eq!(reply, vec![5, 0]);
            (len, phase)
        }
        _ => panic!("expected the method reply"),
    };
    assert_eq!(len, 4);
    let (len, phase) = read_of(socks5_step(phase, &[5, 1, 0, 3]));
    assert_eq!(len, 1);
    let (len, phase) = read_of(socks5_step(phase, &[11]));
    assert_eq!(len, 11);
    let (len, phase) = read_of(socks5_step(phase, b"example.com"));
    assert_eq!(len, 2);
    match socks5_step(phase, &[0x01, 0xBB]) {
        Socks5Action::Done { host, port } => {
            assert_eq!(host, "example.com");
            assert_eq!(port, 443);
        }
        _ => panic!("expected the target"),
    }
}

#[test]
fn socks5_addresses_and_failures() {
    let (_, phase) = read_of(socks5_step(Socks5Phase::Header, &[5, 1, 0, 1]));
    let (_, phase) = read_of(socks5_step(phase, &[10, 0, 0, 7]));
    assert!(matches!(phase, Socks5Phase::Port { ref host } if host == "10.0.0.7"));
    let (_, phase) = read_of(socks5_step(Socks5Phase::Header, &[5, 1, 0, 4]));
    let mut v6 = [0u8; 16];
    v6[15] = 1;
    v6[0] = 0xfe;
    v6[1] = 0x80;
    let (_, phase) = read_of(socks5_step(phase, &v6));
    assert!(matches!(phase, Socks5Phase::Port { ref host }
        if host == "fe80:0000:0000:0000:0000:0000:0000:0001"));
    match socks5_step(Socks5Phase::Greeting, &[4, 1]) {
        Socks5Action::Fail { notice: None, error } => {
            assert_eq!(error.message(), "SOCKS5 protocol error: unsupported SOCKS version: 4")
        }
        _ => panic!("expected a failure"),
    }
    match socks5_step(Socks5Phase::Header, &[5, 2, 0, 1]) {
        Socks5Action::Fail { notice: Some(n), error } => {
            assert_eq!(n[1], REPLY_COMMAND_NOT_SUPPORTED);
            assert_eq!(error.message(), "SOCKS5 protocol error: unsupported command: 2");
        }
        _ => panic!("expected a failure"),
    }
    match socks5_step(Socks5Phase::Header, &[5, 1, 0, 9]) {
        Socks5Action::Fail { notice: Some(n), error } => {
            assert_eq!(n[1], REPLY_ADDRESS_TYPE_NOT_SUPPORTED);
            assert_eq!(error.message(), "SOCKS5 protocol error: unsupported address type: 9");
        }
        _ => panic!("expected a failure"),
    }
    match socks5_step(Socks5Phase::Header, &[4, 1, 0, 1]) {
        Socks5Action::Fail { notice: None, error } => {
            assert_eq!(error.message(), "SOCKS5 protocol error: version mismatch in request")
        }
        _ => panic!("expected a failure"),
    }
}
