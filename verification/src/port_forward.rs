//! Port forwarding: tunnel descriptions and labels, the checks and lookups
//! over the active tunnels, the SOCKS5 handshake (RFC 1928) as a state
//! machine over the bytes read, and error texts.
use vstd::prelude::*;
use vstd::utf8::{decode_utf8, valid_utf8};
use crate::text::{concat2, decimal, push_decimal, push_str_chars, str_eq, string_from_chars};

verus! {

/// The kind of a tunnel.
pub enum ForwardKind {
    Local { local_addr: String, local_port: u16, remote_host: String, remote_port: u16 },
    Remote {
        remote_listen_addr: String,
        remote_listen_port: u16,
        target_host: String,
        target_port: u16,
    },
    Dynamic { local_addr: String, local_port: u16 },
}

/// An active tunnel as shown to the frontend.
pub struct ForwardInfo {
    pub id: String,
    pub session_id: String,
    pub kind: ForwardKind,
    pub label: String,
}

/// Why a forwarding command failed.
pub enum ForwardError {
    Ssh(String),
    Io(String),
    SessionNotFound(String),
    ForwardNotFound(String),
    DuplicateForward(String, u16),
    Socks5Protocol(String),
    ForwardingDisabled,
}

impl ForwardError {
    /// The text the error displays as.
    pub open spec fn text(&self) -> Seq<char> {
        match self {
            ForwardError::Ssh(m) => "SSH error: "@ + m@,
            ForwardError::Io(m) => "I/O error: "@ + m@,
            ForwardError::SessionNotFound(m) => "session not found: "@ + m@,
            ForwardError::ForwardNotFound(m) => "forward not found: "@ + m@,
            ForwardError::DuplicateForward(a, p) => "a forward already exists for "@ + a@ + ":"@
                + decimal(*p as nat),
            ForwardError::Socks5Protocol(m) => "SOCKS5 protocol error: "@ + m@,
            ForwardError::ForwardingDisabled =>
                "server rejected TCP forwarding (AllowTcpForwarding may be disabled)"@,
        }
    }

    /// The text the error displays as.
    pub fn message(&self) -> (r: String)
        ensures
            r@ == self.text(),
    {
        match self {
            ForwardError::Ssh(m) => concat2("SSH error: ", m.as_str()),
            ForwardError::Io(m) => concat2("I/O error: ", m.as_str()),
            ForwardError::SessionNotFound(m) => concat2("session not found: ", m.as_str()),
            ForwardError::ForwardNotFound(m) => concat2("forward not found: ", m.as_str()),
            ForwardError::DuplicateForward(a, p) => {
                let mut out: Vec<char> = Vec::new();
                push_str_chars(&mut out, "a forward already exists for ");
                push_str_chars(&mut out, a.as_str());
                push_str_chars(&mut out, ":");
                push_decimal(&mut out, *p as u64);
                string_from_chars(out.as_slice())
            },
            ForwardError::Socks5Protocol(m) => concat2("SOCKS5 protocol error: ", m.as_str()),
            ForwardError::ForwardingDisabled => String::from_str(
                "server rejected TCP forwarding (AllowTcpForwarding may be disabled)",
            ),
        }
    }
}

/// `addr:port`.
pub open spec fn endpoint(addr: Seq<char>, port: u16) -> Seq<char> {
    addr + ":"@ + decimal(port as nat)
}

fn push_endpoint(out: &mut Vec<char>, addr: &str, port: u16)
    ensures
        final(out)@ == old(out)@ + endpoint(addr@, port),
{
    push_str_chars(out, addr);
    push_str_chars(out, ":");
    push_decimal(out, port as u64);
}

/// A local tunnel: `local_addr:local_port` forwarded to
/// `remote_host:remote_port`, labelled `"<local> → <remote>"`.
pub fn local_forward_info(
    id: String,
    session_id: String,
    local_addr: String,
    local_port: u16,
    remote_host: String,
    remote_port: u16,
) -> (r: ForwardInfo)
    ensures
        r.id == id,
        r.session_id == session_id,
        r.kind == (ForwardKind::Local { local_addr, local_port, remote_host, remote_port }),
        r.label@ == endpoint(local_addr@, local_port) + " \u{2192} "@ + endpoint(
            remote_host@,
            remote_port,
        ),
{
    let mut out: Vec<char> = Vec::new();
    push_endpoint(&mut out, local_addr.as_str(), local_port);
    push_str_chars(&mut out, " \u{2192} ");
    push_endpoint(&mut out, remote_host.as_str(), remote_port);
    proof {
        assert(out@ =~= endpoint(local_addr@, local_port) + " \u{2192} "@ + endpoint(
            remote_host@,
            remote_port,
        ));
    }
    let label = string_from_chars(out.as_slice());
    ForwardInfo {
        id,
        session_id,
        kind: ForwardKind::Local { local_addr, local_port, remote_host, remote_port },
        label,
    }
}

/// The port a remote forward listens on: the one the server allocated when
/// it reports one (saturating at 65535), else the one requested.
pub fn remote_listen_port(allocated: u32, requested: u16) -> (r: u16)
    ensures
        allocated == 0 ==> r == requested,
        0 < allocated <= 65535 ==> r == allocated,
        allocated > 65535 ==> r == 65535,
{
    if allocated > 0 {
        if allocated <= 65535 {
            allocated as u16
        } else {
            65535
        }
    } else {
        requested
    }
}

/// A remote tunnel: the server listens on `listen_addr:listen_port` and
/// connections are forwarded to `target_host:target_port`, labelled
/// `"<listen> ← <target>"`.
pub fn remote_forward_info(
    id: String,
    session_id: String,
    listen_addr: String,
    listen_port: u16,
    target_host: String,
    target_port: u16,
) -> (r: ForwardInfo)
    ensures
        r.id == id,
        r.session_id == session_id,
        r.kind == (ForwardKind::Remote {
            remote_listen_addr: listen_addr,
            remote_listen_port: listen_port,
            target_host,
            target_port,
        }),
        r.label@ == endpoint(listen_addr@, listen_port) + " \u{2190} "@ + endpoint(
            target_host@,
            target_port,
        ),
{
    let mut out: Vec<char> = Vec::new();
    push_endpoint(&mut out, listen_addr.as_str(), listen_port);
    push_str_chars(&mut out, " \u{2190} ");
    push_endpoint(&mut out, target_host.as_str(), target_port);
    proof {
        assert(out@ =~= endpoint(listen_addr@, listen_port) + " \u{2190} "@ + endpoint(
            target_host@,
            target_port,
        ));
    }
    let label = string_from_chars(out.as_slice());
    ForwardInfo {
        id,
        session_id,
        kind: ForwardKind::Remote {
            remote_listen_addr: listen_addr,
            remote_listen_port: listen_port,
            target_host,
            target_port,
        },
        label,
    }
}

/// A dynamic (SOCKS5) tunnel on `local_addr:local_port`, labelled
/// `"<local> (SOCKS5)"`.
pub fn dynamic_forward_info(id: String, session_id: String, local_addr: String, local_port: u16) -> (r:
    ForwardInfo)
    ensures
        r.id == id,
        r.session_id == session_id,
        r.kind == (ForwardKind::Dynamic { local_addr, local_port }),
        r.label@ == endpoint(local_addr@, local_port) + " (SOCKS5)"@,
{
    let mut out: Vec<char> = Vec::new();
    push_endpoint(&mut out, local_addr.as_str(), local_port);
    push_str_chars(&mut out, " (SOCKS5)");
    let label = string_from_chars(out.as_slice());
    ForwardInfo { id, session_id, kind: ForwardKind::Dynamic { local_addr, local_port }, label }
}

/// A local tunnel on that local port.
pub open spec fn is_local_on(k: ForwardKind, port: u16) -> bool {
    k matches ForwardKind::Local { local_port, .. } && local_port == port
}

/// A dynamic tunnel on that local port.
pub open spec fn is_dynamic_on(k: ForwardKind, port: u16) -> bool {
    k matches ForwardKind::Dynamic { local_port, .. } && local_port == port
}

/// Among a session's tunnels, one is already a local tunnel on `port`.
pub fn has_local_forward_on(infos: &Vec<ForwardInfo>, port: u16) -> (r: bool)
    ensures
        r == exists|i: int| 0 <= i < infos@.len() && is_local_on(#[trigger] infos@[i].kind, port),
{
    let mut i: usize = 0;
    while i < infos.len()
        invariant
            i <= infos.len(),
            forall|k: int| 0 <= k < i ==> !is_local_on(#[trigger] infos@[k].kind, port),
        decreases infos.len() - i,
    {
        match &infos[i].kind {
            ForwardKind::Local { local_port, .. } => {
                if *local_port == port {
                    return true;
                }
            },
            _ => {},
        }
        i += 1;
    }
    false
}

/// Among a session's tunnels, one is already a dynamic tunnel on `port`.
pub fn has_dynamic_forward_on(infos: &Vec<ForwardInfo>, port: u16) -> (r: bool)
    ensures
        r == exists|i: int| 0 <= i < infos@.len() && is_dynamic_on(#[trigger] infos@[i].kind, port),
{
    let mut i: usize = 0;
    while i < infos.len()
        invariant
            i <= infos.len(),
            forall|k: int| 0 <= k < i ==> !is_dynamic_on(#[trigger] infos@[k].kind, port),
        decreases infos.len() - i,
    {
        match &infos[i].kind {
            ForwardKind::Dynamic { local_port, .. } => {
                if *local_port == port {
                    return true;
                }
            },
            _ => {},
        }
        i += 1;
    }
    false
}

/// A copy of a tunnel description.
pub fn clone_kind(k: &ForwardKind) -> (r: ForwardKind)
    ensures
        r == *k,
{
    match k {
        ForwardKind::Local { local_addr, local_port, remote_host, remote_port } => ForwardKind::Local {
            local_addr: local_addr.clone(),
            local_port: *local_port,
            remote_host: remote_host.clone(),
            remote_port: *remote_port,
        },
        ForwardKind::Remote { remote_listen_addr, remote_listen_port, target_host, target_port } =>
            ForwardKind::Remote {
            remote_listen_addr: remote_listen_addr.clone(),
            remote_listen_port: *remote_listen_port,
            target_host: target_host.clone(),
            target_port: *target_port,
        },
        ForwardKind::Dynamic { local_addr, local_port } => ForwardKind::Dynamic {
            local_addr: local_addr.clone(),
            local_port: *local_port,
        },
    }
}

/// A copy of a tunnel.
pub fn clone_info(i: &ForwardInfo) -> (r: ForwardInfo)
    ensures
        r == *i,
{
    ForwardInfo {
        id: i.id.clone(),
        session_id: i.session_id.clone(),
        kind: clone_kind(&i.kind),
        label: i.label.clone(),
    }
}

/// The tunnel belongs to the session filter (`None` keeps all).
pub open spec fn in_session(info: ForwardInfo, session: Option<Seq<char>>) -> bool {
    match session {
        None => true,
        Some(s) => info.session_id@ == s,
    }
}

/// The session filter as a predicate.
pub open spec fn session_filter(session: Option<Seq<char>>) -> spec_fn(ForwardInfo) -> bool {
    |i: ForwardInfo| in_session(i, session)
}

/// The filter a session id selects.
pub open spec fn session_of(session_id: Option<&str>) -> Option<Seq<char>> {
    match session_id {
        Some(s) => Some(s@),
        None => None,
    }
}

/// The tunnels of a session (all tunnels when no session is named), in the
/// order given.
pub fn infos_for_session(infos: &Vec<ForwardInfo>, session_id: Option<&str>) -> (r: Vec<
    ForwardInfo,
>)
    ensures
        r@ == infos@.filter(session_filter(session_of(session_id))),
{
    let ghost pred = session_filter(session_of(session_id));
    let mut r: Vec<ForwardInfo> = Vec::new();
    let mut k: usize = 0;
    while k < infos.len()
        invariant
            k <= infos.len(),
            r@ == infos@.take(k as int).filter(pred),
            pred == session_filter(session_of(session_id)),
        decreases infos.len() - k,
    {
        let keep = match session_id {
            None => true,
            Some(s) => str_eq(infos[k].session_id.as_str(), s),
        };
        proof {
            reveal_with_fuel(Seq::<_>::filter, 1);
            assert(infos@.take(k + 1).drop_last() =~= infos@.take(k as int));
        }
        if keep {
            r.push(clone_info(&infos[k]));
        }
        k += 1;
    }
    assert(infos@.take(infos.len() as int) =~= infos@);
    r
}

/// The ids of a session's tunnels, in the order given.
pub fn ids_for_session(infos: &Vec<ForwardInfo>, session_id: &str) -> (r: Vec<String>)
    ensures
        r@ == infos@.filter(|i: ForwardInfo| i.session_id@ == session_id@).map_values(
            |i: ForwardInfo| i.id,
        ),
{
    let ghost pred = |i: ForwardInfo| i.session_id@ == session_id@;
    let mut r: Vec<String> = Vec::new();
    let mut k: usize = 0;
    while k < infos.len()
        invariant
            k <= infos.len(),
            r@ == infos@.take(k as int).filter(pred).map_values(|i: ForwardInfo| i.id),
            pred == (|i: ForwardInfo| i.session_id@ == session_id@),
        decreases infos.len() - k,
    {
        let keep = str_eq(infos[k].session_id.as_str(), session_id);
        proof {
            reveal_with_fuel(Seq::<_>::filter, 1);
            assert(infos@.take(k + 1).drop_last() =~= infos@.take(k as int));
        }
        if keep {
            r.push(infos[k].id.clone());
            proof {
                assert(infos@.take(k + 1).filter(pred) == infos@.take(k as int).filter(pred).push(
                    infos@[k as int],
                ));
                assert(r@ =~= infos@.take(k + 1).filter(pred).map_values(|i: ForwardInfo| i.id));
            }
        } else {
            proof {
                assert(infos@.take(k + 1).filter(pred) == infos@.take(k as int).filter(pred));
            }
        }
        k += 1;
    }
    assert(infos@.take(infos.len() as int) =~= infos@);
    r
}

/// The tunnel is a remote tunnel of the session listening on the port a
/// forwarded connection arrived at.
pub open spec fn remote_matches(info: ForwardInfo, session: Seq<char>, port: u32) -> bool {
    info.session_id@ == session && (info.kind matches ForwardKind::Remote {
        remote_listen_port,
        ..
    } && remote_listen_port as u32 == port)
}

/// Where a connection arriving on a remote forward goes: the target of the
/// first remote tunnel of the session that listens on the port the server
/// reports; `None` when there is no such tunnel.
pub fn find_remote_target(infos: &Vec<ForwardInfo>, session_id: &str, connected_port: u32) -> (r:
    Option<(String, u16)>)
    ensures
        match r {
            None => forall|k: int|
                0 <= k < infos@.len() ==> !remote_matches(
                    #[trigger] infos@[k],
                    session_id@,
                    connected_port,
                ),
            Some((h, p)) => exists|k: int|
                0 <= k < infos@.len() && remote_matches(
                    #[trigger] infos@[k],
                    session_id@,
                    connected_port,
                ) && (forall|j: int|
                    0 <= j < k ==> !remote_matches(infos@[j], session_id@, connected_port))
                    && (infos@[k].kind matches ForwardKind::Remote { target_host, target_port, .. }
                    && target_host == h && target_port == p),
        },
{
    let mut k: usize = 0;
    while k < infos.len()
        invariant
            k <= infos.len(),
            forall|j: int|
                0 <= j < k ==> !remote_matches(#[trigger] infos@[j], session_id@, connected_port),
        decreases infos.len() - k,
    {
        if str_eq(infos[k].session_id.as_str(), session_id) {
            match &infos[k].kind {
                ForwardKind::Remote { remote_listen_port, target_host, target_port, .. } => {
                    if *remote_listen_port as u32 == connected_port {
                        let r = (target_host.clone(), *target_port);
                        assert(remote_matches(infos@[k as int], session_id@, connected_port));
                        return Some(r);
                    }
                },
                _ => {},
            }
        }
        k += 1;
    }
    None
}

/// The tunnel that keeps the connection bridges of a remote forward: the
/// first remote tunnel of the session.
pub fn bridge_owner(infos: &Vec<ForwardInfo>, session_id: &str) -> (r: Option<usize>)
    ensures
        match r {
            None => forall|k: int|
                0 <= k < infos@.len() ==> !(infos@[k].session_id@ == session_id@ && (
                #[trigger] infos@[k]).kind is Remote),
            Some(i) => i < infos@.len() && infos@[i as int].session_id@ == session_id@
                && infos@[i as int].kind is Remote && forall|k: int|
                0 <= k < i ==> !(infos@[k].session_id@ == session_id@ && (
                #[trigger] infos@[k]).kind is Remote),
        },
{
    let mut k: usize = 0;
    while k < infos.len()
        invariant
            k <= infos.len(),
            forall|j: int|
                0 <= j < k ==> !(infos@[j].session_id@ == session_id@ && (
                #[trigger] infos@[j]).kind is Remote),
        decreases infos.len() - k,
    {
        if str_eq(infos[k].session_id.as_str(), session_id) {
            if let ForwardKind::Remote { .. } = &infos[k].kind {
                return Some(k);
            }
        }
        k += 1;
    }
    None
}

// ── SOCKS5 (RFC 1928) ───────────────────────────────────────────────────────

/// SOCKS5 reply code: succeeded.
pub const REPLY_SUCCEEDED: u8 = 0x00;

/// SOCKS5 reply code: connection refused.
pub const REPLY_CONNECTION_REFUSED: u8 = 0x05;

/// SOCKS5 reply code: command not supported.
pub const REPLY_COMMAND_NOT_SUPPORTED: u8 = 0x07;

/// SOCKS5 reply code: address type not supported.
pub const REPLY_ADDRESS_TYPE_NOT_SUPPORTED: u8 = 0x08;

/// A SOCKS5 reply with the given code and the bound address 0.0.0.0:0.
pub open spec fn reply_bytes(code: u8) -> Seq<u8> {
    seq![0x05u8, code, 0x00u8, 0x01u8, 0u8, 0u8, 0u8, 0u8, 0u8, 0u8]
}

/// Builds a SOCKS5 reply with BND.ADDR = 0.0.0.0:0.
pub fn build_reply(reply_code: u8) -> (r: Vec<u8>)
    ensures
        r@ == reply_bytes(reply_code),
{
    let r = vec![0x05u8, reply_code, 0x00, 0x01, 0, 0, 0, 0, 0, 0];
    assert(r@ =~= reply_bytes(reply_code));
    r
}

/// Builds the reply sent after a CONNECT; the bound address is always
/// reported as 0.0.0.0:0 since the connection is tunnelled.
pub fn socks5_reply(reply_code: u8) -> (r: Vec<u8>)
    ensures
        r@ == reply_bytes(reply_code),
{
    let mut reply = vec![0x05u8, reply_code, 0x00];
    reply.push(0x01);
    reply.push(0);
    reply.push(0);
    reply.push(0);
    reply.push(0);
    reply.push(0);
    reply.push(0);
    assert(reply@ =~= reply_bytes(reply_code));
    reply
}

/// Where the handshake stands: which bytes it waits for.
pub enum Socks5Phase {
    /// Version and number of methods (2 bytes).
    Greeting,
    /// The offered methods (as many bytes as announced).
    Methods,
    /// Version, command, reserved byte, address type (4 bytes).
    Header,
    /// An IPv4 address (4 bytes).
    Ipv4,
    /// The length of a domain name (1 byte).
    DomainLength,
    /// A domain name (as many bytes as announced).
    Domain,
    /// An IPv6 address (16 bytes).
    Ipv6,
    /// The port (2 bytes, big-endian) of the target `host`.
    Port { host: String },
}

/// What the handshake does next.
pub enum Socks5Action {
    /// Read exactly `len` bytes and pass them to `socks5_step` with `phase`.
    Read { len: usize, phase: Socks5Phase },
    /// Send `reply`, then read exactly `len` bytes for `phase`.
    WriteThenRead { reply: Vec<u8>, len: usize, phase: Socks5Phase },
    /// The client asks to connect to `host:port`.
    Done { host: String, port: u16 },
    /// The handshake fails; `notice`, when present, is sent first (errors on
    /// sending it are ignored).
    Fail { notice: Option<Vec<u8>>, error: ForwardError },
}

/// The handshake starts by reading the greeting.
pub fn socks5_start() -> (r: Socks5Action)
    ensures
        r matches Socks5Action::Read { len, phase } && len == 2 && phase is Greeting,
{
    Socks5Action::Read { len: 2, phase: Socks5Phase::Greeting }
}

/// How many bytes a phase consumes, when fixed.
pub open spec fn fixed_len(phase: Socks5Phase) -> Option<nat> {
    match phase {
        Socks5Phase::Greeting => Some(2),
        Socks5Phase::Header => Some(4),
        Socks5Phase::Ipv4 => Some(4),
        Socks5Phase::DomainLength => Some(1),
        Socks5Phase::Ipv6 => Some(16),
        Socks5Phase::Port { .. } => Some(2),
        _ => None,
    }
}

/// Dotted decimal of four bytes.
pub open spec fn ipv4_text(b: Seq<u8>) -> Seq<char> {
    decimal(b[0] as nat) + "."@ + decimal(b[1] as nat) + "."@ + decimal(b[2] as nat) + "."@
        + decimal(b[3] as nat)
}

/// Lower-case hexadecimal digit.
pub open spec fn hex_digit(d: nat) -> char {
    if d < 10 {
        (d + 48) as char
    } else {
        (d + 87) as char
    }
}

/// Two lower-case hexadecimal digits of a byte.
pub open spec fn hex2(b: u8) -> Seq<char> {
    seq![hex_digit((b / 16) as nat), hex_digit((b % 16) as nat)]
}

/// Sixteen bytes as eight colon-separated groups of four hexadecimal digits.
pub open spec fn ipv6_text(b: Seq<u8>) -> Seq<char>
    recommends
        b.len() == 16,
{
    Seq::new(8, |g: int| hex2(b[2 * g]) + hex2(b[2 * g + 1])).fold_left(
        Seq::<char>::empty(),
        |acc: Seq<char>, grp: Seq<char>| if acc.len() == 0 {
            grp
        } else {
            acc + ":"@ + grp
        },
    )
}

/// The text `String::from_utf8_lossy` gives for bytes.
pub uninterp spec fn lossy_text(bytes: Seq<u8>) -> Seq<char>;

/// Calls `String::from_utf8_lossy`: UTF-8 bytes give the text they encode;
/// other bytes give their lossy decoding.
#[verifier::external_body]
fn utf8_lossy(bytes: &[u8]) -> (r: String)
    ensures
        r@ == lossy_text(bytes@),
        valid_utf8(bytes@) ==> r@ == decode_utf8(bytes@),
{
    String::from_utf8_lossy(bytes).to_string()
}

fn hex_char(d: u8) -> (c: char)
    requires
        d < 16,
    ensures
        c == hex_digit(d as nat),
{
    if d < 10 {
        let b: u8 = d + 48;
        b as char
    } else {
        let b: u8 = d + 87;
        b as char
    }
}

fn push_hex2(out: &mut Vec<char>, b: u8)
    ensures
        final(out)@ == old(out)@ + hex2(b),
{
    out.push(hex_char(b / 16));
    out.push(hex_char(b % 16));
    assert(out@ =~= old(out)@ + hex2(b));
}

fn ipv6_string(b: &[u8]) -> (r: String)
    requires
        b@.len() == 16,
    ensures
        r@ == ipv6_text(b@),
{
    let ghost f = |g: int| hex2(b@[2 * g]) + hex2(b@[2 * g + 1]);
    let ghost join = |acc: Seq<char>, grp: Seq<char>| if acc.len() == 0 {
        grp
    } else {
        acc + ":"@ + grp
    };
    let ghost groups = Seq::new(8, f);
    let mut out: Vec<char> = Vec::new();
    let mut g: usize = 0;
    while g < 8
        invariant
            b@.len() == 16,
            g <= 8,
            groups == Seq::new(8, f),
            f == (|g: int| hex2(b@[2 * g]) + hex2(b@[2 * g + 1])),
            join == (|acc: Seq<char>, grp: Seq<char>| if acc.len() == 0 {
                grp
            } else {
                acc + ":"@ + grp
            }),
            out@ == groups.take(g as int).fold_left(Seq::<char>::empty(), join),
            g > 0 ==> out@.len() > 0,
        decreases 8 - g,
    {
        let ghost before = out@;
        if g > 0 {
            out.push(':');
        }
        push_hex2(&mut out, b[2 * g]);
        push_hex2(&mut out, b[2 * g + 1]);
        proof {
            let t = groups.take(g + 1);
            assert(t.drop_last() =~= groups.take(g as int));
            assert(t.last() == f(g as int));
            reveal_with_fuel(Seq::<_>::fold_left, 2);
            assert(t.fold_left(Seq::<char>::empty(), join) == join(
                t.drop_last().fold_left(Seq::<char>::empty(), join),
                t.last(),
            ));
            reveal_strlit(":");
            if g > 0 {
                assert(out@ =~= before + ":"@ + f(g as int));
            } else {
                assert(before.len() == 0);
                assert(out@ =~= f(g as int));
            }
        }
        g += 1;
    }
    assert(groups.take(8) =~= groups);
    string_from_chars(out.as_slice())
}

/// One step of the SOCKS5 CONNECT handshake: consumes the bytes read for
/// `phase` and says what to do next. The greeting must announce version 5;
/// the offered methods are ignored and answered with "no authentication"
/// (`05 00`); the request must have version 5, command CONNECT (else reply
/// 07) and address type IPv4, domain name or IPv6 (else reply 08); the port
/// is big-endian.
pub fn socks5_step(phase: Socks5Phase, input: &[u8]) -> (r: Socks5Action)
    requires
        fixed_len(phase) matches Some(n) ==> input@.len() == n,
    ensures
        match phase {
            Socks5Phase::Greeting => if input@[0] != 5 {
                r matches Socks5Action::Fail { notice: None, error: ForwardError::Socks5Protocol(m) }
                    && m@ == "unsupported SOCKS version: "@ + decimal(input@[0] as nat)
            } else {
                r matches Socks5Action::Read { len, phase: Socks5Phase::Methods } && len
                    == input@[1]
            },
            Socks5Phase::Methods => r matches Socks5Action::WriteThenRead {
                reply,
                len,
                phase: Socks5Phase::Header,
            } && reply@ == seq![5u8, 0u8] && len == 4,
            Socks5Phase::Header => if input@[0] != 5 {
                r matches Socks5Action::Fail { notice: None, error: ForwardError::Socks5Protocol(m) }
                    && m@ == "version mismatch in request"@
            } else if input@[1] != 1 {
                r matches Socks5Action::Fail {
                    notice: Some(rep),
                    error: ForwardError::Socks5Protocol(m),
                } && rep@ == reply_bytes(REPLY_COMMAND_NOT_SUPPORTED) && m@
                    == "unsupported command: "@ + decimal(input@[1] as nat)
            } else if input@[3] == 1 {
                r matches Socks5Action::Read { len, phase: Socks5Phase::Ipv4 } && len == 4
            } else if input@[3] == 3 {
                r matches Socks5Action::Read { len, phase: Socks5Phase::DomainLength } && len == 1
            } else if input@[3] == 4 {
                r matches Socks5Action::Read { len, phase: Socks5Phase::Ipv6 } && len == 16
            } else {
                r matches Socks5Action::Fail {
                    notice: Some(rep),
                    error: ForwardError::Socks5Protocol(m),
                } && rep@ == reply_bytes(REPLY_ADDRESS_TYPE_NOT_SUPPORTED) && m@
                    == "unsupported address type: "@ + decimal(input@[3] as nat)
            },
            Socks5Phase::Ipv4 => r matches Socks5Action::Read { len, phase: Socks5Phase::Port { host } }
                && len == 2 && host@ == ipv4_text(input@),
            Socks5Phase::DomainLength => r matches Socks5Action::Read {
                len,
                phase: Socks5Phase::Domain,
            } && len == input@[0],
            Socks5Phase::Domain => r matches Socks5Action::Read { len, phase: Socks5Phase::Port { host } }
                && len == 2 && host@ == lossy_text(input@),
            Socks5Phase::Ipv6 => r matches Socks5Action::Read { len, phase: Socks5Phase::Port { host } }
                && len == 2 && host@ == ipv6_text(input@),
            Socks5Phase::Port { host } => r matches Socks5Action::Done { host: h, port } && h == host
                && port == input@[0] as int * 256 + input@[1] as int,
        },
{
    match phase {
        Socks5Phase::Greeting => {
            if input[0] != 5 {
                let mut m: Vec<char> = Vec::new();
                push_str_chars(&mut m, "unsupported SOCKS version: ");
                push_decimal(&mut m, input[0] as u64);
                Socks5Action::Fail {
                    notice: None,
                    error: ForwardError::Socks5Protocol(string_from_chars(m.as_slice())),
                }
            } else {
                Socks5Action::Read { len: input[1] as usize, phase: Socks5Phase::Methods }
            }
        },
        Socks5Phase::Methods => {
            let reply = vec![5u8, 0u8];
            assert(reply@ =~= seq![5u8, 0u8]);
            Socks5Action::WriteThenRead { reply, len: 4, phase: Socks5Phase::Header }
        },
        Socks5Phase::Header => {
            if input[0] != 5 {
                Socks5Action::Fail {
                    notice: None,
                    error: ForwardError::Socks5Protocol(
                        String::from_str("version mismatch in request"),
                    ),
                }
            } else if input[1] != 1 {
                let mut m: Vec<char> = Vec::new();
                push_str_chars(&mut m, "unsupported command: ");
                push_decimal(&mut m, input[1] as u64);
                Socks5Action::Fail {
                    notice: Some(build_reply(REPLY_COMMAND_NOT_SUPPORTED)),
                    error: ForwardError::Socks5Protocol(string_from_chars(m.as_slice())),
                }
            } else if input[3] == 1 {
                Socks5Action::Read { len: 4, phase: Socks5Phase::Ipv4 }
            } else if input[3] == 3 {
                Socks5Action::Read { len: 1, phase: Socks5Phase::DomainLength }
            } else if input[3] == 4 {
                Socks5Action::Read { len: 16, phase: Socks5Phase::Ipv6 }
            } else {
                let mut m: Vec<char> = Vec::new();
                push_str_chars(&mut m, "unsupported address type: ");
                push_decimal(&mut m, input[3] as u64);
                Socks5Action::Fail {
                    notice: Some(build_reply(REPLY_ADDRESS_TYPE_NOT_SUPPORTED)),
                    error: ForwardError::Socks5Protocol(string_from_chars(m.as_slice())),
                }
            }
        },
        Socks5Phase::Ipv4 => {
            let mut h: Vec<char> = Vec::new();
            push_decimal(&mut h, input[0] as u64);
            push_str_chars(&mut h, ".");
            push_decimal(&mut h, input[1] as u64);
            push_str_chars(&mut h, ".");
            push_decimal(&mut h, input[2] as u64);
            push_str_chars(&mut h, ".");
            push_decimal(&mut h, input[3] as u64);
            assert(h@ =~= ipv4_text(input@));
            Socks5Action::Read {
                len: 2,
                phase: Socks5Phase::Port { host: string_from_chars(h.as_slice()) },
            }
        },
        Socks5Phase::DomainLength => {
            Socks5Action::Read { len: input[0] as usize, phase: Socks5Phase::Domain }
        },
        Socks5Phase::Domain => {
            Socks5Action::Read { len: 2, phase: Socks5Phase::Port { host: utf8_lossy(input) } }
        },
        Socks5Phase::Ipv6 => {
            Socks5Action::Read { len: 2, phase: Socks5Phase::Port { host: ipv6_string(input) } }
        },
        Socks5Phase::Port { host } => {
            let port: u16 = (input[0] as u16) * 256 + (input[1] as u16);
            Socks5Action::Done { host, port }
        },
    }
}

/// A tunnel is on a port only when it listens on that very port, and only
/// for its own kind: a dynamic tunnel on `p` is a dynamic tunnel on `q`
/// exactly when `p == q`, likewise for local tunnels, and neither kind ever
/// counts as the other (so a second SOCKS5 proxy on another port is no
/// duplicate).
pub proof fn law_duplicates_share_the_port(addr: String, host: String, p: u16, q: u16, r: u16)
    ensures
        is_dynamic_on(ForwardKind::Dynamic { local_addr: addr, local_port: p }, q) <==> p == q,
        is_local_on(
            ForwardKind::Local { local_addr: addr, local_port: p, remote_host: host, remote_port: r },
            q,
        ) <==> p == q,
        !is_dynamic_on(
            ForwardKind::Local { local_addr: addr, local_port: p, remote_host: host, remote_port: r },
            q,
        ),
        !is_local_on(ForwardKind::Dynamic { local_addr: addr, local_port: p }, q),
        !is_dynamic_on(
            ForwardKind::Remote {
                remote_listen_addr: addr,
                remote_listen_port: p,
                target_host: host,
                target_port: r,
            },
            q,
        ),
        !is_local_on(
            ForwardKind::Remote {
                remote_listen_addr: addr,
                remote_listen_port: p,
                target_host: host,
                target_port: r,
            },
            q,
        ),
{
}

} // verus!
