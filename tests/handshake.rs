use bmdse::{bmd_kbd_auth, AuthAction, AuthState, Handshake};

#[test]
fn auth_response_vectors() {
    assert_eq!(bmd_kbd_auth(0x0000000000000000), 0x3ae1206f97c10bc8);
    assert_eq!(bmd_kbd_auth(0x0000000000000001), 0x2b9ab32bebf244c6);
    assert_eq!(bmd_kbd_auth(0x0000000000000003), 0x6df72d1b40aef698);
    assert_eq!(bmd_kbd_auth(0x0000000000000007), 0x751bf623f42e0ade);
    assert_eq!(bmd_kbd_auth(0x0123456789abcdef), 0xe5c7b689e9967608);
    assert_eq!(bmd_kbd_auth(0xffffffffffffffff), 0x61a3f6474ff236c6);
    assert_eq!(bmd_kbd_auth(0xdeadbeefcafebabe), 0xbd48870e672cf5fa);
}

#[test]
fn auth_response_is_deterministic() {
    let c = 0x1122334455667788u64;
    assert_eq!(bmd_kbd_auth(c), bmd_kbd_auth(c));
    assert_ne!(bmd_kbd_auth(c), bmd_kbd_auth(c ^ 1));
}

fn expect_send(h: &Handshake) -> Vec<u8> {
    match h.action() {
        AuthAction::SendFeature(f) => f,
        other => panic!("expected a send, got {:?}", other),
    }
}

fn expect_get(h: &Handshake) {
    match h.action() {
        AuthAction::GetFeature(f) => assert_eq!(f, vec![0x06, 0, 0, 0, 0, 0, 0, 0, 0, 0]),
        other => panic!("expected a get, got {:?}", other),
    }
}

#[test]
fn handshake_full_exchange() {
    let mut h = Handshake::new();
    assert_eq!(expect_send(&h), vec![0x06, 0x00, 0, 0, 0, 0, 0, 0, 0, 0]);
    h.sent();
    expect_get(&h);
    let challenge = 0xdeadbeefcafebabeu64.to_le_bytes();
    let mut reply = vec![0x06, 0x00];
    reply.extend_from_slice(&challenge);
    h.received(&reply).unwrap();
    assert_eq!(h.state, AuthState::SendChallenge { challenge: 0xdeadbeefcafebabe });
    assert_eq!(expect_send(&h), vec![0x06, 0x01, 0, 0, 0, 0, 0, 0, 0, 0]);
    h.sent();
    expect_get(&h);
    h.received(&[0x06, 0x02, 9, 9, 9, 9, 9, 9, 9, 9]).unwrap();
    let mut response = vec![0x06, 0x03];
    response.extend_from_slice(&0xbd48870e672cf5fau64.to_le_bytes());
    assert_eq!(expect_send(&h), response);
    h.sent();
    expect_get(&h);
    h.received(&[0x06, 0x04, 0x58, 0x02, 0, 0, 0, 0, 0, 0]).unwrap();
    assert_eq!(h.state, AuthState::Done { interval: 600 });
    assert_eq!(h.action(), AuthAction::Finished(600));
}

#[test]
fn handshake_rejects_wrong_header() {
    let mut h = Handshake::new();
    h.sent();
    assert!(h.received(&[0x06, 0x01, 0, 0, 0, 0, 0, 0, 0, 0]).is_err());
    assert_eq!(h.state, AuthState::AwaitChallenge);
    assert!(h.received(&[0x05, 0x00, 0, 0, 0, 0, 0, 0, 0, 0]).is_err());
}

#[test]
fn handshake_rejects_short_report() {
    let mut h = Handshake::new();
    h.sent();
    assert!(h.received(&[0x06, 0x00, 1, 2, 3]).is_err());
    assert_eq!(h.state, AuthState::AwaitChallenge);
}

#[test]
fn handshake_rejects_bad_status() {
    let mut h = Handshake { state: AuthState::AwaitStatus };
    assert!(h.received(&[0x06, 0x03, 0x58, 0x02, 0, 0, 0, 0, 0, 0]).is_err());
    assert_eq!(h.state, AuthState::AwaitStatus);
}
