use login_gateway::blowfish::cipher::Cipher;
use login_gateway::error::{ProtocolError, Reach};
use login_gateway::loginserver::client::new_request_auth_login;
use login_gateway::loginserver::crypt::checksum;
use login_gateway::loginserver::models::{
    Account, Action, Client, ConnectionState, Event, GameServer, SESSION_ID_LEN,
};
use login_gateway::packet::payload_length;

const SHARED_KEY: &[u8] = b"[;'.]94-31==-%&@!^+]\x0000";

const LOGIN_FRAME: [u8; 42] = [
    0x2a, 0x00, 0x8a, 0xc6, 0xf7, 0xfe, 0x20, 0xaf, 0x1f, 0xa0, 0x11, 0x39, 0xd0, 0x22, 0x34,
    0xf7, 0x7f, 0x01, 0xa7, 0x23, 0xb8, 0xfb, 0xef, 0x87, 0xb5, 0x2d, 0xae, 0xc6, 0x0d, 0x68,
    0x18, 0x93, 0x34, 0x3c, 0x16, 0xa5, 0xb8, 0xac, 0x76, 0xb3, 0x22, 0x9a,
];

fn client() -> Client {
    Client::with_session_id([7u8; 16], SHARED_KEY.to_vec()).unwrap()
}

fn account() -> Account {
    Account { id: 1, user_name: "admin".to_string(), password: "hunter2".to_string(), access_level: 0 }
}

fn sealed_and_encrypted(mut plain: Vec<u8>) -> Vec<u8> {
    checksum(&mut plain);
    let c = Cipher::new(SHARED_KEY.to_vec()).unwrap();
    let mut out = vec![0u8; plain.len()];
    for i in (0..plain.len()).step_by(8) {
        c.encrypt(&mut out[i..i + 8], &plain[i..i + 8]);
    }
    out
}

fn field(s: &str) -> Vec<u8> {
    let mut v = s.as_bytes().to_vec();
    v.resize(14, 0);
    v
}

fn is_discard(a: &Action, e: ProtocolError) -> bool {
    matches!(a, Action::Discard(x) if *x == e)
}

fn is_terminate(a: &Action, e: ProtocolError) -> bool {
    matches!(a, Action::Terminate(x) if *x == e)
}

#[test]
fn login_frame_end_to_end() {
    let mut c = client();
    let n = payload_length(&[LOGIN_FRAME[0], LOGIN_FRAME[1]]);
    assert_eq!(n, 40);
    let payload = LOGIN_FRAME[2..2 + n].to_vec();
    let (opcode, body) = c.receive(payload.clone()).unwrap();
    assert_eq!(opcode, 0x00);
    assert_eq!(body.len(), 39);
    assert_eq!(&body[35..], &[0x6e, 0x53, 0x10, 0x60]);
    let (user, pass) = new_request_auth_login(body).unwrap();
    assert_eq!(user, field("admin"));
    assert_eq!(pass, field("hunter2"));
    match c.step(Event::Frame(payload)) {
        Action::Authenticate { username, password } => {
            assert_eq!(username, field("admin"));
            assert_eq!(password, field("hunter2"));
        },
        _ => panic!("expected credentials"),
    }
    assert_eq!(c.state(), ConnectionState::Authenticating);
    assert!(matches!(c.step(Event::AccountFound(account())), Action::Continue));
    assert_eq!(c.state(), ConnectionState::Established);
    assert_eq!(c.account().map(|a| a.id), Some(1));
    assert_eq!(c.account().map(|a| a.user_name.as_str()), Some("admin"));
}

#[test]
fn new_client_is_connected_with_a_fresh_session() {
    let c = Client::new(SHARED_KEY.to_vec()).unwrap();
    assert_eq!(c.state(), ConnectionState::Connected);
    assert!(c.account().is_none());
    assert_eq!(c.session_id().len(), SESSION_ID_LEN);
    let ids: Vec<[u8; 16]> =
        (0..8).map(|_| *Client::new(SHARED_KEY.to_vec()).unwrap().session_id()).collect();
    assert!(ids.iter().any(|id| id != &ids[0]));
    let d = client();
    assert_eq!(d.session_id(), &[7u8; 16]);
}

#[test]
fn client_needs_a_valid_key() {
    assert_eq!(Client::new(Vec::new()).err(), Some(ProtocolError::InvalidKeySize));
    assert_eq!(
        Client::with_session_id([0u8; 16], vec![1u8; 57]).err(),
        Some(ProtocolError::InvalidKeySize)
    );
}

#[test]
fn login_fields_are_taken_verbatim() {
    let mut body: Vec<u8> = (1..=28).collect();
    body.extend_from_slice(&[0xff; 11]);
    let (user, pass) = new_request_auth_login(body).unwrap();
    assert_eq!(user, (1..=14).collect::<Vec<u8>>());
    assert_eq!(pass, (15..=28).collect::<Vec<u8>>());
    let exact: Vec<u8> = vec![0u8; 28];
    assert_eq!(new_request_auth_login(exact), Ok((vec![0u8; 14], vec![0u8; 14])));
}

#[test]
fn login_request_without_both_fields_is_a_short_read() {
    assert_eq!(new_request_auth_login(vec![0u8; 27]), Err(ProtocolError::ShortRead));
    assert_eq!(new_request_auth_login(Vec::new()), Err(ProtocolError::ShortRead));
}

#[test]
fn misaligned_frame_is_dropped_and_the_connection_goes_on() {
    let mut c = client();
    for len in [0usize, 1, 7, 9, 12, 39] {
        let a = c.step(Event::Frame(vec![0u8; len]));
        assert!(is_discard(&a, ProtocolError::InvalidBlockAlignment));
        assert_eq!(c.state(), ConnectionState::Connected);
        assert_eq!(c.receive(vec![0u8; len]), Err(ProtocolError::InvalidBlockAlignment));
    }
    let payload = LOGIN_FRAME[2..].to_vec();
    assert!(matches!(c.step(Event::Frame(payload)), Action::Authenticate { .. }));
}

#[test]
fn bad_checksum_closes_the_connection() {
    let mut c = client();
    let mut payload = LOGIN_FRAME[2..].to_vec();
    payload[5] ^= 0x10;
    assert_eq!(c.receive(payload.clone()), Err(ProtocolError::ChecksumMismatch));
    let a = c.step(Event::Frame(payload));
    assert!(is_terminate(&a, ProtocolError::ChecksumMismatch));
    assert_eq!(c.state(), ConnectionState::Closed);
    let again = c.step(Event::Frame(LOGIN_FRAME[2..].to_vec()));
    assert!(matches!(again, Action::Hangup));
    assert_eq!(c.state(), ConnectionState::Closed);
}

#[test]
fn unknown_opcode_is_reported_and_skipped() {
    let mut c = client();
    let enc = vec![0x27, 0x07, 0x76, 0xe5, 0xe7, 0x84, 0x8f, 0x6c];
    assert_eq!(c.receive(enc.clone()), Ok((0x07, vec![0x01, 0x02, 0x03, 0x07, 0x01, 0x02, 0x03])));
    let a = c.step(Event::Frame(enc));
    assert!(is_discard(&a, ProtocolError::UnknownOpcode));
    assert_eq!(c.state(), ConnectionState::Connected);
}

#[test]
fn short_login_request_closes_the_connection() {
    let mut c = client();
    let enc = vec![0x82, 0x3e, 0xd7, 0x2c, 0xdc, 0x12, 0x50, 0xcb];
    let a = c.step(Event::Frame(enc));
    assert!(is_terminate(&a, ProtocolError::ShortRead));
    assert_eq!(c.state(), ConnectionState::Closed);
}

#[test]
fn short_read_closes_the_connection() {
    let mut c = client();
    let a = c.step(Event::ShortRead);
    assert!(is_terminate(&a, ProtocolError::ShortRead));
    assert_eq!(c.state(), ConnectionState::Closed);
    assert!(c.account().is_none());
}

#[test]
fn refused_credentials_reject_the_client() {
    let mut c = client();
    assert!(matches!(c.step(Event::Frame(LOGIN_FRAME[2..].to_vec())), Action::Authenticate { .. }));
    assert!(matches!(c.step(Event::AccountRefused), Action::Hangup));
    assert_eq!(c.state(), ConnectionState::Rejected);
    assert!(matches!(c.step(Event::AccountFound(account())), Action::Hangup));
    assert_eq!(c.state(), ConnectionState::Rejected);
    assert!(c.account().is_none());
}

#[test]
fn answers_nobody_asked_for_are_ignored() {
    let mut c = client();
    assert!(matches!(c.step(Event::AccountFound(account())), Action::Continue));
    assert_eq!(c.state(), ConnectionState::Connected);
    assert!(c.account().is_none());
    assert!(matches!(c.step(Event::AccountRefused), Action::Continue));
    assert_eq!(c.state(), ConnectionState::Connected);
}

#[test]
fn closing_forgets_the_account() {
    let mut c = client();
    c.step(Event::Frame(LOGIN_FRAME[2..].to_vec()));
    c.step(Event::AccountFound(account()));
    assert!(c.account().is_some());
    let id = *c.session_id();
    c.step(Event::ShortRead);
    assert_eq!(c.state(), ConnectionState::Closed);
    assert!(c.account().is_none());
    assert_eq!(c.session_id(), &id);
}

#[test]
fn a_new_login_restarts_authentication() {
    let mut c = client();
    c.step(Event::Frame(LOGIN_FRAME[2..].to_vec()));
    c.step(Event::AccountFound(account()));
    let mut plain = vec![0u8];
    plain.extend_from_slice(&field("other"));
    plain.extend_from_slice(&field("secret"));
    plain.resize(40, 0);
    match c.step(Event::Frame(sealed_and_encrypted(plain))) {
        Action::Authenticate { username, password } => {
            assert_eq!(username, field("other"));
            assert_eq!(password, field("secret"));
        },
        _ => panic!("expected credentials"),
    }
    assert_eq!(c.state(), ConnectionState::Authenticating);
    assert!(c.account().is_none());
}

#[test]
fn each_error_has_its_reach() {
    assert_eq!(ProtocolError::InvalidKeySize.reach(), Reach::Startup);
    assert_eq!(ProtocolError::InvalidBlockAlignment.reach(), Reach::Frame);
    assert_eq!(ProtocolError::ShortRead.reach(), Reach::Connection);
    assert_eq!(ProtocolError::ChecksumMismatch.reach(), Reach::Connection);
    assert_eq!(ProtocolError::UnknownOpcode.reach(), Reach::Frame);
    assert_eq!(ProtocolError::AcceptError.reach(), Reach::Listener);
}

#[test]
fn game_server_frames_are_plain() {
    let g = GameServer::new();
    assert_eq!(g.id, 0);
    assert_eq!(g.receive(vec![0x05, 1, 2, 3]), Ok((0x05, vec![1, 2, 3])));
    assert_eq!(g.receive(vec![0x09]), Ok((0x09, Vec::new())));
    assert_eq!(g.receive(Vec::new()), Err(ProtocolError::ShortRead));
    assert_eq!(g.send(vec![0xaa, 0xbb]), vec![4, 0, 0xaa, 0xbb]);
    assert_eq!(g.send(vec![0u8; 254]).len(), 256);
    assert_eq!(&g.send(vec![0u8; 254])[..2], &[0x00, 0x01]);
}
