//! The two kinds of peer: clients, each a small state machine that turns
//! what arrives on its socket into what the server does next, and game
//! servers, which exchange plain frames.

use vstd::prelude::*;
use vstd::slice::{slice_subrange, slice_to_vec};
use crate::blowfish::cipher::Cipher;
use crate::blowfish::model::{key_state, valid_key_len, CipherState};
use crate::error::{ProtocolError, Reach};
use crate::packet::{frame, framed, MAX_PAYLOAD};
use super::client::{login_fields, new_request_auth_login, LOGIN_REQUEST};
use super::crypt::{
    block_aligned, checksum, checksum_matches, decrypt_payload, decrypted_blocks,
    decrypted_payload,
};
use super::laws::lemma_matching_is_sealed;

verus! {

/// An account as the account store knows it.
pub struct Account {
    pub id: u64,
    pub user_name: String,
    pub password: String,
    pub access_level: u8,
}

/// Length in bytes of a session id.
pub const SESSION_ID_LEN: usize = 16;

/// Where a connection stands.
#[derive(Clone, Copy, Debug, PartialEq, Eq, Structural)]
pub enum ConnectionState {
    /// Accepted; nothing has been asked yet.
    Connected,
    /// Credentials are with the account store.
    Authenticating,
    /// The account store knows the client.
    Established,
    /// The account store refused the client. Final.
    Rejected,
    /// The connection has ended. Final.
    Closed,
}

impl ConnectionState {
    /// The connection still takes frames.
    pub open spec fn is_live(self) -> bool {
        self is Connected || self is Authenticating || self is Established
    }
}

/// What happened on a connection, as its owner reports it.
pub enum Event {
    /// A frame's payload arrived, as many bytes as its header announced.
    Frame(Vec<u8>),
    /// The socket gave fewer bytes than were asked for, or failed.
    ShortRead,
    /// The account store knows the credentials handed to it.
    AccountFound(Account),
    /// The account store refused the credentials handed to it.
    AccountRefused,
}

/// What the owner of a connection is to do next.
pub enum Action {
    /// Read the next frame.
    Continue,
    /// Report the error, then read the next frame.
    Discard(ProtocolError),
    /// Hand the credentials to the account store and report its answer.
    Authenticate { username: Vec<u8>, password: Vec<u8> },
    /// Report the error and close the connection.
    Terminate(ProtocolError),
    /// Close the connection.
    Hangup,
}

/// An event, with its bytes as a sequence.
pub ghost enum EventView {
    Frame(Seq<u8>),
    ShortRead,
    AccountFound(Account),
    AccountRefused,
}

/// An action, with its bytes as sequences.
pub ghost enum ActionView {
    Continue,
    Discard(ProtocolError),
    Authenticate { username: Seq<u8>, password: Seq<u8> },
    Terminate(ProtocolError),
    Hangup,
}

impl View for Event {
    type V = EventView;

    open spec fn view(&self) -> EventView {
        match *self {
            Event::Frame(payload) => EventView::Frame(payload@),
            Event::ShortRead => EventView::ShortRead,
            Event::AccountFound(account) => EventView::AccountFound(account),
            Event::AccountRefused => EventView::AccountRefused,
        }
    }
}

impl View for Action {
    type V = ActionView;

    open spec fn view(&self) -> ActionView {
        match *self {
            Action::Continue => ActionView::Continue,
            Action::Discard(e) => ActionView::Discard(e),
            Action::Authenticate { username, password } => ActionView::Authenticate {
                username: username@,
                password: password@,
            },
            Action::Terminate(e) => ActionView::Terminate(e),
            Action::Hangup => ActionView::Hangup,
        }
    }
}

/// A payload split into its opcode and what follows, if it has an opcode.
pub open spec fn opcode_and_body(data: Seq<u8>) -> Result<(u8, Seq<u8>), ProtocolError> {
    if data.len() == 0 {
        Err(ProtocolError::ShortRead)
    } else {
        Ok((data[0], data.skip(1)))
    }
}

/// What a client's frame holds: the payload is decrypted, its checksum is
/// verified, and the opcode is split off.
pub open spec fn opened_frame(c: CipherState, payload: Seq<u8>) -> Result<
    (u8, Seq<u8>),
    ProtocolError,
> {
    if !block_aligned(payload.len()) {
        Err(ProtocolError::InvalidBlockAlignment)
    } else if !checksum_matches(decrypted_payload(c, payload)) {
        Err(ProtocolError::ChecksumMismatch)
    } else {
        opcode_and_body(decrypted_payload(c, payload))
    }
}

/// A connection as the state machine sees it.
pub ghost struct ClientView {
    pub session_id: Seq<u8>,
    pub cipher: CipherState,
    pub state: ConnectionState,
    pub account: Option<Account>,
}

/// Where an error leaves a connection, and what its owner is told: an
/// error that reaches one frame leaves the connection as it was, any other
/// closes it.
pub open spec fn failed(client: ClientView, e: ProtocolError) -> (ClientView, ActionView) {
    if e.reach() == Reach::Frame {
        (client, ActionView::Discard(e))
    } else {
        (
            ClientView { state: ConnectionState::Closed, account: None, ..client },
            ActionView::Terminate(e),
        )
    }
}

/// Where a request leaves a connection: a login request with both
/// credentials starts authentication, one without them is a short read, and
/// any other opcode is unknown.
pub open spec fn dispatched(client: ClientView, opcode: u8, body: Seq<u8>) -> (
    ClientView,
    ActionView,
) {
    if opcode != LOGIN_REQUEST {
        failed(client, ProtocolError::UnknownOpcode)
    } else if body.len() < 28 {
        failed(client, ProtocolError::ShortRead)
    } else {
        (
            ClientView { state: ConnectionState::Authenticating, account: None, ..client },
            ActionView::Authenticate {
                username: login_fields(body).0,
                password: login_fields(body).1,
            },
        )
    }
}

/// The state machine of a client connection: where `event` takes `client`,
/// and what the owner of the connection is to do next.
pub open spec fn stepped(client: ClientView, event: EventView) -> (ClientView, ActionView) {
    if !client.state.is_live() {
        (client, ActionView::Hangup)
    } else {
        match event {
            EventView::Frame(payload) => match opened_frame(client.cipher, payload) {
                Ok((opcode, body)) => dispatched(client, opcode, body),
                Err(e) => failed(client, e),
            },
            EventView::ShortRead => failed(client, ProtocolError::ShortRead),
            EventView::AccountFound(account) => if client.state is Authenticating {
                (
                    ClientView {
                        state: ConnectionState::Established,
                        account: Some(account),
                        ..client
                    },
                    ActionView::Continue,
                )
            } else {
                (client, ActionView::Continue)
            },
            EventView::AccountRefused => if client.state is Authenticating {
                (
                    ClientView { state: ConnectionState::Rejected, account: None, ..client },
                    ActionView::Hangup,
                )
            } else {
                (client, ActionView::Continue)
            },
        }
    }
}

/// A connection's state together with what only that state carries.
enum Phase {
    Connected,
    Authenticating,
    Established(Account),
    Rejected,
    Closed,
}

impl Phase {
    spec fn state(self) -> ConnectionState {
        match self {
            Phase::Connected => ConnectionState::Connected,
            Phase::Authenticating => ConnectionState::Authenticating,
            Phase::Established(_) => ConnectionState::Established,
            Phase::Rejected => ConnectionState::Rejected,
            Phase::Closed => ConnectionState::Closed,
        }
    }

    spec fn account(self) -> Option<Account> {
        match self {
            Phase::Established(account) => Some(account),
            _ => None,
        }
    }
}

/// One client connection: its session id, its cipher, and how far its
/// authentication has come.
pub struct Client {
    session_id: [u8; 16],
    cipher: Cipher,
    phase: Phase,
}

impl View for Client {
    type V = ClientView;

    closed spec fn view(&self) -> ClientView {
        ClientView {
            session_id: self.session_id@,
            cipher: self.cipher@,
            state: self.phase.state(),
            account: self.phase.account(),
        }
    }
}

/// `rand::random::<u8>()`: one byte from the thread's random number
/// generator. Nothing is claimed of its value.
#[verifier::external_body]
fn random_byte() -> u8 {
    rand::random::<u8>()
}

impl Client {
    /// A client holds an account exactly when it is established, and its
    /// session id has sixteen bytes.
    pub proof fn lemma_consistent(&self)
        ensures
            self@.account is Some <==> self@.state is Established,
            self@.session_id.len() == SESSION_ID_LEN,
            self@.cipher.wf(),
    {
        self.cipher.lemma_wf();
    }
}

/// The length of what the cipher gives back is the length of what it was given.
proof fn lemma_decrypted_blocks_len(c: CipherState, data: Seq<u8>, n: nat)
    ensures
        decrypted_blocks(c, data, n).len() == 8 * n,
    decreases n,
{
    if n > 0 {
        lemma_decrypted_blocks_len(c, data, (n - 1) as nat);
    }
}

impl Client {
    /// A client that has just connected, with a session id drawn at random.
    /// Fails if `key`, the secret shared with every client, is not 1 to 56
    /// bytes long.
    pub fn new(key: Vec<u8>) -> (res: Result<Client, ProtocolError>)
        ensures
            match res {
                Ok(client) => {
                    &&& valid_key_len(key@.len())
                    &&& client@.session_id.len() == SESSION_ID_LEN
                    &&& client@.cipher == key_state(key@)
                    &&& client@.state == ConnectionState::Connected
                    &&& client@.account is None
                },
                Err(e) => !valid_key_len(key@.len()) && e == ProtocolError::InvalidKeySize,
            },
    {
        let mut session_id: [u8; 16] = [0; 16];
        let mut i: usize = 0;
        while i < SESSION_ID_LEN
            invariant
                i <= SESSION_ID_LEN,
            decreases SESSION_ID_LEN - i,
        {
            session_id[i] = random_byte();
            i += 1;
        }
        Client::with_session_id(session_id, key)
    }

    /// A client that has just connected, with the session id given. Fails
    /// if `key` is not 1 to 56 bytes long.
    pub fn with_session_id(session_id: [u8; 16], key: Vec<u8>) -> (res: Result<
        Client,
        ProtocolError,
    >)
        ensures
            match res {
                Ok(client) => valid_key_len(key@.len()) && client@ == (ClientView {
                    session_id: session_id@,
                    cipher: key_state(key@),
                    state: ConnectionState::Connected,
                    account: None,
                }),
                Err(e) => !valid_key_len(key@.len()) && e == ProtocolError::InvalidKeySize,
            },
    {
        match Cipher::new(key) {
            Ok(cipher) => Ok(Client { session_id, cipher, phase: Phase::Connected }),
            Err(e) => Err(e),
        }
    }

    /// The id of this session.
    pub fn session_id(&self) -> (id: &[u8; 16])
        ensures
            id@ == self@.session_id,
    {
        &self.session_id
    }

    /// Where the connection stands.
    pub fn state(&self) -> (s: ConnectionState)
        ensures
            s == self@.state,
    {
        match &self.phase {
            Phase::Connected => ConnectionState::Connected,
            Phase::Authenticating => ConnectionState::Authenticating,
            Phase::Established(_) => ConnectionState::Established,
            Phase::Rejected => ConnectionState::Rejected,
            Phase::Closed => ConnectionState::Closed,
        }
    }

    /// The account of the client, once the account store has found it.
    pub fn account(&self) -> (a: Option<&Account>)
        ensures
            match a {
                Some(account) => self@.account == Some(*account),
                None => self@.account is None,
            },
            a is Some <==> self@.state is Established,
    {
        match &self.phase {
            Phase::Established(account) => Some(account),
            _ => None,
        }
    }

    /// Opens a frame's payload: decrypts it, verifies its checksum and
    /// splits off the opcode.
    pub fn receive(&self, payload: Vec<u8>) -> (res: Result<(u8, Vec<u8>), ProtocolError>)
        ensures
            match res {
                Ok((opcode, body)) => opened_frame(self@.cipher, payload@) == Ok::<
                    (u8, Seq<u8>),
                    ProtocolError,
                >((opcode, body@)),
                Err(e) => opened_frame(self@.cipher, payload@) == Err::<
                    (u8, Seq<u8>),
                    ProtocolError,
                >(e),
            },
    {
        let mut data = match decrypt_payload(&self.cipher, payload.as_slice()) {
            Ok(data) => data,
            Err(e) => {
                return Err(e);
            },
        };
        proof {
            lemma_decrypted_blocks_len(self@.cipher, payload@, payload@.len() / 8);
        }
        let ghost plain = data@;
        if !checksum(&mut data) {
            return Err(ProtocolError::ChecksumMismatch);
        }
        proof {
            lemma_matching_is_sealed(plain);
        }
        let body = slice_to_vec(slice_subrange(data.as_slice(), 1, data.len()));
        assert(body@ =~= plain.skip(1));
        Ok((data[0], body))
    }

    /// Records that `e` happened and tells the owner how to go on.
    fn fail(&mut self, e: ProtocolError) -> (action: Action)
        ensures
            (final(self)@, action@) == failed(old(self)@, e),
    {
        match e.reach() {
            Reach::Frame => Action::Discard(e),
            _ => {
                self.phase = Phase::Closed;
                Action::Terminate(e)
            },
        }
    }

    /// Acts on a request whose frame was opened.
    fn dispatch(&mut self, opcode: u8, body: Vec<u8>) -> (action: Action)
        ensures
            (final(self)@, action@) == dispatched(old(self)@, opcode, body@),
    {
        if opcode != LOGIN_REQUEST {
            return self.fail(ProtocolError::UnknownOpcode);
        }
        match new_request_auth_login(body) {
            Ok((username, password)) => {
                self.phase = Phase::Authenticating;
                Action::Authenticate { username, password }
            },
            Err(e) => self.fail(e),
        }
    }

    /// Takes one event and says what to do next: the state machine of the
    /// connection, one step at a time.
    pub fn step(&mut self, event: Event) -> (action: Action)
        ensures
            (final(self)@, action@) == stepped(old(self)@, event@),
    {
        let state = self.state();
        match state {
            ConnectionState::Rejected | ConnectionState::Closed => {
                return Action::Hangup;
            },
            _ => {},
        }
        match event {
            Event::Frame(payload) => match self.receive(payload) {
                Ok((opcode, body)) => self.dispatch(opcode, body),
                Err(e) => self.fail(e),
            },
            Event::ShortRead => self.fail(ProtocolError::ShortRead),
            Event::AccountFound(account) => {
                if state == ConnectionState::Authenticating {
                    self.phase = Phase::Established(account);
                }
                Action::Continue
            },
            Event::AccountRefused => {
                if state == ConnectionState::Authenticating {
                    self.phase = Phase::Rejected;
                    Action::Hangup
                } else {
                    Action::Continue
                }
            },
        }
    }
}

/// A game server that has registered with the login server.
pub struct GameServer {
    pub id: u8,
}

impl GameServer {
    /// A game server that has not been given an id yet.
    pub fn new() -> (g: GameServer)
        ensures
            g.id == 0,
    {
        GameServer { id: 0 }
    }

    /// Splits what a game server sent into its opcode and what follows.
    /// Game servers send their payloads in the clear.
    pub fn receive(&self, data: Vec<u8>) -> (res: Result<(u8, Vec<u8>), ProtocolError>)
        ensures
            match res {
                Ok((opcode, body)) => opcode_and_body(data@) == Ok::<
                    (u8, Seq<u8>),
                    ProtocolError,
                >((opcode, body@)),
                Err(e) => opcode_and_body(data@) == Err::<(u8, Seq<u8>), ProtocolError>(e),
            },
    {
        if data.len() == 0 {
            return Err(ProtocolError::ShortRead);
        }
        let body = slice_to_vec(slice_subrange(data.as_slice(), 1, data.len()));
        assert(body@ =~= data@.skip(1));
        Ok((data[0], body))
    }

    /// Frames `data` for a game server: the length of the whole frame in
    /// two bytes, then `data`.
    pub fn send(&self, data: Vec<u8>) -> (out: Vec<u8>)
        requires
            data@.len() <= MAX_PAYLOAD,
        ensures
            out@ == framed(data@),
    {
        frame(data)
    }
}

} // verus!
