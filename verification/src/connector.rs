//! The session connector: the steps that open an authenticated session to
//! one host, and the rule that picks its credentials.
//!
//! A [`Connector`] never touches the network. It names the next step, the
//! caller performs it and reports back, and the connector decides what
//! follows. A session counts as open only after the socket, the handshake,
//! the login and the final check of the login have all succeeded, in that
//! order. Any other report fails the pending step for good.

use crate::config::{Host, HostView};
use crate::reply::{Reply, ReplyView};
use vstd::prelude::*;

verus! {

/// How a session is authenticated once the handshake is over.
#[derive(Debug, PartialEq, Eq)]
pub enum AuthMethod {
    /// Log in with the private key stored at `key_path`.
    KeyFile { user: String, key_path: String },
    /// Log in with a password.
    Password { user: String, password: String },
}

/// The mathematical value of an [`AuthMethod`].
pub enum AuthMethodView {
    KeyFile { user: Seq<char>, key_path: Seq<char> },
    Password { user: Seq<char>, password: Seq<char> },
}

impl View for AuthMethod {
    type V = AuthMethodView;

    open spec fn view(&self) -> AuthMethodView {
        match self {
            AuthMethod::KeyFile { user, key_path } => AuthMethodView::KeyFile {
                user: user@,
                key_path: key_path@,
            },
            AuthMethod::Password { user, password } => AuthMethodView::Password {
                user: user@,
                password: password@,
            },
        }
    }
}

impl Clone for AuthMethod {
    fn clone(&self) -> (r: Self)
        ensures
            r@ == self@,
    {
        match self {
            AuthMethod::KeyFile { user, key_path } => AuthMethod::KeyFile {
                user: user.clone(),
                key_path: key_path.clone(),
            },
            AuthMethod::Password { user, password } => AuthMethod::Password {
                user: user.clone(),
                password: password.clone(),
            },
        }
    }
}

/// The credentials a host is opened with: its key where it names a
/// non-empty key path, its password otherwise.
pub open spec fn auth_for(host: HostView) -> AuthMethodView {
    match host.key_path {
        Some(path) if path.len() > 0 => AuthMethodView::KeyFile {
            user: host.user,
            key_path: path,
        },
        _ => AuthMethodView::Password { user: host.user, password: host.password },
    }
}

/// Picks the credentials for `host`.
pub fn choose_auth(host: &Host) -> (method: AuthMethod)
    ensures
        method@ == auth_for(host@),
{
    match &host.key_path {
        Some(path) => {
            if !path.as_str().is_empty() {
                return AuthMethod::KeyFile { user: host.user.clone(), key_path: path.clone() };
            }
        },
        None => {},
    }
    AuthMethod::Password { user: host.user.clone(), password: host.password.clone() }
}

/// Why no session could be opened.
#[derive(Debug, PartialEq, Eq)]
pub enum ConnectError {
    /// The host could not be reached or the handshake broke down.
    Connection(String),
    /// The host turned the credentials down.
    Authentication(String),
}

/// The mathematical value of a [`ConnectError`].
pub enum ConnectErrorView {
    Connection(Seq<char>),
    Authentication(Seq<char>),
}

impl View for ConnectError {
    type V = ConnectErrorView;

    open spec fn view(&self) -> ConnectErrorView {
        match self {
            ConnectError::Connection(reason) => ConnectErrorView::Connection(reason@),
            ConnectError::Authentication(reason) => ConnectErrorView::Authentication(reason@),
        }
    }
}

impl Clone for ConnectError {
    fn clone(&self) -> (r: Self)
        ensures
            r@ == self@,
    {
        match self {
            ConnectError::Connection(reason) => ConnectError::Connection(reason.clone()),
            ConnectError::Authentication(reason) => ConnectError::Authentication(reason.clone()),
        }
    }
}

/// Where a connector stands.
#[derive(Debug, PartialEq, Eq)]
pub enum ConnectPhase {
    OpeningSocket,
    Handshaking,
    Authenticating,
    Verifying,
    Established,
    Failed(ConnectError),
}

/// The mathematical value of a [`ConnectPhase`].
pub enum ConnectPhaseView {
    OpeningSocket,
    Handshaking,
    Authenticating,
    Verifying,
    Established,
    Failed(ConnectErrorView),
}

impl View for ConnectPhase {
    type V = ConnectPhaseView;

    open spec fn view(&self) -> ConnectPhaseView {
        match self {
            ConnectPhase::OpeningSocket => ConnectPhaseView::OpeningSocket,
            ConnectPhase::Handshaking => ConnectPhaseView::Handshaking,
            ConnectPhase::Authenticating => ConnectPhaseView::Authenticating,
            ConnectPhase::Verifying => ConnectPhaseView::Verifying,
            ConnectPhase::Established => ConnectPhaseView::Established,
            ConnectPhase::Failed(e) => ConnectPhaseView::Failed(e@),
        }
    }
}

/// One step of outside work on the way to a session.
#[derive(Debug, PartialEq, Eq)]
pub enum ConnectRequest {
    /// Open a network connection to `address:port`.
    OpenSocket { address: String, port: u16 },
    /// Run the protocol handshake over the open connection.
    Handshake,
    /// Log in with the given credentials.
    Authenticate(AuthMethod),
    /// Ask the session whether it is authenticated.
    ConfirmAuthenticated,
}

/// The mathematical value of a [`ConnectRequest`].
pub enum ConnectRequestView {
    OpenSocket { address: Seq<char>, port: u16 },
    Handshake,
    Authenticate(AuthMethodView),
    ConfirmAuthenticated,
}

impl View for ConnectRequest {
    type V = ConnectRequestView;

    open spec fn view(&self) -> ConnectRequestView {
        match self {
            ConnectRequest::OpenSocket { address, port } => ConnectRequestView::OpenSocket {
                address: address@,
                port: *port,
            },
            ConnectRequest::Handshake => ConnectRequestView::Handshake,
            ConnectRequest::Authenticate(method) => ConnectRequestView::Authenticate(method@),
            ConnectRequest::ConfirmAuthenticated => ConnectRequestView::ConfirmAuthenticated,
        }
    }
}

impl Clone for ConnectRequest {
    fn clone(&self) -> (r: Self)
        ensures
            r@ == self@,
    {
        match self {
            ConnectRequest::OpenSocket { address, port } => ConnectRequest::OpenSocket {
                address: address.clone(),
                port: *port,
            },
            ConnectRequest::Handshake => ConnectRequest::Handshake,
            ConnectRequest::Authenticate(method) => ConnectRequest::Authenticate(method.clone()),
            ConnectRequest::ConfirmAuthenticated => ConnectRequest::ConfirmAuthenticated,
        }
    }
}

impl ConnectPhaseView {
    /// Nothing is left to do: the session is open, or it never will be.
    pub open spec fn settled(self) -> bool {
        self is Established || self is Failed
    }

    /// The number of steps that still lie ahead.
    pub open spec fn steps_left(self) -> nat {
        match self {
            ConnectPhaseView::OpeningSocket => 4,
            ConnectPhaseView::Handshaking => 3,
            ConnectPhaseView::Authenticating => 2,
            ConnectPhaseView::Verifying => 1,
            ConnectPhaseView::Established => 0,
            ConnectPhaseView::Failed(_) => 0,
        }
    }

    /// The one reply that lets the pending step count as done.
    pub open spec fn awaited(self) -> ReplyView {
        if self is Verifying {
            ReplyView::Authenticated(true)
        } else {
            ReplyView::Done
        }
    }

    /// The phase that follows the pending step once it is done.
    pub open spec fn successor(self) -> ConnectPhaseView {
        match self {
            ConnectPhaseView::OpeningSocket => ConnectPhaseView::Handshaking,
            ConnectPhaseView::Handshaking => ConnectPhaseView::Authenticating,
            ConnectPhaseView::Authenticating => ConnectPhaseView::Verifying,
            ConnectPhaseView::Verifying => ConnectPhaseView::Established,
            ConnectPhaseView::Established => ConnectPhaseView::Established,
            ConnectPhaseView::Failed(e) => ConnectPhaseView::Failed(e),
        }
    }

    /// The error that a failure of the pending step amounts to: the socket
    /// and the handshake fail the connection, the login and its check fail
    /// the authentication.
    pub open spec fn failure(self, reason: Seq<char>) -> ConnectErrorView {
        if self is OpeningSocket || self is Handshaking {
            ConnectErrorView::Connection(reason)
        } else {
            ConnectErrorView::Authentication(reason)
        }
    }

    /// The phase after `reply` has come in.
    pub open spec fn step(self, reply: ReplyView) -> ConnectPhaseView {
        if self.settled() {
            self
        } else if reply == self.awaited() {
            self.successor()
        } else {
            ConnectPhaseView::Failed(self.failure(reply.reason()))
        }
    }

    /// What the connector has to say once it is settled.
    pub open spec fn result(self) -> Option<Result<(), ConnectErrorView>> {
        match self {
            ConnectPhaseView::Established => Some(Ok(())),
            ConnectPhaseView::Failed(e) => Some(Err(e)),
            _ => None,
        }
    }

    /// The phase after the replies have come in, one after the other.
    pub open spec fn run(self, replies: Seq<ReplyView>) -> ConnectPhaseView
        decreases replies.len(),
    {
        if replies.len() == 0 {
            self
        } else {
            self.step(replies[0]).run(replies.drop_first())
        }
    }
}

/// Every reply to a connector that is not settled brings it one step closer
/// to being settled.
pub proof fn lemma_connect_progress(phase: ConnectPhaseView, reply: ReplyView)
    requires
        !phase.settled(),
    ensures
        phase.step(reply).steps_left() < phase.steps_left(),
{
}

/// A settled connector stays as it is, whatever is reported to it.
pub proof fn lemma_connect_settled_stays(phase: ConnectPhaseView, replies: Seq<ReplyView>)
    requires
        phase.settled(),
    ensures
        phase.run(replies) == phase,
    decreases replies.len(),
{
    if replies.len() > 0 {
        lemma_connect_settled_stays(phase, replies.drop_first());
    }
}

/// A connector is settled once as many replies have come in as it had
/// steps left: after four replies at the latest.
pub proof fn lemma_connect_settles(phase: ConnectPhaseView, replies: Seq<ReplyView>)
    requires
        replies.len() >= phase.steps_left(),
    ensures
        phase.run(replies).settled(),
    decreases replies.len(),
{
    if phase.settled() {
        lemma_connect_settled_stays(phase, replies);
    } else {
        lemma_connect_progress(phase, replies[0]);
        lemma_connect_settles(phase.step(replies[0]), replies.drop_first());
    }
}

/// A session is open exactly when the socket, the handshake and the login
/// were each reported done, in that order, and the session then said that it
/// is authenticated. No other run of replies opens one.
pub proof fn lemma_connect_opens_iff(replies: Seq<ReplyView>)
    ensures
        ConnectPhaseView::OpeningSocket.run(replies) is Established <==> {
            &&& replies.len() >= 4
            &&& replies[0] == ReplyView::Done
            &&& replies[1] == ReplyView::Done
            &&& replies[2] == ReplyView::Done
            &&& replies[3] == ReplyView::Authenticated(true)
        },
{
    let start = ConnectPhaseView::OpeningSocket;
    if replies.len() >= 1 {
        let p1 = start.step(replies[0]);
        let r1 = replies.drop_first();
        assert(start.run(replies) == p1.run(r1));
        if p1.settled() {
            lemma_connect_settled_stays(p1, r1);
        } else if r1.len() >= 1 {
            let p2 = p1.step(r1[0]);
            let r2 = r1.drop_first();
            assert(p1.run(r1) == p2.run(r2));
            if p2.settled() {
                lemma_connect_settled_stays(p2, r2);
            } else if r2.len() >= 1 {
                let p3 = p2.step(r2[0]);
                let r3 = r2.drop_first();
                assert(p2.run(r2) == p3.run(r3));
                if p3.settled() {
                    lemma_connect_settled_stays(p3, r3);
                } else if r3.len() >= 1 {
                    let p4 = p3.step(r3[0]);
                    let r4 = r3.drop_first();
                    assert(p3.run(r3) == p4.run(r4));
                    lemma_connect_settled_stays(p4, r4);
                }
            }
        }
    }
}

/// A host that logs in with a key is opened with the same credentials
/// whatever its password field holds.
pub proof fn lemma_key_login_ignores_password(host: HostView, password: Seq<char>)
    requires
        host.uses_key(),
    ensures
        auth_for(HostView { password, ..host }) == auth_for(host),
        auth_for(host) is KeyFile,
{
}

/// The mathematical value of a [`Connector`].
pub struct ConnectorView {
    pub host: HostView,
    pub phase: ConnectPhaseView,
}

impl ConnectorView {
    /// The connector for `host` before anything has happened.
    pub open spec fn start(host: HostView) -> ConnectorView {
        ConnectorView { host, phase: ConnectPhaseView::OpeningSocket }
    }

    /// The step that the caller is to perform now, if any is left.
    pub open spec fn request(self) -> Option<ConnectRequestView> {
        match self.phase {
            ConnectPhaseView::OpeningSocket => Some(
                ConnectRequestView::OpenSocket { address: self.host.address, port: self.host.port },
            ),
            ConnectPhaseView::Handshaking => Some(ConnectRequestView::Handshake),
            ConnectPhaseView::Authenticating => Some(
                ConnectRequestView::Authenticate(auth_for(self.host)),
            ),
            ConnectPhaseView::Verifying => Some(ConnectRequestView::ConfirmAuthenticated),
            _ => None,
        }
    }

    /// The connector after `reply` has come in.
    pub open spec fn step(self, reply: ReplyView) -> ConnectorView {
        ConnectorView { host: self.host, phase: self.phase.step(reply) }
    }
}

/// Opens one session, step by step.
#[derive(Debug)]
pub struct Connector {
    host: Host,
    phase: ConnectPhase,
}

impl View for Connector {
    type V = ConnectorView;

    closed spec fn view(&self) -> ConnectorView {
        ConnectorView { host: self.host@, phase: self.phase@ }
    }
}

impl Connector {
    /// A connector for `host`, about to open the socket.
    pub fn new(host: &Host) -> (c: Connector)
        ensures
            c@ == ConnectorView::start(host@),
    {
        Connector { host: host.clone(), phase: ConnectPhase::OpeningSocket }
    }

    /// Whether nothing is left to do.
    pub fn is_settled(&self) -> (r: bool)
        ensures
            r == self@.phase.settled(),
    {
        match &self.phase {
            ConnectPhase::Established => true,
            ConnectPhase::Failed(_) => true,
            _ => false,
        }
    }

    /// Whether the session is open and authenticated.
    pub fn is_established(&self) -> (r: bool)
        ensures
            r == (self@.phase is Established),
    {
        match &self.phase {
            ConnectPhase::Established => true,
            _ => false,
        }
    }

    /// The step to perform now, or `None` once the connector is settled.
    pub fn request(&self) -> (r: Option<ConnectRequest>)
        ensures
            self@.request() == match r {
                Some(q) => Some(q@),
                None => None,
            },
    {
        match &self.phase {
            ConnectPhase::OpeningSocket => Some(
                ConnectRequest::OpenSocket { address: self.host.address.clone(), port: self.host.port },
            ),
            ConnectPhase::Handshaking => Some(ConnectRequest::Handshake),
            ConnectPhase::Authenticating => Some(ConnectRequest::Authenticate(choose_auth(&self.host))),
            ConnectPhase::Verifying => Some(ConnectRequest::ConfirmAuthenticated),
            _ => None,
        }
    }

    /// Takes in the report on the pending step. The step counts as done only
    /// on the one reply that it awaits; every other reply fails it, and with
    /// it the connector. A settled connector stays as it is.
    pub fn handle(&mut self, reply: Reply)
        ensures
            final(self)@ == old(self)@.step(reply@),
    {
        if self.is_settled() {
            return ;
        }
        let verifying = match &self.phase {
            ConnectPhase::Verifying => true,
            _ => false,
        };
        let early = match &self.phase {
            ConnectPhase::OpeningSocket => true,
            ConnectPhase::Handshaking => true,
            _ => false,
        };
        let done = match &reply {
            Reply::Done => !verifying,
            Reply::Authenticated(flag) => verifying && *flag,
            _ => false,
        };
        if done {
            let next = match &self.phase {
                ConnectPhase::OpeningSocket => ConnectPhase::Handshaking,
                ConnectPhase::Handshaking => ConnectPhase::Authenticating,
                ConnectPhase::Authenticating => ConnectPhase::Verifying,
                _ => ConnectPhase::Established,
            };
            self.phase = next;
        } else {
            let reason = reply.into_reason();
            let error = if early {
                ConnectError::Connection(reason)
            } else {
                ConnectError::Authentication(reason)
            };
            self.phase = ConnectPhase::Failed(error);
        }
    }

    /// `Ok` once the session is open and authenticated, the error once the
    /// connector has failed, and `None` while steps are left.
    pub fn result(&self) -> (r: Option<Result<(), ConnectError>>)
        ensures
            self@.phase.result() == match r {
                Some(Ok(_)) => Some(Ok(())),
                Some(Err(e)) => Some(Err(e@)),
                None => None,
            },
    {
        match &self.phase {
            ConnectPhase::Established => Some(Ok(())),
            ConnectPhase::Failed(e) => Some(Err(e.clone())),
            _ => None,
        }
    }
}

} // verus!
