//! Sending a request with a bearer token: where the token comes from, and
//! the one retry after the server has refused it.
//!
//! The session decides; its caller does what each `Action` names and comes
//! back with the `Event` that resulted.

use vstd::prelude::*;
use crate::json::{Json, get_param, json_document};
use crate::request::{Request, copy_text};

verus! {

pub const STATUS_OK: u16 = 200;

pub const STATUS_UNAUTHORIZED: u16 = 401;

pub const STATUS_FORBIDDEN: u16 = 403;

/// The most times that one logical request goes to the server.
pub const MAX_REQUESTS: u8 = 2;

/// What a session waits for.
#[derive(Clone, Copy, PartialEq, Eq, Structural, Debug)]
pub enum Phase {
    /// The cached token, or word that there is none.
    Cache,
    /// The user name from the prompt.
    User,
    /// The password from the prompt.
    Password,
    /// The answer to the login exchange.
    Login,
    /// Word that the token has been written to the cache, or could not be.
    Save,
    /// Word that the cached token has been removed.
    Delete,
    /// The answer to the request itself.
    Response,
    /// Nothing: the session has ended.
    Closed,
}

/// Why a send failed.
#[derive(Debug, PartialEq, Eq)]
pub enum SendError {
    /// The server refused the token of a fresh login too.
    AuthenticationFailed,
    /// The login was refused; the body of the server's answer.
    Forbidden(Vec<u8>),
    /// The login was answered with a status other than 200 and 403.
    UnexpectedStatus(u16),
    /// The login's answer was no JSON document.
    MalformedBody,
    /// The login's answer held no string `id`.
    MissingToken,
    /// The user interrupted a prompt.
    Interrupted,
    /// A network call failed; the message of the failure.
    Transport(String),
    /// An event came that the session was not waiting for.
    OutOfTurn,
}

/// What the caller does next.
#[derive(Debug, PartialEq, Eq)]
pub enum Action {
    /// Read the cached token and answer with `Event::Token`.
    LoadToken,
    /// Ask for the user name and answer with `Event::Input`.
    PromptUser,
    /// Ask for the password, without echo, and answer with `Event::Input`.
    PromptPassword,
    /// Post the credential to `authenticate`, answer with `Event::LoginReply`.
    Login { username: String, password: String },
    /// Write the token to the cache and answer with `Event::Ack`, whether
    /// or not the write worked.
    SaveToken(String),
    /// Remove the cached token if there is one and answer with `Event::Ack`.
    DeleteToken,
    /// Send the request with `Authorization: Bearer <token>` and answer
    /// with `Event::Reply`.
    Send { token: String },
    /// Hand the response just received to whoever asked for the send.
    Deliver,
    /// Give up.
    Fail(SendError),
}

/// What happened when the caller did what the last action named.
#[derive(Debug, PartialEq, Eq)]
pub enum Event {
    Token(Option<String>),
    Input(String),
    Interrupted,
    LoginReply { status: u16, body: Vec<u8> },
    Ack,
    Reply { status: u16 },
    Transport(String),
}

/// One logical request on its way.
#[derive(Debug, PartialEq, Eq)]
pub struct Session {
    /// The user name given on the command line.
    pub user: Option<String>,
    /// The password given on the command line.
    pub password: Option<String>,
    /// The user name from the prompt, while the password is asked for.
    pub entered_user: Option<String>,
    /// The token in use.
    pub token: Option<String>,
    pub phase: Phase,
    /// How many times the request has gone to the server.
    pub requests: u8,
    /// How many login exchanges there have been.
    pub logins: u8,
}

/// The token in the answer to a login with this status and body, where
/// `doc` is what the body parses to.
pub open spec fn login_token(status: u16, body: Vec<u8>, doc: Option<Json>) -> Result<
    String,
    SendError,
> {
    if status == STATUS_OK {
        match doc {
            None => Err(SendError::MalformedBody),
            Some(json) => match json.spec_param("id"@) {
                Some(token) => Ok(token),
                None => Err(SendError::MissingToken),
            },
        }
    } else if status == STATUS_FORBIDDEN {
        Err(SendError::Forbidden(body))
    } else {
        Err(SendError::UnexpectedStatus(status))
    }
}

/// Reads the answer to a login: status 200 with a JSON body whose `id` is
/// a string gives that string as the token, 403 is a refusal that carries
/// the body, and any other status is unexpected.
pub fn read_login_reply(status: u16, body: Vec<u8>, doc: Option<Json>) -> (r: Result<
    String,
    SendError,
>)
    ensures
        r == login_token(status, body, doc),
{
    if status == STATUS_OK {
        match doc {
            None => Err(SendError::MalformedBody),
            Some(json) => match get_param(&json, "id") {
                Some(token) => Ok(token),
                None => Err(SendError::MissingToken),
            },
        }
    } else if status == STATUS_FORBIDDEN {
        Err(SendError::Forbidden(body))
    } else {
        Err(SendError::UnexpectedStatus(status))
    }
}

impl Session {
    /// The session's invariant: the request has gone out at most twice,
    /// there has been at most one login more than that, and each phase
    /// holds what it needs.
    pub open spec fn wf(self) -> bool {
        &&& self.requests <= MAX_REQUESTS
        &&& self.logins <= self.requests + 1
        &&& (self.phase == Phase::Cache ==> self.requests == 0 && self.logins == 0)
        &&& (self.phase == Phase::User || self.phase == Phase::Password || self.phase
            == Phase::Delete || self.phase == Phase::Response ==> self.logins <= self.requests)
        &&& (self.phase != Phase::Response && self.phase != Phase::Closed ==> self.requests
            < MAX_REQUESTS)
        &&& (self.phase == Phase::Password ==> self.user.is_some()
            || self.entered_user.is_some())
        &&& (self.phase == Phase::Save ==> self.token.is_some())
        &&& (self.phase == Phase::Delete ==> self.token.is_none())
        &&& (self.phase == Phase::Response ==> self.requests >= 1)
    }

    /// Whether the token of a login is written to the cache: only where no
    /// part of the credential was given on the command line.
    pub open spec fn persists(self) -> bool {
        self.user.is_none() && self.password.is_none()
    }

    /// The session ends with a failure.
    pub open spec fn spec_close(self, e: SendError) -> (Session, Action) {
        (Session { phase: Phase::Closed, ..self }, Action::Fail(e))
    }

    /// The request goes out with `token`.
    pub open spec fn spec_dispatch(self, token: String) -> (Session, Action) {
        (
            Session {
                phase: Phase::Response,
                token: Some(token),
                requests: (self.requests + 1) as u8,
                ..self
            },
            Action::Send { token },
        )
    }

    /// The login exchange goes out with this credential.
    pub open spec fn spec_login(self, username: String, password: String) -> (Session, Action) {
        (
            Session {
                phase: Phase::Login,
                entered_user: None,
                logins: (self.logins + 1) as u8,
                ..self
            },
            Action::Login { username, password },
        )
    }

    /// A fresh login begins: whatever half of the credential is missing is
    /// asked for, the user name first.
    pub open spec fn spec_begin_login(self) -> (Session, Action) {
        if self.user.is_none() {
            (Session { phase: Phase::User, entered_user: None, ..self }, Action::PromptUser)
        } else if self.password.is_none() {
            (
                Session { phase: Phase::Password, entered_user: None, ..self },
                Action::PromptPassword,
            )
        } else {
            self.spec_login(self.user.unwrap(), self.password.unwrap())
        }
    }

    /// The state after `event` and what the caller does next, where `doc`
    /// is what the body of a login's answer parses to.
    pub open spec fn spec_advance(self, event: Event, doc: Option<Json>) -> (Session, Action) {
        if self.phase == Phase::Closed {
            self.spec_close(SendError::OutOfTurn)
        } else {
            match event {
                Event::Transport(m) => self.spec_close(SendError::Transport(m)),
                Event::Token(found) => if self.phase != Phase::Cache {
                    self.spec_close(SendError::OutOfTurn)
                } else {
                    match found {
                        Some(token) => self.spec_dispatch(token),
                        None => self.spec_begin_login(),
                    }
                },
                Event::Input(text) => if self.phase == Phase::User {
                    if self.password.is_none() {
                        (
                            Session { phase: Phase::Password, entered_user: Some(text), ..self },
                            Action::PromptPassword,
                        )
                    } else {
                        self.spec_login(text, self.password.unwrap())
                    }
                } else if self.phase == Phase::Password {
                    if self.user.is_some() {
                        self.spec_login(self.user.unwrap(), text)
                    } else {
                        self.spec_login(self.entered_user.unwrap(), text)
                    }
                } else {
                    self.spec_close(SendError::OutOfTurn)
                },
                Event::Interrupted => if self.phase == Phase::User || self.phase
                    == Phase::Password {
                    self.spec_close(SendError::Interrupted)
                } else {
                    self.spec_close(SendError::OutOfTurn)
                },
                Event::LoginReply { status, body } => if self.phase != Phase::Login {
                    self.spec_close(SendError::OutOfTurn)
                } else {
                    match login_token(status, body, doc) {
                        Ok(token) => if self.persists() {
                            (
                                Session { phase: Phase::Save, token: Some(token), ..self },
                                Action::SaveToken(token),
                            )
                        } else {
                            self.spec_dispatch(token)
                        },
                        Err(e) => self.spec_close(e),
                    }
                },
                Event::Ack => if self.phase == Phase::Save {
                    self.spec_dispatch(self.token.unwrap())
                } else if self.phase == Phase::Delete {
                    self.spec_begin_login()
                } else {
                    self.spec_close(SendError::OutOfTurn)
                },
                Event::Reply { status } => if self.phase != Phase::Response {
                    self.spec_close(SendError::OutOfTurn)
                } else if status != STATUS_UNAUTHORIZED {
                    (Session { phase: Phase::Closed, ..self }, Action::Deliver)
                } else if self.requests >= MAX_REQUESTS {
                    self.spec_close(SendError::AuthenticationFailed)
                } else {
                    (Session { phase: Phase::Delete, token: None, ..self }, Action::DeleteToken)
                },
            }
        }
    }

    /// What the body of a login's answer parses to; `None` for any other
    /// event.
    pub open spec fn login_document(event: Event) -> Option<Json> {
        match event {
            Event::LoginReply { status, body } => json_document(body@),
            _ => None,
        }
    }

    /// The state after `event` and what the caller does next.
    pub open spec fn spec_step(self, event: Event) -> (Session, Action) {
        self.spec_advance(event, Session::login_document(event))
    }

    /// The state in which a send begins, and its first action. With user
    /// name and password both given the session logs in at once; else it
    /// asks for the cached token.
    pub open spec fn spec_start(creds: (Option<String>, Option<String>)) -> (Session, Action) {
        let s = Session {
            user: creds.0,
            password: creds.1,
            entered_user: None,
            token: None,
            phase: Phase::Cache,
            requests: 0,
            logins: 0,
        };
        if creds.0.is_some() && creds.1.is_some() {
            s.spec_login(creds.0.unwrap(), creds.1.unwrap())
        } else {
            (s, Action::LoadToken)
        }
    }

    pub fn start(creds: (Option<String>, Option<String>)) -> (r: (Session, Action))
        ensures
            r == Session::spec_start(creds),
            r.0.wf(),
    {
        let both = creds.0.is_some() && creds.1.is_some();
        let mut s = Session {
            user: creds.0,
            password: creds.1,
            entered_user: None,
            token: None,
            phase: Phase::Cache,
            requests: 0,
            logins: 0,
        };
        if both {
            let action = s.begin_login();
            (s, action)
        } else {
            (s, Action::LoadToken)
        }
    }

    fn close(&mut self, e: SendError) -> (r: Action)
        ensures
            (*final(self), r) == old(self).spec_close(e),
    {
        self.phase = Phase::Closed;
        Action::Fail(e)
    }

    fn dispatch(&mut self, token: String) -> (r: Action)
        requires
            old(self).requests < MAX_REQUESTS,
        ensures
            (*final(self), r) == old(self).spec_dispatch(token),
    {
        self.phase = Phase::Response;
        self.token = Some(token.clone());
        self.requests = self.requests + 1;
        Action::Send { token }
    }

    fn login(&mut self, username: String, password: String) -> (r: Action)
        requires
            old(self).logins < u8::MAX,
        ensures
            (*final(self), r) == old(self).spec_login(username, password),
    {
        self.phase = Phase::Login;
        self.entered_user = None;
        self.logins = self.logins + 1;
        Action::Login { username, password }
    }

    fn begin_login(&mut self) -> (r: Action)
        requires
            old(self).logins < u8::MAX,
        ensures
            (*final(self), r) == old(self).spec_begin_login(),
    {
        let user = match copy_text(&self.user) {
            Some(user) => user,
            None => {
                self.phase = Phase::User;
                self.entered_user = None;
                return Action::PromptUser;
            },
        };
        let password = match copy_text(&self.password) {
            Some(password) => password,
            None => {
                self.phase = Phase::Password;
                self.entered_user = None;
                return Action::PromptPassword;
            },
        };
        self.login(user, password)
    }

    /// Takes in `event` together with what the body of a login's answer
    /// parses to (`None` for a body that is no JSON document, and for any
    /// other event).
    pub fn advance(&mut self, event: Event, doc: Option<Json>) -> (r: Action)
        requires
            old(self).wf(),
        ensures
            final(self).wf(),
            (*final(self), r) == old(self).spec_advance(event, doc),
            r is Send <==> final(self).requests == old(self).requests + 1,
            !(r is Send) ==> final(self).requests == old(self).requests,
            r is Login <==> final(self).logins == old(self).logins + 1,
            !(r is Login) ==> final(self).logins == old(self).logins,
            !(r is LoadToken),
    {
        if self.phase == Phase::Closed {
            return self.close(SendError::OutOfTurn);
        }
        match event {
            Event::Transport(m) => self.close(SendError::Transport(m)),
            Event::Token(found) => {
                if self.phase != Phase::Cache {
                    return self.close(SendError::OutOfTurn);
                }
                match found {
                    Some(token) => self.dispatch(token),
                    None => self.begin_login(),
                }
            },
            Event::Input(text) => {
                if self.phase == Phase::User {
                    match copy_text(&self.password) {
                        None => {
                            self.phase = Phase::Password;
                            self.entered_user = Some(text);
                            Action::PromptPassword
                        },
                        Some(password) => self.login(text, password),
                    }
                } else if self.phase == Phase::Password {
                    match copy_text(&self.user) {
                        Some(user) => self.login(user, text),
                        None => match copy_text(&self.entered_user) {
                            Some(user) => self.login(user, text),
                            None => self.close(SendError::OutOfTurn),
                        },
                    }
                } else {
                    self.close(SendError::OutOfTurn)
                }
            },
            Event::Interrupted => {
                if self.phase == Phase::User || self.phase == Phase::Password {
                    self.close(SendError::Interrupted)
                } else {
                    self.close(SendError::OutOfTurn)
                }
            },
            Event::LoginReply { status, body } => {
                if self.phase != Phase::Login {
                    return self.close(SendError::OutOfTurn);
                }
                match read_login_reply(status, body, doc) {
                    Ok(token) => {
                        if self.user.is_none() && self.password.is_none() {
                            self.phase = Phase::Save;
                            self.token = Some(token.clone());
                            Action::SaveToken(token)
                        } else {
                            self.dispatch(token)
                        }
                    },
                    Err(e) => self.close(e),
                }
            },
            Event::Ack => {
                if self.phase == Phase::Save {
                    match copy_text(&self.token) {
                        Some(token) => self.dispatch(token),
                        None => self.close(SendError::OutOfTurn),
                    }
                } else if self.phase == Phase::Delete {
                    self.begin_login()
                } else {
                    self.close(SendError::OutOfTurn)
                }
            },
            Event::Reply { status } => {
                if self.phase != Phase::Response {
                    self.close(SendError::OutOfTurn)
                } else if status != STATUS_UNAUTHORIZED {
                    self.phase = Phase::Closed;
                    Action::Deliver
                } else if self.requests >= MAX_REQUESTS {
                    self.close(SendError::AuthenticationFailed)
                } else {
                    self.phase = Phase::Delete;
                    self.token = None;
                    Action::DeleteToken
                }
            },
        }
    }

    /// Takes in `event`; the body of a login's answer is parsed here.
    pub fn step(&mut self, event: Event) -> (r: Action)
        requires
            old(self).wf(),
        ensures
            final(self).wf(),
            (*final(self), r) == old(self).spec_step(event),
    {
        let doc = match &event {
            Event::LoginReply { status: _, body } => Json::parse(body.as_slice()),
            _ => None,
        };
        self.advance(event, doc)
    }

    /// Whether the session has ended.
    pub fn closed(&self) -> (r: bool)
        ensures
            r == (self.phase == Phase::Closed),
    {
        self.phase == Phase::Closed
    }
}

impl Request {
    /// Begins sending the request: the session that carries it, and the
    /// first thing to do.
    pub fn send(&self) -> (r: (Session, Action))
        ensures
            r == Session::spec_start(self.creds),
            r.0.wf(),
    {
        Session::start((copy_text(&self.creds.0), copy_text(&self.creds.1)))
    }
}

/// However a send goes, the request reaches the server at most
/// `MAX_REQUESTS` times: a step keeps the invariant, only a `Send` counts
/// one more request, only a `Login` counts one more login, and no step asks
/// for the cached token again.
pub proof fn lemma_retry_is_bounded(s: Session, event: Event, doc: Option<Json>)
    requires
        s.wf(),
    ensures
        s.spec_advance(event, doc).0.wf(),
        s.spec_advance(event, doc).0.requests <= MAX_REQUESTS,
        s.spec_advance(event, doc).1 is Send <==> s.spec_advance(event, doc).0.requests
            == s.requests + 1,
        !(s.spec_advance(event, doc).1 is Send) ==> s.spec_advance(event, doc).0.requests
            == s.requests,
        s.spec_advance(event, doc).1 is Login <==> s.spec_advance(event, doc).0.logins
            == s.logins + 1,
        !(s.spec_advance(event, doc).1 is Login) ==> s.spec_advance(event, doc).0.logins
            == s.logins,
        !(s.spec_advance(event, doc).1 is LoadToken),
{
}

/// A refused token is answered by one retry and no more: after the first
/// `401` the cached token is removed and the token in use is dropped, so
/// that only a fresh login leads to the next send; after the second the
/// send fails with `AuthenticationFailed`. Any other status is delivered.
pub proof fn lemma_unauthorized_once(s: Session, status: u16, doc: Option<Json>)
    requires
        s.wf(),
        s.phase == Phase::Response,
    ensures
        status == STATUS_UNAUTHORIZED && s.requests == 1 ==> s.spec_advance(
            Event::Reply { status },
            doc,
        ) == (Session { phase: Phase::Delete, token: None, ..s }, Action::DeleteToken),
        status == STATUS_UNAUTHORIZED && s.requests == MAX_REQUESTS ==> s.spec_advance(
            Event::Reply { status },
            doc,
        ) == (Session { phase: Phase::Closed, ..s }, Action::Fail(SendError::AuthenticationFailed)),
        status != STATUS_UNAUTHORIZED ==> s.spec_advance(Event::Reply { status }, doc) == (
            Session { phase: Phase::Closed, ..s },
            Action::Deliver,
        ),
{
}

/// A token that the server refused is not used again: from the removal of
/// the cached token until the next login has been answered, no step sends
/// the request.
pub proof fn lemma_refused_token_is_dropped(s: Session, event: Event, doc: Option<Json>)
    requires
        s.wf(),
        s.phase == Phase::Delete || s.phase == Phase::User || s.phase == Phase::Password,
    ensures
        !(s.spec_advance(event, doc).1 is Send),
        !(s.spec_advance(event, doc).1 is Deliver),
        s.phase == Phase::Delete ==> s.token.is_none(),
        s.spec_advance(event, doc).0.phase != Phase::Response,
{
}

/// With user name and password both given, a send never touches the
/// token cache to read or write it and never prompts: it begins with the
/// login, and no step asks for the cached token, for a save or for input.
pub proof fn lemma_explicit_credential_spares_cache(
    creds: (Option<String>, Option<String>),
    s: Session,
    event: Event,
    doc: Option<Json>,
)
    requires
        creds.0.is_some(),
        creds.1.is_some(),
        s.user.is_some(),
        s.password.is_some(),
    ensures
        Session::spec_start(creds).1 is Login,
        Session::spec_start(creds).0.user == creds.0,
        Session::spec_start(creds).0.password == creds.1,
        s.spec_advance(event, doc).0.user == s.user,
        s.spec_advance(event, doc).0.password == s.password,
        !(s.spec_advance(event, doc).1 is LoadToken),
        !(s.spec_advance(event, doc).1 is SaveToken),
        !(s.spec_advance(event, doc).1 is PromptUser),
        !(s.spec_advance(event, doc).1 is PromptPassword),
{
}

/// A session that has ended stays ended, whatever comes.
pub proof fn lemma_closed_stays_closed(s: Session, event: Event, doc: Option<Json>)
    requires
        s.phase == Phase::Closed,
    ensures
        s.spec_advance(event, doc) == (s, Action::Fail(SendError::OutOfTurn)),
{
}

} // verus!
