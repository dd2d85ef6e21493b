//! The authentication handshake engine.
//!
//! One attempt runs as a strict sequence: connect, send `CreateSession`,
//! answer prompts until the broker reports `Success` or `Error`, then send
//! `StartSession` and read its verdict. The engine itself does no I/O: each
//! call of [`Handshake::step`] takes the result of the last command and
//! returns the next command, which the caller carries out on the channel.
use vstd::prelude::*;
use crate::protocol::{
    asks_for_answer, option_view, strings_view, wants_answer, AuthMessageType, ErrorType,
    Request, RequestModel, Response, ResponseModel,
};

verus! {

/// Why an attempt did not end authenticated.
#[derive(Debug, PartialEq, Eq)]
pub enum AuthError {
    /// The broker rejected the credential or the session; its description verbatim.
    AuthFailed(String),
    /// The endpoint could not be reached, or the channel failed before any exchange.
    Connection(String),
    /// A malformed or failed exchange, or a message out of the legal sequence.
    Protocol(String),
    /// The session command was empty, detected before `StartSession`.
    InvalidSession(String),
}

/// The mathematical model of how an attempt ended.
pub enum Verdict {
    Authenticated,
    AuthFailed(Seq<char>),
    Connection(Seq<char>),
    Protocol(Seq<char>),
    InvalidSession(Seq<char>),
}

pub open spec fn verdict_of(r: Result<(), AuthError>) -> Verdict {
    match r {
        Ok(()) => Verdict::Authenticated,
        Err(AuthError::AuthFailed(d)) => Verdict::AuthFailed(d@),
        Err(AuthError::Connection(d)) => Verdict::Connection(d@),
        Err(AuthError::Protocol(d)) => Verdict::Protocol(d@),
        Err(AuthError::InvalidSession(d)) => Verdict::InvalidSession(d@),
    }
}

/// Detail of the outcome when the session command is empty.
pub const EMPTY_SESSION_COMMAND: &'static str = "no session command provided";

/// Detail of the outcome when the broker prompts after `StartSession`.
pub const PROMPT_AFTER_START: &'static str = "unexpected auth prompt after start session";

/// Detail of the outcome when a result arrives that does not answer the last command.
pub const OUT_OF_ORDER: &'static str = "channel event out of order";

/// Where an attempt stands.
#[derive(Debug)]
pub enum Phase {
    /// Waiting for the channel to open.
    Connecting,
    /// `CreateSession` handed out, waiting for it to be written.
    CreatingSession,
    /// Waiting for the next message of the prompt loop.
    AwaitingPrompt,
    /// An answer to a prompt handed out, waiting for it to be written.
    Answering,
    /// `StartSession` handed out, waiting for it to be written.
    StartingSession,
    /// Waiting for the broker's reply to `StartSession`.
    AwaitingStart,
    /// The broker rejected the attempt with this description; a best-effort
    /// `CancelSession` is out and its result does not matter.
    Cancelling(String),
    /// The attempt has ended.
    Done(Result<(), AuthError>),
}

pub enum PhaseModel {
    Connecting,
    CreatingSession,
    AwaitingPrompt,
    Answering,
    StartingSession,
    AwaitingStart,
    Cancelling(Seq<char>),
    Done(Verdict),
}

impl View for Phase {
    type V = PhaseModel;

    open spec fn view(&self) -> PhaseModel {
        match self {
            Phase::Connecting => PhaseModel::Connecting,
            Phase::CreatingSession => PhaseModel::CreatingSession,
            Phase::AwaitingPrompt => PhaseModel::AwaitingPrompt,
            Phase::Answering => PhaseModel::Answering,
            Phase::StartingSession => PhaseModel::StartingSession,
            Phase::AwaitingStart => PhaseModel::AwaitingStart,
            Phase::Cancelling(d) => PhaseModel::Cancelling(d@),
            Phase::Done(r) => PhaseModel::Done(verdict_of(*r)),
        }
    }
}

/// The result of the last command, as the channel reports it.
#[derive(Debug)]
pub enum Event {
    Connected,
    ConnectFailed(String),
    Sent,
    SendFailed(String),
    Received(Response),
    ReceiveFailed(String),
}

pub enum EventModel {
    Connected,
    ConnectFailed(Seq<char>),
    Sent,
    SendFailed(Seq<char>),
    Received(ResponseModel),
    ReceiveFailed(Seq<char>),
}

impl View for Event {
    type V = EventModel;

    open spec fn view(&self) -> EventModel {
        match self {
            Event::Connected => EventModel::Connected,
            Event::ConnectFailed(d) => EventModel::ConnectFailed(d@),
            Event::Sent => EventModel::Sent,
            Event::SendFailed(d) => EventModel::SendFailed(d@),
            Event::Received(r) => EventModel::Received(r@),
            Event::ReceiveFailed(d) => EventModel::ReceiveFailed(d@),
        }
    }
}

/// What the caller is to do next on the channel.
#[derive(Debug)]
pub enum Command {
    /// Open the channel to the broker's endpoint.
    Connect,
    /// Write this message.
    Send(Request),
    /// Read one message.
    Receive,
    /// Release the channel; the attempt ended with this result.
    Finish(Result<(), AuthError>),
}

pub enum CommandModel {
    Connect,
    Send(RequestModel),
    Receive,
    Finish(Verdict),
}

impl View for Command {
    type V = CommandModel;

    open spec fn view(&self) -> CommandModel {
        match self {
            Command::Connect => CommandModel::Connect,
            Command::Send(r) => CommandModel::Send(r@),
            Command::Receive => CommandModel::Receive,
            Command::Finish(r) => CommandModel::Finish(verdict_of(*r)),
        }
    }
}

/// What an attempt is made with: the username, the secret, and the session command.
pub struct Attempt {
    pub username: Seq<char>,
    pub secret: Seq<char>,
    pub cmd: Seq<Seq<char>>,
}

/// Ends the attempt with verdict `v`.
pub open spec fn finish(v: Verdict) -> (PhaseModel, CommandModel) {
    (PhaseModel::Done(v), CommandModel::Finish(v))
}

/// The answer to a prompt of kind `kind`: the secret, or no payload at all.
pub open spec fn answer_to(a: Attempt, kind: AuthMessageType) -> Option<Seq<char>> {
    if asks_for_answer(kind) {
        Some(a.secret)
    } else {
        None
    }
}

/// The transition function of the handshake: from the phase and the result of
/// the last command, the next phase and the next command.
pub open spec fn next(a: Attempt, p: PhaseModel, e: EventModel) -> (PhaseModel, CommandModel) {
    match p {
        PhaseModel::Connecting => match e {
            EventModel::Connected => (
                PhaseModel::CreatingSession,
                CommandModel::Send(RequestModel::CreateSession(a.username)),
            ),
            EventModel::ConnectFailed(d) => finish(Verdict::Connection(d)),
            _ => finish(Verdict::Protocol(OUT_OF_ORDER@)),
        },
        PhaseModel::CreatingSession => match e {
            EventModel::Sent => (PhaseModel::AwaitingPrompt, CommandModel::Receive),
            EventModel::SendFailed(d) => finish(Verdict::Connection(d)),
            _ => finish(Verdict::Protocol(OUT_OF_ORDER@)),
        },
        PhaseModel::AwaitingPrompt => match e {
            EventModel::Received(ResponseModel::AuthMessage(kind, _)) => (
                PhaseModel::Answering,
                CommandModel::Send(RequestModel::PostAuthMessageResponse(answer_to(a, kind))),
            ),
            EventModel::Received(ResponseModel::Success) => if a.cmd.len() == 0 {
                finish(Verdict::InvalidSession(EMPTY_SESSION_COMMAND@))
            } else {
                (
                    PhaseModel::StartingSession,
                    CommandModel::Send(RequestModel::StartSession(a.cmd, Seq::empty())),
                )
            },
            EventModel::Received(ResponseModel::Error(_, d)) => (
                PhaseModel::Cancelling(d),
                CommandModel::Send(RequestModel::CancelSession),
            ),
            EventModel::ReceiveFailed(d) => finish(Verdict::Protocol(d)),
            _ => finish(Verdict::Protocol(OUT_OF_ORDER@)),
        },
        PhaseModel::Answering => match e {
            EventModel::Sent => (PhaseModel::AwaitingPrompt, CommandModel::Receive),
            EventModel::SendFailed(d) => finish(Verdict::Protocol(d)),
            _ => finish(Verdict::Protocol(OUT_OF_ORDER@)),
        },
        PhaseModel::StartingSession => match e {
            EventModel::Sent => (PhaseModel::AwaitingStart, CommandModel::Receive),
            EventModel::SendFailed(d) => finish(Verdict::Protocol(d)),
            _ => finish(Verdict::Protocol(OUT_OF_ORDER@)),
        },
        PhaseModel::AwaitingStart => match e {
            EventModel::Received(ResponseModel::Success) => finish(Verdict::Authenticated),
            EventModel::Received(ResponseModel::AuthMessage(_, _)) => finish(
                Verdict::Protocol(PROMPT_AFTER_START@),
            ),
            EventModel::Received(ResponseModel::Error(_, d)) => finish(Verdict::AuthFailed(d)),
            EventModel::ReceiveFailed(d) => finish(Verdict::Protocol(d)),
            _ => finish(Verdict::Protocol(OUT_OF_ORDER@)),
        },
        PhaseModel::Cancelling(d) => finish(Verdict::AuthFailed(d)),
        PhaseModel::Done(v) => finish(v),
    }
}

/// One authentication attempt in progress.
pub struct Handshake {
    username: String,
    secret: String,
    session_cmd: Vec<String>,
    phase: Phase,
}

impl Handshake {
    pub closed spec fn attempt(&self) -> Attempt {
        Attempt {
            username: self.username@,
            secret: self.secret@,
            cmd: strings_view(self.session_cmd@),
        }
    }

    pub closed spec fn phase(&self) -> PhaseModel {
        self.phase@
    }

    /// Starts a fresh attempt; the first command is always to connect.
    pub fn new(username: String, secret: String, session_cmd: Vec<String>) -> (r: (Handshake, Command))
        ensures
            r.0.attempt() == (Attempt {
                username: username@,
                secret: secret@,
                cmd: strings_view(session_cmd@),
            }),
            r.0.phase() == PhaseModel::Connecting,
            r.1@ == CommandModel::Connect,
    {
        (Handshake { username, secret, session_cmd, phase: Phase::Connecting }, Command::Connect)
    }

    /// Whether the attempt has ended.
    pub fn is_done(&self) -> (r: bool)
        ensures
            r == (self.phase() is Done),
    {
        match self.phase {
            Phase::Done(_) => true,
            _ => false,
        }
    }

    /// Takes the result of the last command and gives the next command.
    pub fn step(&mut self, event: Event) -> (c: Command)
        ensures
            final(self).attempt() == old(self).attempt(),
            (final(self).phase(), c@) == next(old(self).attempt(), old(self).phase(), event@),
    {
        let mut phase = Phase::Connecting;
        std::mem::swap(&mut phase, &mut self.phase);
        let (p, c) = self.transition(phase, event);
        self.phase = p;
        c
    }

    fn transition(&self, phase: Phase, event: Event) -> (r: (Phase, Command))
        ensures
            (r.0@, r.1@) == next(self.attempt(), phase@, event@),
    {
        match phase {
            Phase::Connecting => match event {
                Event::Connected => (
                    Phase::CreatingSession,
                    Command::Send(Request::CreateSession { username: self.username.clone() }),
                ),
                Event::ConnectFailed(d) => finished(Err(AuthError::Connection(d))),
                _ => finished(out_of_order()),
            },
            Phase::CreatingSession => match event {
                Event::Sent => (Phase::AwaitingPrompt, Command::Receive),
                Event::SendFailed(d) => finished(Err(AuthError::Connection(d))),
                _ => finished(out_of_order()),
            },
            Phase::AwaitingPrompt => match event {
                Event::Received(Response::AuthMessage { auth_message_type, .. }) => {
                    let response = if wants_answer(auth_message_type) {
                        Some(self.secret.clone())
                    } else {
                        None
                    };
                    (Phase::Answering, Command::Send(Request::PostAuthMessageResponse { response }))
                },
                Event::Received(Response::Success) => {
                    if self.session_cmd.len() == 0 {
                        finished(
                            Err(AuthError::InvalidSession(EMPTY_SESSION_COMMAND.to_string())),
                        )
                    } else {
                        let cmd = self.session_cmd.clone();
                        let env: Vec<String> = Vec::new();
                        proof {
                            assert(strings_view(cmd@) =~= strings_view(self.session_cmd@));
                            assert(strings_view(env@) =~= Seq::empty());
                        }
                        (Phase::StartingSession, Command::Send(Request::StartSession { cmd, env }))
                    }
                },
                Event::Received(Response::Error { description, .. }) => (
                    Phase::Cancelling(description),
                    Command::Send(Request::CancelSession),
                ),
                Event::ReceiveFailed(d) => finished(Err(AuthError::Protocol(d))),
                _ => finished(out_of_order()),
            },
            Phase::Answering => match event {
                Event::Sent => (Phase::AwaitingPrompt, Command::Receive),
                Event::SendFailed(d) => finished(Err(AuthError::Protocol(d))),
                _ => finished(out_of_order()),
            },
            Phase::StartingSession => match event {
                Event::Sent => (Phase::AwaitingStart, Command::Receive),
                Event::SendFailed(d) => finished(Err(AuthError::Protocol(d))),
                _ => finished(out_of_order()),
            },
            Phase::AwaitingStart => match event {
                Event::Received(Response::Success) => finished(Ok(())),
                Event::Received(Response::AuthMessage { .. }) => finished(
                    Err(AuthError::Protocol(PROMPT_AFTER_START.to_string())),
                ),
                Event::Received(Response::Error { description, .. }) => finished(
                    Err(AuthError::AuthFailed(description)),
                ),
                Event::ReceiveFailed(d) => finished(Err(AuthError::Protocol(d))),
                _ => finished(out_of_order()),
            },
            Phase::Cancelling(d) => finished(Err(AuthError::AuthFailed(d))),
            Phase::Done(r) => finished(r),
        }
    }
}

fn out_of_order() -> (r: Result<(), AuthError>)
    ensures
        verdict_of(r) == Verdict::Protocol(OUT_OF_ORDER@),
{
    Err(AuthError::Protocol(OUT_OF_ORDER.to_string()))
}

/// Ends the attempt: the final phase and the command that reports it.
fn finished(r: Result<(), AuthError>) -> (out: (Phase, Command))
    ensures
        (out.0@, out.1@) == finish(verdict_of(r)),
{
    let c = match &r {
        Ok(()) => Ok(()),
        Err(e) => Err(copy_error(e)),
    };
    (Phase::Done(r), Command::Finish(c))
}

fn copy_error(e: &AuthError) -> (r: AuthError)
    ensures
        verdict_of(Err(r)) == verdict_of(Err(*e)),
{
    match e {
        AuthError::AuthFailed(d) => AuthError::AuthFailed(d.clone()),
        AuthError::Connection(d) => AuthError::Connection(d.clone()),
        AuthError::Protocol(d) => AuthError::Protocol(d.clone()),
        AuthError::InvalidSession(d) => AuthError::InvalidSession(d.clone()),
    }
}

} // verus!
