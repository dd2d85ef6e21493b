//! The messages exchanged with the login broker, and their mathematical models.
use vstd::prelude::*;

verus! {

/// The kind of a prompt that the broker issues during authentication.
#[derive(Clone, Copy, Debug, PartialEq, Eq, Structural)]
pub enum AuthMessageType {
    Visible,
    Secret,
    Info,
    Error,
}

/// The kind of an error that the broker reports.
#[derive(Clone, Copy, Debug, PartialEq, Eq, Structural)]
pub enum ErrorType {
    Error,
    AuthError,
}

/// A message sent to the broker.
#[derive(Debug, PartialEq, Eq)]
pub enum Request {
    CreateSession { username: String },
    PostAuthMessageResponse { response: Option<String> },
    StartSession { cmd: Vec<String>, env: Vec<String> },
    CancelSession,
}

/// A message received from the broker.
#[derive(Debug, PartialEq, Eq)]
pub enum Response {
    Success,
    Error { error_type: ErrorType, description: String },
    AuthMessage { auth_message_type: AuthMessageType, auth_message: String },
}

/// The mathematical model of a [`Request`]: its strings as character sequences.
pub enum RequestModel {
    CreateSession(Seq<char>),
    PostAuthMessageResponse(Option<Seq<char>>),
    StartSession(Seq<Seq<char>>, Seq<Seq<char>>),
    CancelSession,
}

/// The mathematical model of a [`Response`].
pub enum ResponseModel {
    Success,
    Error(ErrorType, Seq<char>),
    AuthMessage(AuthMessageType, Seq<char>),
}

/// The characters of each string of a sequence.
pub open spec fn strings_view(v: Seq<String>) -> Seq<Seq<char>> {
    v.map_values(|s: String| s@)
}

pub open spec fn option_view(o: Option<String>) -> Option<Seq<char>> {
    match o {
        Some(s) => Some(s@),
        None => None,
    }
}

impl View for Request {
    type V = RequestModel;

    open spec fn view(&self) -> RequestModel {
        match self {
            Request::CreateSession { username } => RequestModel::CreateSession(username@),
            Request::PostAuthMessageResponse { response } => RequestModel::PostAuthMessageResponse(
                option_view(*response),
            ),
            Request::StartSession { cmd, env } => RequestModel::StartSession(
                strings_view(cmd@),
                strings_view(env@),
            ),
            Request::CancelSession => RequestModel::CancelSession,
        }
    }
}

impl View for Response {
    type V = ResponseModel;

    open spec fn view(&self) -> ResponseModel {
        match self {
            Response::Success => ResponseModel::Success,
            Response::Error { error_type, description } => ResponseModel::Error(
                *error_type,
                description@,
            ),
            Response::AuthMessage { auth_message_type, auth_message } => ResponseModel::AuthMessage(
                *auth_message_type,
                auth_message@,
            ),
        }
    }
}

/// Whether a prompt of this kind is answered with the secret: visible and
/// secret prompts are, informational and error prompts are only acknowledged.
pub open spec fn asks_for_answer(kind: AuthMessageType) -> bool {
    kind is Visible || kind is Secret
}

/// Whether a prompt of this kind is answered with the secret.
pub fn wants_answer(kind: AuthMessageType) -> (r: bool)
    ensures
        r == asks_for_answer(kind),
{
    match kind {
        AuthMessageType::Visible | AuthMessageType::Secret => true,
        AuthMessageType::Info | AuthMessageType::Error => false,
    }
}

} // verus!
