use ferrite::auth::{AuthError, Command, Event, Handshake, EMPTY_SESSION_COMMAND, OUT_OF_ORDER, PROMPT_AFTER_START};
use ferrite::protocol::{wants_answer, AuthMessageType, ErrorType, Request, Response};
use ferrite::script::{run_scripted, CLOSED, UNREACHABLE};

fn secret_prompt(text: &str) -> Response {
    Response::AuthMessage { auth_message_type: AuthMessageType::Secret, auth_message: text.to_string() }
}

fn strings(v: &[&str]) -> Vec<String> {
    v.iter().map(|s| s.to_string()).collect()
}

#[test]
fn alice_logs_into_sway() {
    let t = run_scripted(
        "alice".to_string(),
        "s3cr3t".to_string(),
        strings(&["/usr/bin/sway"]),
        true,
        vec![secret_prompt("Password:"), Response::Success, Response::Success],
    );
    assert_eq!(t.outcome, Ok(()));
    assert_eq!(
        t.sent,
        vec![
            Request::CreateSession { username: "alice".to_string() },
            Request::PostAuthMessageResponse { response: Some("s3cr3t".to_string()) },
            Request::StartSession { cmd: strings(&["/usr/bin/sway"]), env: vec![] },
        ]
    );
}

#[test]
fn secret_prompt_then_success_for_other_credentials() {
    let t = run_scripted(
        "bob".to_string(),
        "".to_string(),
        strings(&["/usr/bin/startx", "--verbose"]),
        true,
        vec![secret_prompt("Password:"), Response::Success, Response::Success],
    );
    assert_eq!(t.outcome, Ok(()));
    assert_eq!(t.sent.len(), 3);
    assert_eq!(t.sent[0], Request::CreateSession { username: "bob".to_string() });
    assert_eq!(t.sent[1], Request::PostAuthMessageResponse { response: Some("".to_string()) });
    assert_eq!(
        t.sent[2],
        Request::StartSession { cmd: strings(&["/usr/bin/startx", "--verbose"]), env: vec![] }
    );
}

#[test]
fn repeated_attempts_each_run_the_whole_sequence() {
    let run = || {
        run_scripted(
            "alice".to_string(),
            "s3cr3t".to_string(),
            strings(&["/usr/bin/sway"]),
            true,
            vec![secret_prompt("Password:"), Response::Success, Response::Success],
        )
    };
    let first = run();
    let second = run();
    assert_eq!(first.sent, second.sent);
    assert_eq!(first.outcome, second.outcome);
    assert_eq!(second.sent[0], Request::CreateSession { username: "alice".to_string() });
    let creates = second.sent.iter().filter(|r| matches!(r, Request::CreateSession { .. })).count();
    assert_eq!(creates, 1);
}

#[test]
fn bad_password_fails_verbatim_and_cancels() {
    let t = run_scripted(
        "alice".to_string(),
        "wrong".to_string(),
        strings(&["/usr/bin/sway"]),
        true,
        vec![Response::Error { error_type: ErrorType::AuthError, description: "bad password".to_string() }],
    );
    assert_eq!(t.outcome, Err(AuthError::AuthFailed("bad password".to_string())));
    assert_eq!(
        t.sent,
        vec![Request::CreateSession { username: "alice".to_string() }, Request::CancelSession]
    );
}

#[test]
fn error_after_a_prompt_also_cancels() {
    let t = run_scripted(
        "alice".to_string(),
        "wrong".to_string(),
        strings(&["/usr/bin/sway"]),
        true,
        vec![
            secret_prompt("Password:"),
            Response::Error { error_type: ErrorType::AuthError, description: "bad password".to_string() },
        ],
    );
    assert_eq!(t.outcome, Err(AuthError::AuthFailed("bad password".to_string())));
    assert_eq!(t.sent.last(), Some(&Request::CancelSession));
    assert_eq!(t.sent.len(), 3);
}

#[test]
fn empty_session_command_is_invalid_and_never_started() {
    let t = run_scripted(
        "alice".to_string(),
        "s3cr3t".to_string(),
        vec![],
        true,
        vec![secret_prompt("Password:"), Response::Success, Response::Success],
    );
    assert_eq!(t.outcome, Err(AuthError::InvalidSession(EMPTY_SESSION_COMMAND.to_string())));
    assert!(t.sent.iter().all(|r| !matches!(r, Request::StartSession { .. })));
    assert_eq!(t.sent.len(), 2);
}

#[test]
fn unreachable_endpoint_sends_nothing() {
    let t = run_scripted(
        "alice".to_string(),
        "s3cr3t".to_string(),
        strings(&["/usr/bin/sway"]),
        false,
        vec![Response::Success, Response::Success],
    );
    assert_eq!(t.outcome, Err(AuthError::Connection(UNREACHABLE.to_string())));
    assert!(t.sent.is_empty());
}

#[test]
fn prompt_after_start_session_is_a_protocol_error() {
    let t = run_scripted(
        "alice".to_string(),
        "s3cr3t".to_string(),
        strings(&["/usr/bin/sway"]),
        true,
        vec![Response::Success, secret_prompt("Password:")],
    );
    assert_eq!(t.outcome, Err(AuthError::Protocol(PROMPT_AFTER_START.to_string())));
    assert_eq!(PROMPT_AFTER_START, "unexpected auth prompt after start session");
    assert_eq!(t.sent.len(), 2);
}

#[test]
fn start_session_error_fails_without_cancel() {
    let t = run_scripted(
        "alice".to_string(),
        "s3cr3t".to_string(),
        strings(&["/usr/bin/sway"]),
        true,
        vec![
            Response::Success,
            Response::Error { error_type: ErrorType::Error, description: "no such command".to_string() },
        ],
    );
    assert_eq!(t.outcome, Err(AuthError::AuthFailed("no such command".to_string())));
    assert!(t.sent.iter().all(|r| !matches!(r, Request::CancelSession)));
}

#[test]
fn info_and_error_prompts_get_no_answer() {
    let t = run_scripted(
        "alice".to_string(),
        "s3cr3t".to_string(),
        strings(&["/usr/bin/sway"]),
        true,
        vec![
            Response::AuthMessage { auth_message_type: AuthMessageType::Info, auth_message: "hello".to_string() },
            Response::AuthMessage { auth_message_type: AuthMessageType::Error, auth_message: "careful".to_string() },
            Response::AuthMessage { auth_message_type: AuthMessageType::Visible, auth_message: "Token:".to_string() },
            Response::Success,
            Response::Success,
        ],
    );
    assert_eq!(t.outcome, Ok(()));
    assert_eq!(t.sent[1], Request::PostAuthMessageResponse { response: None });
    assert_eq!(t.sent[2], Request::PostAuthMessageResponse { response: None });
    assert_eq!(t.sent[3], Request::PostAuthMessageResponse { response: Some("s3cr3t".to_string()) });
    assert!(wants_answer(AuthMessageType::Visible));
    assert!(!wants_answer(AuthMessageType::Info));
}

#[test]
fn broker_hanging_up_is_a_protocol_error() {
    let t = run_scripted(
        "alice".to_string(),
        "s3cr3t".to_string(),
        strings(&["/usr/bin/sway"]),
        true,
        vec![secret_prompt("Password:")],
    );
    assert_eq!(t.outcome, Err(AuthError::Protocol(CLOSED.to_string())));
}

#[test]
fn failed_first_send_is_a_connection_error() {
    let (mut hs, c) = Handshake::new("alice".to_string(), "x".to_string(), strings(&["sway"]));
    assert!(matches!(c, Command::Connect));
    let c = hs.step(Event::Connected);
    assert_eq!(c_request(c), Request::CreateSession { username: "alice".to_string() });
    let c = hs.step(Event::SendFailed("broken pipe".to_string()));
    assert!(matches!(c, Command::Finish(Err(AuthError::Connection(ref d))) if d == "broken pipe"));
    assert!(hs.is_done());
    let c = hs.step(Event::Sent);
    assert!(matches!(c, Command::Finish(Err(AuthError::Connection(ref d))) if d == "broken pipe"));
}

#[test]
fn connect_failure_keeps_its_detail() {
    let (mut hs, _) = Handshake::new("alice".to_string(), "x".to_string(), strings(&["sway"]));
    let c = hs.step(Event::ConnectFailed("no such file".to_string()));
    assert!(matches!(c, Command::Finish(Err(AuthError::Connection(ref d))) if d == "no such file"));
}

#[test]
fn read_failure_in_prompt_loop_is_a_protocol_error() {
    let (mut hs, _) = Handshake::new("alice".to_string(), "x".to_string(), strings(&["sway"]));
    hs.step(Event::Connected);
    let c = hs.step(Event::Sent);
    assert!(matches!(c, Command::Receive));
    assert!(!hs.is_done());
    let c = hs.step(Event::ReceiveFailed("EOF".to_string()));
    assert!(matches!(c, Command::Finish(Err(AuthError::Protocol(ref d))) if d == "EOF"));
}

#[test]
fn failed_cancel_still_reports_the_rejection() {
    let (mut hs, _) = Handshake::new("alice".to_string(), "x".to_string(), strings(&["sway"]));
    hs.step(Event::Connected);
    hs.step(Event::Sent);
    let c = hs.step(Event::Received(Response::Error {
        error_type: ErrorType::AuthError,
        description: "bad password".to_string(),
    }));
    assert_eq!(c_request(c), Request::CancelSession);
    let c = hs.step(Event::SendFailed("broken pipe".to_string()));
    assert!(matches!(c, Command::Finish(Err(AuthError::AuthFailed(ref d))) if d == "bad password"));
}

#[test]
fn event_out_of_order_is_a_protocol_error() {
    let (mut hs, _) = Handshake::new("alice".to_string(), "x".to_string(), strings(&["sway"]));
    let c = hs.step(Event::Received(Response::Success));
    assert!(matches!(c, Command::Finish(Err(AuthError::Protocol(ref d))) if d == OUT_OF_ORDER));
}

fn c_request(c: Command) -> Request {
    match c {
        Command::Send(r) => r,
        other => panic!("expected a request, got {:?}", other),
    }
}

#[test]
fn prompt_after_start_following_earlier_prompts() {
    let t = run_scripted(
        "alice".to_string(),
        "s3cr3t".to_string(),
        strings(&["/usr/bin/sway"]),
        true,
        vec![
            Response::AuthMessage { auth_message_type: AuthMessageType::Info, auth_message: "motd".to_string() },
            secret_prompt("Password:"),
            Response::Success,
            Response::AuthMessage { auth_message_type: AuthMessageType::Visible, auth_message: "again?".to_string() },
        ],
    );
    assert_eq!(t.outcome, Err(AuthError::Protocol("unexpected auth prompt after start session".to_string())));
    assert_eq!(t.sent.len(), 4);
    assert_eq!(t.sent[3], Request::StartSession { cmd: strings(&["/usr/bin/sway"]), env: vec![] });
}
