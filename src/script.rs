//! One handshake against a broker whose behaviour is fixed in advance: the
//! endpoint is reachable or not, every write succeeds, and each read takes
//! the next reply of a given list (the channel closes when the list runs out).
use vstd::prelude::*;
use crate::auth::{
    next, verdict_of, Attempt, AuthError, Command, CommandModel, Event, EventModel, Handshake,
    PhaseModel, Verdict,
};
use crate::protocol::{strings_view, Request, RequestModel, Response, ResponseModel};

verus! {

/// Detail of the failure to connect to an unreachable endpoint.
pub const UNREACHABLE: &'static str = "broker endpoint unreachable";

/// Detail of the failure to read once the broker has no more replies.
pub const CLOSED: &'static str = "connection closed by broker";

/// Everything one attempt sent, in order, and how it ended.
#[derive(Debug)]
pub struct Transcript {
    pub sent: Vec<Request>,
    pub outcome: Result<(), AuthError>,
}

pub open spec fn requests_view(v: Seq<Request>) -> Seq<RequestModel> {
    v.map_values(|r: Request| r@)
}

pub open spec fn responses_view(v: Seq<Response>) -> Seq<ResponseModel> {
    v.map_values(|r: Response| r@)
}

/// What the scripted broker reports for a command that is not `Finish`.
pub open spec fn broker_event(c: CommandModel, reachable: bool, replies: Seq<ResponseModel>) -> EventModel {
    match c {
        CommandModel::Connect => if reachable {
            EventModel::Connected
        } else {
            EventModel::ConnectFailed(UNREACHABLE@)
        },
        CommandModel::Receive => if replies.len() > 0 {
            EventModel::Received(replies[0])
        } else {
            EventModel::ReceiveFailed(CLOSED@)
        },
        _ => EventModel::Sent,
    }
}

/// The replies left after the scripted broker has answered command `c`.
pub open spec fn replies_after(c: CommandModel, replies: Seq<ResponseModel>) -> Seq<ResponseModel> {
    if c is Receive && replies.len() > 0 {
        replies.drop_first()
    } else {
        replies
    }
}

pub open spec fn phase_rank(p: PhaseModel) -> nat {
    match p {
        PhaseModel::Connecting => 4,
        PhaseModel::CreatingSession => 3,
        PhaseModel::Answering => 2,
        PhaseModel::StartingSession => 2,
        PhaseModel::AwaitingPrompt => 1,
        PhaseModel::AwaitingStart => 1,
        PhaseModel::Cancelling(_) => 1,
        PhaseModel::Done(_) => 0,
    }
}

/// A bound on the steps left before the next read or the end.
pub open spec fn rank(p: PhaseModel, c: CommandModel) -> nat {
    if c is Finish {
        0
    } else {
        phase_rank(p) + 1
    }
}

/// The requests sent from phase `p` with command `c` pending, and the verdict
/// the attempt ends with.
pub open spec fn replay(
    a: Attempt,
    p: PhaseModel,
    c: CommandModel,
    reachable: bool,
    replies: Seq<ResponseModel>,
) -> (Seq<RequestModel>, Verdict)
    decreases replies.len(), rank(p, c),
{
    match c {
        CommandModel::Finish(v) => (Seq::empty(), v),
        _ => {
            let (p2, c2) = next(a, p, broker_event(c, reachable, replies));
            let rest = replay(a, p2, c2, reachable, replies_after(c, replies));
            match c {
                CommandModel::Send(r) => (seq![r] + rest.0, rest.1),
                _ => rest,
            }
        },
    }
}

/// A whole attempt against the scripted broker.
pub open spec fn scripted(a: Attempt, reachable: bool, replies: Seq<ResponseModel>) -> (Seq<RequestModel>, Verdict) {
    replay(a, PhaseModel::Connecting, CommandModel::Connect, reachable, replies)
}

/// Runs one attempt with `username`, `secret` and `session_cmd` against a
/// broker that is `reachable` or not and answers reads with `replies`.
pub fn run_scripted(
    username: String,
    secret: String,
    session_cmd: Vec<String>,
    reachable: bool,
    replies: Vec<Response>,
) -> (t: Transcript)
    ensures
        (requests_view(t.sent@), verdict_of(t.outcome)) == scripted(
            Attempt { username: username@, secret: secret@, cmd: strings_view(session_cmd@) },
            reachable,
            responses_view(replies@),
        ),
{
    let ghost a = Attempt { username: username@, secret: secret@, cmd: strings_view(session_cmd@) };
    let ghost all = responses_view(replies@);
    let (mut hs, mut c) = Handshake::new(username, secret, session_cmd);
    let mut sent: Vec<Request> = Vec::new();
    let mut queue = replies;
    let ghost total = replay(a, hs.phase(), c@, reachable, all);
    proof {
        assert(responses_view(queue@) == all);
    }
    loop
        invariant
            hs.attempt() == a,
            a == (Attempt { username: username@, secret: secret@, cmd: strings_view(session_cmd@) }),
            total == scripted(a, reachable, responses_view(replies@)),
            ({
                let rest = replay(a, hs.phase(), c@, reachable, responses_view(queue@));
                requests_view(sent@) + rest.0 == total.0 && rest.1 == total.1
            }),
        decreases queue@.len(), rank(hs.phase(), c@),
    {
        let ghost before = responses_view(queue@);
        let event = match c {
            Command::Finish(r) => {
                proof {
                    let rest = replay(a, hs.phase(), c@, reachable, before);
                    assert(rest.0 =~= Seq::<RequestModel>::empty());
                    assert(requests_view(sent@) =~= requests_view(sent@) + rest.0);
                }
                return Transcript { sent, outcome: r };
            },
            Command::Connect => if reachable {
                Event::Connected
            } else {
                Event::ConnectFailed(UNREACHABLE.to_string())
            },
            Command::Send(r) => {
                sent.push(r);
                Event::Sent
            },
            Command::Receive => if queue.len() > 0 {
                let r = queue.remove(0);
                proof {
                    assert(responses_view(queue@) =~= before.drop_first());
                }
                Event::Received(r)
            } else {
                Event::ReceiveFailed(CLOSED.to_string())
            },
        };
        c = hs.step(event);
    }
}

} // verus!
