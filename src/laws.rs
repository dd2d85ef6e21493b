//! Properties of whole handshakes, proved over the scripted broker of
//! [`crate::script`], which [`crate::script::run_scripted`] runs exactly.
use vstd::prelude::*;
use crate::auth::{
    answer_to, next, Attempt, CommandModel, EventModel, PhaseModel, Verdict, EMPTY_SESSION_COMMAND,
    PROMPT_AFTER_START,
};
use crate::protocol::{AuthMessageType, ErrorType, RequestModel, ResponseModel};
use crate::script::{broker_event, rank, replay, replies_after, scripted, UNREACHABLE};

verus! {

/// A broker that asks for the secret once and then accepts both the
/// credential and the session gets exactly `CreateSession`, the secret as
/// answer, and one `StartSession` with the given command; the attempt ends
/// authenticated.
pub proof fn lemma_secret_prompt_then_success(a: Attempt, prompt: Seq<char>)
    requires
        a.cmd.len() > 0,
    ensures
        scripted(
            a,
            true,
            seq![
                ResponseModel::AuthMessage(AuthMessageType::Secret, prompt),
                ResponseModel::Success,
                ResponseModel::Success,
            ],
        ) == (
            seq![
                RequestModel::CreateSession(a.username),
                RequestModel::PostAuthMessageResponse(Some(a.secret)),
                RequestModel::StartSession(a.cmd, Seq::empty()),
            ],
            Verdict::Authenticated,
        ),
{
    reveal_with_fuel(replay, 12);
    let r = seq![
        ResponseModel::AuthMessage(AuthMessageType::Secret, prompt),
        ResponseModel::Success,
        ResponseModel::Success,
    ];
    assert(r.drop_first() =~= seq![ResponseModel::Success, ResponseModel::Success]);
    assert(r.drop_first().drop_first() =~= seq![ResponseModel::Success]);
    assert(r.drop_first().drop_first().drop_first() =~= Seq::<ResponseModel>::empty());
    let s = scripted(a, true, r);
    assert(s.0 =~= seq![
        RequestModel::CreateSession(a.username),
        RequestModel::PostAuthMessageResponse(Some(a.secret)),
        RequestModel::StartSession(a.cmd, Seq::empty()),
    ]);
}

/// From any phase past `Connecting`, with no `CreateSession` pending, none is ever sent.
proof fn lemma_no_second_create(
    a: Attempt,
    p: PhaseModel,
    c: CommandModel,
    reachable: bool,
    replies: Seq<ResponseModel>,
)
    requires
        p !is Connecting,
        !(c matches CommandModel::Send(RequestModel::CreateSession(_))),
    ensures
        forall|i: int|
            0 <= i < replay(a, p, c, reachable, replies).0.len() ==> !(
            #[trigger] replay(a, p, c, reachable, replies).0[i] is CreateSession),
    decreases replies.len(), rank(p, c),
{
    if !(c is Finish) {
        let (p2, c2) = next(a, p, broker_event(c, reachable, replies));
        lemma_no_second_create(a, p2, c2, reachable, replies_after(c, replies));
    }
}

/// Every attempt is a full sequence of its own: it starts by connecting,
/// and once connected its first message is `CreateSession` for the
/// attempt's username, sent exactly once; nothing from an earlier attempt
/// with the same inputs is reused.
pub proof fn lemma_attempt_starts_afresh(a: Attempt, reachable: bool, replies: Seq<ResponseModel>)
    ensures
        reachable ==> scripted(a, reachable, replies).0.len() >= 1,
        reachable ==> scripted(a, reachable, replies).0[0] == RequestModel::CreateSession(a.username),
        forall|i: int|
            1 <= i < scripted(a, reachable, replies).0.len() ==> !(
            #[trigger] scripted(a, reachable, replies).0[i] is CreateSession),
{
    reveal_with_fuel(replay, 2);
    if reachable {
        lemma_no_second_create(a, PhaseModel::AwaitingPrompt, CommandModel::Receive, reachable, replies);
        let s = scripted(a, reachable, replies);
        let t = replay(a, PhaseModel::AwaitingPrompt, CommandModel::Receive, reachable, replies);
        assert(s.0 == seq![RequestModel::CreateSession(a.username)] + t.0);
        assert forall|i: int| 1 <= i < s.0.len() implies !(#[trigger] s.0[i] is CreateSession) by {
            assert(s.0[i] == t.0[i - 1]);
        }
    }
}

/// In the prompt loop, `k` prompts followed by a rejection get `k` answers
/// and a `CancelSession`, and end with the broker's description.
proof fn lemma_rejection_in_loop(a: Attempt, replies: Seq<ResponseModel>, k: int)
    requires
        0 <= k < replies.len(),
        forall|i: int| 0 <= i < k ==> #[trigger] replies[i] is AuthMessage,
        replies[k] is Error,
    ensures
        ({
            let r = replay(a, PhaseModel::AwaitingPrompt, CommandModel::Receive, true, replies);
            &&& r.1 == Verdict::AuthFailed(replies[k]->Error_1)
            &&& r.0.len() == k + 1
            &&& r.0[k] == RequestModel::CancelSession
            &&& forall|i: int| 0 <= i < k ==> #[trigger] r.0[i] is PostAuthMessageResponse
        }),
    decreases k,
{
    reveal_with_fuel(replay, 3);
    if k > 0 {
        let rest = replies.drop_first();
        assert forall|i: int| 0 <= i < k - 1 implies #[trigger] rest[i] is AuthMessage by {
            assert(rest[i] == replies[i + 1]);
        }
        assert(rest[k - 1] == replies[k]);
        lemma_rejection_in_loop(a, rest, k - 1);
        let t = replay(a, PhaseModel::AwaitingPrompt, CommandModel::Receive, true, rest);
        let r = replay(a, PhaseModel::AwaitingPrompt, CommandModel::Receive, true, replies);
        let answer = RequestModel::PostAuthMessageResponse(answer_to(a, replies[0]->AuthMessage_0));
        assert(r.0 == seq![answer] + t.0);
        assert forall|i: int| 0 <= i < k implies #[trigger] r.0[i] is PostAuthMessageResponse by {
            if i > 0 {
                assert(r.0[i] == t.0[i - 1]);
            }
        }
    }
}

/// A rejection during the prompt loop, after any number of prompts, ends
/// the attempt with the broker's description verbatim, after a
/// `CancelSession` was sent as the last message.
pub proof fn lemma_prompt_error_cancels(a: Attempt, replies: Seq<ResponseModel>, k: int)
    requires
        0 <= k < replies.len(),
        forall|i: int| 0 <= i < k ==> #[trigger] replies[i] is AuthMessage,
        replies[k] is Error,
    ensures
        scripted(a, true, replies).1 == Verdict::AuthFailed(replies[k]->Error_1),
        scripted(a, true, replies).0.len() == k + 2,
        scripted(a, true, replies).0.last() == RequestModel::CancelSession,
{
    reveal_with_fuel(replay, 3);
    lemma_rejection_in_loop(a, replies, k);
    let t = replay(a, PhaseModel::AwaitingPrompt, CommandModel::Receive, true, replies);
    assert(scripted(a, true, replies).0 == seq![RequestModel::CreateSession(a.username)] + t.0);
}

/// A rejection as the first reply: exactly `CreateSession` and
/// `CancelSession` are sent, and the description comes back verbatim.
pub proof fn lemma_first_reply_error_cancels(
    a: Attempt,
    kind: ErrorType,
    description: Seq<char>,
    later: Seq<ResponseModel>,
)
    ensures
        scripted(a, true, seq![ResponseModel::Error(kind, description)] + later) == (
            seq![RequestModel::CreateSession(a.username), RequestModel::CancelSession],
            Verdict::AuthFailed(description),
        ),
{
    reveal_with_fuel(replay, 8);
    let r = seq![ResponseModel::Error(kind, description)] + later;
    assert(r[0] == ResponseModel::Error(kind, description));
    assert(r.drop_first() =~= later);
    let s = scripted(a, true, r);
    assert(s.0 =~= seq![RequestModel::CreateSession(a.username), RequestModel::CancelSession]);
}

/// In the prompt loop, `k` prompts get `k` answers; the attempt then goes on
/// as it would from the reply after them.
proof fn lemma_prompts_answered(a: Attempt, replies: Seq<ResponseModel>, k: int)
    requires
        0 <= k <= replies.len(),
        forall|i: int| 0 <= i < k ==> #[trigger] replies[i] is AuthMessage,
    ensures
        ({
            let r = replay(a, PhaseModel::AwaitingPrompt, CommandModel::Receive, true, replies);
            let t = replay(
                a,
                PhaseModel::AwaitingPrompt,
                CommandModel::Receive,
                true,
                replies.subrange(k, replies.len() as int),
            );
            &&& r.1 == t.1
            &&& r.0.len() == k + t.0.len()
            &&& r.0.subrange(k, r.0.len() as int) == t.0
            &&& forall|i: int| 0 <= i < k ==> #[trigger] r.0[i] is PostAuthMessageResponse
        }),
    decreases k,
{
    if k == 0 {
        let r = replay(a, PhaseModel::AwaitingPrompt, CommandModel::Receive, true, replies);
        assert(replies.subrange(0, replies.len() as int) =~= replies);
        assert(r.0.subrange(0, r.0.len() as int) =~= r.0);
    } else {
        reveal_with_fuel(replay, 3);
        let rest = replies.drop_first();
        assert forall|i: int| 0 <= i < k - 1 implies #[trigger] rest[i] is AuthMessage by {
            assert(rest[i] == replies[i + 1]);
        }
        lemma_prompts_answered(a, rest, k - 1);
        assert(rest.subrange(k - 1, rest.len() as int) =~= replies.subrange(k, replies.len() as int));
        let t = replay(a, PhaseModel::AwaitingPrompt, CommandModel::Receive, true, rest);
        let r = replay(a, PhaseModel::AwaitingPrompt, CommandModel::Receive, true, replies);
        let answer = RequestModel::PostAuthMessageResponse(answer_to(a, replies[0]->AuthMessage_0));
        assert(r.0 == seq![answer] + t.0);
        assert(r.0.subrange(k, r.0.len() as int) =~= t.0.subrange(k - 1, t.0.len() as int));
        assert forall|i: int| 0 <= i < k implies #[trigger] r.0[i] is PostAuthMessageResponse by {
            if i > 0 {
                assert(r.0[i] == t.0[i - 1]);
            }
        }
    }
}

/// A whole attempt against a reachable broker: `CreateSession`, then the
/// prompt loop from the first reply.
proof fn lemma_connected(a: Attempt, replies: Seq<ResponseModel>)
    ensures
        scripted(a, true, replies) == ({
            let t = replay(a, PhaseModel::AwaitingPrompt, CommandModel::Receive, true, replies);
            (seq![RequestModel::CreateSession(a.username)] + t.0, t.1)
        }),
{
    reveal_with_fuel(replay, 3);
}

/// From any phase, with an empty session command and no `StartSession`
/// pending, none is ever sent.
proof fn lemma_no_start_without_command(
    a: Attempt,
    p: PhaseModel,
    c: CommandModel,
    reachable: bool,
    replies: Seq<ResponseModel>,
)
    requires
        a.cmd.len() == 0,
        !(c matches CommandModel::Send(RequestModel::StartSession(_, _))),
    ensures
        forall|i: int|
            0 <= i < replay(a, p, c, reachable, replies).0.len() ==> !(
            #[trigger] replay(a, p, c, reachable, replies).0[i] is StartSession),
    decreases replies.len(), rank(p, c),
{
    if !(c is Finish) {
        let (p2, c2) = next(a, p, broker_event(c, reachable, replies));
        lemma_no_start_without_command(a, p2, c2, reachable, replies_after(c, replies));
    }
}

/// With an empty session command no `StartSession` is ever sent, whatever
/// the broker replies; when the broker accepts the credential, after any
/// number of prompts, the attempt ends with `InvalidSession`.
pub proof fn lemma_empty_command_never_starts(
    a: Attempt,
    reachable: bool,
    replies: Seq<ResponseModel>,
    k: int,
)
    requires
        a.cmd.len() == 0,
    ensures
        forall|i: int|
            0 <= i < scripted(a, reachable, replies).0.len() ==> !(
            #[trigger] scripted(a, reachable, replies).0[i] is StartSession),
        reachable && 0 <= k < replies.len() && (forall|i: int|
            0 <= i < k ==> #[trigger] replies[i] is AuthMessage) && replies[k] is Success ==> {
            &&& scripted(a, reachable, replies).1 == Verdict::InvalidSession(EMPTY_SESSION_COMMAND@)
            &&& scripted(a, reachable, replies).0.len() == k + 1
        },
{
    lemma_no_start_without_command(a, PhaseModel::Connecting, CommandModel::Connect, reachable, replies);
    if reachable && 0 <= k < replies.len() && (forall|i: int|
        0 <= i < k ==> #[trigger] replies[i] is AuthMessage) && replies[k] is Success {
        lemma_connected(a, replies);
        lemma_prompts_answered(a, replies, k);
        let tail = replies.subrange(k, replies.len() as int);
        assert(tail[0] == replies[k]);
        reveal_with_fuel(replay, 3);
        let t = replay(a, PhaseModel::AwaitingPrompt, CommandModel::Receive, true, tail);
        assert(t.0.len() == 0);
    }
}

/// An ended attempt stays ended: whatever is reported to it, it hands out
/// its verdict again and asks for no further I/O.
pub proof fn lemma_done_is_absorbing(a: Attempt, v: Verdict, e: EventModel)
    ensures
        next(a, PhaseModel::Done(v), e) == (PhaseModel::Done(v), CommandModel::Finish(v)),
{
}

/// An unreachable endpoint ends the attempt with a connection error before
/// any message is sent.
pub proof fn lemma_unreachable_sends_nothing(a: Attempt, replies: Seq<ResponseModel>)
    ensures
        scripted(a, false, replies) == (
            Seq::<RequestModel>::empty(),
            Verdict::Connection(UNREACHABLE@),
        ),
{
    reveal_with_fuel(replay, 2);
}

/// A prompt in reply to `StartSession`, whatever prompts came before the
/// broker accepted the credential, is a protocol violation: the attempt
/// ends with a protocol error that says so, right after `StartSession`.
pub proof fn lemma_prompt_after_start(a: Attempt, replies: Seq<ResponseModel>, k: int)
    requires
        a.cmd.len() > 0,
        0 <= k,
        k + 1 < replies.len(),
        forall|i: int| 0 <= i < k ==> #[trigger] replies[i] is AuthMessage,
        replies[k] is Success,
        replies[k + 1] is AuthMessage,
    ensures
        scripted(a, true, replies).1 == Verdict::Protocol(PROMPT_AFTER_START@),
        scripted(a, true, replies).0.len() == k + 2,
        scripted(a, true, replies).0.last() == RequestModel::StartSession(a.cmd, Seq::empty()),
{
    lemma_connected(a, replies);
    lemma_prompts_answered(a, replies, k);
    let tail = replies.subrange(k, replies.len() as int);
    assert(tail[0] == replies[k]);
    assert(tail.drop_first()[0] == replies[k + 1]);
    reveal_with_fuel(replay, 6);
    let t = replay(a, PhaseModel::AwaitingPrompt, CommandModel::Receive, true, tail);
    assert(t.0 =~= seq![RequestModel::StartSession(a.cmd, Seq::empty())]);
    let r = replay(a, PhaseModel::AwaitingPrompt, CommandModel::Receive, true, replies);
    assert(r.0[r.0.len() - 1] == r.0.subrange(k, r.0.len() as int)[0]);
}

} // verus!
