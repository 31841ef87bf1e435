//! The reconnect-before-publish protocol.
//!
//! The library does not talk to the broker itself. An operation is a chain of
//! requests: each names the one thing that the transport has to do next, and
//! holds what is needed to go on. The caller does what the request says and
//! hands the answer back, which gives the next request, until the operation
//! finishes.
//!
//! Every operation first asks whether the connection is up. If it is not, it
//! asks for one reconnect, and gives up if that fails. Only then are the
//! messages sent, one after the other, and the first failure ends the
//! operation.

use vstd::prelude::*;

use crate::message::{message_views, Message, MessageView};

verus! {

/// How a call on the transport ended: well, or with the cause of the failure.
pub type Outcome = Result<(), Seq<char>>;

/// An outcome as mathematical values.
pub open spec fn outcome_view(outcome: Result<(), String>) -> Outcome {
    match outcome {
        Ok(_) => Ok(()),
        Err(cause) => Err(cause@),
    }
}

/// A request as mathematical values.
pub enum RequestView {
    /// Is the connection up? The messages wait.
    CheckLink(Seq<MessageView>),
    /// Reconnect once. The messages wait.
    Reconnect(Seq<MessageView>),
    /// Send the message. The others wait.
    Send(MessageView, Seq<MessageView>),
    /// Disconnect from the broker.
    Disconnect,
    /// Nothing is left to do: the operation ended with this result.
    Finish(Outcome),
}

/// What follows when the connection is up: the first waiting message is
/// sent, or the operation is finished.
pub open spec fn deliver(pending: Seq<MessageView>) -> RequestView {
    if pending.len() == 0 {
        RequestView::Finish(Ok(()))
    } else {
        RequestView::Send(pending[0], pending.drop_first())
    }
}

/// What follows the answer to `CheckLink`: with the connection down nothing
/// is sent, a reconnect is asked for.
pub open spec fn after_link_check(pending: Seq<MessageView>, connected: bool) -> RequestView {
    if connected {
        deliver(pending)
    } else {
        RequestView::Reconnect(pending)
    }
}

/// What follows the answer to `Reconnect`: a failure ends the operation with
/// its cause, and nothing is sent.
pub open spec fn after_reconnect(pending: Seq<MessageView>, outcome: Outcome) -> RequestView {
    match outcome {
        Ok(_) => deliver(pending),
        Err(cause) => RequestView::Finish(Err(cause)),
    }
}

/// What follows the answer to `Send`: a failure ends the operation with its
/// cause, and the messages that wait are dropped.
pub open spec fn after_send(rest: Seq<MessageView>, outcome: Outcome) -> RequestView {
    match outcome {
        Ok(_) => deliver(rest),
        Err(cause) => RequestView::Finish(Err(cause)),
    }
}

/// Waits for the answer to "is the connection up?".
pub struct LinkCheck {
    pending: Vec<Message>,
}

/// Waits for the outcome of the reconnect.
pub struct Reconnection {
    pending: Vec<Message>,
}

/// Waits for the outcome of the send.
pub struct Dispatch {
    rest: Vec<Message>,
}

/// What the transport has to do next.
pub enum Request {
    /// Ask whether the connection is up, and answer with `LinkCheck::answer`.
    CheckLink(LinkCheck),
    /// Reconnect once, and answer with `Reconnection::answer`.
    Reconnect(Reconnection),
    /// Send the message, and answer with `Dispatch::answer`.
    Send(Message, Dispatch),
    /// Disconnect from the broker. No answer is expected.
    Disconnect,
    /// The operation is over, with this result.
    Finish(Result<(), String>),
}

impl View for LinkCheck {
    type V = Seq<MessageView>;

    closed spec fn view(&self) -> Seq<MessageView> {
        message_views(self.pending@)
    }
}

impl View for Reconnection {
    type V = Seq<MessageView>;

    closed spec fn view(&self) -> Seq<MessageView> {
        message_views(self.pending@)
    }
}

impl View for Dispatch {
    type V = Seq<MessageView>;

    closed spec fn view(&self) -> Seq<MessageView> {
        message_views(self.rest@)
    }
}

impl View for Request {
    type V = RequestView;

    open spec fn view(&self) -> RequestView {
        match self {
            Request::CheckLink(check) => RequestView::CheckLink(check@),
            Request::Reconnect(reconnection) => RequestView::Reconnect(reconnection@),
            Request::Send(message, dispatch) => RequestView::Send(message@, dispatch@),
            Request::Disconnect => RequestView::Disconnect,
            Request::Finish(result) => RequestView::Finish(outcome_view(*result)),
        }
    }
}

/// Sends the first of the messages, or finishes.
fn deliver_next(pending: Vec<Message>) -> (request: Request)
    ensures
        request@ == deliver(message_views(pending@)),
{
    let mut rest = pending;
    if rest.len() == 0 {
        Request::Finish(Ok(()))
    } else {
        let first = rest.remove(0);
        assert(message_views(rest@) =~= message_views(pending@).drop_first());
        Request::Send(first, Dispatch { rest: rest })
    }
}

impl Request {
    /// Begins an operation that sends `messages` in their order. Its first
    /// request is always the question whether the connection is up.
    pub fn operation(messages: Vec<Message>) -> (request: Request)
        ensures
            request@ == RequestView::CheckLink(message_views(messages@)),
    {
        Request::CheckLink(LinkCheck { pending: messages })
    }
}

impl LinkCheck {
    /// The transport said whether the connection is up.
    pub fn answer(self, connected: bool) -> (request: Request)
        ensures
            request@ == after_link_check(self@, connected),
    {
        if connected {
            deliver_next(self.pending)
        } else {
            Request::Reconnect(Reconnection { pending: self.pending })
        }
    }
}

impl Reconnection {
    /// The transport tried to reconnect; an `Err` holds the cause of the
    /// failure.
    pub fn answer(self, outcome: Result<(), String>) -> (request: Request)
        ensures
            request@ == after_reconnect(self@, outcome_view(outcome)),
    {
        match outcome {
            Ok(_) => deliver_next(self.pending),
            Err(cause) => Request::Finish(Err(cause)),
        }
    }
}

impl Dispatch {
    /// The transport tried to send the message; an `Err` holds the cause of
    /// the failure.
    pub fn answer(self, outcome: Result<(), String>) -> (request: Request)
        ensures
            request@ == after_send(self@, outcome_view(outcome)),
    {
        match outcome {
            Ok(_) => deliver_next(self.rest),
            Err(cause) => Request::Finish(Err(cause)),
        }
    }
}

/// Seconds between the keep-alive signals of a connection.
pub const KEEP_ALIVE_SECS: u64 = 20;

/// How the connection to the broker is set up.
#[derive(Clone, Copy, Debug, PartialEq, Eq, Structural)]
pub struct ConnectOptions {
    /// Seconds between keep-alive signals.
    pub keep_alive_secs: u64,
    /// Whether the broker forgets the session when the connection ends.
    pub clean_session: bool,
    /// Whether a last-will message is left with the broker.
    pub last_will: bool,
    /// Whether a user name and a password are sent.
    pub credentials: bool,
    /// Whether the connection is encrypted.
    pub tls: bool,
}

/// The options with which a publisher connects: keep-alive every 20
/// seconds, clean session, and nothing else.
pub open spec fn standard_options() -> ConnectOptions {
    ConnectOptions {
        keep_alive_secs: 20,
        clean_session: true,
        last_will: false,
        credentials: false,
        tls: false,
    }
}


/// How the attempt to connect to the broker ended.
pub enum ConnectOutcome {
    /// The connection is up.
    Connected,
    /// No client could be made for the address; the cause is given.
    ClientFailed(String),
    /// The client could not connect; the cause is given.
    ConnectFailed(String),
}

/// A call on the transport.
pub enum Call {
    /// Make a client for the address and connect it, once, with the options.
    Connect(Seq<char>, ConnectOptions),
    IsConnected,
    Reconnect,
    Send(MessageView),
    Disconnect,
}

/// The answers that the transport gives in the course of one operation.
pub struct Script {
    /// Whether the connection is up when the operation begins.
    pub connected: bool,
    /// How a reconnect ends.
    pub reconnect: Outcome,
    /// How the sends end: `send(0)` for the first send of the operation,
    /// `send(1)` for the second, and so on.
    pub send: spec_fn(int) -> Outcome,
}

/// What an operation does: its calls on the transport in their order, and
/// its result.
pub struct Trace {
    pub calls: Seq<Call>,
    pub result: Outcome,
}

/// A bound on the number of requests that follow `request`.
pub open spec fn steps_left(request: RequestView) -> nat {
    match request {
        RequestView::CheckLink(pending) => pending.len() + 3,
        RequestView::Reconnect(pending) => pending.len() + 2,
        RequestView::Send(_, rest) => rest.len() + 1,
        RequestView::Disconnect => 0,
        RequestView::Finish(_) => 0,
    }
}

/// The trace `then`, with `call` made before it.
pub open spec fn after_call(call: Call, then: Trace) -> Trace {
    Trace { calls: seq![call] + then.calls, result: then.result }
}

/// The trace of the operation that stands at `request`, after `sent` sends,
/// when the transport answers as `script` says.
pub open spec fn run(request: RequestView, script: Script, sent: int) -> Trace
    decreases steps_left(request),
{
    match request {
        RequestView::CheckLink(pending) => after_call(
            Call::IsConnected,
            run(after_link_check(pending, script.connected), script, sent),
        ),
        RequestView::Reconnect(pending) => after_call(
            Call::Reconnect,
            run(after_reconnect(pending, script.reconnect), script, sent),
        ),
        RequestView::Send(message, rest) => after_call(
            Call::Send(message),
            run(after_send(rest, (script.send)(sent)), script, sent + 1),
        ),
        RequestView::Disconnect => Trace { calls: seq![Call::Disconnect], result: Ok(()) },
        RequestView::Finish(result) => Trace { calls: Seq::empty(), result: result },
    }
}

/// The number of sends among the next `count` that succeed before one fails:
/// `count` if none of them fails.
pub open spec fn sends_before_failure(script: Script, sent: int, count: nat) -> nat
    decreases count,
{
    if count == 0 {
        0
    } else if (script.send)(sent) is Err {
        0
    } else {
        1 + sends_before_failure(script, sent + 1, (count - 1) as nat)
    }
}

/// The number of sends that are tried when `count` messages wait: all of
/// them, or those up to the first that fails.
pub open spec fn sends_tried(script: Script, sent: int, count: nat) -> nat {
    let succeeded = sends_before_failure(script, sent, count);
    if succeeded < count {
        succeeded + 1
    } else {
        count
    }
}

/// The result of sending `count` messages: that of the first send that
/// fails, or success.
pub open spec fn sends_result(script: Script, sent: int, count: nat) -> Outcome {
    let succeeded = sends_before_failure(script, sent, count);
    if succeeded < count {
        (script.send)(sent + succeeded)
    } else {
        Ok(())
    }
}

/// The sends of the first `tried` of the messages, in their order.
pub open spec fn send_calls(pending: Seq<MessageView>, tried: nat) -> Seq<Call> {
    Seq::new(tried, |i: int| Call::Send(pending[i]))
}

/// The calls that come before the first send: the question, and one
/// reconnect if the answer was no.
pub open spec fn opening_calls(connected: bool) -> Seq<Call> {
    if connected {
        seq![Call::IsConnected]
    } else {
        seq![Call::IsConnected, Call::Reconnect]
    }
}

/// Once the connection is up, the messages go out in their order until one
/// fails, and the result is that of the first failure, or success.
pub proof fn lemma_delivery(pending: Seq<MessageView>, script: Script, sent: int)
    ensures
        run(deliver(pending), script, sent).calls == send_calls(
            pending,
            sends_tried(script, sent, pending.len()),
        ),
        run(deliver(pending), script, sent).result == sends_result(script, sent, pending.len()),
        sends_tried(script, sent, pending.len()) <= pending.len(),
    decreases pending.len(),
{
    if pending.len() == 0 {
        assert(run(deliver(pending), script, sent).calls =~= send_calls(pending, 0));
    } else {
        let rest = pending.drop_first();
        let outcome = (script.send)(sent);
        let then = run(after_send(rest, outcome), script, sent + 1);
        assert(run(deliver(pending), script, sent) == after_call(Call::Send(pending[0]), then));
        match outcome {
            Ok(_) => {
                lemma_delivery(rest, script, sent + 1);
                let tried_rest = sends_tried(script, sent + 1, rest.len());
                assert(sends_tried(script, sent, pending.len()) == tried_rest + 1);
                assert(seq![Call::Send(pending[0])] + send_calls(rest, tried_rest) =~= send_calls(
                    pending,
                    tried_rest + 1,
                ));
            },
            Err(_) => {
                assert(then.calls =~= Seq::<Call>::empty());
                assert(seq![Call::Send(pending[0])] + then.calls =~= send_calls(pending, 1));
            },
        }
    }
}

/// The whole course of an operation: the question whether the connection is
/// up; one reconnect if it is not; then, unless that reconnect failed, the
/// messages in their order up to the first failure.
pub proof fn lemma_operation(pending: Seq<MessageView>, script: Script)
    ensures
        run(RequestView::CheckLink(pending), script, 0).calls == opening_calls(script.connected)
            + (if script.connected || script.reconnect is Ok {
            send_calls(pending, sends_tried(script, 0, pending.len()))
        } else {
            Seq::<Call>::empty()
        }),
        run(RequestView::CheckLink(pending), script, 0).result == (if script.connected
            || script.reconnect is Ok {
            sends_result(script, 0, pending.len())
        } else {
            script.reconnect
        }),
{
    lemma_delivery(pending, script, 0);
    let sends = send_calls(pending, sends_tried(script, 0, pending.len()));
    if script.connected {
        assert(run(RequestView::CheckLink(pending), script, 0).calls =~= opening_calls(true)
            + sends);
    } else {
        let then = run(after_reconnect(pending, script.reconnect), script, 0);
        assert(run(RequestView::Reconnect(pending), script, 0) == after_call(
            Call::Reconnect,
            then,
        ));
        match script.reconnect {
            Ok(_) => {
                assert(run(RequestView::CheckLink(pending), script, 0).calls =~= opening_calls(
                    false,
                ) + sends);
            },
            Err(_) => {
                assert(run(RequestView::CheckLink(pending), script, 0).calls =~= opening_calls(
                    false,
                ) + Seq::<Call>::empty());
            },
        }
    }
}

/// No message is sent over a connection that is known to be down: an
/// operation begins by asking whether the connection is up; if it is, no
/// reconnect is made; if it is not, exactly one reconnect is made, as the
/// second call, and a send comes only behind it and only if it succeeded.
pub proof fn lemma_one_reconnect_before_any_send(pending: Seq<MessageView>, script: Script)
    ensures
        ({
            let calls = run(RequestView::CheckLink(pending), script, 0).calls;
            &&& calls.len() >= 1
            &&& calls[0] == Call::IsConnected
            &&& script.connected ==> forall|i: int|
                0 <= i < calls.len() ==> calls[i] != Call::Reconnect
            &&& !script.connected ==> calls.len() >= 2 && calls[1] == Call::Reconnect
            &&& forall|i: int| 0 <= i < calls.len() && i != 1 ==> calls[i] != Call::Reconnect
            &&& forall|i: int|
                0 <= i < calls.len() && calls[i] is Send ==> script.connected || (i >= 2
                    && script.reconnect is Ok)
        }),
{
    lemma_operation(pending, script);
}

/// If the connection is down and the reconnect fails, the operation ends
/// with the cause of that failure, and no message is sent.
pub proof fn lemma_failed_reconnect_sends_nothing(pending: Seq<MessageView>, script: Script)
    requires
        !script.connected,
        script.reconnect is Err,
    ensures
        run(RequestView::CheckLink(pending), script, 0).calls == seq![
            Call::IsConnected,
            Call::Reconnect,
        ],
        run(RequestView::CheckLink(pending), script, 0).result == script.reconnect,
{
    lemma_operation(pending, script);
}

/// With the connection up, or brought up by the reconnect, and no send
/// failing, every message is sent once, in the given order, and the
/// operation succeeds.
pub proof fn lemma_all_messages_sent(pending: Seq<MessageView>, script: Script)
    requires
        script.connected || script.reconnect is Ok,
        forall|i: int| 0 <= i < pending.len() ==> #[trigger] (script.send)(i) is Ok,
    ensures
        run(RequestView::CheckLink(pending), script, 0).calls == opening_calls(script.connected)
            + send_calls(pending, pending.len()),
        run(RequestView::CheckLink(pending), script, 0).result == Ok::<(), Seq<char>>(()),
{
    lemma_operation(pending, script);
    lemma_no_failure(script, 0, pending.len());
}

/// If none of the next `count` sends fails, all of them succeed.
proof fn lemma_no_failure(script: Script, sent: int, count: nat)
    requires
        forall|i: int| sent <= i < sent + count ==> #[trigger] (script.send)(i) is Ok,
    ensures
        sends_before_failure(script, sent, count) == count,
    decreases count,
{
    if count > 0 {
        lemma_no_failure(script, sent + 1, (count - 1) as nat);
    }
}

/// A send that fails is the last: the messages behind it are not tried, and
/// the operation ends with the cause of that failure.
pub proof fn lemma_first_failure_ends_operation(
    pending: Seq<MessageView>,
    script: Script,
    failed: int,
)
    requires
        script.connected || script.reconnect is Ok,
        0 <= failed < pending.len(),
        (script.send)(failed) is Err,
        forall|i: int| 0 <= i < failed ==> #[trigger] (script.send)(i) is Ok,
    ensures
        run(RequestView::CheckLink(pending), script, 0).calls == opening_calls(script.connected)
            + send_calls(pending, (failed + 1) as nat),
        run(RequestView::CheckLink(pending), script, 0).result == (script.send)(failed),
{
    lemma_operation(pending, script);
    lemma_failure_at(script, 0, pending.len(), failed);
}

/// If the send at `failed` fails and none before it, that many succeed.
proof fn lemma_failure_at(script: Script, sent: int, count: nat, failed: int)
    requires
        sent <= failed < sent + count,
        (script.send)(failed) is Err,
        forall|i: int| sent <= i < failed ==> #[trigger] (script.send)(i) is Ok,
    ensures
        sends_before_failure(script, sent, count) == failed - sent,
    decreases count,
{
    if sent < failed {
        lemma_failure_at(script, sent + 1, (count - 1) as nat, failed);
    }
}

/// Shutting a publisher down makes one call on the transport, the
/// disconnect, whatever was published before and however it ended.
pub proof fn lemma_disconnect_is_one_call(script: Script)
    ensures
        run(RequestView::Disconnect, script, 0).calls == seq![Call::Disconnect],
{
}

} // verus!
