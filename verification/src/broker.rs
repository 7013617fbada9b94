//! The broker session lifecycle.
//!
//! A session owns a connection, a channel over it, an exchange and a queue
//! declaration, and a consumer registration.  Setup walks those steps in a
//! fixed order and aborts on the first failure; teardown closes the channel
//! before the connection, exactly once.  The whole lifecycle is a state
//! machine: [`session_step`] maps the current state and an observed event to
//! the next state and the one operation to perform next.  The caller performs
//! the operation (it is the only part that touches the network) and reports
//! the outcome back as the next event.

use vstd::prelude::*;

verus! {

/// Why a session failed to become ready.
#[derive(Clone, Copy, Debug, PartialEq, Eq, Structural)]
pub enum BrokerError {
    /// The connection handshake failed.
    ConnectionFailed,
    /// The channel could not be opened over the connection.
    ChannelFailed,
    /// Declaring the exchange or the queue failed.
    DeclareFailed,
    /// Registering the consumer failed.
    ConsumeFailed,
}

/// Where the session stands in its lifecycle.
#[derive(Clone, Copy, Debug, PartialEq, Eq, Structural)]
pub enum SessionState {
    /// Nothing has happened yet.
    Disconnected,
    /// The connection handshake is in flight.
    Connecting,
    /// The connection is up; the channel is being opened.
    Connected,
    /// The channel is open; the exchange and queue are being declared.
    ChannelOpen,
    /// Exchange and queue are declared; the consumer is being registered.
    Declared,
    /// The consumer is registered: the session is fully initialized.
    ConsumerRegistered,
    /// Teardown has begun: the channel close is in flight.
    Closing,
    /// The channel is closed; the connection close is in flight.
    ClosingConnection,
    /// Teardown is complete.
    Closed,
    /// A setup step failed; the session never became ready.
    Failed(BrokerError),
}

/// What the caller observed or requests.
#[derive(Clone, Copy, Debug, PartialEq, Eq, Structural)]
pub enum BrokerEvent {
    /// The caller wants the session brought up.
    StartRequested,
    /// The connection handshake succeeded.
    ConnectOk,
    /// The connection handshake failed.
    ConnectFailed,
    /// The channel was opened.
    ChannelOk,
    /// The channel could not be opened.
    ChannelFailed,
    /// Exchange and queue were declared.
    DeclareOk,
    /// Declaring the exchange or the queue failed.
    DeclareFailed,
    /// The consumer was registered.
    ConsumeOk,
    /// The consumer could not be registered.
    ConsumeFailed,
    /// The caller wants the session torn down.
    CloseRequested,
    /// The channel close finished (successfully or not; close failures are
    /// absorbed and only logged by the caller).
    ChannelCloseDone,
    /// The connection close finished (successfully or not).
    ConnectionCloseDone,
}

/// The one operation the caller must perform next, if any.
#[derive(Clone, Copy, Debug, PartialEq, Eq, Structural)]
pub enum BrokerAction {
    /// Nothing to do for this event.
    Nothing,
    /// Open a connection to the broker address.
    OpenConnection,
    /// Open a channel over the connection.
    OpenChannel,
    /// Declare the exchange, then the queue.
    DeclareTopology,
    /// Register the consumer against the queue.
    RegisterConsumer,
    /// Close the channel with the normal-closure code and reason.
    CloseChannel,
    /// Close the connection with the normal-closure code and reason.
    CloseConnection,
}

/// The complete transition table of the session lifecycle.
///
/// Every pair not listed leaves the state unchanged and asks for nothing;
/// in particular a failed session absorbs all further events, and a second
/// teardown request is ignored.
pub open spec fn spec_session_step(s: SessionState, e: BrokerEvent) -> (SessionState, BrokerAction) {
    match (s, e) {
        (SessionState::Disconnected, BrokerEvent::StartRequested) => (
            SessionState::Connecting,
            BrokerAction::OpenConnection,
        ),
        (SessionState::Connecting, BrokerEvent::ConnectOk) => (
            SessionState::Connected,
            BrokerAction::OpenChannel,
        ),
        (SessionState::Connecting, BrokerEvent::ConnectFailed) => (
            SessionState::Failed(BrokerError::ConnectionFailed),
            BrokerAction::Nothing,
        ),
        (SessionState::Connected, BrokerEvent::ChannelOk) => (
            SessionState::ChannelOpen,
            BrokerAction::DeclareTopology,
        ),
        (SessionState::Connected, BrokerEvent::ChannelFailed) => (
            SessionState::Failed(BrokerError::ChannelFailed),
            BrokerAction::Nothing,
        ),
        (SessionState::ChannelOpen, BrokerEvent::DeclareOk) => (
            SessionState::Declared,
            BrokerAction::RegisterConsumer,
        ),
        (SessionState::ChannelOpen, BrokerEvent::DeclareFailed) => (
            SessionState::Failed(BrokerError::DeclareFailed),
            BrokerAction::Nothing,
        ),
        (SessionState::Declared, BrokerEvent::ConsumeOk) => (
            SessionState::ConsumerRegistered,
            BrokerAction::Nothing,
        ),
        (SessionState::Declared, BrokerEvent::ConsumeFailed) => (
            SessionState::Failed(BrokerError::ConsumeFailed),
            BrokerAction::Nothing,
        ),
        (SessionState::ConsumerRegistered, BrokerEvent::CloseRequested) => (
            SessionState::Closing,
            BrokerAction::CloseChannel,
        ),
        (SessionState::Closing, BrokerEvent::ChannelCloseDone) => (
            SessionState::ClosingConnection,
            BrokerAction::CloseConnection,
        ),
        (SessionState::ClosingConnection, BrokerEvent::ConnectionCloseDone) => (
            SessionState::Closed,
            BrokerAction::Nothing,
        ),
        _ => (s, BrokerAction::Nothing),
    }
}

/// The session is fully initialized and usable.
pub open spec fn spec_session_ready(s: SessionState) -> bool {
    s == SessionState::ConsumerRegistered
}

/// Advance the session lifecycle by one observed event.
pub fn session_step(s: SessionState, e: BrokerEvent) -> (r: (SessionState, BrokerAction))
    ensures
        r == spec_session_step(s, e),
{
    match (s, e) {
        (SessionState::Disconnected, BrokerEvent::StartRequested) => (
            SessionState::Connecting,
            BrokerAction::OpenConnection,
        ),
        (SessionState::Connecting, BrokerEvent::ConnectOk) => (
            SessionState::Connected,
            BrokerAction::OpenChannel,
        ),
        (SessionState::Connecting, BrokerEvent::ConnectFailed) => (
            SessionState::Failed(BrokerError::ConnectionFailed),
            BrokerAction::Nothing,
        ),
        (SessionState::Connected, BrokerEvent::ChannelOk) => (
            SessionState::ChannelOpen,
            BrokerAction::DeclareTopology,
        ),
        (SessionState::Connected, BrokerEvent::ChannelFailed) => (
            SessionState::Failed(BrokerError::ChannelFailed),
            BrokerAction::Nothing,
        ),
        (SessionState::ChannelOpen, BrokerEvent::DeclareOk) => (
            SessionState::Declared,
            BrokerAction::RegisterConsumer,
        ),
        (SessionState::ChannelOpen, BrokerEvent::DeclareFailed) => (
            SessionState::Failed(BrokerError::DeclareFailed),
            BrokerAction::Nothing,
        ),
        (SessionState::Declared, BrokerEvent::ConsumeOk) => (
            SessionState::ConsumerRegistered,
            BrokerAction::Nothing,
        ),
        (SessionState::Declared, BrokerEvent::ConsumeFailed) => (
            SessionState::Failed(BrokerError::ConsumeFailed),
            BrokerAction::Nothing,
        ),
        (SessionState::ConsumerRegistered, BrokerEvent::CloseRequested) => (
            SessionState::Closing,
            BrokerAction::CloseChannel,
        ),
        (SessionState::Closing, BrokerEvent::ChannelCloseDone) => (
            SessionState::ClosingConnection,
            BrokerAction::CloseConnection,
        ),
        (SessionState::ClosingConnection, BrokerEvent::ConnectionCloseDone) => (
            SessionState::Closed,
            BrokerAction::Nothing,
        ),
        _ => (s, BrokerAction::Nothing),
    }
}

/// The session became ready: whether `session_step` reports it.
pub fn session_ready(s: SessionState) -> (r: bool)
    ensures
        r == spec_session_ready(s),
{
    s == SessionState::ConsumerRegistered
}

/// Teardown has begun: the channel close was already requested.
pub open spec fn spec_teardown_started(s: SessionState) -> bool {
    s == SessionState::Closing || s == SessionState::ClosingConnection || s
        == SessionState::Closed
}

/// The connection close was already requested.
pub open spec fn spec_connection_close_started(s: SessionState) -> bool {
    s == SessionState::ClosingConnection || s == SessionState::Closed
}

/// The final state and the emitted actions of a session driven from `s` by
/// the events `es`, one action per event.
pub open spec fn run_session(s: SessionState, es: Seq<BrokerEvent>) -> (
    SessionState,
    Seq<BrokerAction>,
)
    decreases es.len(),
{
    if es.len() == 0 {
        (s, Seq::empty())
    } else {
        let first = spec_session_step(s, es[0]);
        let rest = run_session(first.0, es.drop_first());
        (rest.0, seq![first.1] + rest.1)
    }
}

/// How often an action occurs in a trace.
pub open spec fn action_count(acts: Seq<BrokerAction>, a: BrokerAction) -> nat
    decreases acts.len(),
{
    if acts.len() == 0 {
        0
    } else {
        (if acts[0] == a {
            1nat
        } else {
            0nat
        }) + action_count(acts.drop_first(), a)
    }
}

/// A trace emits one action per event.
pub proof fn lemma_run_session_len(s: SessionState, es: Seq<BrokerEvent>)
    ensures
        run_session(s, es).1.len() == es.len(),
    decreases es.len(),
{
    if es.len() > 0 {
        lemma_run_session_len(spec_session_step(s, es[0]).0, es.drop_first());
    }
}

/// No lifecycle step is skipped: each state is entered from its one
/// predecessor by its one event.
pub proof fn lemma_no_step_skipped(s: SessionState, e: BrokerEvent)
    ensures
        spec_session_step(s, e).0 == SessionState::Connecting && s != SessionState::Connecting
            ==> s == SessionState::Disconnected && e == BrokerEvent::StartRequested,
        spec_session_step(s, e).0 == SessionState::Connected && s != SessionState::Connected ==> s
            == SessionState::Connecting && e == BrokerEvent::ConnectOk,
        spec_session_step(s, e).0 == SessionState::ChannelOpen && s != SessionState::ChannelOpen
            ==> s == SessionState::Connected && e == BrokerEvent::ChannelOk,
        spec_session_step(s, e).0 == SessionState::Declared && s != SessionState::Declared ==> s
            == SessionState::ChannelOpen && e == BrokerEvent::DeclareOk,
        spec_session_step(s, e).0 == SessionState::ConsumerRegistered && s
            != SessionState::ConsumerRegistered ==> s == SessionState::Declared && e
            == BrokerEvent::ConsumeOk,
        spec_session_step(s, e).0 == SessionState::Closing && s != SessionState::Closing ==> s
            == SessionState::ConsumerRegistered && e == BrokerEvent::CloseRequested,
        spec_session_step(s, e).0 == SessionState::ClosingConnection && s
            != SessionState::ClosingConnection ==> s == SessionState::Closing && e
            == BrokerEvent::ChannelCloseDone,
        spec_session_step(s, e).0 == SessionState::Closed && s != SessionState::Closed ==> s
            == SessionState::ClosingConnection && e == BrokerEvent::ConnectionCloseDone,
{
}

/// A second teardown request is ignored: the state holds and nothing is
/// asked of the caller.
pub proof fn lemma_teardown_request_idempotent(s: SessionState)
    requires
        spec_teardown_started(s),
    ensures
        spec_session_step(s, BrokerEvent::CloseRequested) == (s, BrokerAction::Nothing),
{
}

/// A failed session is inert: it stays failed and never asks for anything,
/// whatever events arrive.  In particular a session whose connection
/// handshake failed never declares anything and never registers a consumer.
pub proof fn lemma_failed_session_is_inert(err: BrokerError, es: Seq<BrokerEvent>)
    ensures
        run_session(SessionState::Failed(err), es).0 == SessionState::Failed(err),
        forall|i: int|
            0 <= i < run_session(SessionState::Failed(err), es).1.len() ==> run_session(
                SessionState::Failed(err),
                es,
            ).1[i] == BrokerAction::Nothing,
    decreases es.len(),
{
    if es.len() > 0 {
        let first = spec_session_step(SessionState::Failed(err), es[0]);
        let rest = run_session(SessionState::Failed(err), es.drop_first());
        lemma_failed_session_is_inert(err, es.drop_first());
        assert forall|i: int|
            0 <= i < run_session(SessionState::Failed(err), es).1.len() implies run_session(
            SessionState::Failed(err),
            es,
        ).1[i] == BrokerAction::Nothing by {
            if i > 0 {
                assert(run_session(SessionState::Failed(err), es).1[i] == rest.1[i - 1]);
            }
        }
    }
}

/// A session whose connection handshake fails performs no further broker
/// operation at all, whatever events arrive afterwards: the one action ever
/// asked for is the connection attempt itself.
pub proof fn lemma_connect_failure_has_no_side_effects(es: Seq<BrokerEvent>)
    ensures
        ({
            let whole = seq![BrokerEvent::StartRequested, BrokerEvent::ConnectFailed] + es;
            let r = run_session(SessionState::Disconnected, whole);
            r.0 == SessionState::Failed(BrokerError::ConnectionFailed) && forall|i: int|
                1 <= i < r.1.len() ==> r.1[i] == BrokerAction::Nothing
        }),
{
    let whole = seq![BrokerEvent::StartRequested, BrokerEvent::ConnectFailed] + es;
    let tail1 = seq![BrokerEvent::ConnectFailed] + es;
    assert(whole[0] == BrokerEvent::StartRequested);
    assert(whole.drop_first() =~= tail1);
    assert(tail1[0] == BrokerEvent::ConnectFailed);
    assert(tail1.drop_first() =~= es);
    let failed = SessionState::Failed(BrokerError::ConnectionFailed);
    lemma_failed_session_is_inert(BrokerError::ConnectionFailed, es);
    let inert = run_session(failed, es);
    assert(run_session(SessionState::Connecting, tail1).1 =~= seq![BrokerAction::Nothing]
        + inert.1);
    assert(run_session(SessionState::Disconnected, whole).1 =~= seq![BrokerAction::OpenConnection]
        + (seq![BrokerAction::Nothing] + inert.1));
    assert forall|i: int|
        1 <= i < run_session(SessionState::Disconnected, whole).1.len() implies run_session(
        SessionState::Disconnected,
        whole,
    ).1[i] == BrokerAction::Nothing by {
        if i >= 2 {
            assert(run_session(SessionState::Disconnected, whole).1[i] == inert.1[i - 2]);
        }
    }
}

/// Once teardown has begun it never begins again, and a step that asks for a
/// channel close is exactly the teardown request of a ready session.
proof fn lemma_step_close_channel(s: SessionState, e: BrokerEvent)
    ensures
        spec_session_step(s, e).1 == BrokerAction::CloseChannel <==> (s
            == SessionState::ConsumerRegistered && e == BrokerEvent::CloseRequested),
        spec_session_step(s, e).1 == BrokerAction::CloseConnection <==> (s == SessionState::Closing
            && e == BrokerEvent::ChannelCloseDone),
        spec_teardown_started(s) ==> spec_teardown_started(spec_session_step(s, e).0),
        spec_connection_close_started(s) ==> spec_connection_close_started(
            spec_session_step(s, e).0,
        ),
{
}

/// The channel is closed at most once, and the connection at most once; once
/// teardown is under way neither close is ever asked for again.
pub proof fn lemma_session_closes_at_most_once(s: SessionState, es: Seq<BrokerEvent>)
    ensures
        action_count(run_session(s, es).1, BrokerAction::CloseChannel) <= 1,
        spec_teardown_started(s) ==> action_count(run_session(s, es).1, BrokerAction::CloseChannel)
            == 0,
        action_count(run_session(s, es).1, BrokerAction::CloseConnection) <= 1,
        spec_connection_close_started(s) ==> action_count(
            run_session(s, es).1,
            BrokerAction::CloseConnection,
        ) == 0,
    decreases es.len(),
{
    if es.len() > 0 {
        let first = spec_session_step(s, es[0]);
        let rest = run_session(first.0, es.drop_first());
        lemma_step_close_channel(s, es[0]);
        lemma_session_closes_at_most_once(first.0, es.drop_first());
        let acts = run_session(s, es).1;
        assert(acts[0] == first.1);
        assert(acts.drop_first() =~= rest.1);
    }
}

/// In any trace of a session that has not yet begun teardown, the channel is
/// closed before the connection: a connection close is always preceded by a
/// channel close.
pub proof fn lemma_channel_closes_before_connection(s: SessionState, es: Seq<BrokerEvent>)
    requires
        !spec_teardown_started(s),
    ensures
        forall|j: int|
            0 <= j < run_session(s, es).1.len() && run_session(s, es).1[j]
                == BrokerAction::CloseConnection ==> exists|i: int|
                0 <= i < j && run_session(s, es).1[i] == BrokerAction::CloseChannel,
    decreases es.len(),
{
    if es.len() > 0 {
        let first = spec_session_step(s, es[0]);
        let rest = run_session(first.0, es.drop_first());
        let acts = run_session(s, es).1;
        lemma_step_close_channel(s, es[0]);
        assert(acts[0] == first.1);
        assert(acts.drop_first() =~= rest.1);
        if first.1 == BrokerAction::CloseChannel {
            assert forall|j: int|
                0 <= j < acts.len() && acts[j] == BrokerAction::CloseConnection implies exists|
                i: int,
            |
                0 <= i < j && acts[i] == BrokerAction::CloseChannel by {
                assert(acts[0] == BrokerAction::CloseChannel);
            }
        } else {
            assert(first.1 != BrokerAction::CloseConnection);
            assert(!spec_teardown_started(first.0)) by {
                lemma_no_step_skipped(s, es[0]);
            }
            lemma_channel_closes_before_connection(first.0, es.drop_first());
            assert forall|j: int|
                0 <= j < acts.len() && acts[j] == BrokerAction::CloseConnection implies exists|
                i: int,
            |
                0 <= i < j && acts[i] == BrokerAction::CloseChannel by {
                assert(j >= 1);
                assert(rest.1[j - 1] == BrokerAction::CloseConnection);
                let i0 = choose|i0: int|
                    0 <= i0 < j - 1 && rest.1[i0] == BrokerAction::CloseChannel;
                assert(acts[i0 + 1] == BrokerAction::CloseChannel);
            }
        }
    }
}

/// Teardown of a ready session, as the caller drives it: the channel close
/// is asked for first, the connection close second, and nothing more — a
/// repeated teardown request afterwards asks for nothing.
pub proof fn lemma_teardown_trace()
    ensures
        ({
            let es = seq![
                BrokerEvent::CloseRequested,
                BrokerEvent::ChannelCloseDone,
                BrokerEvent::ConnectionCloseDone,
                BrokerEvent::CloseRequested,
            ];
            let r = run_session(SessionState::ConsumerRegistered, es);
            r.0 == SessionState::Closed && r.1 =~= seq![
                BrokerAction::CloseChannel,
                BrokerAction::CloseConnection,
                BrokerAction::Nothing,
                BrokerAction::Nothing,
            ]
        }),
{
    reveal_with_fuel(run_session, 6);
    let es = seq![
        BrokerEvent::CloseRequested,
        BrokerEvent::ChannelCloseDone,
        BrokerEvent::ConnectionCloseDone,
        BrokerEvent::CloseRequested,
    ];
    let es1 = seq![
        BrokerEvent::ChannelCloseDone,
        BrokerEvent::ConnectionCloseDone,
        BrokerEvent::CloseRequested,
    ];
    let es2 = seq![BrokerEvent::ConnectionCloseDone, BrokerEvent::CloseRequested];
    let es3 = seq![BrokerEvent::CloseRequested];
    assert(es.drop_first() =~= es1);
    assert(es1.drop_first() =~= es2);
    assert(es2.drop_first() =~= es3);
    assert(es3.drop_first() =~= Seq::<BrokerEvent>::empty());
    assert(run_session(SessionState::ConsumerRegistered, es).1 =~= seq![
        BrokerAction::CloseChannel,
        BrokerAction::CloseConnection,
        BrokerAction::Nothing,
        BrokerAction::Nothing,
    ]);
}

/// The broker address used when the caller supplies no override.
pub fn default_broker_addr() -> (r: String)
    ensures
        r@ == "amqp://127.0.0.1:5672/%2f"@,
{
    "amqp://127.0.0.1:5672/%2f".to_owned()
}

/// The broker address to connect to: the override when one is set (the
/// caller reads it from the environment), the well-known local default
/// otherwise.
pub fn resolve_broker_addr(override_addr: Option<String>) -> (r: String)
    ensures
        match override_addr {
            Some(a) => r@ == a@,
            None => r@ == "amqp://127.0.0.1:5672/%2f"@,
        },
{
    match override_addr {
        Some(a) => a,
        None => default_broker_addr(),
    }
}

/// The name of the headers exchange the session declares.
pub fn exchange_name() -> (r: String)
    ensures
        r@ == "2steps"@,
{
    "2steps".to_owned()
}

/// The name of the queue the session declares.
pub fn queue_name() -> (r: String)
    ensures
        r@ == "slack_alerts"@,
{
    "slack_alerts".to_owned()
}

/// The consumer tag the session registers against the queue.
pub fn consumer_tag() -> (r: String)
    ensures
        r@ == "my tag"@,
{
    "my tag".to_owned()
}

/// The normal-closure code used for both teardown closes.
pub fn close_code() -> (r: u16)
    ensures
        r == 200,
{
    200
}

/// The reason string used for both teardown closes.
pub fn close_reason() -> (r: String)
    ensures
        r@ == "client shut down"@,
{
    "client shut down".to_owned()
}

} // verus!
