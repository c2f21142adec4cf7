//! The client's bookkeeping of its database connection: whether it holds a
//! connection, what to answer or do on each request and on each outcome of
//! the network calls, and with which code the process ends when the session
//! ends.
use vstd::prelude::*;

verus! {

/// Whether the client holds a database connection.
#[derive(Clone, Copy, PartialEq, Eq, Structural, Debug)]
pub enum Link {
    Offline,
    Online,
}

/// What happened: a request from the game or the outcome of a network call.
#[derive(Clone, Copy, PartialEq, Eq, Structural, Debug)]
pub enum LinkEvent {
    /// Building the connection worked.
    ConnectSucceeded,
    /// Building the connection failed.
    ConnectFailed,
    /// The game asks to disconnect.
    DisconnectRequested,
    /// Closing the connection worked.
    DisconnectSucceeded,
    /// Closing the connection failed.
    DisconnectFailed,
    /// A frame passed; pending messages may be processed.
    FrameStarted,
}

/// What the client does next.
#[derive(Clone, Copy, PartialEq, Eq, Structural, Debug)]
pub enum LinkAction {
    /// Answer the pending request with this result.
    Answer(bool),
    /// Ask the connection to close; its outcome comes back as an event.
    CallDisconnect,
    /// Process the connection's pending messages.
    ProcessMessages,
    /// Nothing to do.
    Idle,
}

/// The transition table of the connection bookkeeping.
pub open spec fn next_link(state: Link, event: LinkEvent) -> (Link, LinkAction) {
    match event {
        LinkEvent::ConnectSucceeded => (Link::Online, LinkAction::Answer(true)),
        LinkEvent::ConnectFailed => (state, LinkAction::Answer(false)),
        LinkEvent::DisconnectRequested => match state {
            Link::Online => (state, LinkAction::CallDisconnect),
            Link::Offline => (state, LinkAction::Answer(false)),
        },
        LinkEvent::DisconnectSucceeded => (Link::Offline, LinkAction::Answer(true)),
        LinkEvent::DisconnectFailed => (state, LinkAction::Answer(false)),
        LinkEvent::FrameStarted => match state {
            Link::Online => (state, LinkAction::ProcessMessages),
            Link::Offline => (state, LinkAction::Idle),
        },
    }
}

/// One step of the connection bookkeeping: the next state and what to do.
/// A successful connection replaces any previous one and answers `true`; a
/// failed one changes nothing and answers `false`. A disconnection request
/// without a connection is answered `false` at once; with one, the
/// connection is asked to close, and the request is answered `true` once it
/// has closed, or `false`, still connected, if closing failed. Messages are
/// processed each frame while connected.
pub fn link_step(state: Link, event: LinkEvent) -> (r: (Link, LinkAction))
    ensures
        r == next_link(state, event),
        event == LinkEvent::ConnectSucceeded ==> r == (Link::Online, LinkAction::Answer(true)),
        event == LinkEvent::ConnectFailed ==> r == (state, LinkAction::Answer(false)),
        event == LinkEvent::DisconnectRequested && state == Link::Online ==> r == (Link::Online,
            LinkAction::CallDisconnect),
        event == LinkEvent::DisconnectRequested && state == Link::Offline ==> r == (Link::Offline,
            LinkAction::Answer(false)),
        event == LinkEvent::DisconnectSucceeded ==> r == (Link::Offline, LinkAction::Answer(true)),
        event == LinkEvent::DisconnectFailed ==> r == (state, LinkAction::Answer(false)),
        event == LinkEvent::FrameStarted && state == Link::Online ==> r == (Link::Online,
            LinkAction::ProcessMessages),
        event == LinkEvent::FrameStarted && state == Link::Offline ==> r == (Link::Offline, LinkAction::Idle),
{
    match event {
        LinkEvent::ConnectSucceeded => (Link::Online, LinkAction::Answer(true)),
        LinkEvent::ConnectFailed => (state, LinkAction::Answer(false)),
        LinkEvent::DisconnectRequested => match state {
            Link::Online => (state, LinkAction::CallDisconnect),
            Link::Offline => (state, LinkAction::Answer(false)),
        },
        LinkEvent::DisconnectSucceeded => (Link::Offline, LinkAction::Answer(true)),
        LinkEvent::DisconnectFailed => (state, LinkAction::Answer(false)),
        LinkEvent::FrameStarted => match state {
            Link::Online => (state, LinkAction::ProcessMessages),
            Link::Offline => (state, LinkAction::Idle),
        },
    }
}

/// How the session ended.
#[derive(Clone, Copy, PartialEq, Eq, Structural, Debug)]
pub enum SessionEnd {
    /// The connection could not be established.
    ConnectError,
    /// The server closed the connection, with or without an error.
    Disconnected { with_error: bool },
}

/// The code with which the process exits when the session ends: 1 after an
/// error, 0 after a clean disconnection.
pub fn exit_code(end: SessionEnd) -> (code: i32)
    ensures
        code == (match end {
            SessionEnd::ConnectError => 1i32,
            SessionEnd::Disconnected { with_error } => if with_error { 1i32 } else { 0i32 },
        }),
{
    match end {
        SessionEnd::ConnectError => 1,
        SessionEnd::Disconnected { with_error } => if with_error { 1 } else { 0 },
    }
}

/// Once a disconnection has gone through, a further disconnection request is
/// refused without calling out.
pub proof fn law_no_second_disconnect(state: Link)
    ensures
        next_link(next_link(state, LinkEvent::DisconnectSucceeded).0, LinkEvent::DisconnectRequested)
            == (Link::Offline, LinkAction::Answer(false)),
{
}

/// After a successful connection, a disconnection request reaches the
/// connection, and messages are processed each frame.
pub proof fn law_connected_until_closed(state: Link)
    ensures
        ({
            let online = next_link(state, LinkEvent::ConnectSucceeded).0;
            &&& next_link(online, LinkEvent::DisconnectRequested) == (online, LinkAction::CallDisconnect)
            &&& next_link(online, LinkEvent::FrameStarted) == (online, LinkAction::ProcessMessages)
        }),
{
}

/// Failures, disconnection requests and frames never change whether the
/// client is connected; only a successful connection or disconnection does.
pub proof fn law_only_success_changes_the_link(state: Link, event: LinkEvent)
    ensures
        event != LinkEvent::ConnectSucceeded && event != LinkEvent::DisconnectSucceeded
            ==> next_link(state, event).0 == state,
{
}

/// A request to connect or disconnect is always answered, except a
/// disconnection while connected, which first calls out; frames never answer.
pub proof fn law_requests_are_answered(state: Link, event: LinkEvent)
    ensures
        (next_link(state, event).1 is CallDisconnect) <==> (event == LinkEvent::DisconnectRequested
            && state == Link::Online),
        (next_link(state, event).1 is Answer) <==> (event != LinkEvent::FrameStarted
            && !(event == LinkEvent::DisconnectRequested && state == Link::Online)),
{
}

/// Whether the client reports itself connected, given its bookkeeping and
/// the connection's own reply on whether it is still active.
pub open spec fn reports_connected(state: Link, reply: Option<bool>) -> bool {
    state == Link::Online && reply == Some(true)
}

/// The client's answer to "are you connected?": connected only while it
/// holds a connection and that connection says it is active.
pub fn link_status(state: Link, reply: Option<bool>) -> (connected: bool)
    ensures
        connected == reports_connected(state, reply),
        connected <==> (state == Link::Online && reply == Some(true)),
        state == Link::Offline ==> !connected,
{
    match state {
        Link::Online => match reply {
            Some(b) => b,
            None => false,
        },
        Link::Offline => false,
    }
}

/// The state after a run of events, one step after another.
pub open spec fn run_link(state: Link, events: Seq<LinkEvent>) -> Link
    decreases events.len(),
{
    if events.len() == 0 {
        state
    } else {
        run_link(next_link(state, events[0]).0, events.drop_first())
    }
}

/// Running two runs of events one after the other is running their
/// concatenation.
pub proof fn lemma_run_link_concat(state: Link, first: Seq<LinkEvent>, second: Seq<LinkEvent>)
    ensures
        run_link(state, first + second) == run_link(run_link(state, first), second),
    decreases first.len(),
{
    if first.len() == 0 {
        assert(first + second =~= second);
    } else {
        assert((first + second).drop_first() =~= first.drop_first() + second);
        lemma_run_link_concat(next_link(state, first[0]).0, first.drop_first(), second);
    }
}

/// Without a successful connection, an offline client stays offline.
pub proof fn lemma_offline_stays_offline(events: Seq<LinkEvent>)
    requires
        forall|i: int| 0 <= i < events.len() ==> events[i] != LinkEvent::ConnectSucceeded,
    ensures
        run_link(Link::Offline, events) == Link::Offline,
    decreases events.len(),
{
    if events.len() > 0 {
        assert(events[0] != LinkEvent::ConnectSucceeded);
        lemma_offline_stays_offline(events.drop_first());
    }
}

/// A client that has only ever failed to connect since it started, whatever
/// else was asked of it, reports itself not connected.
pub proof fn law_not_connected_without_successful_connect(events: Seq<LinkEvent>, reply: Option<bool>)
    requires
        forall|i: int| 0 <= i < events.len() ==> events[i] != LinkEvent::ConnectSucceeded,
    ensures
        run_link(Link::Offline, events) == Link::Offline,
        !reports_connected(run_link(Link::Offline, events), reply),
{
    lemma_offline_stays_offline(events);
}

/// A client whose last change of connection was a successful disconnection
/// reports itself not connected, whatever failed or refused requests came
/// after it.
pub proof fn law_not_connected_after_disconnect(
    state: Link,
    before: Seq<LinkEvent>,
    after: Seq<LinkEvent>,
    reply: Option<bool>,
)
    requires
        forall|i: int| 0 <= i < after.len() ==> after[i] != LinkEvent::ConnectSucceeded,
    ensures
        run_link(state, before + seq![LinkEvent::DisconnectSucceeded] + after) == Link::Offline,
        !reports_connected(run_link(state, before + seq![LinkEvent::DisconnectSucceeded] + after), reply),
{
    let mid = before + seq![LinkEvent::DisconnectSucceeded];
    lemma_run_link_concat(state, mid, after);
    lemma_run_link_concat(state, before, seq![LinkEvent::DisconnectSucceeded]);
    let s = run_link(state, before);
    let one = seq![LinkEvent::DisconnectSucceeded];
    assert(one.drop_first() =~= Seq::<LinkEvent>::empty());
    assert(one[0] == LinkEvent::DisconnectSucceeded);
    assert(run_link(Link::Offline, Seq::<LinkEvent>::empty()) == Link::Offline);
    assert(run_link(s, seq![LinkEvent::DisconnectSucceeded]) == Link::Offline);
    lemma_offline_stays_offline(after);
}

/// What each event does, whatever the state: a successful connection always
/// leaves the client connected and answers `true`, also when it was already
/// connected (the new connection replaces the old one); a failed connection
/// or disconnection answers `false` and changes nothing; a successful
/// disconnection leaves the client disconnected and answers `true`; a
/// disconnection request calls out only while connected and is otherwise
/// answered `false`; messages are processed each frame only while connected.
pub proof fn law_each_event(state: Link)
    ensures
        next_link(state, LinkEvent::ConnectSucceeded) == (Link::Online, LinkAction::Answer(true)),
        next_link(state, LinkEvent::ConnectFailed) == (state, LinkAction::Answer(false)),
        next_link(state, LinkEvent::DisconnectSucceeded) == (Link::Offline, LinkAction::Answer(true)),
        next_link(state, LinkEvent::DisconnectFailed) == (state, LinkAction::Answer(false)),
        next_link(Link::Online, LinkEvent::DisconnectRequested) == (Link::Online, LinkAction::CallDisconnect),
        next_link(Link::Offline, LinkEvent::DisconnectRequested) == (Link::Offline, LinkAction::Answer(false)),
        next_link(Link::Online, LinkEvent::FrameStarted) == (Link::Online, LinkAction::ProcessMessages),
        next_link(Link::Offline, LinkEvent::FrameStarted) == (Link::Offline, LinkAction::Idle),
{
}

/// The client reports itself connected exactly while it holds a connection
/// that replies it is active.
pub proof fn law_reported_status(state: Link, reply: Option<bool>)
    ensures
        reports_connected(state, reply) <==> (state == Link::Online && reply == Some(true)),
{
}

} // verus!
