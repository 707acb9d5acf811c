//! The steps of a session as a machine over kinds of events, and what holds
//! of every run of it.

use vstd::prelude::*;

verus! {

/// Where a session stands. Each state is named after what has been
/// achieved when the session is in it.
#[derive(Debug, Clone, Copy, PartialEq, Eq, Structural)]
pub enum SessionState {
    /// The request to watch the channel was accepted.
    Requested,
    /// The credential was loaded.
    TokenAcquired,
    /// The platform told who the channel is.
    MetadataResolved,
    /// The emote index was built.
    IndexBuilt,
    /// The chat of the channel was joined.
    Joined,
    /// The events of the channel are being routed.
    Streaming,
    /// The session is over.
    Closed,
}

/// The kinds of failure that a session meets.
#[derive(Debug, Clone, Copy, PartialEq, Eq, Structural)]
pub enum ErrorKind {
    /// There is no credential, or it cannot be read.
    Credential,
    /// The platform knows no such channel.
    Metadata,
    /// The chat could not be joined.
    Join,
    /// A line of activity could not be recorded.
    Persistence,
    /// A message could not be published.
    Publish,
}

/// The kinds of event that a session is told of.
#[derive(Debug, Clone, Copy, PartialEq, Eq, Structural)]
pub enum EventKind {
    TokenLoaded,
    TokenFailed,
    ChannelFound,
    ChannelMissing,
    IndexReady,
    JoinAccepted,
    JoinRejected,
    LoopAttached,
    MessagePosted,
    OtherChat,
    PersistFailed,
    PublishFailed,
    StreamEnded,
}

/// The kinds of action that a session asks for.
#[derive(Debug, Clone, Copy, PartialEq, Eq, Structural)]
pub enum ActionKind {
    /// Ask the platform who the channel is.
    ResolveChannel,
    /// Fetch the emotes and build the index.
    BuildIndex,
    /// Join the chat of the channel.
    Join,
    /// Start the loop that reads the events of the channel.
    AttachLoop,
    /// Publish a message and record it.
    Deliver,
    /// Tell that the session was given up, and why.
    Report(ErrorKind),
    /// Note a failure that the session survives.
    Log(ErrorKind),
    /// Nothing is to be done.
    Nothing,
}

/// The state after `event` was met in `state`, and the action to take. An
/// event that `state` does not wait for changes nothing.
pub open spec fn transition(state: SessionState, event: EventKind) -> (SessionState, ActionKind) {
    match (state, event) {
        (SessionState::Requested, EventKind::TokenLoaded) => (
            SessionState::TokenAcquired,
            ActionKind::ResolveChannel,
        ),
        (SessionState::Requested, EventKind::TokenFailed) => (
            SessionState::Closed,
            ActionKind::Report(ErrorKind::Credential),
        ),
        (SessionState::TokenAcquired, EventKind::ChannelFound) => (
            SessionState::MetadataResolved,
            ActionKind::BuildIndex,
        ),
        (SessionState::TokenAcquired, EventKind::ChannelMissing) => (
            SessionState::Closed,
            ActionKind::Report(ErrorKind::Metadata),
        ),
        (SessionState::MetadataResolved, EventKind::IndexReady) => (
            SessionState::IndexBuilt,
            ActionKind::Join,
        ),
        (SessionState::IndexBuilt, EventKind::JoinAccepted) => (
            SessionState::Joined,
            ActionKind::AttachLoop,
        ),
        (SessionState::IndexBuilt, EventKind::JoinRejected) => (
            SessionState::Closed,
            ActionKind::Report(ErrorKind::Join),
        ),
        (SessionState::Joined, EventKind::LoopAttached) => (
            SessionState::Streaming,
            ActionKind::Nothing,
        ),
        (SessionState::Streaming, EventKind::MessagePosted) => (
            SessionState::Streaming,
            ActionKind::Deliver,
        ),
        (SessionState::Streaming, EventKind::PersistFailed) => (
            SessionState::Streaming,
            ActionKind::Log(ErrorKind::Persistence),
        ),
        (SessionState::Streaming, EventKind::PublishFailed) => (
            SessionState::Streaming,
            ActionKind::Log(ErrorKind::Publish),
        ),
        (SessionState::Joined, EventKind::StreamEnded) => (
            SessionState::Closed,
            ActionKind::Nothing,
        ),
        (SessionState::Streaming, EventKind::StreamEnded) => (
            SessionState::Closed,
            ActionKind::Nothing,
        ),
        _ => (state, ActionKind::Nothing),
    }
}

/// The state that a session is in after it met `events`, one after the
/// other, starting in `state`.
pub open spec fn run(state: SessionState, events: Seq<EventKind>) -> SessionState
    decreases events.len(),
{
    if events.len() == 0 {
        state
    } else {
        run(transition(state, events[0]).0, events.drop_first())
    }
}

/// How often a session that starts in `state` asks for `wanted` while it
/// meets `events`.
pub open spec fn issued(state: SessionState, events: Seq<EventKind>, wanted: ActionKind) -> nat
    decreases events.len(),
{
    if events.len() == 0 {
        0
    } else {
        let (next, action) = transition(state, events[0]);
        let now: nat = if action == wanted {
            1
        } else {
            0
        };
        now + issued(next, events.drop_first(), wanted)
    }
}

/// How often a session that starts in `state` enters the state
/// `Streaming` while it meets `events`.
pub open spec fn streamings(state: SessionState, events: Seq<EventKind>) -> nat
    decreases events.len(),
{
    if events.len() == 0 {
        0
    } else {
        let next = transition(state, events[0]).0;
        let now: nat = if state != SessionState::Streaming && next == SessionState::Streaming {
            1
        } else {
            0
        };
        now + streamings(next, events.drop_first())
    }
}

/// How far a session has come.
pub open spec fn progress(state: SessionState) -> int {
    match state {
        SessionState::Requested => 0,
        SessionState::TokenAcquired => 1,
        SessionState::MetadataResolved => 2,
        SessionState::IndexBuilt => 3,
        SessionState::Joined => 4,
        SessionState::Streaming => 5,
        SessionState::Closed => 6,
    }
}

/// The events of a setup in which nothing fails, in their order.
pub open spec fn smooth_setup() -> Seq<EventKind> {
    seq![
        EventKind::TokenLoaded,
        EventKind::ChannelFound,
        EventKind::IndexReady,
        EventKind::JoinAccepted,
        EventKind::LoopAttached,
    ]
}

/// A session never falls back: no event takes it to a state that it has
/// left behind.
pub proof fn lemma_transition_advances(state: SessionState, event: EventKind)
    ensures
        progress(state) <= progress(transition(state, event).0),
{
}

/// A closed session stays closed and asks for nothing, whatever it is told.
pub proof fn lemma_closed_is_final(events: Seq<EventKind>, wanted: ActionKind)
    requires
        wanted != ActionKind::Nothing,
    ensures
        run(SessionState::Closed, events) == SessionState::Closed,
        issued(SessionState::Closed, events, wanted) == 0,
        streamings(SessionState::Closed, events) == 0,
    decreases events.len(),
{
    if events.len() > 0 {
        lemma_closed_is_final(events.drop_first(), wanted);
    }
}

/// Whatever a session is told, it joins the chat at most once, it starts
/// the loop at most once, and it enters `Streaming` at most once; past the
/// state in which each of these happens, it happens no more.
pub proof fn lemma_at_most_once(state: SessionState, events: Seq<EventKind>)
    ensures
        issued(state, events, ActionKind::Join) <= 1,
        issued(state, events, ActionKind::AttachLoop) <= 1,
        streamings(state, events) <= 1,
        progress(state) >= 3 ==> issued(state, events, ActionKind::Join) == 0,
        progress(state) >= 4 ==> issued(state, events, ActionKind::AttachLoop) == 0,
        progress(state) >= 5 ==> streamings(state, events) == 0,
    decreases events.len(),
{
    if events.len() > 0 {
        lemma_at_most_once(transition(state, events[0]).0, events.drop_first());
    }
}

/// A session that is never told that the channel was found joins no chat
/// and never streams: it stays before `MetadataResolved`, or it is closed.
/// When it is told, in the state `TokenAcquired`, that the channel is
/// missing, it closes and reports that the platform knows no such channel.
pub proof fn lemma_no_join_without_channel(state: SessionState, events: Seq<EventKind>)
    requires
        progress(state) <= 1 || state == SessionState::Closed,
        forall|i: int| 0 <= i < events.len() ==> events[i] != EventKind::ChannelFound,
    ensures
        issued(state, events, ActionKind::Join) == 0,
        issued(state, events, ActionKind::AttachLoop) == 0,
        streamings(state, events) == 0,
        progress(run(state, events)) <= 1 || run(state, events) == SessionState::Closed,
        transition(SessionState::TokenAcquired, EventKind::ChannelMissing) == (
            SessionState::Closed,
            ActionKind::Report(ErrorKind::Metadata),
        ),
    decreases events.len(),
{
    if events.len() > 0 {
        assert(events[0] != EventKind::ChannelFound);
        assert forall|i: int| 0 <= i < events.drop_first().len() implies events.drop_first()[i]
            != EventKind::ChannelFound by {
            assert(events.drop_first()[i] == events[i + 1]);
        }
        lemma_no_join_without_channel(transition(state, events[0]).0, events.drop_first());
    }
}

/// A streaming session keeps streaming until it is told that the stream
/// has ended: no failure to publish or to record takes it out of that state.
pub proof fn lemma_streaming_lasts(events: Seq<EventKind>)
    requires
        forall|i: int| 0 <= i < events.len() ==> events[i] != EventKind::StreamEnded,
    ensures
        run(SessionState::Streaming, events) == SessionState::Streaming,
    decreases events.len(),
{
    if events.len() > 0 {
        assert(events[0] != EventKind::StreamEnded);
        assert forall|i: int| 0 <= i < events.drop_first().len() implies events.drop_first()[i]
            != EventKind::StreamEnded by {
            assert(events.drop_first()[i] == events[i + 1]);
        }
        lemma_streaming_lasts(events.drop_first());
    }
}

/// Running through two lists of events in a row is running through the
/// second from where the first ended, and the counts add up.
pub proof fn lemma_run_concat(
    state: SessionState,
    first: Seq<EventKind>,
    second: Seq<EventKind>,
    wanted: ActionKind,
)
    ensures
        run(state, first + second) == run(run(state, first), second),
        issued(state, first + second, wanted) == issued(state, first, wanted) + issued(
            run(state, first),
            second,
            wanted,
        ),
        streamings(state, first + second) == streamings(state, first) + streamings(
            run(state, first),
            second,
        ),
    decreases first.len(),
{
    if first.len() == 0 {
        assert(first + second =~= second);
    } else {
        assert((first + second).drop_first() =~= first.drop_first() + second);
        lemma_run_concat(transition(state, first[0]).0, first.drop_first(), second, wanted);
    }
}

/// A session whose setup meets no failure streams, and stays streaming
/// while the stream lasts. On the way it has joined the chat exactly once,
/// started the loop exactly once and entered `Streaming` exactly once.
pub proof fn lemma_smooth_setup_streams(later: Seq<EventKind>)
    requires
        forall|i: int| 0 <= i < later.len() ==> later[i] != EventKind::StreamEnded,
    ensures
        run(SessionState::Requested, smooth_setup() + later) == SessionState::Streaming,
        issued(SessionState::Requested, smooth_setup() + later, ActionKind::Join) == 1,
        issued(SessionState::Requested, smooth_setup() + later, ActionKind::AttachLoop) == 1,
        streamings(SessionState::Requested, smooth_setup() + later) == 1,
{
    let setup = smooth_setup();
    reveal_with_fuel(run, 6);
    reveal_with_fuel(issued, 6);
    reveal_with_fuel(streamings, 6);
    let s1 = setup.drop_first();
    let s2 = s1.drop_first();
    let s3 = s2.drop_first();
    let s4 = s3.drop_first();
    let s5 = s4.drop_first();
    assert(s5.len() == 0);
    assert(run(SessionState::Requested, setup) == SessionState::Streaming);
    assert(issued(SessionState::Requested, setup, ActionKind::Join) == 1);
    assert(issued(SessionState::Requested, setup, ActionKind::AttachLoop) == 1);
    assert(streamings(SessionState::Requested, setup) == 1);
    lemma_run_concat(SessionState::Requested, setup, later, ActionKind::Join);
    lemma_run_concat(SessionState::Requested, setup, later, ActionKind::AttachLoop);
    lemma_streaming_lasts(later);
    lemma_at_most_once(SessionState::Streaming, later);
}

} // verus!
