//! The life of one channel session, from the request to watch a channel to
//! the end of its stream. A session performs nothing itself: it is told
//! what happened and answers with what is to be done next.

pub mod handle_message;
pub mod machine;

use self::handle_message::{handle_message, routed, Delivery};
use self::machine::{transition, ActionKind, ErrorKind, EventKind, SessionState};
use crate::adapters::redis::{
    AccessToken, CredentialError, CredentialFailure, RedisStorage, StoreCommand, StoreRequest,
};
use crate::data::{ChannelData, ChannelIdentity, ChatEvent};
use crate::emotes::{better_tv, default_platform, seven_tv, EmoteRecord, RemoteEmoteManager};
use vstd::prelude::*;
use vstd::string::*;

verus! {

/// Why a session was given up, or what went wrong while it went on.
#[derive(Debug)]
pub enum SessionError {
    /// The credential could not be loaded.
    Credential(CredentialError),
    /// The platform knows no channel of this name.
    Metadata { login: String },
    /// The chat could not be joined; the text says why.
    Join(String),
    /// A line of activity could not be recorded; the text says why.
    Persistence(String),
    /// A message could not be published; the text says why.
    Publish(String),
}

/// The mathematical content of a [`SessionError`].
pub ghost enum SessionFailure {
    Credential(CredentialFailure),
    Metadata { login: Seq<char> },
    Join(Seq<char>),
    Persistence(Seq<char>),
    Publish(Seq<char>),
}

impl View for SessionError {
    type V = SessionFailure;

    open spec fn view(&self) -> SessionFailure {
        match self {
            SessionError::Credential(error) => SessionFailure::Credential(error@),
            SessionError::Metadata { login } => SessionFailure::Metadata { login: login@ },
            SessionError::Join(reason) => SessionFailure::Join(reason@),
            SessionError::Persistence(reason) => SessionFailure::Persistence(reason@),
            SessionError::Publish(reason) => SessionFailure::Publish(reason@),
        }
    }
}

/// The kind of a failure.
pub open spec fn failure_kind(failure: SessionFailure) -> ErrorKind {
    match failure {
        SessionFailure::Credential(_) => ErrorKind::Credential,
        SessionFailure::Metadata { .. } => ErrorKind::Metadata,
        SessionFailure::Join(_) => ErrorKind::Join,
        SessionFailure::Persistence(_) => ErrorKind::Persistence,
        SessionFailure::Publish(_) => ErrorKind::Publish,
    }
}

impl Clone for SessionError {
    fn clone(&self) -> (copy: Self)
        ensures
            copy@ == self@,
    {
        match self {
            SessionError::Credential(error) => SessionError::Credential(error.clone()),
            SessionError::Metadata { login } => SessionError::Metadata { login: login.clone() },
            SessionError::Join(reason) => SessionError::Join(reason.clone()),
            SessionError::Persistence(reason) => SessionError::Persistence(reason.clone()),
            SessionError::Publish(reason) => SessionError::Publish(reason.clone()),
        }
    }
}

impl SessionError {
    /// The kind of this failure.
    pub fn kind(&self) -> (kind: ErrorKind)
        ensures
            kind == failure_kind(self@),
    {
        match self {
            SessionError::Credential(_) => ErrorKind::Credential,
            SessionError::Metadata { .. } => ErrorKind::Metadata,
            SessionError::Join(_) => ErrorKind::Join,
            SessionError::Persistence(_) => ErrorKind::Persistence,
            SessionError::Publish(_) => ErrorKind::Publish,
        }
    }

    /// Whether a session ends with this failure. A failure to record or to
    /// publish one message does not end it.
    pub fn is_fatal(&self) -> (fatal: bool)
        ensures
            fatal == (failure_kind(self@) != ErrorKind::Persistence && failure_kind(self@)
                != ErrorKind::Publish),
    {
        match self {
            SessionError::Persistence(_) => false,
            SessionError::Publish(_) => false,
            _ => true,
        }
    }
}

/// What a session is told.
pub enum SessionEvent {
    /// The outcome of loading the credential.
    TokenLoaded(Result<AccessToken, CredentialError>),
    /// The channels that the platform names for the requested login. The
    /// list is empty where the platform knows no such channel.
    ChannelResolved(Vec<ChannelData>),
    /// The index built from the replies of the emote providers.
    IndexBuilt(RemoteEmoteManager),
    /// The outcome of joining the chat.
    JoinFinished(Result<(), String>),
    /// The loop that reads the events of the channel has started.
    LoopAttached,
    /// An event of the channel.
    Chat(ChatEvent),
    /// A line of activity could not be recorded.
    PersistFailed(String),
    /// A message could not be published.
    PublishFailed(String),
    /// The stream of events has ended.
    StreamEnded,
}

/// The kind of an event.
pub open spec fn kind_of(event: SessionEvent) -> EventKind {
    match event {
        SessionEvent::TokenLoaded(Ok(_)) => EventKind::TokenLoaded,
        SessionEvent::TokenLoaded(Err(_)) => EventKind::TokenFailed,
        SessionEvent::ChannelResolved(channels) => if channels@.len() > 0 {
            EventKind::ChannelFound
        } else {
            EventKind::ChannelMissing
        },
        SessionEvent::IndexBuilt(_) => EventKind::IndexReady,
        SessionEvent::JoinFinished(Ok(_)) => EventKind::JoinAccepted,
        SessionEvent::JoinFinished(Err(_)) => EventKind::JoinRejected,
        SessionEvent::LoopAttached => EventKind::LoopAttached,
        SessionEvent::Chat(ChatEvent::Posted { .. }) => EventKind::MessagePosted,
        SessionEvent::Chat(_) => EventKind::OtherChat,
        SessionEvent::PersistFailed(_) => EventKind::PersistFailed,
        SessionEvent::PublishFailed(_) => EventKind::PublishFailed,
        SessionEvent::StreamEnded => EventKind::StreamEnded,
    }
}

impl SessionEvent {
    /// The kind of this event.
    pub fn kind(&self) -> (kind: EventKind)
        ensures
            kind == kind_of(*self),
    {
        match self {
            SessionEvent::TokenLoaded(Ok(_)) => EventKind::TokenLoaded,
            SessionEvent::TokenLoaded(Err(_)) => EventKind::TokenFailed,
            SessionEvent::ChannelResolved(channels) => if channels.len() > 0 {
                EventKind::ChannelFound
            } else {
                EventKind::ChannelMissing
            },
            SessionEvent::IndexBuilt(_) => EventKind::IndexReady,
            SessionEvent::JoinFinished(Ok(_)) => EventKind::JoinAccepted,
            SessionEvent::JoinFinished(Err(_)) => EventKind::JoinRejected,
            SessionEvent::LoopAttached => EventKind::LoopAttached,
            SessionEvent::Chat(ChatEvent::Posted { .. }) => EventKind::MessagePosted,
            SessionEvent::Chat(_) => EventKind::OtherChat,
            SessionEvent::PersistFailed(_) => EventKind::PersistFailed,
            SessionEvent::PublishFailed(_) => EventKind::PublishFailed,
            SessionEvent::StreamEnded => EventKind::StreamEnded,
        }
    }
}

/// What a session asks for.
#[derive(Debug)]
pub enum SessionAction {
    /// Ask the platform for the channels of `login`, presenting
    /// `access_token`, and tell the answer as
    /// [`SessionEvent::ChannelResolved`].
    ResolveChannel { login: String, access_token: String },
    /// Fetch the documents at `requests`, build the index from the replies
    /// with [`RemoteEmoteManager::gather`], and hand it over as
    /// [`SessionEvent::IndexBuilt`].
    BuildIndex { requests: Vec<String> },
    /// Join the chat of `channel_login` and tell the outcome as
    /// [`SessionEvent::JoinFinished`].
    Join { channel_login: String },
    /// Start the loop that hands each event of the channel over as
    /// [`SessionEvent::Chat`], and tell so with
    /// [`SessionEvent::LoopAttached`].
    AttachLoop,
    /// Publish the message, then record the line.
    Deliver(Delivery),
    /// The session was given up for this reason.
    Report(SessionError),
    /// This went wrong, and the session goes on.
    Log(SessionError),
    /// Nothing is to be done.
    Nothing,
}

/// The kind of an action.
pub open spec fn action_kind(action: SessionAction) -> ActionKind {
    match action {
        SessionAction::ResolveChannel { .. } => ActionKind::ResolveChannel,
        SessionAction::BuildIndex { .. } => ActionKind::BuildIndex,
        SessionAction::Join { .. } => ActionKind::Join,
        SessionAction::AttachLoop => ActionKind::AttachLoop,
        SessionAction::Deliver(_) => ActionKind::Deliver,
        SessionAction::Report(error) => ActionKind::Report(failure_kind(error@)),
        SessionAction::Log(error) => ActionKind::Log(failure_kind(error@)),
        SessionAction::Nothing => ActionKind::Nothing,
    }
}

impl SessionAction {
    /// The kind of this action.
    pub fn kind(&self) -> (kind: ActionKind)
        ensures
            kind == action_kind(*self),
    {
        match self {
            SessionAction::ResolveChannel { .. } => ActionKind::ResolveChannel,
            SessionAction::BuildIndex { .. } => ActionKind::BuildIndex,
            SessionAction::Join { .. } => ActionKind::Join,
            SessionAction::AttachLoop => ActionKind::AttachLoop,
            SessionAction::Deliver(_) => ActionKind::Deliver,
            SessionAction::Report(error) => ActionKind::Report(error.kind()),
            SessionAction::Log(error) => ActionKind::Log(error.kind()),
            SessionAction::Nothing => ActionKind::Nothing,
        }
    }
}

/// The failure that `event` brings to a session for `login` in `state`, if
/// it brings one.
pub open spec fn failure_of(state: SessionState, login: Seq<char>, event: SessionEvent) -> Option<
    SessionFailure,
> {
    match (state, event) {
        (SessionState::Requested, SessionEvent::TokenLoaded(Err(error))) => Some(
            SessionFailure::Credential(error@),
        ),
        (SessionState::TokenAcquired, SessionEvent::ChannelResolved(channels)) => if channels@.len()
            > 0 {
            None
        } else {
            Some(SessionFailure::Metadata { login })
        },
        (SessionState::IndexBuilt, SessionEvent::JoinFinished(Err(reason))) => Some(
            SessionFailure::Join(reason@),
        ),
        (SessionState::Streaming, SessionEvent::PersistFailed(reason)) => Some(
            SessionFailure::Persistence(reason@),
        ),
        (SessionState::Streaming, SessionEvent::PublishFailed(reason)) => Some(
            SessionFailure::Publish(reason@),
        ),
        _ => None,
    }
}

/// The channel that a session knows after `event`, where it knew `known`
/// before: the first channel that the platform names, once it names one.
pub open spec fn channel_after(
    state: SessionState,
    known: Option<ChannelIdentity>,
    event: SessionEvent,
) -> Option<ChannelIdentity> {
    match (state, event) {
        (SessionState::TokenAcquired, SessionEvent::ChannelResolved(channels)) => if channels@.len()
            > 0 {
            Some(channels@[0]@)
        } else {
            known
        },
        _ => known,
    }
}

/// The index that a session holds after `event`, where it held `held`
/// before: the one that is handed over when the session waits for it.
pub open spec fn index_after(
    state: SessionState,
    held: Option<Map<Seq<char>, EmoteRecord>>,
    event: SessionEvent,
) -> Option<Map<Seq<char>, EmoteRecord>> {
    match (state, event) {
        (SessionState::MetadataResolved, SessionEvent::IndexBuilt(index)) => Some(index@),
        _ => held,
    }
}

/// The addresses to fetch for the channel with the identifier `id`, in the
/// order in which the index takes the contributions.
pub open spec fn index_requests(id: Seq<char>) -> Seq<Seq<char>> {
    seq![
        better_tv::channel_address(id, default_platform()),
        better_tv::global_address(),
        seven_tv::channel_address(id, default_platform()),
        seven_tv::global_address(),
    ]
}

/// The addresses of a list of requests.
pub open spec fn addresses(requests: Seq<String>) -> Seq<Seq<char>> {
    requests.map_values(|request: String| request@)
}

/// Whether `action` carries what a session for `login` that is in `state`,
/// knows `channel` and holds `index` has to hand out on `event`.
pub open spec fn carries(
    action: SessionAction,
    state: SessionState,
    login: Seq<char>,
    channel: Option<ChannelIdentity>,
    index: Option<Map<Seq<char>, EmoteRecord>>,
    event: SessionEvent,
) -> bool {
    match action {
        SessionAction::ResolveChannel { login: asked, access_token } => {
            &&& asked@ == login
            &&& event matches SessionEvent::TokenLoaded(Ok(token))
            &&& access_token@ == token@.access_token
        },
        SessionAction::BuildIndex { requests } => {
            &&& event matches SessionEvent::ChannelResolved(channels)
            &&& channels@.len() > 0
            &&& addresses(requests@) == index_requests(channels@[0]@.id)
        },
        SessionAction::Join { channel_login } => {
            &&& channel matches Some(known)
            &&& channel_login@ == known.user_login
        },
        SessionAction::Deliver(delivery) => {
            &&& event matches SessionEvent::Chat(message)
            &&& channel matches Some(known)
            &&& index matches Some(held)
            &&& Some(delivery@) == routed(message, known.id, held)
        },
        SessionAction::Report(error) => Some(error@) == failure_of(state, login, event),
        SessionAction::Log(error) => Some(error@) == failure_of(state, login, event),
        SessionAction::AttachLoop => true,
        SessionAction::Nothing => true,
    }
}

/// The failures of a list, as mathematical values.
pub open spec fn failures(errors: Seq<SessionError>) -> Seq<SessionFailure> {
    errors.map_values(|error: SessionError| error@)
}

/// The failures that an action tells of.
pub open spec fn told(action: SessionAction) -> Seq<SessionFailure> {
    match action {
        SessionAction::Report(error) => seq![error@],
        SessionAction::Log(error) => seq![error@],
        _ => Seq::empty(),
    }
}

/// The session of one channel.
pub struct ChannelSession {
    login: String,
    state: SessionState,
    channel: Option<ChannelData>,
    emotes: Option<RemoteEmoteManager>,
    errors: Vec<SessionError>,
}

impl ChannelSession {
    /// A session that has resolved its channel knows it, and a session
    /// that waits for the chat or routes its events holds the index.
    #[verifier::type_invariant]
    spec fn consistent(self) -> bool {
        &&& self.state == SessionState::MetadataResolved || self.state == SessionState::IndexBuilt
            || self.state == SessionState::Joined || self.state == SessionState::Streaming
            ==> self.channel is Some
        &&& self.state == SessionState::IndexBuilt || self.state == SessionState::Joined
            || self.state == SessionState::Streaming ==> self.emotes is Some
    }

    /// The login that the session was requested for.
    pub closed spec fn login(&self) -> Seq<char> {
        self.login@
    }

    /// Where the session stands.
    pub closed spec fn state(&self) -> SessionState {
        self.state
    }

    /// The channel, once the platform has told who it is.
    pub closed spec fn channel(&self) -> Option<ChannelIdentity> {
        match self.channel {
            Some(channel) => Some(channel@),
            None => None,
        }
    }

    /// The emote index, once it was built.
    pub closed spec fn index(&self) -> Option<Map<Seq<char>, EmoteRecord>> {
        match self.emotes {
            Some(index) => Some(index@),
            None => None,
        }
    }

    /// The failures that the session has met, in the order in which it met
    /// them.
    pub closed spec fn errors(&self) -> Seq<SessionFailure> {
        failures(self.errors@)
    }

    /// Accepts the request to watch the channel `login`. The session waits
    /// for the credential: its outcome is the first event to tell.
    pub fn new(login: String) -> (session: Self)
        ensures
            session.login() == login@,
            session.state() == SessionState::Requested,
            session.channel() is None,
            session.index() is None,
            session.errors() == Seq::<SessionFailure>::empty(),
    {
        let session = ChannelSession {
            login,
            state: SessionState::Requested,
            channel: None,
            emotes: None,
            errors: Vec::new(),
        };
        proof {
            assert(failures(session.errors@) =~= Seq::<SessionFailure>::empty());
        }
        session
    }

    /// Accepts the request to watch the channel `login`, and says how to
    /// begin: with the command that reads the credential from the store of
    /// `tokens`. What `tokens` makes of the reply is the first event to tell.
    pub fn open(login: String, tokens: &RedisStorage) -> (opened: (ChannelSession, StoreCommand))
        ensures
            opened.0.login() == login@,
            opened.0.state() == SessionState::Requested,
            opened.0.channel() is None,
            opened.0.index() is None,
            opened.0.errors() == Seq::<SessionFailure>::empty(),
            opened.1@ == (StoreRequest::Get { key: tokens.key() }),
    {
        (ChannelSession::new(login), tokens.load_request())
    }

    /// Where the session stands.
    pub fn current_state(&self) -> (state: SessionState)
        ensures
            state == self.state(),
    {
        self.state
    }

    /// The login that the session was requested for.
    pub fn requested_login(&self) -> (login: &String)
        ensures
            login@ == self.login(),
    {
        &self.login
    }

    /// The channel, once the platform has told who it is.
    pub fn resolved_channel(&self) -> (channel: Option<&ChannelData>)
        ensures
            match channel {
                Some(channel) => self.channel() == Some(channel@),
                None => self.channel() is None,
            },
    {
        self.channel.as_ref()
    }

    /// The emote index, once it was built.
    pub fn emote_index(&self) -> (index: Option<&RemoteEmoteManager>)
        ensures
            match index {
                Some(index) => self.index() == Some(index@),
                None => self.index() is None,
            },
    {
        self.emotes.as_ref()
    }

    /// The failures that the session has met.
    pub fn recorded_errors(&self) -> (errors: &Vec<SessionError>)
        ensures
            failures(errors@) == self.errors(),
    {
        &self.errors
    }

    /// Tells the session what happened. The answer is the session as it
    /// stands afterwards and what is to be done next. The kind of the
    /// answer and the new state follow [`transition`]; the answer carries
    /// what [`carries`] asks of it; and every failure that the answer
    /// tells of is added to those that the session has met.
    pub fn step(self, event: SessionEvent) -> (next: (ChannelSession, SessionAction))
        ensures
            next.0.login() == self.login(),
            (next.0.state(), action_kind(next.1)) == transition(self.state(), kind_of(event)),
            next.0.channel() == channel_after(self.state(), self.channel(), event),
            next.0.index() == index_after(self.state(), self.index(), event),
            next.0.errors() == self.errors() + told(next.1),
            carries(next.1, self.state(), self.login(), self.channel(), self.index(), event),
    {
        proof {
            use_type_invariant(&self);
        }
        let ghost before = failures(self.errors@);
        let ChannelSession { login, state, channel, emotes, errors } = self;
        let mut errors = errors;
        match (state, event) {
            (SessionState::Requested, SessionEvent::TokenLoaded(Ok(token))) => {
                let action = SessionAction::ResolveChannel {
                    login: login.clone(),
                    access_token: token.access_token,
                };
                proof {
                    assert(before + told(action) =~= before);
                }
                (
                    ChannelSession {
                        login,
                        state: SessionState::TokenAcquired,
                        channel,
                        emotes,
                        errors,
                    },
                    action,
                )
            },
            (SessionState::Requested, SessionEvent::TokenLoaded(Err(error))) => {
                let failure = SessionError::Credential(error);
                errors.push(failure.clone());
                proof {
                    assert(failures(errors@) =~= before + seq![failure@]);
                }
                (
                    ChannelSession { login, state: SessionState::Closed, channel, emotes, errors },
                    SessionAction::Report(failure),
                )
            },
            (SessionState::TokenAcquired, SessionEvent::ChannelResolved(channels)) => {
                if channels.len() > 0 {
                    let found = channels[0].clone();
                    let requests = RemoteEmoteManager::requests(found.id.as_str(), None);
                    let action = SessionAction::BuildIndex { requests };
                    proof {
                        assert(addresses(requests@) =~= index_requests(found@.id));
                        assert(before + told(action) =~= before);
                    }
                    (
                        ChannelSession {
                            login,
                            state: SessionState::MetadataResolved,
                            channel: Some(found),
                            emotes,
                            errors,
                        },
                        action,
                    )
                } else {
                    let failure = SessionError::Metadata { login: login.clone() };
                    errors.push(failure.clone());
                    proof {
                        assert(failures(errors@) =~= before + seq![failure@]);
                    }
                    (
                        ChannelSession {
                            login,
                            state: SessionState::Closed,
                            channel,
                            emotes,
                            errors,
                        },
                        SessionAction::Report(failure),
                    )
                }
            },
            (SessionState::MetadataResolved, SessionEvent::IndexBuilt(index)) => {
                // A session in this state knows its channel.
                let channel_login = match &channel {
                    Some(known) => known.user_login.clone(),
                    None => String::new(),
                };
                let action = SessionAction::Join { channel_login };
                proof {
                    assert(before + told(action) =~= before);
                }
                (
                    ChannelSession {
                        login,
                        state: SessionState::IndexBuilt,
                        channel,
                        emotes: Some(index),
                        errors,
                    },
                    action,
                )
            },
            (SessionState::IndexBuilt, SessionEvent::JoinFinished(Ok(_))) => {
                proof {
                    assert(before + told(SessionAction::AttachLoop) =~= before);
                }
                (
                    ChannelSession { login, state: SessionState::Joined, channel, emotes, errors },
                    SessionAction::AttachLoop,
                )
            },
            (SessionState::IndexBuilt, SessionEvent::JoinFinished(Err(reason))) => {
                let failure = SessionError::Join(reason);
                errors.push(failure.clone());
                proof {
                    assert(failures(errors@) =~= before + seq![failure@]);
                }
                (
                    ChannelSession { login, state: SessionState::Closed, channel, emotes, errors },
                    SessionAction::Report(failure),
                )
            },
            (SessionState::Joined, SessionEvent::LoopAttached) => {
                proof {
                    assert(before + told(SessionAction::Nothing) =~= before);
                }
                (
                    ChannelSession {
                        login,
                        state: SessionState::Streaming,
                        channel,
                        emotes,
                        errors,
                    },
                    SessionAction::Nothing,
                )
            },
            (SessionState::Streaming, SessionEvent::Chat(message)) => {
                // A streaming session knows its channel and holds the index.
                let delivery = match (&channel, &emotes) {
                    (Some(known), Some(held)) => handle_message(message, known, held),
                    _ => None,
                };
                let action = match delivery {
                    Some(delivery) => SessionAction::Deliver(delivery),
                    None => SessionAction::Nothing,
                };
                proof {
                    assert(before + told(action) =~= before);
                }
                (
                    ChannelSession {
                        login,
                        state: SessionState::Streaming,
                        channel,
                        emotes,
                        errors,
                    },
                    action,
                )
            },
            (SessionState::Streaming, SessionEvent::PersistFailed(reason)) => {
                let failure = SessionError::Persistence(reason);
                errors.push(failure.clone());
                proof {
                    assert(failures(errors@) =~= before + seq![failure@]);
                }
                (
                    ChannelSession {
                        login,
                        state: SessionState::Streaming,
                        channel,
                        emotes,
                        errors,
                    },
                    SessionAction::Log(failure),
                )
            },
            (SessionState::Streaming, SessionEvent::PublishFailed(reason)) => {
                let failure = SessionError::Publish(reason);
                errors.push(failure.clone());
                proof {
                    assert(failures(errors@) =~= before + seq![failure@]);
                }
                (
                    ChannelSession {
                        login,
                        state: SessionState::Streaming,
                        channel,
                        emotes,
                        errors,
                    },
                    SessionAction::Log(failure),
                )
            },
            (SessionState::Joined, SessionEvent::StreamEnded) => {
                proof {
                    assert(before + told(SessionAction::Nothing) =~= before);
                }
                (
                    ChannelSession { login, state: SessionState::Closed, channel, emotes, errors },
                    SessionAction::Nothing,
                )
            },
            (SessionState::Streaming, SessionEvent::StreamEnded) => {
                proof {
                    assert(before + told(SessionAction::Nothing) =~= before);
                }
                (
                    ChannelSession { login, state: SessionState::Closed, channel, emotes, errors },
                    SessionAction::Nothing,
                )
            },
            (state, _) => {
                proof {
                    assert(before + told(SessionAction::Nothing) =~= before);
                }
                (ChannelSession { login, state, channel, emotes, errors }, SessionAction::Nothing)
            },
        }
    }
}

} // verus!
