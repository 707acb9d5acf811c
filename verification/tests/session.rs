use channel_sessions::adapters::redis::{
    init_redis, AccessToken, CredentialError, RedisStorage, StoreCommand, Timestamp,
};
use channel_sessions::data::{ChannelData, ChatEvent};
use channel_sessions::emotes::{Emote, ProviderError, RemoteEmoteManager};
use channel_sessions::messages::handle_message::publish_as;
use channel_sessions::messages::machine::{ActionKind, ErrorKind, EventKind, SessionState};
use channel_sessions::messages::{ChannelSession, SessionAction, SessionError, SessionEvent};

fn token() -> AccessToken {
    AccessToken {
        access_token: "bearer-1".to_string(),
        refresh_token: "refresh-1".to_string(),
        created_at: Timestamp { seconds: 1_700_000_000, nanoseconds: 0 },
        expires_at: None,
    }
}

fn alice() -> ChannelData {
    ChannelData { user_login: "alice".to_string(), id: "9001".to_string() }
}

fn kappa(id: &str, url: &str) -> Emote {
    Emote { code: "Kappa".to_string(), id: id.to_string(), url: url.to_string() }
}

fn kappa_index() -> RemoteEmoteManager {
    RemoteEmoteManager::new(vec![
        Ok(vec![kappa("a", "url1")]),
        Err(ProviderError::Unreachable("down".to_string())),
        Ok(vec![kappa("b", "url2")]),
        Ok(vec![]),
    ])
}

fn posted(text: &str) -> SessionEvent {
    SessionEvent::Chat(ChatEvent::Posted {
        channel_login: "alice".to_string(),
        sender: "bob".to_string(),
        text: text.to_string(),
        emotes: vec![],
    })
}

fn streaming() -> ChannelSession {
    let session = ChannelSession::new("alice".to_string());
    let (session, _) = session.step(SessionEvent::TokenLoaded(Ok(token())));
    let (session, _) = session.step(SessionEvent::ChannelResolved(vec![alice()]));
    let (session, _) = session.step(SessionEvent::IndexBuilt(kappa_index()));
    let (session, _) = session.step(SessionEvent::JoinFinished(Ok(())));
    let (session, _) = session.step(SessionEvent::LoopAttached);
    session
}

#[test]
fn messages_are_published_as_new_message() {
    assert_eq!(publish_as(), "new-message");
}

#[test]
fn a_session_opens_with_the_read_of_the_credential() {
    let tokens = RedisStorage::seed(&init_redis());
    let (session, command) = ChannelSession::open("alice".to_string(), &tokens);
    assert_eq!(session.current_state(), SessionState::Requested);
    assert_eq!(session.requested_login(), "alice");
    assert!(matches!(command, StoreCommand::Get { key } if key == "token"));
    let (session, action) = session.step(SessionEvent::TokenLoaded(tokens.load_token(Ok(None))));
    assert_eq!(session.current_state(), SessionState::Closed);
    assert_eq!(action.kind(), ActionKind::Report(ErrorKind::Credential));
}

#[test]
fn a_new_session_waits_for_the_credential() {
    let session = ChannelSession::new("alice".to_string());
    assert_eq!(session.current_state(), SessionState::Requested);
    assert_eq!(session.requested_login(), "alice");
    assert!(session.resolved_channel().is_none());
    assert!(session.emote_index().is_none());
    assert!(session.recorded_errors().is_empty());
}

#[test]
fn a_resolvable_channel_reaches_streaming_with_one_join() {
    let mut joins = 0;
    let mut attaches = 0;
    let session = ChannelSession::new("alice".to_string());

    let (session, action) = session.step(SessionEvent::TokenLoaded(Ok(token())));
    assert_eq!(session.current_state(), SessionState::TokenAcquired);
    match action {
        SessionAction::ResolveChannel { login, access_token } => {
            assert_eq!(login, "alice");
            assert_eq!(access_token, "bearer-1");
        }
        other => panic!("unexpected: {:?}", other),
    }

    let (session, action) = session.step(SessionEvent::ChannelResolved(vec![alice()]));
    assert_eq!(session.current_state(), SessionState::MetadataResolved);
    assert_eq!(session.resolved_channel().unwrap().id, "9001");
    match action {
        SessionAction::BuildIndex { requests } => assert_eq!(
            requests,
            vec![
                "https://api.betterttv.net/3/cached/users/twitch/9001".to_string(),
                "https://api.betterttv.net/3/cached/global".to_string(),
                "https://7tv.io/v3/users/twitch/9001".to_string(),
                "https://7tv.io/v3/emote-sets/62cdd34e72a832540de95857".to_string(),
            ]
        ),
        other => panic!("unexpected: {:?}", other),
    }

    let (session, action) = session.step(SessionEvent::IndexBuilt(kappa_index()));
    assert_eq!(session.current_state(), SessionState::IndexBuilt);
    match action {
        SessionAction::Join { channel_login } => {
            joins += 1;
            assert_eq!(channel_login, "alice");
        }
        other => panic!("unexpected: {:?}", other),
    }

    let (session, action) = session.step(SessionEvent::JoinFinished(Ok(())));
    assert_eq!(session.current_state(), SessionState::Joined);
    if action.kind() == ActionKind::AttachLoop {
        attaches += 1;
    }

    let (session, action) = session.step(SessionEvent::LoopAttached);
    assert_eq!(session.current_state(), SessionState::Streaming);
    assert_eq!(action.kind(), ActionKind::Nothing);

    let (session, action) = session.step(SessionEvent::IndexBuilt(kappa_index()));
    assert_eq!(action.kind(), ActionKind::Nothing);
    let (session, action) = session.step(SessionEvent::JoinFinished(Ok(())));
    assert_eq!(action.kind(), ActionKind::Nothing);
    assert_eq!(session.current_state(), SessionState::Streaming);
    assert_eq!(joins, 1);
    assert_eq!(attaches, 1);
    assert!(session.recorded_errors().is_empty());
}

#[test]
fn the_first_channel_of_the_answer_is_taken() {
    let session = ChannelSession::new("alice".to_string());
    let (session, _) = session.step(SessionEvent::TokenLoaded(Ok(token())));
    let other = ChannelData { user_login: "alicia".to_string(), id: "7".to_string() };
    let (session, _) = session.step(SessionEvent::ChannelResolved(vec![alice(), other]));
    let known = session.resolved_channel().unwrap();
    assert_eq!(known.user_login, "alice");
    assert_eq!(known.id, "9001");
}

#[test]
fn an_unresolvable_login_is_reported_and_never_joined() {
    let session = ChannelSession::new("nobody".to_string());
    let (session, _) = session.step(SessionEvent::TokenLoaded(Ok(token())));
    let (session, action) = session.step(SessionEvent::ChannelResolved(vec![]));
    assert_eq!(session.current_state(), SessionState::Closed);
    assert_eq!(action.kind(), ActionKind::Report(ErrorKind::Metadata));
    match action {
        SessionAction::Report(SessionError::Metadata { login }) => assert_eq!(login, "nobody"),
        other => panic!("unexpected: {:?}", other),
    }
    assert!(session.resolved_channel().is_none());
    let (session, action) = session.step(SessionEvent::IndexBuilt(kappa_index()));
    assert_eq!(action.kind(), ActionKind::Nothing);
    let (session, action) = session.step(SessionEvent::JoinFinished(Ok(())));
    assert_eq!(action.kind(), ActionKind::Nothing);
    let (session, action) = session.step(SessionEvent::LoopAttached);
    assert_eq!(action.kind(), ActionKind::Nothing);
    let (session, action) = session.step(posted("hello Kappa"));
    assert_eq!(action.kind(), ActionKind::Nothing);
    assert_eq!(session.current_state(), SessionState::Closed);
    assert!(session.emote_index().is_none());
    assert_eq!(session.recorded_errors().len(), 1);
}

#[test]
fn a_missing_credential_closes_the_session() {
    let session = ChannelSession::new("alice".to_string());
    let (session, action) = session.step(SessionEvent::TokenLoaded(Err(CredentialError::NotFound)));
    assert_eq!(session.current_state(), SessionState::Closed);
    assert!(matches!(
        action,
        SessionAction::Report(SessionError::Credential(CredentialError::NotFound))
    ));
    let session = ChannelSession::new("alice".to_string());
    let (session, action) = session
        .step(SessionEvent::TokenLoaded(Err(CredentialError::Decode("eof".to_string()))));
    assert_eq!(session.current_state(), SessionState::Closed);
    match action {
        SessionAction::Report(SessionError::Credential(CredentialError::Decode(reason))) => {
            assert_eq!(reason, "eof")
        }
        other => panic!("unexpected: {:?}", other),
    }
}

#[test]
fn a_rejected_join_closes_the_session() {
    let session = ChannelSession::new("alice".to_string());
    let (session, _) = session.step(SessionEvent::TokenLoaded(Ok(token())));
    let (session, _) = session.step(SessionEvent::ChannelResolved(vec![alice()]));
    let (session, _) = session.step(SessionEvent::IndexBuilt(kappa_index()));
    let (session, action) = session.step(SessionEvent::JoinFinished(Err("banned".to_string())));
    assert_eq!(session.current_state(), SessionState::Closed);
    match action {
        SessionAction::Report(SessionError::Join(reason)) => assert_eq!(reason, "banned"),
        other => panic!("unexpected: {:?}", other),
    }
    let (session, action) = session.step(SessionEvent::LoopAttached);
    assert_eq!(action.kind(), ActionKind::Nothing);
    assert_eq!(session.current_state(), SessionState::Closed);
}

#[test]
fn two_providers_with_the_same_code_leave_the_later_record() {
    let session = streaming();
    let index = session.emote_index().unwrap();
    assert_eq!(index.len(), 1);
    let kept = index.test_emote("Kappa").unwrap();
    assert_eq!(kept.id, "b");
    assert_eq!(kept.url, "url2");
    assert_eq!(index.failures().len(), 1);
}

#[test]
fn a_posted_message_is_delivered_with_its_emote() {
    let session = streaming();
    let (session, action) = session.step(posted("hello Kappa"));
    assert_eq!(session.current_state(), SessionState::Streaming);
    match action {
        SessionAction::Deliver(delivery) => {
            assert_eq!(delivery.message.name, "bob");
            assert_eq!(delivery.message.message, "hello Kappa");
            assert_eq!(delivery.message.emotes.len(), 1);
            assert_eq!(delivery.message.emotes[0].code, "Kappa");
            assert_eq!(delivery.message.emotes[0].id, "b");
            assert_eq!(delivery.message.emotes[0].char_range, 6..11);
            assert_eq!(delivery.key, "messages:alice:9001");
            assert_eq!(delivery.record, "bob: hello Kappa");
        }
        other => panic!("unexpected: {:?}", other),
    }
}

#[test]
fn a_failed_write_is_logged_and_the_next_message_is_delivered() {
    let session = streaming();
    let (session, action) = session.step(posted("first"));
    assert_eq!(action.kind(), ActionKind::Deliver);
    let (session, action) = session.step(SessionEvent::PersistFailed("store is down".to_string()));
    assert_eq!(session.current_state(), SessionState::Streaming);
    assert_eq!(action.kind(), ActionKind::Log(ErrorKind::Persistence));
    match &action {
        SessionAction::Log(error) => {
            assert!(!error.is_fatal());
            assert!(matches!(error, SessionError::Persistence(reason) if reason == "store is down"));
        }
        other => panic!("unexpected: {:?}", other),
    }
    assert_eq!(session.recorded_errors().len(), 1);
    let (session, action) = session.step(posted("second Kappa"));
    assert_eq!(session.current_state(), SessionState::Streaming);
    match action {
        SessionAction::Deliver(delivery) => {
            assert_eq!(delivery.message.message, "second Kappa");
            assert_eq!(delivery.message.emotes.len(), 1);
            assert_eq!(delivery.record, "bob: second Kappa");
        }
        other => panic!("unexpected: {:?}", other),
    }
}

#[test]
fn a_failed_publish_is_logged_and_the_session_goes_on() {
    let session = streaming();
    let (session, action) = session.step(SessionEvent::PublishFailed("no window".to_string()));
    assert_eq!(session.current_state(), SessionState::Streaming);
    match action {
        SessionAction::Log(SessionError::Publish(reason)) => assert_eq!(reason, "no window"),
        other => panic!("unexpected: {:?}", other),
    }
    let (session, action) = session.step(posted("still here"));
    assert_eq!(action.kind(), ActionKind::Deliver);
    assert_eq!(session.recorded_errors().len(), 1);
}

#[test]
fn other_chat_events_do_nothing() {
    let session = streaming();
    let joined = ChatEvent::Joined { channel_login: "alice".to_string(), user_login: "carol".to_string() };
    let (session, action) = session.step(SessionEvent::Chat(joined));
    assert_eq!(action.kind(), ActionKind::Nothing);
    let (session, action) = session.step(SessionEvent::Chat(ChatEvent::Other));
    assert_eq!(action.kind(), ActionKind::Nothing);
    assert_eq!(session.current_state(), SessionState::Streaming);
}

#[test]
fn the_end_of_the_stream_closes_the_session() {
    let session = streaming();
    let (session, action) = session.step(SessionEvent::StreamEnded);
    assert_eq!(session.current_state(), SessionState::Closed);
    assert_eq!(action.kind(), ActionKind::Nothing);
    let (session, action) = session.step(posted("too late"));
    assert_eq!(action.kind(), ActionKind::Nothing);
    assert_eq!(session.current_state(), SessionState::Closed);
}

#[test]
fn events_that_are_not_waited_for_change_nothing() {
    let session = ChannelSession::new("alice".to_string());
    let (session, action) = session.step(SessionEvent::ChannelResolved(vec![alice()]));
    assert_eq!(action.kind(), ActionKind::Nothing);
    assert_eq!(session.current_state(), SessionState::Requested);
    assert!(session.resolved_channel().is_none());
    let (session, action) = session.step(posted("early"));
    assert_eq!(action.kind(), ActionKind::Nothing);
    let (session, action) = session.step(SessionEvent::PersistFailed("x".to_string()));
    assert_eq!(action.kind(), ActionKind::Nothing);
    let (session, action) = session.step(SessionEvent::StreamEnded);
    assert_eq!(action.kind(), ActionKind::Nothing);
    assert_eq!(session.current_state(), SessionState::Requested);
    assert!(session.recorded_errors().is_empty());
}

#[test]
fn kinds_of_events_and_failures() {
    assert_eq!(SessionEvent::TokenLoaded(Ok(token())).kind(), EventKind::TokenLoaded);
    assert_eq!(
        SessionEvent::TokenLoaded(Err(CredentialError::Encode)).kind(),
        EventKind::TokenFailed
    );
    assert_eq!(SessionEvent::ChannelResolved(vec![alice()]).kind(), EventKind::ChannelFound);
    assert_eq!(SessionEvent::ChannelResolved(vec![]).kind(), EventKind::ChannelMissing);
    assert_eq!(SessionEvent::IndexBuilt(kappa_index()).kind(), EventKind::IndexReady);
    assert_eq!(SessionEvent::JoinFinished(Ok(())).kind(), EventKind::JoinAccepted);
    assert_eq!(SessionEvent::JoinFinished(Err("x".to_string())).kind(), EventKind::JoinRejected);
    assert_eq!(SessionEvent::LoopAttached.kind(), EventKind::LoopAttached);
    assert_eq!(posted("x").kind(), EventKind::MessagePosted);
    assert_eq!(SessionEvent::Chat(ChatEvent::Other).kind(), EventKind::OtherChat);
    assert_eq!(SessionEvent::PersistFailed("x".to_string()).kind(), EventKind::PersistFailed);
    assert_eq!(SessionEvent::PublishFailed("x".to_string()).kind(), EventKind::PublishFailed);
    assert_eq!(SessionEvent::StreamEnded.kind(), EventKind::StreamEnded);

    assert_eq!(SessionError::Credential(CredentialError::NotFound).kind(), ErrorKind::Credential);
    assert_eq!(SessionError::Metadata { login: "a".to_string() }.kind(), ErrorKind::Metadata);
    assert_eq!(SessionError::Join("a".to_string()).kind(), ErrorKind::Join);
    assert!(SessionError::Join("a".to_string()).is_fatal());
    assert!(SessionError::Metadata { login: "a".to_string() }.is_fatal());
    assert!(!SessionError::Publish("a".to_string()).is_fatal());
    let copy = SessionError::Persistence("p".to_string()).clone();
    assert!(matches!(copy, SessionError::Persistence(reason) if reason == "p"));
}
