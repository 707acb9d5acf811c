use channel_sessions::data::{ChannelData, ChatEvent, Emote as Occurrence};
use channel_sessions::emotes::{Emote, ProviderError, RemoteEmoteManager};
use channel_sessions::messages::handle_message::{find_emotes, handle_message};
use channel_sessions::text::{is_separator, split_tokens};

fn index_with(codes: &[(&str, &str)]) -> RemoteEmoteManager {
    let listed = codes
        .iter()
        .map(|(code, id)| Emote {
            code: code.to_string(),
            id: id.to_string(),
            url: format!("https://example.test/{}", id),
        })
        .collect();
    RemoteEmoteManager::new(vec![Ok(listed)])
}

fn alice() -> ChannelData {
    ChannelData { user_login: "alice".to_string(), id: "9001".to_string() }
}

fn posted(text: &str, emotes: Vec<Occurrence>) -> ChatEvent {
    ChatEvent::Posted {
        channel_login: "alice".to_string(),
        sender: "bob".to_string(),
        text: text.to_string(),
        emotes,
    }
}

#[test]
fn separators_are_the_white_space_of_unicode() {
    let mut c = 0u32;
    while c <= 0x10FFFF {
        if let Some(ch) = char::from_u32(c) {
            assert_eq!(is_separator(ch), ch.is_whitespace(), "U+{:04X}", c);
        }
        c += 1;
    }
}

#[test]
fn tokens_are_runs_without_white_space() {
    assert_eq!(split_tokens("hello Kappa"), vec![(0, 5), (6, 11)]);
    assert_eq!(split_tokens(""), vec![]);
    assert_eq!(split_tokens("   "), vec![]);
    assert_eq!(split_tokens("Kappa"), vec![(0, 5)]);
    assert_eq!(split_tokens("  a  bc\td "), vec![(2, 3), (5, 7), (8, 9)]);
}

#[test]
fn token_positions_count_characters() {
    assert_eq!(split_tokens("héllo wörld ok"), vec![(0, 5), (6, 11), (12, 14)]);
    assert_eq!(split_tokens("日本語 Kappa"), vec![(0, 3), (4, 9)]);
}

#[test]
fn hello_kappa_has_one_occurrence() {
    let index = index_with(&[("Kappa", "k1")]);
    let delivery = handle_message(posted("hello Kappa", vec![]), &alice(), &index).unwrap();
    assert_eq!(delivery.message.name, "bob");
    assert_eq!(delivery.message.message, "hello Kappa");
    assert_eq!(delivery.message.emotes.len(), 1);
    assert_eq!(delivery.message.emotes[0].code, "Kappa");
    assert_eq!(delivery.message.emotes[0].id, "k1");
    assert_eq!(delivery.message.emotes[0].char_range, 6..11);
    assert_eq!(delivery.key, "messages:alice:9001");
    assert_eq!(delivery.record, "bob: hello Kappa");
}

#[test]
fn native_emotes_come_first_and_keep_their_ranges() {
    let index = index_with(&[("KEKW", "x1"), ("EZ", "x2")]);
    let native = vec![Occurrence { id: "25".to_string(), char_range: 0..5, code: "Kappa".to_string() }];
    let delivery = handle_message(posted("Kappa EZ lol KEKW EZ", native), &alice(), &index).unwrap();
    let found: Vec<(String, String, std::ops::Range<usize>)> = delivery
        .message
        .emotes
        .iter()
        .map(|e| (e.id.clone(), e.code.clone(), e.char_range.clone()))
        .collect();
    assert_eq!(
        found,
        vec![
            ("25".to_string(), "Kappa".to_string(), 0..5),
            ("x2".to_string(), "EZ".to_string(), 6..8),
            ("x1".to_string(), "KEKW".to_string(), 13..17),
            ("x2".to_string(), "EZ".to_string(), 18..20),
        ]
    );
}

#[test]
fn a_code_must_match_a_whole_token() {
    let index = index_with(&[("Kappa", "k1")]);
    assert!(find_emotes("Kappa! xKappa kappa KappaKappa", &index).is_empty());
    let found = find_emotes("  Kappa\tKappa ", &index);
    assert_eq!(found.len(), 2);
    assert_eq!(found[0].char_range, 2..7);
    assert_eq!(found[1].char_range, 8..13);
}

#[test]
fn an_empty_index_leaves_the_native_emotes() {
    let index = RemoteEmoteManager::new(vec![
        Err(ProviderError::Unreachable("a".to_string())),
        Err(ProviderError::Unreachable("b".to_string())),
    ]);
    let native = vec![Occurrence { id: "25".to_string(), char_range: 6..11, code: "Kappa".to_string() }];
    let delivery = handle_message(posted("hello Kappa", native), &alice(), &index).unwrap();
    assert_eq!(delivery.message.emotes.len(), 1);
    assert_eq!(delivery.message.emotes[0].id, "25");
    assert_eq!(delivery.message.emotes[0].char_range, 6..11);
    let plain = handle_message(posted("hello Kappa", vec![]), &alice(), &index).unwrap();
    assert!(plain.message.emotes.is_empty());
    assert_eq!(plain.record, "bob: hello Kappa");
}

#[test]
fn the_key_names_the_channel_of_the_message_and_the_identifier() {
    let index = index_with(&[]);
    let event = ChatEvent::Posted {
        channel_login: "alice_alt".to_string(),
        sender: "carol".to_string(),
        text: "".to_string(),
        emotes: vec![],
    };
    let delivery = handle_message(event, &alice(), &index).unwrap();
    assert_eq!(delivery.key, "messages:alice_alt:9001");
    assert_eq!(delivery.record, "carol: ");
    assert!(delivery.message.emotes.is_empty());
}

#[test]
fn other_events_are_ignored() {
    let index = index_with(&[("Kappa", "k1")]);
    let joined = ChatEvent::Joined { channel_login: "alice".to_string(), user_login: "bob".to_string() };
    assert!(handle_message(joined, &alice(), &index).is_none());
    let parted = ChatEvent::Parted { channel_login: "alice".to_string(), user_login: "bob".to_string() };
    assert!(handle_message(parted, &alice(), &index).is_none());
    assert!(handle_message(ChatEvent::Other, &alice(), &index).is_none());
}
