use channel_sessions::adapters::redis::{
    init_redis, AccessToken, CredentialError, RedisStorage, StoreCommand, Timestamp,
};

fn token() -> AccessToken {
    AccessToken {
        access_token: "abc123".to_string(),
        refresh_token: "r \"quoted\" \\ é".to_string(),
        created_at: Timestamp { seconds: 1_700_000_000, nanoseconds: 123_456_789 },
        expires_at: Some(Timestamp { seconds: 1_700_014_346, nanoseconds: 0 }),
    }
}

fn same(a: &AccessToken, b: &AccessToken) -> bool {
    a.access_token == b.access_token
        && a.refresh_token == b.refresh_token
        && a.created_at == b.created_at
        && a.expires_at == b.expires_at
}

#[test]
fn the_store_of_this_machine() {
    let config = init_redis();
    assert_eq!(config.url, "redis://127.0.0.1/");
    assert_eq!(config.token_key, "token");
    assert_eq!(config.control_channel, "channels");
}

#[test]
fn load_reads_the_token_key() {
    match RedisStorage::new().load_request() {
        StoreCommand::Get { key } => assert_eq!(key, "token"),
        other => panic!("unexpected: {:?}", other),
    }
    let mut config = init_redis();
    config.token_key = "other".to_string();
    match RedisStorage::seed(&config).load_request() {
        StoreCommand::Get { key } => assert_eq!(key, "other"),
        other => panic!("unexpected: {:?}", other),
    }
}

#[test]
fn a_stored_token_loads_as_it_was() {
    let storage = RedisStorage::seed(&init_redis());
    let written = token();
    let (key, value) = match storage.update_request(&written) {
        Ok(StoreCommand::Put { key, value }) => (key, value),
        other => panic!("unexpected: {:?}", other),
    };
    assert_eq!(key, "token");
    assert!(storage.update_token(Ok(())).is_ok());
    let read = storage.load_token(Ok(Some(value))).unwrap();
    assert!(same(&read, &written));
}

#[test]
fn a_token_that_never_expires_loads_as_it_was() {
    let storage = RedisStorage::new();
    let mut written = token();
    written.expires_at = None;
    written.created_at = Timestamp { seconds: 0, nanoseconds: 0 };
    let value = match storage.update_request(&written) {
        Ok(StoreCommand::Put { value, .. }) => value,
        other => panic!("unexpected: {:?}", other),
    };
    let read = storage.load_token(Ok(Some(value))).unwrap();
    assert!(same(&read, &written));
    assert!(read.expires_at.is_none());
}

#[test]
fn the_record_is_a_json_object_with_the_access_token() {
    let storage = RedisStorage::new();
    let value = match storage.update_request(&token()) {
        Ok(StoreCommand::Put { value, .. }) => value,
        other => panic!("unexpected: {:?}", other),
    };
    let parsed: serde_json::Value = serde_json::from_str(&value).unwrap();
    assert_eq!(parsed.get("access_token").and_then(|v| v.as_str()), Some("abc123"));
    assert!(parsed.get("refresh_token").is_some());
}

#[test]
fn load_decodes_a_record_written_elsewhere() {
    let storage = RedisStorage::new();
    let text = "{\"access_token\":\"tok\",\"refresh_token\":\"ref\",\"created_at\":\"2024-01-02T03:04:05Z\",\"expires_at\":null}";
    let read = storage.load_token(Ok(Some(text.to_string()))).unwrap();
    assert_eq!(read.access_token, "tok");
    assert_eq!(read.refresh_token, "ref");
    assert_eq!(read.created_at, Timestamp { seconds: 1_704_164_645, nanoseconds: 0 });
    assert_eq!(read.expires_at, None);
}

#[test]
fn a_missing_key_is_not_found() {
    let storage = RedisStorage::new();
    assert!(matches!(storage.load_token(Ok(None)), Err(CredentialError::NotFound)));
}

#[test]
fn a_malformed_record_is_a_decode_error() {
    let storage = RedisStorage::new();
    match storage.load_token(Ok(Some("{\"access_token\": 5".to_string()))) {
        Err(CredentialError::Decode(reason)) => assert!(!reason.is_empty()),
        other => panic!("unexpected: {:?}", other),
    }
    match storage.load_token(Ok(Some("{\"refresh_token\":\"r\"}".to_string()))) {
        Err(CredentialError::Decode(reason)) => assert!(reason.contains("access_token")),
        other => panic!("unexpected: {:?}", other),
    }
}

#[test]
fn a_failure_of_the_store_is_passed_on() {
    let storage = RedisStorage::new();
    match storage.load_token(Err("connection refused".to_string())) {
        Err(CredentialError::Backend(reason)) => assert_eq!(reason, "connection refused"),
        other => panic!("unexpected: {:?}", other),
    }
    match storage.update_token(Err("read only".to_string())) {
        Err(CredentialError::Backend(reason)) => assert_eq!(reason, "read only"),
        other => panic!("unexpected: {:?}", other),
    }
}

#[test]
fn a_time_that_does_not_exist_cannot_be_stored() {
    let storage = RedisStorage::new();
    let mut bad = token();
    bad.created_at = Timestamp { seconds: i64::MAX, nanoseconds: 0 };
    assert!(matches!(storage.update_request(&bad), Err(CredentialError::Encode)));
    let mut bad = token();
    bad.expires_at = Some(Timestamp { seconds: 0, nanoseconds: 2_000_000_000 });
    assert!(matches!(storage.update_request(&bad), Err(CredentialError::Encode)));
    assert!(matches!(storage.write_command(None), Err(CredentialError::Encode)));
}

#[test]
fn a_leap_second_loads_as_it_was() {
    let storage = RedisStorage::new();
    let mut written = token();
    written.created_at = Timestamp { seconds: 1_483_228_799, nanoseconds: 1_500_000_000 };
    let value = match storage.update_request(&written) {
        Ok(StoreCommand::Put { value, .. }) => value,
        other => panic!("unexpected: {:?}", other),
    };
    let read = storage.load_token(Ok(Some(value))).unwrap();
    assert!(read.same_as(&written));
}

#[test]
fn tokens_are_the_same_when_every_field_is() {
    assert!(token().same_as(&token()));
    assert!(token().clone().same_as(&token()));
    let mut other = token();
    other.access_token.push('x');
    assert!(!token().same_as(&other));
    let mut other = token();
    other.refresh_token = String::new();
    assert!(!token().same_as(&other));
    let mut other = token();
    other.created_at.nanoseconds += 1;
    assert!(!token().same_as(&other));
    let mut other = token();
    other.expires_at = None;
    assert!(!token().same_as(&other));
    assert!(!other.same_as(&token()));
    let mut other = token();
    other.expires_at = Some(Timestamp { seconds: 1, nanoseconds: 0 });
    assert!(!token().same_as(&other));
}

#[test]
fn only_a_record_that_reads_back_is_stored() {
    let text = "record".to_string();
    assert_eq!(RedisStorage::faithful(&token(), text.clone(), Ok(token())), Some(text.clone()));
    let mut other = token();
    other.refresh_token = "changed".to_string();
    assert_eq!(RedisStorage::faithful(&token(), text.clone(), Ok(other)), None);
    assert_eq!(RedisStorage::faithful(&token(), text, Err("bad".to_string())), None);
}

#[test]
fn the_outcome_of_decoding_decides_the_load() {
    let ok = RedisStorage::token_from(Ok(token())).unwrap();
    assert!(same(&ok, &token()));
    match RedisStorage::token_from(Err("bad".to_string())) {
        Err(CredentialError::Decode(reason)) => assert_eq!(reason, "bad"),
        other => panic!("unexpected: {:?}", other),
    }
    match RedisStorage::new().write_command(Some("text".to_string())) {
        Ok(StoreCommand::Put { key, value }) => {
            assert_eq!(key, "token");
            assert_eq!(value, "text");
        }
        other => panic!("unexpected: {:?}", other),
    }
}
