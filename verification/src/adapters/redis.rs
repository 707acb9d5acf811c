//! The token provider: the chat credential as it is kept under one key of
//! the shared store.

use chrono::DateTime;
use twitch_irc::login::UserAccessToken;
use vstd::prelude::*;
use vstd::string::*;

verus! {

/// A point in time: whole seconds since the start of 1970 in UTC, and the
/// nanoseconds since the last whole second.
#[derive(Debug, Clone, Copy, PartialEq, Eq, Structural)]
pub struct Timestamp {
    pub seconds: i64,
    pub nanoseconds: u32,
}

/// The credential of the chat account, with what is needed to renew it.
#[derive(Debug)]
pub struct AccessToken {
    /// What is presented to the platform.
    pub access_token: String,
    /// What a new access token is obtained with.
    pub refresh_token: String,
    /// When the access token was issued.
    pub created_at: Timestamp,
    /// When the access token expires, if it ever does.
    pub expires_at: Option<Timestamp>,
}

/// The mathematical content of an [`AccessToken`].
pub ghost struct TokenRecord {
    pub access_token: Seq<char>,
    pub refresh_token: Seq<char>,
    pub created_at: Timestamp,
    pub expires_at: Option<Timestamp>,
}

impl View for AccessToken {
    type V = TokenRecord;

    open spec fn view(&self) -> TokenRecord {
        TokenRecord {
            access_token: self.access_token@,
            refresh_token: self.refresh_token@,
            created_at: self.created_at,
            expires_at: self.expires_at,
        }
    }
}

impl Clone for AccessToken {
    fn clone(&self) -> (copy: Self)
        ensures
            copy@ == self@,
    {
        AccessToken {
            access_token: self.access_token.clone(),
            refresh_token: self.refresh_token.clone(),
            created_at: self.created_at,
            expires_at: self.expires_at,
        }
    }
}

impl AccessToken {
    /// Whether `other` holds the same values as this token.
    pub fn same_as(&self, other: &AccessToken) -> (same: bool)
        ensures
            same == (self@ == other@),
    {
        let expiry = match (self.expires_at, other.expires_at) {
            (Some(mine), Some(theirs)) => mine == theirs,
            (None, None) => true,
            _ => false,
        };
        expiry && self.created_at == other.created_at && self.access_token == other.access_token
            && self.refresh_token == other.refresh_token
    }
}

/// Why the credential could not be loaded or stored.
#[derive(Debug)]
pub enum CredentialError {
    /// The store holds nothing under the key.
    NotFound,
    /// What the store holds is not a token record; the text says why.
    Decode(String),
    /// The token has no record that reads back as the same token.
    Encode,
    /// The store did not carry out the command; the text says why.
    Backend(String),
}

/// The mathematical content of a [`CredentialError`].
pub ghost enum CredentialFailure {
    NotFound,
    Decode(Seq<char>),
    Encode,
    Backend(Seq<char>),
}

impl View for CredentialError {
    type V = CredentialFailure;

    open spec fn view(&self) -> CredentialFailure {
        match self {
            CredentialError::NotFound => CredentialFailure::NotFound,
            CredentialError::Decode(reason) => CredentialFailure::Decode(reason@),
            CredentialError::Encode => CredentialFailure::Encode,
            CredentialError::Backend(reason) => CredentialFailure::Backend(reason@),
        }
    }
}

impl Clone for CredentialError {
    fn clone(&self) -> (copy: Self)
        ensures
            copy@ == self@,
    {
        match self {
            CredentialError::NotFound => CredentialError::NotFound,
            CredentialError::Decode(reason) => CredentialError::Decode(reason.clone()),
            CredentialError::Encode => CredentialError::Encode,
            CredentialError::Backend(reason) => CredentialError::Backend(reason.clone()),
        }
    }
}

/// A command for the store.
#[derive(Debug)]
pub enum StoreCommand {
    /// Read the value under `key`.
    Get { key: String },
    /// Put `value` under `key`, in place of what was there.
    Put { key: String, value: String },
}

/// The mathematical content of a [`StoreCommand`].
pub ghost enum StoreRequest {
    Get { key: Seq<char> },
    Put { key: Seq<char>, value: Seq<char> },
}

impl View for StoreCommand {
    type V = StoreRequest;

    open spec fn view(&self) -> StoreRequest {
        match self {
            StoreCommand::Get { key } => StoreRequest::Get { key: key@ },
            StoreCommand::Put { key, value } => StoreRequest::Put { key: key@, value: value@ },
        }
    }
}

/// Where the store is and what the sessions use of it.
#[derive(Debug)]
pub struct StoreConfig {
    /// The address of the store.
    pub url: String,
    /// The key that holds the token record.
    pub token_key: String,
    /// The channel on which requests to watch a chat channel arrive.
    pub control_channel: String,
}

/// The configuration of the store that runs on this machine.
pub fn init_redis() -> (config: StoreConfig)
    ensures
        config.url@ == "redis://127.0.0.1/"@,
        config.token_key@ == "token"@,
        config.control_channel@ == "channels"@,
{
    StoreConfig {
        url: String::from_str("redis://127.0.0.1/"),
        token_key: String::from_str("token"),
        control_channel: String::from_str("channels"),
    }
}

/// What reading `text` as a token record gives: the token, or the reason
/// why `text` is no record. It is what `serde_json::from_str` returns for a
/// `twitch_irc::login::UserAccessToken`.
pub uninterp spec fn decoded_token(text: Seq<char>) -> Result<TokenRecord, Seq<char>>;

/// The text of the record of `token`, or `None` where the token has no
/// record. It is what `serde_json::to_string` returns for the
/// `twitch_irc::login::UserAccessToken` with the fields of `token`.
pub uninterp spec fn encoded_token(token: TokenRecord) -> Option<Seq<char>>;

/// Reads `text` as a token record with `serde_json::from_str`, into a
/// `twitch_irc::login::UserAccessToken`, and hands the fields over as they
/// are; a point in time is taken apart by `DateTime::timestamp` and
/// `DateTime::timestamp_subsec_nanos`. The outcome depends on `text` alone:
/// this is all that is claimed of it.
#[verifier::external_body]
fn decode_token(text: &str) -> (decoded: Result<AccessToken, String>)
    ensures
        match decoded {
            Ok(token) => decoded_token(text@) == Ok::<TokenRecord, Seq<char>>(token@),
            Err(reason) => decoded_token(text@) == Err::<TokenRecord, Seq<char>>(reason@),
        },
{
    let token = serde_json::from_str::<UserAccessToken>(text).map_err(|error| error.to_string())?;
    let created_at = Timestamp {
        seconds: token.created_at.timestamp(),
        nanoseconds: token.created_at.timestamp_subsec_nanos(),
    };
    let expires_at = match token.expires_at {
        Some(at) => Some(Timestamp { seconds: at.timestamp(), nanoseconds: at.timestamp_subsec_nanos() }),
        None => None,
    };
    Ok(AccessToken { access_token: token.access_token, refresh_token: token.refresh_token, created_at, expires_at })
}

/// Writes `token` as a record with `serde_json::to_string`, from a
/// `twitch_irc::login::UserAccessToken` with the same fields; a point in
/// time is put together by `DateTime::from_timestamp`, which knows no time
/// for some pairs of numbers. The outcome depends on `token` alone: this is
/// all that is claimed of it.
#[verifier::external_body]
fn encode_token(token: &AccessToken) -> (encoded: Option<String>)
    ensures
        match encoded {
            Some(text) => encoded_token(token@) == Some(text@),
            None => encoded_token(token@) is None,
        },
{
    let created_at = DateTime::from_timestamp(token.created_at.seconds, token.created_at.nanoseconds)?;
    let expires_at = match token.expires_at {
        Some(at) => Some(DateTime::from_timestamp(at.seconds, at.nanoseconds)?),
        None => None,
    };
    let access_token = token.access_token.clone();
    let refresh_token = token.refresh_token.clone();
    serde_json::to_string(&UserAccessToken { access_token, refresh_token, created_at, expires_at }).ok()
}

/// What loading makes of the outcome of reading a record.
pub open spec fn loaded_from(decoded: Result<TokenRecord, Seq<char>>) -> Result<
    TokenRecord,
    CredentialFailure,
> {
    match decoded {
        Ok(token) => Ok(token),
        Err(reason) => Err(CredentialFailure::Decode(reason)),
    }
}

/// What loading makes of the reply of the store to the request for the
/// value under the key: a reply without a value means that no token was
/// ever stored, and a failure of the store is passed on.
pub open spec fn loaded(reply: Result<Option<Seq<char>>, Seq<char>>) -> Result<
    TokenRecord,
    CredentialFailure,
> {
    match reply {
        Ok(Some(text)) => loaded_from(decoded_token(text)),
        Ok(None) => Err(CredentialFailure::NotFound),
        Err(reason) => Err(CredentialFailure::Backend(reason)),
    }
}

/// The text under which `token` is stored: the text of its record, where
/// it has one and reading that text gives the same token again. A token
/// without such a text is not stored at all, so that whatever is stored
/// loads as it was.
pub open spec fn faithful_record(token: TokenRecord) -> Option<Seq<char>> {
    match encoded_token(token) {
        Some(text) => if decoded_token(text) == Ok::<TokenRecord, Seq<char>>(token) {
            Some(text)
        } else {
            None
        },
        None => None,
    }
}

/// The command that stores the text of a record under `key`, where there
/// is a text.
pub open spec fn write_of(key: Seq<char>, record: Option<Seq<char>>) -> Result<
    StoreRequest,
    CredentialFailure,
> {
    match record {
        Some(text) => Ok(StoreRequest::Put { key, value: text }),
        None => Err(CredentialFailure::Encode),
    }
}

/// A result of loading, as a mathematical value.
pub open spec fn loaded_view(result: Result<AccessToken, CredentialError>) -> Result<
    TokenRecord,
    CredentialFailure,
> {
    match result {
        Ok(token) => Ok(token@),
        Err(error) => Err(error@),
    }
}

/// A command or the reason why there is none, as a mathematical value.
pub open spec fn command_view(result: Result<StoreCommand, CredentialError>) -> Result<
    StoreRequest,
    CredentialFailure,
> {
    match result {
        Ok(command) => Ok(command@),
        Err(error) => Err(error@),
    }
}

/// A reply of the store to a read, as a mathematical value.
pub open spec fn reply_view(reply: Result<Option<String>, String>) -> Result<
    Option<Seq<char>>,
    Seq<char>,
> {
    match reply {
        Ok(Some(text)) => Ok(Some(text@)),
        Ok(None) => Ok(None),
        Err(reason) => Err(reason@),
    }
}

/// The token provider. It keeps the token under one key of the store, and
/// it never talks to the store itself: it says which command to send, and
/// it is told the reply.
#[derive(Debug)]
pub struct RedisStorage {
    key: String,
}

impl RedisStorage {
    /// The key that holds the token record.
    pub closed spec fn key(&self) -> Seq<char> {
        self.key@
    }

    /// The provider for the store that runs on this machine.
    pub fn new() -> (storage: Self)
        ensures
            storage.key() == "token"@,
    {
        RedisStorage { key: String::from_str("token") }
    }

    /// The provider for the store that `config` describes. All providers
    /// made for one store share its token.
    pub fn seed(config: &StoreConfig) -> (storage: Self)
        ensures
            storage.key() == config.token_key@,
    {
        RedisStorage { key: config.token_key.clone() }
    }

    /// The command that reads the token record.
    pub fn load_request(&self) -> (command: StoreCommand)
        ensures
            command@ == (StoreRequest::Get { key: self.key() }),
    {
        StoreCommand::Get { key: self.key.clone() }
    }

    /// What the outcome of reading a record means for loading.
    pub fn token_from(decoded: Result<AccessToken, String>) -> (result: Result<
        AccessToken,
        CredentialError,
    >)
        ensures
            match decoded {
                Ok(token) => result is Ok && result->Ok_0@ == token@,
                Err(reason) => result is Err && result->Err_0@ == CredentialFailure::Decode(reason@),
            },
    {
        match decoded {
            Ok(token) => Ok(token),
            Err(reason) => Err(CredentialError::Decode(reason)),
        }
    }

    /// The token that the store holds, told the reply to
    /// [`RedisStorage::load_request`].
    pub fn load_token(&self, reply: Result<Option<String>, String>) -> (result: Result<
        AccessToken,
        CredentialError,
    >)
        ensures
            loaded_view(result) == loaded(reply_view(reply)),
    {
        match reply {
            Ok(Some(text)) => Self::token_from(decode_token(text.as_str())),
            Ok(None) => Err(CredentialError::NotFound),
            Err(reason) => Err(CredentialError::Backend(reason)),
        }
    }

    /// The text to store for `token`, told the text of its record and what
    /// reading that text gave: the text where it reads back as `token`, and
    /// nothing otherwise.
    pub fn faithful(
        token: &AccessToken,
        text: String,
        read_back: Result<AccessToken, String>,
    ) -> (record: Option<String>)
        ensures
            match read_back {
                Ok(read) => if read@ == token@ {
                    record is Some && record->0@ == text@
                } else {
                    record is None
                },
                Err(_) => record is None,
            },
    {
        match read_back {
            Ok(read) => if read.same_as(token) {
                Some(text)
            } else {
                None
            },
            Err(_) => None,
        }
    }

    /// The command that stores `record`, where there is one.
    pub fn write_command(&self, record: Option<String>) -> (result: Result<
        StoreCommand,
        CredentialError,
    >)
        ensures
            command_view(result) == write_of(
                self.key(),
                match record {
                    Some(text) => Some(text@),
                    None => None,
                },
            ),
    {
        match record {
            Some(text) => Ok(StoreCommand::Put { key: self.key.clone(), value: text }),
            None => Err(CredentialError::Encode),
        }
    }

    /// The command that stores `token`, or the reason why it cannot be
    /// stored. The record is read back before it is handed out: a token
    /// whose record would not load as the same token is refused.
    pub fn update_request(&self, token: &AccessToken) -> (result: Result<
        StoreCommand,
        CredentialError,
    >)
        ensures
            command_view(result) == write_of(self.key(), faithful_record(token@)),
    {
        match encode_token(token) {
            Some(text) => {
                let read_back = decode_token(text.as_str());
                self.write_command(Self::faithful(token, text, read_back))
            },
            None => self.write_command(None),
        }
    }

    /// Whether the token was stored, told the reply to the command of
    /// [`RedisStorage::update_request`].
    pub fn update_token(&self, reply: Result<(), String>) -> (result: Result<(), CredentialError>)
        ensures
            match reply {
                Ok(_) => result is Ok,
                Err(reason) => result is Err && result->Err_0@ == CredentialFailure::Backend(
                    reason@,
                ),
            },
    {
        match reply {
            Ok(_) => Ok(()),
            Err(reason) => Err(CredentialError::Backend(reason)),
        }
    }
}

/// What the store holds after it carried out `command`.
pub open spec fn store_after(store: Map<Seq<char>, Seq<char>>, command: StoreRequest) -> Map<
    Seq<char>,
    Seq<char>,
> {
    match command {
        StoreRequest::Get { key } => store,
        StoreRequest::Put { key, value } => store.insert(key, value),
    }
}

/// What a store that works answers to a read of `key`.
pub open spec fn read_reply(store: Map<Seq<char>, Seq<char>>, key: Seq<char>) -> Result<
    Option<Seq<char>>,
    Seq<char>,
> {
    if store.contains_key(key) {
        Ok(Some(store[key]))
    } else {
        Ok(None)
    }
}

/// A stored token loads as it was: where the command that stores `token`
/// was handed out and the store carried it out, loading from that store
/// gives `token` again, whatever the store held before.
pub proof fn lemma_stored_token_loads(
    store: Map<Seq<char>, Seq<char>>,
    key: Seq<char>,
    token: TokenRecord,
)
    requires
        write_of(key, faithful_record(token)) is Ok,
    ensures
        loaded(read_reply(store_after(store, write_of(key, faithful_record(token))->Ok_0), key))
            == Ok::<TokenRecord, CredentialFailure>(token),
{
}

/// Loading from a store that holds nothing under the key finds no token.
pub proof fn lemma_load_without_store(store: Map<Seq<char>, Seq<char>>, key: Seq<char>)
    requires
        !store.contains_key(key),
    ensures
        loaded(read_reply(store, key)) == Err::<TokenRecord, CredentialFailure>(
            CredentialFailure::NotFound,
        ),
{
}

} // verus!
