//! Emote records as the providers give them, and the per-channel index that
//! merges the contributions of all providers.

pub mod better_tv;
pub mod index;
pub mod seven_tv;
pub mod twitch;

use self::better_tv::BetterTVManager;
use self::index::{
    contributed, failed, lemma_all_failed, lemma_merged_empty, lemma_merged_push, merged,
};
use self::seven_tv::SevenTVManager;
use vstd::hash_map::StringHashMap;
use vstd::prelude::*;
use vstd::string::*;

verus! {

/// The platform whose user identifiers a provider is asked about when the
/// caller names none.
pub open spec fn default_platform() -> Seq<char> {
    "twitch"@
}

/// The platform named by `platform`, or the default one.
pub open spec fn platform_name(platform: Option<&str>) -> Seq<char> {
    match platform {
        Some(name) => name@,
        None => default_platform(),
    }
}

/// Why one request to a provider contributed nothing.
#[derive(Debug)]
pub enum ProviderError {
    /// The request got no reply; the text says why.
    Unreachable(String),
    /// The reply was not of the expected shape; the text says why.
    Undecodable(String),
}

/// The mathematical content of a [`ProviderError`].
pub ghost enum ProviderFailure {
    Unreachable(Seq<char>),
    Undecodable(Seq<char>),
}

impl View for ProviderError {
    type V = ProviderFailure;

    open spec fn view(&self) -> ProviderFailure {
        match self {
            ProviderError::Unreachable(detail) => ProviderFailure::Unreachable(detail@),
            ProviderError::Undecodable(detail) => ProviderFailure::Undecodable(detail@),
        }
    }
}

/// The line that describes `failure` in a log.
pub open spec fn failure_message(failure: ProviderFailure) -> Seq<char> {
    match failure {
        ProviderFailure::Unreachable(detail) => "Failed to fetch emotes: "@ + detail,
        ProviderFailure::Undecodable(detail) => "Failed to parse emote data: "@ + detail,
    }
}

impl Clone for ProviderError {
    fn clone(&self) -> (copy: Self)
        ensures
            copy@ == self@,
    {
        match self {
            ProviderError::Unreachable(detail) => ProviderError::Unreachable(detail.clone()),
            ProviderError::Undecodable(detail) => ProviderError::Undecodable(detail.clone()),
        }
    }
}

impl ProviderError {
    /// The line that describes this failure in a log.
    pub fn message(&self) -> (line: String)
        ensures
            line@ == failure_message(self@),
    {
        match self {
            ProviderError::Unreachable(detail) => {
                let mut line = String::from_str("Failed to fetch emotes: ");
                line.append(detail.as_str());
                line
            },
            ProviderError::Undecodable(detail) => {
                let mut line = String::from_str("Failed to parse emote data: ");
                line.append(detail.as_str());
                line
            },
        }
    }
}

/// A source of emotes, seen from the side that never touches the network:
/// it names the two documents to fetch. What a provider makes of the
/// replies depends on the shape of its documents and is part of each
/// provider's own interface.
pub trait EmoteStorage {
    /// The address of the document that lists a channel's emotes.
    spec fn channel_endpoint(&self, id: Seq<char>, platform: Seq<char>) -> Seq<char>;

    /// The address of the document that lists the emotes usable everywhere.
    spec fn global_endpoint(&self) -> Seq<char>;

    /// The address to ask for the emotes of the user `id` on `platform`.
    fn fetch_for(&self, id: &str, platform: Option<&str>) -> (url: String)
        ensures
            url@ == self.channel_endpoint(id@, platform_name(platform)),
    ;

    /// The address to ask for the emotes usable everywhere.
    fn fetch_global(&self) -> (url: String)
        ensures
            url@ == self.global_endpoint(),
    ;
}

/// An emote as a provider describes it.
#[derive(Debug)]
pub struct Emote {
    /// The text that the emote stands for in a chat line.
    pub code: String,
    /// The provider's identifier of the emote.
    pub id: String,
    /// Where the image is served from.
    pub url: String,
}

/// The mathematical content of an [`Emote`].
pub ghost struct EmoteRecord {
    pub code: Seq<char>,
    pub id: Seq<char>,
    pub url: Seq<char>,
}

impl View for Emote {
    type V = EmoteRecord;

    open spec fn view(&self) -> EmoteRecord {
        EmoteRecord { code: self.code@, id: self.id@, url: self.url@ }
    }
}

/// The records of a list of emotes, in the order of the list.
pub open spec fn records(emotes: Seq<Emote>) -> Seq<EmoteRecord> {
    emotes.map_values(|e: Emote| e@)
}

impl Clone for Emote {
    fn clone(&self) -> (copy: Self)
        ensures
            copy@ == self@,
    {
        Emote { code: self.code.clone(), id: self.id.clone(), url: self.url.clone() }
    }
}

impl Default for Emote {
    /// A placeholder that stands for no real emote.
    fn default() -> (emote: Self)
        ensures
            emote@.code == "NaN"@,
            emote@.id == "000"@,
            emote@.url == "https://nowhere.com"@,
    {
        Emote {
            code: String::from_str("NaN"),
            id: String::from_str("000"),
            url: String::from_str("https://nowhere.com"),
        }
    }
}

/// The emote index of one channel: for every code that some provider
/// listed, the record that takes precedence. It is built once and only read
/// afterwards.
pub struct RemoteEmoteManager {
    emotes: StringHashMap<Emote>,
    failures: Vec<ProviderError>,
}

impl View for RemoteEmoteManager {
    type V = Map<Seq<char>, EmoteRecord>;

    closed spec fn view(&self) -> Map<Seq<char>, EmoteRecord> {
        self.emotes@.map_values(|e: Emote| e@)
    }
}

/// The failures of a list, as mathematical values.
pub open spec fn failures_of(errors: Seq<ProviderError>) -> Seq<ProviderFailure> {
    errors.map_values(|e: ProviderError| e@)
}

/// The failure of one reply, if it failed.
pub open spec fn failure_in<T>(reply: Result<T, ProviderError>) -> Seq<ProviderFailure> {
    match reply {
        Ok(_) => Seq::empty(),
        Err(error) => seq![error@],
    }
}

impl RemoteEmoteManager {
    /// Every record is filed under its own code.
    #[verifier::type_invariant]
    spec fn keyed_by_code(self) -> bool {
        forall|code: Seq<char>| #[trigger]
            self.emotes@.contains_key(code) ==> self.emotes@[code]@.code == code
    }

    /// The requests that were answered with a failure, in the order of the
    /// replies that the index was built from.
    pub closed spec fn failures_view(&self) -> Seq<ProviderFailure> {
        failures_of(self.failures@)
    }

    /// The addresses to fetch for the user `user` of `platform`, in the order
    /// in which [`RemoteEmoteManager::new`] expects the replies: for each
    /// provider the channel's document, then the global one; BetterTTV
    /// before 7TV.
    pub fn requests(user: &str, platform: Option<&str>) -> (urls: Vec<String>)
        ensures
            urls@.len() == 4,
            urls@[0]@ == better_tv::channel_address(user@, platform_name(platform)),
            urls@[1]@ == better_tv::global_address(),
            urls@[2]@ == seven_tv::channel_address(user@, platform_name(platform)),
            urls@[3]@ == seven_tv::global_address(),
    {
        let better_tv = BetterTVManager::new();
        let seven_tv = SevenTVManager::new();
        let mut urls: Vec<String> = Vec::new();
        urls.push(better_tv.fetch_for(user, platform));
        urls.push(better_tv.fetch_global());
        urls.push(seven_tv.fetch_for(user, platform));
        urls.push(seven_tv.fetch_global());
        urls
    }

    /// Builds the index from the replies to the four requests of
    /// [`RemoteEmoteManager::requests`]. Each provider makes its records of
    /// its own replies, and the records are merged in the order of the
    /// requests. So on a code that several replies hold, the global document
    /// of 7TV takes precedence over the channel's document of 7TV, that over
    /// the global document of BetterTTV, and that over the channel's document
    /// of BetterTTV.
    pub fn gather(
        better_tv_channel: Result<better_tv::EmoteData, ProviderError>,
        better_tv_global: Result<Vec<better_tv::ChannelEmote>, ProviderError>,
        seven_tv_channel: Result<seven_tv::Root, ProviderError>,
        seven_tv_global: Result<seven_tv::EmoteSet, ProviderError>,
    ) -> (manager: Self)
        ensures
            manager@ == merged(
                better_tv::channel_contribution(better_tv_channel) + better_tv::global_contribution(
                    better_tv_global,
                ) + seven_tv::channel_contribution(seven_tv_channel)
                    + seven_tv::global_contribution(seven_tv_global),
            ),
            manager.failures_view() == failure_in(better_tv_channel) + failure_in(better_tv_global)
                + failure_in(seven_tv_channel) + failure_in(seven_tv_global),
    {
        let better_tv = BetterTVManager::new();
        let seven_tv = SevenTVManager::new();
        let first = better_tv.channel_emotes(better_tv_channel);
        let second = better_tv.global_emotes(better_tv_global);
        let third = seven_tv.channel_emotes(seven_tv_channel);
        let fourth = seven_tv.global_emotes(seven_tv_global);
        let mut replies: Vec<Result<Vec<Emote>, ProviderError>> = Vec::new();
        replies.push(first);
        replies.push(second);
        replies.push(third);
        replies.push(fourth);
        proof {
            let all = replies@;
            let three = all.drop_last();
            let two = three.drop_last();
            let one = two.drop_last();
            assert(one.drop_last().len() == 0);
            reveal_with_fuel(contributed, 5);
            reveal_with_fuel(failed, 5);
            assert(contributed(all) =~= better_tv::channel_contribution(better_tv_channel)
                + better_tv::global_contribution(better_tv_global)
                + seven_tv::channel_contribution(seven_tv_channel)
                + seven_tv::global_contribution(seven_tv_global));
            assert(failed(all) =~= failure_in(better_tv_channel) + failure_in(better_tv_global)
                + failure_in(seven_tv_channel) + failure_in(seven_tv_global));
        }
        Self::new(replies)
    }

    /// Builds the index from the replies of the providers. The records of the
    /// successful replies are merged in the order of the replies, a later
    /// record replacing an earlier one with the same code; a failed reply
    /// contributes nothing and is kept for the log. Building never fails:
    /// where every reply failed the index is empty.
    pub fn new(replies: Vec<Result<Vec<Emote>, ProviderError>>) -> (manager: Self)
        ensures
            manager@ == merged(contributed(replies@)),
            manager.failures_view() == failed(replies@),
            (forall|i: int| 0 <= i < replies@.len() ==> (#[trigger] replies@[i]) is Err)
                ==> manager@ == Map::<Seq<char>, EmoteRecord>::empty(),
    {
        let mut emotes: StringHashMap<Emote> = StringHashMap::new();
        let mut failures: Vec<ProviderError> = Vec::new();
        proof {
            lemma_merged_empty();
            assert(emotes@.map_values(|e: Emote| e@) =~= merged(contributed(replies@.take(0))));
        }
        let mut i: usize = 0;
        while i < replies.len()
            invariant
                0 <= i <= replies.len(),
                emotes@.map_values(|e: Emote| e@) =~= merged(contributed(replies@.take(i as int))),
                failures_of(failures@) =~= failed(replies@.take(i as int)),
                forall|code: Seq<char>| #[trigger]
                    emotes@.contains_key(code) ==> emotes@[code]@.code == code,
            decreases replies.len() - i,
        {
            let ghost before = contributed(replies@.take(i as int));
            proof {
                assert(replies@.take(i as int + 1).drop_last() =~= replies@.take(i as int));
            }
            match &replies[i] {
                Ok(listed) => {
                    let mut j: usize = 0;
                    while j < listed.len()
                        invariant
                            0 <= j <= listed.len(),
                            emotes@.map_values(|e: Emote| e@) =~= merged(
                                before + records(listed@.take(j as int)),
                            ),
                            forall|code: Seq<char>| #[trigger]
                                emotes@.contains_key(code) ==> emotes@[code]@.code == code,
                        decreases listed.len() - j,
                    {
                        let emote = listed[j].clone();
                        proof {
                            assert(records(listed@.take(j as int + 1)) =~= records(
                                listed@.take(j as int),
                            ).push(emote@));
                            assert(before + records(listed@.take(j as int + 1)) =~= (before
                                + records(listed@.take(j as int))).push(emote@));
                            lemma_merged_push(before + records(listed@.take(j as int)), emote@);
                        }
                        emotes.insert(emote.code.clone(), emote);
                        j = j + 1;
                    }
                    proof {
                        assert(listed@.take(j as int) =~= listed@);
                    }
                },
                Err(error) => {
                    let ghost so_far = failures@;
                    failures.push(error.clone());
                    proof {
                        assert(failures_of(failures@) =~= failures_of(so_far).push(error@));
                        assert(before + Seq::<EmoteRecord>::empty() =~= before);
                    }
                },
            }
            i = i + 1;
        }
        proof {
            assert(replies@.take(i as int) =~= replies@);
            if forall|i: int| 0 <= i < replies@.len() ==> (#[trigger] replies@[i]) is Err {
                lemma_all_failed(replies@);
            }
        }
        RemoteEmoteManager { emotes, failures }
    }

    /// The record filed under `code`, if the index holds one.
    pub fn test_emote(&self, code: &str) -> (found: Option<&Emote>)
        ensures
            match found {
                Some(emote) => self@.contains_key(code@) && emote@ == self@[code@] && emote@.code
                    == code@,
                None => !self@.contains_key(code@),
            },
    {
        proof {
            use_type_invariant(self);
        }
        self.emotes.get(code)
    }

    /// The number of codes in the index.
    pub fn len(&self) -> (count: usize)
        ensures
            count == self@.len(),
    {
        proof {
            assert(self@.dom() =~= self.emotes@.dom());
        }
        self.emotes.len()
    }

    /// The requests that were answered with a failure.
    pub fn failures(&self) -> (errors: &Vec<ProviderError>)
        ensures
            failures_of(errors@) == self.failures_view(),
    {
        &self.failures
    }
}

} // verus!
