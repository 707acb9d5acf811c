//! The 7TV provider: where its documents live and how its records become
//! emote records.

use super::{records, Emote as EmoteEntry, EmoteRecord, EmoteStorage, ProviderError};
use vstd::prelude::*;
use vstd::string::*;

verus! {

/// What 7TV knows of an emote wherever it is used.
#[derive(Debug)]
pub struct EmoteData {
    pub id: String,
    /// The name under which the emote was published.
    pub name: String,
    pub listed: bool,
    pub animated: bool,
}

/// One entry of an emote set.
#[derive(Debug)]
pub struct Emote {
    pub id: String,
    /// The name that the set gives the emote, which may differ from the
    /// published one.
    pub name: String,
    pub timestamp: u64,
    pub data: EmoteData,
}

/// The mathematical content of an [`Emote`] of a set, as far as a record
/// depends on it.
pub ghost struct SetEntry {
    pub id: Seq<char>,
    pub published_name: Seq<char>,
}

impl View for Emote {
    type V = SetEntry;

    open spec fn view(&self) -> SetEntry {
        SetEntry { id: self.id@, published_name: self.data.name@ }
    }
}

/// A named collection of emotes.
#[derive(Debug)]
pub struct EmoteSet {
    pub id: String,
    pub name: String,
    pub emotes: Vec<Emote>,
}

/// The document that 7TV serves for one user of a platform.
#[derive(Debug)]
pub struct Root {
    pub id: String,
    pub platform: String,
    pub username: String,
    pub display_name: String,
    pub emote_set: EmoteSet,
}

/// The emote record that stands for an entry of a set: it goes by the
/// published name, and its image is the double-size WebP rendition.
pub open spec fn entry_record(entry: SetEntry) -> EmoteRecord {
    EmoteRecord {
        code: entry.published_name,
        id: entry.id,
        url: "https://cdn.7tv.app/emote/"@ + entry.id + "/2x.webp"@,
    }
}

/// The records of a whole set, in the order of the set.
pub open spec fn entry_records(entries: Seq<Emote>) -> Seq<EmoteRecord> {
    entries.map_values(|e: Emote| entry_record(e@))
}

/// What the reply to the channel request contributes to an index: the
/// emotes of the user's active set, or nothing where the request failed.
pub open spec fn channel_contribution(reply: Result<Root, ProviderError>) -> Seq<EmoteRecord> {
    match reply {
        Ok(root) => entry_records(root.emote_set.emotes@),
        Err(_) => Seq::empty(),
    }
}

/// What the reply to the global request contributes to an index.
pub open spec fn global_contribution(reply: Result<EmoteSet, ProviderError>) -> Seq<EmoteRecord> {
    match reply {
        Ok(set) => entry_records(set.emotes@),
        Err(_) => Seq::empty(),
    }
}

/// Where 7TV lists the emotes of the user `id` of `platform`.
pub open spec fn channel_address(id: Seq<char>, platform: Seq<char>) -> Seq<char> {
    "https://7tv.io/v3/users/"@ + platform + "/"@ + id
}

/// Where 7TV lists the emotes that every channel can use.
pub open spec fn global_address() -> Seq<char> {
    "https://7tv.io/v3/emote-sets/62cdd34e72a832540de95857"@
}

/// The 7TV provider.
#[derive(Debug)]
pub struct SevenTVManager {}

impl SevenTVManager {
    pub fn new() -> (manager: Self) {
        SevenTVManager {  }
    }

    /// Turns one entry of a set into an emote record.
    pub fn transform(entry: &Emote) -> (emote: EmoteEntry)
        ensures
            emote@ == entry_record(entry@),
    {
        let mut url = String::from_str("https://cdn.7tv.app/emote/");
        url.append(entry.id.as_str());
        url.append("/2x.webp");
        EmoteEntry { code: entry.data.name.clone(), id: entry.id.clone(), url }
    }

    /// The records of the entries of `set`.
    fn transform_set(set: &EmoteSet) -> (emotes: Vec<EmoteEntry>)
        ensures
            records(emotes@) == entry_records(set.emotes@),
    {
        let mut emotes: Vec<EmoteEntry> = Vec::new();
        let mut i: usize = 0;
        while i < set.emotes.len()
            invariant
                0 <= i <= set.emotes.len(),
                records(emotes@) =~= entry_records(set.emotes@.take(i as int)),
            decreases set.emotes.len() - i,
        {
            let emote = Self::transform(&set.emotes[i]);
            let ghost so_far = emotes@;
            emotes.push(emote);
            proof {
                assert(records(emotes@) =~= records(so_far).push(emote@));
                assert(entry_records(set.emotes@.take(i as int + 1)) =~= entry_records(
                    set.emotes@.take(i as int),
                ).push(entry_record(set.emotes@[i as int]@)));
            }
            i = i + 1;
        }
        proof {
            assert(set.emotes@.take(i as int) =~= set.emotes@);
        }
        emotes
    }

    /// What the reply to the channel request contributes: the emotes of the
    /// user's active set, or the failure as it came.
    pub fn channel_emotes(&self, reply: Result<Root, ProviderError>) -> (emotes: Result<
        Vec<EmoteEntry>,
        ProviderError,
    >)
        ensures
            match reply {
                Ok(root) => emotes is Ok && records(emotes->Ok_0@) == entry_records(
                    root.emote_set.emotes@,
                ),
                Err(error) => emotes is Err && emotes->Err_0@ == error@,
            },
    {
        match reply {
            Ok(root) => Ok(Self::transform_set(&root.emote_set)),
            Err(error) => Err(error),
        }
    }

    /// What the reply to the global request contributes.
    pub fn global_emotes(&self, reply: Result<EmoteSet, ProviderError>) -> (emotes: Result<
        Vec<EmoteEntry>,
        ProviderError,
    >)
        ensures
            match reply {
                Ok(set) => emotes is Ok && records(emotes->Ok_0@) == entry_records(set.emotes@),
                Err(error) => emotes is Err && emotes->Err_0@ == error@,
            },
    {
        match reply {
            Ok(set) => Ok(Self::transform_set(&set)),
            Err(error) => Err(error),
        }
    }
}

impl EmoteStorage for SevenTVManager {
    open spec fn channel_endpoint(&self, id: Seq<char>, platform: Seq<char>) -> Seq<char> {
        channel_address(id, platform)
    }

    open spec fn global_endpoint(&self) -> Seq<char> {
        global_address()
    }

    fn fetch_for(&self, id: &str, platform: Option<&str>) -> (url: String) {
        let platform = match platform {
            Some(name) => name,
            None => "twitch",
        };
        let mut url = String::from_str("https://7tv.io/v3/users/");
        url.append(platform);
        url.append("/");
        url.append(id);
        url
    }

    fn fetch_global(&self) -> (url: String) {
        String::from_str("https://7tv.io/v3/emote-sets/62cdd34e72a832540de95857")
    }
}

} // verus!
