//! The BetterTTV provider: where its documents live and how its records
//! become emote records.

use super::{records, Emote, EmoteRecord, EmoteStorage, ProviderError};
use vstd::prelude::*;
use vstd::string::*;

verus! {

/// One emote as BetterTTV lists it.
#[derive(Debug)]
pub struct ChannelEmote {
    pub id: String,
    pub code: String,
    /// The file type of the image, such as `png` or `gif`.
    pub image_type: String,
    pub animated: bool,
}

/// The mathematical content of a [`ChannelEmote`].
pub ghost struct ListedEmote {
    pub id: Seq<char>,
    pub code: Seq<char>,
    pub image_type: Seq<char>,
    pub animated: bool,
}

impl View for ChannelEmote {
    type V = ListedEmote;

    open spec fn view(&self) -> ListedEmote {
        ListedEmote {
            id: self.id@,
            code: self.code@,
            image_type: self.image_type@,
            animated: self.animated,
        }
    }
}

/// The document that BetterTTV serves for one user.
#[derive(Debug)]
pub struct EmoteData {
    pub id: String,
    /// The emotes that the channel uploaded itself.
    pub channel_emotes: Vec<ChannelEmote>,
    /// The emotes of other channels that this channel has adopted.
    pub shared_emotes: Vec<ChannelEmote>,
}

/// The emote record that stands for a BetterTTV emote: its code is wrapped
/// in colons and its image is the double-size rendition.
pub open spec fn listed_record(listed: ListedEmote) -> EmoteRecord {
    EmoteRecord {
        code: ":"@ + listed.code + ":"@,
        id: listed.id,
        url: "https://cdn.betterttv.net/emote/"@ + listed.id + "/2x."@ + listed.image_type,
    }
}

/// The records of a whole list, in the order of the list.
pub open spec fn listed_records(listed: Seq<ChannelEmote>) -> Seq<EmoteRecord> {
    listed.map_values(|e: ChannelEmote| listed_record(e@))
}

/// What the reply to the channel request contributes to an index: the
/// channel's own emotes followed by the adopted ones, or nothing where the
/// request failed.
pub open spec fn channel_contribution(reply: Result<EmoteData, ProviderError>) -> Seq<EmoteRecord> {
    match reply {
        Ok(data) => listed_records(data.channel_emotes@) + listed_records(data.shared_emotes@),
        Err(_) => Seq::empty(),
    }
}

/// What the reply to the global request contributes to an index.
pub open spec fn global_contribution(reply: Result<Vec<ChannelEmote>, ProviderError>) -> Seq<
    EmoteRecord,
> {
    match reply {
        Ok(listed) => listed_records(listed@),
        Err(_) => Seq::empty(),
    }
}

/// Where BetterTTV lists the emotes of the user `id` of `platform`.
pub open spec fn channel_address(id: Seq<char>, platform: Seq<char>) -> Seq<char> {
    "https://api.betterttv.net/3/cached/users/"@ + platform + "/"@ + id
}

/// Where BetterTTV lists the emotes that every channel can use.
pub open spec fn global_address() -> Seq<char> {
    "https://api.betterttv.net/3/cached/global"@
}

/// The BetterTTV provider.
#[derive(Debug)]
pub struct BetterTVManager {}

impl BetterTVManager {
    pub fn new() -> (manager: Self) {
        BetterTVManager {  }
    }

    /// Turns one BetterTTV emote into an emote record.
    pub fn transform(listed: &ChannelEmote) -> (emote: Emote)
        ensures
            emote@ == listed_record(listed@),
    {
        let mut code = String::from_str(":");
        code.append(listed.code.as_str());
        code.append(":");
        let mut url = String::from_str("https://cdn.betterttv.net/emote/");
        url.append(listed.id.as_str());
        url.append("/2x.");
        url.append(listed.image_type.as_str());
        Emote { code, id: listed.id.clone(), url }
    }

    /// Appends the records of `listed` to `out`.
    fn transform_all(listed: &Vec<ChannelEmote>, out: &mut Vec<Emote>)
        ensures
            records(final(out)@) == records(old(out)@) + listed_records(listed@),
    {
        let ghost before = records(out@);
        let mut i: usize = 0;
        while i < listed.len()
            invariant
                0 <= i <= listed.len(),
                records(out@) =~= before + listed_records(listed@.take(i as int)),
            decreases listed.len() - i,
        {
            let emote = Self::transform(&listed[i]);
            let ghost so_far = out@;
            out.push(emote);
            proof {
                assert(records(out@) =~= records(so_far).push(emote@));
                assert(listed_records(listed@.take(i as int + 1)) =~= listed_records(
                    listed@.take(i as int),
                ).push(listed_record(listed@[i as int]@)));
            }
            i = i + 1;
        }
        proof {
            assert(listed@.take(i as int) =~= listed@);
        }
    }

    /// What the reply to the channel request contributes: the channel's own
    /// emotes followed by the adopted ones, or the failure as it came.
    pub fn channel_emotes(&self, reply: Result<EmoteData, ProviderError>) -> (emotes: Result<
        Vec<Emote>,
        ProviderError,
    >)
        ensures
            match reply {
                Ok(data) => emotes is Ok && records(emotes->Ok_0@) == listed_records(
                    data.channel_emotes@,
                ) + listed_records(data.shared_emotes@),
                Err(error) => emotes is Err && emotes->Err_0@ == error@,
            },
    {
        match reply {
            Ok(data) => {
                let mut emotes: Vec<Emote> = Vec::new();
                Self::transform_all(&data.channel_emotes, &mut emotes);
                Self::transform_all(&data.shared_emotes, &mut emotes);
                Ok(emotes)
            },
            Err(error) => Err(error),
        }
    }

    /// What the reply to the global request contributes.
    pub fn global_emotes(&self, reply: Result<Vec<ChannelEmote>, ProviderError>) -> (emotes: Result<
        Vec<Emote>,
        ProviderError,
    >)
        ensures
            match reply {
                Ok(listed) => emotes is Ok && records(emotes->Ok_0@) == listed_records(listed@),
                Err(error) => emotes is Err && emotes->Err_0@ == error@,
            },
    {
        match reply {
            Ok(listed) => {
                let mut emotes: Vec<Emote> = Vec::new();
                Self::transform_all(&listed, &mut emotes);
                Ok(emotes)
            },
            Err(error) => Err(error),
        }
    }
}

impl EmoteStorage for BetterTVManager {
    open spec fn channel_endpoint(&self, id: Seq<char>, platform: Seq<char>) -> Seq<char> {
        channel_address(id, platform)
    }

    open spec fn global_endpoint(&self) -> Seq<char> {
        global_address()
    }

    fn fetch_for(&self, id: &str, platform: Option<&str>) -> (url: String) {
        let platform = match platform {
            Some(name) => name,
            None => "twitch",
        };
        let mut url = String::from_str("https://api.betterttv.net/3/cached/users/");
        url.append(platform);
        url.append("/");
        url.append(id);
        url
    }

    fn fetch_global(&self) -> (url: String) {
        String::from_str("https://api.betterttv.net/3/cached/global")
    }
}

} // verus!
