//! The platform's own emotes: where their images are served from.

use super::{records, Emote, EmoteRecord};
use crate::data::{Emote as Occurrence, EmoteOccurrence};
use vstd::prelude::*;
use vstd::string::*;

verus! {

/// The record of an emote that the platform found in a message: it keeps
/// the identifier and the code, and its image is the static, light,
/// double-size rendition on the platform's own servers.
pub open spec fn native_record(found: EmoteOccurrence) -> EmoteRecord {
    EmoteRecord {
        code: found.code,
        id: found.id,
        url: "https://static-cdn.jtvnw.net/emoticons/v2/"@ + found.id + "/static/light/2.0"@,
    }
}

/// The records of a list of occurrences, in the order of the list.
pub open spec fn native_records(found: Seq<Occurrence>) -> Seq<EmoteRecord> {
    found.map_values(|e: Occurrence| native_record(e@))
}

/// Gives each emote that the platform found in a message its record.
pub fn transform_emotes(emotes: &[Occurrence]) -> (transformed: Vec<Emote>)
    ensures
        records(transformed@) == native_records(emotes@),
{
    let mut transformed: Vec<Emote> = Vec::new();
    let mut i: usize = 0;
    while i < emotes.len()
        invariant
            0 <= i <= emotes.len(),
            records(transformed@) =~= native_records(emotes@.take(i as int)),
        decreases emotes.len() - i,
    {
        let found = &emotes[i];
        let mut url = String::from_str("https://static-cdn.jtvnw.net/emoticons/v2/");
        url.append(found.id.as_str());
        url.append("/static/light/2.0");
        let emote = Emote { id: found.id.clone(), code: found.code.clone(), url };
        let ghost so_far = transformed@;
        transformed.push(emote);
        proof {
            assert(records(transformed@) =~= records(so_far).push(emote@));
            assert(native_records(emotes@.take(i as int + 1)) =~= native_records(
                emotes@.take(i as int),
            ).push(native_record(emotes@[i as int]@)));
        }
        i = i + 1;
    }
    proof {
        assert(emotes@.take(i as int) =~= emotes@);
    }
    transformed
}

} // verus!
