//! Routing of one chat event: what is published and what is recorded.

use crate::data::{
    occurrences, ChannelData, ChatEvent, Emote, EmoteOccurrence, Message, MessageContent,
};
use crate::emotes::{EmoteRecord, RemoteEmoteManager};
use crate::text::{split_tokens, spans_view, token_spans};
use vstd::prelude::*;
use vstd::string::*;

verus! {

/// What is to be done with one posted message.
#[derive(Debug)]
pub struct Delivery {
    /// The message to publish.
    pub message: Message,
    /// The set of the store that keeps the channel's activity.
    pub key: String,
    /// The member to add to that set.
    pub record: String,
}

/// The name under which a message is published.
pub open spec fn event_name() -> Seq<char> {
    "new-message"@
}

/// The set that keeps the activity of the channel `channel_login` with the
/// identifier `id`.
pub open spec fn activity_key(channel_login: Seq<char>, id: Seq<char>) -> Seq<char> {
    "messages:"@ + channel_login + ":"@ + id
}

/// The line that records that `sender` posted `text`.
pub open spec fn activity_record(sender: Seq<char>, text: Seq<char>) -> Seq<char> {
    sender + ": "@ + text
}

/// Whether the token at `span` of `text` is a code of `index`.
pub open spec fn is_code(
    text: Seq<char>,
    index: Map<Seq<char>, EmoteRecord>,
    span: (int, int),
) -> bool {
    index.contains_key(text.subrange(span.0, span.1))
}

/// The occurrence of the emote that the token at `span` of `text` names.
pub open spec fn occurrence_at(
    text: Seq<char>,
    index: Map<Seq<char>, EmoteRecord>,
    span: (int, int),
) -> EmoteOccurrence {
    let record = index[text.subrange(span.0, span.1)];
    EmoteOccurrence { id: record.id, start: span.0, end: span.1, code: record.code }
}

/// The occurrences among the tokens at `spans`: one for each token that is
/// a code of `index`, in the order of the tokens, each with the range of
/// its token.
pub open spec fn matched_among(
    text: Seq<char>,
    index: Map<Seq<char>, EmoteRecord>,
    spans: Seq<(int, int)>,
) -> Seq<EmoteOccurrence> {
    spans.filter(|span: (int, int)| is_code(text, index, span)).map_values(
        |span: (int, int)| occurrence_at(text, index, span),
    )
}

/// The occurrences that the index finds in `text`.
pub open spec fn matched(text: Seq<char>, index: Map<Seq<char>, EmoteRecord>) -> Seq<
    EmoteOccurrence,
> {
    matched_among(text, index, token_spans(text))
}

/// The emotes of a posted message: those that the platform found, followed
/// by those that the index finds.
pub open spec fn enriched(
    sender: Seq<char>,
    text: Seq<char>,
    native: Seq<EmoteOccurrence>,
    index: Map<Seq<char>, EmoteRecord>,
) -> MessageContent {
    MessageContent { name: sender, message: text, emotes: native + matched(text, index) }
}

/// One more token adds its occurrence if it is a code, and nothing else.
pub proof fn lemma_matched_among_push(
    text: Seq<char>,
    index: Map<Seq<char>, EmoteRecord>,
    spans: Seq<(int, int)>,
    span: (int, int),
)
    ensures
        matched_among(text, index, spans.push(span)) == if is_code(text, index, span) {
            matched_among(text, index, spans).push(occurrence_at(text, index, span))
        } else {
            matched_among(text, index, spans)
        },
{
    reveal(Seq::filter);
    let keep = |span: (int, int)| is_code(text, index, span);
    assert(spans.push(span).drop_last() =~= spans);
    assert(spans.push(span).filter(keep) =~= if keep(span) {
        spans.filter(keep).push(span)
    } else {
        spans.filter(keep)
    });
    if is_code(text, index, span) {
        assert(matched_among(text, index, spans.push(span)) =~= matched_among(
            text,
            index,
            spans,
        ).push(occurrence_at(text, index, span)));
    }
}

/// Every record of `index` is filed under its own code.
pub open spec fn keyed_by_code(index: Map<Seq<char>, EmoteRecord>) -> bool {
    forall|code: Seq<char>| #[trigger] index.contains_key(code) ==> index[code].code == code
}

/// What is found stands where its code stands: every occurrence among the
/// tokens at `spans` has the range of a token, the characters in that range
/// spell its code, and its identifier is the one that the index files under
/// that code.
pub proof fn lemma_matched_among_covers(
    text: Seq<char>,
    index: Map<Seq<char>, EmoteRecord>,
    spans: Seq<(int, int)>,
)
    requires
        keyed_by_code(index),
    ensures
        matched_among(text, index, spans).len() <= spans.len(),
        forall|k: int|
            0 <= k < matched_among(text, index, spans).len() ==> {
                let found = #[trigger] matched_among(text, index, spans)[k];
                &&& spans.contains((found.start, found.end))
                &&& text.subrange(found.start, found.end) == found.code
                &&& index.contains_key(found.code)
                &&& index[found.code].id == found.id
            },
    decreases spans.len(),
{
    if spans.len() == 0 {
        reveal(Seq::filter);
        assert(matched_among(text, index, spans) =~= Seq::<EmoteOccurrence>::empty());
    } else {
        let earlier = spans.drop_last();
        let span = spans.last();
        lemma_matched_among_covers(text, index, earlier);
        lemma_matched_among_push(text, index, earlier, span);
        assert(earlier.push(span) =~= spans);
        let all = matched_among(text, index, spans);
        assert forall|k: int| 0 <= k < all.len() implies {
            let found = #[trigger] all[k];
            &&& spans.contains((found.start, found.end))
            &&& text.subrange(found.start, found.end) == found.code
            &&& index.contains_key(found.code)
            &&& index[found.code].id == found.id
        } by {
            let before = matched_among(text, index, earlier);
            if k < before.len() {
                assert(all[k] == before[k]);
                let found = before[k];
                assert(earlier.contains((found.start, found.end)));
                let at = choose|at: int| 0 <= at < earlier.len() && earlier[at] == (found.start, found.end);
                assert(spans[at] == (found.start, found.end));
            } else {
                assert(is_code(text, index, span));
                assert(all[k] == occurrence_at(text, index, span));
                assert(spans[spans.len() - 1] == span);
            }
        }
    }
}

/// An empty index finds nothing.
pub proof fn lemma_matched_in_empty_index(text: Seq<char>, spans: Seq<(int, int)>)
    ensures
        matched_among(text, Map::<Seq<char>, EmoteRecord>::empty(), spans) == Seq::<
            EmoteOccurrence,
        >::empty(),
    decreases spans.len(),
{
    let index = Map::<Seq<char>, EmoteRecord>::empty();
    if spans.len() == 0 {
        reveal(Seq::filter);
        assert(matched_among(text, index, spans) =~= Seq::<EmoteOccurrence>::empty());
    } else {
        lemma_matched_in_empty_index(text, spans.drop_last());
        lemma_matched_among_push(text, index, spans.drop_last(), spans.last());
        assert(spans.drop_last().push(spans.last()) =~= spans);
    }
}

/// Against an empty index a posted message keeps the emotes that the
/// platform found, and no others.
pub proof fn lemma_enriched_by_empty_index(
    sender: Seq<char>,
    text: Seq<char>,
    native: Seq<EmoteOccurrence>,
)
    ensures
        enriched(sender, text, native, Map::<Seq<char>, EmoteRecord>::empty()).emotes == native,
{
    lemma_matched_in_empty_index(text, token_spans(text));
    assert(native + Seq::<EmoteOccurrence>::empty() =~= native);
}

/// Whether `found` stands in `text` where its code stands: its range lies
/// within the text, is not empty, and holds the characters of its code.
pub open spec fn spells_code(text: Seq<char>, found: EmoteOccurrence) -> bool {
    &&& 0 <= found.start < found.end <= text.len()
    &&& text.subrange(found.start, found.end) == found.code
}

/// The occurrences that `emote_manager` finds in `text`: one for each token
/// that is a code of the index, in the order of the tokens. The range of an
/// occurrence is the range of its token, counted in characters.
pub fn find_emotes(text: &str, emote_manager: &RemoteEmoteManager) -> (found: Vec<Emote>)
    ensures
        occurrences(found@) == matched(text@, emote_manager@),
        forall|k: int| 0 <= k < found@.len() ==> spells_code(text@, (#[trigger] found@[k])@),
{
    let spans = split_tokens(text);
    let mut found: Vec<Emote> = Vec::new();
    let mut i: usize = 0;
    proof {
        reveal(Seq::filter);
        assert(occurrences(found@) =~= matched_among(
            text@,
            emote_manager@,
            spans_view(spans@).take(0),
        ));
    }
    while i < spans.len()
        invariant
            0 <= i <= spans.len(),
            forall|k: int| 0 <= k < spans@.len() ==> (#[trigger] spans@[k]).0 < spans@[k].1 <= text@.len(),
            occurrences(found@) =~= matched_among(
                text@,
                emote_manager@,
                spans_view(spans@).take(i as int),
            ),
            forall|k: int| 0 <= k < found@.len() ==> spells_code(text@, (#[trigger] found@[k])@),
        decreases spans.len() - i,
    {
        let (start, end) = spans[i];
        let token = text.substring_char(start, end);
        let ghost span = (start as int, end as int);
        proof {
            assert(spans_view(spans@).take(i as int + 1) =~= spans_view(spans@).take(i as int).push(
                span,
            ));
            lemma_matched_among_push(
                text@,
                emote_manager@,
                spans_view(spans@).take(i as int),
                span,
            );
        }
        match emote_manager.test_emote(token) {
            Some(record) => {
                let emote = Emote {
                    id: record.id.clone(),
                    char_range: start..end,
                    code: record.code.clone(),
                };
                let ghost so_far = found@;
                found.push(emote);
                proof {
                    assert(occurrences(found@) =~= occurrences(so_far).push(emote@));
                }
            },
            None => {},
        }
        i = i + 1;
    }
    proof {
        assert(spans_view(spans@).take(i as int) =~= spans_view(spans@));
    }
    found
}

/// The mathematical content of a [`Delivery`].
pub ghost struct DeliveryContent {
    pub message: MessageContent,
    pub key: Seq<char>,
    pub record: Seq<char>,
}

impl View for Delivery {
    type V = DeliveryContent;

    open spec fn view(&self) -> DeliveryContent {
        DeliveryContent { message: self.message@, key: self.key@, record: self.record@ }
    }
}

/// What is to be done with `message` in the channel with the identifier
/// `id`, against `index`: a posted message is published with the emotes
/// that the platform found followed by those that the index finds, and
/// recorded under the key of the channel that it was posted to; any other
/// event is passed over.
pub open spec fn routed(
    message: ChatEvent,
    id: Seq<char>,
    index: Map<Seq<char>, EmoteRecord>,
) -> Option<DeliveryContent> {
    match message {
        ChatEvent::Posted { channel_login, sender, text, emotes } => Some(
            DeliveryContent {
                message: enriched(sender@, text@, occurrences(emotes@), index),
                key: activity_key(channel_login@, id),
                record: activity_record(sender@, text@),
            },
        ),
        _ => None,
    }
}

/// A delivery or its absence, as a mathematical value.
pub open spec fn delivery_view(delivery: Option<Delivery>) -> Option<DeliveryContent> {
    match delivery {
        Some(delivery) => Some(delivery@),
        None => None,
    }
}

/// The name under which a message is published.
pub fn publish_as() -> (name: &'static str)
    ensures
        name@ == event_name(),
{
    "new-message"
}

/// Routes one chat event of the channel `channel_data`. A posted message
/// is to be published with its emotes and recorded as a line of the
/// channel's activity; every other event is ignored.
pub fn handle_message(
    message: ChatEvent,
    channel_data: &ChannelData,
    emote_manager: &RemoteEmoteManager,
) -> (delivery: Option<Delivery>)
    ensures
        delivery_view(delivery) == routed(message, channel_data.id@, emote_manager@),
{
    match message {
        ChatEvent::Posted { channel_login, sender, text, emotes } => {
            let mut record = sender.clone();
            record.append(": ");
            record.append(text.as_str());
            let mut key = String::from_str("messages:");
            key.append(channel_login.as_str());
            key.append(":");
            key.append(channel_data.id.as_str());
            let mut emotes = emotes;
            let ghost native = occurrences(emotes@);
            let mut found = find_emotes(text.as_str(), emote_manager);
            let ghost matched_view = occurrences(found@);
            emotes.append(&mut found);
            proof {
                assert(occurrences(emotes@) =~= native + matched_view);
            }
            Some(Delivery { message: Message { name: sender, message: text, emotes }, key, record })
        },
        _ => None,
    }
}

} // verus!
