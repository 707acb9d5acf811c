//! The values that cross the boundary of the library: chat events as they
//! come in, and enriched messages as they go out.

use vstd::prelude::*;
use vstd::string::*;

verus! {

/// One place in a message where an emote stands for a piece of the text.
#[derive(Debug)]
pub struct Emote {
    pub id: String,
    /// The characters of the message that the emote replaces, counted in
    /// characters, not in bytes.
    pub char_range: std::ops::Range<usize>,
    /// This is the text that this emote replaces, e.g. `Kappa` or `:)`.
    pub code: String,
}

/// The mathematical content of an [`Emote`].
pub ghost struct EmoteOccurrence {
    pub id: Seq<char>,
    pub start: int,
    pub end: int,
    pub code: Seq<char>,
}

impl View for Emote {
    type V = EmoteOccurrence;

    open spec fn view(&self) -> EmoteOccurrence {
        EmoteOccurrence {
            id: self.id@,
            start: self.char_range.start as int,
            end: self.char_range.end as int,
            code: self.code@,
        }
    }
}

impl Clone for Emote {
    fn clone(&self) -> (copy: Self)
        ensures
            copy@ == self@,
    {
        Emote {
            id: self.id.clone(),
            char_range: self.char_range.start..self.char_range.end,
            code: self.code.clone(),
        }
    }
}

/// The occurrences of a list of emotes, in the order of the list.
pub open spec fn occurrences(emotes: Seq<Emote>) -> Seq<EmoteOccurrence> {
    emotes.map_values(|e: Emote| e@)
}

/// A chat message with the emotes found in it.
#[derive(Debug)]
pub struct Message {
    /// Who sent the message.
    pub name: String,
    /// The text as it was sent.
    pub message: String,
    /// Where emotes stand in the text.
    pub emotes: Vec<Emote>,
}

/// The mathematical content of a [`Message`].
pub ghost struct MessageContent {
    pub name: Seq<char>,
    pub message: Seq<char>,
    pub emotes: Seq<EmoteOccurrence>,
}

impl View for Message {
    type V = MessageContent;

    open spec fn view(&self) -> MessageContent {
        MessageContent {
            name: self.name@,
            message: self.message@,
            emotes: occurrences(self.emotes@),
        }
    }
}

/// A channel as the platform knows it.
#[derive(Debug)]
pub struct ChannelData {
    /// The name under which the channel is joined.
    pub user_login: String,
    /// The identifier that stays the same when the channel is renamed.
    pub id: String,
}

/// The mathematical content of a [`ChannelData`].
pub ghost struct ChannelIdentity {
    pub user_login: Seq<char>,
    pub id: Seq<char>,
}

impl View for ChannelData {
    type V = ChannelIdentity;

    open spec fn view(&self) -> ChannelIdentity {
        ChannelIdentity { user_login: self.user_login@, id: self.id@ }
    }
}

impl Clone for ChannelData {
    fn clone(&self) -> (copy: Self)
        ensures
            copy@ == self@,
    {
        ChannelData { user_login: self.user_login.clone(), id: self.id.clone() }
    }
}

/// Something that happened in a channel.
#[derive(Debug)]
pub enum ChatEvent {
    /// A user posted a message.
    Posted {
        /// The channel that the message was posted to.
        channel_login: String,
        /// The name of the user who posted it.
        sender: String,
        /// The text of the message.
        text: String,
        /// The emotes that the platform itself found in the text.
        emotes: Vec<Emote>,
    },
    /// A user entered the channel.
    Joined { channel_login: String, user_login: String },
    /// A user left the channel.
    Parted { channel_login: String, user_login: String },
    /// Anything else.
    Other,
}

} // verus!
