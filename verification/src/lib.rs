//! The core of a chat watcher, free of input and output.
//!
//! A program that watches chat channels owns the connections: to the store,
//! to the platform, to the emote providers and to the window that shows the
//! messages. This library owns the decisions. It is told what happened and
//! answers with what is to be done, and every answer is proved to be the one
//! that its contract describes.
//!
//! - [`messages`] holds the session of one channel: the steps from the
//!   request to watch the channel to the end of its stream, and the routing
//!   of each chat event.
//! - [`emotes`] holds the emote providers and the index that merges what
//!   they list, with the order of precedence among them.
//! - [`adapters`] holds the token provider, which keeps the chat credential
//!   in the store.
//! - [`data`] holds the values that come in and go out.
//! - [`text`] cuts a chat line into tokens.

pub mod adapters;
pub mod data;
pub mod emotes;
pub mod messages;
pub mod text;
