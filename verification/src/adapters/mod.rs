//! The collaborators of a session, each reduced to the requests it is sent
//! and to what is made of its replies.

pub mod redis;
